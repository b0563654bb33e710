//! The linear program that a set of targets and a list of salts stand for.
//!
//! The program has one variable per salt, its dosage in grams per litre,
//! which may not be negative. Every coefficient and every bound is a
//! fixed-point number with twelve decimals: the integer `n` stands for
//! `n / 10^12`. A mass fraction of a million millionths is thus the
//! coefficient `10^12`, and a bound of 40 g/L is `40 * 10^12`.
use vstd::prelude::*;
use crate::models::{Nutrient, Salt, SaltView, salt_views};
use crate::targets::{NutrientTargets, Range};
use crate::units::{
    chloride_ceiling, chloride_ceiling_of, fine_tuning_ceiling, macro_bound, macro_bound_of,
    micro_bound, micro_bound_of,
};

verus! {

/// What the number one is, with twelve decimals.
pub const ONE: i128 = 1_000_000_000_000;

/// How a row's value relates to its bound.
#[derive(Clone, Copy, Debug, PartialEq, Eq, Structural)]
pub enum Relation {
    AtLeast,
    AtMost,
    Equal,
}

/// One row of the program: the sum of coefficient times variable, its
/// relation to the bound, and the bound.
#[derive(Debug, PartialEq, Eq)]
pub struct Constraint {
    /// One coefficient per variable; zero where the variable takes no part.
    pub coefficients: Vec<i128>,
    pub relation: Relation,
    pub bound: i128,
}

/// A linear program to be minimised.
#[derive(Debug, PartialEq, Eq)]
pub struct LinearProgram {
    /// The number of variables, each bounded below by zero.
    pub variables: usize,
    /// The coefficients of the sum to minimise.
    pub objective: Vec<i128>,
    /// The coefficients of the fourteen nutrient levels, in the order of
    /// [`nutrient_order`].
    pub expressions: Vec<Vec<i128>>,
    pub constraints: Vec<Constraint>,
}

/// Why a program was not built: there is no salt to dose.
#[derive(Clone, Copy, Debug, PartialEq, Eq, Structural)]
pub struct EmptySaltSetError;

/// What a [`Constraint`] is, as a mathematical value.
pub struct ConstraintView {
    pub coefficients: Seq<int>,
    pub relation: Relation,
    pub bound: int,
}

/// What a [`LinearProgram`] is, as a mathematical value.
pub struct ProgramView {
    pub variables: nat,
    pub objective: Seq<int>,
    pub expressions: Seq<Seq<int>>,
    pub constraints: Seq<ConstraintView>,
}

impl ProgramView {
    /// Whether the program is put together rightly: the objective and every
    /// row have one coefficient per variable.
    pub open spec fn well_formed(self) -> bool {
        &&& self.objective.len() == self.variables
        &&& forall|k: int|
            0 <= k < self.expressions.len() ==> (#[trigger] self.expressions[k]).len()
                == self.variables
        &&& forall|j: int|
            0 <= j < self.constraints.len() ==> (#[trigger] self.constraints[j]).coefficients.len()
                == self.variables
    }
}

/// A row of machine integers as a row of integers.
pub open spec fn row_view(row: Seq<i128>) -> Seq<int> {
    Seq::new(row.len(), |i: int| row[i] as int)
}

/// The views of a sequence of rows, in order.
pub open spec fn constraint_views(constraints: Seq<Constraint>) -> Seq<ConstraintView> {
    Seq::new(constraints.len(), |i: int| constraints[i]@)
}

impl View for Constraint {
    type V = ConstraintView;

    open spec fn view(&self) -> ConstraintView {
        ConstraintView {
            coefficients: row_view(self.coefficients@),
            relation: self.relation,
            bound: self.bound as int,
        }
    }
}

impl View for LinearProgram {
    type V = ProgramView;

    open spec fn view(&self) -> ProgramView {
        ProgramView {
            variables: self.variables as nat,
            objective: row_view(self.objective@),
            expressions: Seq::new(
                self.expressions@.len(),
                |i: int| row_view(self.expressions@[i]@),
            ),
            constraints: constraint_views(self.constraints@),
        }
    }
}

/// The nutrients in the order in which a program lists their expressions.
pub open spec fn nutrient_order() -> Seq<Nutrient> {
    seq![
        Nutrient::Nh4,
        Nutrient::No3,
        Nutrient::K,
        Nutrient::P,
        Nutrient::Ca,
        Nutrient::Mg,
        Nutrient::S,
        Nutrient::Cl,
        Nutrient::Fe,
        Nutrient::Mn,
        Nutrient::Zn,
        Nutrient::Cu,
        Nutrient::B,
        Nutrient::Mo,
    ]
}

/// The coefficients of a nutrient's level: each salt's mass fraction.
pub open spec fn fraction_row(salts: Seq<SaltView>, nutrient: Nutrient) -> Seq<int> {
    Seq::new(salts.len(), |i: int| 1_000_000 * salts[i].fraction(nutrient) as int)
}

/// The coefficients of the total nitrogen: ammonium and nitrate together.
pub open spec fn nitrogen_row(salts: Seq<SaltView>) -> Seq<int> {
    Seq::new(salts.len(), |i: int| 1_000_000 * (salts[i].nh4 + salts[i].no3) as int)
}

/// The coefficients of the row that pins the ammonium share: the ammonium,
/// less the ratio times the total nitrogen. With the ratio in millionths
/// that is, at twelve decimals, a million times the ammonium fraction less
/// `ratio` times the nitrogen fraction. The row is zero exactly where
/// ammonium is `ratio` millionths of the total.
pub open spec fn ratio_row(salts: Seq<SaltView>, ratio: int) -> Seq<int> {
    Seq::new(
        salts.len(),
        |i: int| 1_000_000 * salts[i].nh4 - ratio * (salts[i].nh4 + salts[i].no3),
    )
}

/// The sum of all variables: each with the coefficient one.
pub open spec fn total_mass_row(variables: nat) -> Seq<int> {
    Seq::new(variables, |i: int| 1_000_000_000_000int)
}

pub open spec fn at_least(row: Seq<int>, bound: int) -> ConstraintView {
    ConstraintView { coefficients: row, relation: Relation::AtLeast, bound }
}

pub open spec fn at_most(row: Seq<int>, bound: int) -> ConstraintView {
    ConstraintView { coefficients: row, relation: Relation::AtMost, bound }
}

pub open spec fn equal_to(row: Seq<int>, bound: int) -> ConstraintView {
    ConstraintView { coefficients: row, relation: Relation::Equal, bound }
}

/// The two rows that keep a row's value between `low` and `high`.
pub open spec fn between(row: Seq<int>, low: int, high: int) -> Seq<ConstraintView> {
    seq![at_least(row, low), at_most(row, high)]
}

/// The two rows that keep a macronutrient within `range`.
pub open spec fn macronutrient_range(
    salts: Seq<SaltView>,
    nutrient: Nutrient,
    range: Range,
) -> Seq<ConstraintView> {
    between(
        fraction_row(salts, nutrient),
        macro_bound(range.min as int),
        macro_bound(range.max as int),
    )
}

/// The two rows that keep a micronutrient within `range`, which is given in
/// mg/L.
pub open spec fn micronutrient_range(
    salts: Seq<SaltView>,
    nutrient: Nutrient,
    range: Range,
) -> Seq<ConstraintView> {
    between(
        fraction_row(salts, nutrient),
        micro_bound(range.min as int),
        micro_bound(range.max as int),
    )
}

/// The two rows that keep chloride within `range`, under the ceiling that
/// fine-tuning lowers.
pub open spec fn chloride_range(salts: Seq<SaltView>, range: Range, fine_tuning: bool) -> Seq<
    ConstraintView,
> {
    between(
        fraction_row(salts, Nutrient::Cl),
        macro_bound(range.min as int),
        chloride_ceiling(range.max as int, fine_tuning),
    )
}

/// The rows of the macronutrients, in order: total nitrogen, the ammonium
/// share, potassium, phosphorus, calcium, magnesium, sulfur and chloride.
pub open spec fn macronutrient_rows(
    targets: NutrientTargets,
    salts: Seq<SaltView>,
    fine_tuning: bool,
) -> Seq<ConstraintView> {
    between(
        nitrogen_row(salts),
        macro_bound(targets.n.min as int),
        macro_bound(targets.n.max as int),
    ) + seq![equal_to(ratio_row(salts, targets.nh4_ratio as int), 0)] + macronutrient_range(
        salts,
        Nutrient::K,
        targets.k,
    ) + macronutrient_range(salts, Nutrient::P, targets.p) + macronutrient_range(
        salts,
        Nutrient::Ca,
        targets.ca,
    ) + macronutrient_range(salts, Nutrient::Mg, targets.mg) + macronutrient_range(
        salts,
        Nutrient::S,
        targets.s,
    ) + chloride_range(salts, targets.cl, fine_tuning)
}

/// The rows of the six micronutrients, in order.
pub open spec fn micronutrient_rows(targets: NutrientTargets, salts: Seq<SaltView>) -> Seq<
    ConstraintView,
> {
    micronutrient_range(salts, Nutrient::Fe, targets.fe) + micronutrient_range(
        salts,
        Nutrient::Mn,
        targets.mn,
    ) + micronutrient_range(salts, Nutrient::Zn, targets.zn) + micronutrient_range(
        salts,
        Nutrient::Cu,
        targets.cu,
    ) + micronutrient_range(salts, Nutrient::B, targets.b) + micronutrient_range(
        salts,
        Nutrient::Mo,
        targets.mo,
    )
}

/// The rows of the program for `targets` over `salts`: those of the
/// macronutrients, then those of the micronutrients.
pub open spec fn constraints_of(
    targets: NutrientTargets,
    salts: Seq<SaltView>,
    fine_tuning: bool,
) -> Seq<ConstraintView> {
    macronutrient_rows(targets, salts, fine_tuning) + micronutrient_rows(targets, salts)
}

/// The program for `targets` over `salts`: minimise the total mass of salt,
/// subject to [`constraints_of`].
pub open spec fn program_of(
    targets: NutrientTargets,
    salts: Seq<SaltView>,
    fine_tuning: bool,
) -> ProgramView {
    ProgramView {
        variables: salts.len(),
        objective: total_mass_row(salts.len()),
        expressions: Seq::new(14, |k: int| fraction_row(salts, nutrient_order()[k])),
        constraints: constraints_of(targets, salts, fine_tuning),
    }
}

fn fraction_coefficients(salts: &[Salt], nutrient: Nutrient) -> (row: Vec<i128>)
    ensures
        row_view(row@) == fraction_row(salt_views(salts@), nutrient),
{
    let mut row: Vec<i128> = Vec::new();
    let mut i: usize = 0;
    while i < salts.len()
        invariant
            i <= salts@.len(),
            row@.len() == i,
            forall|j: int| 0 <= j < i ==> row@[j] == 1_000_000 * salts@[j]@.fraction(nutrient),
        decreases salts@.len() - i,
    {
        row.push(1_000_000 * (salts[i].fraction(nutrient) as i128));
        i += 1;
    }
    row
}

fn nitrogen_coefficients(salts: &[Salt]) -> (row: Vec<i128>)
    ensures
        row_view(row@) == nitrogen_row(salt_views(salts@)),
{
    let mut row: Vec<i128> = Vec::new();
    let mut i: usize = 0;
    while i < salts.len()
        invariant
            i <= salts@.len(),
            row@.len() == i,
            forall|j: int|
                0 <= j < i ==> row@[j] == 1_000_000 * (salts@[j]@.nh4 + salts@[j]@.no3),
        decreases salts@.len() - i,
    {
        row.push(1_000_000 * (salts[i].nh4 as i128 + salts[i].no3 as i128));
        i += 1;
    }
    row
}

fn ratio_coefficients(salts: &[Salt], ratio: u32) -> (row: Vec<i128>)
    ensures
        row_view(row@) == ratio_row(salt_views(salts@), ratio as int),
{
    let mut row: Vec<i128> = Vec::new();
    let mut i: usize = 0;
    while i < salts.len()
        invariant
            i <= salts@.len(),
            row@.len() == i,
            forall|j: int|
                0 <= j < i ==> row@[j] == 1_000_000 * salts@[j]@.nh4 - ratio * (salts@[j]@.nh4
                    + salts@[j]@.no3),
        decreases salts@.len() - i,
    {
        let nh4: i128 = salts[i].nh4 as i128;
        let nitrogen: i128 = nh4 + salts[i].no3 as i128;
        let share: i128 = ratio as i128;
        assert(0 <= share * nitrogen <= 0xffff_ffff * 0x1_ffff_fffe) by (nonlinear_arith)
            requires
                0 <= share <= 0xffff_ffff,
                0 <= nitrogen <= 0x1_ffff_fffe,
        ;
        row.push(1_000_000 * nh4 - share * nitrogen);
        i += 1;
    }
    row
}

fn total_mass_coefficients(variables: usize) -> (row: Vec<i128>)
    ensures
        row_view(row@) == total_mass_row(variables as nat),
{
    let mut row: Vec<i128> = Vec::new();
    let mut i: usize = 0;
    while i < variables
        invariant
            i <= variables,
            row@.len() == i,
            forall|j: int| 0 <= j < i ==> row@[j] == ONE,
        decreases variables - i,
    {
        row.push(ONE);
        i += 1;
    }
    row
}

fn copy_row(row: &Vec<i128>) -> (copy: Vec<i128>)
    ensures
        copy@ == row@,
{
    let mut copy: Vec<i128> = Vec::new();
    let mut i: usize = 0;
    while i < row.len()
        invariant
            i <= row@.len(),
            copy@ == row@.take(i as int),
        decreases row@.len() - i,
    {
        copy.push(row[i]);
        i += 1;
    }
    copy
}

fn push_between(constraints: &mut Vec<Constraint>, row: Vec<i128>, low: i128, high: i128)
    ensures
        constraint_views(final(constraints)@) == constraint_views(old(constraints)@) + between(
            row_view(row@),
            low as int,
            high as int,
        ),
{
    let second: Vec<i128> = copy_row(&row);
    constraints.push(Constraint { coefficients: row, relation: Relation::AtLeast, bound: low });
    constraints.push(Constraint { coefficients: second, relation: Relation::AtMost, bound: high });
    assert(constraint_views(constraints@) =~= constraint_views(old(constraints)@) + between(
        row_view(row@),
        low as int,
        high as int,
    ));
}

fn push_equal(constraints: &mut Vec<Constraint>, row: Vec<i128>, bound: i128)
    ensures
        constraint_views(final(constraints)@) == constraint_views(old(constraints)@) + seq![
            equal_to(row_view(row@), bound as int),
        ],
{
    constraints.push(Constraint { coefficients: row, relation: Relation::Equal, bound });
    assert(constraint_views(constraints@) =~= constraint_views(old(constraints)@) + seq![
        equal_to(row_view(row@), bound as int),
    ]);
}

fn push_macronutrient(
    constraints: &mut Vec<Constraint>,
    salts: &[Salt],
    nutrient: Nutrient,
    range: Range,
)
    ensures
        constraint_views(final(constraints)@) == constraint_views(old(constraints)@)
            + macronutrient_range(salt_views(salts@), nutrient, range),
{
    push_between(
        constraints,
        fraction_coefficients(salts, nutrient),
        macro_bound_of(range.min),
        macro_bound_of(range.max),
    );
}

fn push_micronutrient(
    constraints: &mut Vec<Constraint>,
    salts: &[Salt],
    nutrient: Nutrient,
    range: Range,
)
    ensures
        constraint_views(final(constraints)@) == constraint_views(old(constraints)@)
            + micronutrient_range(salt_views(salts@), nutrient, range),
{
    push_between(
        constraints,
        fraction_coefficients(salts, nutrient),
        micro_bound_of(range.min),
        micro_bound_of(range.max),
    );
}

fn build_macronutrient_rows(targets: &NutrientTargets, salts: &[Salt], fine_tuning: bool) -> (rows:
    Vec<Constraint>)
    ensures
        constraint_views(rows@) == macronutrient_rows(*targets, salt_views(salts@), fine_tuning),
{
    let mut rows: Vec<Constraint> = Vec::new();
    push_between(
        &mut rows,
        nitrogen_coefficients(salts),
        macro_bound_of(targets.n.min),
        macro_bound_of(targets.n.max),
    );
    assert(constraint_views(rows@) =~= between(
        nitrogen_row(salt_views(salts@)),
        macro_bound(targets.n.min as int),
        macro_bound(targets.n.max as int),
    ));
    push_equal(&mut rows, ratio_coefficients(salts, targets.nh4_ratio), 0);
    push_macronutrient(&mut rows, salts, Nutrient::K, targets.k);
    push_macronutrient(&mut rows, salts, Nutrient::P, targets.p);
    push_macronutrient(&mut rows, salts, Nutrient::Ca, targets.ca);
    push_macronutrient(&mut rows, salts, Nutrient::Mg, targets.mg);
    push_macronutrient(&mut rows, salts, Nutrient::S, targets.s);
    push_between(
        &mut rows,
        fraction_coefficients(salts, Nutrient::Cl),
        macro_bound_of(targets.cl.min),
        chloride_ceiling_of(targets.cl.max, fine_tuning),
    );
    rows
}

fn push_micronutrient_rows(rows: &mut Vec<Constraint>, targets: &NutrientTargets, salts: &[Salt])
    ensures
        constraint_views(final(rows)@) == constraint_views(old(rows)@) + micronutrient_rows(
            *targets,
            salt_views(salts@),
        ),
{
    push_micronutrient(rows, salts, Nutrient::Fe, targets.fe);
    push_micronutrient(rows, salts, Nutrient::Mn, targets.mn);
    push_micronutrient(rows, salts, Nutrient::Zn, targets.zn);
    push_micronutrient(rows, salts, Nutrient::Cu, targets.cu);
    push_micronutrient(rows, salts, Nutrient::B, targets.b);
    push_micronutrient(rows, salts, Nutrient::Mo, targets.mo);
}

fn build_expressions(salts: &[Salt]) -> (expressions: Vec<Vec<i128>>)
    ensures
        expressions@.len() == 14,
        forall|k: int|
            0 <= k < 14 ==> row_view(#[trigger] expressions@[k]@) == fraction_row(
                salt_views(salts@),
                nutrient_order()[k],
            ),
{
    let mut expressions: Vec<Vec<i128>> = Vec::new();
    expressions.push(fraction_coefficients(salts, Nutrient::Nh4));
    expressions.push(fraction_coefficients(salts, Nutrient::No3));
    expressions.push(fraction_coefficients(salts, Nutrient::K));
    expressions.push(fraction_coefficients(salts, Nutrient::P));
    expressions.push(fraction_coefficients(salts, Nutrient::Ca));
    expressions.push(fraction_coefficients(salts, Nutrient::Mg));
    expressions.push(fraction_coefficients(salts, Nutrient::S));
    expressions.push(fraction_coefficients(salts, Nutrient::Cl));
    expressions.push(fraction_coefficients(salts, Nutrient::Fe));
    expressions.push(fraction_coefficients(salts, Nutrient::Mn));
    expressions.push(fraction_coefficients(salts, Nutrient::Zn));
    expressions.push(fraction_coefficients(salts, Nutrient::Cu));
    expressions.push(fraction_coefficients(salts, Nutrient::B));
    expressions.push(fraction_coefficients(salts, Nutrient::Mo));
    expressions
}

/// Assembles the program for `targets` over `salts`.
pub(crate) fn assemble(targets: &NutrientTargets, salts: &[Salt], fine_tuning: bool) -> (program:
    LinearProgram)
    ensures
        program@ == program_of(*targets, salt_views(salts@), fine_tuning),
{
    let mut constraints: Vec<Constraint> = build_macronutrient_rows(targets, salts, fine_tuning);
    push_micronutrient_rows(&mut constraints, targets, salts);
    let program = LinearProgram {
        variables: salts.len(),
        objective: total_mass_coefficients(salts.len()),
        expressions: build_expressions(salts),
        constraints,
    };
    assert(program@.expressions =~= program_of(
        *targets,
        salt_views(salts@),
        fine_tuning,
    ).expressions);
    program
}

/// Builds the program for `targets` over `salts`: one variable per salt, the
/// total mass to minimise, the fourteen nutrient expressions and the rows of
/// [`constraints_of`]. With no salt there is nothing to build.
pub fn build_program(targets: &NutrientTargets, salts: &[Salt], fine_tuning: bool) -> (built: Result<
    LinearProgram,
    EmptySaltSetError,
>)
    ensures
        built is Err <==> salts@.len() == 0,
        built matches Ok(program) ==> program@ == program_of(
            *targets,
            salt_views(salts@),
            fine_tuning,
        ) && program@.well_formed(),
{
    if salts.len() == 0 {
        Err(EmptySaltSetError)
    } else {
        proof {
            program_is_well_formed(*targets, salt_views(salts@), fine_tuning);
        }
        Ok(assemble(targets, salts, fine_tuning))
    }
}

/// The program for any targets is put together rightly: one variable per
/// salt, fourteen expressions and twenty-seven rows, each with one
/// coefficient per variable.
pub proof fn program_is_well_formed(
    targets: NutrientTargets,
    salts: Seq<SaltView>,
    fine_tuning: bool,
)
    ensures
        program_of(targets, salts, fine_tuning).well_formed(),
        program_of(targets, salts, fine_tuning).variables == salts.len(),
        program_of(targets, salts, fine_tuning).expressions.len() == 14,
        program_of(targets, salts, fine_tuning).constraints.len() == 27,
{
}

/// Fine-tuning moves the chloride ceiling and nothing else: the ceiling
/// comes down to four fifths of the maximum, while the chloride floor and
/// every other row stay as they are without fine-tuning.
pub proof fn fine_tuning_moves_only_the_ceiling(targets: NutrientTargets, salts: Seq<SaltView>)
    ensures
        constraints_of(targets, salts, true).len() == 27,
        constraints_of(targets, salts, false).len() == 27,
        forall|j: int|
            0 <= j < 27 && j != 14 ==> #[trigger] constraints_of(targets, salts, true)[j]
                == constraints_of(targets, salts, false)[j],
        constraints_of(targets, salts, true)[13] == at_least(
            fraction_row(salts, Nutrient::Cl),
            macro_bound(targets.cl.min as int),
        ),
        constraints_of(targets, salts, true)[14] == at_most(
            fraction_row(salts, Nutrient::Cl),
            chloride_ceiling(targets.cl.max as int, true),
        ),
        constraints_of(targets, salts, false)[14] == at_most(
            fraction_row(salts, Nutrient::Cl),
            macro_bound(targets.cl.max as int),
        ),
        100 * chloride_ceiling(targets.cl.max as int, true) == 80 * macro_bound(
            targets.cl.max as int,
        ),
{
    fine_tuning_ceiling(targets.cl.max as int);
}

} // verus!
