//! What a linear program asks of a list of dosages, and the proof that the
//! program built for a set of targets asks what the targets ask.
//!
//! Dosages are kept with six decimals, the numbers of a program with twelve.
//! At a list of dosages the sum of coefficient times dosage thus has eighteen
//! decimals, and is compared with a million times the bound.
use vstd::prelude::*;
use crate::models::{Nutrient, SaltView};
use crate::program::{
    ConstraintView, ProgramView, Relation, between, chloride_range, equal_to, fraction_row,
    macronutrient_range, macronutrient_rows, micronutrient_range, micronutrient_rows,
    nitrogen_row, program_of, ratio_row,
};
use crate::targets::{NutrientTargets, Range};
use crate::units::{chloride_ceiling, macro_bound, micro_bound};

verus! {

/// The value of a row at a list of values: the sum of coefficient times
/// value. The list is at least as long as the row.
pub open spec fn dot(row: Seq<int>, values: Seq<int>) -> int
    decreases row.len(),
{
    if row.len() == 0 {
        0
    } else {
        dot(row.drop_last(), values) + row.last() * values[row.len() - 1]
    }
}

impl ConstraintView {
    /// Whether the row is met at `doses`.
    pub open spec fn holds(self, doses: Seq<int>) -> bool {
        match self.relation {
            Relation::AtLeast => dot(self.coefficients, doses) >= 1_000_000 * self.bound,
            Relation::AtMost => dot(self.coefficients, doses) <= 1_000_000 * self.bound,
            Relation::Equal => dot(self.coefficients, doses) == 1_000_000 * self.bound,
        }
    }
}

/// Whether every one of `rows` is met at `doses`.
pub open spec fn all_hold(rows: Seq<ConstraintView>, doses: Seq<int>) -> bool {
    forall|j: int| 0 <= j < rows.len() ==> (#[trigger] rows[j]).holds(doses)
}

impl ProgramView {
    /// Whether `doses` is a feasible point: one dosage per variable, none
    /// negative, every row met.
    pub open spec fn feasible(self, doses: Seq<int>) -> bool {
        &&& doses.len() == self.variables
        &&& forall|i: int| 0 <= i < doses.len() ==> doses[i] >= 0
        &&& all_hold(self.constraints, doses)
    }
}

/// Each salt's mass fraction of `nutrient`, in millionths.
pub open spec fn mass_fractions(salts: Seq<SaltView>, nutrient: Nutrient) -> Seq<int> {
    Seq::new(salts.len(), |i: int| salts[i].fraction(nutrient) as int)
}

/// The level of `nutrient` that `doses` of `salts` give: the sum of mass
/// fraction times dosage, with twelve decimals.
pub open spec fn level(salts: Seq<SaltView>, nutrient: Nutrient, doses: Seq<int>) -> int {
    dot(mass_fractions(salts, nutrient), doses)
}

/// Whether the level of a macronutrient lies within `range`.
pub open spec fn macronutrient_within(
    salts: Seq<SaltView>,
    nutrient: Nutrient,
    range: Range,
    doses: Seq<int>,
) -> bool {
    macro_bound(range.min as int) <= level(salts, nutrient, doses) <= macro_bound(range.max as int)
}

/// Whether the level of a micronutrient lies within `range`, which is given
/// in mg/L.
pub open spec fn micronutrient_within(
    salts: Seq<SaltView>,
    nutrient: Nutrient,
    range: Range,
    doses: Seq<int>,
) -> bool {
    micro_bound(range.min as int) <= level(salts, nutrient, doses) <= micro_bound(range.max as int)
}

/// Whether `doses` of `salts` reach the macronutrient targets: total
/// nitrogen and every macronutrient within its range (the chloride maximum
/// lowered when fine-tuning), and ammonium exactly `nh4_ratio` millionths of
/// the total nitrogen.
pub open spec fn macronutrients_met(
    targets: NutrientTargets,
    salts: Seq<SaltView>,
    fine_tuning: bool,
    doses: Seq<int>,
) -> bool {
    let nh4 = level(salts, Nutrient::Nh4, doses);
    let no3 = level(salts, Nutrient::No3, doses);
    &&& macro_bound(targets.n.min as int) <= nh4 + no3 <= macro_bound(targets.n.max as int)
    &&& 1_000_000 * nh4 == targets.nh4_ratio * (nh4 + no3)
    &&& macronutrient_within(salts, Nutrient::K, targets.k, doses)
    &&& macronutrient_within(salts, Nutrient::P, targets.p, doses)
    &&& macronutrient_within(salts, Nutrient::Ca, targets.ca, doses)
    &&& macronutrient_within(salts, Nutrient::Mg, targets.mg, doses)
    &&& macronutrient_within(salts, Nutrient::S, targets.s, doses)
    &&& macro_bound(targets.cl.min as int) <= level(salts, Nutrient::Cl, doses)
        <= chloride_ceiling(targets.cl.max as int, fine_tuning)
}

/// Whether `doses` of `salts` reach the micronutrient targets: every
/// micronutrient within its range.
pub open spec fn micronutrients_met(
    targets: NutrientTargets,
    salts: Seq<SaltView>,
    doses: Seq<int>,
) -> bool {
    &&& micronutrient_within(salts, Nutrient::Fe, targets.fe, doses)
    &&& micronutrient_within(salts, Nutrient::Mn, targets.mn, doses)
    &&& micronutrient_within(salts, Nutrient::Zn, targets.zn, doses)
    &&& micronutrient_within(salts, Nutrient::Cu, targets.cu, doses)
    &&& micronutrient_within(salts, Nutrient::B, targets.b, doses)
    &&& micronutrient_within(salts, Nutrient::Mo, targets.mo, doses)
}

/// Whether `doses` of `salts` reach `targets`.
pub open spec fn targets_met(
    targets: NutrientTargets,
    salts: Seq<SaltView>,
    fine_tuning: bool,
    doses: Seq<int>,
) -> bool {
    macronutrients_met(targets, salts, fine_tuning, doses) && micronutrients_met(
        targets,
        salts,
        doses,
    )
}

/// The value of a row that combines two rows is the same combination of
/// their values.
pub proof fn dot_of_combination(
    first: Seq<int>,
    second: Seq<int>,
    p: int,
    q: int,
    combined: Seq<int>,
    values: Seq<int>,
)
    requires
        first.len() == second.len(),
        combined.len() == first.len(),
        forall|i: int| 0 <= i < combined.len() ==> combined[i] == p * first[i] + q * second[i],
    ensures
        dot(combined, values) == p * dot(first, values) + q * dot(second, values),
    decreases combined.len(),
{
    if combined.len() > 0 {
        dot_of_combination(
            first.drop_last(),
            second.drop_last(),
            p,
            q,
            combined.drop_last(),
            values,
        );
        let last = combined.len() - 1;
        let v = values[last];
        let a = first[last];
        let b = second[last];
        let da = dot(first.drop_last(), values);
        let db = dot(second.drop_last(), values);
        assert((p * a + q * b) * v == p * (a * v) + q * (b * v)) by (nonlinear_arith);
        assert(p * (da + a * v) == p * da + p * (a * v)) by (nonlinear_arith);
        assert(q * (db + b * v) == q * db + q * (b * v)) by (nonlinear_arith);
    }
}

/// A nutrient's row gives a million times its level.
pub proof fn fraction_row_value(salts: Seq<SaltView>, nutrient: Nutrient, doses: Seq<int>)
    ensures
        dot(fraction_row(salts, nutrient), doses) == 1_000_000 * level(salts, nutrient, doses),
{
    let fractions = mass_fractions(salts, nutrient);
    dot_of_combination(fractions, fractions, 1_000_000, 0, fraction_row(salts, nutrient), doses);
}

/// The total nitrogen's row gives a million times the sum of the ammonium
/// and nitrate levels.
pub proof fn nitrogen_row_value(salts: Seq<SaltView>, doses: Seq<int>)
    ensures
        dot(nitrogen_row(salts), doses) == 1_000_000 * (level(salts, Nutrient::Nh4, doses) + level(
            salts,
            Nutrient::No3,
            doses,
        )),
{
    dot_of_combination(
        mass_fractions(salts, Nutrient::Nh4),
        mass_fractions(salts, Nutrient::No3),
        1_000_000,
        1_000_000,
        nitrogen_row(salts),
        doses,
    );
}

/// The ratio row gives a million times the ammonium level, less `ratio`
/// times the total nitrogen.
pub proof fn ratio_row_value(salts: Seq<SaltView>, ratio: int, doses: Seq<int>)
    ensures
        dot(ratio_row(salts, ratio), doses) == 1_000_000 * level(salts, Nutrient::Nh4, doses)
            - ratio * (level(salts, Nutrient::Nh4, doses) + level(salts, Nutrient::No3, doses)),
{
    let nh4 = mass_fractions(salts, Nutrient::Nh4);
    let no3 = mass_fractions(salts, Nutrient::No3);
    let row = ratio_row(salts, ratio);
    assert forall|i: int| 0 <= i < row.len() implies row[i] == (1_000_000 - ratio) * nh4[i] + (
    -ratio) * no3[i] by {
        let a = nh4[i];
        let b = no3[i];
        assert(1_000_000 * a - ratio * (a + b) == (1_000_000 - ratio) * a + (-ratio) * b)
            by (nonlinear_arith);
    }
    dot_of_combination(nh4, no3, 1_000_000 - ratio, -ratio, row, doses);
    let x = dot(nh4, doses);
    let y = dot(no3, doses);
    assert((1_000_000 - ratio) * x + (-ratio) * y == 1_000_000 * x - ratio * (x + y))
        by (nonlinear_arith);
}

/// Two lists of rows are met together exactly if each is met.
pub proof fn all_hold_of_both(
    first: Seq<ConstraintView>,
    second: Seq<ConstraintView>,
    doses: Seq<int>,
)
    ensures
        all_hold(first + second, doses) <==> all_hold(first, doses) && all_hold(second, doses),
{
    let both = first + second;
    if all_hold(both, doses) {
        assert forall|j: int| 0 <= j < first.len() implies (#[trigger] first[j]).holds(doses) by {
            assert(both[j] == first[j]);
        }
        assert forall|j: int| 0 <= j < second.len() implies (#[trigger] second[j]).holds(
            doses,
        ) by {
            assert(both[j + first.len()] == second[j]);
        }
    }
    if all_hold(first, doses) && all_hold(second, doses) {
        assert forall|j: int| 0 <= j < both.len() implies (#[trigger] both[j]).holds(doses) by {
            if j < first.len() {
                assert(both[j] == first[j]);
            } else {
                assert(both[j] == second[j - first.len()]);
            }
        }
    }
}

/// The two rows of a range are met exactly if the row's value lies between
/// the bounds.
pub proof fn between_holds(row: Seq<int>, low: int, high: int, doses: Seq<int>)
    ensures
        all_hold(between(row, low, high), doses) <==> 1_000_000 * low <= dot(row, doses)
            <= 1_000_000 * high,
{
    let rows = between(row, low, high);
    if all_hold(rows, doses) {
        assert(rows[0].holds(doses) && rows[1].holds(doses));
    }
}

proof fn macronutrient_range_holds(
    salts: Seq<SaltView>,
    nutrient: Nutrient,
    range: Range,
    doses: Seq<int>,
)
    ensures
        all_hold(macronutrient_range(salts, nutrient, range), doses) <==> macronutrient_within(
            salts,
            nutrient,
            range,
            doses,
        ),
{
    fraction_row_value(salts, nutrient, doses);
    between_holds(
        fraction_row(salts, nutrient),
        macro_bound(range.min as int),
        macro_bound(range.max as int),
        doses,
    );
}

proof fn micronutrient_range_holds(
    salts: Seq<SaltView>,
    nutrient: Nutrient,
    range: Range,
    doses: Seq<int>,
)
    ensures
        all_hold(micronutrient_range(salts, nutrient, range), doses) <==> micronutrient_within(
            salts,
            nutrient,
            range,
            doses,
        ),
{
    fraction_row_value(salts, nutrient, doses);
    between_holds(
        fraction_row(salts, nutrient),
        micro_bound(range.min as int),
        micro_bound(range.max as int),
        doses,
    );
}

proof fn macronutrient_rows_hold(
    targets: NutrientTargets,
    salts: Seq<SaltView>,
    fine_tuning: bool,
    doses: Seq<int>,
)
    ensures
        all_hold(macronutrient_rows(targets, salts, fine_tuning), doses) <==> macronutrients_met(
            targets,
            salts,
            fine_tuning,
            doses,
        ),
{
    let nitrogen = between(
        nitrogen_row(salts),
        macro_bound(targets.n.min as int),
        macro_bound(targets.n.max as int),
    );
    let ratio = seq![equal_to(ratio_row(salts, targets.nh4_ratio as int), 0)];
    let k = macronutrient_range(salts, Nutrient::K, targets.k);
    let p = macronutrient_range(salts, Nutrient::P, targets.p);
    let ca = macronutrient_range(salts, Nutrient::Ca, targets.ca);
    let mg = macronutrient_range(salts, Nutrient::Mg, targets.mg);
    let s = macronutrient_range(salts, Nutrient::S, targets.s);
    let cl = chloride_range(salts, targets.cl, fine_tuning);
    nitrogen_row_value(salts, doses);
    between_holds(
        nitrogen_row(salts),
        macro_bound(targets.n.min as int),
        macro_bound(targets.n.max as int),
        doses,
    );
    ratio_row_value(salts, targets.nh4_ratio as int, doses);
    assert(all_hold(ratio, doses) <==> ratio[0].holds(doses));
    macronutrient_range_holds(salts, Nutrient::K, targets.k, doses);
    macronutrient_range_holds(salts, Nutrient::P, targets.p, doses);
    macronutrient_range_holds(salts, Nutrient::Ca, targets.ca, doses);
    macronutrient_range_holds(salts, Nutrient::Mg, targets.mg, doses);
    macronutrient_range_holds(salts, Nutrient::S, targets.s, doses);
    fraction_row_value(salts, Nutrient::Cl, doses);
    between_holds(
        fraction_row(salts, Nutrient::Cl),
        macro_bound(targets.cl.min as int),
        chloride_ceiling(targets.cl.max as int, fine_tuning),
        doses,
    );
    all_hold_of_both(nitrogen, ratio, doses);
    all_hold_of_both(nitrogen + ratio, k, doses);
    all_hold_of_both(nitrogen + ratio + k, p, doses);
    all_hold_of_both(nitrogen + ratio + k + p, ca, doses);
    all_hold_of_both(nitrogen + ratio + k + p + ca, mg, doses);
    all_hold_of_both(nitrogen + ratio + k + p + ca + mg, s, doses);
    all_hold_of_both(nitrogen + ratio + k + p + ca + mg + s, cl, doses);
}

proof fn micronutrient_rows_hold(targets: NutrientTargets, salts: Seq<SaltView>, doses: Seq<int>)
    ensures
        all_hold(micronutrient_rows(targets, salts), doses) <==> micronutrients_met(
            targets,
            salts,
            doses,
        ),
{
    let fe = micronutrient_range(salts, Nutrient::Fe, targets.fe);
    let mn = micronutrient_range(salts, Nutrient::Mn, targets.mn);
    let zn = micronutrient_range(salts, Nutrient::Zn, targets.zn);
    let cu = micronutrient_range(salts, Nutrient::Cu, targets.cu);
    let b = micronutrient_range(salts, Nutrient::B, targets.b);
    let mo = micronutrient_range(salts, Nutrient::Mo, targets.mo);
    micronutrient_range_holds(salts, Nutrient::Fe, targets.fe, doses);
    micronutrient_range_holds(salts, Nutrient::Mn, targets.mn, doses);
    micronutrient_range_holds(salts, Nutrient::Zn, targets.zn, doses);
    micronutrient_range_holds(salts, Nutrient::Cu, targets.cu, doses);
    micronutrient_range_holds(salts, Nutrient::B, targets.b, doses);
    micronutrient_range_holds(salts, Nutrient::Mo, targets.mo, doses);
    all_hold_of_both(fe, mn, doses);
    all_hold_of_both(fe + mn, zn, doses);
    all_hold_of_both(fe + mn + zn, cu, doses);
    all_hold_of_both(fe + mn + zn + cu, b, doses);
    all_hold_of_both(fe + mn + zn + cu + b, mo, doses);
}

/// The program says what the targets say: a list of dosages, one per salt,
/// is a feasible point of the program for `targets` exactly if no dosage is
/// negative and the levels it gives reach the targets.
pub proof fn program_encodes_targets(
    targets: NutrientTargets,
    salts: Seq<SaltView>,
    fine_tuning: bool,
    doses: Seq<int>,
)
    requires
        doses.len() == salts.len(),
    ensures
        program_of(targets, salts, fine_tuning).feasible(doses) <==> (forall|i: int|
            0 <= i < doses.len() ==> doses[i] >= 0) && targets_met(
            targets,
            salts,
            fine_tuning,
            doses,
        ),
{
    all_hold_of_both(
        macronutrient_rows(targets, salts, fine_tuning),
        micronutrient_rows(targets, salts),
        doses,
    );
    macronutrient_rows_hold(targets, salts, fine_tuning, doses);
    micronutrient_rows_hold(targets, salts, doses);
}

/// At its ends the ammonium share leaves one form of nitrogen only: with a
/// ratio of nothing the ratio row holds exactly where there is no ammonium,
/// and with a ratio of one exactly where there is no nitrate.
pub proof fn ratio_at_its_ends(salts: Seq<SaltView>, doses: Seq<int>)
    ensures
        equal_to(ratio_row(salts, 0), 0).holds(doses) <==> level(salts, Nutrient::Nh4, doses) == 0,
        equal_to(ratio_row(salts, 1_000_000), 0).holds(doses) <==> level(
            salts,
            Nutrient::No3,
            doses,
        ) == 0,
{
    ratio_row_value(salts, 0, doses);
    ratio_row_value(salts, 1_000_000, doses);
}

} // verus!
