//! The optimization engine.
//!
//! Solving a linear program is not done here. The engine decides what is to
//! be done next: it refuses an empty list of salts, hands out the program to
//! solve, and turns what the solver answered into a recipe or an error.
use vstd::prelude::*;
use crate::models::{Nutrient, OptimizationResult, ResultView, Salt, SaltView, recipe_view, salt_views};
use crate::feasibility::{dot, level, mass_fractions, program_encodes_targets};
use crate::program::{LinearProgram, ProgramView, assemble, program_of};
use crate::sequences::filter_of_push;
use crate::targets::NutrientTargets;
use crate::units::{chloride_ceiling, milligrams_per_litre, to_milligrams_per_litre, widen};

verus! {

/// A dosage must exceed this many millionths of a gram per litre to be part
/// of a recipe.
pub const DOSE_THRESHOLD: u32 = 1;

/// What the solver answered.
#[derive(Debug, PartialEq, Eq)]
pub enum SolverOutcome {
    /// An optimal point: one dosage per variable, in millionths of a gram
    /// per litre.
    Optimal(Vec<u32>),
    /// No optimal point exists, and why: the program is infeasible or
    /// unbounded.
    Failed(String),
}

/// Why an optimization gave no recipe.
#[derive(Debug, PartialEq, Eq)]
pub enum OptimizationError {
    /// No salt is enabled; nothing was solved.
    NoSaltsSelected,
    /// The solver found no optimal point; the reason is the solver's own.
    Infeasible(String),
}

/// What is to be done next.
#[derive(Debug, PartialEq, Eq)]
pub enum Step {
    /// Solve this program, and come back with the solver's answer.
    Solve(LinearProgram),
    /// The optimization has ended, with a recipe or an error.
    Finished(Result<OptimizationResult, OptimizationError>),
}

/// What a [`SolverOutcome`] is, as a mathematical value.
pub enum OutcomeView {
    Optimal(Seq<int>),
    Failed(Seq<char>),
}

/// What an [`OptimizationError`] is, as a mathematical value.
pub enum ErrorView {
    NoSaltsSelected,
    Infeasible(Seq<char>),
}

/// What a [`Step`] is, as a mathematical value.
pub enum StepView {
    Solve(ProgramView),
    Done(ResultView),
    Failed(ErrorView),
}

/// A list of dosages as a list of integers.
pub open spec fn dose_values(doses: Seq<u32>) -> Seq<int> {
    Seq::new(doses.len(), |i: int| doses[i] as int)
}

impl View for SolverOutcome {
    type V = OutcomeView;

    open spec fn view(&self) -> OutcomeView {
        match self {
            SolverOutcome::Optimal(doses) => OutcomeView::Optimal(dose_values(doses@)),
            SolverOutcome::Failed(reason) => OutcomeView::Failed(reason@),
        }
    }
}

impl View for OptimizationError {
    type V = ErrorView;

    open spec fn view(&self) -> ErrorView {
        match self {
            OptimizationError::NoSaltsSelected => ErrorView::NoSaltsSelected,
            OptimizationError::Infeasible(reason) => ErrorView::Infeasible(reason@),
        }
    }
}

impl View for Step {
    type V = StepView;

    open spec fn view(&self) -> StepView {
        match self {
            Step::Solve(program) => StepView::Solve(program@),
            Step::Finished(Ok(result)) => StepView::Done(result@),
            Step::Finished(Err(error)) => StepView::Failed(error@),
        }
    }
}

/// Each salt's name with its dosage.
pub open spec fn dosages(salts: Seq<SaltView>, doses: Seq<int>) -> Seq<(Seq<char>, int)> {
    Seq::new(salts.len(), |i: int| (salts[i].name, doses[i]))
}

/// Whether a dosage is large enough to be part of a recipe.
pub open spec fn is_dosed() -> spec_fn((Seq<char>, int)) -> bool {
    |entry: (Seq<char>, int)| entry.1 > DOSE_THRESHOLD
}

/// The recipe that `doses` stand for: the salts whose dosage exceeds the
/// threshold, in the order of `salts`.
pub open spec fn recipe_of(salts: Seq<SaltView>, doses: Seq<int>) -> Seq<(Seq<char>, int)> {
    dosages(salts, doses).filter(is_dosed())
}

/// The result that `doses` of `salts` stand for: the recipe, the
/// macronutrient levels as they are (g/L), and the micronutrient levels in
/// mg/L.
pub open spec fn result_of(salts: Seq<SaltView>, doses: Seq<int>) -> ResultView {
    ResultView {
        recipe: recipe_of(salts, doses),
        nh4_actual: level(salts, Nutrient::Nh4, doses),
        no3_actual: level(salts, Nutrient::No3, doses),
        k_actual: level(salts, Nutrient::K, doses),
        p_actual: level(salts, Nutrient::P, doses),
        ca_actual: level(salts, Nutrient::Ca, doses),
        mg_actual: level(salts, Nutrient::Mg, doses),
        s_actual: level(salts, Nutrient::S, doses),
        cl_actual: level(salts, Nutrient::Cl, doses),
        fe_actual: milligrams_per_litre(level(salts, Nutrient::Fe, doses)),
        mn_actual: milligrams_per_litre(level(salts, Nutrient::Mn, doses)),
        zn_actual: milligrams_per_litre(level(salts, Nutrient::Zn, doses)),
        cu_actual: milligrams_per_litre(level(salts, Nutrient::Cu, doses)),
        b_actual: milligrams_per_litre(level(salts, Nutrient::B, doses)),
        mo_actual: milligrams_per_litre(level(salts, Nutrient::Mo, doses)),
    }
}

/// What the engine does next, given what the solver answered so far.
pub open spec fn next_step(
    targets: NutrientTargets,
    is_fine_tuning: bool,
    salts: Seq<SaltView>,
    answer: Option<OutcomeView>,
) -> StepView {
    if salts.len() == 0 {
        StepView::Failed(ErrorView::NoSaltsSelected)
    } else {
        match answer {
            None => StepView::Solve(program_of(targets, salts, is_fine_tuning)),
            Some(OutcomeView::Failed(reason)) => StepView::Failed(ErrorView::Infeasible(reason)),
            Some(OutcomeView::Optimal(doses)) => StepView::Done(result_of(salts, doses)),
        }
    }
}

/// The view of an answer that may not have come yet.
pub open spec fn answer_view(answer: Option<SolverOutcome>) -> Option<OutcomeView> {
    match answer {
        None => None,
        Some(outcome) => Some(outcome@),
    }
}

/// The largest level that `count` salts can give.
pub open spec fn level_limit(count: int) -> int {
    count * (0xffff_ffff * 0xffff_ffff)
}

/// Computes the level of `nutrient` that `doses` of `salts` give.
pub fn evaluate(salts: &[Salt], nutrient: Nutrient, doses: &[u32]) -> (total: u128)
    requires
        doses@.len() == salts@.len(),
    ensures
        total == level(salt_views(salts@), nutrient, dose_values(doses@)),
        total <= level_limit(salts@.len() as int),
{
    let ghost views = salt_views(salts@);
    let ghost values = dose_values(doses@);
    let ghost row = mass_fractions(views, nutrient);
    let mut total: u128 = 0;
    let mut i: usize = 0;
    while i < salts.len()
        invariant
            i <= salts@.len(),
            doses@.len() == salts@.len(),
            views == salt_views(salts@),
            values == dose_values(doses@),
            row == mass_fractions(views, nutrient),
            total == dot(row.take(i as int), values),
            total <= level_limit(i as int),
        decreases salts@.len() - i,
    {
        let fraction: u128 = salts[i].fraction(nutrient) as u128;
        let dose: u128 = doses[i] as u128;
        proof {
            assert(row.take(i + 1).drop_last() =~= row.take(i as int));
            assert(0 <= fraction * dose <= 0xffff_ffff * 0xffff_ffff) by (nonlinear_arith)
                requires
                    0 <= fraction <= 0xffff_ffff,
                    0 <= dose <= 0xffff_ffff,
            ;
            assert(level_limit(i + 1) == level_limit(i as int) + 0xffff_ffff * 0xffff_ffff)
                by (nonlinear_arith);
            assert(level_limit(i + 1) <= u128::MAX) by (nonlinear_arith)
                requires
                    i + 1 <= usize::MAX,
                    usize::MAX <= 0xffff_ffff_ffff_ffff,
                    level_limit(i + 1) == (i + 1) * (0xffff_ffff * 0xffff_ffff),
            ;
        }
        total = total + fraction * dose;
        i += 1;
    }
    assert(row.take(salts@.len() as int) =~= row);
    total
}

fn collect_recipe(salts: &[Salt], doses: &[u32]) -> (recipe: Vec<(String, u32)>)
    requires
        doses@.len() == salts@.len(),
    ensures
        recipe_view(recipe@) == recipe_of(salt_views(salts@), dose_values(doses@)),
{
    let ghost all = dosages(salt_views(salts@), dose_values(doses@));
    let mut recipe: Vec<(String, u32)> = Vec::new();
    let mut i: usize = 0;
    proof {
        reveal(Seq::filter);
    }
    while i < salts.len()
        invariant
            i <= salts@.len(),
            doses@.len() == salts@.len(),
            all == dosages(salt_views(salts@), dose_values(doses@)),
            recipe_view(recipe@) == all.take(i as int).filter(is_dosed()),
        decreases salts@.len() - i,
    {
        let dose: u32 = doses[i];
        proof {
            assert(all.take(i + 1) =~= all.take(i as int).push(all[i as int]));
            filter_of_push(all.take(i as int), all[i as int], is_dosed());
        }
        if dose > DOSE_THRESHOLD {
            recipe.push((salts[i].name.clone(), dose));
        }
        i += 1;
    }
    assert(all.take(salts@.len() as int) =~= all);
    recipe
}

/// Reads a solution: the recipe it stands for and the level of each
/// nutrient, the micronutrients converted to mg/L.
pub fn read_solution(salts: &[Salt], doses: &[u32]) -> (result: OptimizationResult)
    requires
        doses@.len() == salts@.len(),
        salts@.len() <= u32::MAX,
    ensures
        result@ == result_of(salt_views(salts@), dose_values(doses@)),
{
    assert(level_limit(salts@.len() as int) * 1_000 <= u128::MAX) by (nonlinear_arith)
        requires
            0 <= salts@.len() <= 0xffff_ffff,
            level_limit(salts@.len() as int) == salts@.len() * (0xffff_ffff * 0xffff_ffff),
    ;
    OptimizationResult {
        recipe: collect_recipe(salts, doses),
        nh4_actual: evaluate(salts, Nutrient::Nh4, doses),
        no3_actual: evaluate(salts, Nutrient::No3, doses),
        k_actual: evaluate(salts, Nutrient::K, doses),
        p_actual: evaluate(salts, Nutrient::P, doses),
        ca_actual: evaluate(salts, Nutrient::Ca, doses),
        mg_actual: evaluate(salts, Nutrient::Mg, doses),
        s_actual: evaluate(salts, Nutrient::S, doses),
        cl_actual: evaluate(salts, Nutrient::Cl, doses),
        fe_actual: to_milligrams_per_litre(evaluate(salts, Nutrient::Fe, doses)),
        mn_actual: to_milligrams_per_litre(evaluate(salts, Nutrient::Mn, doses)),
        zn_actual: to_milligrams_per_litre(evaluate(salts, Nutrient::Zn, doses)),
        cu_actual: to_milligrams_per_litre(evaluate(salts, Nutrient::Cu, doses)),
        b_actual: to_milligrams_per_litre(evaluate(salts, Nutrient::B, doses)),
        mo_actual: to_milligrams_per_litre(evaluate(salts, Nutrient::Mo, doses)),
    }
}

/// Takes an optimization one step further.
///
/// With no salt the run ends at once with
/// [`OptimizationError::NoSaltsSelected`], whatever the targets and whatever
/// the solver may have answered. Otherwise, before the solver has answered,
/// the step is to solve the program for `targets`; once it has answered, the
/// run ends: with [`OptimizationError::Infeasible`] and the solver's reason
/// as it was given, or with the recipe and levels read from the optimal
/// dosages.
///
/// An optimal answer holds one dosage per salt, and there are at most
/// `u32::MAX` salts.
pub fn optimize_recipe(
    targets: &NutrientTargets,
    is_fine_tuning: bool,
    salts: &[Salt],
    answer: Option<SolverOutcome>,
) -> (step: Step)
    requires
        salts@.len() > 0 ==> (answer matches Some(SolverOutcome::Optimal(doses)) ==> doses@.len()
            == salts@.len() && salts@.len() <= u32::MAX),
    ensures
        step@ == next_step(*targets, is_fine_tuning, salt_views(salts@), answer_view(answer)),
        step@ == StepView::Failed(ErrorView::NoSaltsSelected) <==> salts@.len() == 0,
{
    if salts.len() == 0 {
        return Step::Finished(Err(OptimizationError::NoSaltsSelected));
    }
    match answer {
        None => Step::Solve(assemble(targets, salts, is_fine_tuning)),
        Some(SolverOutcome::Failed(reason)) => Step::Finished(
            Err(OptimizationError::Infeasible(reason)),
        ),
        Some(SolverOutcome::Optimal(doses)) => Step::Finished(
            Ok(read_solution(salts, doses.as_slice())),
        ),
    }
}

/// A feasible point reaches the targets. If `doses` is a feasible point of
/// the program for `targets` over `salts`, then in the result read from it
/// the total nitrogen and every nutrient lie within their ranges (the
/// micronutrients in mg/L, as the targets give them; the chloride ceiling
/// lowered when fine-tuning), and ammonium is exactly `nh4_ratio` millionths
/// of the total nitrogen.
pub proof fn feasible_point_reaches_targets(
    targets: NutrientTargets,
    salts: Seq<SaltView>,
    is_fine_tuning: bool,
    doses: Seq<int>,
)
    requires
        program_of(targets, salts, is_fine_tuning).feasible(doses),
    ensures
        ({
            let result = result_of(salts, doses);
            &&& widen(targets.n.min as int) <= result.nh4_actual + result.no3_actual <= widen(
                targets.n.max as int,
            )
            &&& 1_000_000 * result.nh4_actual == targets.nh4_ratio * (result.nh4_actual
                + result.no3_actual)
            &&& widen(targets.k.min as int) <= result.k_actual <= widen(targets.k.max as int)
            &&& widen(targets.p.min as int) <= result.p_actual <= widen(targets.p.max as int)
            &&& widen(targets.ca.min as int) <= result.ca_actual <= widen(targets.ca.max as int)
            &&& widen(targets.mg.min as int) <= result.mg_actual <= widen(targets.mg.max as int)
            &&& widen(targets.s.min as int) <= result.s_actual <= widen(targets.s.max as int)
            &&& widen(targets.cl.min as int) <= result.cl_actual <= chloride_ceiling(
                targets.cl.max as int,
                is_fine_tuning,
            )
            &&& widen(targets.fe.min as int) <= result.fe_actual <= widen(targets.fe.max as int)
            &&& widen(targets.mn.min as int) <= result.mn_actual <= widen(targets.mn.max as int)
            &&& widen(targets.zn.min as int) <= result.zn_actual <= widen(targets.zn.max as int)
            &&& widen(targets.cu.min as int) <= result.cu_actual <= widen(targets.cu.max as int)
            &&& widen(targets.b.min as int) <= result.b_actual <= widen(targets.b.max as int)
            &&& widen(targets.mo.min as int) <= result.mo_actual <= widen(targets.mo.max as int)
        }),
{
    program_encodes_targets(targets, salts, is_fine_tuning, doses);
}

/// Running an optimization again gives the same again, if the solver
/// answers the same. What a run ends with depends on the salts and on the
/// solver's answer alone, not even on the targets; so two runs on the same
/// salts can differ only where the solver's answers differ. (A program with
/// more than one lightest recipe leaves the solver that choice.)
pub proof fn same_answer_same_outcome(
    targets: NutrientTargets,
    is_fine_tuning: bool,
    other_targets: NutrientTargets,
    other_fine_tuning: bool,
    salts: Seq<SaltView>,
    answer: OutcomeView,
)
    ensures
        next_step(targets, is_fine_tuning, salts, Some(answer)) == next_step(
            other_targets,
            other_fine_tuning,
            salts,
            Some(answer),
        ),
{
}

} // verus!
