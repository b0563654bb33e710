use good_lp::constraint::{eq, geq, leq};
use good_lp::{microlp, variable, Expression, ProblemVariables, Solution, SolverModel, Variable};
use nutrient_optimizer::data::get_predefined_salts;
use nutrient_optimizer::models::{Nutrient, OptimizationResult, Salt};
use nutrient_optimizer::optimizer::{
    evaluate, optimize_recipe, read_solution, OptimizationError, SolverOutcome, Step,
};
use nutrient_optimizer::program::{LinearProgram, Relation};
use nutrient_optimizer::targets::{NutrientTargets, Range};

/// Twelve decimals.
const ONE: f64 = 1e12;

/// What the solver may be off by, in g/L.
const TOLERANCE: f64 = 1e-5;

fn expression(coefficients: &[i128], variables: &[Variable]) -> Expression {
    let mut sum = Expression::from(0.0);
    for (coefficient, variable) in coefficients.iter().zip(variables) {
        if *coefficient != 0 {
            sum = sum + *variable * (*coefficient as f64 / ONE);
        }
    }
    sum
}

fn solve(program: &LinearProgram) -> SolverOutcome {
    let mut problem = ProblemVariables::new();
    let variables: Vec<Variable> =
        (0..program.variables).map(|_| problem.add(variable().min(0.0))).collect();
    let mut model = problem.minimise(expression(&program.objective, &variables)).using(microlp);
    for row in &program.constraints {
        let sum = expression(&row.coefficients, &variables);
        let bound = row.bound as f64 / ONE;
        model = model.with(match row.relation {
            Relation::AtLeast => geq(sum, bound),
            Relation::AtMost => leq(sum, bound),
            Relation::Equal => eq(sum, bound),
        });
    }
    match model.solve() {
        Ok(solution) => SolverOutcome::Optimal(
            variables.iter().map(|v| (solution.value(*v) * 1e6).round() as u32).collect(),
        ),
        Err(error) => SolverOutcome::Failed(error.to_string()),
    }
}

fn run(
    targets: &NutrientTargets,
    is_fine_tuning: bool,
    salts: &[Salt],
) -> Result<OptimizationResult, OptimizationError> {
    let mut answer = None;
    loop {
        if let Some(SolverOutcome::Optimal(doses)) = &answer {
            assert_eq!(doses.len(), salts.len());
        }
        match optimize_recipe(targets, is_fine_tuning, salts, answer) {
            Step::Solve(program) => answer = Some(solve(&program)),
            Step::Finished(ended) => return ended,
        }
    }
}

fn plain(name: &str, nh4: u32, no3: u32, k: u32, fe: u32) -> Salt {
    Salt::predefined(name, name, "A", nh4, no3, 0, k, 0, 0, 0, 0, fe, 0, 0, 0, 0, 0)
}

fn open_targets() -> NutrientTargets {
    let any = Range { min: 0, max: 1_000_000_000 };
    NutrientTargets {
        n: any,
        nh4_ratio: 0,
        k: any,
        p: any,
        ca: any,
        mg: any,
        s: any,
        cl: any,
        fe: any,
        mn: any,
        zn: any,
        cu: any,
        b: any,
        mo: any,
    }
}

fn within(level: u128, range: Range) -> bool {
    let value = level as f64 / ONE;
    range.min as f64 / 1e6 - TOLERANCE <= value && value <= range.max as f64 / 1e6 + TOLERANCE
}

#[test]
fn default_targets_give_a_recipe() {
    let salts = get_predefined_salts();
    let result = run(&NutrientTargets::default(), false, &salts).unwrap();
    assert!(!result.recipe.is_empty());
    let nitrogen = (result.nh4_actual + result.no3_actual) as f64 / ONE;
    let nh4 = result.nh4_actual as f64 / ONE;
    assert!((nitrogen - 40.0).abs() < TOLERANCE);
    assert!((nh4 - 20.0).abs() < TOLERANCE);
}

#[test]
fn a_recipe_reaches_every_target() {
    let salts = get_predefined_salts();
    let targets = NutrientTargets::default();
    let result = run(&targets, false, &salts).unwrap();
    assert!(within(result.nh4_actual + result.no3_actual, targets.n));
    assert!(within(result.k_actual, targets.k));
    assert!(within(result.p_actual, targets.p));
    assert!(within(result.ca_actual, targets.ca));
    assert!(within(result.mg_actual, targets.mg));
    assert!(within(result.s_actual, targets.s));
    assert!(within(result.cl_actual, targets.cl));
    assert!(within(result.fe_actual, targets.fe));
    assert!(within(result.mn_actual, targets.mn));
    assert!(within(result.zn_actual, targets.zn));
    assert!(within(result.cu_actual, targets.cu));
    assert!(within(result.b_actual, targets.b));
    assert!(within(result.mo_actual, targets.mo));
    let nh4 = result.nh4_actual as f64 / ONE;
    let nitrogen = (result.nh4_actual + result.no3_actual) as f64 / ONE;
    assert!((nh4 - targets.nh4_ratio as f64 / 1e6 * nitrogen).abs() < TOLERANCE);
}

#[test]
fn a_recipe_lists_only_dosed_salts() {
    let salts = get_predefined_salts();
    let result = run(&NutrientTargets::default(), false, &salts).unwrap();
    for (name, dose) in &result.recipe {
        assert!(*dose > 1);
        assert!(salts.iter().any(|salt| salt.name == *name));
    }
    assert!(!result.recipe.iter().any(|(name, _)| name == "Ferty 72" || name == "Ferty 10"));
}

#[test]
fn the_same_inputs_give_the_same_levels() {
    let salts = get_predefined_salts();
    let targets = NutrientTargets::default();
    let first = run(&targets, false, &salts).unwrap();
    let second = run(&targets, false, &salts).unwrap();
    assert_eq!(first, second);
}

#[test]
fn unreachable_calcium_is_infeasible() {
    let salts = get_predefined_salts();
    let mut targets = NutrientTargets::default();
    targets.ca = Range { min: 100_000_000, max: 100_000_000 };
    match run(&targets, false, &salts) {
        Err(OptimizationError::Infeasible(reason)) => assert!(!reason.is_empty()),
        other => panic!("expected an infeasible program, got {:?}", other),
    }
}

#[test]
fn an_inverted_range_is_infeasible() {
    let salts = get_predefined_salts();
    let mut targets = NutrientTargets::default();
    targets.k = Range { min: 25_000_000, max: 15_000_000 };
    assert!(matches!(run(&targets, false, &salts), Err(OptimizationError::Infeasible(_))));
}

#[test]
fn fine_tuning_keeps_chloride_under_the_lowered_ceiling() {
    let salts = get_predefined_salts();
    let mut targets = NutrientTargets::default();
    targets.cl = Range { min: 20_000_000, max: 25_000_000 };
    let coarse = run(&targets, false, &salts).unwrap();
    assert!(within(coarse.cl_actual, targets.cl));
    let fine = run(&targets, true, &salts).unwrap();
    assert!(within(fine.cl_actual, Range { min: 20_000_000, max: 20_000_000 }));
}

#[test]
fn no_salts_is_reported_before_anything_is_solved() {
    let targets = NutrientTargets::default();
    let step = optimize_recipe(&targets, false, &[], None);
    assert_eq!(step, Step::Finished(Err(OptimizationError::NoSaltsSelected)));
    let step = optimize_recipe(&open_targets(), true, &[], None);
    assert_eq!(step, Step::Finished(Err(OptimizationError::NoSaltsSelected)));
}

#[test]
fn no_salts_is_reported_whatever_the_solver_said() {
    let targets = NutrientTargets::default();
    let failed = Some(SolverOutcome::Failed("Infeasible".to_string()));
    assert_eq!(
        optimize_recipe(&targets, false, &[], failed),
        Step::Finished(Err(OptimizationError::NoSaltsSelected))
    );
    let solved = Some(SolverOutcome::Optimal(vec![]));
    assert_eq!(
        optimize_recipe(&targets, false, &[], solved),
        Step::Finished(Err(OptimizationError::NoSaltsSelected))
    );
    let stray = Some(SolverOutcome::Optimal(vec![1, 2, 3]));
    assert_eq!(
        optimize_recipe(&open_targets(), true, &[], stray),
        Step::Finished(Err(OptimizationError::NoSaltsSelected))
    );
}

#[test]
fn with_salts_the_first_step_is_to_solve() {
    let salts = vec![plain("KNO3", 0, 613_282, 386_718, 0)];
    match optimize_recipe(&open_targets(), false, &salts, None) {
        Step::Solve(program) => {
            assert_eq!(program.variables, 1);
            assert_eq!(program.constraints.len(), 27);
        }
        other => panic!("expected a program to solve, got {:?}", other),
    }
}

#[test]
fn the_reason_of_a_failure_is_passed_on_as_given() {
    let salts = vec![plain("KNO3", 0, 613_282, 386_718, 0)];
    let reason = "Infeasible: The problem contains contradictory constraints.";
    let step = optimize_recipe(
        &open_targets(),
        false,
        &salts,
        Some(SolverOutcome::Failed(reason.to_string())),
    );
    assert_eq!(
        step,
        Step::Finished(Err(OptimizationError::Infeasible(reason.to_string())))
    );
}

#[test]
fn a_solution_is_read_into_recipe_and_levels() {
    let salts = vec![
        plain("KNO3", 0, 613_282, 386_718, 0),
        plain("NH4Cl", 337_247, 0, 0, 0),
        plain("Iron", 0, 0, 0, 200_000),
    ];
    let doses = vec![10_000_000, 2_000_000, 5];
    let step =
        optimize_recipe(&open_targets(), false, &salts, Some(SolverOutcome::Optimal(doses)));
    let result = match step {
        Step::Finished(Ok(result)) => result,
        other => panic!("expected a result, got {:?}", other),
    };
    assert_eq!(
        result.recipe,
        vec![
            ("KNO3".to_string(), 10_000_000),
            ("NH4Cl".to_string(), 2_000_000),
            ("Iron".to_string(), 5),
        ]
    );
    assert_eq!(result.no3_actual, 6_132_820_000_000);
    assert_eq!(result.k_actual, 3_867_180_000_000);
    assert_eq!(result.nh4_actual, 674_494_000_000);
    assert_eq!(result.fe_actual, 1_000_000_000);
    assert_eq!(result.p_actual, 0);
    assert_eq!(result.mo_actual, 0);
}

#[test]
fn a_dosage_at_the_threshold_is_left_out() {
    let salts = vec![
        plain("first", 0, 1_000_000, 0, 0),
        plain("second", 0, 1_000_000, 0, 0),
        plain("third", 0, 1_000_000, 0, 0),
        plain("fourth", 0, 1_000_000, 0, 0),
    ];
    let result = read_solution(&salts, &[0, 1, 2, 3]);
    assert_eq!(result.recipe, vec![("third".to_string(), 2), ("fourth".to_string(), 3)]);
    assert_eq!(result.no3_actual, 6_000_000);
}

#[test]
fn a_level_is_the_sum_of_fraction_times_dosage() {
    let salts = vec![plain("a", 250_000, 0, 0, 0), plain("b", 500_000, 0, 0, 0)];
    let doses = [4_000_000, 1_000_000];
    assert_eq!(evaluate(&salts, Nutrient::Nh4, &doses), 1_500_000_000_000);
    assert_eq!(evaluate(&salts, Nutrient::No3, &doses), 0);
}

#[test]
fn the_largest_dosages_do_not_overflow() {
    let salts = vec![
        plain("a", u32::MAX, 0, 0, u32::MAX),
        plain("b", u32::MAX, 0, 0, u32::MAX),
    ];
    let result = read_solution(&salts, &[u32::MAX, u32::MAX]);
    let product = u32::MAX as u128 * u32::MAX as u128;
    assert_eq!(result.nh4_actual, 2 * product);
    assert_eq!(result.fe_actual, 2_000 * product);
}

#[test]
fn a_micronutrient_on_its_bound_reads_as_the_bound() {
    let mut targets = open_targets();
    targets.fe = Range { min: 2_500_000, max: 2_500_000 };
    let salts = vec![plain("Iron", 0, 0, 0, 1_000_000)];
    let program = match optimize_recipe(&targets, false, &salts, None) {
        Step::Solve(program) => program,
        other => panic!("expected a program to solve, got {:?}", other),
    };
    let floor = &program.constraints[15];
    assert_eq!(floor.relation, Relation::AtLeast);
    assert_eq!(floor.bound, 2_500_000_000);
    assert_eq!(floor.bound as f64 / ONE, 2.5 / 1000.0);
    let result = read_solution(&salts, &[2_500]);
    assert_eq!(result.fe_actual, 2_500_000_000_000);
    assert!((result.fe_actual as f64 / ONE - 2.5).abs() < 1e-9);
    let solved = run(&targets, false, &salts).unwrap();
    assert_eq!(solved.fe_actual, 2_500_000_000_000);
}

#[test]
fn a_ratio_of_nothing_gives_nitrate_only() {
    let salts = get_predefined_salts();
    let mut targets = open_targets();
    targets.n = Range { min: 10_000_000, max: 10_000_000 };
    targets.nh4_ratio = 0;
    let result = run(&targets, false, &salts).unwrap();
    assert!(result.nh4_actual as f64 / ONE < TOLERANCE);
    assert!((result.no3_actual as f64 / ONE - 10.0).abs() < TOLERANCE);
    assert!(!result.recipe.iter().any(|(name, _)| name.contains("NH₄")));
}

#[test]
fn a_ratio_of_one_gives_ammonium_only() {
    let salts = get_predefined_salts();
    let mut targets = open_targets();
    targets.n = Range { min: 10_000_000, max: 10_000_000 };
    targets.nh4_ratio = 1_000_000;
    let result = run(&targets, false, &salts).unwrap();
    assert!(result.no3_actual as f64 / ONE < TOLERANCE);
    assert!((result.nh4_actual as f64 / ONE - 10.0).abs() < TOLERANCE);
    assert!(!result.recipe.iter().any(|(name, _)| name.contains("NO₃")));
}

#[test]
fn the_lightest_recipe_is_chosen() {
    let salts = vec![
        plain("thin", 0, 100_000, 0, 0),
        plain("rich", 0, 500_000, 0, 0),
    ];
    let mut targets = open_targets();
    targets.n = Range { min: 10_000_000, max: 20_000_000 };
    let result = run(&targets, false, &salts).unwrap();
    assert_eq!(result.recipe, vec![("rich".to_string(), 20_000_000)]);
    assert_eq!(result.no3_actual, 10_000_000_000_000);
}

#[test]
fn with_nothing_asked_nothing_is_dosed() {
    let salts = get_predefined_salts();
    let result = run(&open_targets(), true, &salts).unwrap();
    assert!(result.recipe.is_empty());
    assert_eq!(result.nh4_actual + result.no3_actual + result.k_actual, 0);
}

#[test]
fn disabled_salts_take_no_part() {
    let mut catalog = nutrient_optimizer::catalog::SaltCatalog::new();
    for index in [5, 6, 7] {
        assert!(catalog.toggle_enabled(index));
    }
    let enabled = catalog.enabled_salts();
    assert_eq!(enabled.len(), 9);
    let mut targets = open_targets();
    targets.n = Range { min: 10_000_000, max: 10_000_000 };
    targets.nh4_ratio = 500_000;
    assert!(matches!(run(&targets, false, &enabled), Err(OptimizationError::Infeasible(_))));
    targets.nh4_ratio = 10_000;
    let result = run(&targets, false, &enabled).unwrap();
    assert!(result.recipe.iter().any(|(name, _)| name == "Ca(NO₃)₂·4H₂O"));
}
