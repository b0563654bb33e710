use nutrient_optimizer::ledger::{ComparisonLedger, Session};
use nutrient_optimizer::models::{ComparisonEntry, OptimizationResult};
use nutrient_optimizer::optimizer::OptimizationError;

fn result(marker: u128) -> OptimizationResult {
    OptimizationResult {
        recipe: vec![("KNO₃".to_string(), 1_000_000), ("NH₄Cl".to_string(), 2)],
        nh4_actual: marker,
        no3_actual: 2,
        k_actual: 3,
        p_actual: 4,
        ca_actual: 5,
        mg_actual: 6,
        s_actual: 7,
        cl_actual: 8,
        fe_actual: 9,
        mn_actual: 10,
        zn_actual: 11,
        cu_actual: 12,
        b_actual: 13,
        mo_actual: 14,
    }
}

fn entry(marker: u128, label: &str) -> ComparisonEntry {
    ComparisonEntry { result: result(marker), timestamp: label.to_string() }
}

#[test]
fn a_copy_is_equal_to_what_it_copies() {
    let first = result(1);
    assert_eq!(first.clone(), first);
    let saved = entry(2, "50% NH₄⁺");
    assert_eq!(saved.clone(), saved);
}

#[test]
fn a_ledger_starts_empty() {
    assert!(ComparisonLedger::new().entries().is_empty());
}

#[test]
fn saving_appends_in_order() {
    let mut ledger = ComparisonLedger::new();
    ledger.save(&result(1), "50% NH₄⁺".to_string());
    ledger.save(&result(2), "40% NH₄⁺".to_string());
    ledger.save(&result(3), "60% NH₄⁺".to_string());
    assert_eq!(
        *ledger.entries(),
        vec![entry(1, "50% NH₄⁺"), entry(2, "40% NH₄⁺"), entry(3, "60% NH₄⁺")]
    );
}

#[test]
fn the_same_result_may_be_saved_twice() {
    let mut ledger = ComparisonLedger::new();
    ledger.save(&result(1), "50% NH₄⁺".to_string());
    ledger.save(&result(1), "50% NH₄⁺".to_string());
    assert_eq!(*ledger.entries(), vec![entry(1, "50% NH₄⁺"), entry(1, "50% NH₄⁺")]);
}

#[test]
fn a_ledger_takes_many_entries() {
    let mut ledger = ComparisonLedger::new();
    for marker in 0..1_000 {
        ledger.save(&result(marker), marker.to_string());
    }
    assert_eq!(ledger.entries().len(), 1_000);
    assert_eq!(ledger.entries()[999], entry(999, "999"));
}

#[test]
fn clearing_empties_the_ledger() {
    let mut ledger = ComparisonLedger::new();
    ledger.save(&result(1), "50% NH₄⁺".to_string());
    ledger.clear();
    assert!(ledger.entries().is_empty());
    ledger.clear();
    assert!(ledger.entries().is_empty());
    ledger.save(&result(2), "10% NH₄⁺".to_string());
    assert_eq!(*ledger.entries(), vec![entry(2, "10% NH₄⁺")]);
}

#[test]
fn a_session_starts_with_nothing() {
    let session = Session::new();
    assert_eq!(*session.current_result(), None);
    assert_eq!(*session.last_saved_result(), None);
    assert_eq!(*session.error(), None);
    assert!(session.history().entries().is_empty());
}

#[test]
fn a_result_becomes_current_and_clears_the_error() {
    let mut session = Session::new();
    session.record(Err(OptimizationError::NoSaltsSelected));
    assert_eq!(*session.error(), Some(OptimizationError::NoSaltsSelected));
    assert_eq!(*session.current_result(), None);
    session.record(Ok(result(1)));
    assert_eq!(*session.current_result(), Some(result(1)));
    assert_eq!(*session.error(), None);
    session.record(Ok(result(2)));
    assert_eq!(*session.current_result(), Some(result(2)));
    assert_eq!(*session.last_saved_result(), None);
}

#[test]
fn an_error_leaves_the_earlier_result_in_place() {
    let mut session = Session::new();
    session.record(Ok(result(1)));
    session.record(Err(OptimizationError::Infeasible("no solution".to_string())));
    assert_eq!(*session.current_result(), Some(result(1)));
    assert_eq!(*session.error(), Some(OptimizationError::Infeasible("no solution".to_string())));
    session.record(Err(OptimizationError::NoSaltsSelected));
    assert_eq!(*session.current_result(), Some(result(1)));
    assert_eq!(*session.error(), Some(OptimizationError::NoSaltsSelected));
}

#[test]
fn saving_keeps_a_copy_of_the_current_result() {
    let mut session = Session::new();
    session.record(Ok(result(1)));
    assert!(session.save_current(50_000_000));
    session.record(Ok(result(2)));
    assert!(session.save_current(40_400_000));
    session.record(Ok(result(3)));
    assert_eq!(
        *session.history().entries(),
        vec![entry(1, "50% NH₄⁺"), entry(2, "40% NH₄⁺")]
    );
    assert_eq!(*session.last_saved_result(), Some(result(2)));
    assert_eq!(*session.current_result(), Some(result(3)));
}

#[test]
fn with_no_result_there_is_nothing_to_save() {
    let mut session = Session::new();
    assert!(!session.save_current(50_000_000));
    session.record(Err(OptimizationError::NoSaltsSelected));
    assert!(!session.save_current(50_000_000));
    assert!(session.history().entries().is_empty());
    assert_eq!(*session.last_saved_result(), None);
}

#[test]
fn the_result_before_an_error_can_still_be_saved() {
    let mut session = Session::new();
    session.record(Ok(result(1)));
    session.record(Err(OptimizationError::Infeasible("no solution".to_string())));
    assert!(session.save_current(50_000_000));
    assert_eq!(*session.history().entries(), vec![entry(1, "50% NH₄⁺")]);
}

#[test]
fn clearing_the_history_keeps_the_results() {
    let mut session = Session::new();
    session.record(Ok(result(1)));
    assert!(session.save_current(50_000_000));
    session.clear_history();
    assert!(session.history().entries().is_empty());
    assert_eq!(*session.current_result(), Some(result(1)));
    assert_eq!(*session.last_saved_result(), Some(result(1)));
}
