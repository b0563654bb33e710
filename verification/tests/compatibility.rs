use nutrient_optimizer::catalog::SaltCatalog;
use nutrient_optimizer::compatibility::{check_incompatible_salts, TRACE_THRESHOLD};
use nutrient_optimizer::models::Salt;

fn salt(name: &str, group: &str, p: u32, ca: u32, mg: u32) -> Salt {
    Salt::predefined(name, name, group, 0, 0, p, 0, ca, mg, 0, 0, 0, 0, 0, 0, 0, 0)
}

fn names(list: &[&str]) -> Vec<String> {
    list.iter().map(|name| name.to_string()).collect()
}

#[test]
fn calcium_and_phosphate_in_one_solution_are_named() {
    let salts = vec![
        salt("CaCl2", "A", 0, 270_000, 0),
        salt("KH2PO4", "A", 230_000, 0, 0),
        salt("K2SO4", "A", 0, 0, 0),
    ];
    let warning = check_incompatible_salts(&salts, "A");
    assert_eq!(warning, Some((names(&["CaCl2"]), names(&["KH2PO4"]))));
}

#[test]
fn a_solution_without_calcium_or_magnesium_is_fine() {
    let salts = vec![salt("KH2PO4", "A", 230_000, 0, 0), salt("NH4H2PO4", "A", 269_281, 0, 0)];
    assert_eq!(check_incompatible_salts(&salts, "A"), None);
}

#[test]
fn a_solution_without_phosphate_is_fine() {
    let salts = vec![salt("CaCl2", "A", 0, 270_000, 0), salt("MgSO4", "A", 0, 0, 98_612)];
    assert_eq!(check_incompatible_salts(&salts, "A"), None);
}

#[test]
fn an_empty_solution_is_fine() {
    assert_eq!(check_incompatible_salts(&[], "A"), None);
    let salts = vec![salt("CaCl2", "A", 0, 270_000, 0), salt("KH2PO4", "A", 230_000, 0, 0)];
    assert_eq!(check_incompatible_salts(&salts, "B"), None);
    assert_eq!(check_incompatible_salts(&salts, ""), None);
}

#[test]
fn salts_in_different_solutions_do_not_meet() {
    let salts = vec![salt("CaCl2", "A", 0, 270_000, 0), salt("KH2PO4", "B", 230_000, 0, 0)];
    assert_eq!(check_incompatible_salts(&salts, "A"), None);
    assert_eq!(check_incompatible_salts(&salts, "B"), None);
}

#[test]
fn a_disabled_salt_does_not_count() {
    let mut salts = vec![salt("CaCl2", "A", 0, 270_000, 0), salt("KH2PO4", "A", 230_000, 0, 0)];
    salts[1].enabled = false;
    assert_eq!(check_incompatible_salts(&salts, "A"), None);
    salts[1].enabled = true;
    salts[0].enabled = false;
    assert_eq!(check_incompatible_salts(&salts, "A"), None);
}

#[test]
fn magnesium_counts_like_calcium() {
    let salts = vec![salt("MgSO4", "B", 0, 0, 98_612), salt("KH2PO4", "B", 227_609, 0, 0)];
    assert_eq!(
        check_incompatible_salts(&salts, "B"),
        Some((names(&["MgSO4"]), names(&["KH2PO4"])))
    );
}

#[test]
fn a_trace_does_not_count() {
    assert_eq!(TRACE_THRESHOLD, 10_000);
    let at_threshold = vec![
        salt("calcium", "A", 0, 10_000, 10_000),
        salt("phosphate", "A", 230_000, 0, 0),
    ];
    assert_eq!(check_incompatible_salts(&at_threshold, "A"), None);
    let phosphate_trace = vec![
        salt("calcium", "A", 0, 270_000, 0),
        salt("phosphate", "A", 10_000, 0, 0),
    ];
    assert_eq!(check_incompatible_salts(&phosphate_trace, "A"), None);
    let just_above = vec![
        salt("calcium", "A", 0, 10_001, 0),
        salt("magnesium", "A", 0, 0, 10_001),
        salt("phosphate", "A", 10_001, 0, 0),
    ];
    assert_eq!(
        check_incompatible_salts(&just_above, "A"),
        Some((names(&["calcium", "magnesium"]), names(&["phosphate"])))
    );
}

#[test]
fn a_salt_of_both_kinds_is_named_twice() {
    let salts = vec![salt("bone meal", "A", 150_000, 300_000, 0)];
    assert_eq!(
        check_incompatible_salts(&salts, "A"),
        Some((names(&["bone meal"]), names(&["bone meal"])))
    );
}

#[test]
fn the_names_come_in_the_order_of_the_salts() {
    let salts = vec![
        salt("ph1", "A", 20_000, 0, 0),
        salt("c1", "A", 0, 20_000, 0),
        salt("other", "B", 20_000, 20_000, 20_000),
        salt("ph2", "A", 30_000, 0, 0),
        salt("m1", "A", 0, 0, 20_000),
        salt("none", "A", 0, 0, 0),
        salt("c2", "A", 0, 20_000, 20_000),
    ];
    assert_eq!(
        check_incompatible_salts(&salts, "A"),
        Some((names(&["c1", "m1", "c2"]), names(&["ph1", "ph2"])))
    );
}

#[test]
fn the_built_in_solutions_are_checked_as_they_change() {
    let mut catalog = SaltCatalog::new();
    assert_eq!(check_incompatible_salts(catalog.salts(), "A"), None);
    assert_eq!(
        check_incompatible_salts(catalog.salts(), "B"),
        Some((names(&["MgSO₄·7H₂O"]), names(&["NH₄H₂PO₄", "KH₂PO₄"])))
    );
    assert!(catalog.assign(10, "A"));
    assert_eq!(check_incompatible_salts(catalog.salts(), "B"), None);
    assert!(catalog.assign(8, "A"));
    assert_eq!(
        check_incompatible_salts(catalog.salts(), "A"),
        Some((
            names(&["Ca(NO₃)₂·4H₂O", "Mg(NO₃)₂·6H₂O", "CaCl₂·2H₂O", "MgSO₄·7H₂O"]),
            names(&["KH₂PO₄"])
        ))
    );
    assert!(catalog.toggle_enabled(8));
    assert_eq!(check_incompatible_salts(catalog.salts(), "A"), None);
}
