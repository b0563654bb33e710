use nutrient_optimizer::catalog::{Composition, SaltCatalog, ValidationError};
use nutrient_optimizer::solutions::get_next_solution_letter;
use nutrient_optimizer::data::get_predefined_salts;
use nutrient_optimizer::models::{Salt, UNASSIGNED};

fn zeros<'a>() -> Composition<'a> {
    Composition {
        nh4: "0.0",
        no3: "0.0",
        p: "0.0",
        k: "0.0",
        ca: "0.0",
        mg: "0.0",
        s: "0.0",
        cl: "0.0",
        fe: "0.0",
        mn: "0.0",
        zn: "0.0",
        cu: "0.0",
        b: "0.0",
        mo: "0.0",
    }
}

fn labels(catalog: &SaltCatalog) -> Vec<&str> {
    catalog.stock_solutions().iter().map(|label| label.as_str()).collect()
}

fn names(salts: &[Salt]) -> Vec<&str> {
    salts.iter().map(|salt| salt.name.as_str()).collect()
}

fn strings(labels: &[&str]) -> Vec<String> {
    labels.iter().map(|label| label.to_string()).collect()
}

#[test]
fn a_catalog_starts_with_the_built_in_salts_in_two_solutions() {
    let catalog = SaltCatalog::new();
    assert_eq!(*catalog.salts(), get_predefined_salts());
    assert_eq!(labels(&catalog), ["A", "B"]);
    assert_eq!(catalog.enabled_salts(), get_predefined_salts());
}

#[test]
fn only_enabled_salts_are_handed_out_in_order() {
    let mut catalog = SaltCatalog::new();
    assert!(catalog.toggle_enabled(0));
    assert!(catalog.toggle_enabled(4));
    assert!(catalog.toggle_enabled(11));
    let all = get_predefined_salts();
    let expected: Vec<&str> = names(&all)
        .into_iter()
        .enumerate()
        .filter(|(index, _)| ![0, 4, 11].contains(index))
        .map(|(_, name)| name)
        .collect();
    assert_eq!(names(&catalog.enabled_salts()), expected);
    assert_eq!(catalog.salts().len(), 12);
    assert!(!catalog.salts()[4].enabled);
    assert!(catalog.salts()[5].enabled);
}

#[test]
fn with_every_salt_switched_off_none_is_handed_out() {
    let mut catalog = SaltCatalog::new();
    for index in 0..12 {
        assert!(catalog.toggle_enabled(index));
    }
    assert!(catalog.enabled_salts().is_empty());
}

#[test]
fn toggling_twice_restores_the_salt() {
    let mut catalog = SaltCatalog::new();
    assert!(catalog.toggle_enabled(7));
    assert!(!catalog.salts()[7].enabled);
    assert!(catalog.toggle_enabled(7));
    assert_eq!(*catalog.salts(), get_predefined_salts());
}

#[test]
fn toggling_past_the_last_salt_changes_nothing() {
    let mut catalog = SaltCatalog::new();
    assert!(!catalog.toggle_enabled(12));
    assert!(!catalog.toggle_enabled(usize::MAX));
    assert_eq!(*catalog.salts(), get_predefined_salts());
}

#[test]
fn a_salt_moves_to_the_solution_it_is_assigned_to() {
    let mut catalog = SaltCatalog::new();
    assert!(catalog.assign(0, "B"));
    assert_eq!(catalog.salts()[0].stock_solution, "B");
    assert!(catalog.assign(0, UNASSIGNED));
    assert_eq!(catalog.salts()[0].stock_solution, "Unassigned");
    assert_eq!(catalog.salts()[1].stock_solution, "A");
    assert_eq!(catalog.salts()[0].name, get_predefined_salts()[0].name);
}

#[test]
fn assigning_to_the_current_solution_changes_nothing() {
    let mut catalog = SaltCatalog::new();
    assert!(catalog.assign(0, "A"));
    assert_eq!(*catalog.salts(), get_predefined_salts());
    assert!(catalog.assign(0, "B"));
    let once: Vec<Salt> = catalog.salts().clone();
    assert!(catalog.assign(0, "B"));
    assert_eq!(*catalog.salts(), once);
}

#[test]
fn a_salt_cannot_go_where_there_is_no_solution() {
    let mut catalog = SaltCatalog::new();
    assert!(!catalog.assign(0, "C"));
    assert!(!catalog.assign(0, ""));
    assert!(!catalog.assign(0, "unassigned"));
    assert!(!catalog.assign(12, "A"));
    assert_eq!(*catalog.salts(), get_predefined_salts());
}

#[test]
fn a_described_salt_is_added_enabled_and_unassigned() {
    let mut catalog = SaltCatalog::new();
    let composition = Composition { fe: "0.2009", s: "0.1153", ..zeros() };
    let added = catalog.add_custom("FeSO₄·7H₂O".to_string(), "FeSO4".to_string(), composition);
    assert_eq!(catalog.salts().len(), 13);
    assert_eq!(added.as_ref(), Ok(&catalog.salts()[12]));
    let expected = Salt::custom(
        "FeSO₄·7H₂O".to_string(),
        "FeSO4".to_string(),
        0, 0, 0, 0, 0, 0, 115_300, 0, 200_900, 0, 0, 0, 0, 0,
    );
    assert_eq!(catalog.salts()[12], expected);
    assert!(expected.is_custom && expected.enabled);
    assert_eq!(expected.stock_solution, "Unassigned");
    assert_eq!(catalog.enabled_salts().len(), 13);
}

#[test]
fn a_salt_without_a_name_is_refused() {
    let mut catalog = SaltCatalog::new();
    for name in ["", " ", "\t \n", "\u{a0}\u{3000}"] {
        let added = catalog.add_custom(name.to_string(), "X".to_string(), zeros());
        assert_eq!(added, Err(ValidationError::EmptyName), "{:?}", name);
    }
    assert_eq!(*catalog.salts(), get_predefined_salts());
}

#[test]
fn a_name_is_kept_as_it_was_typed() {
    let mut catalog = SaltCatalog::new();
    assert!(catalog.add_custom("  Urea ".to_string(), String::new(), zeros()).is_ok());
    assert_eq!(catalog.salts()[12].name, "  Urea ");
    assert_eq!(catalog.salts()[12].formula, "");
}

#[test]
fn fractions_that_cannot_be_read_count_as_zero() {
    let mut catalog = SaltCatalog::new();
    let composition = Composition {
        nh4: "",
        no3: "abc",
        p: "-0.1",
        k: "0.5",
        ca: "1e-2",
        mg: "0,3",
        s: " 0.2",
        cl: "0.25",
        fe: ".",
        mn: "0.0000019",
        zn: "1",
        cu: "+0.125",
        b: "5000",
        mo: "0.000001",
    };
    assert!(catalog.add_custom("Mix".to_string(), "M".to_string(), composition).is_ok());
    let expected = Salt::custom(
        "Mix".to_string(),
        "M".to_string(),
        0, 0, 0, 500_000, 0, 0, 0, 250_000, 0, 1, 1_000_000, 125_000, 0, 1,
    );
    assert_eq!(catalog.salts()[12], expected);
}

#[test]
fn two_salts_may_have_one_name() {
    let mut catalog = SaltCatalog::new();
    assert!(catalog.add_custom("KNO₃".to_string(), "K".to_string(), zeros()).is_ok());
    assert!(catalog.add_custom("KNO₃".to_string(), "K".to_string(), zeros()).is_ok());
    assert_eq!(catalog.salts().len(), 14);
}

#[test]
fn only_a_salt_the_user_added_can_be_removed() {
    let mut catalog = SaltCatalog::new();
    assert!(catalog.add_custom("Urea".to_string(), "U".to_string(), zeros()).is_ok());
    for index in 0..12 {
        assert!(!catalog.remove(index));
    }
    assert!(!catalog.remove(13));
    assert_eq!(catalog.salts().len(), 13);
    assert!(catalog.remove(12));
    assert_eq!(*catalog.salts(), get_predefined_salts());
    assert!(!catalog.remove(12));
}

#[test]
fn removing_a_salt_keeps_the_others_in_order() {
    let mut catalog = SaltCatalog::new();
    for name in ["one", "two", "three"] {
        assert!(catalog.add_custom(name.to_string(), String::new(), zeros()).is_ok());
    }
    assert!(catalog.remove(13));
    assert_eq!(names(&catalog.salts()[12..]), ["one", "three"]);
}

#[test]
fn the_next_letter_is_the_first_not_in_use() {
    assert_eq!(get_next_solution_letter(&strings(&[])), "A");
    assert_eq!(get_next_solution_letter(&strings(&["A", "B"])), "C");
    assert_eq!(get_next_solution_letter(&strings(&["B"])), "A");
    assert_eq!(get_next_solution_letter(&strings(&["A", "C", "B", "E"])), "D");
    assert_eq!(get_next_solution_letter(&strings(&["X", "A", "a"])), "B");
    assert_eq!(
        get_next_solution_letter(&strings(&["A", "B", "C", "D", "E", "F", "G", "H", "I"])),
        "J"
    );
}

#[test]
fn with_every_letter_in_use_the_next_is_x() {
    let all = strings(&["A", "B", "C", "D", "E", "F", "G", "H", "I", "J"]);
    assert_eq!(get_next_solution_letter(&all), "X");
    let reversed = strings(&["J", "I", "H", "G", "F", "E", "D", "C", "B", "A", "K"]);
    assert_eq!(get_next_solution_letter(&reversed), "X");
}

#[test]
fn solutions_are_added_up_to_ten() {
    let mut catalog = SaltCatalog::new();
    for letter in ["C", "D", "E", "F", "G", "H", "I", "J"] {
        assert_eq!(catalog.add_solution(), Some(letter.to_string()));
    }
    assert_eq!(labels(&catalog), ["A", "B", "C", "D", "E", "F", "G", "H", "I", "J"]);
    assert_eq!(catalog.add_solution(), None);
    assert_eq!(catalog.stock_solutions().len(), 10);
    assert_eq!(*catalog.salts(), get_predefined_salts());
}

#[test]
fn at_least_two_solutions_stay() {
    let mut catalog = SaltCatalog::new();
    assert!(!catalog.remove_solution("A"));
    assert!(!catalog.remove_solution("B"));
    assert_eq!(labels(&catalog), ["A", "B"]);
    assert_eq!(*catalog.salts(), get_predefined_salts());
}

#[test]
fn removing_a_solution_leaves_its_salts_unassigned() {
    let mut catalog = SaltCatalog::new();
    assert_eq!(catalog.add_solution(), Some("C".to_string()));
    assert!(catalog.remove_solution("A"));
    assert_eq!(labels(&catalog), ["B", "C"]);
    assert_eq!(catalog.salts().len(), 12);
    let before = get_predefined_salts();
    for (salt, was) in catalog.salts().iter().zip(&before) {
        assert_eq!(salt.name, was.name);
        assert_eq!(salt.enabled, was.enabled);
        if was.stock_solution == "A" {
            assert_eq!(salt.stock_solution, UNASSIGNED);
        } else {
            assert_eq!(salt.stock_solution, "B");
        }
    }
    assert_eq!(catalog.enabled_salts().len(), 12);
}

#[test]
fn a_solution_that_does_not_exist_cannot_be_removed() {
    let mut catalog = SaltCatalog::new();
    assert_eq!(catalog.add_solution(), Some("C".to_string()));
    assert!(!catalog.remove_solution("D"));
    assert!(!catalog.remove_solution(UNASSIGNED));
    assert!(!catalog.remove_solution(""));
    assert_eq!(labels(&catalog), ["A", "B", "C"]);
}

#[test]
fn a_freed_letter_is_given_out_again() {
    let mut catalog = SaltCatalog::new();
    assert_eq!(catalog.add_solution(), Some("C".to_string()));
    assert_eq!(catalog.add_solution(), Some("D".to_string()));
    assert!(catalog.remove_solution("B"));
    assert!(catalog.remove_solution("A"));
    assert_eq!(labels(&catalog), ["C", "D"]);
    assert_eq!(catalog.add_solution(), Some("A".to_string()));
    assert_eq!(labels(&catalog), ["C", "D", "A"]);
    assert!(catalog.assign(0, "A"));
    assert!(!catalog.assign(0, "B"));
}
