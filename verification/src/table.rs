//! The recipe as a table: one section per stock solution.
//!
//! Each section lists the dosed salts that are kept in the stock solution,
//! in the order of the recipe. The two micronutrient mixes are not dosed by
//! the optimization; where one is enabled and kept in its own stock
//! solution, it closes that section with its fixed dosage.
use vstd::prelude::*;
use crate::sequences::filter_of_push;
use crate::text::string_views;
use crate::models::{Salt, SaltView, recipe_view, salt_views};

verus! {

/// The fixed dosage of the mix "Ferty 72", in millionths of a gram per
/// litre.
pub const FERTY_72_DOSE: u32 = 300_000;

/// The fixed dosage of the mix "Ferty 10", in millionths of a gram per
/// litre.
pub const FERTY_10_DOSE: u32 = 2_240_000;

/// One line of the table: a salt and its dosage, in millionths of a gram per
/// litre of the stock solution that holds it.
#[derive(Debug, PartialEq, Eq)]
pub struct TableRow {
    pub name: String,
    pub stock_solution: String,
    pub amount: u32,
}

/// What a [`TableRow`] is, as a mathematical value.
pub struct RowView {
    pub name: Seq<char>,
    pub stock_solution: Seq<char>,
    pub amount: int,
}

impl View for TableRow {
    type V = RowView;

    open spec fn view(&self) -> RowView {
        RowView {
            name: self.name@,
            stock_solution: self.stock_solution@,
            amount: self.amount as int,
        }
    }
}

/// The views of a list of rows, in order.
pub open spec fn row_views(rows: Seq<TableRow>) -> Seq<RowView> {
    Seq::new(rows.len(), |i: int| rows[i]@)
}

/// The stock solution of the first salt called `name`, if there is one.
pub open spec fn solution_of(salts: Seq<SaltView>, name: Seq<char>) -> Option<Seq<char>>
    decreases salts.len(),
{
    if salts.len() == 0 {
        None
    } else if salts[0].name == name {
        Some(salts[0].stock_solution)
    } else {
        solution_of(salts.drop_first(), name)
    }
}

/// Whether a recipe entry's salt is kept in `solution`.
pub open spec fn kept_in(salts: Seq<SaltView>, solution: Seq<char>) -> spec_fn(
    (Seq<char>, int),
) -> bool {
    |entry: (Seq<char>, int)| solution_of(salts, entry.0) == Some(solution)
}

/// The rows of the dosed salts that are kept in `solution`.
pub open spec fn dosed_rows(
    recipe: Seq<(Seq<char>, int)>,
    salts: Seq<SaltView>,
    solution: Seq<char>,
) -> Seq<RowView> {
    let kept = recipe.filter(kept_in(salts, solution));
    Seq::new(
        kept.len(),
        |i: int| RowView { name: kept[i].0, stock_solution: solution, amount: kept[i].1 },
    )
}

/// Whether the mix called `name` is enabled and kept in `solution`.
pub open spec fn holds_mix(salts: Seq<SaltView>, name: Seq<char>, solution: Seq<char>) -> bool {
    exists|i: int|
        0 <= i < salts.len() && (#[trigger] salts[i]).name == name && salts[i].enabled
            && salts[i].stock_solution == solution
}

/// The row of the mix that belongs to `solution`, if it is kept there.
pub open spec fn mix_rows(salts: Seq<SaltView>, solution: Seq<char>) -> Seq<RowView> {
    if solution == "A"@ && holds_mix(salts, "Ferty 72"@, "A"@) {
        seq![RowView { name: "Ferty 72"@, stock_solution: "A"@, amount: FERTY_72_DOSE as int }]
    } else if solution == "B"@ && holds_mix(salts, "Ferty 10"@, "B"@) {
        seq![RowView { name: "Ferty 10"@, stock_solution: "B"@, amount: FERTY_10_DOSE as int }]
    } else {
        Seq::empty()
    }
}

/// The section of one stock solution.
pub open spec fn section(
    recipe: Seq<(Seq<char>, int)>,
    salts: Seq<SaltView>,
    solution: Seq<char>,
) -> Seq<RowView> {
    dosed_rows(recipe, salts, solution) + mix_rows(salts, solution)
}

/// The whole table: the sections of the stock solutions, in their order.
pub open spec fn table(
    recipe: Seq<(Seq<char>, int)>,
    salts: Seq<SaltView>,
    solutions: Seq<Seq<char>>,
) -> Seq<RowView>
    decreases solutions.len(),
{
    if solutions.len() == 0 {
        Seq::empty()
    } else {
        table(recipe, salts, solutions.drop_last()) + section(recipe, salts, solutions.last())
    }
}

proof fn solution_of_later(salts: Seq<SaltView>, name: Seq<char>, from: int)
    requires
        0 <= from <= salts.len(),
        forall|j: int| 0 <= j < from ==> (#[trigger] salts[j]).name != name,
    ensures
        solution_of(salts, name) == solution_of(salts.skip(from), name),
    decreases from,
{
    if from == 0 {
        assert(salts.skip(0) =~= salts);
    } else {
        let rest = salts.drop_first();
        assert forall|j: int| 0 <= j < from - 1 implies (#[trigger] rest[j]).name != name by {
            assert(rest[j] == salts[j + 1]);
        }
        solution_of_later(rest, name, from - 1);
        assert(rest.skip(from - 1) =~= salts.skip(from));
    }
}

fn find_solution<'a>(salts: &'a [Salt], name: &String) -> (found: Option<&'a String>)
    ensures
        match found {
            Some(solution) => solution_of(salt_views(salts@), name@) == Some(solution@),
            None => solution_of(salt_views(salts@), name@) is None,
        },
{
    let ghost views = salt_views(salts@);
    let mut i: usize = 0;
    while i < salts.len()
        invariant
            i <= salts@.len(),
            views == salt_views(salts@),
            forall|j: int| 0 <= j < i ==> (#[trigger] views[j]).name != name@,
        decreases salts@.len() - i,
    {
        if salts[i].name == *name {
            proof {
                solution_of_later(views, name@, i as int);
            }
            return Some(&salts[i].stock_solution);
        }
        i += 1;
    }
    proof {
        solution_of_later(views, name@, salts@.len() as int);
    }
    None
}

fn has_mix(salts: &[Salt], name: &str, solution: &str) -> (held: bool)
    ensures
        held == holds_mix(salt_views(salts@), name@, solution@),
{
    let wanted: String = name.to_owned();
    let place: String = solution.to_owned();
    let mut i: usize = 0;
    while i < salts.len()
        invariant
            i <= salts@.len(),
            wanted@ == name@,
            place@ == solution@,
            forall|j: int|
                0 <= j < i ==> !((#[trigger] salt_views(salts@)[j]).name == name@ && salt_views(
                    salts@,
                )[j].enabled && salt_views(salts@)[j].stock_solution == solution@),
        decreases salts@.len() - i,
    {
        if salts[i].name == wanted && salts[i].enabled && salts[i].stock_solution == place {
            assert(salt_views(salts@)[i as int].name == name@);
            return true;
        }
        i += 1;
    }
    false
}

fn push_dosed_rows(
    rows: &mut Vec<TableRow>,
    recipe: &[(String, u32)],
    salts: &[Salt],
    solution: &String,
)
    ensures
        row_views(final(rows)@) == row_views(old(rows)@) + dosed_rows(
            recipe_view(recipe@),
            salt_views(salts@),
            solution@,
        ),
{
    let ghost entries = recipe_view(recipe@);
    let ghost keep = kept_in(salt_views(salts@), solution@);
    let ghost before = row_views(rows@);
    let mut i: usize = 0;
    proof {
        reveal(Seq::filter);
    }
    while i < recipe.len()
        invariant
            i <= recipe@.len(),
            entries == recipe_view(recipe@),
            keep == kept_in(salt_views(salts@), solution@),
            row_views(rows@) == before + dosed_rows(
                entries.take(i as int),
                salt_views(salts@),
                solution@,
            ),
        decreases recipe@.len() - i,
    {
        let ghost so_far = row_views(rows@);
        let found = find_solution(salts, &recipe[i].0);
        proof {
            assert(entries.take(i + 1) =~= entries.take(i as int).push(entries[i as int]));
            filter_of_push(entries.take(i as int), entries[i as int], keep);
        }
        let kept: bool = match found {
            Some(place) => *place == *solution,
            None => false,
        };
        if kept {
            rows.push(
                TableRow {
                    name: recipe[i].0.clone(),
                    stock_solution: solution.clone(),
                    amount: recipe[i].1,
                },
            );
            assert(row_views(rows@) =~= so_far.push(
                RowView {
                    name: entries[i as int].0,
                    stock_solution: solution@,
                    amount: entries[i as int].1,
                },
            ));
            assert(row_views(rows@) =~= before + dosed_rows(
                entries.take(i + 1),
                salt_views(salts@),
                solution@,
            ));
        }
        i += 1;
    }
    assert(entries.take(recipe@.len() as int) =~= entries);
}

fn push_mix_rows(rows: &mut Vec<TableRow>, salts: &[Salt], solution: &String)
    ensures
        row_views(final(rows)@) == row_views(old(rows)@) + mix_rows(salt_views(salts@), solution@),
{
    let first: String = "A".to_owned();
    let second: String = "B".to_owned();
    if *solution == first && has_mix(salts, "Ferty 72", "A") {
        rows.push(
            TableRow {
                name: "Ferty 72".to_owned(),
                stock_solution: first,
                amount: FERTY_72_DOSE,
            },
        );
    } else if *solution == second && has_mix(salts, "Ferty 10", "B") {
        rows.push(
            TableRow {
                name: "Ferty 10".to_owned(),
                stock_solution: second,
                amount: FERTY_10_DOSE,
            },
        );
    }
}

/// Lays a recipe out as a table, one section per stock solution: the dosed
/// salts kept in it, then the micronutrient mix that belongs to it, if it is
/// enabled and kept there. A dosed salt goes by the first salt of its name;
/// one that is kept in none of the stock solutions is not listed.
pub fn recipe_table(recipe: &[(String, u32)], salts: &[Salt], stock_solutions: &[String]) -> (rows:
    Vec<TableRow>)
    ensures
        row_views(rows@) == table(
            recipe_view(recipe@),
            salt_views(salts@),
            string_views(stock_solutions@),
        ),
{
    let ghost entries = recipe_view(recipe@);
    let ghost views = salt_views(salts@);
    let ghost labels = string_views(stock_solutions@);
    let mut rows: Vec<TableRow> = Vec::new();
    let mut i: usize = 0;
    while i < stock_solutions.len()
        invariant
            i <= stock_solutions@.len(),
            entries == recipe_view(recipe@),
            views == salt_views(salts@),
            labels == string_views(stock_solutions@),
            row_views(rows@) == table(entries, views, labels.take(i as int)),
        decreases stock_solutions@.len() - i,
    {
        proof {
            assert(labels.take(i + 1).drop_last() =~= labels.take(i as int));
        }
        push_dosed_rows(&mut rows, recipe, salts, &stock_solutions[i]);
        push_mix_rows(&mut rows, salts, &stock_solutions[i]);
        i += 1;
    }
    assert(labels.take(stock_solutions@.len() as int) =~= labels);
    rows
}

} // verus!
