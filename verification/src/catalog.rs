//! The salt catalog of a session: the built-in salts, the salts the user
//! added, and the stock solutions they are kept in.
use vstd::prelude::*;
use crate::sequences::filter_of_push;
use crate::data::{get_predefined_salts, predefined_salts};
use crate::decimal::{lenient_fraction, parse_fraction};
use crate::models::{Salt, SaltView, UNASSIGNED, salt_views};
use crate::solutions::{
    copy_labels, get_next_solution_letter, holds_label, next_letter_is_new,
    next_solution_letter, position_of,
};
use crate::text::{blank, is_blank, string_views};

verus! {

/// The fewest stock solutions a catalog keeps.
pub const MIN_SOLUTIONS: usize = 2;

/// The most stock solutions a catalog takes.
pub const MAX_SOLUTIONS: usize = 10;

/// The salts and the stock solutions of a session.
#[derive(Debug)]
pub struct SaltCatalog {
    salts: Vec<Salt>,
    stock_solutions: Vec<String>,
}

/// What a [`SaltCatalog`] is, as a mathematical value.
pub struct CatalogView {
    pub salts: Seq<SaltView>,
    pub stock_solutions: Seq<Seq<char>>,
}

/// Whether a salt is enabled.
pub open spec fn is_enabled() -> spec_fn(SaltView) -> bool {
    |salt: SaltView| salt.enabled
}

impl CatalogView {
    /// The rules every catalog keeps: between two and ten stock solutions, no
    /// label twice, and every salt either unassigned or in one of them.
    pub open spec fn well_formed(self) -> bool {
        &&& MIN_SOLUTIONS <= self.stock_solutions.len() <= MAX_SOLUTIONS
        &&& self.stock_solutions.no_duplicates()
        &&& forall|i: int|
            0 <= i < self.salts.len() ==> self.accepts((#[trigger] self.salts[i]).stock_solution)
    }

    /// Whether a salt may be assigned to `label`: it is the label of a stock
    /// solution, or the label of the unassigned salts.
    pub open spec fn accepts(self, label: Seq<char>) -> bool {
        label == UNASSIGNED@ || self.stock_solutions.contains(label)
    }

    /// The enabled salts, in order.
    pub open spec fn enabled_salts(self) -> Seq<SaltView> {
        self.salts.filter(is_enabled())
    }

    /// The catalog after the salt at `index` is switched on or off.
    pub open spec fn toggled(self, index: int) -> CatalogView {
        if 0 <= index < self.salts.len() {
            CatalogView {
                salts: self.salts.update(
                    index,
                    SaltView { enabled: !self.salts[index].enabled, ..self.salts[index] },
                ),
                ..self
            }
        } else {
            self
        }
    }

    /// Whether the salt at `index` can be assigned to `label`.
    pub open spec fn can_assign(self, index: int, label: Seq<char>) -> bool {
        0 <= index < self.salts.len() && self.accepts(label)
    }

    /// The catalog after the salt at `index` is assigned to `label`.
    pub open spec fn assigned(self, index: int, label: Seq<char>) -> CatalogView {
        if self.can_assign(index, label) {
            CatalogView {
                salts: self.salts.update(
                    index,
                    SaltView { stock_solution: label, ..self.salts[index] },
                ),
                ..self
            }
        } else {
            self
        }
    }

    /// Whether the salt at `index` can be removed: only a salt that the user
    /// added can.
    pub open spec fn can_remove(self, index: int) -> bool {
        0 <= index < self.salts.len() && self.salts[index].is_custom
    }

    /// The catalog after the salt at `index` is removed.
    pub open spec fn removed(self, index: int) -> CatalogView {
        if self.can_remove(index) {
            CatalogView { salts: self.salts.remove(index), ..self }
        } else {
            self
        }
    }

    /// The catalog with one more salt, at the end.
    pub open spec fn with_salt(self, salt: SaltView) -> CatalogView {
        CatalogView { salts: self.salts.push(salt), ..self }
    }

    /// Whether there is room for one more stock solution.
    pub open spec fn can_add_solution(self) -> bool {
        self.stock_solutions.len() < MAX_SOLUTIONS
    }

    /// The catalog with one more stock solution, labelled with the first
    /// letter that is not in use.
    pub open spec fn with_solution(self) -> CatalogView {
        if self.can_add_solution() {
            CatalogView {
                stock_solutions: self.stock_solutions.push(
                    next_solution_letter(self.stock_solutions),
                ),
                ..self
            }
        } else {
            self
        }
    }

    /// Whether the stock solution `label` can be removed: it exists, and
    /// more than two are left.
    pub open spec fn can_remove_solution(self, label: Seq<char>) -> bool {
        self.stock_solutions.len() > MIN_SOLUTIONS && self.stock_solutions.contains(label)
    }

    /// The catalog without the stock solution `label`: its salts stay, and
    /// become unassigned.
    pub open spec fn without_solution(self, label: Seq<char>) -> CatalogView {
        if self.can_remove_solution(label) {
            CatalogView {
                salts: Seq::new(self.salts.len(), |i: int| released(self.salts[i], label)),
                stock_solutions: self.stock_solutions.remove(self.stock_solutions.index_of(label)),
            }
        } else {
            self
        }
    }
}

/// A salt once the stock solution `label` is gone: unassigned if it was kept
/// there, else as it was.
pub open spec fn released(salt: SaltView, label: Seq<char>) -> SaltView {
    if salt.stock_solution == label {
        SaltView { stock_solution: UNASSIGNED@, ..salt }
    } else {
        salt
    }
}

/// What the user typed as the composition of a salt, field by field.
#[derive(Clone, Copy, Debug)]
pub struct Composition<'a> {
    pub nh4: &'a str,
    pub no3: &'a str,
    pub p: &'a str,
    pub k: &'a str,
    pub ca: &'a str,
    pub mg: &'a str,
    pub s: &'a str,
    pub cl: &'a str,
    pub fe: &'a str,
    pub mn: &'a str,
    pub zn: &'a str,
    pub cu: &'a str,
    pub b: &'a str,
    pub mo: &'a str,
}

/// Why a salt was not added.
#[derive(Clone, Copy, Debug, PartialEq, Eq, Structural)]
pub enum ValidationError {
    /// The name holds nothing but white space.
    EmptyName,
}

/// The salt that the user described: each mass fraction read leniently.
pub open spec fn described_salt(
    name: Seq<char>,
    formula: Seq<char>,
    composition: Composition,
) -> SaltView {
    SaltView {
        name,
        formula,
        is_custom: true,
        enabled: true,
        stock_solution: UNASSIGNED@,
        nh4: lenient_fraction(composition.nh4@) as nat,
        no3: lenient_fraction(composition.no3@) as nat,
        p: lenient_fraction(composition.p@) as nat,
        k: lenient_fraction(composition.k@) as nat,
        ca: lenient_fraction(composition.ca@) as nat,
        mg: lenient_fraction(composition.mg@) as nat,
        s: lenient_fraction(composition.s@) as nat,
        cl: lenient_fraction(composition.cl@) as nat,
        fe: lenient_fraction(composition.fe@) as nat,
        mn: lenient_fraction(composition.mn@) as nat,
        zn: lenient_fraction(composition.zn@) as nat,
        cu: lenient_fraction(composition.cu@) as nat,
        b: lenient_fraction(composition.b@) as nat,
        mo: lenient_fraction(composition.mo@) as nat,
    }
}

impl View for SaltCatalog {
    type V = CatalogView;

    closed spec fn view(&self) -> CatalogView {
        CatalogView {
            salts: salt_views(self.salts@),
            stock_solutions: string_views(self.stock_solutions@),
        }
    }
}

/// Whether a label is the label of the unassigned salts.
fn is_unassigned(label: &String) -> (r: bool)
    ensures
        r == (label@ == UNASSIGNED@),
{
    let unassigned: String = UNASSIGNED.to_owned();
    *label == unassigned
}

fn release(salts: &mut Vec<Salt>, label: &String)
    ensures
        salt_views(final(salts)@) == Seq::new(
            old(salts)@.len(),
            |i: int| released(old(salts)@[i]@, label@),
        ),
{
    let mut i: usize = 0;
    while i < salts.len()
        invariant
            i <= salts@.len(),
            salts@.len() == old(salts)@.len(),
            forall|j: int| 0 <= j < i ==> salts@[j]@ == released(old(salts)@[j]@, label@),
            forall|j: int| i <= j < salts@.len() ==> salts@[j]@ == old(salts)@[j]@,
        decreases salts@.len() - i,
    {
        if salts[i].stock_solution == *label {
            salts[i].stock_solution = UNASSIGNED.to_owned();
        }
        i += 1;
    }
    assert(salt_views(salts@) =~= Seq::new(
        old(salts)@.len(),
        |i: int| released(old(salts)@[i]@, label@),
    ));
}

impl SaltCatalog {
    #[verifier::type_invariant]
    spec fn keeps_rules(self) -> bool {
        self@.well_formed()
    }

    /// Takes the salts out, to be changed and put back.
    fn take_salts(&mut self) -> (salts: Vec<Salt>)
        ensures
            salts@ == old(self).salts@,
            final(self)@ == (CatalogView { salts: Seq::empty(), ..old(self)@ }),
            old(self)@.well_formed(),
    {
        proof {
            use_type_invariant(&*self);
        }
        let mut salts: Vec<Salt> = Vec::new();
        assert(salt_views(salts@) =~= Seq::<SaltView>::empty());
        core::mem::swap(&mut self.salts, &mut salts);
        salts
    }

    /// The catalog a session starts from: the built-in salts, in the stock
    /// solutions A and B.
    pub fn new() -> (catalog: Self)
        ensures
            catalog@ == (CatalogView {
                salts: predefined_salts(),
                stock_solutions: seq!["A"@, "B"@],
            }),
            catalog@.well_formed(),
    {
        let salts: Vec<Salt> = get_predefined_salts();
        let mut stock_solutions: Vec<String> = Vec::new();
        stock_solutions.push(String::from_str("A"));
        stock_solutions.push(String::from_str("B"));
        proof {
            let labels = string_views(stock_solutions@);
            assert(labels =~= seq!["A"@, "B"@]);
            reveal_strlit("A");
            reveal_strlit("B");
            assert("A"@ != "B"@) by {
                assert("A"@[0] != "B"@[0]);
            }
            let views = salt_views(salts@);
            assert forall|i: int| 0 <= i < views.len() implies labels.contains(
                (#[trigger] views[i]).stock_solution,
            ) by {
                if i < 4 {
                    assert(views[i].stock_solution == labels[0]);
                } else {
                    assert(views[i].stock_solution == labels[1]);
                }
            }
        }
        SaltCatalog { salts, stock_solutions }
    }

    /// The salts, in order.
    pub fn salts(&self) -> (salts: &Vec<Salt>)
        ensures
            salt_views(salts@) == self@.salts,
            self@.well_formed(),
    {
        proof {
            use_type_invariant(self);
        }
        &self.salts
    }

    /// The labels of the stock solutions, in order.
    pub fn stock_solutions(&self) -> (solutions: &Vec<String>)
        ensures
            string_views(solutions@) == self@.stock_solutions,
            self@.well_formed(),
    {
        proof {
            use_type_invariant(self);
        }
        &self.stock_solutions
    }

    /// The enabled salts, in order: what an optimization works on.
    pub fn enabled_salts(&self) -> (enabled: Vec<Salt>)
        ensures
            salt_views(enabled@) == self@.enabled_salts(),
    {
        let ghost views = salt_views(self.salts@);
        let mut enabled: Vec<Salt> = Vec::new();
        let mut i: usize = 0;
        proof {
            reveal(Seq::filter);
        }
        while i < self.salts.len()
            invariant
                i <= self.salts@.len(),
                views == salt_views(self.salts@),
                salt_views(enabled@) == views.take(i as int).filter(is_enabled()),
            decreases self.salts@.len() - i,
        {
            proof {
                assert(views.take(i + 1) =~= views.take(i as int).push(views[i as int]));
                filter_of_push(views.take(i as int), views[i as int], is_enabled());
            }
            if self.salts[i].enabled {
                enabled.push(self.salts[i].clone());
            }
            i += 1;
        }
        assert(views.take(self.salts@.len() as int) =~= views);
        enabled
    }

    /// Switches the salt at `index` on or off. An index past the last salt
    /// changes nothing.
    pub fn toggle_enabled(&mut self, index: usize) -> (done: bool)
        ensures
            done == (index < old(self)@.salts.len()),
            final(self)@ == old(self)@.toggled(index as int),
    {
        if index < self.salts.len() {
            let mut salts: Vec<Salt> = self.take_salts();
            let enabled: bool = salts[index].enabled;
            salts[index].enabled = !enabled;
            assert(salt_views(salts@) =~= old(self)@.toggled(index as int).salts);
            self.salts = salts;
            true
        } else {
            false
        }
    }

    /// Assigns the salt at `index` to the stock solution `label`, or to none
    /// if `label` is [`UNASSIGNED`]. An index past the last salt, or a label
    /// that no stock solution has, changes nothing.
    pub fn assign(&mut self, index: usize, label: &str) -> (done: bool)
        ensures
            done == old(self)@.can_assign(index as int, label@),
            final(self)@ == old(self)@.assigned(index as int, label@),
    {
        let target: String = label.to_owned();
        if index < self.salts.len() && (is_unassigned(&target) || holds_label(
            self.stock_solutions.as_slice(),
            &target,
        )) {
            let mut salts: Vec<Salt> = self.take_salts();
            salts[index].stock_solution = target;
            assert(salt_views(salts@) =~= old(self)@.assigned(index as int, label@).salts);
            self.salts = salts;
            true
        } else {
            false
        }
    }

    /// Removes the salt at `index`, if the user added it. A built-in salt
    /// stays, and an index past the last salt changes nothing.
    pub fn remove(&mut self, index: usize) -> (done: bool)
        ensures
            done == old(self)@.can_remove(index as int),
            final(self)@ == old(self)@.removed(index as int),
    {
        if index < self.salts.len() && self.salts[index].is_custom {
            let mut salts: Vec<Salt> = self.take_salts();
            salts.remove(index);
            assert(salt_views(salts@) =~= old(self)@.removed(index as int).salts);
            self.salts = salts;
            true
        } else {
            false
        }
    }

    /// Adds the salt that the user described, and returns a copy of it. A
    /// name that holds nothing but white space is refused. A mass fraction
    /// that cannot be read counts as zero.
    pub fn add_custom(&mut self, name: String, formula: String, composition: Composition) -> (added:
        Result<Salt, ValidationError>)
        ensures
            added is Err <==> is_blank(name@),
            added is Err ==> final(self)@ == old(self)@,
            added matches Ok(salt) ==> salt@ == described_salt(name@, formula@, composition)
                && final(self)@ == old(self)@.with_salt(salt@),
    {
        if blank(name.as_str()) {
            return Err(ValidationError::EmptyName);
        }
        let salt = Salt::custom(
            name,
            formula,
            parse_fraction(composition.nh4),
            parse_fraction(composition.no3),
            parse_fraction(composition.p),
            parse_fraction(composition.k),
            parse_fraction(composition.ca),
            parse_fraction(composition.mg),
            parse_fraction(composition.s),
            parse_fraction(composition.cl),
            parse_fraction(composition.fe),
            parse_fraction(composition.mn),
            parse_fraction(composition.zn),
            parse_fraction(composition.cu),
            parse_fraction(composition.b),
            parse_fraction(composition.mo),
        );
        let copy = salt.clone();
        let mut salts: Vec<Salt> = self.take_salts();
        salts.push(salt);
        assert(salt_views(salts@) =~= old(self)@.salts.push(salt@));
        self.salts = salts;
        Ok(copy)
    }

    /// Adds a stock solution, labelled with the first letter that is not in
    /// use, and returns the label. With ten stock solutions there is no room
    /// for another, and nothing changes.
    pub fn add_solution(&mut self) -> (label: Option<String>)
        ensures
            label is Some <==> old(self)@.can_add_solution(),
            label matches Some(letter) ==> letter@ == next_solution_letter(
                old(self)@.stock_solutions,
            ) && !old(self)@.stock_solutions.contains(letter@),
            final(self)@ == old(self)@.with_solution(),
    {
        proof {
            use_type_invariant(&*self);
        }
        if self.stock_solutions.len() >= MAX_SOLUTIONS {
            return None;
        }
        let letter: String = get_next_solution_letter(self.stock_solutions.as_slice());
        let mut solutions: Vec<String> = copy_labels(self.stock_solutions.as_slice());
        solutions.push(letter.clone());
        proof {
            adding_a_solution_keeps_the_rules(self@);
            assert(string_views(solutions@) =~= self@.with_solution().stock_solutions);
        }
        self.stock_solutions = solutions;
        Some(letter)
    }

    /// Removes the stock solution `label`. Its salts stay in the catalog and
    /// become unassigned. Nothing changes if no stock solution has that
    /// label, or if only two are left.
    pub fn remove_solution(&mut self, label: &str) -> (done: bool)
        ensures
            done == old(self)@.can_remove_solution(label@),
            final(self)@ == old(self)@.without_solution(label@),
    {
        proof {
            use_type_invariant(&*self);
        }
        let ghost before = self@;
        let target: String = label.to_owned();
        if self.stock_solutions.len() <= MIN_SOLUTIONS {
            return false;
        }
        let position: usize = match position_of(self.stock_solutions.as_slice(), &target) {
            Some(at) => at,
            None => {
                return false;
            },
        };
        proof {
            assert(before.stock_solutions[position as int] == label@);
            removing_a_solution_keeps_the_rules(before, label@);
        }
        let mut salts: Vec<Salt> = self.take_salts();
        release(&mut salts, &target);
        assert(salt_views(salts@) =~= before.without_solution(label@).salts);
        self.salts = salts;
        let mut solutions: Vec<String> = copy_labels(self.stock_solutions.as_slice());
        solutions.remove(position);
        assert(string_views(solutions@) =~= before.without_solution(label@).stock_solutions);
        self.stock_solutions = solutions;
        true
    }
}

/// Switching a salt on or off twice leaves the catalog as it was.
pub proof fn toggling_twice_restores(catalog: CatalogView, index: int)
    ensures
        catalog.toggled(index).toggled(index) == catalog,
{
    assert(catalog.toggled(index).toggled(index).salts =~= catalog.salts);
}

/// Assigning a salt to the stock solution it is already in changes nothing,
/// and so does assigning it a second time.
pub proof fn assigning_again_changes_nothing(catalog: CatalogView, index: int, label: Seq<char>)
    ensures
        0 <= index < catalog.salts.len() && catalog.salts[index].stock_solution == label
            ==> catalog.assigned(index, label) == catalog,
        catalog.assigned(index, label).assigned(index, label) == catalog.assigned(index, label),
{
    let once = catalog.assigned(index, label);
    assert(once.assigned(index, label).salts =~= once.salts);
    if 0 <= index < catalog.salts.len() && catalog.salts[index].stock_solution == label {
        assert(once.salts =~= catalog.salts);
    }
}

/// Adding a stock solution keeps the rules, and its label is new.
pub proof fn adding_a_solution_keeps_the_rules(catalog: CatalogView)
    requires
        catalog.well_formed(),
    ensures
        catalog.with_solution().well_formed(),
        catalog.can_add_solution() ==> !catalog.stock_solutions.contains(
            next_solution_letter(catalog.stock_solutions),
        ),
{
    if catalog.can_add_solution() {
        let before = catalog.stock_solutions;
        let after = catalog.with_solution().stock_solutions;
        next_letter_is_new(before);
        assert(after.no_duplicates());
        assert forall|i: int| 0 <= i < catalog.salts.len() implies catalog.with_solution().accepts(
            (#[trigger] catalog.salts[i]).stock_solution,
        ) by {
            let kept = catalog.salts[i].stock_solution;
            if before.contains(kept) {
                let at = choose|at: int| 0 <= at < before.len() && before[at] == kept;
                assert(after[at] == kept);
            }
        }
    }
}

/// Removing a stock solution keeps the rules and deletes no salt: as many
/// salts are left, each with its name, and those that were kept in it are
/// unassigned. The label is gone, and it is the only one that is.
pub proof fn removing_a_solution_keeps_the_rules(catalog: CatalogView, label: Seq<char>)
    requires
        catalog.well_formed(),
    ensures
        catalog.without_solution(label).well_formed(),
        (CatalogView { salts: catalog.without_solution(label).salts, ..catalog }).well_formed(),
        catalog.without_solution(label).salts.len() == catalog.salts.len(),
        forall|i: int|
            0 <= i < catalog.salts.len() ==> (#[trigger] catalog.without_solution(
                label,
            ).salts[i]).name == catalog.salts[i].name,
        catalog.can_remove_solution(label) ==> {
            &&& forall|i: int|
                0 <= i < catalog.salts.len() && catalog.salts[i].stock_solution == label ==> (
                #[trigger] catalog.without_solution(label).salts[i]).stock_solution == UNASSIGNED@
            &&& !catalog.without_solution(label).stock_solutions.contains(label)
            &&& catalog.without_solution(label).stock_solutions.len()
                == catalog.stock_solutions.len() - 1
            &&& forall|i: int|
                0 <= i < catalog.stock_solutions.len() ==> #[trigger] catalog.stock_solutions[i]
                    == label || catalog.without_solution(label).stock_solutions.contains(
                    catalog.stock_solutions[i],
                )
        },
{
    if catalog.can_remove_solution(label) {
        let before = catalog.stock_solutions;
        let at = before.index_of(label);
        let after = catalog.without_solution(label).stock_solutions;
        let salts = catalog.without_solution(label).salts;
        assert forall|i: int, j: int|
            0 <= i < after.len() && 0 <= j < after.len() && i != j implies after[i] != after[j] by {
            let from = if i < at { i } else { i + 1 };
            let to = if j < at { j } else { j + 1 };
            assert(before[from] != before[to]);
        }
        assert forall|i: int| 0 <= i < before.len() implies #[trigger] before[i] == label
            || after.contains(before[i]) by {
            if i < at {
                assert(after[i] == before[i]);
            } else if i > at {
                assert(after[i - 1] == before[i]);
            }
        }
        if after.contains(label) {
            let i = choose|i: int| 0 <= i < after.len() && after[i] == label;
            let from = if i < at { i } else { i + 1 };
            assert(before[from] == label);
        }
        assert forall|i: int| 0 <= i < salts.len() implies catalog.without_solution(label).accepts(
            (#[trigger] salts[i]).stock_solution,
        ) && catalog.accepts(salts[i].stock_solution) by {
            let kept = salts[i].stock_solution;
            if kept != UNASSIGNED@ {
                let place = choose|place: int| 0 <= place < before.len() && before[place] == kept;
                assert(before[place] == label || after.contains(before[place]));
            }
        }
    }
}

} // verus!
