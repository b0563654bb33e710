//! The compatibility check of a stock solution.
//!
//! Calcium and magnesium form insoluble phosphates, so a salt that brings
//! calcium or magnesium must not share a stock solution with one that brings
//! phosphorus. The check only warns; it stops nothing.
use vstd::prelude::*;
use crate::models::{Salt, SaltView, salt_views};
use crate::sequences::{filter_is_empty, filter_of_push};
use crate::text::string_views;

verus! {

/// A mass fraction must exceed this many millionths for the salt to count as
/// a source of the nutrient; less is a trace.
pub const TRACE_THRESHOLD: u32 = 10_000;

/// Whether a salt is enabled and kept in the stock solution `label`.
pub open spec fn in_solution(label: Seq<char>) -> spec_fn(SaltView) -> bool {
    |salt: SaltView| salt.stock_solution == label && salt.enabled
}

/// Whether a salt brings calcium or magnesium.
pub open spec fn brings_calcium_or_magnesium() -> spec_fn(SaltView) -> bool {
    |salt: SaltView| salt.ca > TRACE_THRESHOLD || salt.mg > TRACE_THRESHOLD
}

/// Whether a salt brings phosphorus.
pub open spec fn brings_phosphate() -> spec_fn(SaltView) -> bool {
    |salt: SaltView| salt.p > TRACE_THRESHOLD
}

/// The names of a sequence of salts, in order.
pub open spec fn names_of(salts: Seq<SaltView>) -> Seq<Seq<char>> {
    Seq::new(salts.len(), |i: int| salts[i].name)
}

/// The names of the calcium and magnesium salts in the stock solution
/// `label`, in the order of `salts`.
pub open spec fn calcium_magnesium_names(salts: Seq<SaltView>, label: Seq<char>) -> Seq<Seq<char>> {
    names_of(salts.filter(in_solution(label)).filter(brings_calcium_or_magnesium()))
}

/// The names of the phosphate salts in the stock solution `label`, in the
/// order of `salts`.
pub open spec fn phosphate_names(salts: Seq<SaltView>, label: Seq<char>) -> Seq<Seq<char>> {
    names_of(salts.filter(in_solution(label)).filter(brings_phosphate()))
}

/// The warning that the stock solution `label` calls for: both lists of
/// names where neither is empty, else nothing.
pub open spec fn incompatibility(salts: Seq<SaltView>, label: Seq<char>) -> Option<
    (Seq<Seq<char>>, Seq<Seq<char>>),
> {
    let calcium_magnesium = calcium_magnesium_names(salts, label);
    let phosphates = phosphate_names(salts, label);
    if calcium_magnesium.len() > 0 && phosphates.len() > 0 {
        Some((calcium_magnesium, phosphates))
    } else {
        None
    }
}

/// The view of a warning that may be absent.
pub open spec fn warning_view(warning: Option<(Vec<String>, Vec<String>)>) -> Option<
    (Seq<Seq<char>>, Seq<Seq<char>>),
> {
    match warning {
        None => None,
        Some((calcium_magnesium, phosphates)) => Some(
            (string_views(calcium_magnesium@), string_views(phosphates@)),
        ),
    }
}

/// Checks the stock solution `solution` for salts that must not be kept
/// together. Of the enabled salts assigned to it, those that bring calcium or
/// magnesium and those that bring phosphorus are named, if there are both.
pub fn check_incompatible_salts(salts: &[Salt], solution: &str) -> (warning: Option<
    (Vec<String>, Vec<String>),
>)
    ensures
        warning_view(warning) == incompatibility(salt_views(salts@), solution@),
{
    let ghost views = salt_views(salts@);
    let ghost member = in_solution(solution@);
    let label: String = solution.to_owned();
    let mut calcium_magnesium: Vec<String> = Vec::new();
    let mut phosphates: Vec<String> = Vec::new();
    let mut i: usize = 0;
    proof {
        reveal(Seq::filter);
        assert(string_views(calcium_magnesium@) =~= names_of(
            views.take(0).filter(member).filter(brings_calcium_or_magnesium()),
        ));
        assert(string_views(phosphates@) =~= names_of(
            views.take(0).filter(member).filter(brings_phosphate()),
        ));
    }
    while i < salts.len()
        invariant
            i <= salts@.len(),
            label@ == solution@,
            views == salt_views(salts@),
            member == in_solution(solution@),
            string_views(calcium_magnesium@) == names_of(
                views.take(i as int).filter(member).filter(brings_calcium_or_magnesium()),
            ),
            string_views(phosphates@) == names_of(
                views.take(i as int).filter(member).filter(brings_phosphate()),
            ),
        decreases salts@.len() - i,
    {
        let salt = &salts[i];
        let ghost members = views.take(i as int).filter(member);
        let ghost first = string_views(calcium_magnesium@);
        let ghost second = string_views(phosphates@);
        proof {
            assert(views.take(i + 1) =~= views.take(i as int).push(salt@));
            filter_of_push(views.take(i as int), salt@, member);
            filter_of_push(members, salt@, brings_calcium_or_magnesium());
            filter_of_push(members, salt@, brings_phosphate());
        }
        if salt.stock_solution == label && salt.enabled {
            if salt.ca > TRACE_THRESHOLD || salt.mg > TRACE_THRESHOLD {
                calcium_magnesium.push(salt.name.clone());
                assert(names_of(members.filter(brings_calcium_or_magnesium()).push(salt@))
                    =~= first.push(salt@.name));
            }
            if salt.p > TRACE_THRESHOLD {
                phosphates.push(salt.name.clone());
                assert(names_of(members.filter(brings_phosphate()).push(salt@)) =~= second.push(
                    salt@.name,
                ));
            }
        }
        i += 1;
    }
    assert(views.take(salts@.len() as int) =~= views);
    if calcium_magnesium.len() > 0 && phosphates.len() > 0 {
        Some((calcium_magnesium, phosphates))
    } else {
        None
    }
}

/// Whether the stock solution `label` holds an enabled salt of the given
/// kind.
pub open spec fn solution_holds(
    salts: Seq<SaltView>,
    label: Seq<char>,
    kind: spec_fn(SaltView) -> bool,
) -> bool {
    exists|i: int| 0 <= i < salts.len() && in_solution(label)(#[trigger] salts[i]) && kind(salts[i])
}

proof fn filtered_twice_is_empty(
    salts: Seq<SaltView>,
    label: Seq<char>,
    kind: spec_fn(SaltView) -> bool,
)
    ensures
        salts.filter(in_solution(label)).filter(kind).len() == 0 <==> !solution_holds(
            salts,
            label,
            kind,
        ),
{
    let member = in_solution(label);
    let members = salts.filter(member);
    filter_is_empty(members, kind);
    if solution_holds(salts, label, kind) {
        let i = choose|i: int| 0 <= i < salts.len() && member(#[trigger] salts[i]) && kind(salts[i]);
        salts.lemma_filter_contains(member, i);
        let j = choose|j: int| 0 <= j < members.len() && members[j] == salts[i];
        assert(kind(members[j]));
    }
    if members.filter(kind).len() > 0 {
        let j = choose|j: int| 0 <= j < members.len() && kind(#[trigger] members[j]);
        salts.lemma_filter_pred(member, j);
        salts.lemma_filter_contains_rev(member, members[j]);
        let i = choose|i: int| 0 <= i < salts.len() && salts[i] == members[j];
        assert(in_solution(label)(salts[i]) && kind(salts[i]));
    }
}

/// A stock solution is warned about exactly if it holds both kinds of salt:
/// there is no warning whenever it holds no enabled salt that brings calcium
/// or magnesium, or none that brings phosphorus, and otherwise the warning
/// names the salts of each kind, neither list empty.
pub proof fn warning_needs_both_kinds(salts: Seq<SaltView>, label: Seq<char>)
    ensures
        incompatibility(salts, label) is None <==> !solution_holds(
            salts,
            label,
            brings_calcium_or_magnesium(),
        ) || !solution_holds(salts, label, brings_phosphate()),
        incompatibility(salts, label) matches Some((calcium_magnesium, phosphates))
            ==> calcium_magnesium.len() > 0 && phosphates.len() > 0 && calcium_magnesium
            == calcium_magnesium_names(salts, label) && phosphates == phosphate_names(
            salts,
            label,
        ),
{
    filtered_twice_is_empty(salts, label, brings_calcium_or_magnesium());
    filtered_twice_is_empty(salts, label, brings_phosphate());
}

} // verus!
