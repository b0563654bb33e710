//! The labels of stock solutions: the letters A to J, given out in order.
use vstd::prelude::*;
use crate::text::string_views;

verus! {

/// The letters that label stock solutions, in the order in which they are
/// given out.
pub open spec fn solution_letters() -> Seq<Seq<char>> {
    seq!["A"@, "B"@, "C"@, "D"@, "E"@, "F"@, "G"@, "H"@, "I"@, "J"@]
}

/// The first letter from the `from`-th on that `solutions` does not hold, and
/// "X" if it holds them all.
pub open spec fn first_unused_letter(solutions: Seq<Seq<char>>, from: int) -> Seq<char>
    decreases 10 - from,
{
    if from < 0 || from >= 10 {
        "X"@
    } else if !solutions.contains(solution_letters()[from]) {
        solution_letters()[from]
    } else {
        first_unused_letter(solutions, from + 1)
    }
}

/// The label of the next stock solution: the first letter that `solutions`
/// does not hold.
pub open spec fn next_solution_letter(solutions: Seq<Seq<char>>) -> Seq<char> {
    first_unused_letter(solutions, 0)
}

/// Where a list of labels holds `label`, if it does.
pub(crate) fn position_of(solutions: &[String], label: &String) -> (position: Option<usize>)
    ensures
        position is Some <==> string_views(solutions@).contains(label@),
        position matches Some(at) ==> at < solutions@.len() && solutions@[at as int]@ == label@,
{
    let mut i: usize = 0;
    while i < solutions.len()
        invariant
            i <= solutions@.len(),
            forall|j: int| 0 <= j < i ==> string_views(solutions@)[j] != label@,
        decreases solutions@.len() - i,
    {
        if solutions[i] == *label {
            assert(string_views(solutions@)[i as int] == label@);
            return Some(i);
        }
        i += 1;
    }
    None
}

/// Whether a list of labels holds `label`.
pub(crate) fn holds_label(solutions: &[String], label: &String) -> (r: bool)
    ensures
        r == string_views(solutions@).contains(label@),
{
    position_of(solutions, label).is_some()
}

/// A copy of a list of labels.
pub(crate) fn copy_labels(solutions: &[String]) -> (copy: Vec<String>)
    ensures
        string_views(copy@) == string_views(solutions@),
{
    let mut copy: Vec<String> = Vec::new();
    let mut i: usize = 0;
    while i < solutions.len()
        invariant
            i <= solutions@.len(),
            copy@.len() == i,
            forall|j: int| 0 <= j < i ==> copy@[j]@ == solutions@[j]@,
        decreases solutions@.len() - i,
    {
        copy.push(solutions[i].clone());
        i += 1;
    }
    copy
}

fn letter_at(position: usize) -> (letter: &'static str)
    requires
        position < 10,
    ensures
        letter@ == solution_letters()[position as int],
{
    match position {
        0 => "A",
        1 => "B",
        2 => "C",
        3 => "D",
        4 => "E",
        5 => "F",
        6 => "G",
        7 => "H",
        8 => "I",
        _ => "J",
    }
}

/// The label for the next stock solution: the first of the letters A to J
/// that `solutions` does not hold, and "X" if it holds them all.
pub fn get_next_solution_letter(solutions: &[String]) -> (letter: String)
    ensures
        letter@ == next_solution_letter(string_views(solutions@)),
{
    let mut position: usize = 0;
    while position < 10
        invariant
            position <= 10,
            next_solution_letter(string_views(solutions@)) == first_unused_letter(
                string_views(solutions@),
                position as int,
            ),
        decreases 10 - position,
    {
        let letter: String = letter_at(position).to_owned();
        if !holds_label(solutions, &letter) {
            return letter;
        }
        position += 1;
    }
    "X".to_owned()
}

/// The letters are ten different labels.
proof fn letters_differ()
    ensures
        solution_letters().len() == 10,
        solution_letters().no_duplicates(),
        forall|k: int| 0 <= k < 10 ==> (#[trigger] solution_letters()[k]).len() == 1,
{
    reveal_strlit("A");
    reveal_strlit("B");
    reveal_strlit("C");
    reveal_strlit("D");
    reveal_strlit("E");
    reveal_strlit("F");
    reveal_strlit("G");
    reveal_strlit("H");
    reveal_strlit("I");
    reveal_strlit("J");
    let letters = solution_letters();
    assert forall|i: int, j: int| 0 <= i < 10 && 0 <= j < 10 && i != j implies letters[i]
        != letters[j] by {
        assert(letters[i][0] != letters[j][0]);
    }
}

/// Fewer places than labels: if every one of `count` different labels is
/// held by `solutions`, then `solutions` has at least `count` entries.
proof fn holds_at_least(solutions: Seq<Seq<char>>, labels: Seq<Seq<char>>, count: int)
    requires
        0 <= count <= labels.len(),
        labels.no_duplicates(),
        forall|k: int| 0 <= k < count ==> solutions.contains(#[trigger] labels[k]),
    ensures
        solutions.len() >= count,
    decreases count,
{
    if count > 0 {
        let last = labels[count - 1];
        let at = choose|i: int| 0 <= i < solutions.len() && solutions[i] == last;
        let rest = solutions.remove(at);
        assert forall|k: int| 0 <= k < count - 1 implies rest.contains(#[trigger] labels[k]) by {
            let i = choose|i: int| 0 <= i < solutions.len() && solutions[i] == labels[k];
            assert(labels[k] != last);
            if i < at {
                assert(rest[i] == labels[k]);
            } else {
                assert(rest[i - 1] == labels[k]);
            }
        }
        holds_at_least(rest, labels, count - 1);
    }
}

/// What the next letter is: the first letter not in use, if there is one.
proof fn first_unused_letter_is_first(solutions: Seq<Seq<char>>, from: int)
    requires
        0 <= from <= 10,
    ensures
        (forall|k: int| from <= k < 10 ==> solutions.contains(#[trigger] solution_letters()[k]))
            ==> first_unused_letter(solutions, from) == "X"@,
        (exists|k: int| from <= k < 10 && !solutions.contains(#[trigger] solution_letters()[k]))
            ==> !solutions.contains(first_unused_letter(solutions, from)) && exists|k: int|
            from <= k < 10 && first_unused_letter(solutions, from) == #[trigger] solution_letters()[k],
    decreases 10 - from,
{
    if from < 10 {
        first_unused_letter_is_first(solutions, from + 1);
        if solutions.contains(solution_letters()[from]) {
            if exists|k: int| from <= k < 10 && !solutions.contains(#[trigger] solution_letters()[k]) {
                let k = choose|k: int|
                    from <= k < 10 && !solutions.contains(#[trigger] solution_letters()[k]);
                assert(from + 1 <= k);
            }
        }
    }
}

/// While there is room for another stock solution, its label is a letter
/// that no stock solution has yet.
pub proof fn next_letter_is_new(solutions: Seq<Seq<char>>)
    requires
        solutions.len() < 10,
    ensures
        !solutions.contains(next_solution_letter(solutions)),
        solution_letters().contains(next_solution_letter(solutions)),
        next_solution_letter(solutions).len() == 1,
{
    letters_differ();
    if forall|k: int| 0 <= k < 10 ==> solutions.contains(#[trigger] solution_letters()[k]) {
        holds_at_least(solutions, solution_letters(), 10);
    }
    first_unused_letter_is_first(solutions, 0);
}

} // verus!
