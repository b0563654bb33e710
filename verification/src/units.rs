//! Fixed-point quantities.
//!
//! Every decimal number of the domain is kept as an integer count of a small
//! unit, so that all arithmetic on it is exact:
//!
//! * a mass fraction counts millionths of a gram per gram of salt;
//! * a target bound and a dosage count millionths of their unit (g/L for
//!   macronutrients and dosages, mg/L for micronutrients);
//! * the ammonium ratio counts millionths;
//! * a nutrient level, being a sum of dosage-times-fraction products, counts
//!   millionths of millionths (twelve decimals).
use vstd::prelude::*;

verus! {

/// A six-decimal quantity written with twelve decimals: the same value at the
/// scale of the nutrient levels.
pub open spec fn widen(value: int) -> int {
    value * 1_000_000
}

/// A twelve-decimal concentration given in g/L, expressed in mg/L.
pub open spec fn milligrams_per_litre(grams: int) -> int {
    grams * 1_000
}

/// The bound, in g/L at twelve decimals, that stands for a macronutrient
/// bound of `bound` (g/L at six decimals).
pub open spec fn macro_bound(bound: int) -> int {
    widen(bound)
}

/// The bound, in g/L at twelve decimals, that stands for a micronutrient
/// bound of `bound` (mg/L at six decimals): a thousandth of the bound's
/// value, which at twelve decimals is the count `bound * 1_000_000 / 1_000`.
pub open spec fn micro_bound(bound: int) -> int {
    bound * 1_000
}

/// The chloride ceiling, in g/L at twelve decimals, for a maximum of
/// `max_cl` (g/L at six decimals): 80% of it when fine-tuning, else all of it.
pub open spec fn chloride_ceiling(max_cl: int, fine_tuning: bool) -> int {
    if fine_tuning {
        max_cl * 800_000
    } else {
        widen(max_cl)
    }
}

/// The internal bound of a micronutrient is a thousandth of the bound given
/// in mg/L, and a level that sits exactly on it reads, back in mg/L, as the
/// bound that was given: nothing is lost in either direction.
pub proof fn micronutrient_round_trip(bound: int)
    ensures
        1_000 * micro_bound(bound) == widen(bound),
        milligrams_per_litre(micro_bound(bound)) == widen(bound),
{
}

/// Fine-tuning lowers the chloride ceiling to exactly four fifths of the
/// maximum; without it the ceiling is the maximum itself.
pub proof fn fine_tuning_ceiling(max_cl: int)
    ensures
        100 * chloride_ceiling(max_cl, true) == 80 * widen(max_cl),
        chloride_ceiling(max_cl, false) == widen(max_cl),
{
}

/// Computes [`macro_bound`].
pub fn macro_bound_of(bound: i64) -> (r: i128)
    ensures
        r == macro_bound(bound as int),
{
    (bound as i128) * 1_000_000
}

/// Computes [`micro_bound`].
pub fn micro_bound_of(bound: i64) -> (r: i128)
    ensures
        r == micro_bound(bound as int),
        r * 1_000 == widen(bound as int),
{
    (bound as i128) * 1_000
}

/// Computes [`chloride_ceiling`].
pub fn chloride_ceiling_of(max_cl: i64, fine_tuning: bool) -> (r: i128)
    ensures
        r == chloride_ceiling(max_cl as int, fine_tuning),
{
    if fine_tuning {
        (max_cl as i128) * 800_000
    } else {
        (max_cl as i128) * 1_000_000
    }
}

/// Converts a level in g/L to mg/L, both at twelve decimals.
pub fn to_milligrams_per_litre(grams: u128) -> (r: u128)
    requires
        grams * 1_000 <= u128::MAX,
    ensures
        r == milligrams_per_litre(grams as int),
{
    grams * 1_000
}

} // verus!
