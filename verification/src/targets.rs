//! What a recipe is asked to reach: a range for each nutrient and the share
//! of ammonium in the total nitrogen.
use vstd::prelude::*;
use crate::decimal::{decimal, parse_decimal};
use crate::format::{decimal_text, written_number_reads_back};

verus! {

/// A closed range of concentrations, in millionths of the nutrient's unit
/// (g/L for macronutrients, mg/L for micronutrients). A range whose `min`
/// lies above its `max` is accepted; no recipe can meet it.
#[derive(Clone, Copy, Debug, PartialEq, Eq, Structural)]
pub struct Range {
    pub min: i64,
    pub max: i64,
}

/// The targets of one optimization.
#[derive(Clone, Copy, Debug, PartialEq, Eq, Structural)]
pub struct NutrientTargets {
    /// Total nitrogen, ammonium and nitrate together (g/L).
    pub n: Range,
    /// The share of ammonium in the total nitrogen, in millionths: between 0
    /// and 1_000_000.
    pub nh4_ratio: u32,
    pub k: Range,
    pub p: Range,
    pub ca: Range,
    pub mg: Range,
    pub s: Range,
    pub cl: Range,
    /// The micronutrients (mg/L).
    pub fe: Range,
    pub mn: Range,
    pub zn: Range,
    pub cu: Range,
    pub b: Range,
    pub mo: Range,
}

impl NutrientTargets {
    /// The targets a session starts from.
    pub open spec fn initial() -> NutrientTargets {
        NutrientTargets {
            n: Range { min: 40_000_000, max: 40_000_000 },
            nh4_ratio: 500_000,
            k: Range { min: 15_000_000, max: 25_000_000 },
            p: Range { min: 4_000_000, max: 8_000_000 },
            ca: Range { min: 10_000_000, max: 15_000_000 },
            mg: Range { min: 4_000_000, max: 5_000_000 },
            s: Range { min: 20_000_000, max: 25_000_000 },
            cl: Range { min: 0, max: 75_000_000 },
            fe: Range { min: 0, max: 5_000_000 },
            mn: Range { min: 0, max: 2_000_000 },
            zn: Range { min: 0, max: 500_000 },
            cu: Range { min: 0, max: 200_000 },
            b: Range { min: 0, max: 500_000 },
            mo: Range { min: 0, max: 100_000 },
        }
    }
}

impl Default for NutrientTargets {
    fn default() -> (targets: Self)
        ensures
            targets == NutrientTargets::initial(),
    {
        NutrientTargets {
            n: Range { min: 40_000_000, max: 40_000_000 },
            nh4_ratio: 500_000,
            k: Range { min: 15_000_000, max: 25_000_000 },
            p: Range { min: 4_000_000, max: 8_000_000 },
            ca: Range { min: 10_000_000, max: 15_000_000 },
            mg: Range { min: 4_000_000, max: 5_000_000 },
            s: Range { min: 20_000_000, max: 25_000_000 },
            cl: Range { min: 0, max: 75_000_000 },
            fe: Range { min: 0, max: 5_000_000 },
            mn: Range { min: 0, max: 2_000_000 },
            zn: Range { min: 0, max: 500_000 },
            cu: Range { min: 0, max: 200_000 },
            b: Range { min: 0, max: 500_000 },
            mo: Range { min: 0, max: 100_000 },
        }
    }
}

/// A bound after the user typed `text` into its field: the number typed, or
/// the bound as it was if `text` is no number.
pub open spec fn bound_after(current: i64, text: Seq<char>) -> i64 {
    match decimal(text) {
        Some(value) => value,
        None => current,
    }
}

/// Computes [`bound_after`].
pub fn edit_bound(current: i64, text: &str) -> (bound: i64)
    ensures
        bound == bound_after(current, text@),
{
    match parse_decimal(text) {
        Some(value) => value,
        None => current,
    }
}

/// Typing what a field shows changes nothing: a bound written out reads
/// back as the bound.
pub proof fn shown_bound_is_kept(current: i64, shown: i64)
    ensures
        bound_after(current, decimal_text(shown as int)) == shown,
{
    written_number_reads_back(shown as int);
}

/// The whole of the nitrogen as a percentage, in millionths of a percent.
pub const WHOLE: u32 = 100_000_000;

/// How the total nitrogen is split between ammonium and nitrate: two
/// percentages, in millionths of a percent, that add up to the whole.
#[derive(Clone, Copy, Debug, PartialEq, Eq, Structural)]
pub struct NitrogenSplit {
    pub nh4_percentage: u32,
    pub no3_percentage: u32,
}

/// The split after the user typed `text` as the percentage of one form: if
/// it is a number between 0 and 100, the pair of that percentage and what is
/// left for the other form.
pub open spec fn typed_share(text: Seq<char>) -> Option<(u32, u32)> {
    match decimal(text) {
        Some(value) => if 0 <= value <= WHOLE {
            Some((value as u32, (WHOLE - value) as u32))
        } else {
            None
        },
        None => None,
    }
}

fn read_share(text: &str) -> (shares: Option<(u32, u32)>)
    ensures
        shares == typed_share(text@),
{
    match parse_decimal(text) {
        Some(value) => {
            if 0 <= value && value <= WHOLE as i64 {
                Some((value as u32, WHOLE - value as u32))
            } else {
                None
            }
        },
        None => None,
    }
}

impl NitrogenSplit {
    /// The two percentages add up to the whole.
    pub open spec fn well_formed(self) -> bool {
        self.nh4_percentage + self.no3_percentage == WHOLE
    }

    /// Half ammonium, half nitrate.
    pub fn even() -> (split: Self)
        ensures
            split == (NitrogenSplit { nh4_percentage: 50_000_000, no3_percentage: 50_000_000 }),
            split.well_formed(),
    {
        NitrogenSplit { nh4_percentage: 50_000_000, no3_percentage: 50_000_000 }
    }

    /// Takes what the user typed as the ammonium percentage. A number
    /// between 0 and 100 becomes the ammonium share and leaves the rest to
    /// nitrate; anything else changes nothing.
    pub fn edit_nh4(&mut self, text: &str) -> (accepted: bool)
        ensures
            accepted == typed_share(text@) is Some,
            typed_share(text@) matches Some((typed, rest)) ==> *final(self) == (NitrogenSplit {
                nh4_percentage: typed,
                no3_percentage: rest,
            }) && final(self).well_formed(),
            typed_share(text@) is None ==> *final(self) == *old(self),
    {
        match read_share(text) {
            Some((typed, rest)) => {
                self.nh4_percentage = typed;
                self.no3_percentage = rest;
                true
            },
            None => false,
        }
    }

    /// Takes what the user typed as the nitrate percentage. A number between
    /// 0 and 100 becomes the nitrate share and leaves the rest to ammonium;
    /// anything else changes nothing.
    pub fn edit_no3(&mut self, text: &str) -> (accepted: bool)
        ensures
            accepted == typed_share(text@) is Some,
            typed_share(text@) matches Some((typed, rest)) ==> *final(self) == (NitrogenSplit {
                nh4_percentage: rest,
                no3_percentage: typed,
            }) && final(self).well_formed(),
            typed_share(text@) is None ==> *final(self) == *old(self),
    {
        match read_share(text) {
            Some((typed, rest)) => {
                self.no3_percentage = typed;
                self.nh4_percentage = rest;
                true
            },
            None => false,
        }
    }

    /// The ammonium share as a ratio in millionths: the percentage's
    /// hundredth, rounded down. Nothing is lost on a percentage of at most
    /// four decimals.
    pub fn nh4_ratio(&self) -> (ratio: u32)
        ensures
            ratio == self.nh4_percentage / 100,
            self.nh4_percentage % 100 == 0 ==> 100 * ratio == self.nh4_percentage,
            self.nh4_percentage <= WHOLE ==> ratio <= 1_000_000,
    {
        self.nh4_percentage / 100
    }
}

} // verus!
