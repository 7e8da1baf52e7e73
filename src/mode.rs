//! The saturation character: a closed set of waveshaper variants.

use vstd::prelude::*;

verus! {

/// Number of waveshaper variants.
pub const MODE_COUNT: usize = 2;

/// Which waveshaper the signal chain runs.
#[derive(Clone, Copy, Debug, PartialEq, Eq, Structural)]
pub enum Mode {
    Tube,
    Tape,
}

/// Position of a variant in the list of variants.
pub open spec fn index_of(m: Mode) -> nat {
    match m {
        Mode::Tube => 0,
        Mode::Tape => 1,
    }
}

/// The variant at a position; any position past the end falls back to the first variant.
pub open spec fn mode_at(i: nat) -> Mode {
    if i == 1 {
        Mode::Tape
    } else {
        Mode::Tube
    }
}

impl Mode {
    /// Position of this variant in `variants()`.
    pub fn to_index(self) -> (r: usize)
        ensures
            r == index_of(self),
            r < MODE_COUNT,
    {
        match self {
            Mode::Tube => 0,
            Mode::Tape => 1,
        }
    }

    /// The variant at `index`; an index out of range yields `Mode::Tube`.
    pub fn from_index(index: usize) -> (r: Mode)
        ensures
            r == mode_at(index as nat),
            index >= MODE_COUNT ==> r == Mode::Tube,
    {
        match index {
            0 => Mode::Tube,
            1 => Mode::Tape,
            _ => Mode::Tube,
        }
    }

    /// Display names of the variants, in index order.
    pub fn variants() -> (r: &'static [&'static str])
        ensures
            r@ == seq!["Tube", "Tape"],
    {
        &["Tube", "Tape"]
    }

    /// Stable identifiers of the variants, in index order, for saving state.
    pub fn ids() -> (r: Option<&'static [&'static str]>)
        ensures
            r matches Some(ids) && ids@ == seq!["tube", "tape"],
    {
        Some(&["tube", "tape"])
    }
}

/// Every variant survives the trip through its index, every index in range
/// names a distinct variant, and every index out of range names the first one.
pub proof fn lemma_index_round_trip(m: Mode, i: nat)
    ensures
        index_of(m) < MODE_COUNT,
        mode_at(index_of(m)) == m,
        i < MODE_COUNT ==> index_of(mode_at(i)) == i,
        i >= MODE_COUNT ==> mode_at(i) == Mode::Tube,
{
}

} // verus!
