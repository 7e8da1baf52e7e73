//! Signal levels carried as IEEE-754 single-precision bit patterns.
//!
//! The audio path works in `f32`; the metering logic only compares and takes
//! magnitudes, so it works on `f32::to_bits` patterns. Clearing the sign bit is
//! the absolute value, and for non-negative values other than NaN the order of
//! the patterns as unsigned integers is the order of the numbers they encode.

use vstd::prelude::*;

verus! {

/// The sign bit of a pattern.
pub const SIGN_BIT: u32 = 0x8000_0000;

/// The pattern of positive infinity; a larger magnitude is a NaN.
pub const INFINITY: u32 = 0x7F80_0000;

/// Magnitude of a pattern: the pattern with its sign bit cleared.
pub open spec fn magnitude_of(bits: u32) -> u32 {
    if bits >= SIGN_BIT {
        (bits - SIGN_BIT) as u32
    } else {
        bits
    }
}

/// The pattern encodes a NaN, of either sign.
pub open spec fn is_nan_bits(bits: u32) -> bool {
    magnitude_of(bits) > INFINITY
}

/// The pattern encodes a level: a non-negative number that is not NaN
/// (positive zero up to positive infinity).
pub open spec fn is_level(bits: u32) -> bool {
    bits <= INFINITY
}

/// The running block peak after one more sample: the larger of the two
/// magnitudes. A NaN sample leaves the peak as it was, as `f32::max` does.
pub open spec fn peak_step(peak: u32, sample: u32) -> u32 {
    if is_nan_bits(sample) || magnitude_of(sample) <= peak {
        peak
    } else {
        magnitude_of(sample)
    }
}

/// The peak of a whole block, tracked from zero one sample at a time.
pub open spec fn peak_of(samples: Seq<u32>) -> u32
    decreases samples.len(),
{
    if samples.len() == 0 {
        0
    } else {
        peak_step(peak_of(samples.drop_last()), samples.last())
    }
}

/// Magnitude (absolute value) of a sample pattern.
pub fn magnitude(bits: u32) -> (r: u32)
    ensures
        r == magnitude_of(bits),
{
    if bits >= SIGN_BIT {
        bits - SIGN_BIT
    } else {
        bits
    }
}

/// The largest magnitude seen in the current block, as a level.
pub struct BlockPeak {
    bits: u32,
}

impl View for BlockPeak {
    type V = u32;

    closed spec fn view(&self) -> u32 {
        self.bits
    }
}

impl BlockPeak {
    #[verifier::type_invariant]
    spec fn inv(&self) -> bool {
        is_level(self.bits)
    }

    /// A tracker at the start of a block: peak zero.
    pub fn new() -> (r: BlockPeak)
        ensures
            r@ == 0,
    {
        BlockPeak { bits: 0 }
    }

    /// Starts a new block: the peak goes back to zero.
    pub fn reset(&mut self)
        ensures
            final(self)@ == 0,
    {
        self.bits = 0;
    }

    /// Takes one processed sample into the running maximum of magnitudes.
    pub fn observe(&mut self, sample: u32)
        ensures
            final(self)@ == peak_step(old(self)@, sample),
    {
        proof {
            use_type_invariant(&*self);
        }
        let m = magnitude(sample);
        if m <= INFINITY && m > self.bits {
            self.bits = m;
        }
    }

    /// The peak so far; always a level.
    pub fn value(&self) -> (r: u32)
        ensures
            r == self@,
            is_level(r),
    {
        proof {
            use_type_invariant(self);
        }
        self.bits
    }
}

/// Tracking a block from zero yields a level that is at least the magnitude of
/// every sample that is not NaN, and is either zero or the magnitude of one of
/// them.
pub proof fn lemma_peak_is_max(samples: Seq<u32>)
    ensures
        is_level(peak_of(samples)),
        forall|i: int|
            0 <= i < samples.len() && !is_nan_bits(#[trigger] samples[i]) ==> magnitude_of(
                samples[i],
            ) <= peak_of(samples),
        peak_of(samples) == 0 || exists|i: int|
            0 <= i < samples.len() && !is_nan_bits(#[trigger] samples[i]) && peak_of(samples)
                == magnitude_of(samples[i]),
    decreases samples.len(),
{
    if samples.len() > 0 {
        let init = samples.drop_last();
        lemma_peak_is_max(init);
        assert forall|i: int|
            0 <= i < samples.len() && !is_nan_bits(#[trigger] samples[i]) implies magnitude_of(
                samples[i],
            ) <= peak_of(samples) by {
            if i < samples.len() - 1 {
                assert(samples[i] == init[i]);
            }
        }
        if peak_of(samples) != 0 {
            if peak_of(samples) == peak_of(init) {
                let j = choose|j: int|
                    0 <= j < init.len() && !is_nan_bits(#[trigger] init[j]) && peak_of(init)
                        == magnitude_of(init[j]);
                assert(samples[j] == init[j]);
            } else {
                assert(samples[samples.len() - 1] == samples.last());
            }
        }
    }
}

} // verus!
