//! The envelope peak meter: instant attack, multiplicative decay, and a
//! silence floor, committed once per block and published through one atomic cell.

use crate::level::{is_level, BlockPeak, INFINITY};
use std::sync::atomic::{AtomicU32, Ordering};
use vstd::prelude::*;

verus! {

/// Pattern of the linear gain 1e-5 (-100 dB): a committed level below it reads
/// as exact silence.
pub const SILENCE_FLOOR: u32 = 0x3727_C5AC;

/// One meter transition. `prev` is the committed level, `peak` the block's
/// peak, `decayed` the committed level times the decay factor.
/// Attack: a peak above the level replaces it. Decay: otherwise the decayed
/// level follows. A result below the silence floor becomes exactly zero.
pub open spec fn meter_step(prev: u32, peak: u32, decayed: u32) -> u32 {
    let next = if peak > prev {
        peak
    } else {
        decayed
    };
    if next < SILENCE_FLOOR {
        0
    } else {
        next
    }
}

/// The level that the audio thread last committed, as a level pattern.
pub struct EnvelopeMeter {
    level: u32,
}

impl View for EnvelopeMeter {
    type V = u32;

    closed spec fn view(&self) -> u32 {
        self.level
    }
}

impl EnvelopeMeter {
    #[verifier::type_invariant]
    spec fn inv(&self) -> bool {
        is_level(self.level)
    }

    /// A silent meter.
    pub fn new() -> (r: EnvelopeMeter)
        ensures
            r@ == 0,
    {
        EnvelopeMeter { level: 0 }
    }

    /// The committed level; never negative and never NaN.
    pub fn level(&self) -> (r: u32)
        ensures
            r == self@,
            is_level(r),
    {
        proof {
            use_type_invariant(self);
        }
        self.level
    }

    /// Commits one block: `peak` is the block's peak and `decayed` the current
    /// level multiplied by the decay factor, both as level patterns.
    pub fn commit(&mut self, peak: u32, decayed: u32)
        requires
            is_level(peak),
            is_level(decayed),
        ensures
            final(self)@ == meter_step(old(self)@, peak, decayed),
            is_level(final(self)@),
    {
        let next = if peak > self.level {
            peak
        } else {
            decayed
        };
        self.level = if next < SILENCE_FLOOR {
            0
        } else {
            next
        };
    }

    /// Ends a block. While a display is watching, the block's peak is committed
    /// once, with `decayed` as the decay candidate; otherwise the level is left
    /// as it was. Either way the tracker starts the next block from zero.
    pub fn end_block(&mut self, block: &mut BlockPeak, decayed: u32, observer_active: bool)
        requires
            is_level(decayed),
        ensures
            final(self)@ == if observer_active {
                meter_step(old(self)@, old(block)@, decayed)
            } else {
                old(self)@
            },
            final(block)@ == 0,
    {
        if observer_active {
            let peak = block.value();
            self.commit(peak, decayed);
        }
        block.reset();
    }
}

/// Every transition from a level, fed levels, lands on a level: zero exactly
/// when the chosen value is under the floor, and otherwise the block peak on
/// attack or the decayed level on decay.
pub proof fn lemma_meter_step(prev: u32, peak: u32, decayed: u32)
    requires
        is_level(prev),
        is_level(peak),
        is_level(decayed),
    ensures
        is_level(meter_step(prev, peak, decayed)),
        peak > prev && peak >= SILENCE_FLOOR ==> meter_step(prev, peak, decayed) == peak,
        peak <= prev && decayed >= SILENCE_FLOOR ==> meter_step(prev, peak, decayed) == decayed,
        meter_step(prev, peak, decayed) == 0 <==> (if peak > prev {
            peak
        } else {
            decayed
        }) < SILENCE_FLOOR,
{
}

/// The single cell through which the audio thread publishes the meter level and
/// a display thread reads it; no lock is ever taken.
pub struct MeterSlot {
    cell: AtomicU32,
}

impl MeterSlot {
    /// A slot that reads as silence.
    pub fn new() -> MeterSlot {
        MeterSlot { cell: AtomicU32::new(0) }
    }

    /// Publishes the meter's committed level.
    pub fn publish(&self, meter: &EnvelopeMeter) {
        let level = meter.level();
        self.cell.store(level, Ordering::Relaxed);
    }

    /// The level most recently published, as a level pattern. Only levels are
    /// ever stored; should the cell hold anything else it reads as silence.
    pub fn read(&self) -> (r: u32)
        ensures
            is_level(r),
    {
        let bits = self.cell.load(Ordering::Relaxed);
        if bits <= INFINITY {
            bits
        } else {
            0
        }
    }
}

} // verus!
