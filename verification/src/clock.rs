//! Counting the ticks of a clock that wraps around.
//!
//! The core counts ticks without end, while a transport may number them in
//! sixteen bits and start again at zero every 65536 ticks. A [`TickCounter`]
//! follows such a clock and gives each of its ticks its place in the endless
//! count.

use vstd::prelude::*;
use crate::entity::Tick;

verus! {

/// The number of ticks after which a sixteen-bit clock starts again at zero.
pub const TICKS_PER_WRAP: u64 = 65536;

/// The largest number of wraps whose ticks still fit in a [`Tick`].
pub const MAX_WRAPS: u64 = 0xffff_ffff_ffff;

/// The place in the endless count of the reading `raw` after `wraps` wraps.
pub open spec fn counted(wraps: u64, raw: u16) -> int {
    wraps * TICKS_PER_WRAP + raw
}

/// A reading lower than the last one means that the clock has wrapped.
pub open spec fn wraps_after(wraps: u64, last: u16, raw: u16) -> u64 {
    if raw < last && wraps < MAX_WRAPS {
        (wraps + 1) as u64
    } else {
        wraps
    }
}

/// Follows a sixteen-bit clock: how often it has wrapped, and its last reading.
pub struct TickCounter {
    wraps: u64,
    last: u16,
}

impl TickCounter {
    /// How often the clock has wrapped so far.
    pub closed spec fn wraps(&self) -> u64 {
        self.wraps
    }

    /// The last reading of the clock.
    pub closed spec fn last(&self) -> u16 {
        self.last
    }

    /// The count of wraps is small enough for every tick to fit.
    pub open spec fn wf(&self) -> bool {
        self.wraps() <= MAX_WRAPS
    }

    /// A counter for a clock that has not wrapped and reads zero.
    pub fn new() -> (counter: TickCounter)
        ensures
            counter.wf(),
            counter.wraps() == 0,
            counter.last() == 0,
    {
        TickCounter { wraps: 0, last: 0 }
    }

    /// Takes the reading `raw` of the clock and returns its tick in the endless
    /// count.
    ///
    /// A reading lower than the last one counts as a wrap. Readings must
    /// therefore be taken in the order of the clock and less than 65536 ticks
    /// apart. The returned tick is then never before the tick of the last
    /// reading, and after it unless the reading is the same.
    pub fn observe(&mut self, raw: u16) -> (tick: Tick)
        requires
            old(self).wf(),
        ensures
            final(self).wf(),
            final(self).wraps() == wraps_after(old(self).wraps(), old(self).last(), raw),
            final(self).last() == raw,
            tick == counted(final(self).wraps(), raw),
            old(self).wraps() < MAX_WRAPS ==> tick >= counted(old(self).wraps(), old(self).last()),
            old(self).wraps() < MAX_WRAPS && raw != old(self).last() ==> tick > counted(
                old(self).wraps(),
                old(self).last(),
            ),
    {
        let before: u64 = self.wraps;
        if raw < self.last && self.wraps < MAX_WRAPS {
            self.wraps = self.wraps + 1;
        }
        self.last = raw;
        let wraps: u64 = self.wraps;
        assert(wraps * TICKS_PER_WRAP <= MAX_WRAPS * TICKS_PER_WRAP) by (nonlinear_arith)
            requires
                wraps <= MAX_WRAPS,
        ;
        assert(wraps == before + 1 ==> wraps * TICKS_PER_WRAP == before * TICKS_PER_WRAP
            + TICKS_PER_WRAP) by (nonlinear_arith);
        wraps * TICKS_PER_WRAP + raw as u64
    }
}

} // verus!
