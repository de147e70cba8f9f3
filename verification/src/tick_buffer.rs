//! The input tick buffer: one intent per tick, in the order of the ticks.

use vstd::prelude::*;
use crate::entity::Tick;
use crate::intent::Intent;

verus! {

/// Why an intent was not recorded.
#[derive(Clone, Copy, Debug, PartialEq, Eq, Structural)]
pub enum RecordError {
    /// The newest recorded tick is this very tick: it has its intent already.
    AlreadyRecorded,
    /// A later tick has been recorded already: this tick lies in the past.
    PastTick,
}

/// Ticks grow strictly from each entry to the next.
pub open spec fn strictly_increasing(entries: Seq<(Tick, Intent)>) -> bool {
    forall|i: int, j: int| 0 <= i < j < entries.len() ==> entries[i].0 < entries[j].0
}

/// The newest tick that has an intent, if any has.
pub open spec fn latest_tick(entries: Seq<(Tick, Intent)>) -> Option<Tick> {
    if entries.len() == 0 {
        None
    } else {
        Some(entries.last().0)
    }
}

/// Whether an intent for `tick` may be recorded, and if not, why not.
pub open spec fn record_outcome(entries: Seq<(Tick, Intent)>, tick: Tick) -> Result<
    (),
    RecordError,
> {
    match latest_tick(entries) {
        None => Ok(()),
        Some(latest) => if latest < tick {
            Ok(())
        } else if latest == tick {
            Err(RecordError::AlreadyRecorded)
        } else {
            Err(RecordError::PastTick)
        },
    }
}

/// The intent recorded for `tick`, if there is one.
pub open spec fn recorded_at(entries: Seq<(Tick, Intent)>, tick: Tick) -> Option<Intent>
    decreases entries.len(),
{
    if entries.len() == 0 {
        None
    } else if entries.last().0 == tick {
        Some(entries.last().1)
    } else {
        recorded_at(entries.drop_last(), tick)
    }
}

/// How many entries in a row, counted from index `from`, are stale: their tick
/// lies before `horizon` and they are not the newest entry.
pub open spec fn stale_run(entries: Seq<(Tick, Intent)>, horizon: Tick, from: nat) -> nat
    decreases entries.len() - from,
{
    if from + 1 < entries.len() && entries[from as int].0 < horizon {
        1 + stale_run(entries, horizon, from + 1)
    } else {
        0
    }
}

/// The entries that stay when everything before `horizon` is forgotten: the
/// stale entries at the old end are dropped. The newest entry always stays, so
/// that the buffer keeps refusing its tick and the ticks before it.
pub open spec fn retained(entries: Seq<(Tick, Intent)>, horizon: Tick) -> Seq<(Tick, Intent)> {
    entries.skip(stale_run(entries, horizon, 0) as int)
}

/// A stale run ends before the newest entry, and holds only ticks before the
/// horizon.
pub proof fn lemma_stale_run(entries: Seq<(Tick, Intent)>, horizon: Tick, from: nat)
    ensures
        from < entries.len() ==> from + stale_run(entries, horizon, from) < entries.len(),
        from >= entries.len() ==> stale_run(entries, horizon, from) == 0,
        forall|j: int|
            from <= j < from + stale_run(entries, horizon, from) ==> (#[trigger] entries[j]).0
                < horizon,
    decreases entries.len() - from,
{
    if from + 1 < entries.len() && entries[from as int].0 < horizon {
        lemma_stale_run(entries, horizon, from + 1);
    }
}

/// The intents of the ticks so far, each stored under its tick.
pub struct InputTickBuffer {
    entries: Vec<(Tick, Intent)>,
}

impl View for InputTickBuffer {
    type V = Seq<(Tick, Intent)>;

    /// The recorded `(tick, intent)` pairs, oldest first.
    closed spec fn view(&self) -> Seq<(Tick, Intent)> {
        self.entries@
    }
}

impl InputTickBuffer {
    /// No tick occurs twice and no tick follows a later one.
    pub open spec fn wf(&self) -> bool {
        strictly_increasing(self@)
    }

    /// A buffer with nothing recorded.
    pub fn new() -> (buffer: InputTickBuffer)
        ensures
            buffer.wf(),
            buffer@ == Seq::<(Tick, Intent)>::empty(),
    {
        InputTickBuffer { entries: Vec::new() }
    }

    /// How many ticks have an intent.
    pub fn len(&self) -> (count: usize)
        ensures
            count == self@.len(),
    {
        self.entries.len()
    }

    /// The newest tick that has an intent.
    pub fn latest(&self) -> (latest: Option<Tick>)
        ensures
            latest == latest_tick(self@),
    {
        let count: usize = self.entries.len();
        if count == 0 {
            None
        } else {
            Some(self.entries[count - 1].0)
        }
    }

    /// Records `intent` as the intent of `tick`.
    ///
    /// A tick is accepted when it is later than every tick recorded so far. The
    /// newest tick a second time, or any earlier tick, is refused and leaves the
    /// buffer as it was.
    pub fn record(&mut self, tick: Tick, intent: Intent) -> (outcome: Result<(), RecordError>)
        requires
            old(self).wf(),
        ensures
            final(self).wf(),
            outcome == record_outcome(old(self)@, tick),
            outcome is Ok ==> final(self)@ == old(self)@.push((tick, intent)),
            outcome is Err ==> final(self)@ == old(self)@,
    {
        let count: usize = self.entries.len();
        if count > 0 {
            let latest: Tick = self.entries[count - 1].0;
            if latest == tick {
                return Err(RecordError::AlreadyRecorded);
            }
            if latest > tick {
                return Err(RecordError::PastTick);
            }
        }
        self.entries.push((tick, intent));
        Ok(())
    }

    /// The intent that was recorded for `tick`.
    pub fn get(&self, tick: Tick) -> (found: Option<Intent>)
        ensures
            found == recorded_at(self@, tick),
    {
        let mut i: usize = self.entries.len();
        proof {
            assert(self.entries@.take(i as int) =~= self.entries@);
        }
        while i > 0
            invariant
                i <= self.entries@.len(),
                recorded_at(self.entries@, tick) == recorded_at(self.entries@.take(i as int), tick),
            decreases i,
        {
            let entry = self.entries[i - 1];
            proof {
                let prefix = self.entries@.take(i as int);
                assert(prefix.drop_last() =~= self.entries@.take(i - 1));
            }
            if entry.0 == tick {
                return Some(entry.1);
            }
            i = i - 1;
        }
        None
    }

    /// Forgets the intents of the ticks before `horizon`.
    ///
    /// To be called once no resimulation can start before `horizon` any more.
    /// Returns how many entries were dropped. The newest entry is kept even if
    /// its tick lies before `horizon`, so what [`InputTickBuffer::record`]
    /// accepts and refuses does not change.
    pub fn forget_before(&mut self, horizon: Tick) -> (dropped: usize)
        requires
            old(self).wf(),
        ensures
            final(self).wf(),
            final(self)@ == retained(old(self)@, horizon),
            dropped == stale_run(old(self)@, horizon, 0),
            latest_tick(final(self)@) == latest_tick(old(self)@),
    {
        let count: usize = self.entries.len();
        if count == 0 {
            return 0;
        }
        let mut stale: usize = 0;
        while stale < count - 1 && self.entries[stale].0 < horizon
            invariant
                count == self.entries@.len(),
                stale < count,
                stale_run(self.entries@, horizon, 0) == stale + stale_run(
                    self.entries@,
                    horizon,
                    stale as nat,
                ),
            decreases count - stale,
        {
            stale = stale + 1;
        }
        proof {
            lemma_stale_run(self.entries@, horizon, 0);
        }
        let kept = self.entries.split_off(stale);
        self.entries = kept;
        stale
    }
}

} // verus!
