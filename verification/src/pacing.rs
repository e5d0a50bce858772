//! The schedule of a stream: when each tick is due.

use vstd::prelude::*;

verus! {

/// The deadline that follows `deadline`. Time stops at the largest value.
pub open spec fn next_deadline(deadline: u64, interval: u64) -> u64 {
    if deadline + interval > u64::MAX {
        u64::MAX
    } else {
        (deadline + interval) as u64
    }
}

/// How long to sleep at `now` for a tick that is due at `deadline`: not at
/// all where it is due already.
pub open spec fn wait_until(deadline: u64, now: u64) -> u64 {
    if deadline > now {
        (deadline - now) as u64
    } else {
        0
    }
}

/// When the tick after `ticks` ticks is due in a stream that began at
/// `start`.
pub open spec fn deadline_at(start: u64, interval: u64, ticks: nat) -> u64 {
    if start + ticks * interval > u64::MAX {
        u64::MAX
    } else {
        (start + ticks * interval) as u64
    }
}

/// Keeps the schedule of a stream: each tick is due one interval after the
/// one before, however late that one was.
#[derive(Debug, Clone, Copy, PartialEq, Eq, Structural)]
pub struct Pacer {
    pub interval: u64,
    pub deadline: u64,
}

impl Pacer {
    /// A schedule whose first tick was due at `start`.
    pub fn new(start: u64, interval: u64) -> (pacer: Pacer)
        ensures
            pacer == (Pacer { interval, deadline: start }),
    {
        Pacer { interval, deadline: start }
    }

    /// Moves on to the next tick and says how long to sleep for it at `now`.
    pub fn advance(&mut self, now: u64) -> (wait: u64)
        ensures
            final(self).interval == old(self).interval,
            final(self).deadline == next_deadline(old(self).deadline, old(self).interval),
            wait == wait_until(final(self).deadline, now),
    {
        self.deadline = self.deadline.saturating_add(self.interval);
        if self.deadline > now {
            self.deadline - now
        } else {
            0
        }
    }
}

/// The deadline of a schedule after it moved on for each of `nows`.
pub open spec fn advanced(pacer: Pacer, nows: Seq<u64>) -> Pacer
    decreases nows.len(),
{
    if nows.len() == 0 {
        pacer
    } else {
        let before = advanced(pacer, nows.drop_last());
        Pacer { interval: before.interval, deadline: next_deadline(before.deadline, before.interval) }
    }
}

/// The schedule does not drift: after any number of ticks the next one is
/// due that many intervals after the start, whatever the clock showed at
/// the ticks before.
pub proof fn lemma_schedule_does_not_drift(start: u64, interval: u64, nows: Seq<u64>)
    ensures
        advanced(Pacer { interval, deadline: start }, nows).interval == interval,
        advanced(Pacer { interval, deadline: start }, nows).deadline == deadline_at(
            start,
            interval,
            nows.len(),
        ),
    decreases nows.len(),
{
    if nows.len() > 0 {
        lemma_schedule_does_not_drift(start, interval, nows.drop_last());
        lemma_deadline_step(start, interval, (nows.len() - 1) as nat);
    }
}

/// One interval after the deadline of one tick lies that of the next.
pub proof fn lemma_deadline_step(start: u64, interval: u64, ticks: nat)
    ensures
        next_deadline(deadline_at(start, interval, ticks), interval) == deadline_at(
            start,
            interval,
            ticks + 1,
        ),
{
    assert((ticks + 1) * interval == ticks * interval + interval) by (nonlinear_arith);
    assert(ticks * interval >= 0) by (nonlinear_arith);
}

} // verus!
