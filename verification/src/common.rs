//! Keeping time.

use vstd::prelude::*;

verus! {

/// Remembers when something began, on a clock that counts microseconds.
#[derive(Debug, Clone, Copy, PartialEq, Eq, Structural)]
pub struct TimeKeeper {
    pub start: u64,
}

impl TimeKeeper {
    /// A keeper of the time since `now_micros`.
    pub fn new(now_micros: u64) -> (keeper: TimeKeeper)
        ensures
            keeper.start == now_micros,
    {
        TimeKeeper { start: now_micros }
    }

    /// The microseconds from the start to `now_micros`; none where the clock
    /// shows a time before the start.
    pub fn elapsed_micros(&self, now_micros: u64) -> (elapsed: u64)
        ensures
            elapsed == if now_micros >= self.start {
                now_micros - self.start
            } else {
                0
            },
    {
        if now_micros >= self.start {
            now_micros - self.start
        } else {
            0
        }
    }
}

} // verus!
