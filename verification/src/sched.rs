//! The cycle scheduler: a cooperative timer that walks an ordered image
//! list, switching to the next image each time the clock reaches the
//! switch deadline. Time is a plain monotone counter in the caller's unit;
//! the loop that reads the clock, draws and sleeps lives with the caller.

use vstd::prelude::*;

verus! {

/// Why a cycle could not be set up.
#[derive(Clone, Copy, Debug, PartialEq, Eq, Structural)]
pub enum CycleError {
    /// The image list is empty: there is nothing to cycle through. This is
    /// rejected before the loop starts, never inside it.
    EmptyList,
}

/// The scheduler's whole state: how many images the list holds, the switch
/// interval, the index to show at the next switch, and the deadline for it.
#[derive(Clone, Copy, Debug, PartialEq, Eq, Structural)]
pub struct CycleScheduler {
    pub len: usize,
    pub interval: u64,
    pub index: usize,
    pub next_switch: u64,
}

impl CycleScheduler {
    /// The index always names an image of the list.
    pub open spec fn wf(self) -> bool {
        self.len > 0 && self.index < self.len
    }

    /// A scheduler over `len` images switching every `interval`, due
    /// immediately: the first tick at or after `now` shows image 0.
    pub fn new(len: usize, interval: u64, now: u64) -> (r: Result<CycleScheduler, CycleError>)
        ensures
            match r {
                Ok(s) => {
                    &&& len > 0
                    &&& s == (CycleScheduler { len, interval, index: 0usize, next_switch: now })
                    &&& s.wf()
                },
                Err(e) => e == CycleError::EmptyList && len == 0,
            },
    {
        if len == 0 {
            return Err(CycleError::EmptyList);
        }
        Ok(CycleScheduler { len, interval, index: 0, next_switch: now })
    }

    /// One loop iteration's decision at time `now`: if the deadline has
    /// been reached, yields the index to display, advances to the next
    /// index modulo the list length, and moves the deadline to
    /// `now + interval`; otherwise nothing changes and nothing is shown.
    pub fn tick(&mut self, now: u64) -> (fired: Option<usize>)
        requires
            old(self).wf(),
            now + old(self).interval <= u64::MAX,
        ensures
            final(self).wf(),
            final(self).len == old(self).len,
            final(self).interval == old(self).interval,
            if now >= old(self).next_switch {
                &&& fired == Some(old(self).index)
                &&& final(self).index == (old(self).index + 1) % (old(self).len as int)
                &&& final(self).next_switch == now + old(self).interval
            } else {
                &&& fired is None
                &&& *final(self) == *old(self)
            },
    {
        if now >= self.next_switch {
            let shown = self.index;
            self.index = (self.index + 1) % self.len;
            self.next_switch = now + self.interval;
            Some(shown)
        } else {
            None
        }
    }
}

} // verus!
