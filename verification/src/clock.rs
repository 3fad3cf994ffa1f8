//! Pacing of the world loop. Time is counted in nanoseconds from a moment
//! that the caller picks once.

use vstd::prelude::*;

verus! {

/// How a world's ticks are paced.
#[derive(Clone, Copy, Debug, PartialEq, Eq, Structural)]
pub enum Clock {
    /// One tick per `interval` nanoseconds, as far as the machine keeps up.
    Auto { interval: u64 },
    /// One tick per step that is asked for.
    Manual,
}

/// Keeps the time at which the next tick is due.
#[derive(Clone, Copy, Debug, PartialEq, Eq, Structural)]
pub struct Metronome {
    /// When the next tick is due to start.
    pub due: u64,
}

/// The interval of the clock that a world has where none is asked for.
pub const DEFAULT_INTERVAL: u64 = 15_625_000;

impl Default for Clock {
    fn default() -> (clock: Clock)
        ensures
            clock == (Clock::Auto { interval: DEFAULT_INTERVAL }),
    {
        Clock::Auto { interval: DEFAULT_INTERVAL }
    }
}

impl Clock {
    /// A metronome whose first tick is due at `now`.
    pub fn metronome(&self, now: u64) -> (metronome: Metronome)
        ensures
            metronome.due == now,
    {
        Metronome { due: now }
    }
}

impl Metronome {
    /// When the tick after the one that ends at `now` is due: one interval
    /// after the last due time, but never more than one interval before
    /// `now`, so that at most one overdue tick is made up for. A manual
    /// clock keeps no time.
    pub open spec fn next_due(self, clock: Clock, now: u64) -> int {
        match clock {
            Clock::Auto { interval } => {
                let next = if self.due + interval <= u64::MAX {
                    self.due + interval
                } else {
                    u64::MAX as int
                };
                if next + interval < now {
                    now - interval
                } else {
                    next
                }
            },
            Clock::Manual => self.due as int,
        }
    }

    /// How long to sleep at `now` before the next tick starts: the time
    /// left until it is due. A manual clock never sleeps.
    pub open spec fn delay(self, clock: Clock, now: u64) -> int {
        match clock {
            Clock::Auto { .. } => if self.due > now {
                self.due - now
            } else {
                0
            },
            Clock::Manual => 0,
        }
    }

    /// Records that a tick ended at `now`.
    pub fn tick(&mut self, clock: Clock, now: u64)
        ensures
            final(self).due == old(self).next_due(clock, now),
    {
        match clock {
            Clock::Auto { interval } => {
                let next = self.due.saturating_add(interval);
                if next < now && now - next > interval {
                    self.due = now - interval;
                } else {
                    self.due = next;
                }
            },
            Clock::Manual => {},
        }
    }

    /// How many nanoseconds to sleep at `now` before the next tick.
    pub fn wait(&self, clock: Clock, now: u64) -> (nanos: u64)
        ensures
            nanos == self.delay(clock, now),
    {
        match clock {
            Clock::Auto { .. } => if self.due > now {
                self.due - now
            } else {
                0
            },
            Clock::Manual => 0,
        }
    }

    /// While ticks take no longer than the interval and the loop sleeps as
    /// told, each tick starts one interval after the one before.
    pub proof fn keeps_the_beat(self, interval: u64, end: u64)
        requires
            self.due + interval <= u64::MAX,
            end <= self.due + interval,
        ensures
            ({
                let clock = Clock::Auto { interval };
                let next = (Metronome { due: self.next_due(clock, end) as u64 });
                &&& next.due == self.due + interval
                &&& end + next.delay(clock, end) == self.due + interval
            }),
    {
    }

    /// However late a tick ends, the next one is due no more than one
    /// interval before that, and the loop does not sleep.
    pub proof fn bounded_backlog(self, interval: u64, end: u64)
        requires
            self.due + interval < end,
        ensures
            ({
                let clock = Clock::Auto { interval };
                let next = (Metronome { due: self.next_due(clock, end) as u64 });
                &&& end - interval <= next.due
                &&& next.delay(clock, end) == 0
            }),
    {
    }
}

} // verus!
