//! The per-stream counter record and the transition algorithm that is applied
//! to it on every recorded event.  Both throttle variants share this logic.

use vstd::prelude::*;

verus! {

/// The mutable state of one monitored activity stream.
///
/// `locked_until == 0` is the sentinel for "not locked"; any other value is
/// the time (milliseconds since the epoch) at which an active lockout ends.
pub struct Counter {
    /// Start of the current counting window, in milliseconds since the epoch.
    pub interval_start: u128,
    /// Events recorded since `interval_start`.
    pub current_hit_counter: u64,
    /// End of the active lockout, or 0 when no lockout is active.
    pub locked_until: u128,
}

/// The counter a stream starts with: window opened at `now`, no hits, no lock.
pub open spec fn fresh_counter(now: u128) -> Counter {
    Counter { interval_start: now, current_hit_counter: 0, locked_until: 0 }
}

/// One more recorded hit; the count stops at `u64::MAX` rather than wrap.
pub open spec fn bump_hits(hits: u64) -> u64 {
    if hits == u64::MAX {
        u64::MAX
    } else {
        (hits + 1) as u64
    }
}

/// The transition a counter makes when one event is recorded at time `now`
/// under the configuration (`interval_duration`, `max_hits`,
/// `lockout_duration`): the new counter, and the verdict (`true` = throttled).
///
/// The event is counted first.  A still-active lockout refuses the event and
/// changes nothing else.  A lockout that has ended (strictly: `now` at or past
/// `locked_until`) is cleared; if the hit count then still exceeds `max_hits`
/// a fresh window starts at `now`, and either way the event is allowed.  With
/// no lockout, a count within `max_hits` is allowed and leaves the window
/// alone; a count beyond it starts a new window at `now`, and the verdict
/// depends on how much time passed: within `interval_duration` of the old
/// window's start the burst is abuse, so a lockout of `lockout_duration` is
/// set and the event refused; later than that the window had simply expired,
/// so no lockout is set and the event is allowed.
pub open spec fn spec_step(
    c: Counter,
    interval_duration: u128,
    max_hits: u64,
    lockout_duration: u128,
    now: u128,
) -> (Counter, bool) {
    let hits = bump_hits(c.current_hit_counter);
    if c.locked_until != 0 && c.locked_until > now {
        (
            Counter {
                interval_start: c.interval_start,
                current_hit_counter: hits,
                locked_until: c.locked_until,
            },
            true,
        )
    } else if c.locked_until != 0 {
        if hits <= max_hits {
            (
                Counter {
                    interval_start: c.interval_start,
                    current_hit_counter: hits,
                    locked_until: 0,
                },
                false,
            )
        } else {
            (Counter { interval_start: now, current_hit_counter: 1, locked_until: 0 }, false)
        }
    } else {
        if hits <= max_hits {
            (
                Counter {
                    interval_start: c.interval_start,
                    current_hit_counter: hits,
                    locked_until: 0,
                },
                false,
            )
        } else if now - c.interval_start <= interval_duration {
            (
                Counter {
                    interval_start: now,
                    current_hit_counter: 1,
                    locked_until: (now + lockout_duration) as u128,
                },
                true,
            )
        } else {
            (Counter { interval_start: now, current_hit_counter: 1, locked_until: 0 }, false)
        }
    }
}

impl Counter {
    /// Record one event at time `now` and report the verdict, exactly as
    /// `spec_step` describes.
    pub fn step(
        &mut self,
        interval_duration: u128,
        max_hits: u64,
        lockout_duration: u128,
        now: u128,
    ) -> (throttled: bool)
        requires
            now + lockout_duration <= u128::MAX,
        ensures
            (*final(self), throttled) == spec_step(
                *old(self),
                interval_duration,
                max_hits,
                lockout_duration,
                now,
            ),
    {
        self.current_hit_counter = if self.current_hit_counter == u64::MAX {
            u64::MAX
        } else {
            self.current_hit_counter + 1
        };
        if self.locked_until != 0 {
            if self.locked_until > now {
                return true;
            }
            self.locked_until = 0;
            if self.current_hit_counter <= max_hits {
                return false;
            }
            self.interval_start = now;
            self.current_hit_counter = 1;
            return false;
        }
        if self.current_hit_counter <= max_hits {
            return false;
        }
        if now <= self.interval_start || now - self.interval_start <= interval_duration {
            self.interval_start = now;
            self.current_hit_counter = 1;
            self.locked_until = now + lockout_duration;
            return true;
        }
        self.interval_start = now;
        self.current_hit_counter = 1;
        false
    }
}

} // verus!
