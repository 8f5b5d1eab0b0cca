//! The single-stream throttle: one configuration and one embedded counter.

use vstd::prelude::*;

use crate::clock::{now_millis, MAX_CLOCK_MILLIS};
use crate::counter::{spec_step, Counter};

verus! {

/// An activity counter that can be used to monitor and limit activity such as
/// incoming connections and sign-in attempts on a single stream.
pub struct Throttle {
    /// Length of the counting window, in milliseconds.
    pub interval_duration: u128,
    /// Events allowed per window before an excess event triggers a lockout.
    pub max_hits_in_interval: u64,
    /// How long a triggered lockout lasts, in milliseconds.
    pub lockout_duration: u128,
    /// The state of the one monitored stream.
    pub counter: Counter,
}

impl Throttle {
    /// The lockout length leaves room above any clock reading, so that the
    /// lockout expiry `now + lockout_duration` always fits in a `u128`.
    pub open spec fn wf(&self) -> bool {
        self.lockout_duration <= u128::MAX - MAX_CLOCK_MILLIS
    }

    /// Within `interval` only allow `max_hits`, or the locked status is set
    /// for `lockout_duration`.  The counter starts with the window opened at
    /// construction time, no hits and no lockout.
    pub fn new(interval: u128, max_hits: u64, lockout_duration: u128) -> (t: Throttle)
        requires
            lockout_duration <= u128::MAX - MAX_CLOCK_MILLIS,
        ensures
            t.wf(),
            t.interval_duration == interval,
            t.max_hits_in_interval == max_hits,
            t.lockout_duration == lockout_duration,
            t.counter.current_hit_counter == 0,
            t.counter.locked_until == 0,
            t.counter.interval_start <= MAX_CLOCK_MILLIS,
    {
        let now = now_millis();
        Throttle {
            interval_duration: interval,
            max_hits_in_interval: max_hits,
            lockout_duration,
            counter: Counter { interval_start: now, current_hit_counter: 0, locked_until: 0 },
        }
    }

    /// When a monitored activity occurs, `is_throttled()` counts that event
    /// and returns `true` if the activity count has exceeded the limit.
    ///
    /// The configuration never changes; the counter and the verdict are
    /// exactly `spec_step` of the old counter at the clock reading the call
    /// made, some time no later than `MAX_CLOCK_MILLIS`.
    pub fn is_throttled(&mut self) -> (throttled: bool)
        requires
            old(self).wf(),
        ensures
            final(self).wf(),
            final(self).interval_duration == old(self).interval_duration,
            final(self).max_hits_in_interval == old(self).max_hits_in_interval,
            final(self).lockout_duration == old(self).lockout_duration,
            exists|now: u128|
                now <= MAX_CLOCK_MILLIS && (final(self).counter, throttled) == #[trigger] spec_step(
                    old(self).counter,
                    old(self).interval_duration,
                    old(self).max_hits_in_interval,
                    old(self).lockout_duration,
                    now,
                ),
    {
        let interval_duration = self.interval_duration;
        let max_hits = self.max_hits_in_interval;
        let lockout_duration = self.lockout_duration;
        let now = now_millis();
        let throttled = self.counter.step(interval_duration, max_hits, lockout_duration, now);
        proof {
            assert((self.counter, throttled) == spec_step(
                old(self).counter,
                old(self).interval_duration,
                old(self).max_hits_in_interval,
                old(self).lockout_duration,
                now,
            ));
        }
        throttled
    }
}

} // verus!
