//! The keyed throttle: an independent counter per key, all sharing one
//! configuration.  Entries are created lazily on a key's first observation
//! and never evicted; bounding the registry is the caller's concern.

use core::hash::Hash;
use std::collections::HashMap;

use vstd::prelude::*;
use vstd::std_specs::hash::obeys_key_model;

use crate::clock::{now_millis, MAX_CLOCK_MILLIS};
use crate::counter::{fresh_counter, spec_step, Counter};

verus! {

/// The transition the registry makes when one event is recorded under `key`
/// at time `now`: the key's counter (a fresh one on first observation, its
/// window opened at `now`) takes one `spec_step`, every other entry stays as
/// it was, and the verdict is that step's verdict.
pub open spec fn spec_keyed_step<H>(
    m: Map<H, Counter>,
    interval_duration: u128,
    max_hits: u64,
    lockout_duration: u128,
    key: H,
    now: u128,
) -> (Map<H, Counter>, bool) {
    let prev = if m.contains_key(key) {
        m[key]
    } else {
        fresh_counter(now)
    };
    let stepped = spec_step(prev, interval_duration, max_hits, lockout_duration, now);
    (m.insert(key, stepped.0), stepped.1)
}

/// An activity counter per key, for limiting activity such as sign-in
/// attempts on each of many email addresses independently.
pub struct ThrottleHash<H: Eq + Hash + Clone> {
    /// Length of the counting window, in milliseconds.
    pub interval_duration: u128,
    /// Events allowed per window before an excess event triggers a lockout.
    pub max_hits_in_interval: u64,
    /// How long a triggered lockout lasts, in milliseconds.
    pub lockout_duration: u128,
    /// One counter per key ever observed.
    pub counters: HashMap<H, Counter>,
}

/// Relies on `H::clone`: under vstd's hash-table key model
/// (`vstd::std_specs::hash::obeys_key_model`, whose third requirement is that
/// `clone` produces a result identical to its input) the clone equals the
/// key; of a type outside that model nothing is claimed.
#[verifier::external_body]
fn clone_key<H: Eq + Hash + Clone>(key: &H) -> (owned: H)
    ensures
        obeys_key_model::<H>() ==> owned == *key,
{
    key.clone()
}

impl<H: Eq + Hash + Clone> ThrottleHash<H> {
    /// The lockout length leaves room above any clock reading, so that a
    /// lockout expiry `now + lockout_duration` always fits in a `u128`.
    pub open spec fn wf(&self) -> bool {
        self.lockout_duration <= u128::MAX - MAX_CLOCK_MILLIS
    }

    /// Within `interval` only allow `max_hits` per key, or that key's locked
    /// status is set for `lockout_duration`.  The registry starts empty.
    pub fn new(interval: u128, max_hits: u64, lockout_duration: u128) -> (t: Self)
        requires
            lockout_duration <= u128::MAX - MAX_CLOCK_MILLIS,
        ensures
            t.wf(),
            t.interval_duration == interval,
            t.max_hits_in_interval == max_hits,
            t.lockout_duration == lockout_duration,
            t.counters@ == Map::<H, Counter>::empty(),
    {
        ThrottleHash {
            interval_duration: interval,
            max_hits_in_interval: max_hits,
            lockout_duration,
            counters: HashMap::new(),
        }
    }

    /// When a monitored activity occurs under `key`, `is_throttled()` counts
    /// that event and returns `true` if that key's activity count has
    /// exceeded the limit.  Other keys' counters are untouched.
    ///
    /// The configuration never changes.  For a key type within vstd's
    /// hash-table key model, the registry and the verdict are exactly
    /// `spec_keyed_step` of the old registry at the clock reading the call
    /// made, some time no later than `MAX_CLOCK_MILLIS`.
    pub fn is_throttled(&mut self, key: &H) -> (throttled: bool)
        requires
            old(self).wf(),
        ensures
            final(self).wf(),
            final(self).interval_duration == old(self).interval_duration,
            final(self).max_hits_in_interval == old(self).max_hits_in_interval,
            final(self).lockout_duration == old(self).lockout_duration,
            obeys_key_model::<H>() ==> exists|now: u128|
                now <= MAX_CLOCK_MILLIS && (final(self).counters@, throttled)
                    == #[trigger] spec_keyed_step(
                    old(self).counters@,
                    old(self).interval_duration,
                    old(self).max_hits_in_interval,
                    old(self).lockout_duration,
                    *key,
                    now,
                ),
    {
        let interval_duration = self.interval_duration;
        let max_hits = self.max_hits_in_interval;
        let lockout_duration = self.lockout_duration;
        let now = now_millis();
        let mut counter = match self.counters.remove(key) {
            Some(c) => c,
            None => Counter { interval_start: now, current_hit_counter: 0, locked_until: 0 },
        };
        let ghost mid = self.counters@;
        let ghost prev = counter;
        let throttled = counter.step(interval_duration, max_hits, lockout_duration, now);
        let owned_key = clone_key(key);
        self.counters.insert(owned_key, counter);
        proof {
            if obeys_key_model::<H>() {
                let m0 = old(self).counters@;
                assert(mid == m0.remove(*key));
                assert(prev == (if m0.contains_key(*key) {
                    m0[*key]
                } else {
                    fresh_counter(now)
                }));
                assert(self.counters@ =~= spec_keyed_step(
                    m0,
                    old(self).interval_duration,
                    old(self).max_hits_in_interval,
                    old(self).lockout_duration,
                    *key,
                    now,
                ).0);
                assert((self.counters@, throttled) == spec_keyed_step(
                    m0,
                    old(self).interval_duration,
                    old(self).max_hits_in_interval,
                    old(self).lockout_duration,
                    *key,
                    now,
                ));
            }
        }
        throttled
    }
}

} // verus!
