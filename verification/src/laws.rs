//! The laws of the throttle, stated over the spec-level transition and proved
//! once for all configurations, counters and call times.

use vstd::prelude::*;

use crate::counter::{bump_hits, fresh_counter, spec_step, Counter};
use crate::keyed::spec_keyed_step;

verus! {

/// Folding the transition over a sequence of call times: the counter after
/// all the calls, and each call's verdict in order.
pub open spec fn run_calls(
    c: Counter,
    interval_duration: u128,
    max_hits: u64,
    lockout_duration: u128,
    times: Seq<u128>,
) -> (Counter, Seq<bool>)
    decreases times.len(),
{
    if times.len() == 0 {
        (c, Seq::empty())
    } else {
        let first = spec_step(c, interval_duration, max_hits, lockout_duration, times[0]);
        let rest = run_calls(
            first.0,
            interval_duration,
            max_hits,
            lockout_duration,
            times.drop_first(),
        );
        (rest.0, seq![first.1] + rest.1)
    }
}

/// Calls spaced further apart than the window length are never throttled:
/// starting from an unlocked counter, if every call comes more than
/// `interval_duration` after the one before it (the first one more than
/// `interval_duration` after the window start), then every verdict is
/// not-throttled and the counter ends unlocked, its window starting no later
/// than the last call.
pub proof fn lemma_spaced_calls_not_throttled(
    c: Counter,
    interval_duration: u128,
    max_hits: u64,
    lockout_duration: u128,
    times: Seq<u128>,
)
    requires
        c.locked_until == 0,
        times.len() > 0 ==> c.interval_start + interval_duration < times[0],
        forall|i: int|
            #![trigger times[i]]
            1 <= i < times.len() ==> times[i - 1] + interval_duration < times[i],
    ensures
        run_calls(c, interval_duration, max_hits, lockout_duration, times).1.len() == times.len(),
        forall|i: int|
            0 <= i < times.len() ==> run_calls(
                c,
                interval_duration,
                max_hits,
                lockout_duration,
                times,
            ).1[i] == false,
        run_calls(c, interval_duration, max_hits, lockout_duration, times).0.locked_until == 0,
        times.len() > 0 ==> run_calls(
            c,
            interval_duration,
            max_hits,
            lockout_duration,
            times,
        ).0.interval_start <= times[times.len() - 1],
        times.len() == 0 ==> run_calls(
            c,
            interval_duration,
            max_hits,
            lockout_duration,
            times,
        ).0.interval_start == c.interval_start,
    decreases times.len(),
{
    if times.len() > 0 {
        let first = spec_step(c, interval_duration, max_hits, lockout_duration, times[0]);
        assert(first.1 == false);
        assert(first.0.locked_until == 0);
        assert(first.0.interval_start <= times[0]);
        let tail = times.drop_first();
        assert forall|i: int|
            #![trigger tail[i]]
            1 <= i < tail.len() implies tail[i - 1] + interval_duration < tail[i] by {
            assert(tail[i - 1] == times[i]);
            assert(tail[i] == times[i + 1]);
        }
        if tail.len() > 0 {
            assert(times[1] - times[0] > interval_duration);
            assert(first.0.interval_start + interval_duration < tail[0]);
        }
        lemma_spaced_calls_not_throttled(
            first.0,
            interval_duration,
            max_hits,
            lockout_duration,
            tail,
        );
        let rest = run_calls(first.0, interval_duration, max_hits, lockout_duration, tail);
        assert forall|i: int|
            0 <= i < times.len() implies (seq![first.1] + rest.1)[i] == false by {
            if i > 0 {
                assert((seq![first.1] + rest.1)[i] == rest.1[i - 1]);
            }
        }
        if tail.len() > 0 {
            assert(tail[tail.len() - 1] == times[times.len() - 1]);
        }
    }
}

/// Exceeding the cap within one window throttles: from an unlocked counter
/// whose hit count plus the number of calls just passes `max_hits`, with
/// every call landing within `interval_duration` of the window start, every
/// call but the last is allowed, the last is refused, and it opens a fresh
/// window at the last call with a lockout that ends exactly
/// `lockout_duration` after that call.
pub proof fn lemma_burst_over_cap_throttles(
    c: Counter,
    interval_duration: u128,
    max_hits: u64,
    lockout_duration: u128,
    times: Seq<u128>,
)
    requires
        c.locked_until == 0,
        max_hits < u64::MAX,
        times.len() > 0,
        c.current_hit_counter + times.len() == max_hits + 1,
        forall|i: int|
            0 <= i < times.len() ==> c.interval_start <= #[trigger] times[i] <= c.interval_start
                + interval_duration,
        times[times.len() - 1] + lockout_duration <= u128::MAX,
    ensures
        run_calls(c, interval_duration, max_hits, lockout_duration, times).1.len() == times.len(),
        forall|i: int|
            0 <= i < times.len() - 1 ==> run_calls(
                c,
                interval_duration,
                max_hits,
                lockout_duration,
                times,
            ).1[i] == false,
        run_calls(c, interval_duration, max_hits, lockout_duration, times).1[times.len() - 1]
            == true,
        run_calls(c, interval_duration, max_hits, lockout_duration, times).0 == (Counter {
            interval_start: times[times.len() - 1],
            current_hit_counter: 1,
            locked_until: (times[times.len() - 1] + lockout_duration) as u128,
        }),
    decreases times.len(),
{
    let first = spec_step(c, interval_duration, max_hits, lockout_duration, times[0]);
    let tail = times.drop_first();
    if times.len() == 1 {
        assert(bump_hits(c.current_hit_counter) == max_hits + 1);
        assert(first.1 == true);
        let rest = run_calls(first.0, interval_duration, max_hits, lockout_duration, tail);
        assert(rest == (first.0, Seq::<bool>::empty()));
        assert(run_calls(c, interval_duration, max_hits, lockout_duration, times).1 == seq![
            first.1,
        ] + rest.1);
    } else {
        assert(bump_hits(c.current_hit_counter) <= max_hits);
        assert(first.1 == false);
        assert(first.0.interval_start == c.interval_start);
        assert forall|i: int|
            0 <= i < tail.len() implies first.0.interval_start <= #[trigger] tail[i]
            <= first.0.interval_start + interval_duration by {
            assert(tail[i] == times[i + 1]);
        }
        assert(tail[tail.len() - 1] == times[times.len() - 1]);
        lemma_burst_over_cap_throttles(
            first.0,
            interval_duration,
            max_hits,
            lockout_duration,
            tail,
        );
        let rest = run_calls(first.0, interval_duration, max_hits, lockout_duration, tail);
        assert forall|i: int|
            0 <= i < times.len() - 1 implies (seq![first.1] + rest.1)[i] == false by {
            if i > 0 {
                assert((seq![first.1] + rest.1)[i] == rest.1[i - 1]);
            }
        }
        assert((seq![first.1] + rest.1)[times.len() - 1] == rest.1[tail.len() - 1]);
    }
}

/// The lockout triggered by exceeding the cap lasts at least
/// `lockout_duration`: after a burst that just passes `max_hits` within one
/// window, every further call landing strictly before `lockout_duration` has
/// elapsed since the refused call is itself refused.
pub proof fn lemma_lockout_spans_duration(
    c: Counter,
    interval_duration: u128,
    max_hits: u64,
    lockout_duration: u128,
    times: Seq<u128>,
    later: Seq<u128>,
)
    requires
        c.locked_until == 0,
        max_hits < u64::MAX,
        times.len() > 0,
        c.current_hit_counter + times.len() == max_hits + 1,
        forall|i: int|
            0 <= i < times.len() ==> c.interval_start <= #[trigger] times[i] <= c.interval_start
                + interval_duration,
        times[times.len() - 1] + lockout_duration <= u128::MAX,
        forall|i: int|
            0 <= i < later.len() ==> #[trigger] later[i] < times[times.len() - 1]
                + lockout_duration,
    ensures
        run_calls(
            run_calls(c, interval_duration, max_hits, lockout_duration, times).0,
            interval_duration,
            max_hits,
            lockout_duration,
            later,
        ).1.len() == later.len(),
        forall|i: int|
            0 <= i < later.len() ==> run_calls(
                run_calls(c, interval_duration, max_hits, lockout_duration, times).0,
                interval_duration,
                max_hits,
                lockout_duration,
                later,
            ).1[i] == true,
{
    lemma_burst_over_cap_throttles(c, interval_duration, max_hits, lockout_duration, times);
    let locked = run_calls(c, interval_duration, max_hits, lockout_duration, times).0;
    if later.len() > 0 {
        assert(later[0] < locked.locked_until);
        lemma_locked_span_throttles(
            locked,
            interval_duration,
            max_hits,
            lockout_duration,
            later,
        );
    } else {
        assert(run_calls(
            locked,
            interval_duration,
            max_hits,
            lockout_duration,
            later,
        ).1 =~= Seq::<bool>::empty());
    }
}

/// While a lockout is active every call is refused: calls landing strictly
/// before `locked_until` all return throttled and leave the window start and
/// the lockout exactly as they were.
pub proof fn lemma_locked_span_throttles(
    c: Counter,
    interval_duration: u128,
    max_hits: u64,
    lockout_duration: u128,
    times: Seq<u128>,
)
    requires
        c.locked_until != 0,
        forall|i: int| 0 <= i < times.len() ==> #[trigger] times[i] < c.locked_until,
    ensures
        run_calls(c, interval_duration, max_hits, lockout_duration, times).1.len() == times.len(),
        forall|i: int|
            0 <= i < times.len() ==> run_calls(
                c,
                interval_duration,
                max_hits,
                lockout_duration,
                times,
            ).1[i] == true,
        run_calls(c, interval_duration, max_hits, lockout_duration, times).0.locked_until
            == c.locked_until,
        run_calls(c, interval_duration, max_hits, lockout_duration, times).0.interval_start
            == c.interval_start,
    decreases times.len(),
{
    if times.len() > 0 {
        let first = spec_step(c, interval_duration, max_hits, lockout_duration, times[0]);
        assert(first.1 == true);
        let tail = times.drop_first();
        assert forall|i: int| 0 <= i < tail.len() implies #[trigger] tail[i]
            < first.0.locked_until by {
            assert(tail[i] == times[i + 1]);
        }
        lemma_locked_span_throttles(first.0, interval_duration, max_hits, lockout_duration, tail);
        let rest = run_calls(first.0, interval_duration, max_hits, lockout_duration, tail);
        assert forall|i: int|
            0 <= i < times.len() implies (seq![first.1] + rest.1)[i] == true by {
            if i > 0 {
                assert((seq![first.1] + rest.1)[i] == rest.1[i - 1]);
            }
        }
    }
}

/// Once the lockout period has elapsed (a call at or after `locked_until`),
/// the next call is allowed and the lock is cleared; and whenever that call's
/// hit count is still past the cap — as it is after any lockout that was
/// triggered and then saw at least `max_hits` refused calls — the window is
/// reset: it restarts at that call with a hit count of one.
pub proof fn lemma_expired_lockout_call_allowed(
    c: Counter,
    interval_duration: u128,
    max_hits: u64,
    lockout_duration: u128,
    now: u128,
)
    requires
        c.locked_until != 0,
        now >= c.locked_until,
    ensures
        spec_step(c, interval_duration, max_hits, lockout_duration, now).1 == false,
        spec_step(c, interval_duration, max_hits, lockout_duration, now).0.locked_until == 0,
        bump_hits(c.current_hit_counter) > max_hits ==> spec_step(
            c,
            interval_duration,
            max_hits,
            lockout_duration,
            now,
        ).0 == (Counter { interval_start: now, current_hit_counter: 1, locked_until: 0 }),
{
}

/// After a lockout expires with the hit count past the cap, a fresh burst of
/// up to `max_hits` calls is allowed again before the next lockout: the call
/// at `t0` (at or after `locked_until`) is allowed and resets the window, the
/// next `max_hits - 1` calls within the new window are allowed, and the
/// `max_hits`-th is refused and locked out again.
pub proof fn lemma_post_lockout_fresh_burst(
    c: Counter,
    interval_duration: u128,
    max_hits: u64,
    lockout_duration: u128,
    t0: u128,
    times: Seq<u128>,
)
    requires
        c.locked_until != 0,
        t0 >= c.locked_until,
        bump_hits(c.current_hit_counter) > max_hits,
        0 < max_hits < u64::MAX,
        times.len() == max_hits,
        forall|i: int| 0 <= i < times.len() ==> t0 <= #[trigger] times[i] <= t0 + interval_duration,
        times[times.len() - 1] + lockout_duration <= u128::MAX,
    ensures
        spec_step(c, interval_duration, max_hits, lockout_duration, t0).1 == false,
        forall|i: int|
            0 <= i < times.len() - 1 ==> run_calls(
                spec_step(c, interval_duration, max_hits, lockout_duration, t0).0,
                interval_duration,
                max_hits,
                lockout_duration,
                times,
            ).1[i] == false,
        run_calls(
            spec_step(c, interval_duration, max_hits, lockout_duration, t0).0,
            interval_duration,
            max_hits,
            lockout_duration,
            times,
        ).1[times.len() - 1] == true,
{
    lemma_expired_lockout_call_allowed(c, interval_duration, max_hits, lockout_duration, t0);
    let reset = spec_step(c, interval_duration, max_hits, lockout_duration, t0).0;
    lemma_burst_over_cap_throttles(reset, interval_duration, max_hits, lockout_duration, times);
}

/// Boundary: a call landing exactly at `locked_until` — the elapsed time
/// equals `lockout_duration` — is treated as lockout-expired, because "still
/// locked" is a strict less-than check; the call is allowed and the lock is
/// cleared.
pub proof fn lemma_expiry_boundary_not_locked(
    c: Counter,
    interval_duration: u128,
    max_hits: u64,
    lockout_duration: u128,
    now: u128,
)
    requires
        c.locked_until != 0,
        now == c.locked_until,
    ensures
        spec_step(c, interval_duration, max_hits, lockout_duration, now).1 == false,
        spec_step(c, interval_duration, max_hits, lockout_duration, now).0.locked_until == 0,
{
}

/// Identical configurations fed identical timed call sequences produce
/// identical verdict sequences: the transition is a pure function of the
/// counter, the configuration and the call time, so two equal counters stay
/// in lockstep through any shared schedule.
pub proof fn lemma_identical_runs_agree(
    c1: Counter,
    c2: Counter,
    interval_duration: u128,
    max_hits: u64,
    lockout_duration: u128,
    times: Seq<u128>,
)
    requires
        c1 == c2,
    ensures
        run_calls(c1, interval_duration, max_hits, lockout_duration, times).1 == run_calls(
            c2,
            interval_duration,
            max_hits,
            lockout_duration,
            times,
        ).1,
{
}

/// Distinct keys are fully independent: recording an event under one key
/// leaves the other key's presence and counter unchanged, so the verdict a
/// call under the other key then gets is exactly what it would have been
/// without the first call.
pub proof fn lemma_keys_independent<H>(
    m: Map<H, Counter>,
    interval_duration: u128,
    max_hits: u64,
    lockout_duration: u128,
    key_a: H,
    key_b: H,
    t_a: u128,
    t_b: u128,
)
    requires
        key_a != key_b,
    ensures
        ({
            let after_a = spec_keyed_step(
                m,
                interval_duration,
                max_hits,
                lockout_duration,
                key_a,
                t_a,
            ).0;
            &&& after_a.contains_key(key_b) == m.contains_key(key_b)
            &&& m.contains_key(key_b) ==> after_a[key_b] == m[key_b]
            &&& spec_keyed_step(after_a, interval_duration, max_hits, lockout_duration, key_b, t_b).1
                == spec_keyed_step(m, interval_duration, max_hits, lockout_duration, key_b, t_b).1
            &&& spec_keyed_step(
                after_a,
                interval_duration,
                max_hits,
                lockout_duration,
                key_b,
                t_b,
            ).0[key_b] == spec_keyed_step(
                m,
                interval_duration,
                max_hits,
                lockout_duration,
                key_b,
                t_b,
            ).0[key_b]
        }),
{
    let after_a = spec_keyed_step(m, interval_duration, max_hits, lockout_duration, key_a, t_a).0;
    let prev_after = if after_a.contains_key(key_b) {
        after_a[key_b]
    } else {
        fresh_counter(t_b)
    };
    let prev_before = if m.contains_key(key_b) {
        m[key_b]
    } else {
        fresh_counter(t_b)
    };
    assert(prev_after == prev_before);
}

} // verus!
