//! The one environmental dependency of the library: the current wall-clock
//! time in milliseconds since the Unix epoch.

use vstd::prelude::*;

verus! {

/// The largest value a clock reading can take: `Duration::MAX` is documented
/// as `Duration::new(u64::MAX, 999_999_999)`, so `Duration::as_millis` never
/// exceeds `u64::MAX * 1000 + 999`.
pub const MAX_CLOCK_MILLIS: u128 = 18446744073709551615 * 1000 + 999;

/// Relies on `std::time::SystemTime::now` and `Duration::as_millis`: the
/// milliseconds elapsed since the Unix epoch, bounded by what a `Duration`
/// can hold.  Nothing relates two readings: the wall clock may jump either
/// way between calls.  A clock that reads before the epoch aborts the
/// process, a process-level invariant violation rather than a domain error.
#[verifier::external_body]
pub(crate) fn now_millis() -> (now: u128)
    ensures
        now <= MAX_CLOCK_MILLIS,
{
    std::time::SystemTime::now()
        .duration_since(std::time::UNIX_EPOCH)
        .unwrap()
        .as_millis()
}

} // verus!
