//! An in-process activity-rate limiter.
//!
//! A throttle counts how often a monitored event occurs and reports whether
//! the event should be refused because it exceeded a configured rate, holding
//! the refusal for a lockout period once the limit is crossed.  [`Throttle`]
//! watches a single activity stream; [`ThrottleHash`] keeps an independent
//! counter per key.

pub mod clock;
pub mod counter;
pub mod keyed;
pub mod laws;
pub mod throttle;

pub use clock::MAX_CLOCK_MILLIS;
pub use counter::Counter;
pub use keyed::ThrottleHash;
pub use throttle::Throttle;
