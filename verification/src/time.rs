//! Spans of time, as std's `Duration` carries them, counted in nanoseconds.

use vstd::prelude::*;

use core::time::Duration;

verus! {

/// The whole number of nanoseconds a duration spans.
pub uninterp spec fn duration_as_nanos(d: Duration) -> u128;

/// `Duration::from_nanos` makes a duration of exactly that many nanoseconds.
pub assume_specification [core::time::Duration::from_nanos](nanos: u64) -> (d: Duration)
    ensures
        duration_as_nanos(d) == nanos,
;

/// `Duration::from_micros` makes a duration of that many microseconds.
pub assume_specification [core::time::Duration::from_micros](micros: u64) -> (d: Duration)
    ensures
        duration_as_nanos(d) == micros * 1_000,
;

/// `Duration::from_secs` makes a duration of that many whole seconds.
pub assume_specification [core::time::Duration::from_secs](secs: u64) -> (d: Duration)
    ensures
        duration_as_nanos(d) == secs * 1_000_000_000,
;

/// `Duration::as_millis` returns the whole number of milliseconds the
/// duration spans, any fraction of a millisecond dropped.
pub assume_specification [core::time::Duration::as_millis](d: &Duration) -> (r: u128)
    ensures
        r == duration_as_nanos(*d) / 1_000_000,
;

} // verus!
