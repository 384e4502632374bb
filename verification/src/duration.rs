//! Spans of time, as `std` has them.
use std::time::Duration;
use vstd::prelude::*;

verus! {

/// The span of so many whole seconds.
pub uninterp spec fn seconds(secs: u64) -> Duration;

/// The span of so many milliseconds.
pub uninterp spec fn milliseconds(ms: u64) -> Duration;

/// `Duration::from_secs`: the span of `secs` whole seconds.
pub assume_specification[ Duration::from_secs ](secs: u64) -> (d: Duration)
    ensures
        d == seconds(secs),
;

/// `Duration::from_millis`: the span of `millis` milliseconds.
pub assume_specification[ Duration::from_millis ](millis: u64) -> (d: Duration)
    ensures
        d == milliseconds(millis),
;

} // verus!
