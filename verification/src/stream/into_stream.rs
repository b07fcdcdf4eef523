use vstd::prelude::*;
use crate::stream::interval::{interval, Interval};
use crate::time::{Duration, Instant};

verus! {

/// Conversion into a stream that can mark the windows of another stream.
pub trait IntoStream {
    /// What the stream yields.
    type Item;

    /// The stream that the value becomes.
    type IntoStream;

    /// Makes the stream at the clock reading `now`.
    fn into_stream(self, now: Instant) -> Self::IntoStream;
}

impl IntoStream for Duration {
    type Item = Instant;

    type IntoStream = Interval;

    /// A span of time becomes an interval of that period, started at `now`.
    fn into_stream(self, now: Instant) -> (i: Interval)
        ensures
            i == Interval::started(now, self),
    {
        interval(now, self)
    }
}

} // verus!
