//! Times and durations counted in units of a stream's time base.

use vstd::prelude::*;
use vstd::std_specs::convert::FromSpecImpl;

verus! {

/// A presentation time, in units of the time base of its stream.
#[derive(Clone, Copy, Debug, PartialEq, Eq, PartialOrd, Ord, Hash, Structural)]
pub struct Pts(pub i64);

impl From<i64> for Pts {
    fn from(value: i64) -> (r: Pts) {
        Pts(value)
    }
}

impl FromSpecImpl<i64> for Pts {
    open spec fn obeys_from_spec() -> bool {
        true
    }

    open spec fn from_spec(value: i64) -> Pts {
        Pts(value)
    }
}

impl From<Pts> for i64 {
    fn from(pts: Pts) -> (r: i64) {
        pts.0
    }
}

impl FromSpecImpl<Pts> for i64 {
    open spec fn obeys_from_spec() -> bool {
        true
    }

    open spec fn from_spec(pts: Pts) -> i64 {
        pts.0
    }
}

/// A length of time, in units of the time base of its stream.
#[derive(Clone, Copy, Debug, PartialEq, Eq, PartialOrd, Ord, Hash, Structural)]
pub struct MediaDuration(pub i64);

impl From<i64> for MediaDuration {
    fn from(value: i64) -> (r: MediaDuration) {
        MediaDuration(value)
    }
}

impl FromSpecImpl<i64> for MediaDuration {
    open spec fn obeys_from_spec() -> bool {
        true
    }

    open spec fn from_spec(value: i64) -> MediaDuration {
        MediaDuration(value)
    }
}

impl From<MediaDuration> for i64 {
    fn from(duration: MediaDuration) -> (r: i64) {
        duration.0
    }
}

impl FromSpecImpl<MediaDuration> for i64 {
    open spec fn obeys_from_spec() -> bool {
        true
    }

    open spec fn from_spec(duration: MediaDuration) -> i64 {
        duration.0
    }
}

} // verus!
