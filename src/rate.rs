use vstd::prelude::*;

verus! {

/// The frame counter and arrival time of the last frame, on a monotonic
/// clock in nanoseconds. The smoothed rate itself is floating point and is
/// kept by the caller, which folds in each interval that `observe` returns.
pub struct RateState {
    pub frame_count: u64,
    pub last_timestamp: Option<u64>,
}

/// The interval that an observation at `now` yields after one at `last`:
/// only a strictly positive one counts as a rate sample.
pub open spec fn sample_of(last: Option<u64>, now: u64) -> Option<u64> {
    match last {
        Some(t) => if now > t {
            Some((now - t) as u64)
        } else {
            None
        },
        None => None,
    }
}

impl RateState {
    /// No frame seen yet.
    pub fn new() -> (r: RateState)
        ensures
            r.frame_count == 0,
            r.last_timestamp is None,
    {
        RateState { frame_count: 0, last_timestamp: None }
    }

    /// Records a frame arriving at `now`: counts it, remembers `now`, and
    /// returns the interval since the previous frame when there was one and
    /// it is positive (the smoothed rate moves only then).
    pub fn observe(&mut self, now: u64) -> (r: Option<u64>)
        requires
            old(self).frame_count < u64::MAX,
        ensures
            final(self).frame_count == old(self).frame_count + 1,
            final(self).last_timestamp == Some(now),
            r == sample_of(old(self).last_timestamp, now),
    {
        self.frame_count = self.frame_count + 1;
        let sample = match self.last_timestamp {
            Some(t) => if now > t {
                Some(now - t)
            } else {
                None
            },
            None => None,
        };
        self.last_timestamp = Some(now);
        sample
    }
}

} // verus!
