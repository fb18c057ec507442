//! Frame timing over readings of a monotonic clock.
//!
//! The clock is read by the embedding program. A reading is a count of
//! nanoseconds since some fixed moment; all the arithmetic on readings is
//! here.

use vstd::prelude::*;

verus! {

/// The nanoseconds from `earlier` to `later`, or none if `later` is not
/// later.
pub open spec fn nanos_between(earlier: u64, later: u64) -> u64 {
    if later >= earlier {
        (later - earlier) as u64
    } else {
        0
    }
}

/// What a frame timer holds, as a mathematical value.
pub struct TimeView {
    /// The reading at the last update, or at the start before the first.
    pub last_frame: u64,
    /// The nanoseconds between the last two updates.
    pub delta_time: u64,
    /// The reading at the start.
    pub start_time: u64,
}

/// A frame timer.
#[derive(Clone, Copy, Debug, PartialEq, Eq)]
pub struct Time {
    last_frame: u64,
    delta_time: u64,
    start_time: u64,
}

impl View for Time {
    type V = TimeView;

    closed spec fn view(&self) -> TimeView {
        TimeView {
            last_frame: self.last_frame,
            delta_time: self.delta_time,
            start_time: self.start_time,
        }
    }
}

impl Time {
    /// A timer started at the reading `now`, with no time between frames
    /// yet.
    pub fn new(now: u64) -> (time: Time)
        ensures
            time@ == (TimeView { last_frame: now, delta_time: 0, start_time: now }),
    {
        Time { last_frame: now, delta_time: 0, start_time: now }
    }

    /// Marks a new frame at the reading `now`: the time between frames
    /// becomes the time since the last mark, and none if the clock has not
    /// moved on.
    pub fn update(&mut self, now: u64)
        ensures
            final(self)@ == (TimeView {
                last_frame: now,
                delta_time: nanos_between(old(self)@.last_frame, now),
                start_time: old(self)@.start_time,
            }),
    {
        self.delta_time = Self::between(self.last_frame, now);
        self.last_frame = now;
    }

    /// The nanoseconds between the last two frames.
    pub fn delta_time(&self) -> (nanos: u64)
        ensures
            nanos == self@.delta_time,
    {
        self.delta_time
    }

    /// The nanoseconds from the start of the timer to the reading `now`.
    pub fn elapsed_time(&self, now: u64) -> (nanos: u64)
        ensures
            nanos == nanos_between(self@.start_time, now),
    {
        Self::between(self.start_time, now)
    }

    fn between(earlier: u64, later: u64) -> (nanos: u64)
        ensures
            nanos == nanos_between(earlier, later),
    {
        if later >= earlier {
            later - earlier
        } else {
            0
        }
    }
}

} // verus!
