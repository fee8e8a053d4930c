//! Rolling frame-rate measurement.
//!
//! Instants are `u64` nanosecond counts on a monotonic clock whose origin the
//! caller chooses; durations are `u64` nanoseconds.

use vstd::prelude::*;

verus! {

/// Nanoseconds in one second: the shortest window over which a frame rate
/// is averaged.
pub const NANOS_PER_SECOND: u64 = 1_000_000_000;

/// A frame rate kept as an exact ratio: `frames` frames were counted over a
/// window of `elapsed_nanos` nanoseconds.
///
/// A window of zero length means that nothing has been measured yet.
#[derive(Debug, Clone, Copy, PartialEq, Eq, Structural)]
pub struct FpsEstimate {
    pub frames: u64,
    pub elapsed_nanos: u64,
}

/// Time from `earlier` to `later`, or zero when `later` is not after `earlier`.
pub open spec fn elapsed_between(earlier: u64, later: u64) -> u64 {
    if later >= earlier {
        (later - earlier) as u64
    } else {
        0
    }
}

/// Frame cadence of one window, carried across frames.
#[derive(Debug, Clone, Copy, PartialEq, Eq, Structural)]
pub struct FrameTimingState {
    /// Frames counted since the estimate was last recomputed.
    pub frame_count_since_check: u64,
    /// Instant at which the estimate was last recomputed.
    pub last_check_time: u64,
    /// The most recent window-averaged frame rate.
    pub fps_estimate: FpsEstimate,
    /// How long the most recent frame took from start to the end of its draw.
    pub last_frame_duration: u64,
}

impl FrameTimingState {
    /// The state after one more frame has been counted.
    pub open spec fn counted(self) -> FrameTimingState {
        FrameTimingState {
            frame_count_since_check: (self.frame_count_since_check + 1) as u64,
            ..self
        }
    }

    /// Whether the averaging window is over at `now`: strictly more than one
    /// second has passed since the estimate was last recomputed.
    pub open spec fn refresh_due(self, now: u64) -> bool {
        elapsed_between(self.last_check_time, now) > NANOS_PER_SECOND
    }

    /// The state after looking at the clock at `now`.
    pub open spec fn refreshed(self, now: u64) -> FrameTimingState {
        if self.refresh_due(now) {
            FrameTimingState {
                frame_count_since_check: 0,
                last_check_time: now,
                fps_estimate: FpsEstimate {
                    frames: self.frame_count_since_check,
                    elapsed_nanos: elapsed_between(self.last_check_time, now),
                },
                last_frame_duration: self.last_frame_duration,
            }
        } else {
            self
        }
    }

    /// The state after a frame that began at `started` finished at `finished`.
    pub open spec fn timed(self, started: u64, finished: u64) -> FrameTimingState {
        FrameTimingState { last_frame_duration: elapsed_between(started, finished), ..self }
    }

    /// The tracker that has seen no frame yet and whose first window opens
    /// at `now`.
    pub open spec fn new_at(now: u64) -> FrameTimingState {
        FrameTimingState {
            frame_count_since_check: 0,
            last_check_time: now,
            fps_estimate: FpsEstimate { frames: 0, elapsed_nanos: 0 },
            last_frame_duration: 0,
        }
    }

    /// A tracker that has seen no frame yet and whose first window opens at
    /// `now`.
    pub fn new(now: u64) -> (state: FrameTimingState)
        ensures
            state == FrameTimingState::new_at(now),
    {
        FrameTimingState {
            frame_count_since_check: 0,
            last_check_time: now,
            fps_estimate: FpsEstimate { frames: 0, elapsed_nanos: 0 },
            last_frame_duration: 0,
        }
    }

    /// Counts one more frame.
    pub fn record_frame(&mut self)
        requires
            old(self).frame_count_since_check < u64::MAX,
        ensures
            *final(self) == old(self).counted(),
            final(self).frame_count_since_check == old(self).frame_count_since_check + 1,
    {
        self.frame_count_since_check = self.frame_count_since_check + 1;
    }

    /// Recomputes the estimate when the averaging window is over.
    ///
    /// If strictly more than one second has passed since the last
    /// recomputation, the estimate becomes the frames counted over the time
    /// elapsed, the count restarts at zero and a new window opens at `now`.
    /// Otherwise nothing changes. Returns whether the estimate was
    /// recomputed.
    pub fn maybe_refresh(&mut self, now: u64) -> (recomputed: bool)
        ensures
            recomputed <==> now - old(self).last_check_time > NANOS_PER_SECOND,
            recomputed == old(self).refresh_due(now),
            *final(self) == old(self).refreshed(now),
            recomputed ==> final(self).frame_count_since_check == 0
                && final(self).last_check_time == now
                && final(self).fps_estimate.frames == old(self).frame_count_since_check
                && final(self).fps_estimate.elapsed_nanos == now - old(self).last_check_time,
            !recomputed ==> *final(self) == *old(self),
    {
        let elapsed: u64 = if now >= self.last_check_time {
            now - self.last_check_time
        } else {
            0
        };
        if elapsed > NANOS_PER_SECOND {
            self.fps_estimate = FpsEstimate {
                frames: self.frame_count_since_check,
                elapsed_nanos: elapsed,
            };
            self.frame_count_since_check = 0;
            self.last_check_time = now;
            true
        } else {
            false
        }
    }

    /// Records how long the frame that began at `started` took, given that
    /// its draw returned at `finished`.
    pub fn record_duration(&mut self, started: u64, finished: u64)
        ensures
            *final(self) == old(self).timed(started, finished),
    {
        self.last_frame_duration = if finished >= started {
            finished - started
        } else {
            0
        };
    }
}

} // verus!
