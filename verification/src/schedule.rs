//! Scheduling of the one wake-up that keeps animated content moving.

use vstd::prelude::*;

verus! {

/// The wake-up, if any, that has been arranged for a window and has not
/// fired yet. At most one is outstanding at a time.
#[derive(Debug, Clone, Copy, PartialEq, Eq, Structural)]
pub struct AnimationScheduler {
    /// Instant of the outstanding wake-up.
    pub pending_wake: Option<u64>,
}

impl AnimationScheduler {
    /// Whether a frame that ended with animation due at `due` needs a new
    /// timer: the window is focused, something is due, and no wake-up at or
    /// before that instant is outstanding.
    pub open spec fn must_arm(self, due: Option<u64>, window_focused: bool) -> bool {
        &&& window_focused
        &&& due is Some
        &&& (self.pending_wake matches Some(pending) ==> pending > due->0)
    }

    /// The scheduler after such a frame.
    pub open spec fn after_frame(
        self,
        due: Option<u64>,
        window_focused: bool,
    ) -> AnimationScheduler {
        if self.must_arm(due, window_focused) {
            AnimationScheduler { pending_wake: due }
        } else {
            self
        }
    }

    /// The timer to arm after such a frame.
    pub open spec fn timer_for(self, due: Option<u64>, window_focused: bool) -> Option<u64> {
        if self.must_arm(due, window_focused) {
            due
        } else {
            None
        }
    }

    /// A scheduler with nothing outstanding.
    pub fn new() -> (scheduler: AnimationScheduler)
        ensures
            scheduler.pending_wake is None,
    {
        AnimationScheduler { pending_wake: None }
    }

    /// Decides, at the end of a frame, whether to arm a one-shot timer.
    ///
    /// `due` is the instant by which animated content must be repainted, if
    /// there is any. Returns the instant to arm a timer for, or `None` when
    /// no timer is to be armed.
    ///
    /// An unfocused window never arms a timer. A wake-up that is already
    /// outstanding at or before `due` is kept and nothing new is armed. In
    /// every other case with something due, `due` becomes the outstanding
    /// wake-up and exactly that one timer is armed.
    pub fn on_frame_complete(
        &mut self,
        due: Option<u64>,
        window_focused: bool,
    ) -> (arm: Option<u64>)
        ensures
            *final(self) == old(self).after_frame(due, window_focused),
            arm == old(self).timer_for(due, window_focused),
            !window_focused || due is None ==> arm is None && *final(self) == *old(self),
            window_focused && due is Some && (old(self).pending_wake matches Some(pending)
                && pending <= due->0) ==> arm is None && *final(self) == *old(self),
            window_focused && due is Some && !(old(self).pending_wake matches Some(pending)
                && pending <= due->0) ==> arm == due && final(self).pending_wake == due,
    {
        if !window_focused {
            return None;
        }
        match due {
            None => None,
            Some(next_due) => {
                match self.pending_wake {
                    Some(pending) if pending <= next_due => None,
                    _ => {
                        self.pending_wake = Some(next_due);
                        Some(next_due)
                    },
                }
            },
        }
    }

    /// Handles the firing of the timer: nothing is outstanding any more. The
    /// caller then asks for the window to be repainted.
    pub fn on_timer_fired(&mut self)
        ensures
            final(self).pending_wake is None,
    {
        self.pending_wake = None;
    }
}

/// An unfocused window never arms a timer and keeps its outstanding wake-up
/// as it is, whatever is due, be it in the past or in the future.
pub proof fn lemma_unfocused_never_arms(scheduler: AnimationScheduler, due: Option<u64>)
    ensures
        scheduler.timer_for(due, false) is None,
        scheduler.after_frame(due, false) == scheduler,
{
}

/// With a wake-up outstanding at `pending`, a focused frame with animation
/// due at `due` changes nothing and arms nothing if `due` is not before
/// `pending`; if it is before, `due` takes the place of `pending` and is the
/// one timer armed.
pub proof fn lemma_outstanding_wake_dedups(pending: u64, due: u64)
    ensures
        ({
            let scheduler = AnimationScheduler { pending_wake: Some(pending) };
            &&& due >= pending ==> scheduler.timer_for(Some(due), true) is None
                && scheduler.after_frame(Some(due), true) == scheduler
            &&& due < pending ==> scheduler.timer_for(Some(due), true) == Some(due)
                && scheduler.after_frame(Some(due), true).pending_wake == Some(due)
        }),
{
}

/// Whenever a timer is armed, it is armed for the wake-up that is then
/// outstanding, and no wake-up at or before that instant was outstanding
/// before.
pub proof fn lemma_armed_timer_is_outstanding(
    scheduler: AnimationScheduler,
    due: Option<u64>,
    window_focused: bool,
)
    ensures
        scheduler.timer_for(due, window_focused) matches Some(at) ==> window_focused && due
            == Some(at) && scheduler.after_frame(due, window_focused).pending_wake == Some(at)
            && (scheduler.pending_wake matches Some(pending) ==> at < pending),
{
}

} // verus!
