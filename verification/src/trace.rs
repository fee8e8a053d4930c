//! Whole frames, seen as the sequence of events that drives the cycle
//! through them, and what holds of every such sequence.

use crate::paint::{LoopExit, PaintAction, PaintEvent, PaintStep};
use crate::timing::elapsed_between;
use crate::window::TermWindowView;
use vstd::prelude::*;

verus! {

impl TermWindowView {
    /// The window after all of `events`, in order.
    pub open spec fn after_all(self, events: Seq<PaintEvent>) -> TermWindowView
        decreases events.len(),
    {
        if events.len() == 0 {
            self
        } else {
            self.after_all(events.drop_last()).after(events.last())
        }
    }

    /// The actions given in answer to `events`, one for each.
    pub open spec fn actions(self, events: Seq<PaintEvent>) -> Seq<PaintAction>
        decreases events.len(),
    {
        if events.len() == 0 {
            Seq::empty()
        } else {
            self.actions(events.drop_last()).push(
                self.after_all(events.drop_last()).action(events.last()),
            )
        }
    }

    /// Whether `events` is one frame of this window: the window is idle, the
    /// first event starts a frame, and the window is idle again after the
    /// last event and not before.
    pub open spec fn is_frame(self, events: Seq<PaintEvent>) -> bool {
        &&& self.phase is Idle
        &&& events.len() > 0
        &&& events[0] is FrameStart
        &&& self.after_all(events).phase is Idle
        &&& forall|i: int|
            0 < i < events.len() ==> !(#[trigger] self.after_all(events.take(i)).phase is Idle)
    }
}

/// Whether every pass reported in `events` was quiet: it neither ran out of
/// texture space, nor found the shape caches stale, nor grew the geometry.
pub open spec fn all_quiet(events: Seq<PaintEvent>) -> bool {
    forall|i: int|
        0 <= i < events.len() ==> (#[trigger] events[i] matches PaintEvent::PassFinished {
            outcome,
        } ==> outcome.is_quiet())
}

/// Number of geometry passes asked for by `actions`.
pub open spec fn builds(actions: Seq<PaintAction>) -> nat
    decreases actions.len(),
{
    if actions.len() == 0 {
        0
    } else {
        builds(actions.drop_last()) + if actions.last().next is Build {
            1nat
        } else {
            0nat
        }
    }
}

/// Number of draw calls asked for by `actions`.
pub open spec fn draws(actions: Seq<PaintAction>) -> nat
    decreases actions.len(),
{
    if actions.len() == 0 {
        0
    } else {
        draws(actions.drop_last()) + if actions.last().next is Draw {
            1nat
        } else {
            0nat
        }
    }
}

/// A timer is armed only in answer to the end of a frame of a focused window
/// that showed animated content, and only for the instant at which that
/// content is due, which is then the window's outstanding wake-up.
pub proof fn lemma_timer_only_after_focused_frame(window: TermWindowView, event: PaintEvent)
    ensures
        window.action(event).next matches PaintStep::ArmTimer { at } ==> {
            &&& window.phase is Drawing
            &&& event matches PaintEvent::FrameDrawn { animation_due, window_focused, .. }
            &&& window_focused
            &&& animation_due == Some(at)
            &&& window.after(event).scheduler.pending_wake == Some(at)
        },
{
}

/// A recreation of the atlas that failed is answered with one step down the
/// fidelity ladder, and with the end of the loop when the ladder has no step
/// left. The overlay caches are dropped either way.
pub proof fn lemma_failed_recreation_steps_down(window: TermWindowView)
    requires
        window.phase is Recreating,
    ensures
        ({
            let event = PaintEvent::AtlasRecreated { ok: false };
            let answer = window.action(event);
            let reached = window.after(event);
            &&& answer.invalidate_overlays
            &&& window.allow_images.rank() > 0 ==> {
                &&& Some(reached.allow_images) == window.allow_images.lower()
                &&& reached.allow_images.rank() + 1 == window.allow_images.rank()
                &&& answer.next == PaintStep::Build { fidelity: reached.allow_images }
                    || answer.next == PaintStep::Draw { exit: LoopExit::PassLimit }
            }
            &&& window.allow_images.rank() == 0 ==> {
                &&& reached.allow_images == window.allow_images
                &&& reached.phase is Drawing
                &&& answer.next == PaintStep::Draw { exit: LoopExit::LadderExhausted }
            }
        }),
{
}

/// What holds in the middle of a frame, after its first `n` events.
proof fn lemma_frame_prefix(window: TermWindowView, events: Seq<PaintEvent>, n: int)
    requires
        window.valid(),
        window.phase is Idle,
        0 < n <= events.len(),
        forall|i: int|
            0 < i <= n ==> !(#[trigger] window.after_all(events.take(i)).phase is Idle),
    ensures
        ({
            let reached = window.after_all(events.take(n));
            let asked = window.actions(events.take(n));
            &&& reached.pass_limit == window.pass_limit
            &&& reached.pass < reached.pass_limit
            &&& builds(asked) == reached.pass + 1
            &&& draws(asked) == if reached.phase is Drawing {
                1nat
            } else {
                0nat
            }
            &&& all_quiet(events.take(n)) ==> reached.pass == 0 && !(reached.phase is Recreating)
            &&& events[0] matches PaintEvent::FrameStart { now } && reached.frame_start == now
        }),
    decreases n,
{
    let prefix = events.take(n);
    let before = events.take(n - 1);
    assert(prefix.drop_last() =~= before);
    assert(prefix.last() == events[n - 1]);
    if n == 1 {
        assert(before =~= Seq::<PaintEvent>::empty());
        assert(window.after_all(before) == window);
        assert(window.actions(before) =~= Seq::<PaintAction>::empty());
        assert(builds(window.actions(before)) == 0);
        assert(draws(window.actions(before)) == 0);
        assert(window.actions(prefix).drop_last() =~= window.actions(before));
    } else {
        assert forall|i: int| 0 < i <= n - 1 implies !(#[trigger] window.after_all(
            events.take(i),
        ).phase is Idle) by {}
        lemma_frame_prefix(window, events, n - 1);
        assert(window.actions(prefix).drop_last() =~= window.actions(before));
        if all_quiet(prefix) {
            assert forall|i: int| 0 <= i < before.len() implies (#[trigger] before[i] matches
                PaintEvent::PassFinished { outcome } ==> outcome.is_quiet()) by {
                assert(before[i] == prefix[i]);
            }
            assert(prefix[n - 1] == events[n - 1]);
        }
    }
}

/// Every frame asks for the draw call exactly once, and for at least one
/// geometry pass and no more passes than the window's limit allows.
pub proof fn lemma_frame_draws_once(window: TermWindowView, events: Seq<PaintEvent>)
    requires
        window.valid(),
        window.is_frame(events),
    ensures
        draws(window.actions(events)) == 1,
        1 <= builds(window.actions(events)) <= window.pass_limit,
{
    lemma_frame_end(window, events);
}

/// A frame in which every pass was quiet asks for exactly one geometry pass
/// and exactly one draw call.
pub proof fn lemma_quiet_frame_builds_once(window: TermWindowView, events: Seq<PaintEvent>)
    requires
        window.valid(),
        window.is_frame(events),
        all_quiet(events),
    ensures
        builds(window.actions(events)) == 1,
        draws(window.actions(events)) == 1,
{
    lemma_frame_end(window, events);
}

/// Every frame ends with the report that the draw call has returned, and
/// the time from the start of the frame to that report is then on record as
/// the duration of the last frame.
pub proof fn lemma_frame_is_timed(window: TermWindowView, events: Seq<PaintEvent>)
    requires
        window.valid(),
        window.is_frame(events),
    ensures
        events[0] matches PaintEvent::FrameStart { now: begin } && events.last() matches
            PaintEvent::FrameDrawn { now: end, .. } && window.after_all(
            events,
        ).timing.last_frame_duration == elapsed_between(begin, end),
{
    lemma_frame_end(window, events);
}

/// Within a frame the fidelity only ever goes down the ladder: no event but
/// the start of a frame raises it.
pub proof fn lemma_fidelity_only_falls(window: TermWindowView, event: PaintEvent)
    requires
        !(event is FrameStart),
    ensures
        window.after(event).allow_images.rank() <= window.allow_images.rank(),
        window.allow_images.on_ladder() ==> window.after(event).allow_images.on_ladder(),
{
}

/// What holds at the end of a frame.
proof fn lemma_frame_end(window: TermWindowView, events: Seq<PaintEvent>)
    requires
        window.valid(),
        window.is_frame(events),
    ensures
        draws(window.actions(events)) == 1,
        1 <= builds(window.actions(events)) <= window.pass_limit,
        all_quiet(events) ==> builds(window.actions(events)) == 1,
        events[0] matches PaintEvent::FrameStart { now: begin } && events.last() matches
            PaintEvent::FrameDrawn { now: end, .. } && window.after_all(
            events,
        ).timing.last_frame_duration == elapsed_between(begin, end),
{
    let n = events.len() as int;
    let before = events.drop_last();
    assert(before =~= events.take(n - 1));
    assert(window.actions(events).drop_last() =~= window.actions(before));
    if n > 1 {
        lemma_frame_prefix(window, events, n - 1);
        if all_quiet(events) {
            assert forall|i: int| 0 <= i < before.len() implies (#[trigger] before[i] matches
                PaintEvent::PassFinished { outcome } ==> outcome.is_quiet()) by {
                assert(before[i] == events[i]);
            }
        }
    }
}

} // verus!
