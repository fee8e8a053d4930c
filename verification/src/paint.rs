//! The frame cycle: one repaint of the window, from the request to paint
//! until the draw call has been issued and the next wake-up is arranged.
//!
//! The cycle is written as a transition function. The window's owner
//! performs the work that each [`PaintAction`] names (building geometry,
//! recreating the texture atlas, issuing the draw call, arming a timer) and
//! reports back with the next [`PaintEvent`].

use crate::fidelity::AllowImage;
use crate::outcome::RetryOutcome;
use crate::schedule::AnimationScheduler;
use crate::window::{PaintPhase, TermWindow, TermWindowView};
use vstd::prelude::*;

verus! {

/// Something that happened, as told to the frame cycle.
#[derive(Debug, Clone, Copy, PartialEq, Eq, Structural)]
pub enum PaintEvent {
    /// The window is to be repainted; `now` is the current instant.
    FrameStart { now: u64 },
    /// The geometry pass that was asked for has ended.
    PassFinished { outcome: RetryOutcome },
    /// The atlas recreation that was asked for has ended.
    AtlasRecreated { ok: bool },
    /// The draw call has returned, whether or not it succeeded. `now` is the
    /// current instant, `animation_due` the instant by which animated
    /// content must be repainted, if the frame showed any.
    FrameDrawn { now: u64, animation_due: Option<u64>, window_focused: bool },
    /// The wake-up timer has fired.
    WakeFired,
}

/// Why the render loop of a frame ended.
#[derive(Debug, Clone, Copy, PartialEq, Eq, Structural)]
pub enum LoopExit {
    /// A pass produced complete geometry.
    Complete,
    /// A pass failed for a reason that a retry cannot help.
    PassFailed,
    /// The atlas could not be recreated and there is no lower fidelity left.
    LadderExhausted,
    /// The frame has used up its passes.
    PassLimit,
}

/// The work that the frame cycle asks for next.
#[derive(Debug, Clone, Copy, PartialEq, Eq, Structural)]
pub enum PaintStep {
    /// Build the frame's geometry at this fidelity.
    Build { fidelity: AllowImage },
    /// Recreate the texture atlas at this size.
    RecreateAtlas { size: usize },
    /// Issue the draw call with whatever geometry there is.
    Draw { exit: LoopExit },
    /// Arm a one-shot timer for this instant; the frame is over.
    ArmTimer { at: u64 },
    /// Nothing; the frame is over.
    Rest,
    /// Ask for the window to be repainted.
    RequestRepaint,
    /// The event did not fit what the cycle was waiting for, and changed
    /// nothing.
    Ignored,
}

/// What the owner of the window does in answer to an event: first the
/// housekeeping that the flags name, then the step.
#[derive(Debug, Clone, Copy, PartialEq, Eq, Structural)]
pub struct PaintAction {
    /// Forget what the previous frame left behind: its animation due time
    /// and its record of what was drawn where.
    pub fresh_frame: bool,
    /// Drop the cached geometry of the tab bar and of the modal overlay.
    pub invalidate_overlays: bool,
    /// Drop the shape-derived caches.
    pub clear_shape_caches: bool,
    /// The work to do after that.
    pub next: PaintStep,
}

impl PaintAction {
    /// The action that asks for a step and no housekeeping.
    pub open spec fn only(next: PaintStep) -> PaintAction {
        PaintAction {
            fresh_frame: false,
            invalidate_overlays: false,
            clear_shape_caches: false,
            next,
        }
    }

    /// The action that drops the overlay caches and then asks for a step.
    pub open spec fn invalidating(next: PaintStep) -> PaintAction {
        PaintAction {
            fresh_frame: false,
            invalidate_overlays: true,
            clear_shape_caches: false,
            next,
        }
    }
}

impl TermWindowView {
    /// Whether the frame has a pass left after the one in progress.
    pub open spec fn may_retry(self) -> bool {
        self.pass + 1 < self.pass_limit
    }

    /// The window once another pass has been decided on, if the frame has
    /// one left; else the window on its way to the draw call.
    pub open spec fn retried(self) -> TermWindowView {
        if self.may_retry() {
            TermWindowView { pass: (self.pass + 1) as usize, phase: PaintPhase::Building, ..self }
        } else {
            TermWindowView { phase: PaintPhase::Drawing, ..self }
        }
    }

    /// The step that goes with `retried`.
    pub open spec fn retry_step(self) -> PaintStep {
        if self.may_retry() {
            PaintStep::Build { fidelity: self.allow_images }
        } else {
            PaintStep::Draw { exit: LoopExit::PassLimit }
        }
    }

    /// The atlas size to ask for when a pass ran out of texture space: on
    /// the first pass of a frame the size that the atlas already has, which
    /// only clears it; on a later pass the size that would have had room.
    pub open spec fn recovery_size(self, requested: usize, current: usize) -> usize {
        if self.pass == 0 {
            current
        } else {
            requested
        }
    }

    /// The window after `FrameStart` arrived while it was idle.
    pub open spec fn started(self, now: u64) -> TermWindowView {
        TermWindowView {
            phase: PaintPhase::Building,
            pass: 0,
            allow_images: AllowImage::Yes,
            frame_start: now,
            timing: self.timing.counted().refreshed(now),
            ..self
        }
    }

    /// The window after `PassFinished` arrived while a pass was running.
    pub open spec fn after_pass(self, outcome: RetryOutcome) -> TermWindowView {
        match outcome {
            RetryOutcome::Success { geometry_grew } => if geometry_grew {
                self.retried()
            } else {
                TermWindowView { phase: PaintPhase::Drawing, ..self }
            },
            RetryOutcome::ResourceExhausted { .. } => TermWindowView {
                phase: PaintPhase::Recreating,
                ..self
            },
            RetryOutcome::CacheStale => TermWindowView {
                shape_generation: (self.shape_generation + 1) as usize,
                ..self
            }.retried(),
            RetryOutcome::OtherFailure => TermWindowView { phase: PaintPhase::Drawing, ..self },
        }
    }

    /// The action after `PassFinished` arrived while a pass was running.
    pub open spec fn pass_action(self, outcome: RetryOutcome) -> PaintAction {
        match outcome {
            RetryOutcome::Success { geometry_grew } => if geometry_grew {
                PaintAction::invalidating(self.retry_step())
            } else {
                PaintAction::only(PaintStep::Draw { exit: LoopExit::Complete })
            },
            RetryOutcome::ResourceExhausted { requested, current } => PaintAction::only(
                PaintStep::RecreateAtlas { size: self.recovery_size(requested, current) },
            ),
            RetryOutcome::CacheStale => PaintAction {
                fresh_frame: false,
                invalidate_overlays: true,
                clear_shape_caches: true,
                next: self.retry_step(),
            },
            RetryOutcome::OtherFailure => PaintAction::only(
                PaintStep::Draw { exit: LoopExit::PassFailed },
            ),
        }
    }

    /// The window after `AtlasRecreated` arrived while the atlas was being
    /// recreated.
    pub open spec fn after_atlas(self, ok: bool) -> TermWindowView {
        if ok {
            self.retried()
        } else {
            match self.allow_images.lower() {
                Some(lower) => TermWindowView { allow_images: lower, ..self }.retried(),
                None => TermWindowView { phase: PaintPhase::Drawing, ..self },
            }
        }
    }

    /// The action after `AtlasRecreated` arrived while the atlas was being
    /// recreated.
    pub open spec fn atlas_action(self, ok: bool) -> PaintAction {
        if ok {
            PaintAction::invalidating(self.retry_step())
        } else {
            match self.allow_images.lower() {
                Some(lower) => PaintAction::invalidating(
                    TermWindowView { allow_images: lower, ..self }.retry_step(),
                ),
                None => PaintAction::invalidating(
                    PaintStep::Draw { exit: LoopExit::LadderExhausted },
                ),
            }
        }
    }

    /// The window after `FrameDrawn` arrived while the draw call was being
    /// issued.
    pub open spec fn drawn(
        self,
        now: u64,
        animation_due: Option<u64>,
        window_focused: bool,
    ) -> TermWindowView {
        TermWindowView {
            phase: PaintPhase::Idle,
            timing: self.timing.timed(self.frame_start, now),
            scheduler: self.scheduler.after_frame(animation_due, window_focused),
            ..self
        }
    }

    /// The step after `FrameDrawn` arrived while the draw call was being
    /// issued.
    pub open spec fn drawn_step(
        self,
        animation_due: Option<u64>,
        window_focused: bool,
    ) -> PaintStep {
        match self.scheduler.timer_for(animation_due, window_focused) {
            Some(at) => PaintStep::ArmTimer { at },
            None => PaintStep::Rest,
        }
    }

    /// The window after `WakeFired`.
    pub open spec fn woken(self) -> TermWindowView {
        TermWindowView { scheduler: AnimationScheduler { pending_wake: None }, ..self }
    }

    /// Whether the cycle is waiting for `event`. The wake-up timer may fire
    /// at any time.
    pub open spec fn accepts(self, event: PaintEvent) -> bool {
        match event {
            PaintEvent::FrameStart { .. } => self.phase is Idle,
            PaintEvent::PassFinished { .. } => self.phase is Building,
            PaintEvent::AtlasRecreated { .. } => self.phase is Recreating,
            PaintEvent::FrameDrawn { .. } => self.phase is Drawing,
            PaintEvent::WakeFired => true,
        }
    }

    /// The window after `event`.
    pub open spec fn after(self, event: PaintEvent) -> TermWindowView {
        if !self.accepts(event) {
            self
        } else {
            match event {
                PaintEvent::FrameStart { now } => self.started(now),
                PaintEvent::PassFinished { outcome } => self.after_pass(outcome),
                PaintEvent::AtlasRecreated { ok } => self.after_atlas(ok),
                PaintEvent::FrameDrawn { now, animation_due, window_focused } => self.drawn(
                    now,
                    animation_due,
                    window_focused,
                ),
                PaintEvent::WakeFired => self.woken(),
            }
        }
    }

    /// The action in answer to `event`.
    pub open spec fn action(self, event: PaintEvent) -> PaintAction {
        if !self.accepts(event) {
            PaintAction::only(PaintStep::Ignored)
        } else {
            match event {
                PaintEvent::FrameStart { .. } => PaintAction {
                    fresh_frame: true,
                    invalidate_overlays: false,
                    clear_shape_caches: false,
                    next: PaintStep::Build { fidelity: AllowImage::Yes },
                },
                PaintEvent::PassFinished { outcome } => self.pass_action(outcome),
                PaintEvent::AtlasRecreated { ok } => self.atlas_action(ok),
                PaintEvent::FrameDrawn { animation_due, window_focused, .. } => PaintAction::only(
                    self.drawn_step(animation_due, window_focused),
                ),
                PaintEvent::WakeFired => PaintAction::only(PaintStep::RequestRepaint),
            }
        }
    }

    /// Whether `event` can be handled without a counter leaving its range.
    pub open spec fn in_range(self, event: PaintEvent) -> bool {
        match event {
            PaintEvent::FrameStart { .. } => self.phase is Idle
                ==> self.timing.frame_count_since_check < u64::MAX,
            PaintEvent::PassFinished { outcome } => self.phase is Building && outcome is CacheStale
                ==> self.shape_generation < usize::MAX,
            _ => true,
        }
    }
}

impl TermWindow {
    /// Decides on another pass: takes it if the frame has one left, else
    /// goes on to the draw call.
    fn retry(&mut self) -> (step: PaintStep)
        ensures
            final(self)@ == old(self)@.retried(),
            step == old(self)@.retry_step(),
    {
        if self.pass < self.pass_limit && self.pass_limit - self.pass > 1 {
            self.pass = self.pass + 1;
            self.phase = PaintPhase::Building;
            PaintStep::Build { fidelity: self.allow_images }
        } else {
            self.phase = PaintPhase::Drawing;
            PaintStep::Draw { exit: LoopExit::PassLimit }
        }
    }

    /// Advances the repaint cycle by one event and says what to do next.
    ///
    /// A frame runs like this. `FrameStart` counts the frame, refreshes the
    /// frame-rate estimate, resets the fidelity to full and asks for a first
    /// pass. Each `PassFinished` either ends the loop (complete geometry, or
    /// a failure that a retry cannot help), asks for the atlas to be
    /// recreated (texture space ran out), or asks for another pass after
    /// dropping stale caches (geometry grew, or shape caches are stale).
    /// `AtlasRecreated` asks for another pass, one step down the fidelity
    /// ladder if the recreation failed, and ends the loop if the ladder has
    /// no step left. However the loop ends, the draw call is asked for once.
    /// `FrameDrawn` records how long the frame took and arms at most one
    /// timer for animated content. `WakeFired` clears the outstanding
    /// wake-up and asks for a repaint.
    ///
    /// An event that the cycle is not waiting for changes nothing and is
    /// answered with `Ignored`.
    ///
    /// The frame counter and the shape-cache generation must have room for
    /// the one that the event may add to them; `can_handle` tells.
    pub fn paint_impl(&mut self, event: PaintEvent) -> (action: PaintAction)
        requires
            old(self)@.in_range(event),
        ensures
            final(self)@ == old(self)@.after(event),
            action == old(self)@.action(event),
            old(self)@.valid() ==> final(self)@.valid(),
    {
        match event {
            PaintEvent::FrameStart { now } => {
                if self.phase != PaintPhase::Idle {
                    return Self::ignored();
                }
                self.timing.record_frame();
                self.timing.maybe_refresh(now);
                self.allow_images = AllowImage::Yes;
                self.frame_start = now;
                self.pass = 0;
                self.phase = PaintPhase::Building;
                PaintAction {
                    fresh_frame: true,
                    invalidate_overlays: false,
                    clear_shape_caches: false,
                    next: PaintStep::Build { fidelity: AllowImage::Yes },
                }
            },
            PaintEvent::PassFinished { outcome } => {
                if self.phase != PaintPhase::Building {
                    return Self::ignored();
                }
                match outcome {
                    RetryOutcome::Success { geometry_grew } => {
                        if geometry_grew {
                            let next = self.retry();
                            PaintAction {
                                fresh_frame: false,
                                invalidate_overlays: true,
                                clear_shape_caches: false,
                                next,
                            }
                        } else {
                            self.phase = PaintPhase::Drawing;
                            Self::plain(PaintStep::Draw { exit: LoopExit::Complete })
                        }
                    },
                    RetryOutcome::ResourceExhausted { requested, current } => {
                        let size: usize = if self.pass == 0 {
                            current
                        } else {
                            requested
                        };
                        self.phase = PaintPhase::Recreating;
                        Self::plain(PaintStep::RecreateAtlas { size })
                    },
                    RetryOutcome::CacheStale => {
                        self.shape_generation = self.shape_generation + 1;
                        let next = self.retry();
                        PaintAction {
                            fresh_frame: false,
                            invalidate_overlays: true,
                            clear_shape_caches: true,
                            next,
                        }
                    },
                    RetryOutcome::OtherFailure => {
                        self.phase = PaintPhase::Drawing;
                        Self::plain(PaintStep::Draw { exit: LoopExit::PassFailed })
                    },
                }
            },
            PaintEvent::AtlasRecreated { ok } => {
                if self.phase != PaintPhase::Recreating {
                    return Self::ignored();
                }
                let next = if ok {
                    self.retry()
                } else {
                    match crate::fidelity::step_down(self.allow_images) {
                        Some(lower) => {
                            self.allow_images = lower;
                            self.retry()
                        },
                        None => {
                            self.phase = PaintPhase::Drawing;
                            PaintStep::Draw { exit: LoopExit::LadderExhausted }
                        },
                    }
                };
                PaintAction {
                    fresh_frame: false,
                    invalidate_overlays: true,
                    clear_shape_caches: false,
                    next,
                }
            },
            PaintEvent::FrameDrawn { now, animation_due, window_focused } => {
                if self.phase != PaintPhase::Drawing {
                    return Self::ignored();
                }
                self.timing.record_duration(self.frame_start, now);
                let arm = self.scheduler.on_frame_complete(animation_due, window_focused);
                self.phase = PaintPhase::Idle;
                match arm {
                    Some(at) => Self::plain(PaintStep::ArmTimer { at }),
                    None => Self::plain(PaintStep::Rest),
                }
            },
            PaintEvent::WakeFired => {
                self.scheduler.on_timer_fired();
                Self::plain(PaintStep::RequestRepaint)
            },
        }
    }

    /// Whether `event` can be handled now without a counter leaving its
    /// range.
    pub fn can_handle(&self, event: &PaintEvent) -> (ok: bool)
        ensures
            ok == self@.in_range(*event),
    {
        match event {
            PaintEvent::FrameStart { .. } => self.phase != PaintPhase::Idle
                || self.timing.frame_count_since_check < u64::MAX,
            PaintEvent::PassFinished { outcome } => match outcome {
                RetryOutcome::CacheStale => self.phase != PaintPhase::Building
                    || self.shape_generation < usize::MAX,
                _ => true,
            },
            _ => true,
        }
    }

    /// The action that asks for `next` and no housekeeping.
    fn plain(next: PaintStep) -> (action: PaintAction)
        ensures
            action == PaintAction::only(next),
    {
        PaintAction {
            fresh_frame: false,
            invalidate_overlays: false,
            clear_shape_caches: false,
            next,
        }
    }

    /// The answer to an event that the cycle was not waiting for.
    fn ignored() -> (action: PaintAction)
        ensures
            action == PaintAction::only(PaintStep::Ignored),
    {
        Self::plain(PaintStep::Ignored)
    }
}

} // verus!
