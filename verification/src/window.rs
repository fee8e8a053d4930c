//! The per-window state that the repaint cycle owns.

use crate::fidelity::AllowImage;
use crate::pass::{PassStage, Scene, SceneView};
use crate::schedule::AnimationScheduler;
use crate::timing::FrameTimingState;
use vstd::prelude::*;

verus! {

/// Number of levels on the fidelity ladder, and so the number of passes that
/// a frame needs at most to walk it to its end.
pub const LADDER_LENGTH: usize = 5;

/// What the repaint cycle is waiting for.
#[derive(Debug, Clone, Copy, PartialEq, Eq, Structural)]
pub enum PaintPhase {
    /// No frame is in progress.
    Idle,
    /// A geometry pass is running.
    Building,
    /// The texture atlas is being recreated.
    Recreating,
    /// The draw call is being issued.
    Drawing,
}

/// A clickable region of the window, recorded while a pass paints it.
#[derive(Debug, Clone, Copy, PartialEq, Eq, Structural)]
pub struct UiItem {
    pub x: usize,
    pub y: usize,
    pub width: usize,
    pub height: usize,
    /// What the region stands for; the meaning is the caller's.
    pub item_type: u32,
}

/// State of one window's repaint cycle. It is owned and changed by the
/// thread that owns the window, and by nothing else.
pub struct TermWindow {
    /// What the cycle is waiting for.
    pub phase: PaintPhase,
    /// Number of the pass in progress within the frame, from zero.
    pub pass: usize,
    /// The most passes that one frame may take.
    pub pass_limit: usize,
    /// Image fidelity of the pass in progress.
    pub allow_images: AllowImage,
    /// Generation of the shape caches; it moves on whenever they are dropped.
    pub shape_generation: usize,
    /// Instant at which the frame in progress began.
    pub frame_start: u64,
    /// Frame cadence.
    pub timing: FrameTimingState,
    /// The outstanding animation wake-up.
    pub scheduler: AnimationScheduler,
    /// Which step of a geometry pass is being carried out.
    pub stage: PassStage,
    /// What the pass in progress has to paint.
    pub scene: Scene,
    /// Clickable regions recorded by the pass in progress.
    pub ui_items: Vec<UiItem>,
}

/// Mathematical model of a [`TermWindow`].
pub struct TermWindowView {
    pub phase: PaintPhase,
    pub pass: usize,
    pub pass_limit: usize,
    pub allow_images: AllowImage,
    pub shape_generation: usize,
    pub frame_start: u64,
    pub timing: FrameTimingState,
    pub scheduler: AnimationScheduler,
    pub stage: PassStage,
    pub scene: SceneView,
    pub ui_items: Seq<UiItem>,
}

impl View for TermWindow {
    type V = TermWindowView;

    open spec fn view(&self) -> TermWindowView {
        TermWindowView {
            phase: self.phase,
            pass: self.pass,
            pass_limit: self.pass_limit,
            allow_images: self.allow_images,
            shape_generation: self.shape_generation,
            frame_start: self.frame_start,
            timing: self.timing,
            scheduler: self.scheduler,
            stage: self.stage,
            scene: self.scene@,
            ui_items: self.ui_items@,
        }
    }
}

impl TermWindowView {
    /// A window is valid when a frame has room for the whole fidelity ladder
    /// and the fidelity in force is a level of the ladder.
    pub open spec fn valid(self) -> bool {
        &&& self.pass_limit >= LADDER_LENGTH
        &&& self.allow_images.on_ladder()
    }

    /// The pass limit of a window created with `retry_slack` passes to spare
    /// beyond the length of the ladder.
    pub open spec fn limit_for(retry_slack: usize) -> usize {
        if LADDER_LENGTH + retry_slack <= usize::MAX {
            (LADDER_LENGTH + retry_slack) as usize
        } else {
            usize::MAX
        }
    }
}

impl TermWindow {
    /// A window with no frame in progress, nothing scheduled and its first
    /// timing window opening at `now`. A frame may take as many passes as the
    /// fidelity ladder is long, plus `retry_slack`.
    pub fn new(now: u64, retry_slack: usize) -> (window: TermWindow)
        ensures
            window@ == (TermWindowView {
                phase: PaintPhase::Idle,
                pass: 0,
                pass_limit: TermWindowView::limit_for(retry_slack),
                allow_images: AllowImage::Yes,
                shape_generation: 0,
                frame_start: now,
                timing: FrameTimingState::new_at(now),
                scheduler: AnimationScheduler { pending_wake: None },
                stage: PassStage::Idle,
                scene: SceneView::empty(),
                ui_items: Seq::empty(),
            }),
            window@.valid(),
    {
        let pass_limit: usize = if retry_slack <= usize::MAX - LADDER_LENGTH {
            LADDER_LENGTH + retry_slack
        } else {
            usize::MAX
        };
        TermWindow {
            phase: PaintPhase::Idle,
            pass: 0,
            pass_limit,
            allow_images: AllowImage::Yes,
            shape_generation: 0,
            frame_start: now,
            timing: FrameTimingState::new(now),
            scheduler: AnimationScheduler::new(),
            stage: PassStage::Idle,
            scene: Scene::empty(),
            ui_items: Vec::new(),
        }
    }
}

} // verus!
