//! Decision logic of a terminal window's repaint cycle.
//!
//! A frame is produced by building the window's geometry, possibly more than
//! once: a pass may run out of texture space, find caches stale, or grow the
//! geometry buffers under its own feet. This crate decides what to do in
//! each case, how far to lower the fidelity of images before giving up, when
//! to refresh the frame-rate estimate, and whether a timer has to be armed
//! for animated content. It draws nothing and arms nothing itself: its state
//! machines are told what happened and answer with what to do next.
//!
//! - [`fidelity`]: the ladder of image fidelity levels.
//! - [`timing`]: the rolling frame-rate estimate.
//! - [`schedule`]: the one outstanding animation wake-up.
//! - [`outcome`]: what a pass can report.
//! - [`window`]: the state of one window.
//! - [`paint`]: the frame cycle.
//! - [`trace`]: what holds of every frame.
//! - [`pass`], [`modal`]: one geometry pass and its modal overlay.
//! - [`plan`]: the order of painting within a pass.
//! - [`presentation`]: the compositor's reports on time and scale.

pub mod fidelity;
pub mod modal;
pub mod outcome;
pub mod paint;
pub mod pass;
pub mod plan;
pub mod presentation;
pub mod schedule;
pub mod timing;
pub mod trace;
pub mod window;

pub use fidelity::{step_down, AllowImage};
pub use modal::{ModalElement, ModalFailure};
pub use outcome::{OutOfTextureSpace, PassFailure, PassReport, RetryOutcome};
pub use paint::{LoopExit, PaintAction, PaintEvent, PaintStep};
pub use pass::{PaneInfo, PassEvent, PassStage, PassStep, Scene, SceneView};
pub use presentation::{PresentationFeedback, PresentationKind, SurfaceTiming};
pub use schedule::AnimationScheduler;
pub use timing::{FpsEstimate, FrameTimingState, NANOS_PER_SECOND};
pub use window::{PaintPhase, TermWindow, TermWindowView, UiItem, LADDER_LENGTH};
