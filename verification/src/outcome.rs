//! What one geometry pass can report back.

use vstd::prelude::*;

verus! {

/// The texture atlas had no room for an image.
#[derive(Debug, Clone, Copy, PartialEq, Eq, Structural)]
pub struct OutOfTextureSpace {
    /// The atlas size that would have had room, when one is known.
    pub size: Option<usize>,
    /// The size of the atlas that was full.
    pub current_size: usize,
}

/// The root cause of a pass that did not finish.
#[derive(Debug, Clone, Copy, PartialEq, Eq, Structural)]
pub enum PassFailure {
    /// The texture atlas was full.
    OutOfTextureSpace(OutOfTextureSpace),
    /// The shaper asked for the shape caches to be dropped.
    ClearShapeCache,
    /// Anything else.
    Other,
}

/// How one pass ended, as the renderer saw it.
#[derive(Debug, Clone, Copy, PartialEq, Eq, Structural)]
pub enum PassReport {
    /// The pass ran to its end. `allocated_more_quads` says whether the
    /// geometry buffers had to grow during it, or is `None` when that could
    /// not be found out.
    Painted { allocated_more_quads: Option<bool> },
    /// The pass stopped early.
    Failed { cause: PassFailure },
}

/// The outcome of one pass, as the render loop acts on it.
#[derive(Debug, Clone, Copy, PartialEq, Eq, Structural)]
pub enum RetryOutcome {
    /// The geometry is complete. `geometry_grew` says whether new slots were
    /// allocated on the way, which shifts slot indices held in caches.
    Success { geometry_grew: bool },
    /// The atlas of size `current` was full; `requested` would have had room.
    ResourceExhausted { requested: usize, current: usize },
    /// Shape-derived caches are stale.
    CacheStale,
    /// The pass failed for a reason that a retry cannot help.
    OtherFailure,
}

impl RetryOutcome {
    /// The outcome that a report amounts to.
    ///
    /// A full atlas counts as exhaustion only when the size that would have
    /// had room is known; a finished pass whose growth could not be found
    /// out counts as a failure.
    pub open spec fn of_report(report: PassReport) -> RetryOutcome {
        match report {
            PassReport::Painted { allocated_more_quads: Some(grew) } => RetryOutcome::Success {
                geometry_grew: grew,
            },
            PassReport::Painted { allocated_more_quads: None } => RetryOutcome::OtherFailure,
            PassReport::Failed {
                cause: PassFailure::OutOfTextureSpace(
                    OutOfTextureSpace { size: Some(size), current_size },
                ),
            } => RetryOutcome::ResourceExhausted { requested: size, current: current_size },
            PassReport::Failed {
                cause: PassFailure::OutOfTextureSpace(OutOfTextureSpace { size: None, .. }),
            } => RetryOutcome::OtherFailure,
            PassReport::Failed { cause: PassFailure::ClearShapeCache } => RetryOutcome::CacheStale,
            PassReport::Failed { cause: PassFailure::Other } => RetryOutcome::OtherFailure,
        }
    }

    /// Whether the outcome asks for nothing: no retry signal and no growth.
    pub open spec fn is_quiet(self) -> bool {
        match self {
            RetryOutcome::Success { geometry_grew } => !geometry_grew,
            RetryOutcome::OtherFailure => true,
            _ => false,
        }
    }

    /// Turns a renderer's report into the outcome that the render loop acts
    /// on.
    pub fn classify(report: PassReport) -> (outcome: RetryOutcome)
        ensures
            outcome == RetryOutcome::of_report(report),
    {
        match report {
            PassReport::Painted { allocated_more_quads } => match allocated_more_quads {
                Some(grew) => RetryOutcome::Success { geometry_grew: grew },
                None => RetryOutcome::OtherFailure,
            },
            PassReport::Failed { cause } => match cause {
                PassFailure::OutOfTextureSpace(full) => match full.size {
                    Some(size) => RetryOutcome::ResourceExhausted {
                        requested: size,
                        current: full.current_size,
                    },
                    None => RetryOutcome::OtherFailure,
                },
                PassFailure::ClearShapeCache => RetryOutcome::CacheStale,
                PassFailure::Other => RetryOutcome::OtherFailure,
            },
        }
    }
}

} // verus!
