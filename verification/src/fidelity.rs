//! Image fidelity levels and the one-step degradation rule.

use vstd::prelude::*;

verus! {

/// How faithfully attached images are rendered during a pass.
///
/// `Yes` renders images at full resolution, `Scale(n)` downscales them by
/// `n`, and `No` suppresses them entirely.
#[derive(Debug, Clone, Copy, PartialEq, Eq, Structural)]
pub enum AllowImage {
    Yes,
    Scale(usize),
    No,
}

impl AllowImage {
    /// The levels that make up the degradation ladder.
    pub open spec fn on_ladder(self) -> bool {
        match self {
            AllowImage::Yes => true,
            AllowImage::Scale(n) => n == 2 || n == 4 || n == 8,
            AllowImage::No => true,
        }
    }

    /// Position on the ladder: the number of further steps that can still be
    /// taken from this level before the ladder is exhausted.
    pub open spec fn rank(self) -> nat {
        match self {
            AllowImage::Yes => 4,
            AllowImage::Scale(n) => if n == 2 {
                3
            } else if n == 4 {
                2
            } else if n == 8 {
                1
            } else {
                0
            },
            AllowImage::No => 0,
        }
    }

    /// The level one step below this one, or `None` when there is none.
    pub open spec fn lower(self) -> Option<AllowImage> {
        match self {
            AllowImage::Yes => Some(AllowImage::Scale(2)),
            AllowImage::Scale(n) => if n == 2 {
                Some(AllowImage::Scale(4))
            } else if n == 4 {
                Some(AllowImage::Scale(8))
            } else if n == 8 {
                Some(AllowImage::No)
            } else {
                None
            },
            AllowImage::No => None,
        }
    }

    /// The level reached by taking `steps` steps down from this one, or
    /// `None` when the ladder ends before that.
    pub open spec fn descend(self, steps: nat) -> Option<AllowImage>
        decreases steps,
    {
        if steps == 0 {
            Some(self)
        } else {
            match self.lower() {
                Some(lower) => lower.descend((steps - 1) as nat),
                None => None,
            }
        }
    }
}

/// Every step down lowers the rank by exactly one and stays on the ladder,
/// and a step exists exactly where the rank is not yet zero.
pub proof fn lemma_step_lowers_rank(level: AllowImage)
    ensures
        level.lower() is Some <==> level.rank() > 0,
        level.lower() matches Some(lower) ==> lower.rank() + 1 == level.rank()
            && lower.on_ladder(),
{
}

/// A walk of `steps` steps down from a level ends on a level exactly when
/// `steps` does not exceed the rank of the level it starts from, and the
/// level it ends on is lower by `steps` ranks. A longer walk finds the
/// ladder exhausted.
pub proof fn lemma_descend_by_rank(level: AllowImage, steps: nat)
    ensures
        level.descend(steps) is Some <==> steps <= level.rank(),
        level.descend(steps) matches Some(reached) ==> reached.rank() + steps == level.rank(),
    decreases steps,
{
    if steps > 0 {
        match level.lower() {
            Some(lower) => {
                lemma_descend_by_rank(lower, (steps - 1) as nat);
            },
            None => {},
        }
    }
}

/// From full resolution the ladder is walked in four steps, through the
/// scales 2, 4 and 8 down to no images; the fifth step, and every later one,
/// finds it exhausted.
pub proof fn lemma_full_ladder(steps: nat)
    ensures
        AllowImage::Yes.descend(0) == Some(AllowImage::Yes),
        AllowImage::Yes.descend(1) == Some(AllowImage::Scale(2)),
        AllowImage::Yes.descend(2) == Some(AllowImage::Scale(4)),
        AllowImage::Yes.descend(3) == Some(AllowImage::Scale(8)),
        AllowImage::Yes.descend(4) == Some(AllowImage::No),
        steps >= 5 ==> AllowImage::Yes.descend(steps) is None,
{
    reveal_with_fuel(AllowImage::descend, 6);
    lemma_descend_by_rank(AllowImage::Yes, steps);
}

/// Steps one level down the ladder: from full resolution to a scale of 2,
/// then 4, then 8, then to no images at all. From there, and from any level
/// that is not on the ladder, there is no step left and the answer is `None`.
pub fn step_down(level: AllowImage) -> (next: Option<AllowImage>)
    ensures
        next == level.lower(),
        next is Some <==> level.rank() > 0,
        next matches Some(lower) ==> lower.rank() + 1 == level.rank() && lower.on_ladder(),
{
    match level {
        AllowImage::Yes => Some(AllowImage::Scale(2)),
        AllowImage::Scale(n) => {
            if n == 2 {
                Some(AllowImage::Scale(4))
            } else if n == 4 {
                Some(AllowImage::Scale(8))
            } else if n == 8 {
                Some(AllowImage::No)
            } else {
                None
            }
        },
        AllowImage::No => None,
    }
}

} // verus!
