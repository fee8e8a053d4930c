//! The order in which a pass paints the window, written down as one
//! sequence, and the proof that a pass in which nothing fails asks for
//! exactly that sequence.

use crate::modal::{first_unrendered_from, owned_modal_elements, ModalElement};
use crate::pass::{PassEvent, PassStage, PassStep, Scene};
use crate::window::TermWindowView;
use vstd::prelude::*;

verus! {

/// The report that a step was carried out without failure.
pub open spec fn unfailing_reply(
    step: PassStep,
    loaded_any: bool,
    modal: Option<Vec<ModalElement>>,
) -> PassEvent {
    match step {
        PassStep::RenderBackgrounds { .. } => PassEvent::BackgroundsRendered { loaded_any },
        PassStep::PaintModal => PassEvent::ModalRendered { modal },
        _ => PassEvent::StepDone,
    }
}

impl TermWindowView {
    /// The step that paints the pane with this index.
    pub open spec fn pane_step(self, index: int) -> PassStep {
        PassStep::PaintPane {
            index: index as usize,
            is_active: self.scene.panes[index].is_active,
            advise_focus: self.scene.panes[index].is_active && self.scene.focused,
        }
    }

    /// The steps that paint the window's background, given whether any
    /// background layer is there to be drawn.
    pub open spec fn background_steps(self, loaded_any: bool) -> Seq<PassStep> {
        if self.scene.has_background_layers && !(self.allow_images is No) {
            if loaded_any {
                seq![PassStep::RenderBackgrounds { top: self.scene.background_top() }]
            } else {
                seq![
                    PassStep::RenderBackgrounds { top: self.scene.background_top() },
                    PassStep::FillBackground { pane_palette: self.scene.panes.len() == 1 },
                ]
            }
        } else if self.scene.transparent() {
            Seq::empty()
        } else {
            seq![PassStep::FillBackground { pane_palette: self.scene.panes.len() == 1 }]
        }
    }

    /// The steps that paint the panes from the one with index `from` on.
    pub open spec fn pane_steps(self, from: int) -> Seq<PassStep> {
        Seq::new((self.scene.panes.len() - from) as nat, |i: int| self.pane_step(from + i))
    }

    /// The steps that paint the splits from the one with index `from` on.
    pub open spec fn split_steps(self, from: int) -> Seq<PassStep> {
        Seq::new(
            (self.scene.split_count() - from) as nat,
            |i: int| PassStep::PaintSplit { index: (from + i) as usize },
        )
    }

    /// The steps that close a pass: the tab bar if it is shown, the window
    /// borders and the modal overlay.
    pub open spec fn closing_steps(self) -> Seq<PassStep> {
        if self.scene.show_tab_bar {
            seq![PassStep::PaintTabBar, PassStep::PaintWindowBorders, PassStep::PaintModal]
        } else {
            seq![PassStep::PaintWindowBorders, PassStep::PaintModal]
        }
    }

    /// Everything that a pass paints, in order: the base layer, the
    /// background, the panes, the splits, and the closing steps.
    pub open spec fn pass_plan(self, loaded_any: bool) -> Seq<PassStep> {
        seq![PassStep::AcquireLayer] + self.background_steps(loaded_any) + self.pane_steps(0)
            + self.split_steps(0) + self.closing_steps()
    }

    /// The next `length` steps that are asked for after `step`, when `step`
    /// and every step after it is carried out without failure.
    pub open spec fn steps_after(
        self,
        step: PassStep,
        loaded_any: bool,
        modal: Option<Vec<ModalElement>>,
        length: nat,
    ) -> Seq<PassStep>
        decreases length,
    {
        if length == 0 {
            Seq::empty()
        } else {
            let reply = unfailing_reply(step, loaded_any, modal);
            let next = self.pass_next(reply).1;
            seq![next] + self.pass_after(reply).steps_after(
                next,
                loaded_any,
                modal,
                (length - 1) as nat,
            )
        }
    }

    /// The window with its pass at `stage`.
    pub open spec fn at_stage(self, stage: PassStage) -> TermWindowView {
        TermWindowView { stage, ..self }
    }

    /// Whether the scene is one that a window can hold: its panes can be
    /// counted.
    pub open spec fn countable(self) -> bool {
        self.scene.panes.len() <= usize::MAX
    }
}

/// From the tab bar on, a pass asks for the closing steps and is finished.
proof fn lemma_closing(
    window: TermWindowView,
    loaded_any: bool,
    modal: Option<Vec<ModalElement>>,
)
    requires
        first_unrendered_from(owned_modal_elements(modal), 0) == owned_modal_elements(
            modal,
        ).len(),
    ensures
        ({
            let (stage, step) = window.pass_from_tab_bar();
            seq![step] + window.at_stage(stage).steps_after(
                step,
                loaded_any,
                modal,
                window.closing_steps().len(),
            ) == window.closing_steps().push(PassStep::Finished)
        }),
{
    reveal_with_fuel(TermWindowView::steps_after, 4);
    let (stage, step) = window.pass_from_tab_bar();
    assert(seq![step] + window.at_stage(stage).steps_after(
        step,
        loaded_any,
        modal,
        window.closing_steps().len(),
    ) =~= window.closing_steps().push(PassStep::Finished));
}

/// From the split with index `from` on, a pass asks for the remaining
/// splits and the closing steps, and is finished.
proof fn lemma_splits(
    window: TermWindowView,
    from: int,
    loaded_any: bool,
    modal: Option<Vec<ModalElement>>,
)
    requires
        0 <= from <= window.scene.split_count(),
        first_unrendered_from(owned_modal_elements(modal), 0) == owned_modal_elements(
            modal,
        ).len(),
    ensures
        ({
            let (stage, step) = window.pass_from_split(from);
            let rest = window.split_steps(from) + window.closing_steps();
            seq![step] + window.at_stage(stage).steps_after(step, loaded_any, modal, rest.len())
                == rest.push(PassStep::Finished)
        }),
    decreases window.scene.split_count() - from,
{
    let (stage, step) = window.pass_from_split(from);
    let rest = window.split_steps(from) + window.closing_steps();
    if from < window.scene.split_count() {
        let here = window.at_stage(stage);
        let later = window.split_steps(from + 1) + window.closing_steps();
        lemma_splits(window, from + 1, loaded_any, modal);
        let (stage1, step1) = window.pass_from_split(from + 1);
        assert(here.pass_after(PassEvent::StepDone) == window.at_stage(stage1));
        assert(rest =~= seq![step] + later);
        assert(seq![step] + (seq![step1] + window.at_stage(stage1).steps_after(
            step1,
            loaded_any,
            modal,
            later.len(),
        )) =~= rest.push(PassStep::Finished));
    } else {
        lemma_closing(window, loaded_any, modal);
        assert(rest =~= window.closing_steps());
    }
}

/// From the pane with index `from` on, a pass asks for the remaining panes,
/// the splits and the closing steps, and is finished.
proof fn lemma_panes(
    window: TermWindowView,
    from: int,
    loaded_any: bool,
    modal: Option<Vec<ModalElement>>,
)
    requires
        window.countable(),
        0 <= from <= window.scene.panes.len(),
        first_unrendered_from(owned_modal_elements(modal), 0) == owned_modal_elements(
            modal,
        ).len(),
    ensures
        ({
            let (stage, step) = window.pass_from_pane(from);
            let rest = window.pane_steps(from) + window.split_steps(0) + window.closing_steps();
            seq![step] + window.at_stage(stage).steps_after(step, loaded_any, modal, rest.len())
                == rest.push(PassStep::Finished)
        }),
    decreases window.scene.panes.len() - from,
{
    let (stage, step) = window.pass_from_pane(from);
    let rest = window.pane_steps(from) + window.split_steps(0) + window.closing_steps();
    if from < window.scene.panes.len() {
        let here = window.at_stage(stage);
        let later = window.pane_steps(from + 1) + window.split_steps(0) + window.closing_steps();
        lemma_panes(window, from + 1, loaded_any, modal);
        let (stage1, step1) = window.pass_from_pane(from + 1);
        assert(here.pass_after(PassEvent::StepDone) == window.at_stage(stage1));
        assert(rest =~= seq![step] + later);
        assert(seq![step] + (seq![step1] + window.at_stage(stage1).steps_after(
            step1,
            loaded_any,
            modal,
            later.len(),
        )) =~= rest.push(PassStep::Finished));
    } else {
        lemma_splits(window, 0, loaded_any, modal);
        assert(rest =~= window.split_steps(0) + window.closing_steps());
    }
}

/// A pass in which no step fails asks for exactly the steps of its plan, in
/// order, and is then finished.
///
/// The pass is begun on `window` with `scene`; `loaded_any` is what the
/// rendering of the background layers reports, and `modal` are the elements
/// of the modal overlay, all of them rendered.
pub proof fn lemma_pass_follows_plan(
    window: TermWindowView,
    scene: Scene,
    loaded_any: bool,
    modal: Option<Vec<ModalElement>>,
)
    requires
        scene@.panes.len() <= usize::MAX,
        first_unrendered_from(owned_modal_elements(modal), 0) == owned_modal_elements(
            modal,
        ).len(),
    ensures
        ({
            let start = PassEvent::Start { scene };
            let begun = window.pass_after(start);
            let plan = begun.pass_plan(loaded_any);
            &&& window.pass_next(start).1 == plan[0]
            &&& seq![plan[0]] + begun.steps_after(plan[0], loaded_any, modal, plan.len())
                == plan.push(PassStep::Finished)
        }),
{
    let start = PassEvent::Start { scene };
    let begun = window.pass_after(start);
    let plan = begun.pass_plan(loaded_any);
    let body = begun.pane_steps(0) + begun.split_steps(0) + begun.closing_steps();
    let first = PassStep::AcquireLayer;
    let (stage, step) = begun.pass_from_background();
    let background = begun.background_steps(loaded_any);
    assert(plan =~= seq![first] + background + body);
    assert(begun.pass_after(PassEvent::StepDone) == begun.at_stage(stage));
    lemma_panes(begun, 0, loaded_any, modal);
    let (pane_stage, pane_step) = begun.pass_from_pane(0);
    let panes_on = seq![pane_step] + begun.at_stage(pane_stage).steps_after(
        pane_step,
        loaded_any,
        modal,
        body.len(),
    );
    let after_layer = begun.at_stage(stage).steps_after(
        step,
        loaded_any,
        modal,
        (plan.len() - 1) as nat,
    );
    assert(begun.steps_after(first, loaded_any, modal, plan.len()) == seq![step] + after_layer);
    if background.len() == 0 {
        assert((stage, step) == (pane_stage, pane_step));
    } else if background.len() == 1 {
        let here = begun.at_stage(stage);
        let reply = unfailing_reply(step, loaded_any, modal);
        assert(here.pass_after(reply) == begun.at_stage(pane_stage));
        assert(after_layer == panes_on);
    } else {
        let here = begun.at_stage(stage);
        let reply = unfailing_reply(step, loaded_any, modal);
        let (fill_stage, fill_step) = begun.pass_fill();
        assert(here.pass_after(reply) == begun.at_stage(fill_stage));
        let filled = begun.at_stage(fill_stage);
        assert(filled.pass_after(PassEvent::StepDone) == begun.at_stage(pane_stage));
        let after_fill = filled.steps_after(fill_step, loaded_any, modal, (plan.len() - 2) as nat);
        assert(after_fill == panes_on);
        assert(after_layer == seq![fill_step] + after_fill);
    }
    assert(seq![first] + (seq![step] + after_layer) =~= plan.push(PassStep::Finished));
}

} // verus!
