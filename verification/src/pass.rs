//! One geometry pass: the order in which the parts of the window are
//! painted, and when a pass stops early.
//!
//! Like the frame cycle, a pass is a transition function. The window's owner
//! carries out each [`PassStep`] and reports how it went with the next
//! [`PassEvent`].

use crate::fidelity::AllowImage;
use crate::modal::{
    first_unrendered_from, lemma_first_unrendered, modal_items, owned_modal_elements,
    ModalElement,
};
use crate::outcome::PassFailure;
use crate::window::{TermWindow, TermWindowView, UiItem};
use vstd::prelude::*;

verus! {

/// What a pass needs to know of one pane.
#[derive(Debug, Clone, Copy, PartialEq, Eq, Structural)]
pub struct PaneInfo {
    /// Whether the pane is the active one of its tab.
    pub is_active: bool,
    /// The row at the top of the pane's viewport, when the user has scrolled
    /// it.
    pub viewport: Option<isize>,
    /// The row at the top of the pane's screen.
    pub physical_top: isize,
}

/// What one pass has to paint.
#[derive(Debug, PartialEq, Eq)]
pub struct Scene {
    /// Whether the window has background layers of its own.
    pub has_background_layers: bool,
    /// Whether the window background is fully opaque.
    pub opaque: bool,
    /// The panes to paint, in painting order.
    pub panes: Vec<PaneInfo>,
    /// Whether the window has the keyboard focus.
    pub focused: bool,
    /// Whether there is an active pane or overlay.
    pub has_active_pane: bool,
    /// Number of splits between the panes of the active tab.
    pub splits: usize,
    /// Whether the tab bar is shown.
    pub show_tab_bar: bool,
}

/// Mathematical model of a [`Scene`].
pub struct SceneView {
    pub has_background_layers: bool,
    pub opaque: bool,
    pub panes: Seq<PaneInfo>,
    pub focused: bool,
    pub has_active_pane: bool,
    pub splits: usize,
    pub show_tab_bar: bool,
}

impl View for Scene {
    type V = SceneView;

    open spec fn view(&self) -> SceneView {
        SceneView {
            has_background_layers: self.has_background_layers,
            opaque: self.opaque,
            panes: self.panes@,
            focused: self.focused,
            has_active_pane: self.has_active_pane,
            splits: self.splits,
            show_tab_bar: self.show_tab_bar,
        }
    }
}

/// Index of the first active pane at or after `from`, if there is one.
pub open spec fn first_active_from(panes: Seq<PaneInfo>, from: int) -> Option<int>
    decreases panes.len() - from,
{
    if from < 0 || from >= panes.len() {
        None
    } else if panes[from].is_active {
        Some(from)
    } else {
        first_active_from(panes, from + 1)
    }
}

impl SceneView {
    /// The scene of an opaque window with nothing in it.
    pub open spec fn empty() -> SceneView {
        SceneView {
            has_background_layers: false,
            opaque: true,
            panes: Seq::empty(),
            focused: false,
            has_active_pane: false,
            splits: 0,
            show_tab_bar: false,
        }
    }

    /// Whether what lies behind the window shows through it.
    pub open spec fn transparent(self) -> bool {
        self.has_background_layers || !self.opaque
    }

    /// The row that the background layers are aligned to: the top of the
    /// first active pane's viewport, or of its screen when the viewport has
    /// not been scrolled; row zero when no pane is active.
    pub open spec fn background_top(self) -> isize {
        match first_active_from(self.panes, 0) {
            Some(index) => match self.panes[index].viewport {
                Some(top) => top,
                None => self.panes[index].physical_top,
            },
            None => 0,
        }
    }

    /// Number of splits to paint: none without an active pane or overlay.
    pub open spec fn split_count(self) -> usize {
        if self.has_active_pane {
            self.splits
        } else {
            0
        }
    }
}

impl Scene {
    /// The scene of an opaque window with nothing in it.
    pub fn empty() -> (scene: Scene)
        ensures
            scene@ == SceneView::empty(),
    {
        Scene {
            has_background_layers: false,
            opaque: true,
            panes: Vec::new(),
            focused: false,
            has_active_pane: false,
            splits: 0,
            show_tab_bar: false,
        }
    }

    /// The row that the background layers are aligned to.
    pub fn background_top(&self) -> (top: isize)
        ensures
            top == self@.background_top(),
    {
        let mut index: usize = 0;
        while index < self.panes.len()
            invariant
                index <= self.panes.len(),
                first_active_from(self.panes@, 0) == first_active_from(self.panes@, index as int),
            decreases self.panes.len() - index,
        {
            let pane = self.panes[index];
            if pane.is_active {
                return match pane.viewport {
                    Some(top) => top,
                    None => pane.physical_top,
                };
            }
            index = index + 1;
        }
        0
    }
}

/// The step of a pass that is being carried out.
#[derive(Debug, Clone, Copy, PartialEq, Eq, Structural)]
pub enum PassStage {
    /// No pass is in progress.
    Idle,
    /// The geometry buffers are being reset and the base layer acquired.
    Layer,
    /// The window's background layers are being rendered.
    Backgrounds,
    /// The window is being filled with the plain background colour.
    Fill,
    /// The pane with this index is being painted.
    Pane { index: usize },
    /// The split with this index is being painted.
    Split { index: usize },
    /// The tab bar is being painted.
    TabBar,
    /// The window borders are being painted.
    Borders,
    /// The modal overlay is being painted.
    Modal,
}

/// How the step that was asked for went.
#[derive(Debug, PartialEq, Eq)]
pub enum PassEvent {
    /// A new pass begins, with this to paint.
    Start { scene: Scene },
    /// The background layers were rendered; `loaded_any` says whether at
    /// least one of them was there to be drawn.
    BackgroundsRendered { loaded_any: bool },
    /// The elements of the modal overlay, if there is one, were rendered in
    /// order, up to the first that could not be and no further.
    ModalRendered { modal: Option<Vec<ModalElement>> },
    /// The step was carried out.
    StepDone,
    /// The step failed.
    StepFailed { cause: PassFailure },
}

/// The work that a pass asks for next.
#[derive(Debug, Clone, Copy, PartialEq, Eq, Structural)]
pub enum PassStep {
    /// Reset the geometry buffers of every layer and acquire the base layer.
    AcquireLayer,
    /// Render the window's background layers, aligned to row `top`.
    RenderBackgrounds { top: isize },
    /// Fill the window with the background colour: that of the only pane's
    /// palette if `pane_palette`, else that of the window's.
    FillBackground { pane_palette: bool },
    /// Paint the pane with this index. If it is the active pane, move the
    /// text cursor to it first, and if `advise_focus`, tell it that it has
    /// the focus.
    PaintPane { index: usize, is_active: bool, advise_focus: bool },
    /// Paint the split with this index.
    PaintSplit { index: usize },
    /// Paint the tab bar.
    PaintTabBar,
    /// Paint the window borders.
    PaintWindowBorders,
    /// Render the elements of the modal overlay in order, up to the first
    /// that cannot be rendered.
    PaintModal,
    /// The pass is complete.
    Finished,
    /// The pass stopped because the step at stage `at` failed.
    Failed { at: PassStage, cause: PassFailure },
    /// The event did not fit what the pass was waiting for, and changed
    /// nothing.
    Ignored,
}

impl TermWindowView {
    /// What comes once the splits are done: the tab bar if it is shown, else
    /// the borders.
    pub open spec fn pass_from_tab_bar(self) -> (PassStage, PassStep) {
        if self.scene.show_tab_bar {
            (PassStage::TabBar, PassStep::PaintTabBar)
        } else {
            (PassStage::Borders, PassStep::PaintWindowBorders)
        }
    }

    /// What comes once the splits before `index` are done.
    pub open spec fn pass_from_split(self, index: int) -> (PassStage, PassStep) {
        if 0 <= index < self.scene.split_count() {
            (
                PassStage::Split { index: index as usize },
                PassStep::PaintSplit { index: index as usize },
            )
        } else {
            self.pass_from_tab_bar()
        }
    }

    /// What comes once the panes before `index` are done.
    pub open spec fn pass_from_pane(self, index: int) -> (PassStage, PassStep) {
        if 0 <= index < self.scene.panes.len() {
            (
                PassStage::Pane { index: index as usize },
                PassStep::PaintPane {
                    index: index as usize,
                    is_active: self.scene.panes[index].is_active,
                    advise_focus: self.scene.panes[index].is_active && self.scene.focused,
                },
            )
        } else {
            self.pass_from_split(0)
        }
    }

    /// The plain fill of the window.
    pub open spec fn pass_fill(self) -> (PassStage, PassStep) {
        (PassStage::Fill, PassStep::FillBackground { pane_palette: self.scene.panes.len() == 1 })
    }

    /// What comes once the base layer is there: the window's background.
    ///
    /// Background layers are rendered unless images are suppressed. Without
    /// them, a window that lets what is behind it show through gets no
    /// background at all, and any other window the plain fill.
    pub open spec fn pass_from_background(self) -> (PassStage, PassStep) {
        if self.scene.has_background_layers && !(self.allow_images is No) {
            (
                PassStage::Backgrounds,
                PassStep::RenderBackgrounds { top: self.scene.background_top() },
            )
        } else if self.scene.transparent() {
            self.pass_from_pane(0)
        } else {
            self.pass_fill()
        }
    }

    /// What comes once the elements of the modal overlay have been rendered:
    /// the end of the pass, which has failed if one of them could not be.
    pub open spec fn pass_from_modal(self, elements: Seq<ModalElement>) -> (PassStage, PassStep) {
        let stop = first_unrendered_from(elements, 0);
        if stop == elements.len() {
            (PassStage::Idle, PassStep::Finished)
        } else {
            (
                PassStage::Idle,
                PassStep::Failed { at: PassStage::Modal, cause: elements[stop].failure->0 },
            )
        }
    }

    /// The stage and the step after `event`.
    pub open spec fn pass_next(self, event: PassEvent) -> (PassStage, PassStep) {
        match event {
            PassEvent::Start { .. } => (PassStage::Layer, PassStep::AcquireLayer),
            PassEvent::ModalRendered { modal } => match self.stage {
                PassStage::Modal => self.pass_from_modal(owned_modal_elements(modal)),
                _ => (self.stage, PassStep::Ignored),
            },
            PassEvent::BackgroundsRendered { loaded_any } => match self.stage {
                PassStage::Backgrounds => if loaded_any {
                    self.pass_from_pane(0)
                } else {
                    self.pass_fill()
                },
                _ => (self.stage, PassStep::Ignored),
            },
            PassEvent::StepDone => match self.stage {
                PassStage::Idle => (self.stage, PassStep::Ignored),
                PassStage::Layer => self.pass_from_background(),
                PassStage::Backgrounds => (self.stage, PassStep::Ignored),
                PassStage::Fill => self.pass_from_pane(0),
                PassStage::Pane { index } => self.pass_from_pane(index + 1),
                PassStage::Split { index } => self.pass_from_split(index + 1),
                PassStage::TabBar => (PassStage::Borders, PassStep::PaintWindowBorders),
                PassStage::Borders => (PassStage::Modal, PassStep::PaintModal),
                PassStage::Modal => (self.stage, PassStep::Ignored),
            },
            PassEvent::StepFailed { cause } => match self.stage {
                PassStage::Idle => (self.stage, PassStep::Ignored),
                _ => (PassStage::Idle, PassStep::Failed { at: self.stage, cause }),
            },
        }
    }

    /// The clickable regions after `event`. A new pass forgets those of the
    /// pass before it; the modal overlay adds those of its elements, up to
    /// the first element that could not be rendered.
    pub open spec fn pass_items(self, event: PassEvent) -> Seq<UiItem> {
        match event {
            PassEvent::Start { .. } => Seq::empty(),
            PassEvent::ModalRendered { modal } => if self.stage is Modal {
                self.ui_items + modal_items(
                    owned_modal_elements(modal),
                    first_unrendered_from(owned_modal_elements(modal), 0),
                )
            } else {
                self.ui_items
            },
            _ => self.ui_items,
        }
    }

    /// The window after `event`. A new pass takes the scene that it is
    /// given.
    pub open spec fn pass_after(self, event: PassEvent) -> TermWindowView {
        TermWindowView {
            stage: self.pass_next(event).0,
            scene: match event {
                PassEvent::Start { scene } => scene@,
                _ => self.scene,
            },
            ui_items: self.pass_items(event),
            ..self
        }
    }
}

impl TermWindow {
    /// What comes once the splits are done.
    fn from_tab_bar(&self) -> (next: (PassStage, PassStep))
        ensures
            next == self@.pass_from_tab_bar(),
    {
        if self.scene.show_tab_bar {
            (PassStage::TabBar, PassStep::PaintTabBar)
        } else {
            (PassStage::Borders, PassStep::PaintWindowBorders)
        }
    }

    /// What comes once the splits before `index` are done.
    fn from_split(&self, index: usize) -> (next: (PassStage, PassStep))
        ensures
            next == self@.pass_from_split(index as int),
    {
        if self.scene.has_active_pane && index < self.scene.splits {
            (PassStage::Split { index }, PassStep::PaintSplit { index })
        } else {
            self.from_tab_bar()
        }
    }

    /// What comes once the panes before `index` are done.
    fn from_pane(&self, index: usize) -> (next: (PassStage, PassStep))
        ensures
            next == self@.pass_from_pane(index as int),
    {
        if index < self.scene.panes.len() {
            let pane = self.scene.panes[index];
            (
                PassStage::Pane { index },
                PassStep::PaintPane {
                    index,
                    is_active: pane.is_active,
                    advise_focus: pane.is_active && self.scene.focused,
                },
            )
        } else {
            self.from_split(0)
        }
    }

    /// What comes once the base layer is there.
    fn from_background(&self) -> (next: (PassStage, PassStep))
        ensures
            next == self@.pass_from_background(),
    {
        let images = match self.allow_images {
            AllowImage::No => false,
            _ => true,
        };
        if self.scene.has_background_layers && images {
            (
                PassStage::Backgrounds,
                PassStep::RenderBackgrounds { top: self.scene.background_top() },
            )
        } else if self.scene.has_background_layers || !self.scene.opaque {
            self.from_pane(0)
        } else {
            self.fill()
        }
    }

    /// The plain fill of the window.
    fn fill(&self) -> (next: (PassStage, PassStep))
        ensures
            next == self@.pass_fill(),
    {
        (PassStage::Fill, PassStep::FillBackground { pane_palette: self.scene.panes.len() == 1 })
    }

    /// Advances the geometry pass by one event and says what to paint next.
    ///
    /// `Start` begins a pass: the clickable regions of the pass before it
    /// are forgotten and the base layer is asked for. Then come, each after
    /// the step before it was carried out: the window's background, every
    /// pane in order, every split if there is an active pane, the tab bar if
    /// it is shown, the window borders and the modal overlay, whose
    /// clickable regions are added to those of the window. The first step
    /// that fails ends the pass, and the answer names it and its cause.
    ///
    /// An event that the pass is not waiting for changes nothing and is
    /// answered with `Ignored`.
    pub fn paint_pass(&mut self, event: PassEvent) -> (step: PassStep)
        ensures
            final(self)@ == old(self)@.pass_after(event),
            step == old(self)@.pass_next(event).1,
    {
        let next = match event {
            PassEvent::Start { scene } => {
                self.scene = scene;
                self.ui_items.clear();
                (PassStage::Layer, PassStep::AcquireLayer)
            },
            PassEvent::ModalRendered { modal } => match self.stage {
                PassStage::Modal => {
                    proof {
                        lemma_first_unrendered(owned_modal_elements(modal), 0);
                    }
                    match self.paint_modal(modal.as_ref()) {
                        Ok(()) => (PassStage::Idle, PassStep::Finished),
                        Err(failure) => (
                            PassStage::Idle,
                            PassStep::Failed { at: PassStage::Modal, cause: failure.cause },
                        ),
                    }
                },
                _ => (self.stage, PassStep::Ignored),
            },
            PassEvent::BackgroundsRendered { loaded_any } => match self.stage {
                PassStage::Backgrounds => if loaded_any {
                    self.from_pane(0)
                } else {
                    self.fill()
                },
                _ => (self.stage, PassStep::Ignored),
            },
            PassEvent::StepDone => match self.stage {
                PassStage::Idle => (self.stage, PassStep::Ignored),
                PassStage::Layer => self.from_background(),
                PassStage::Backgrounds => (self.stage, PassStep::Ignored),
                PassStage::Fill => self.from_pane(0),
                PassStage::Pane { index } => if index < self.scene.panes.len() {
                    self.from_pane(index + 1)
                } else {
                    self.from_split(0)
                },
                PassStage::Split { index } => if index < self.scene.splits {
                    self.from_split(index + 1)
                } else {
                    self.from_tab_bar()
                },
                PassStage::TabBar => (PassStage::Borders, PassStep::PaintWindowBorders),
                PassStage::Borders => (PassStage::Modal, PassStep::PaintModal),
                PassStage::Modal => (self.stage, PassStep::Ignored),
            },
            PassEvent::StepFailed { cause } => match self.stage {
                PassStage::Idle => (self.stage, PassStep::Ignored),
                _ => (PassStage::Idle, PassStep::Failed { at: self.stage, cause }),
            },
        };
        self.stage = next.0;
        next.1
    }
}

} // verus!
