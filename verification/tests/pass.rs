use termwindow::{
    AllowImage, ModalElement, PaneInfo, PassEvent, PassFailure, PassStage, PassStep, Scene,
    TermWindow, UiItem,
};

fn pane(is_active: bool) -> PaneInfo {
    PaneInfo { is_active, viewport: None, physical_top: 0 }
}

fn scene(panes: Vec<PaneInfo>) -> Scene {
    Scene {
        has_background_layers: false,
        opaque: true,
        panes,
        focused: true,
        has_active_pane: true,
        splits: 0,
        show_tab_bar: false,
    }
}

fn run(window: &mut TermWindow, scene: Scene, loaded_any: bool) -> Vec<PassStep> {
    let mut steps = vec![];
    let mut step = window.paint_pass(PassEvent::Start { scene });
    loop {
        steps.push(step);
        assert!(steps.len() < 100);
        step = match step {
            PassStep::Finished | PassStep::Failed { .. } | PassStep::Ignored => break,
            PassStep::RenderBackgrounds { .. } => {
                window.paint_pass(PassEvent::BackgroundsRendered { loaded_any })
            }
            PassStep::PaintModal => window.paint_pass(PassEvent::ModalRendered { modal: None }),
            _ => window.paint_pass(PassEvent::StepDone),
        };
    }
    steps
}

#[test]
fn plain_window_is_painted_in_order() {
    let mut window = TermWindow::new(0, 0);
    let mut view = scene(vec![pane(false), pane(true)]);
    view.splits = 1;
    view.show_tab_bar = true;
    assert_eq!(
        run(&mut window, view, false),
        vec![
            PassStep::AcquireLayer,
            PassStep::FillBackground { pane_palette: false },
            PassStep::PaintPane { index: 0, is_active: false, advise_focus: false },
            PassStep::PaintPane { index: 1, is_active: true, advise_focus: true },
            PassStep::PaintSplit { index: 0 },
            PassStep::PaintTabBar,
            PassStep::PaintWindowBorders,
            PassStep::PaintModal,
            PassStep::Finished,
        ]
    );
    assert_eq!(window.stage, PassStage::Idle);
}

#[test]
fn single_pane_lends_its_palette_to_the_fill() {
    let mut window = TermWindow::new(0, 0);
    let steps = run(&mut window, scene(vec![pane(true)]), false);
    assert_eq!(steps[1], PassStep::FillBackground { pane_palette: true });
}

#[test]
fn empty_window_still_gets_borders_and_modal() {
    let mut window = TermWindow::new(0, 0);
    let mut view = scene(vec![]);
    view.has_active_pane = false;
    view.splits = 3;
    assert_eq!(
        run(&mut window, view, false),
        vec![
            PassStep::AcquireLayer,
            PassStep::FillBackground { pane_palette: false },
            PassStep::PaintWindowBorders,
            PassStep::PaintModal,
            PassStep::Finished,
        ]
    );
}

#[test]
fn unfocused_window_does_not_advise_focus() {
    let mut window = TermWindow::new(0, 0);
    let mut view = scene(vec![pane(true)]);
    view.focused = false;
    let steps = run(&mut window, view, false);
    assert_eq!(steps[2], PassStep::PaintPane { index: 0, is_active: true, advise_focus: false });
}

#[test]
fn translucent_window_gets_no_fill() {
    let mut window = TermWindow::new(0, 0);
    let mut view = scene(vec![pane(true)]);
    view.opaque = false;
    let steps = run(&mut window, view, false);
    assert_eq!(
        steps,
        vec![
            PassStep::AcquireLayer,
            PassStep::PaintPane { index: 0, is_active: true, advise_focus: true },
            PassStep::PaintWindowBorders,
            PassStep::PaintModal,
            PassStep::Finished,
        ]
    );
}

#[test]
fn background_layers_follow_the_active_pane() {
    let mut window = TermWindow::new(0, 0);
    let mut view = scene(vec![
        PaneInfo { is_active: false, viewport: Some(3), physical_top: 4 },
        PaneInfo { is_active: true, viewport: None, physical_top: 120 },
        PaneInfo { is_active: true, viewport: Some(-7), physical_top: 9 },
    ]);
    view.has_background_layers = true;
    let steps = run(&mut window, view, true);
    assert_eq!(steps[1], PassStep::RenderBackgrounds { top: 120 });
    assert_eq!(steps[2], PassStep::PaintPane { index: 0, is_active: false, advise_focus: false });
}

#[test]
fn scrolled_viewport_aligns_the_background_layers() {
    let mut view = scene(vec![PaneInfo { is_active: true, viewport: Some(-7), physical_top: 9 }]);
    assert_eq!(view.background_top(), -7);
    view.panes[0].viewport = None;
    assert_eq!(view.background_top(), 9);
    view.panes[0].is_active = false;
    assert_eq!(view.background_top(), 0);
    assert_eq!(Scene::empty().background_top(), 0);
}

#[test]
fn missing_background_layers_fall_back_to_the_fill() {
    let mut window = TermWindow::new(0, 0);
    let mut view = scene(vec![pane(true), pane(false)]);
    view.has_background_layers = true;
    let steps = run(&mut window, view, false);
    assert_eq!(steps[1], PassStep::RenderBackgrounds { top: 0 });
    assert_eq!(steps[2], PassStep::FillBackground { pane_palette: false });
    assert_eq!(steps[3], PassStep::PaintPane { index: 0, is_active: true, advise_focus: true });
}

#[test]
fn scaled_images_still_render_background_layers() {
    let mut window = TermWindow::new(0, 0);
    window.allow_images = AllowImage::Scale(8);
    let mut view = scene(vec![pane(true)]);
    view.has_background_layers = true;
    assert_eq!(run(&mut window, view, true)[1], PassStep::RenderBackgrounds { top: 0 });
}

#[test]
fn suppressed_images_skip_the_background_layers() {
    let mut window = TermWindow::new(0, 0);
    window.allow_images = AllowImage::No;
    let mut view = scene(vec![pane(true)]);
    view.has_background_layers = true;
    let steps = run(&mut window, view, true);
    assert_eq!(steps[1], PassStep::PaintPane { index: 0, is_active: true, advise_focus: true });
}

#[test]
fn splits_need_an_active_pane() {
    let mut window = TermWindow::new(0, 0);
    let mut view = scene(vec![pane(false)]);
    view.splits = 2;
    view.has_active_pane = false;
    let without = run(&mut window, view, false);
    assert!(!without.iter().any(|step| matches!(step, PassStep::PaintSplit { .. })));
    let mut view = scene(vec![pane(false)]);
    view.splits = 2;
    let with = run(&mut window, view, false);
    assert_eq!(with[3], PassStep::PaintSplit { index: 0 });
    assert_eq!(with[4], PassStep::PaintSplit { index: 1 });
    assert_eq!(with[5], PassStep::PaintWindowBorders);
}

#[test]
fn first_failing_step_ends_the_pass() {
    let mut window = TermWindow::new(0, 0);
    window.paint_pass(PassEvent::Start { scene: scene(vec![pane(true), pane(false)]) });
    window.paint_pass(PassEvent::StepDone);
    window.paint_pass(PassEvent::StepDone);
    assert_eq!(window.stage, PassStage::Pane { index: 0 });
    assert_eq!(
        window.paint_pass(PassEvent::StepDone),
        PassStep::PaintPane { index: 1, is_active: false, advise_focus: false }
    );
    assert_eq!(
        window.paint_pass(PassEvent::StepFailed { cause: PassFailure::ClearShapeCache }),
        PassStep::Failed { at: PassStage::Pane { index: 1 }, cause: PassFailure::ClearShapeCache }
    );
    assert_eq!(window.stage, PassStage::Idle);
    assert_eq!(window.paint_pass(PassEvent::StepDone), PassStep::Ignored);
}

#[test]
fn failing_to_acquire_the_layer_ends_the_pass() {
    let mut window = TermWindow::new(0, 0);
    assert_eq!(
        window.paint_pass(PassEvent::Start { scene: scene(vec![pane(true)]) }),
        PassStep::AcquireLayer
    );
    assert_eq!(
        window.paint_pass(PassEvent::StepFailed { cause: PassFailure::Other }),
        PassStep::Failed { at: PassStage::Layer, cause: PassFailure::Other }
    );
}

fn to_the_modal(window: &mut TermWindow) {
    window.paint_pass(PassEvent::Start { scene: scene(vec![]) });
    window.paint_pass(PassEvent::StepDone);
    window.paint_pass(PassEvent::StepDone);
    assert_eq!(window.paint_pass(PassEvent::StepDone), PassStep::PaintModal);
    assert_eq!(window.stage, PassStage::Modal);
}

fn item(tag: u32) -> UiItem {
    UiItem { x: 0, y: tag as usize, width: 4, height: 1, item_type: tag }
}

#[test]
fn modal_regions_are_added_at_the_end_of_the_pass() {
    let mut window = TermWindow::new(0, 0);
    to_the_modal(&mut window);
    window.ui_items.push(item(1));
    let modal = vec![
        ModalElement { ui_items: vec![item(2)], failure: None },
        ModalElement { ui_items: vec![item(3), item(4)], failure: None },
    ];
    assert_eq!(
        window.paint_pass(PassEvent::ModalRendered { modal: Some(modal) }),
        PassStep::Finished
    );
    assert_eq!(window.ui_items, vec![item(1), item(2), item(3), item(4)]);
    assert_eq!(window.stage, PassStage::Idle);
}

#[test]
fn unrendered_modal_element_fails_the_pass() {
    let mut window = TermWindow::new(0, 0);
    to_the_modal(&mut window);
    let modal = vec![
        ModalElement { ui_items: vec![item(2)], failure: None },
        ModalElement { ui_items: vec![item(3)], failure: Some(PassFailure::ClearShapeCache) },
    ];
    assert_eq!(
        window.paint_pass(PassEvent::ModalRendered { modal: Some(modal) }),
        PassStep::Failed { at: PassStage::Modal, cause: PassFailure::ClearShapeCache }
    );
    assert_eq!(window.ui_items, vec![item(2)]);
    assert_eq!(window.stage, PassStage::Idle);
}

#[test]
fn modal_step_waits_for_the_rendered_elements() {
    let mut window = TermWindow::new(0, 0);
    assert_eq!(
        window.paint_pass(PassEvent::ModalRendered { modal: None }),
        PassStep::Ignored
    );
    to_the_modal(&mut window);
    assert_eq!(window.paint_pass(PassEvent::StepDone), PassStep::Ignored);
    assert_eq!(window.stage, PassStage::Modal);
    assert_eq!(
        window.paint_pass(PassEvent::StepFailed { cause: PassFailure::Other }),
        PassStep::Failed { at: PassStage::Modal, cause: PassFailure::Other }
    );
    to_the_modal(&mut window);
    assert_eq!(window.paint_pass(PassEvent::ModalRendered { modal: None }), PassStep::Finished);
}

#[test]
fn new_pass_forgets_the_clickable_regions() {
    let mut window = TermWindow::new(0, 0);
    window.ui_items.push(UiItem { x: 1, y: 2, width: 3, height: 4, item_type: 5 });
    window.paint_pass(PassEvent::Start { scene: scene(vec![]) });
    assert!(window.ui_items.is_empty());
    assert_eq!(window.stage, PassStage::Layer);
}

#[test]
fn pass_events_out_of_turn_are_ignored() {
    let mut window = TermWindow::new(0, 0);
    assert_eq!(window.paint_pass(PassEvent::StepDone), PassStep::Ignored);
    assert_eq!(
        window.paint_pass(PassEvent::StepFailed { cause: PassFailure::Other }),
        PassStep::Ignored
    );
    assert_eq!(
        window.paint_pass(PassEvent::BackgroundsRendered { loaded_any: true }),
        PassStep::Ignored
    );
    assert_eq!(window.stage, PassStage::Idle);
    let mut view = scene(vec![pane(true)]);
    view.has_background_layers = true;
    window.paint_pass(PassEvent::Start { scene: view });
    assert_eq!(
        window.paint_pass(PassEvent::BackgroundsRendered { loaded_any: true }),
        PassStep::Ignored
    );
    assert_eq!(window.paint_pass(PassEvent::StepDone), PassStep::RenderBackgrounds { top: 0 });
    assert_eq!(window.paint_pass(PassEvent::StepDone), PassStep::Ignored);
    assert_eq!(window.stage, PassStage::Backgrounds);
}

#[test]
fn starting_again_abandons_the_pass_in_progress() {
    let mut window = TermWindow::new(0, 0);
    window.paint_pass(PassEvent::Start { scene: scene(vec![pane(true)]) });
    window.paint_pass(PassEvent::StepDone);
    assert_eq!(window.stage, PassStage::Fill);
    assert_eq!(
        window.paint_pass(PassEvent::Start { scene: scene(vec![]) }),
        PassStep::AcquireLayer
    );
    assert_eq!(window.stage, PassStage::Layer);
    assert!(window.scene.panes.is_empty());
}
