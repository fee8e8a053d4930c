use termwindow::{
    AllowImage, FpsEstimate, LoopExit, PaintAction, PaintEvent, PaintPhase, PaintStep,
    RetryOutcome, TermWindow, LADDER_LENGTH,
};

fn plain(next: PaintStep) -> PaintAction {
    PaintAction { fresh_frame: false, invalidate_overlays: false, clear_shape_caches: false, next }
}

fn invalidating(next: PaintStep) -> PaintAction {
    PaintAction { fresh_frame: false, invalidate_overlays: true, clear_shape_caches: false, next }
}

fn start(window: &mut TermWindow, now: u64) -> PaintAction {
    window.paint_impl(PaintEvent::FrameStart { now })
}

fn pass(window: &mut TermWindow, outcome: RetryOutcome) -> PaintAction {
    window.paint_impl(PaintEvent::PassFinished { outcome })
}

fn atlas(window: &mut TermWindow, ok: bool) -> PaintAction {
    window.paint_impl(PaintEvent::AtlasRecreated { ok })
}

fn exhausted() -> RetryOutcome {
    RetryOutcome::ResourceExhausted { requested: 4096, current: 2048 }
}

#[test]
fn new_window_is_idle_at_full_fidelity() {
    let window = TermWindow::new(77, 3);
    assert_eq!(window.phase, PaintPhase::Idle);
    assert_eq!(window.pass, 0);
    assert_eq!(window.pass_limit, LADDER_LENGTH + 3);
    assert_eq!(window.allow_images, AllowImage::Yes);
    assert_eq!(window.shape_generation, 0);
    assert_eq!(window.timing.last_check_time, 77);
    assert_eq!(window.scheduler.pending_wake, None);
    assert!(window.ui_items.is_empty());
}

#[test]
fn pass_limit_saturates() {
    assert_eq!(TermWindow::new(0, 0).pass_limit, 5);
    assert_eq!(TermWindow::new(0, usize::MAX).pass_limit, usize::MAX);
    assert_eq!(TermWindow::new(0, usize::MAX - 5).pass_limit, usize::MAX);
    assert_eq!(TermWindow::new(0, usize::MAX - 6).pass_limit, usize::MAX - 1);
}

#[test]
fn quiet_frame_builds_once_and_draws_once() {
    let mut window = TermWindow::new(0, 0);
    let mut builds = 0;
    let mut draws = 0;
    let mut actions = Vec::new();
    actions.push(start(&mut window, 10));
    actions.push(pass(&mut window, RetryOutcome::Success { geometry_grew: false }));
    actions.push(window.paint_impl(PaintEvent::FrameDrawn {
        now: 30,
        animation_due: None,
        window_focused: true,
    }));
    for action in &actions {
        match action.next {
            PaintStep::Build { .. } => builds += 1,
            PaintStep::Draw { .. } => draws += 1,
            _ => {}
        }
    }
    assert_eq!(builds, 1);
    assert_eq!(draws, 1);
    assert_eq!(
        actions[0],
        PaintAction {
            fresh_frame: true,
            invalidate_overlays: false,
            clear_shape_caches: false,
            next: PaintStep::Build { fidelity: AllowImage::Yes },
        }
    );
    assert_eq!(actions[1], plain(PaintStep::Draw { exit: LoopExit::Complete }));
    assert_eq!(actions[2], plain(PaintStep::Rest));
    assert_eq!(window.phase, PaintPhase::Idle);
    assert_eq!(window.timing.last_frame_duration, 20);
    assert_eq!(window.timing.frame_count_since_check, 1);
}

#[test]
fn failed_pass_still_draws_once() {
    let mut window = TermWindow::new(0, 0);
    start(&mut window, 10);
    assert_eq!(
        pass(&mut window, RetryOutcome::OtherFailure),
        plain(PaintStep::Draw { exit: LoopExit::PassFailed })
    );
    assert_eq!(window.phase, PaintPhase::Drawing);
    assert_eq!(window.pass, 0);
    assert_eq!(window.allow_images, AllowImage::Yes);
}

#[test]
fn first_exhaustion_clears_then_degrades() {
    let mut window = TermWindow::new(0, 0);
    assert_eq!(start(&mut window, 0).next, PaintStep::Build { fidelity: AllowImage::Yes });
    assert_eq!(
        pass(&mut window, exhausted()),
        plain(PaintStep::RecreateAtlas { size: 2048 })
    );
    assert_eq!(window.phase, PaintPhase::Recreating);
    assert_eq!(
        atlas(&mut window, false),
        invalidating(PaintStep::Build { fidelity: AllowImage::Scale(2) })
    );
    assert_eq!(window.allow_images, AllowImage::Scale(2));
    assert_eq!(window.phase, PaintPhase::Building);
    assert_eq!(window.pass, 1);
}

#[test]
fn five_failed_recoveries_end_the_loop() {
    let mut window = TermWindow::new(0, 0);
    let mut built = vec![];
    let mut asked = vec![];
    let mut action = start(&mut window, 0);
    let mut rounds = 0;
    loop {
        match action.next {
            PaintStep::Build { fidelity } => {
                built.push(fidelity);
                action = pass(&mut window, exhausted());
            }
            PaintStep::RecreateAtlas { size } => {
                asked.push(size);
                action = atlas(&mut window, false);
                assert!(action.invalidate_overlays);
            }
            _ => break,
        }
        rounds += 1;
        assert!(rounds < 100);
    }
    assert_eq!(
        built,
        vec![
            AllowImage::Yes,
            AllowImage::Scale(2),
            AllowImage::Scale(4),
            AllowImage::Scale(8),
            AllowImage::No,
        ]
    );
    assert_eq!(asked, vec![2048, 4096, 4096, 4096, 4096]);
    assert_eq!(action, invalidating(PaintStep::Draw { exit: LoopExit::LadderExhausted }));
    assert_eq!(window.phase, PaintPhase::Drawing);
    assert_eq!(window.allow_images, AllowImage::No);
    assert_eq!(window.pass, 4);
    assert_eq!(pass(&mut window, exhausted()), plain(PaintStep::Ignored));
    assert_eq!(atlas(&mut window, false), plain(PaintStep::Ignored));
}

#[test]
fn successful_recovery_keeps_the_fidelity() {
    let mut window = TermWindow::new(0, 0);
    start(&mut window, 0);
    pass(&mut window, exhausted());
    assert_eq!(
        atlas(&mut window, true),
        invalidating(PaintStep::Build { fidelity: AllowImage::Yes })
    );
    assert_eq!(window.allow_images, AllowImage::Yes);
    assert_eq!(window.pass, 1);
    assert_eq!(
        pass(&mut window, RetryOutcome::ResourceExhausted { requested: 8192, current: 2048 }),
        plain(PaintStep::RecreateAtlas { size: 8192 })
    );
    assert_eq!(
        atlas(&mut window, true),
        invalidating(PaintStep::Build { fidelity: AllowImage::Yes })
    );
    assert_eq!(
        pass(&mut window, RetryOutcome::Success { geometry_grew: false }),
        plain(PaintStep::Draw { exit: LoopExit::Complete })
    );
}

#[test]
fn grown_geometry_is_built_again() {
    let mut window = TermWindow::new(0, 0);
    start(&mut window, 0);
    assert_eq!(
        pass(&mut window, RetryOutcome::Success { geometry_grew: true }),
        invalidating(PaintStep::Build { fidelity: AllowImage::Yes })
    );
    assert_eq!(window.pass, 1);
    assert_eq!(window.shape_generation, 0);
    assert_eq!(
        pass(&mut window, RetryOutcome::Success { geometry_grew: false }),
        plain(PaintStep::Draw { exit: LoopExit::Complete })
    );
}

#[test]
fn stale_caches_are_dropped_and_the_pass_repeated() {
    let mut window = TermWindow::new(0, 0);
    start(&mut window, 0);
    assert_eq!(
        pass(&mut window, RetryOutcome::CacheStale),
        PaintAction {
            fresh_frame: false,
            invalidate_overlays: true,
            clear_shape_caches: true,
            next: PaintStep::Build { fidelity: AllowImage::Yes },
        }
    );
    assert_eq!(window.shape_generation, 1);
    assert_eq!(window.allow_images, AllowImage::Yes);
    assert_eq!(window.pass, 1);
    assert_eq!(
        pass(&mut window, exhausted()),
        plain(PaintStep::RecreateAtlas { size: 4096 })
    );
}

#[test]
fn frame_stops_at_its_pass_limit() {
    let mut window = TermWindow::new(0, 1);
    assert_eq!(window.pass_limit, 6);
    let mut action = start(&mut window, 0);
    let mut builds = 0;
    while let PaintStep::Build { .. } = action.next {
        builds += 1;
        assert!(builds <= 6);
        action = pass(&mut window, RetryOutcome::Success { geometry_grew: true });
    }
    assert_eq!(builds, 6);
    assert_eq!(action, invalidating(PaintStep::Draw { exit: LoopExit::PassLimit }));
    assert_eq!(window.phase, PaintPhase::Drawing);
    assert_eq!(window.pass, 5);
}

#[test]
fn stale_caches_at_the_pass_limit_still_move_the_generation() {
    let mut window = TermWindow::new(0, 0);
    let mut action = start(&mut window, 0);
    let mut builds = 0;
    while let PaintStep::Build { .. } = action.next {
        builds += 1;
        action = pass(&mut window, RetryOutcome::CacheStale);
        assert!(action.clear_shape_caches);
    }
    assert_eq!(builds, 5);
    assert_eq!(action.next, PaintStep::Draw { exit: LoopExit::PassLimit });
    assert_eq!(window.shape_generation, 5);
}

#[test]
fn every_frame_starts_over_at_full_fidelity() {
    let mut window = TermWindow::new(0, 0);
    start(&mut window, 0);
    pass(&mut window, exhausted());
    atlas(&mut window, false);
    pass(&mut window, RetryOutcome::Success { geometry_grew: false });
    window.paint_impl(PaintEvent::FrameDrawn { now: 5, animation_due: None, window_focused: true });
    assert_eq!(window.allow_images, AllowImage::Scale(2));
    let again = start(&mut window, 6);
    assert!(again.fresh_frame);
    assert_eq!(again.next, PaintStep::Build { fidelity: AllowImage::Yes });
    assert_eq!(window.allow_images, AllowImage::Yes);
    assert_eq!(window.pass, 0);
    assert_eq!(window.frame_start, 6);
}

#[test]
fn frame_start_counts_the_frame_and_refreshes_the_rate() {
    let mut window = TermWindow::new(0, 0);
    for frame in 0..3u64 {
        start(&mut window, frame * 400_000_000);
        pass(&mut window, RetryOutcome::Success { geometry_grew: false });
        window.paint_impl(PaintEvent::FrameDrawn {
            now: frame * 400_000_000 + 1_000,
            animation_due: None,
            window_focused: false,
        });
    }
    assert_eq!(window.timing.frame_count_since_check, 3);
    assert_eq!(window.timing.fps_estimate, FpsEstimate { frames: 0, elapsed_nanos: 0 });
    start(&mut window, 1_200_000_000);
    assert_eq!(window.timing.frame_count_since_check, 0);
    assert_eq!(window.timing.last_check_time, 1_200_000_000);
    assert_eq!(
        window.timing.fps_estimate,
        FpsEstimate { frames: 4, elapsed_nanos: 1_200_000_000 }
    );
}

#[test]
fn drawn_frame_of_a_focused_window_arms_the_timer() {
    let mut window = TermWindow::new(0, 0);
    start(&mut window, 100);
    pass(&mut window, RetryOutcome::Success { geometry_grew: false });
    assert_eq!(
        window.paint_impl(PaintEvent::FrameDrawn {
            now: 150,
            animation_due: Some(1_000),
            window_focused: true,
        }),
        plain(PaintStep::ArmTimer { at: 1_000 })
    );
    assert_eq!(window.scheduler.pending_wake, Some(1_000));
    assert_eq!(window.timing.last_frame_duration, 50);
    assert_eq!(window.phase, PaintPhase::Idle);
}

#[test]
fn drawn_frame_of_an_unfocused_window_rests() {
    let mut window = TermWindow::new(0, 0);
    start(&mut window, 100);
    pass(&mut window, RetryOutcome::Success { geometry_grew: false });
    assert_eq!(
        window.paint_impl(PaintEvent::FrameDrawn {
            now: 150,
            animation_due: Some(1),
            window_focused: false,
        }),
        plain(PaintStep::Rest)
    );
    assert_eq!(window.scheduler.pending_wake, None);
}

#[test]
fn second_frame_does_not_arm_a_redundant_timer() {
    let mut window = TermWindow::new(0, 0);
    for (now, due, expected) in [
        (100u64, 1_000u64, PaintStep::ArmTimer { at: 1_000 }),
        (200, 1_000, PaintStep::Rest),
        (300, 2_000, PaintStep::Rest),
        (400, 900, PaintStep::ArmTimer { at: 900 }),
    ] {
        start(&mut window, now);
        pass(&mut window, RetryOutcome::Success { geometry_grew: false });
        let action = window.paint_impl(PaintEvent::FrameDrawn {
            now: now + 1,
            animation_due: Some(due),
            window_focused: true,
        });
        assert_eq!(action, plain(expected));
    }
    assert_eq!(window.scheduler.pending_wake, Some(900));
}

#[test]
fn fired_timer_clears_the_wake_and_asks_for_a_repaint() {
    let mut window = TermWindow::new(0, 0);
    start(&mut window, 0);
    pass(&mut window, RetryOutcome::Success { geometry_grew: false });
    window.paint_impl(PaintEvent::FrameDrawn {
        now: 1,
        animation_due: Some(50),
        window_focused: true,
    });
    assert_eq!(window.paint_impl(PaintEvent::WakeFired), plain(PaintStep::RequestRepaint));
    assert_eq!(window.scheduler.pending_wake, None);
    assert_eq!(window.phase, PaintPhase::Idle);
}

#[test]
fn events_out_of_turn_are_ignored() {
    let mut window = TermWindow::new(9, 0);
    assert_eq!(
        pass(&mut window, RetryOutcome::Success { geometry_grew: false }),
        plain(PaintStep::Ignored)
    );
    assert_eq!(atlas(&mut window, true), plain(PaintStep::Ignored));
    assert_eq!(
        window.paint_impl(PaintEvent::FrameDrawn {
            now: 1,
            animation_due: Some(5),
            window_focused: true,
        }),
        plain(PaintStep::Ignored)
    );
    assert_eq!(window.phase, PaintPhase::Idle);
    assert_eq!(window.scheduler.pending_wake, None);
    assert_eq!(window.timing.frame_count_since_check, 0);
    start(&mut window, 10);
    assert_eq!(start(&mut window, 11), plain(PaintStep::Ignored));
    assert_eq!(window.frame_start, 10);
    assert_eq!(window.timing.frame_count_since_check, 1);
}

#[test]
fn can_handle_guards_the_counters() {
    let mut window = TermWindow::new(0, 0);
    assert!(window.can_handle(&PaintEvent::FrameStart { now: 1 }));
    window.timing.frame_count_since_check = u64::MAX;
    assert!(!window.can_handle(&PaintEvent::FrameStart { now: 1 }));
    assert!(window.can_handle(&PaintEvent::WakeFired));
    window.timing.frame_count_since_check = 0;
    start(&mut window, 1);
    assert!(window.can_handle(&PaintEvent::FrameStart { now: 2 }));
    window.shape_generation = usize::MAX;
    assert!(!window.can_handle(&PaintEvent::PassFinished { outcome: RetryOutcome::CacheStale }));
    assert!(window.can_handle(&PaintEvent::PassFinished { outcome: RetryOutcome::OtherFailure }));
}
