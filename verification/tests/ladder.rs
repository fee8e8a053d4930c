use termwindow::{step_down, AllowImage};

#[test]
fn step_down_walks_the_whole_ladder() {
    assert_eq!(step_down(AllowImage::Yes), Some(AllowImage::Scale(2)));
    assert_eq!(step_down(AllowImage::Scale(2)), Some(AllowImage::Scale(4)));
    assert_eq!(step_down(AllowImage::Scale(4)), Some(AllowImage::Scale(8)));
    assert_eq!(step_down(AllowImage::Scale(8)), Some(AllowImage::No));
    assert_eq!(step_down(AllowImage::No), None);
}

#[test]
fn fifth_step_from_full_finds_the_ladder_exhausted() {
    let mut level = AllowImage::Yes;
    for _ in 0..4 {
        level = step_down(level).expect("a step is left");
    }
    assert_eq!(level, AllowImage::No);
    assert_eq!(step_down(level), None);
}

#[test]
fn step_down_gives_the_same_answer_each_time() {
    for level in [
        AllowImage::Yes,
        AllowImage::Scale(2),
        AllowImage::Scale(4),
        AllowImage::Scale(8),
        AllowImage::No,
    ] {
        assert_eq!(step_down(level), step_down(level));
    }
}

#[test]
fn a_scale_off_the_ladder_has_no_step_down() {
    assert_eq!(step_down(AllowImage::Scale(0)), None);
    assert_eq!(step_down(AllowImage::Scale(1)), None);
    assert_eq!(step_down(AllowImage::Scale(3)), None);
    assert_eq!(step_down(AllowImage::Scale(16)), None);
    assert_eq!(step_down(AllowImage::Scale(usize::MAX)), None);
}
