use bubbletea_widgets::progress::{next_tag, FrameMsg};

#[test]
fn progress_frame_is_for_its_bar_and_animation() {
    let f = FrameMsg::new(7, 3);
    assert_eq!(f.id(), 7);
    assert_eq!(f.tag(), 3);
    assert!(f.is_for(7, 3));
    assert!(!f.is_for(999, 3));
    assert!(!f.is_for(7, 999));
}

#[test]
fn progress_next_tag() {
    assert_eq!(next_tag(0), 1);
    assert_eq!(next_tag(i64::MAX), i64::MIN);
}
