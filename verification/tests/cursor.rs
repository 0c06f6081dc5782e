use bubbletea_widgets::cursor::{CursorLook, CursorMsg, Mode, Model};
use bubbletea_widgets::time::Duration;

fn tag_of(s: &bubbletea_widgets::cursor::Scheduled) -> usize {
    match &s.msg {
        CursorMsg::Blink(b) => b.tag,
        CursorMsg::InitialBlink(_) => panic!("expected a blink"),
    }
}

#[test]
fn test_blink_cmd_tag_captured_no_race() {
    let mut m = Model::new();
    m.blink_speed = Duration::from_millis(10);
    let _ = m.set_mode(Mode::Blink);
    let _ = m.focus();

    let cmd1 = m.blink_cmd().expect("cmd1");
    let expected_tag = tag_of(&cmd1);

    let cmd2 = m.blink_cmd().expect("cmd2");
    let new_tag = tag_of(&cmd2);

    assert_ne!(expected_tag, new_tag, "Tags should be different after second blink_cmd");
}

#[test]
fn cursor_blink_toggles_and_drops_stale_blinks() {
    let mut m = Model::new();
    let _ = m.focus();
    let first = m.blink_cmd().unwrap();
    let second = m.blink_cmd().unwrap();
    let shown = m.shows_block();
    assert!(m.update(&first.msg).is_none());
    assert_eq!(m.shows_block(), shown);
    assert!(m.update(&second.msg).is_some());
    assert_eq!(m.shows_block(), !shown);
}

#[test]
fn cursor_modes_and_focus() {
    let mut m = Model::new();
    assert_eq!(m.mode(), Mode::Blink);
    assert!(!m.focused());
    assert!(m.set_mode(Mode::Static).is_none());
    let _ = m.focus();
    assert!(m.focused());
    m.blur();
    assert!(!m.focused());
    assert_eq!(Mode::Hide.to_string(), "hidden");
}

#[test]
fn cursor_view_parts_pick_the_look() {
    let mut m = Model::new();
    m.set_char("x");
    let _ = m.set_mode(Mode::Static);
    let _ = m.focus();
    let (look, ch, _) = m.view_parts();
    assert_eq!((look, ch), (CursorLook::Block, "x".to_string()));
    let _ = m.set_mode(Mode::Hide);
    let (look, ch, _) = m.view_parts();
    assert_eq!((look, ch), (CursorLook::Text, "x".to_string()));
    m.blur();
    assert_eq!(m.view_parts().0, CursorLook::Text);
}
