use bubbletea_widgets::key::{
    matches_binding, modifiers, new_binding, parse_key_string, with_disabled, with_help,
    with_keys_str, Binding, KeyCode, KeyMsg, KeyPress,
};

fn msg(code: KeyCode, mods: u8) -> KeyMsg {
    KeyMsg { key: code, modifiers: mods }
}

#[test]
fn key_parse_named_and_modified_keys() {
    let enter = parse_key_string("enter");
    let ctrl_c = parse_key_string("ctrl+c");
    let alt_f4 = parse_key_string("alt+f4");
    let complex = parse_key_string("ctrl+alt+a");
    assert_eq!(enter.code, KeyCode::Enter);
    assert_eq!(enter.mods, modifiers::NONE);
    assert_eq!(ctrl_c.code, KeyCode::Char('c'));
    assert_eq!(ctrl_c.mods, modifiers::CONTROL);
    assert_eq!(alt_f4.code, KeyCode::F(4));
    assert_eq!(alt_f4.mods, modifiers::ALT);
    assert_eq!(complex.code, KeyCode::Char('a'));
    assert_eq!(complex.mods, modifiers::CONTROL | modifiers::ALT);
}

#[test]
fn key_parse_single_characters() {
    assert_eq!(parse_key_string("q").code, KeyCode::Char('q'));
    assert_eq!(parse_key_string("up").code, KeyCode::Up);
    assert_eq!(parse_key_string("pgdown").code, KeyCode::PageDown);
}

#[test]
fn key_binding_matching() {
    let b = Binding::new(vec![KeyPress::with_mods(KeyCode::Char('s'), modifiers::CONTROL)]).with_help("ctrl+s", "save");
    assert!(b.matches(&msg(KeyCode::Char('s'), modifiers::CONTROL)));
    assert!(!b.matches(&msg(KeyCode::Char('s'), modifiers::NONE)));
    assert_eq!(b.help().key, "ctrl+s");
    assert_eq!(b.help().desc, "save");
    assert!(matches_binding(&msg(KeyCode::Char('s'), modifiers::CONTROL), &b));
    let q = Binding::from_codes(vec![KeyCode::Char('q')]);
    assert!(bubbletea_widgets::key::matches(&msg(KeyCode::Char('q'), 0), &[&b, &q]));
    assert!(Binding::matches_any(&msg(KeyCode::Char('s'), modifiers::CONTROL), &[&q, &b]));
    assert!(!bubbletea_widgets::key::matches(&msg(KeyCode::Char('x'), 0), &[&b, &q]));
}

#[test]
fn key_disabled_and_unbound() {
    let mut b = Binding::from_codes(vec![KeyCode::Enter]);
    assert!(b.enabled());
    b.set_enabled(false);
    assert!(!b.enabled());
    assert!(!b.matches(&msg(KeyCode::Enter, 0)));
    let mut c = Binding::from_codes(vec![KeyCode::Enter]).with_help("enter", "ok");
    c.unbind();
    assert!(!c.enabled());
    assert!(c.keys().is_empty());
    assert_eq!(c.help().key, "");
    let empty = Binding::new(vec![]);
    assert!(!empty.enabled());
}

#[test]
fn key_new_binding_with_options() {
    let b = new_binding(vec![with_keys_str(&["ctrl+s", "alt+s"]), with_help("ctrl+s", "Save file")]);
    assert_eq!(b.keys().len(), 2);
    assert!(b.matches(&msg(KeyCode::Char('s'), modifiers::ALT)));
    assert_eq!(b.help().desc, "Save file");
    let d = new_binding(vec![with_keys_str(&["x"]), with_disabled()]);
    assert!(!d.enabled());
}

#[test]
fn key_with_keys_strings() {
    let b = Binding::new(vec![]).with_keys(&["k", "up"]);
    assert!(b.matches(&msg(KeyCode::Up, 0)));
    assert!(b.matches(&msg(KeyCode::Char('k'), 0)));
}
