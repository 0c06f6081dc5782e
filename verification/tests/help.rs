use bubbletea_widgets::help::{help_pairs, should_render_column, Model};
use bubbletea_widgets::key::{Binding, KeyCode};

fn plain(width: usize) -> Model {
    Model::new().with_width(width)
}

fn pair(k: &str, d: &str) -> (String, String) {
    (k.to_string(), d.to_string())
}

#[test]
fn help_defaults() {
    let m = Model::new();
    assert!(!m.show_all);
    assert_eq!(m.width, 0);
    assert_eq!(m.short_separator, " • ");
    assert_eq!(m.full_separator, "    ");
    assert_eq!(m.ellipsis, "…");
}

#[test]
fn help_short_fit_without_limit() {
    let m = plain(0);
    let items = vec![pair("↑/k", "up"), pair("q", "quit")];
    assert_eq!(m.fit_short_help(&items, " • ", " …"), "↑/k up • q quit");
}

#[test]
fn help_short_fit_cuts_with_tail() {
    let m = plain(12);
    let items = vec![pair("a", "one"), pair("b", "two"), pair("c", "three")];
    // "a one" is 5 wide, " • b two" 8 more would make 13 > 12; " …" fits.
    assert_eq!(m.fit_short_help(&items, " • ", " …"), "a one …");
    let narrow = plain(6);
    assert_eq!(narrow.fit_short_help(&items, " • ", " …"), "a one");
}

#[test]
fn help_full_fit_columns() {
    let m = plain(0);
    let groups = vec![vec![pair("a", "x"), pair("b", "y")], vec![], vec![pair("c", "z")]];
    assert_eq!(m.fit_full_help(&groups, " | ", " …"), "a x | c z\nb y      ");
    let cols = m.fit_full_columns(&groups, " | ", " …");
    assert_eq!(cols, vec!["a x\nb y".to_string(), "c z".to_string()]);
}

#[test]
fn help_views_of_no_bindings_are_empty() {
    let m = Model::new();
    assert_eq!(m.short_help_view(vec![]), "");
    assert_eq!(m.full_help_view(vec![]), "");
    let disabled = Binding::from_codes(vec![KeyCode::Enter]).with_help("enter", "ok").with_disabled();
    assert_eq!(m.short_help_view(vec![&disabled]), "");
}

#[test]
fn help_should_render_column() {
    let on = Binding::from_codes(vec![KeyCode::Enter]);
    let off = Binding::from_codes(vec![KeyCode::Esc]).with_disabled();
    assert!(should_render_column(&[&off, &on]));
    assert!(!should_render_column(&[&off]));
    assert!(!should_render_column(&[]));
}

#[test]
fn help_full_fit_counts_separators() {
    let groups = vec![vec![pair("a", "x")], vec![pair("c", "z")]];
    // "a x" and " | c z" need 9 columns.
    assert_eq!(plain(9).fit_full_columns(&groups, " | ", " …"), vec!["a x".to_string(), "c z".to_string()]);
    // At 8 the second column does not fit, and " | …" after "a x" would not either.
    assert_eq!(plain(8).fit_full_columns(&groups, " | ", " …"), vec!["a x".to_string()]);
    // At 9 with a third column, the tail after its separator does not fit.
    let three = vec![vec![pair("a", "x")], vec![pair("c", "z")], vec![pair("d", "w")]];
    assert_eq!(plain(11).fit_full_columns(&three, " | ", " …"), vec!["a x".to_string(), "c z".to_string()]);
    assert_eq!(
        plain(15).fit_full_columns(&three, " | ", " …"),
        vec!["a x".to_string(), "c z".to_string(), "d w".to_string()]
    );
}

#[test]
fn help_full_view_lines_fit_the_width() {
    let h = Model::new().with_width(20);
    let a = Binding::from_codes(vec![KeyCode::Char('1')]).with_help("1", "first");
    let b = Binding::from_codes(vec![KeyCode::Char('2')]).with_help("2", "second");
    let c = Binding::from_codes(vec![KeyCode::Char('3')]).with_help("3", "third");
    let out = h.full_help_view(vec![vec![&a], vec![&b], vec![&c]]);
    for line in out.lines() {
        assert!(lipgloss::width_visible(line) <= 20, "{:?}", line);
    }
    assert!(out.contains("first"));
    assert!(out.contains("second"));
    assert!(!out.contains("third"));
}

#[test]
fn help_pairs_lists_enabled_bindings_in_order() {
    let a = Binding::from_codes(vec![KeyCode::Char('a')]).with_help("a", "alpha");
    let off = Binding::from_codes(vec![KeyCode::Char('b')]).with_help("b", "beta").with_disabled();
    let c = Binding::from_codes(vec![KeyCode::Char('c')]).with_help("c", "gamma");
    assert_eq!(help_pairs(&[&a, &off, &c]), vec![pair("a", "alpha"), pair("c", "gamma")]);
    let h = Model::new();
    let out = h.short_help_view(vec![&a, &off, &c]);
    assert!(out.contains("alpha"));
    assert!(!out.contains("beta"));
    assert!(out.find("alpha").unwrap() < out.find("gamma").unwrap());
}
