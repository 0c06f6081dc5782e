use bubbletea_widgets::key::{KeyCode, KeyMsg};
use bubbletea_widgets::table::{with_columns, with_height, with_rows, Column, Model, Row};

fn cols() -> Vec<Column> {
    vec![Column::new("col1", 10), Column::new("col2", 10), Column::new("col3", 10)]
}

fn key(c: KeyCode) -> KeyMsg {
    KeyMsg { key: c, modifiers: 0 }
}

fn rows(n: usize) -> Vec<Row> {
    (0..n).map(|i| Row::new(vec![format!("{}", i)])).collect()
}

#[test]
fn table_test_new_defaults() {
    let m = Model::new(cols());
    assert_eq!(m.selected, 0);
    assert_eq!(m.height, 20);
}

#[test]
fn test_with_rows() {
    let m = Model::new(cols()).with_rows(vec![Row::new(vec!["1".into(), "Foo".into()])]);
    assert_eq!(m.rows.len(), 1);
}

#[test]
fn table_options_apply_in_order() {
    let m = Model::with_options(vec![with_columns(cols()), with_rows(rows(3)), with_height(15), with_height(25)]);
    assert_eq!(m.columns.len(), 3);
    assert_eq!(m.rows.len(), 3);
    assert_eq!(m.height, 25);
    assert!(m.focus);
}

#[test]
fn table_navigation_keys() {
    let mut m = Model::new(cols()).with_rows(rows(10));
    m.update(&key(KeyCode::Down));
    m.update(&key(KeyCode::Char('j')));
    assert_eq!(m.selected, 2);
    m.update(&key(KeyCode::Up));
    assert_eq!(m.selected, 1);
    m.update(&key(KeyCode::End));
    assert_eq!(m.selected, 9);
    m.update(&key(KeyCode::Down));
    assert_eq!(m.selected, 9);
    m.update(&key(KeyCode::Home));
    assert_eq!(m.selected, 0);
    m.update(&key(KeyCode::Up));
    assert_eq!(m.selected, 0);
}

#[test]
fn table_pages_move_by_height() {
    let mut m = Model::new(cols()).with_rows(rows(50));
    m.set_height(5);
    m.update(&key(KeyCode::PageDown));
    assert_eq!(m.selected, 5);
    m.update(&key(KeyCode::Char('d')));
    assert_eq!(m.selected, 7);
    m.update(&key(KeyCode::Char('u')));
    assert_eq!(m.selected, 5);
    m.update(&key(KeyCode::PageUp));
    assert_eq!(m.selected, 0);
}

#[test]
fn table_unfocused_ignores_keys() {
    let mut m = Model::new(cols()).with_rows(rows(5));
    m.blur();
    m.update(&key(KeyCode::Down));
    assert_eq!(m.selected, 0);
    m.focus();
    m.update(&key(KeyCode::Down));
    assert_eq!(m.selected, 1);
}

#[test]
fn table_test_view_basic() {
    let mut m = Model::new(cols());
    m.set_height(5);
    m.rows = vec![Row::new(vec!["Foooooo".into(), "Baaaaar".into(), "Baaaaaz".into()])];
    let out = m.view();
    assert!(out.contains("Foooooo"));
}

#[test]
fn table_view_shows_headers_and_help() {
    let m = Model::new(cols()).with_rows(rows(2));
    let out = m.view();
    assert!(out.contains("col1"));
    assert!(out.contains("col3"));
    let help = m.help_view();
    assert!(help.contains("up"));
    assert!(help.contains("down"));
}

#[test]
fn table_input_carries_headers_rows_and_selection() {
    let mut t = Model::new(cols()).with_rows(rows(3));
    t.update(&key(KeyCode::Down));
    let input = t.table_input();
    assert_eq!(input.headers, vec!["col1".to_string(), "col2".to_string(), "col3".to_string()]);
    assert_eq!(input.widths, vec![10, 10, 10]);
    assert_eq!(input.rows, vec![vec!["0".to_string()], vec!["1".to_string()], vec!["2".to_string()]]);
    assert_eq!(input.selected, 1);
    assert_eq!(input.width, None);
}
