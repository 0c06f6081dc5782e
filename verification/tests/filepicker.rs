use bubbletea_widgets::filepicker::{
    format_mode, is_hidden_name, listing_msg, new, prepare_entries, FileEntry, Model, PickerAction, PickerMsg,
};
use bubbletea_widgets::key::{KeyCode, KeyMsg};

fn entry(name: &str, is_dir: bool) -> FileEntry {
    FileEntry {
        name: name.to_string(),
        path: format!("/tmp/{}", name),
        is_dir,
        is_symlink: false,
        size: 10,
        mode: if is_dir { 0o040755 } else { 0o100644 },
        symlink_target: None,
    }
}

fn key(c: KeyCode) -> PickerMsg {
    PickerMsg::Key(KeyMsg { key: c, modifiers: 0 })
}

fn names(v: &[FileEntry]) -> Vec<&str> {
    v.iter().map(|e| e.name.as_str()).collect()
}

fn loaded() -> Model {
    let mut m = new();
    m.update_with_parent(PickerMsg::WindowSize { width: 80, height: 10 }, None);
    let entries = vec![entry("b.txt", false), entry("docs", true), entry("a.rs", false), entry(".hidden", false)];
    m.update_with_parent(PickerMsg::ReadDir(listing_msg(m.id(), entries)), None);
    m
}

#[test]
fn filepicker_format_mode() {
    assert_eq!(format_mode(0o040755), "drwxr-xr-x");
    assert_eq!(format_mode(0o100644), "-rw-r--r--");
    assert_eq!(format_mode(0o120777), "lrwxrwxrwx");
    assert_eq!(format_mode(0o010600), "prw-------");
}

#[test]
fn filepicker_hidden_names() {
    assert_eq!(is_hidden_name(".git"), (true, None));
    assert_eq!(is_hidden_name("src"), (false, None));
    assert_eq!(is_hidden_name(""), (false, None));
}

#[test]
fn filepicker_listing_order() {
    let sorted = prepare_entries(vec![entry("b", false), entry("z", true), entry("a", false), entry("c", true), entry(".x", true)], false);
    assert_eq!(names(&sorted), vec!["c", "z", "a", "b"]);
    let with_hidden = prepare_entries(vec![entry("b", false), entry(".x", true)], true);
    assert_eq!(names(&with_hidden), vec![".x", "b"]);
}

#[test]
fn filepicker_defaults() {
    let m = new();
    assert!(m.id() >= 1);
    assert_eq!(m.current_directory, ".");
    assert!(m.files().is_empty());
    assert!(m.auto_height);
    assert_eq!(m.cursor, ">");
    assert!(m.file_allowed && !m.dir_allowed);
}

#[test]
fn filepicker_window_and_entries() {
    let m = loaded();
    assert_eq!(m.height, 5);
    assert_eq!(names(m.files()), vec!["docs", "a.rs", "b.txt"]);
    assert_eq!(m.selected(), 0);
    assert_eq!(m.window(), (0, 2));
}

#[test]
fn filepicker_entries_for_another_picker_are_ignored() {
    let mut m = new();
    let other = m.id() + 1;
    m.update_with_parent(PickerMsg::ReadDir(listing_msg(other, vec![entry("a", false)])), None);
    assert!(m.files().is_empty());
}

#[test]
fn filepicker_navigation() {
    let mut m = loaded();
    m.update_with_parent(key(KeyCode::Down), None);
    m.update_with_parent(key(KeyCode::Char('j')), None);
    assert_eq!(m.selected(), 2);
    m.update_with_parent(key(KeyCode::Down), None);
    assert_eq!(m.selected(), 2);
    m.update_with_parent(key(KeyCode::Char('g')), None);
    assert_eq!(m.selected(), 0);
    m.update_with_parent(key(KeyCode::Char('G')), None);
    assert_eq!(m.selected(), 2);
    m.update_with_parent(key(KeyCode::Up), None);
    assert_eq!(m.selected(), 1);
}

#[test]
fn filepicker_open_file_sets_path() {
    let mut m = loaded();
    m.update_with_parent(key(KeyCode::Down), None);
    let a = m.update_with_parent(key(KeyCode::Char('l')), None);
    assert_eq!(a, PickerAction::Nothing);
    assert_eq!(m.path, "/tmp/a.rs");
    let (did, path) = m.did_select_file(&key(KeyCode::Enter));
    assert!(did);
    assert_eq!(path, "/tmp/a.rs");
    m.allowed_types = vec![".txt".to_string()];
    assert!(!m.did_select_file(&key(KeyCode::Enter)).0);
    let (dis, p) = m.did_select_disabled_file(&key(KeyCode::Enter));
    assert!(dis);
    assert_eq!(p, "/tmp/a.rs");
    assert!(m.can_select("notes.txt"));
    assert!(!m.can_select("x.rs"));
}

#[test]
fn filepicker_open_directory_then_back_restores_position() {
    let mut m = loaded();
    m.update_with_parent(key(KeyCode::Down), None);
    m.update_with_parent(key(KeyCode::Up), None);
    let a = m.update_with_parent(key(KeyCode::Right), None);
    assert_eq!(a, PickerAction::ReadDir);
    assert_eq!(m.current_directory, "/tmp/docs");
    assert!(m.files().is_empty());
    m.read_dir_done(Ok(vec![entry("inner.md", false)]));
    assert_eq!(names(m.files()), vec!["inner.md"]);
    let b = m.update_with_parent(key(KeyCode::Char('h')), Some("/tmp".to_string()));
    assert_eq!(b, PickerAction::ReadDir);
    assert_eq!(m.current_directory, "/tmp");
    assert_eq!(m.selected(), 0);
    let none = m.update_with_parent(key(KeyCode::Char('h')), None);
    assert_eq!(none, PickerAction::Nothing);
}

#[test]
fn filepicker_read_error_is_recorded() {
    let mut m = loaded();
    m.read_dir_done(Err("permission denied".to_string()));
    assert_eq!(m.error, Some("Failed to read directory: permission denied".to_string()));
    assert!(m.files().is_empty());
}

#[test]
fn filepicker_set_height_shrinks_window() {
    let mut m = loaded();
    m.set_height(2);
    assert_eq!(m.height, 2);
    assert_eq!(m.window(), (0, 1));
}

#[test]
fn filepicker_update_finds_parent() {
    let mut m = loaded();
    m.current_directory = "/tmp/docs".to_string();
    let a = m.update(key(KeyCode::Left));
    assert_eq!(a, PickerAction::ReadDir);
    assert_eq!(m.current_directory, "/tmp");
}

#[test]
fn filepicker_view_lists_entries_in_window() {
    let m = loaded();
    let sizes = vec!["4.0kB".to_string(), "10B".to_string(), "10B".to_string()];
    let out = m.view_with_sizes(&sizes);
    assert!(out.contains("docs"));
    assert!(out.contains("a.rs"));
    assert!(out.contains("drwxr-xr-x"));
    assert!(out.contains(">"));
    assert!(out.ends_with('\n'));
}

#[test]
fn filepicker_view_without_files() {
    let m = new();
    assert!(m.view_with_sizes(&vec![]).contains("Bummer. No Files Found."));
}

#[test]
fn filepicker_line_count_and_padding() {
    use_counting();
}

fn use_counting() {
    use_lines("a\nb\n", 2);
    use_lines("a\nb", 2);
    use_lines("", 0);
    use_lines("\n\n", 2);
    assert_eq!(bubbletea_widgets::filepicker::pad_left("10B", 7), "    10B");
    assert_eq!(bubbletea_widgets::filepicker::pad_left("1234567890", 7), "1234567890");
}

fn use_lines(s: &str, n: usize) {
    let chars: Vec<char> = s.chars().collect();
    assert_eq!(bubbletea_widgets::filepicker::line_count(&chars), n);
    assert_eq!(s.lines().count(), n);
}

#[test]
fn filepicker_back_then_listing_message_keeps_restored_cursor() {
    let mut m = new();
    m.update_with_parent(PickerMsg::WindowSize { width: 80, height: 10 }, None);
    let listing = || vec![entry("alpha", true), entry("docs", true), entry("z.txt", false)];
    m.read_dir_done(Ok(listing()));
    m.update_with_parent(key(KeyCode::Down), None);
    assert_eq!(m.selected(), 1);
    assert_eq!(m.update_with_parent(key(KeyCode::Right), None), PickerAction::ReadDir);
    assert_eq!(m.current_directory, "/tmp/docs");
    m.read_dir_done(Ok(vec![entry("inner.md", false)]));
    assert_eq!(m.selected(), 0);
    // The parent comes from `std::path::Path::parent`.
    assert_eq!(m.update(key(KeyCode::Left)), PickerAction::ReadDir);
    assert_eq!(m.current_directory, "/tmp");
    assert_eq!(m.selected(), 1);
    // The re-read listing arrives as a message: the restored cursor stays.
    let msg = listing_msg(m.id(), listing());
    m.update(PickerMsg::ReadDir(msg));
    assert_eq!(m.selected(), 1);
    assert_eq!(m.files()[m.selected()].name, "docs");
    // A direct read puts the cursor at the top.
    m.read_dir_done(Ok(listing()));
    assert_eq!(m.selected(), 0);
}

#[test]
fn filepicker_entry_parts_plan_each_line() {
    let m = loaded();
    let sel = m.selected();
    let parts = m.entry_parts(sel, "10B");
    assert_eq!(parts.len(), 3);
    assert_eq!(parts[2].0, "\n");
    assert!(parts[1].0.ends_with(m.files()[sel].name.as_str()));
    let other = if sel == 0 { 1 } else { 0 };
    let parts = m.entry_parts(other, "10B");
    let texts: Vec<&str> = parts.iter().map(|p| p.0.as_str()).collect();
    let f = &m.files()[other];
    let mode = format_mode(f.mode);
    assert_eq!(texts, vec![" ", " ", mode.as_str(), "10B", " ", f.name.as_str(), "", "\n"]);
    assert!(parts[1].1.is_none() && parts[0].1.is_some());
}
