use bubbletea_widgets::runeutil::{new_sanitizer, replace_newlines, replace_tabs, Sanitizer};

#[test]
fn runeutil_default_sanitizer() {
    let sanitizer = new_sanitizer(vec![]);
    assert_eq!(sanitizer.sanitize_str("Hello\tworld\n"), "Hello    world\n");
    assert_eq!(sanitizer.sanitize_str("Hello\tworld"), "Hello    world");
}

#[test]
fn runeutil_custom_sanitizer() {
    let s = new_sanitizer(vec![replace_tabs(" "), replace_newlines(" | ")]);
    assert_eq!(s.sanitize_str("Line 1\nLine 2\tTabbed"), "Line 1 | Line 2 Tabbed");
    assert_eq!(s.sanitize_str("Line 1\nLine 2\tEnd"), "Line 1 | Line 2 End");
    let s = new_sanitizer(vec![replace_tabs(" "), replace_newlines("<br>")]);
    assert_eq!(s.sanitize_str("Line 1\nLine 2\tTabbed"), "Line 1<br>Line 2 Tabbed");
}

#[test]
fn runeutil_last_option_wins() {
    let s = new_sanitizer(vec![replace_tabs("FIRST"), replace_tabs("SECOND")]);
    assert_eq!(s.sanitize_str("a\tb"), "aSECONDb");
}

#[test]
fn runeutil_tab_replacements() {
    assert_eq!(new_sanitizer(vec![replace_tabs("  ")]).sanitize_str("Hello\tworld"), "Hello  world");
    assert_eq!(new_sanitizer(vec![replace_tabs("→")]).sanitize_str("Column1\tColumn2"), "Column1→Column2");
    assert_eq!(new_sanitizer(vec![replace_tabs("\t")]).sanitize_str("Keep\ttabs"), "Keep\ttabs");
    assert_eq!(new_sanitizer(vec![replace_tabs("")]).sanitize_str("No\ttabs"), "Notabs");
}

#[test]
fn runeutil_newline_replacements() {
    assert_eq!(new_sanitizer(vec![replace_newlines(" ")]).sanitize_str("Line 1\nLine 2\nLine 3"), "Line 1 Line 2 Line 3");
    assert_eq!(new_sanitizer(vec![replace_newlines("↵")]).sanitize_str("First\nSecond"), "First↵Second");
    assert_eq!(new_sanitizer(vec![replace_newlines("<br>")]).sanitize_str("Para 1\nPara 2"), "Para 1<br>Para 2");
    assert_eq!(new_sanitizer(vec![replace_newlines("")]).sanitize_str("No\nbreaks"), "Nobreaks");
    let s = new_sanitizer(vec![replace_newlines(" | ")]);
    assert_eq!(s.sanitize_str("Line1\nLine2"), "Line1 | Line2");
    assert_eq!(s.sanitize_str("Line1\r\nLine2"), "Line1 |  | Line2");
}

#[test]
fn runeutil_control_characters_removed() {
    let s = new_sanitizer(vec![]);
    assert_eq!(s.sanitize_str("Text\x00\x07\x7f"), "Text");
    assert_eq!(s.sanitize_str("Hello\x08\tworld\n"), "Hello    world\n");
    // An escape sequence goes whole; a lone escape character alone.
    assert_eq!(s.sanitize_str("a\x1b[2Jb"), "ab");
    assert_eq!(s.sanitize_str("a\x1bb"), "ab");
}

#[test]
fn runeutil_escape_sequences_removed() {
    let s = new_sanitizer(vec![]);
    assert_eq!(s.sanitize_str("Text\x00\x07\x1b[2J\x7f"), "Text");
    assert_eq!(s.sanitize_str("Hello\x08\tworld\x1b[31mRed\x1b[0m\n"), "Hello    worldRed\n");
    assert_eq!(s.sanitize_str("Hello\x08\tworld\x1b[31m\n"), "Hello    world\n");
    // A sequence left open drops the rest.
    assert_eq!(s.sanitize_str("ok\x1b[12;3"), "ok");
    // A character that cannot continue a sequence ends it and is kept.
    assert_eq!(s.sanitize_str("a\x1b[1\u{e9}b"), "a\u{e9}b");
}

#[test]
fn runeutil_sanitize_runes() {
    let s = new_sanitizer(vec![]);
    let input: Vec<char> = "Hello\tworld\n".chars().collect();
    let expected: Vec<char> = "Hello    world\n".chars().collect();
    assert_eq!(s.sanitize_runes(&input), expected);

    let s = new_sanitizer(vec![replace_tabs("[TAB]"), replace_newlines("[NL]")]);
    let input: Vec<char> = "a\tb\n".chars().collect();
    let expected: Vec<char> = "a[TAB]b[NL]".chars().collect();
    assert_eq!(s.sanitize_runes(&input), expected);

    let s = new_sanitizer(vec![]);
    assert_eq!(s.sanitize_runes(&['H', 'i', '\x07', '\x1b', '!']), vec!['H', 'i', '!']);
}

#[test]
fn runeutil_sanitizing_twice_changes_nothing() {
    let s = Sanitizer::default();
    let once = s.sanitize_str("a\tb\x07c\nd");
    assert_eq!(s.sanitize_str(&once), once);
}

#[test]
fn runeutil_twice_with_own_replacements() {
    let s = new_sanitizer(vec![replace_tabs("\t")]);
    let once = s.sanitize_str("a\tb\x1b[1mc\r\nd\x07");
    assert_eq!(once, "a\tbc\n\nd");
    assert_eq!(s.sanitize_str(&once), once);
}

#[test]
fn runeutil_tab_option_changes_only_tabs() {
    let s1 = new_sanitizer(vec![replace_newlines(" | ")]);
    let s2 = new_sanitizer(vec![replace_newlines(" | "), replace_tabs("")]);
    assert_eq!(s2.sanitize_str("No\ttabs"), "Notabs");
    assert_eq!(s1.sanitize_str("a\nb"), s2.sanitize_str("a\nb"));
    assert_eq!(s2.sanitize_str("a\nb"), "a | b");
}
