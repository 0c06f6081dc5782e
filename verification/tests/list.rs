use bubbletea_widgets::list::defaultitem::{compose_item, highlight_segments, item_look, ItemLook};
use bubbletea_widgets::list::ItemContext;
use bubbletea_widgets::key::{KeyCode, KeyMsg};
use bubbletea_widgets::list::model::ListAction;
use bubbletea_widgets::list::{DefaultDelegate, DefaultItem, FilterState, Model};

fn key(c: KeyCode) -> KeyMsg {
    KeyMsg { key: c, modifiers: 0 }
}

fn fruits() -> Vec<DefaultItem> {
    vec![
        DefaultItem::new("apple", "red"),
        DefaultItem::new("banana", "yellow"),
        DefaultItem::new("grape", "purple"),
    ]
}

fn list() -> Model<DefaultItem, DefaultDelegate> {
    Model::new(fruits(), DefaultDelegate::new(), 80, 24)
}

#[test]
fn list_new_defaults() {
    let m = list();
    assert_eq!(m.title(), "List");
    assert_eq!(m.len(), 3);
    assert_eq!(m.cursor(), 0);
    assert_eq!(m.selected_item().unwrap().title, "apple");
    assert!(!m.is_filtering());
    assert_eq!(m.status_line(), "3 items");
}

#[test]
fn list_cursor_moves_and_stops_at_ends() {
    let mut m = list();
    m.update(&key(KeyCode::Down));
    m.update(&key(KeyCode::Char('j')));
    assert_eq!(m.cursor(), 2);
    m.update(&key(KeyCode::Down));
    assert_eq!(m.cursor(), 2);
    m.update(&key(KeyCode::Up));
    assert_eq!(m.selected_item().unwrap().title, "banana");
    m.update(&key(KeyCode::Home));
    assert_eq!(m.cursor(), 0);
    m.update(&key(KeyCode::End));
    assert_eq!(m.cursor(), 2);
}

#[test]
fn list_enter_selects_and_q_quits() {
    let mut m = list();
    m.update(&key(KeyCode::Down));
    assert_eq!(m.update(&key(KeyCode::Enter)), ListAction::Select(1));
    assert_eq!(m.update(&key(KeyCode::Char('q'))), ListAction::Quit);
    assert_eq!(m.update(&key(KeyCode::Char('/'))), ListAction::FocusFilter);
    assert_eq!(m.filter_state_info().state, FilterState::Filtering);
}

#[test]
fn list_filter_applies_and_clears() {
    let mut m = list();
    m.set_filter_text("ap");
    m.apply_filter();
    assert_eq!(m.filtered_items().len(), 2);
    assert_eq!(m.filtered_items()[0].item.title, "apple");
    assert_eq!(m.filtered_items()[1].item.title, "grape");
    assert_eq!(m.filtered_items()[0].index, 0);
    assert_eq!(m.filtered_items()[1].index, 2);
    m.set_filter_state(FilterState::FilterApplied);
    assert_eq!(m.len(), 2);
    assert_eq!(m.status_line(), "\"ap\" 2 items • 1 filtered");
    m.clear_filter();
    assert_eq!(m.len(), 3);
    assert_eq!(m.status_line(), "3 items");
}

#[test]
fn list_filter_with_no_match() {
    let mut m = list();
    m.set_filter_text("zzz");
    m.apply_filter();
    m.set_filter_state(FilterState::FilterApplied);
    assert_eq!(m.len(), 0);
    assert_eq!(m.status_line(), "Nothing matched");
}

#[test]
fn list_insert_keeps_selected_item() {
    let mut m = list();
    m.update(&key(KeyCode::Down));
    m.insert_item(0, DefaultItem::new("cherry", "dark"));
    assert_eq!(m.selected_item().unwrap().title, "banana");
    assert_eq!(m.items_len(), 4);
}

#[test]
fn list_move_keeps_selected_item() {
    let mut m = list();
    m.update(&key(KeyCode::Down));
    m.move_item(0, 2);
    assert_eq!(m.selected_item().unwrap().title, "banana");
    assert_eq!(m.items()[2].title, "apple");
}

#[test]
fn list_remove_and_pop_keep_cursor_in_range() {
    let mut m = list();
    m.update(&key(KeyCode::End));
    let removed = m.remove_item(2);
    assert_eq!(removed.title, "grape");
    assert_eq!(m.cursor(), 1);
    assert_eq!(m.pop_item().unwrap().title, "banana");
    assert_eq!(m.cursor(), 0);
    m.push_item(DefaultItem::new("kiwi", "green"));
    assert_eq!(m.items_len(), 2);
}

#[test]
fn list_status_names_and_empty() {
    let mut m = Model::new(vec![DefaultItem::new("one", "")], DefaultDelegate::new(), 80, 24);
    m.set_status_bar_item_name("fruit", "fruits");
    assert_eq!(m.status_line(), "1 fruit");
    let e: Model<DefaultItem, DefaultDelegate> = Model::new(vec![], DefaultDelegate::new(), 80, 24);
    assert_eq!(e.status_line(), "No items");
}

#[test]
fn list_full_help_toggles() {
    let mut m = list();
    assert!(!m.show_full_help());
    m.update(&key(KeyCode::Char('?')));
    assert!(m.show_full_help());
    assert!(m.help().show_all);
}

#[test]
fn list_highlight_segments() {
    assert_eq!(highlight_segments(5, &[1, 2, 4]), vec![(0, 1, false), (1, 3, true), (3, 4, false), (4, 5, true)]);
    assert_eq!(highlight_segments(3, &[]), vec![(0, 3, false)]);
}

#[test]
fn list_render_view_shows_sections() {
    let m = list();
    let out = m.render_view();
    assert!(out.contains("List"));
    assert!(out.contains("apple"));
    assert!(out.contains("3 items"));
    assert!(!out.contains("quit"));
    let mut m = list();
    m.set_show_help(true);
    assert!(m.render_view().contains("quit"));
}

#[test]
fn list_help_hidden_by_default() {
    let m: Model<DefaultItem, DefaultDelegate> = Model::new(vec![], DefaultDelegate::new(), 80, 24);
    assert!(!m.show_help());
    assert_eq!(m.view_footer(), "");
}

#[test]
fn list_end_then_down_stays_on_last() {
    let mut m = Model::new(
        vec![DefaultItem::new("A", ""), DefaultItem::new("B", ""), DefaultItem::new("C", "")],
        DefaultDelegate::new(),
        80,
        24,
    );
    m.update(&key(KeyCode::End));
    assert_eq!(m.cursor(), 2);
    assert_eq!(m.update(&key(KeyCode::Down)), ListAction::Nothing);
    assert_eq!(m.cursor(), 2);
    assert_eq!(m.selected_item().unwrap().title, "C");
}

#[test]
fn list_ctrl_c_clears_filter() {
    let mut m = Model::new(
        vec![DefaultItem::new("Apple", ""), DefaultItem::new("Banana", "")],
        DefaultDelegate::new(),
        80,
        24,
    );
    m.set_filter_text("ap");
    m.update(&key(KeyCode::Char('/')));
    m.update(&key(KeyCode::Enter));
    assert_eq!(m.filter_state_info().state, FilterState::FilterApplied);
    assert_eq!(m.len(), 1);
    let ctrl_c = KeyMsg { key: KeyCode::Char('c'), modifiers: bubbletea_widgets::key::modifiers::CONTROL };
    m.update(&ctrl_c);
    assert!(!m.is_filtering());
    assert_eq!(m.filter_state_info().query, "");
    assert_eq!(m.len(), 2);
    assert_eq!(m.cursor(), 0);
}

#[test]
fn list_item_context_gives_the_shown_items_own_matches() {
    let mut m = Model::new(
        vec![DefaultItem::new("Apple", ""), DefaultItem::new("Banana", ""), DefaultItem::new("Cherry", "")],
        DefaultDelegate::new(),
        80,
        24,
    );
    m.set_filter_text("an");
    m.apply_filter();
    m.set_filter_state(FilterState::FilterApplied);
    assert_eq!(m.len(), 1);
    assert_eq!(m.filtered_items()[0].index, 1);
    let own = m.matches_for_original_item(1).unwrap().clone();
    assert!(!own.is_empty());
    assert_eq!(m.item_context(0).matches, Some(own));
    assert_eq!(m.item_context(1).matches, None);
    let plain = list();
    assert_eq!(plain.item_context(0).matches, None);
}

#[test]
fn list_empty_view_says_no_items() {
    let m: Model<DefaultItem, DefaultDelegate> = Model::new(vec![], DefaultDelegate::new(), 80, 24);
    assert!(m.view_items().contains("No items."));
}

#[test]
fn list_highlighting_keeps_text() {
    use_plain_highlighting();
}

fn use_plain_highlighting() {
    let plain = lipgloss::Style::new();
    let out = bubbletea_widgets::list::defaultitem::apply_character_highlighting("apple", &[0, 1], &plain, &plain);
    assert!(out.contains("pple") || out.contains("ple"));
    let none = bubbletea_widgets::list::defaultitem::apply_character_highlighting("apple", &[], &plain, &plain);
    assert_eq!(none, "apple");
}

#[test]
fn list_header_while_filtering_shows_the_query() {
    let mut m = list();
    m.update(&key(KeyCode::Char('/')));
    assert_eq!(m.view_header(), "Filter: ");
    m.update(&key(KeyCode::Char('a')));
    assert_eq!(m.view_header(), "Filter: a");
}

#[test]
fn list_item_look_and_text() {
    let ctx = |state: FilterState, empty: bool| ItemContext {
        width: 80,
        cursor: 1,
        filter_state: state,
        filter_empty: empty,
        matches: None,
    };
    assert_eq!(item_look(&ctx(FilterState::Filtering, true), 1), ItemLook::Dimmed);
    assert_eq!(item_look(&ctx(FilterState::Filtering, false), 1), ItemLook::Normal);
    assert_eq!(item_look(&ctx(FilterState::Unfiltered, true), 1), ItemLook::Selected);
    assert_eq!(item_look(&ctx(FilterState::FilterApplied, false), 0), ItemLook::Normal);
    assert_eq!(compose_item(true, "T".to_string(), "D".to_string()), "T\nD");
    assert_eq!(compose_item(true, "T".to_string(), String::new()), "T");
    assert_eq!(compose_item(false, "T".to_string(), "D".to_string()), "T");
}

#[test]
fn list_view_items_shows_one_rendering_per_item_in_view() {
    let m = list();
    let out = m.view_items();
    assert!(out.contains("apple") && out.contains("banana") && out.contains("grape"));
    assert!(!out.ends_with('\n'));
    assert!(out.find("apple").unwrap() < out.find("banana").unwrap());
}

#[test]
fn list_parts_can_be_changed_in_place() {
    let mut m = list();
    m.help_mut().width = 30;
    assert_eq!(m.help().width, 30);
    assert!(!m.show_full_help());
    let sp = bubbletea_widgets::spinner::new(&[bubbletea_widgets::spinner::with_spinner(bubbletea_widgets::spinner::dot())]);
    let id = sp.id();
    *m.spinner_mut() = sp;
    assert_eq!(m.spinner().id(), id);
    m.styles_mut().title = lipgloss::Style::new();
    m.items_mut()[0] = DefaultItem::new("Modified", "Updated");
    assert_eq!(m.items()[0].title, "Modified");
    m.set_filter_text("ba");
    m.apply_filter();
    m.set_filter_state(FilterState::FilterApplied);
    assert_eq!(m.len(), 1);
    m.items_mut().push(DefaultItem::new("kiwi", "green"));
    assert!(!m.is_filtering());
    assert_eq!(m.len(), 4);
}

#[test]
fn list_highlight_and_item_plans_split_the_text() {
    use_plain_highlighting();
    let plain = lipgloss::Style::new();
    let parts = bubbletea_widgets::list::defaultitem::highlight_parts("apple", &[0, 1], &plain, &plain);
    let texts: Vec<&str> = parts.iter().map(|p| p.0.as_str()).collect();
    assert_eq!(texts, vec!["ap", "ple"]);
    let none = bubbletea_widgets::list::defaultitem::highlight_parts("apple", &[9], &plain, &plain);
    assert_eq!(none.len(), 1);
    assert_eq!(none[0].0, "apple");

    let d = DefaultDelegate::new();
    let ctx = ItemContext {
        width: 80,
        cursor: 0,
        filter_state: FilterState::FilterApplied,
        filter_empty: false,
        matches: Some(vec![1, 2]),
    };
    let (title, desc) = d.plan_item(&ctx, 1, "Banana", "");
    let texts: Vec<&str> = title.iter().map(|p| p.0.as_str()).collect();
    assert_eq!(texts, vec!["B", "an", "ana"]);
    assert!(desc.is_empty());
    let dimmed = ItemContext { filter_state: FilterState::Filtering, filter_empty: true, ..ctx };
    let (title, desc) = d.plan_item(&dimmed, 1, "Banana", "yellow");
    assert_eq!(title.len(), 1);
    assert_eq!(title[0].0, "Banana");
    assert_eq!(desc[0].0, "yellow");
}
