use bubbletea_widgets::key::{KeyCode, KeyMsg};
use bubbletea_widgets::paginator::{Model, Type};

#[test]
fn paginator_basic_usage() {
    let mut p = Model::new().with_per_page(10).with_total_items(150);
    assert_eq!(p.total_pages, 15);
    assert!(p.on_first_page());
    p.next_page();
    assert_eq!(p.page, 1);
}

#[test]
fn paginator_defaults() {
    let p = Model::new();
    assert_eq!(p.paginator_type, Type::Arabic);
    assert_eq!(p.page, 0);
    assert_eq!(p.per_page, 1);
    assert_eq!(p.total_pages, 1);
    assert_eq!(p.active_dot, "•");
    assert_eq!(p.inactive_dot, "○");
}

#[test]
fn paginator_pages_for_items() {
    assert_eq!(Model::new().with_per_page(10).with_total_items(95).total_pages, 10);
    let p = Model::new().with_per_page(25).with_total_items(100);
    assert_eq!(p.per_page, 25);
    assert_eq!(p.total_pages, 4);
    assert_eq!(Model::new().with_per_page(0).per_page, 1);
    let mut q = Model::new();
    q.set_per_page(15);
    assert_eq!(q.per_page, 15);
    q.set_per_page(0);
    assert_eq!(q.per_page, 1);
}

#[test]
fn paginator_slice_bounds_and_last_page() {
    let mut p = Model::new().with_per_page(10).with_total_items(25);
    assert_eq!(p.get_slice_bounds(25), (0, 10));
    p.next_page();
    p.next_page();
    assert!(p.on_last_page());
    assert_eq!(p.get_slice_bounds(25), (20, 25));
    assert_eq!(p.items_on_page(25), 5);
    p.next_page();
    assert_eq!(p.page, 2);
    p.prev_page();
    assert_eq!(p.page, 1);
}

#[test]
fn paginator_views_and_keys() {
    let mut p = Model::new().with_per_page(1).with_total_items(3);
    assert_eq!(p.view(), "1/3");
    p.update(&KeyMsg { key: KeyCode::Right, modifiers: 0 });
    assert_eq!(p.view(), "2/3");
    p.update(&KeyMsg { key: KeyCode::Char('h'), modifiers: 0 });
    assert_eq!(p.page, 0);
    p.paginator_type = Type::Dots;
    assert_eq!(p.view(), "• ○ ○");
}

#[test]
fn paginator_shrinking_keeps_page_in_range() {
    let mut p = Model::new().with_per_page(10).with_total_items(100);
    for _ in 0..9 {
        p.next_page();
    }
    assert_eq!(p.page, 9);
    p.set_total_items(30);
    assert_eq!(p.total_pages, 3);
    assert_eq!(p.page, 2);
}

#[test]
fn paginator_items_on_page_past_the_end_is_zero() {
    let mut p = Model::new().with_per_page(10);
    p.page = 9;
    assert_eq!(p.items_on_page(50), 0);
    p.page = 4;
    assert_eq!(p.items_on_page(50), 10);
    assert_eq!(p.items_on_page(45), 5);
    assert_eq!(p.items_on_page(0), 0);
}

#[test]
fn paginator_per_page_after_items_recounts_pages() {
    let p = Model::new().with_total_items(50).with_per_page(10);
    assert_eq!(p.total_pages, 5);
    assert_eq!(p.view(), "1/5");
    let q = Model::new().with_per_page(10).with_total_items(50);
    assert_eq!(q.view(), "1/5");
}
