//! The list model: items, cursor, viewport, pagination, filtering and key handling.
use vstd::prelude::*;
use fuzzy_matcher::FuzzyMatcher;
use super::keys::{ListKeyMap, is_default_keymap};
use super::types::{FilterState, FilterStateInfo, FilteredItem, Item, ItemDelegate};
use crate::key::{KeyCode, KeyMsg, spec_matches};
use crate::paginator::{self, after_total_items};
use crate::help;
use crate::spinner;
use crate::style::render;
use crate::text::{join_strings, joined, lemma_joined_starts_with_first};
use super::style::ListStyles;
use super::types::ItemContext;
use crate::key::Binding;
use crate::text::{chars_to_string, push_char, push_decimal, push_str, str_to_chars, decimal};

verus! {

/// The state of a list.
pub struct ListView<I: Item, D: ItemDelegate<I>> {
    pub title: Seq<char>,
    pub items: Seq<I>,
    /// Lines per item and blank lines between items, as the delegate gives them.
    pub item_height: usize,
    pub item_spacing: usize,
    /// The delegate that renders the items.
    pub delegate: D,
    pub paginator: paginator::Model,
    pub per_page: usize,
    pub show_title: bool,
    pub show_spinner: bool,
    pub width: usize,
    pub height: usize,
    pub show_status_bar: bool,
    pub status_item_singular: Option<Seq<char>>,
    pub status_item_plural: Option<Seq<char>>,
    pub show_pagination: bool,
    pub show_help: bool,
    /// The help view's settings; `help.show_all` says whether it shows all bindings.
    pub help: help::Model,
    pub styles: ListStyles,
    pub spinner: spinner::Model,
    pub keymap: ListKeyMap,
    pub filter_state: FilterState,
    pub filtered: Seq<FilteredItem<I>>,
    pub cursor: usize,
    pub viewport_start: usize,
    pub filter_text: Seq<char>,
}

/// A list of items shown through a delegate.
pub struct Model<I: Item, D: ItemDelegate<I>> {
    title: String,
    items: Vec<I>,
    core: ListCore<I, D>,
    per_page: usize,
    show_title: bool,
    show_spinner: bool,
    width: usize,
    height: usize,
    show_status_bar: bool,
    status_item_singular: Option<String>,
    status_item_plural: Option<String>,
    show_pagination: bool,
    show_help: bool,
    help: help::Model,
    styles: ListStyles,
    spinner: spinner::Model,
    keymap: ListKeyMap,
    filter_state: FilterState,
    filtered_items: Vec<FilteredItem<I>>,
    viewport_start: usize,
    filter_text: String,
}

/// The parts of a list that its invariant speaks of: the delegate, the paginator and
/// the cursor.
struct ListCore<I: Item, D: ItemDelegate<I>> {
    delegate: D,
    paginator: paginator::Model,
    cursor: usize,
    item: core::marker::PhantomData<I>,
}

impl<I: Item, D: ItemDelegate<I>> ListCore<I, D> {
    #[verifier::type_invariant]
    closed spec fn inv(&self) -> bool {
        &&& self.paginator.per_page >= 1
        &&& self.delegate.spec_height() + self.delegate.spec_spacing() <= usize::MAX
        &&& self.cursor < usize::MAX
    }
}

/// The string form of an optional string.
pub open spec fn opt_view(o: Option<String>) -> Option<Seq<char>> {
    match o {
        Some(s) => Some(s@),
        None => None,
    }
}

impl<I: Item, D: ItemDelegate<I>> View for Model<I, D> {
    type V = ListView<I, D>;

    closed spec fn view(&self) -> ListView<I, D> {
        ListView {
            title: self.title@,
            items: self.items@,
            item_height: self.core.delegate.spec_height(),
            item_spacing: self.core.delegate.spec_spacing(),
            delegate: self.core.delegate,
            paginator: self.core.paginator,
            per_page: self.per_page,
            show_title: self.show_title,
            show_spinner: self.show_spinner,
            width: self.width,
            height: self.height,
            show_status_bar: self.show_status_bar,
            status_item_singular: opt_view(self.status_item_singular),
            status_item_plural: opt_view(self.status_item_plural),
            show_pagination: self.show_pagination,
            show_help: self.show_help,
            help: self.help,
            styles: self.styles,
            spinner: self.spinner,
            keymap: self.keymap,
            filter_state: self.filter_state,
            filtered: self.filtered_items@,
            cursor: self.core.cursor,
            viewport_start: self.viewport_start,
            filter_text: self.filter_text@,
        }
    }
}

/// The number of items shown: all items when unfiltered, else the filtered ones.
pub open spec fn spec_len<I: Item, D: ItemDelegate<I>>(v: ListView<I, D>) -> nat {
    if v.filter_state == FilterState::Unfiltered {
        v.items.len()
    } else {
        v.filtered.len()
    }
}

/// Lines above the items: title and status bar when both shown, else one.
pub open spec fn header_height<I: Item, D: ItemDelegate<I>>(v: ListView<I, D>) -> nat {
    if v.show_title && v.show_status_bar { 2 } else { 1 }
}

/// Lines below the items: one for help and one for pagination, when shown.
pub open spec fn footer_height<I: Item, D: ItemDelegate<I>>(v: ListView<I, D>) -> nat {
    (if v.show_help { 1nat } else { 0nat }) + (if v.show_pagination { 1nat } else { 0nat })
}

/// Lines left for items.
pub open spec fn available_height<I: Item, D: ItemDelegate<I>>(v: ListView<I, D>) -> nat {
    let used = header_height(v) + footer_height(v);
    if v.height >= used { (v.height - used) as nat } else { 0 }
}

/// Lines one item takes with its spacing.
pub open spec fn item_lines<I: Item, D: ItemDelegate<I>>(v: ListView<I, D>) -> nat {
    (v.item_height + v.item_spacing) as nat
}

/// How many items fit in the available lines (at least one); one when items take no
/// lines.
pub open spec fn items_per_view<I: Item, D: ItemDelegate<I>>(v: ListView<I, D>) -> nat {
    if item_lines(v) == 0 {
        1
    } else if available_height(v) / item_lines(v) >= 1 {
        available_height(v) / item_lines(v)
    } else {
        1
    }
}

/// What the delegate reads of the list when rendering the item at position `pos` of
/// the shown items: the width, the cursor, the filter state, whether the filter text is
/// empty, and, while a filter is set, the positions that matched that item.
pub open spec fn context_for<I: Item, D: ItemDelegate<I>>(v: ListView<I, D>, pos: usize, c: ItemContext) -> bool {
    &&& c.width == v.width
    &&& c.cursor == v.cursor
    &&& c.filter_state == v.filter_state
    &&& c.filter_empty == (v.filter_text.len() == 0)
    &&& match c.matches {
        Some(m) => v.filter_state != FilterState::Unfiltered && pos < v.filtered.len() && m@ == v.filtered[pos as int].matches@,
        None => v.filter_state == FilterState::Unfiltered || pos >= v.filtered.len(),
    }
}

/// The index among all items of the item shown at position `pos`.
pub open spec fn item_index<I: Item, D: ItemDelegate<I>>(v: ListView<I, D>, pos: int) -> usize {
    if v.filter_state == FilterState::Unfiltered {
        pos as usize
    } else {
        v.filtered[pos].index
    }
}

/// The item shown at position `pos`.
pub open spec fn item_at<I: Item, D: ItemDelegate<I>>(v: ListView<I, D>, pos: int) -> I {
    if v.filter_state == FilterState::Unfiltered {
        v.items[pos]
    } else {
        v.filtered[pos].item
    }
}

/// The strings of a sequence of strings.
pub open spec fn strings_view(v: Seq<String>) -> Seq<Seq<char>> {
    v.map_values(|s: String| s@)
}

/// The cursor is on a shown item whenever items are shown; with no filtered items it
/// is on one of all the items (or at 0 when there are none); an unfiltered list keeps
/// no filtered items.
pub open spec fn cursor_in_range<I: Item, D: ItemDelegate<I>>(v: ListView<I, D>) -> bool {
    &&& spec_len(v) == 0 || v.cursor < spec_len(v)
    &&& v.filtered.len() == 0 ==> v.items.len() == 0 || v.cursor < v.items.len()
    &&& v.filter_state == FilterState::Unfiltered ==> v.filtered.len() == 0
}

/// Recomputing the layout leaves the cursor, the items and the filter alone.
proof fn lemma_layout_keeps_cursor<I: Item, D: ItemDelegate<I>>(v: ListView<I, D>)
    ensures
        cursor_in_range(paginated(v)) == cursor_in_range(v),
        cursor_in_range(page_synced(v)) == cursor_in_range(v),
        cursor_in_range(synced(v)) == cursor_in_range(v),
        cursor_in_range(page_synced(paginated(v))) == cursor_in_range(v),
        cursor_in_range(page_synced(synced(v))) == cursor_in_range(v),
{
    lemma_layout_keeps_cursor_once(paginated(v));
}

proof fn lemma_layout_keeps_cursor_once<I: Item, D: ItemDelegate<I>>(v: ListView<I, D>)
    ensures
        cursor_in_range(page_synced(v)) == cursor_in_range(v),
{
}

proof fn lemma_normal_keeps_cursor<I: Item, D: ItemDelegate<I>>(v: ListView<I, D>, msg: KeyMsg)
    requires
        cursor_in_range(v),
        v.filter_state != FilterState::Filtering,
    ensures
        cursor_in_range(normal_step(v, msg).0),
{
    let k = v.keymap;
    let len = spec_len(v);
    let ipv = items_per_view(v);
    if spec_matches(k.cursor_up@, msg) {
        let n = if v.cursor > 0 {
            if v.cursor == v.viewport_start {
                let c = (v.cursor - 1) as usize;
                ListView { cursor: c, viewport_start: sat_sub(c as int, ipv - 1) as usize, ..v }
            } else {
                synced(ListView { cursor: (v.cursor - 1) as usize, ..v })
            }
        } else {
            v
        };
        lemma_layout_keeps_cursor(ListView { cursor: (v.cursor - 1) as usize, ..v });
        lemma_layout_keeps_cursor(n);
    } else if spec_matches(k.cursor_down@, msg) {
        let n = if v.cursor < sat_sub(len as int, 1) {
            if v.cursor >= v.viewport_start && v.cursor - v.viewport_start == ipv - 1 {
                ListView { cursor: (v.cursor + 1) as usize, viewport_start: (v.cursor + 1) as usize, ..v }
            } else {
                synced(ListView { cursor: (v.cursor + 1) as usize, ..v })
            }
        } else {
            v
        };
        lemma_layout_keeps_cursor(ListView { cursor: (v.cursor + 1) as usize, ..v });
        lemma_layout_keeps_cursor(n);
    } else if spec_matches(k.go_to_start@, msg) {
        lemma_layout_keeps_cursor(ListView { cursor: 0, ..v });
    } else if spec_matches(k.go_to_end@, msg) {
        lemma_layout_keeps_cursor(ListView { cursor: sat_sub(len as int, 1) as usize, ..v });
    } else if spec_matches(k.next_page@, msg) {
        if len > 0 {
            let c = if v.cursor + v.per_page < len - 1 { v.cursor + v.per_page } else { len - 1 };
            lemma_layout_keeps_cursor(ListView { cursor: c as usize, ..v });
            lemma_layout_keeps_cursor(synced(ListView { cursor: c as usize, ..v }));
        } else {
            lemma_layout_keeps_cursor(v);
        }
    } else if spec_matches(k.prev_page@, msg) {
        lemma_layout_keeps_cursor(ListView { cursor: sat_sub(v.cursor as int, v.per_page as int) as usize, ..v });
    } else if spec_matches(k.filter@, msg) {
    } else if spec_matches(k.clear_filter@, msg) {
        lemma_layout_keeps_cursor(ListView {
            filter_text: Seq::empty(),
            filter_state: FilterState::Unfiltered,
            filtered: Seq::empty(),
            cursor: 0,
            ..v
        });
    } else if spec_matches(k.show_full_help@, msg) || spec_matches(k.close_full_help@, msg) {
        lemma_layout_keeps_cursor(ListView { help: help::Model { show_all: !v.help.show_all, ..v.help }, ..v });
    } else if spec_matches(k.quit@, msg) {
    } else {
        lemma_layout_keeps_cursor(v);
    }
}

proof fn lemma_filtering_keeps_cursor<I: Item, D: ItemDelegate<I>>(old: ListView<I, D>, msg: KeyMsg, new: ListView<I, D>)
    requires
        cursor_in_range(old),
        old.filter_state == FilterState::Filtering,
        filtering_step(old, msg, new),
    ensures
        cursor_in_range(new),
{
    match msg.key {
        KeyCode::Esc => {},
        KeyCode::Enter => {
            let w = ListView {
                filter_state: if old.filter_text.len() == 0 { FilterState::Unfiltered } else { old.filter_state },
                ..new
            };
            if old.filter_text.len() == 0 {
                lemma_layout_keeps_cursor(ListView {
                    filtered: Seq::empty(),
                    filter_state: FilterState::Unfiltered,
                    cursor: 0,
                    ..old
                });
            } else {
                lemma_layout_keeps_cursor(ListView { filtered: w.filtered, cursor: 0, viewport_start: 0, ..old });
            }
        },
        KeyCode::Char(c) => {
            let o = ListView { filter_text: old.filter_text.push(c), ..old };
            lemma_layout_keeps_cursor(ListView { filtered: Seq::empty(), filter_state: FilterState::Unfiltered, cursor: 0, ..o });
            lemma_layout_keeps_cursor(ListView { filtered: new.filtered, cursor: 0, viewport_start: 0, ..o });
        },
        KeyCode::Backspace => {
            let o = ListView { filter_text: without_last(old.filter_text), ..old };
            lemma_layout_keeps_cursor(ListView { filtered: Seq::empty(), filter_state: FilterState::Unfiltered, cursor: 0, ..o });
            lemma_layout_keeps_cursor(ListView { filtered: new.filtered, cursor: 0, viewport_start: 0, ..o });
        },
        _ => {},
    }
}

/// Where each navigation key puts the cursor of a list that is not being filtered, with
/// `len` items shown: up one back and down one further, stopping at the ends; start to
/// the first item and end to the last; next page `per_page` further, stopping at the
/// last item; previous page `per_page` back, stopping at the first.
pub proof fn law_navigation_moves_cursor<I: Item, D: ItemDelegate<I>>(v: ListView<I, D>, msg: KeyMsg)
    requires
        v.filter_state != FilterState::Filtering,
        spec_len(v) <= usize::MAX,
        spec_len(v) == 0 || v.cursor < spec_len(v),
    ensures
        ({
            let k = v.keymap;
            let len = spec_len(v) as int;
            let c = normal_step(v, msg).0.cursor as int;
            let up = spec_matches(k.cursor_up@, msg);
            let down = spec_matches(k.cursor_down@, msg);
            let start = spec_matches(k.go_to_start@, msg);
            let end = spec_matches(k.go_to_end@, msg);
            let next = spec_matches(k.next_page@, msg);
            let prev = spec_matches(k.prev_page@, msg);
            &&& up ==> c == (if v.cursor >= 1 { v.cursor - 1 } else { 0 })
            &&& !up && down ==> c == (if v.cursor + 1 < len { v.cursor + 1 } else { v.cursor as int })
            &&& !up && !down && start ==> c == 0
            &&& !up && !down && !start && end ==> c == (if len >= 1 { len - 1 } else { 0 })
            &&& !up && !down && !start && !end && next ==> c == (if len == 0 {
                v.cursor as int
            } else if v.cursor + v.per_page < len - 1 {
                v.cursor + v.per_page
            } else {
                len - 1
            })
            &&& !up && !down && !start && !end && !next && prev ==> c == (if v.cursor >= v.per_page {
                v.cursor - v.per_page
            } else {
                0
            })
        }),
{
}

/// Enter on a list that is not being filtered selects the item under the cursor, by its
/// index among all items, and changes nothing; with no item under the cursor it does
/// nothing.
pub proof fn law_enter_selects_the_cursor_item<I: Item, D: ItemDelegate<I>>(v: ListView<I, D>, msg: KeyMsg)
    requires
        v.filter_state != FilterState::Filtering,
        msg.key == KeyCode::Enter,
        !spec_matches(v.keymap.cursor_up@, msg),
        !spec_matches(v.keymap.cursor_down@, msg),
        !spec_matches(v.keymap.go_to_start@, msg),
        !spec_matches(v.keymap.go_to_end@, msg),
        !spec_matches(v.keymap.next_page@, msg),
        !spec_matches(v.keymap.prev_page@, msg),
        !spec_matches(v.keymap.filter@, msg),
        !spec_matches(v.keymap.clear_filter@, msg),
        !spec_matches(v.keymap.show_full_help@, msg),
        !spec_matches(v.keymap.close_full_help@, msg),
        !spec_matches(v.keymap.quit@, msg),
    ensures
        normal_step(v, msg).0.cursor == v.cursor,
        normal_step(v, msg).0.items == v.items,
        v.cursor < spec_len(v) ==> normal_step(v, msg).1 == ListAction::Select(item_index(v, v.cursor as int)),
        v.cursor >= spec_len(v) ==> normal_step(v, msg).1 == ListAction::Nothing,
{
}

/// Every key press keeps the cursor in range: on a shown item whenever there is one.
pub proof fn law_update_keeps_cursor_in_range<I: Item, D: ItemDelegate<I>>(
    old: ListView<I, D>,
    msg: KeyMsg,
    new: ListView<I, D>,
    action: ListAction,
)
    requires
        cursor_in_range(old),
        old.filter_state == FilterState::Filtering ==> filtering_step(old, msg, new),
        old.filter_state != FilterState::Filtering ==> (new, action) == normal_step(old, msg),
    ensures
        cursor_in_range(new),
{
    if old.filter_state == FilterState::Filtering {
        lemma_filtering_keeps_cursor(old, msg, new);
    } else {
        lemma_normal_keeps_cursor(old, msg);
    }
}

/// How many items the view shows: from the viewport's start, as many as fit.
pub open spec fn shown_count<I: Item, D: ItemDelegate<I>>(v: ListView<I, D>) -> nat {
    if v.viewport_start >= spec_len(v) {
        0
    } else if spec_len(v) - v.viewport_start <= items_per_view(v) {
        (spec_len(v) - v.viewport_start) as nat
    } else {
        items_per_view(v)
    }
}

/// The lines of the item area: each rendered item that is not empty, followed by
/// `spacing` empty lines.
pub open spec fn item_parts(rendered: Seq<Seq<char>>, spacing: nat) -> Seq<Seq<char>>
    decreases rendered.len(),
{
    if rendered.len() == 0 {
        Seq::empty()
    } else {
        let p = item_parts(rendered.drop_last(), spacing);
        if rendered.last().len() > 0 {
            p.push(rendered.last()) + blank_lines(spacing)
        } else {
            p
        }
    }
}

/// `n` empty lines.
pub open spec fn blank_lines(n: nat) -> Seq<Seq<char>> {
    Seq::new(n, |i: int| Seq::<char>::empty())
}

/// The text without its trailing line breaks.
pub open spec fn trim_newlines(s: Seq<char>) -> Seq<char>
    decreases s.len(),
{
    if s.len() > 0 && s.last() == '\n' {
        trim_newlines(s.drop_last())
    } else {
        s
    }
}

/// The list after recomputing pagination: the paginator's page count follows the
/// number of shown items and, when the list has a height, the items per page follow
/// the available lines (five when items take no lines).
pub open spec fn paginated<I: Item, D: ItemDelegate<I>>(v: ListView<I, D>) -> ListView<I, D> {
    let p1 = after_total_items(v.paginator, spec_len(v));
    if v.height > 0 {
        let ipp: usize = if item_lines(v) > 0 { items_per_view(v) as usize } else { 5 };
        ListView { per_page: ipp, paginator: paginator::Model { per_page: ipp, ..p1 }, ..v }
    } else {
        ListView { paginator: p1, ..v }
    }
}

/// The viewport start after bringing the cursor into view: scroll down when the cursor
/// is below the viewport, up when above, and never start past the last full view.
pub open spec fn synced_start<I: Item, D: ItemDelegate<I>>(v: ListView<I, D>) -> usize {
    if spec_len(v) == 0 {
        0
    } else if item_lines(v) == 0 {
        v.viewport_start
    } else {
        let ipv = items_per_view(v);
        let end = v.viewport_start + ipv;
        let s1: int = if v.cursor >= end { if v.cursor >= ipv - 1 { v.cursor - (ipv - 1) } else { 0 } } else { v.viewport_start as int };
        let s2: int = if v.cursor < s1 { v.cursor as int } else { s1 };
        let max_start: int = if spec_len(v) >= ipv { spec_len(v) - ipv } else { 0 };
        (if s2 > max_start { max_start } else { s2 }) as usize
    }
}

/// The list with the viewport brought to the cursor.
pub open spec fn synced<I: Item, D: ItemDelegate<I>>(v: ListView<I, D>) -> ListView<I, D> {
    ListView { viewport_start: synced_start(v), ..v }
}

/// The list with the filter dropped (unfiltered, no filtered items) when one was set.
pub open spec fn unfiltered<I: Item, D: ItemDelegate<I>>(v: ListView<I, D>) -> ListView<I, D> {
    if v.filter_state != FilterState::Unfiltered {
        ListView { filter_state: FilterState::Unfiltered, filtered: Seq::empty(), ..v }
    } else {
        v
    }
}

impl<I: Item, D: ItemDelegate<I>> Model<I, D> {
    /// A list titled "List" with the given items and size: cursor at the top, all
    /// sections shown but the spinner and the help, ten items per page, dots
    /// pagination, the default key bindings.
    pub fn new(items: Vec<I>, delegate: D, width: usize, height: usize) -> (m: Self)
        requires
            delegate.spec_height() + delegate.spec_spacing() <= usize::MAX,
        ensures
            m@.title == "List"@,
            m@.items == items@,
            m@.item_height == delegate.spec_height(),
            m@.item_spacing == delegate.spec_spacing(),
            m@.per_page == 10,
            m@.paginator.per_page == 10,
            m@.paginator.page == 0,
            m@.paginator.total_pages == paginator::pages_for(items@.len(), 10),
            m@.paginator.paginator_type == paginator::Type::Dots,
            m@.show_title && m@.show_status_bar && m@.show_pagination,
            !m@.show_help && !m@.show_spinner && !m@.help.show_all,
            m@.help.width == 0,
            is_default_keymap(m@.keymap),
            cursor_in_range(m@),
            m@.width == width,
            m@.height == height,
            m@.status_item_singular is None,
            m@.status_item_plural is None,
            m@.filter_state == FilterState::Unfiltered,
            m@.filtered.len() == 0,
            m@.cursor == 0,
            m@.viewport_start == 0,
            m@.filter_text.len() == 0,
    {
        let mut p = paginator::Model::new();
        p.set_per_page(10);
        p.set_total_items(items.len());
        p.paginator_type = paginator::Type::Dots;
        Model {
            title: "List".to_string(),
            items,
            core: ListCore { delegate, paginator: p, cursor: 0, item: core::marker::PhantomData },
            per_page: 10,
            show_title: true,
            show_spinner: false,
            width,
            height,
            show_status_bar: true,
            status_item_singular: None,
            status_item_plural: None,
            show_pagination: true,
            show_help: false,
            help: help::Model::new(),
            styles: ListStyles::default(),
            spinner: spinner::Model::new(),
            keymap: ListKeyMap::default(),
            filter_state: FilterState::Unfiltered,
            filtered_items: Vec::new(),
            viewport_start: 0,
            filter_text: String::new(),
        }
    }

    /// The delegate.
    pub fn delegate(&self) -> (r: &D)
        ensures
            *r == self.spec_delegate(),
            *r == self@.delegate,
    {
        &self.core.delegate
    }

    /// The pagination state.
    pub fn paginator(&self) -> (p: &paginator::Model)
        ensures
            *p == self@.paginator,
    {
        &self.core.paginator
    }

    /// The key bindings.
    pub fn keymap(&self) -> (k: &ListKeyMap)
        ensures
            *k == self@.keymap,
    {
        &self.keymap
    }

    /// The title.
    pub fn title(&self) -> (t: &str)
        ensures
            t@ == self@.title,
    {
        self.title.as_str()
    }

    /// The filter text.
    pub fn filter_value(&self) -> (t: &str)
        ensures
            t@ == self@.filter_text,
    {
        self.filter_text.as_str()
    }

    /// The filtered items.
    pub fn filtered_items(&self) -> (f: &[FilteredItem<I>])
        ensures
            f@ == self@.filtered,
    {
        self.filtered_items.as_slice()
    }

    /// The first item shown in the viewport.
    pub fn viewport_start(&self) -> (s: usize)
        ensures
            s == self@.viewport_start,
    {
        self.viewport_start
    }

    /// Whether the help shows all bindings.
    pub fn show_full_help(&self) -> (b: bool)
        ensures
            b == self@.help.show_all,
    {
        self.help.show_all
    }

    /// The help view's settings; it shows all bindings exactly when `show_full_help`.
    pub fn help(&self) -> (h: &help::Model)
        ensures
            *h == self@.help,
    {
        &self.help
    }

    /// The number of shown items.
    pub fn len(&self) -> (n: usize)
        ensures
            n == spec_len(self@),
    {
        if self.filter_state == FilterState::Unfiltered {
            self.items.len()
        } else {
            self.filtered_items.len()
        }
    }

    /// Whether no item is shown.
    pub fn is_empty(&self) -> (b: bool)
        ensures
            b == (spec_len(self@) == 0),
    {
        self.len() == 0
    }

    /// The item under the cursor, if any.
    pub fn selected_item(&self) -> (r: Option<&I>)
        ensures
            self@.filter_state == FilterState::Unfiltered ==> r == (if self@.cursor < self@.items.len() {
                Some(&self@.items[self@.cursor as int])
            } else {
                None
            }),
            self@.filter_state != FilterState::Unfiltered ==> r == (if self@.cursor < self@.filtered.len() {
                Some(&self@.filtered[self@.cursor as int].item)
            } else {
                None
            }),
    {
        if self.filter_state == FilterState::Unfiltered {
            if self.core.cursor < self.items.len() {
                Some(&self.items[self.core.cursor])
            } else {
                None
            }
        } else {
            if self.core.cursor < self.filtered_items.len() {
                Some(&self.filtered_items[self.core.cursor].item)
            } else {
                None
            }
        }
    }

    /// The cursor position among the shown items.
    pub fn cursor(&self) -> (c: usize)
        ensures
            c == self@.cursor,
    {
        self.core.cursor
    }

    /// The width.
    pub fn width(&self) -> (w: usize)
        ensures
            w == self@.width,
    {
        self.width
    }

    /// The height.
    pub fn height(&self) -> (h: usize)
        ensures
            h == self@.height,
    {
        self.height
    }

    fn item_lines_exec(&self) -> (n: usize)
        ensures
            n == item_lines(self@),
    {
        proof { use_type_invariant(&self.core); }
        self.core.delegate.height() + self.core.delegate.spacing()
    }

    fn items_per_view_exec(&self) -> (n: usize)
        ensures
            n == items_per_view(self@),
            n >= 1,
    {
        let lines = self.item_lines_exec();
        let header: usize = if self.show_title && self.show_status_bar { 2 } else { 1 };
        let footer: usize = (if self.show_help { 1usize } else { 0usize }) + (if self.show_pagination { 1usize } else { 0usize });
        let used = header + footer;
        let available = if self.height >= used { self.height - used } else { 0 };
        if lines == 0 {
            1
        } else if available / lines >= 1 {
            available / lines
        } else {
            1
        }
    }

    /// Recomputes the page count and, when the list has a height, the items per page.
    fn update_pagination(&mut self)
        ensures
            final(self)@ == paginated(old(self)@),
    {
        proof { use_type_invariant(&self.core); }
        let total = self.len();
        self.core.paginator.set_total_items(total);
        if self.height > 0 {
            let lines = self.item_lines_exec();
            let ipp = if lines > 0 { self.items_per_view_exec() } else { 5 };
            self.per_page = ipp;
            self.core.paginator.set_per_page(ipp);
        }
    }

    /// Scrolls the viewport so that the cursor is in view.
    fn sync_viewport_with_cursor(&mut self)
        ensures
            final(self)@ == synced(old(self)@),
    {
        proof { use_type_invariant(&self.core); }
        if self.is_empty() {
            self.viewport_start = 0;
            return;
        }
        let lines = self.item_lines_exec();
        if lines == 0 {
            return;
        }
        let ipv = self.items_per_view_exec();
        let end = self.viewport_start.saturating_add(ipv);
        proof { assert(self.viewport_start + ipv <= usize::MAX || end == usize::MAX); }
        if (self.core.cursor as u128) >= (self.viewport_start as u128) + (ipv as u128) {
            self.viewport_start = self.core.cursor.saturating_sub(ipv - 1);
        }
        if self.core.cursor < self.viewport_start {
            self.viewport_start = self.core.cursor;
        }
        let max_start = self.len().saturating_sub(ipv);
        if self.viewport_start > max_start {
            self.viewport_start = max_start;
        }
    }
}


/// What the caller of `update` should do next.
#[derive(Debug, Clone, Copy, PartialEq, Eq, Structural)]
pub enum ListAction {
    /// Nothing.
    Nothing,
    /// Focus the filter input (filtering started).
    FocusFilter,
    /// Quit the program.
    Quit,
    /// The item with this index among all items was chosen.
    Select(usize),
}

/// The outcomes of fuzzy matching: for each item, the matched positions, or `None`
/// when the item does not match.
pub open spec fn kept(results: Seq<Option<Seq<usize>>>) -> Seq<(usize, Seq<usize>)>
    decreases results.len(),
{
    if results.len() == 0 {
        Seq::empty()
    } else {
        let prev = kept(results.drop_last());
        match results.last() {
            Some(m) => prev.push(((results.len() - 1) as usize, m)),
            None => prev,
        }
    }
}

/// `f` holds, in order, the items that `results` keeps, each with its index, a copy of
/// the item and its matched positions.
pub open spec fn filtered_from<I: Item>(items: Seq<I>, results: Seq<Option<Seq<usize>>>, f: Seq<FilteredItem<I>>) -> bool {
    &&& f.len() == kept(results).len()
    &&& forall|k: int| 0 <= k < f.len() ==> {
        &&& (#[trigger] f[k]).index == kept(results)[k].0
        &&& f[k].matches@ == kept(results)[k].1
        &&& cloned(items[f[k].index as int], f[k].item)
    }
}

/// The name of what `SkimMatcherV2::default().fuzzy_indices(choice, pattern)` returns:
/// a score and the matched character positions, or `None` when `pattern` does not
/// fuzzy-match `choice`.
pub uninterp spec fn skim_fuzzy_indices(choice: Seq<char>, pattern: Seq<char>) -> Option<(i64, Seq<usize>)>;

/// Calls `fuzzy_matcher`'s `SkimMatcherV2::default().fuzzy_indices(choice, pattern)`.
/// The contract claims only that the result is the named value for these arguments,
/// and that an empty pattern matches with score 0 and no positions (as the crate's
/// source returns first thing).
#[verifier::external_body]
fn fuzzy_indices(choice: &str, pattern: &str) -> (r: Option<(i64, Vec<usize>)>)
    ensures
        r is Some == skim_fuzzy_indices(choice@, pattern@) is Some,
        r matches Some((s, v)) ==> skim_fuzzy_indices(choice@, pattern@) == Some((s, v@)),
        pattern@.len() == 0 ==> r is Some && r.unwrap().0 == 0 && r.unwrap().1@.len() == 0,
{
    fuzzy_matcher::skim::SkimMatcherV2::default().fuzzy_indices(choice, pattern)
}

/// The matched positions when `pattern` fuzzy-matches `choice`.
pub open spec fn fuzzy_positions(choice: Seq<char>, pattern: Seq<char>) -> Option<Seq<usize>> {
    match skim_fuzzy_indices(choice, pattern) {
        Some((_, m)) => Some(m),
        None => None,
    }
}

/// For each item, its matched positions against the filter text, or `None`.
pub open spec fn filter_results<I: Item>(items: Seq<I>, text: Seq<char>) -> Seq<Option<Seq<usize>>> {
    Seq::new(items.len(), |i: int| fuzzy_positions(items[i].spec_filter_value(), text))
}

/// `new` is `old` after applying the filter text: with empty text the filter is
/// dropped (unfiltered, cursor at the top); otherwise the filtered items are those
/// whose filter value fuzzy-matches the text, and cursor and viewport go to the top.
/// Either way pagination is recomputed.
pub open spec fn filter_applied<I: Item, D: ItemDelegate<I>>(old: ListView<I, D>, new: ListView<I, D>) -> bool {
    if old.filter_text.len() == 0 {
        new == paginated(ListView {
            filtered: Seq::empty(),
            filter_state: FilterState::Unfiltered,
            cursor: 0,
            ..old
        })
    } else {
        &&& filtered_from(old.items, filter_results(old.items, old.filter_text), new.filtered)
        &&& new == paginated(ListView { filtered: new.filtered, cursor: 0, viewport_start: 0, ..old })
    }
}

/// A sequence without its last element (empty stays empty).
pub open spec fn without_last<A>(s: Seq<A>) -> Seq<A> {
    if s.len() == 0 { s } else { s.drop_last() }
}

/// How a key event changes a list that is being filtered: escape leaves filtering
/// (unfiltered when nothing matched, else applied), enter applies the filter, a
/// character or backspace edits the filter text and reapplies it.
pub open spec fn filtering_step<I: Item, D: ItemDelegate<I>>(old: ListView<I, D>, msg: KeyMsg, new: ListView<I, D>) -> bool {
    match msg.key {
        KeyCode::Esc => new == ListView {
            filter_state: if old.filtered.len() == 0 { FilterState::Unfiltered } else { FilterState::FilterApplied },
            ..old
        },
        KeyCode::Enter => new.filter_state == FilterState::FilterApplied && filter_applied(
            old,
            ListView {
                filter_state: if old.filter_text.len() == 0 { FilterState::Unfiltered } else { old.filter_state },
                ..new
            },
        ),
        KeyCode::Char(c) => filter_applied(ListView { filter_text: old.filter_text.push(c), ..old }, new),
        KeyCode::Backspace => filter_applied(ListView { filter_text: without_last(old.filter_text), ..old }, new),
        _ => new == old,
    }
}

/// `a - b`, or 0 when `b > a`.
pub open spec fn sat_sub(a: int, b: int) -> int {
    if a >= b { a - b } else { 0 }
}

/// The list with the paginator's page set to the cursor's page.
pub open spec fn page_synced<I: Item, D: ItemDelegate<I>>(v: ListView<I, D>) -> ListView<I, D> {
    if v.per_page > 0 {
        ListView { paginator: paginator::Model { page: (v.cursor / v.per_page) as usize, ..v.paginator }, ..v }
    } else {
        v
    }
}

/// How a key event changes a list that is not being filtered, and what it asks for.
pub open spec fn normal_step<I: Item, D: ItemDelegate<I>>(v: ListView<I, D>, msg: KeyMsg) -> (ListView<I, D>, ListAction) {
    let k = v.keymap;
    let len = spec_len(v);
    let ipv = items_per_view(v);
    if spec_matches(k.cursor_up@, msg) {
        let n = if v.cursor > 0 {
            if v.cursor == v.viewport_start {
                let c = (v.cursor - 1) as usize;
                ListView { cursor: c, viewport_start: sat_sub(c as int, ipv - 1) as usize, ..v }
            } else {
                synced(ListView { cursor: (v.cursor - 1) as usize, ..v })
            }
        } else {
            v
        };
        (page_synced(n), ListAction::Nothing)
    } else if spec_matches(k.cursor_down@, msg) {
        let n = if v.cursor < sat_sub(len as int, 1) {
            if v.cursor >= v.viewport_start && v.cursor - v.viewport_start == ipv - 1 {
                ListView { cursor: (v.cursor + 1) as usize, viewport_start: (v.cursor + 1) as usize, ..v }
            } else {
                synced(ListView { cursor: (v.cursor + 1) as usize, ..v })
            }
        } else {
            v
        };
        (page_synced(n), ListAction::Nothing)
    } else if spec_matches(k.go_to_start@, msg) {
        (page_synced(synced(ListView { cursor: 0, ..v })), ListAction::Nothing)
    } else if spec_matches(k.go_to_end@, msg) {
        (page_synced(synced(ListView { cursor: sat_sub(len as int, 1) as usize, ..v })), ListAction::Nothing)
    } else if spec_matches(k.next_page@, msg) {
        let n = if len > 0 {
            let c = if v.cursor + v.per_page < len - 1 { v.cursor + v.per_page } else { len - 1 };
            synced(ListView { cursor: c as usize, ..v })
        } else {
            v
        };
        (page_synced(n), ListAction::Nothing)
    } else if spec_matches(k.prev_page@, msg) {
        (page_synced(synced(ListView { cursor: sat_sub(v.cursor as int, v.per_page as int) as usize, ..v })), ListAction::Nothing)
    } else if spec_matches(k.filter@, msg) {
        (ListView { filter_state: FilterState::Filtering, ..v }, ListAction::FocusFilter)
    } else if spec_matches(k.clear_filter@, msg) {
        (page_synced(paginated(ListView {
            filter_text: Seq::empty(),
            filter_state: FilterState::Unfiltered,
            filtered: Seq::empty(),
            cursor: 0,
            ..v
        })), ListAction::Nothing)
    } else if spec_matches(k.show_full_help@, msg) || spec_matches(k.close_full_help@, msg) {
        (
            page_synced(paginated(ListView { help: help::Model { show_all: !v.help.show_all, ..v.help }, ..v })),
            ListAction::Nothing,
        )
    } else if spec_matches(k.quit@, msg) {
        (v, ListAction::Quit)
    } else if msg.key == KeyCode::Enter {
        let action = if v.filter_state == FilterState::Unfiltered {
            if v.cursor < v.items.len() { ListAction::Select(v.cursor) } else { ListAction::Nothing }
        } else {
            if v.cursor < v.filtered.len() { ListAction::Select(v.filtered[v.cursor as int].index) } else { ListAction::Nothing }
        };
        (page_synced(v), action)
    } else {
        (page_synced(v), ListAction::Nothing)
    }
}

impl<I: Item, D: ItemDelegate<I>> Model<I, D> {
    /// The delegate, as a value.
    pub closed spec fn spec_delegate(&self) -> D {
        self.core.delegate
    }

    /// Sets the pagination dots (as rendered).
    pub fn set_pagination_dots(&mut self, active: &str, inactive: &str)
        ensures
            final(self)@.paginator.active_dot@ == active@,
            final(self)@.paginator.inactive_dot@ == inactive@,
            final(self)@ == (ListView {
                paginator: paginator::Model {
                    active_dot: final(self)@.paginator.active_dot,
                    inactive_dot: final(self)@.paginator.inactive_dot,
                    ..old(self)@.paginator
                },
                ..old(self)@
            }),
    {
        proof { use_type_invariant(&self.core); }
        self.core.paginator.active_dot = active.to_string();
        self.core.paginator.inactive_dot = inactive.to_string();
    }

    /// Replaces the items; the cursor goes to the top and pagination is recomputed.
    pub fn set_items(&mut self, items: Vec<I>)
        ensures
            final(self)@ == paginated(ListView { items: items@, cursor: 0, ..old(self)@ }),
    {
        proof { use_type_invariant(&self.core); }
        self.items = items;
        self.core.cursor = 0;
        self.update_pagination();
    }

    /// Copies of the shown items.
    pub fn visible_items(&self) -> (r: Vec<I>)
        ensures
            r@.len() == spec_len(self@),
            self@.filter_state == FilterState::Unfiltered ==> forall|k: int| 0 <= k < r@.len() ==> cloned(self@.items[k], #[trigger] r@[k]),
            self@.filter_state != FilterState::Unfiltered ==> forall|k: int| 0 <= k < r@.len() ==> cloned(self@.filtered[k].item, #[trigger] r@[k]),
    {
        let mut out: Vec<I> = Vec::new();
        if self.filter_state == FilterState::Unfiltered {
            let mut i: usize = 0;
            while i < self.items.len()
                invariant
                    i <= self@.items.len(),
                    out@.len() == i,
                    forall|k: int| 0 <= k < i ==> cloned(self@.items[k], #[trigger] out@[k]),
                decreases self@.items.len() - i,
            {
                out.push(self.items[i].clone());
                i += 1;
            }
        } else {
            let mut i: usize = 0;
            while i < self.filtered_items.len()
                invariant
                    i <= self@.filtered.len(),
                    out@.len() == i,
                    forall|k: int| 0 <= k < i ==> cloned(self@.filtered[k].item, #[trigger] out@[k]),
                decreases self@.filtered.len() - i,
            {
                out.push(self.filtered_items[i].item.clone());
                i += 1;
            }
        }
        out
    }

    /// Sets the filter text.
    pub fn set_filter_text(&mut self, s: &str)
        ensures
            final(self)@ == (ListView { filter_text: s@, ..old(self)@ }),
    {
        proof { use_type_invariant(&self.core); }
        self.filter_text = s.to_string();
    }

    /// Sets the filter state.
    pub fn set_filter_state(&mut self, st: FilterState)
        ensures
            final(self)@ == (ListView { filter_state: st, ..old(self)@ }),
    {
        proof { use_type_invariant(&self.core); }
        self.filter_state = st;
    }

    /// Sets the nouns the status bar uses for one item and for several.
    pub fn set_status_bar_item_name(&mut self, singular: &str, plural: &str)
        ensures
            final(self)@ == (ListView {
                status_item_singular: Some(singular@),
                status_item_plural: Some(plural@),
                ..old(self)@
            }),
    {
        proof { use_type_invariant(&self.core); }
        self.status_item_singular = Some(singular.to_string());
        self.status_item_plural = Some(plural.to_string());
    }

    /// Sets the size and recomputes pagination.
    pub fn set_size(&mut self, width: usize, height: usize)
        ensures
            final(self)@ == paginated(ListView { width, height, ..old(self)@ }),
    {
        proof { use_type_invariant(&self.core); }
        self.width = width;
        self.height = height;
        self.update_pagination();
    }

    /// The matched positions of the filtered item whose index among all items is
    /// `original_index` (the first such), if any.
    pub fn matches_for_original_item(&self, original_index: usize) -> (r: Option<&Vec<usize>>)
        ensures
            match r {
                Some(m) => exists|k: int| 0 <= k < self@.filtered.len() && #[trigger] self@.filtered[k].index == original_index
                    && *m == self@.filtered[k].matches && forall|j: int| 0 <= j < k ==> self@.filtered[j].index != original_index,
                None => forall|k: int| 0 <= k < self@.filtered.len() ==> #[trigger] self@.filtered[k].index != original_index,
            },
    {
        let mut i: usize = 0;
        while i < self.filtered_items.len()
            invariant
                i <= self@.filtered.len(),
                forall|k: int| 0 <= k < i ==> #[trigger] self@.filtered[k].index != original_index,
            decreases self@.filtered.len() - i,
        {
            if self.filtered_items[i].index == original_index {
                return Some(&self.filtered_items[i].matches);
            }
            i += 1;
        }
        None
    }

    /// This list with the given title.
    pub fn with_title(self, title: &str) -> (m: Self)
        ensures
            m@ == (ListView { title: title@, ..self@ }),
    {
        let mut m = self;
        proof { use_type_invariant(&m.core); }
        m.title = title.to_string();
        m
    }

    /// This list with pagination shown or hidden.
    pub fn with_show_pagination(self, show: bool) -> (m: Self)
        ensures
            m@ == (ListView { show_pagination: show, ..self@ }),
    {
        let mut m = self;
        proof { use_type_invariant(&m.core); }
        m.show_pagination = show;
        m
    }

    /// This list with the given pagination type.
    pub fn with_pagination_type(self, pagination_type: paginator::Type) -> (m: Self)
        ensures
            m@ == (ListView { paginator: paginator::Model { paginator_type: pagination_type, ..self@.paginator }, ..self@ }),
    {
        let mut m = self;
        proof { use_type_invariant(&m.core); }
        m.core.paginator.paginator_type = pagination_type;
        m
    }

    /// This list with the title shown or hidden.
    pub fn with_show_title(self, show: bool) -> (m: Self)
        ensures
            m@ == (ListView { show_title: show, ..self@ }),
    {
        let mut m = self;
        proof { use_type_invariant(&m.core); }
        m.show_title = show;
        m
    }

    /// This list with the status bar shown or hidden.
    pub fn with_show_status_bar(self, show: bool) -> (m: Self)
        ensures
            m@ == (ListView { show_status_bar: show, ..self@ }),
    {
        let mut m = self;
        proof { use_type_invariant(&m.core); }
        m.show_status_bar = show;
        m
    }

    /// This list with the spinner shown or hidden.
    pub fn with_show_spinner(self, show: bool) -> (m: Self)
        ensures
            m@ == (ListView { show_spinner: show, ..self@ }),
    {
        let mut m = self;
        proof { use_type_invariant(&m.core); }
        m.show_spinner = show;
        m
    }

    /// This list with help shown or hidden.
    pub fn with_show_help(self, show: bool) -> (m: Self)
        ensures
            m@ == (ListView { show_help: show, ..self@ }),
    {
        let mut m = self;
        proof { use_type_invariant(&m.core); }
        m.show_help = show;
        m
    }

    /// Whether pagination is shown.
    pub fn show_pagination(&self) -> (b: bool)
        ensures
            b == self@.show_pagination,
    {
        self.show_pagination
    }

    /// Shows or hides pagination.
    pub fn set_show_pagination(&mut self, show: bool)
        ensures
            final(self)@ == (ListView { show_pagination: show, ..old(self)@ }),
    {
        proof { use_type_invariant(&self.core); }
        self.show_pagination = show;
    }

    /// Flips whether pagination is shown; returns the new setting.
    pub fn toggle_pagination(&mut self) -> (b: bool)
        ensures
            final(self)@ == (ListView { show_pagination: !old(self)@.show_pagination, ..old(self)@ }),
            b == final(self)@.show_pagination,
    {
        proof { use_type_invariant(&self.core); }
        self.show_pagination = !self.show_pagination;
        self.show_pagination
    }

    /// The pagination type.
    pub fn pagination_type(&self) -> (t: paginator::Type)
        ensures
            t == self@.paginator.paginator_type,
    {
        self.core.paginator.paginator_type
    }

    /// Sets the pagination type.
    pub fn set_pagination_type(&mut self, pagination_type: paginator::Type)
        ensures
            final(self)@ == (ListView {
                paginator: paginator::Model { paginator_type: pagination_type, ..old(self)@.paginator },
                ..old(self)@
            }),
    {
        proof { use_type_invariant(&self.core); }
        self.core.paginator.paginator_type = pagination_type;
    }

    /// Whether the title is shown.
    pub fn show_title(&self) -> (b: bool)
        ensures
            b == self@.show_title,
    {
        self.show_title
    }

    /// Shows or hides the title.
    pub fn set_show_title(&mut self, show: bool)
        ensures
            final(self)@ == (ListView { show_title: show, ..old(self)@ }),
    {
        proof { use_type_invariant(&self.core); }
        self.show_title = show;
    }

    /// Flips whether the title is shown; returns the new setting.
    pub fn toggle_title(&mut self) -> (b: bool)
        ensures
            final(self)@ == (ListView { show_title: !old(self)@.show_title, ..old(self)@ }),
            b == final(self)@.show_title,
    {
        proof { use_type_invariant(&self.core); }
        self.show_title = !self.show_title;
        self.show_title
    }

    /// Whether the status bar is shown.
    pub fn show_status_bar(&self) -> (b: bool)
        ensures
            b == self@.show_status_bar,
    {
        self.show_status_bar
    }

    /// Shows or hides the status bar.
    pub fn set_show_status_bar(&mut self, show: bool)
        ensures
            final(self)@ == (ListView { show_status_bar: show, ..old(self)@ }),
    {
        proof { use_type_invariant(&self.core); }
        self.show_status_bar = show;
    }

    /// Flips whether the status bar is shown; returns the new setting.
    pub fn toggle_status_bar(&mut self) -> (b: bool)
        ensures
            final(self)@ == (ListView { show_status_bar: !old(self)@.show_status_bar, ..old(self)@ }),
            b == final(self)@.show_status_bar,
    {
        proof { use_type_invariant(&self.core); }
        self.show_status_bar = !self.show_status_bar;
        self.show_status_bar
    }

    /// Whether the spinner is shown.
    pub fn show_spinner(&self) -> (b: bool)
        ensures
            b == self@.show_spinner,
    {
        self.show_spinner
    }

    /// Shows or hides the spinner.
    pub fn set_show_spinner(&mut self, show: bool)
        ensures
            final(self)@ == (ListView { show_spinner: show, ..old(self)@ }),
    {
        proof { use_type_invariant(&self.core); }
        self.show_spinner = show;
    }

    /// Flips whether the spinner is shown; returns the new setting.
    pub fn toggle_spinner(&mut self) -> (b: bool)
        ensures
            final(self)@ == (ListView { show_spinner: !old(self)@.show_spinner, ..old(self)@ }),
            b == final(self)@.show_spinner,
    {
        proof { use_type_invariant(&self.core); }
        self.show_spinner = !self.show_spinner;
        self.show_spinner
    }

    /// Whether help is shown.
    pub fn show_help(&self) -> (b: bool)
        ensures
            b == self@.show_help,
    {
        self.show_help
    }

    /// Shows or hides help.
    pub fn set_show_help(&mut self, show: bool)
        ensures
            final(self)@ == (ListView { show_help: show, ..old(self)@ }),
    {
        proof { use_type_invariant(&self.core); }
        self.show_help = show;
    }

    /// Flips whether help is shown; returns the new setting.
    pub fn toggle_help(&mut self) -> (b: bool)
        ensures
            final(self)@ == (ListView { show_help: !old(self)@.show_help, ..old(self)@ }),
            b == final(self)@.show_help,
    {
        proof { use_type_invariant(&self.core); }
        self.show_help = !self.show_help;
        self.show_help
    }

    /// All items.
    pub fn items(&self) -> (r: &[I])
        ensures
            r@ == self@.items,
    {
        self.items.as_slice()
    }

    /// The number of items.
    pub fn items_len(&self) -> (n: usize)
        ensures
            n == self@.items.len(),
    {
        self.items.len()
    }

    /// Whether there are no items.
    pub fn items_empty(&self) -> (b: bool)
        ensures
            b == (self@.items.len() == 0),
    {
        self.items.len() == 0
    }

    fn clear_filter_state(&mut self)
        ensures
            final(self)@ == unfiltered(old(self)@),
    {
        proof { use_type_invariant(&self.core); }
        if self.filter_state != FilterState::Unfiltered {
            self.filter_state = FilterState::Unfiltered;
            self.filtered_items = Vec::new();
        }
    }
}


/// The cursor after inserting at `index` into a list that then has `new_len` items:
/// it moves down with its item when the insertion is at or above it.
pub open spec fn cursor_after_insert(cursor: usize, index: usize, new_len: nat) -> usize {
    if index <= cursor {
        if cursor + 1 < new_len - 1 { (cursor + 1) as usize } else { (new_len - 1) as usize }
    } else {
        cursor
    }
}

/// The cursor after removing the item at `index`, leaving `new_len` items.
pub open spec fn cursor_after_remove(cursor: usize, index: usize, new_len: nat) -> usize {
    if new_len > 0 {
        if index < cursor {
            (cursor - 1) as usize
        } else if cursor >= new_len {
            (new_len - 1) as usize
        } else {
            cursor
        }
    } else {
        0
    }
}

/// The cursor after moving the item at `from` to `to`: it follows a moved selected
/// item, and shifts by one when an item moves across it.
pub open spec fn cursor_after_move(cursor: usize, from: usize, to: usize) -> usize {
    if cursor == from {
        to
    } else if from < cursor && to >= cursor {
        (cursor - 1) as usize
    } else if from > cursor && to <= cursor {
        (cursor + 1) as usize
    } else {
        cursor
    }
}

/// The noun the status line uses for `n` items.
pub open spec fn noun<I: Item, D: ItemDelegate<I>>(v: ListView<I, D>, n: nat) -> Seq<char> {
    if n == 1 {
        match v.status_item_singular { Some(s) => s, None => "item"@ }
    } else {
        match v.status_item_plural { Some(s) => s, None => "items"@ }
    }
}

/// The status line: `No items`, `Nothing matched`, or the count of shown items with
/// the noun, prefixed by the quoted query and followed by how many were filtered out
/// when a filter is applied.
pub open spec fn status_line<I: Item, D: ItemDelegate<I>>(v: ListView<I, D>) -> Seq<char> {
    let total = v.items.len();
    let visible = spec_len(v);
    let n = noun(v, visible);
    if total == 0 {
        "No items"@
    } else if visible == 0 && v.filter_state == FilterState::FilterApplied {
        "Nothing matched"@
    } else if v.filter_state == FilterState::FilterApplied {
        let q = v.filter_text;
        let num_filtered = sat_sub(total as int, visible as int);
        if q.len() > 0 && num_filtered > 0 {
            seq!['"'] + q + "\" "@ + decimal(visible) + seq![' '] + n + " • "@ + decimal(num_filtered as nat)
                + " filtered"@
        } else if q.len() > 0 {
            seq!['"'] + q + "\" "@ + decimal(visible) + seq![' '] + n
        } else {
            decimal(visible) + seq![' '] + n
        }
    } else {
        decimal(visible) + seq![' '] + n
    }
}

/// The status view: empty when the status bar is hidden; otherwise the cursor position
/// `cursor+1/count noun` (when any item is shown), then the help view on its own line
/// when it is not empty.
pub open spec fn status_view_text<I: Item, D: ItemDelegate<I>>(v: ListView<I, D>, help: Seq<char>) -> Seq<char> {
    if !v.show_status_bar {
        Seq::empty()
    } else {
        let count: Seq<char> = if spec_len(v) > 0 {
            decimal((v.cursor + 1) as nat) + seq!['/'] + decimal(spec_len(v)) + seq![' '] + noun(v, spec_len(v))
        } else {
            Seq::empty()
        };
        if help.len() > 0 { count + seq!['\n'] + help } else { count }
    }
}

impl<I: Item, D: ItemDelegate<I>> Model<I, D> {
    /// Inserts an item at `index` (among all items). Drops any filter, keeps the cursor
    /// on its item and recomputes pagination.
    pub fn insert_item(&mut self, index: usize, item: I)
        requires
            index <= old(self)@.items.len(),
            old(self)@.items.len() < usize::MAX,
        ensures
            final(self)@ == paginated(ListView {
                cursor: cursor_after_insert(old(self)@.cursor, index, old(self)@.items.len() + 1),
                ..unfiltered(ListView { items: old(self)@.items.insert(index as int, item), ..old(self)@ })
            }),
            final(self)@.items == old(self)@.items.subrange(0, index as int) + seq![item] + old(self)@.items.subrange(
                index as int,
                old(self)@.items.len() as int,
            ),
            final(self)@.filter_state == FilterState::Unfiltered,
            old(self)@.cursor < old(self)@.items.len() ==> final(self)@.items[final(self)@.cursor as int]
                == old(self)@.items[old(self)@.cursor as int],
    {
        proof {
            let o = old(self)@.items;
            assert(o.insert(index as int, item) =~= o.subrange(0, index as int) + seq![item] + o.subrange(index as int, o.len() as int));
            if old(self)@.cursor < o.len() {
                law_insert_keeps_selection(o, old(self)@.cursor, index, item);
            }
        }
        proof { use_type_invariant(&self.core); }
        let mut items: Vec<I> = Vec::new();
        std::mem::swap(&mut items, &mut self.items);
        items.insert(index, item);
        self.items = items;
        self.clear_filter_state();
        if index <= self.core.cursor {
            let up = self.core.cursor + 1;
            let last = self.items.len() - 1;
            self.core.cursor = if up < last { up } else { last };
        }
        self.update_pagination();
    }

    /// Removes and returns the item at `index` (among all items). Drops any filter,
    /// keeps the cursor in range and recomputes pagination.
    pub fn remove_item(&mut self, index: usize) -> (r: I)
        requires
            index < old(self)@.items.len(),
            old(self).spec_delegate().spec_can_remove(index, old(self)@.items[index as int]),
        ensures
            r == old(self)@.items[index as int],
            final(self)@ == paginated(ListView {
                cursor: cursor_after_remove(old(self)@.cursor, index, (old(self)@.items.len() - 1) as nat),
                ..unfiltered(ListView { items: old(self)@.items.remove(index as int), ..old(self)@ })
            }),
    {
        proof { use_type_invariant(&self.core); }
        self.core.delegate.on_remove(index, &self.items[index]);
        let mut items: Vec<I> = Vec::new();
        std::mem::swap(&mut items, &mut self.items);
        let item = items.remove(index);
        self.items = items;
        self.clear_filter_state();
        let n = self.items.len();
        if n > 0 {
            if index < self.core.cursor {
                self.core.cursor = self.core.cursor - 1;
            } else if self.core.cursor >= n {
                self.core.cursor = n - 1;
            }
        } else {
            self.core.cursor = 0;
        }
        self.update_pagination();
        item
    }

    /// Moves the item at `from_index` to `to_index` (among all items). Unless the two
    /// are equal, drops any filter, keeps the cursor on its item and recomputes
    /// pagination.
    pub fn move_item(&mut self, from_index: usize, to_index: usize)
        requires
            from_index < old(self)@.items.len(),
            to_index < old(self)@.items.len(),
        ensures
            from_index == to_index ==> final(self)@ == old(self)@,
            from_index != to_index ==> final(self)@ == paginated(ListView {
                cursor: cursor_after_move(old(self)@.cursor, from_index, to_index),
                ..unfiltered(ListView {
                    items: old(self)@.items.remove(from_index as int).insert(to_index as int, old(self)@.items[from_index as int]),
                    ..old(self)@
                })
            }),
            final(self)@.items.len() == old(self)@.items.len(),
            final(self)@.items[to_index as int] == old(self)@.items[from_index as int],
            final(self)@.items.to_multiset() == old(self)@.items.to_multiset(),
            old(self)@.cursor < old(self)@.items.len() ==> final(self)@.items[final(self)@.cursor as int]
                == old(self)@.items[old(self)@.cursor as int],
    {
        proof {
            let o = old(self)@.items;
            let x = o[from_index as int];
            let moved = o.remove(from_index as int).insert(to_index as int, x);
            if old(self)@.cursor < o.len() {
                law_move_keeps_selection(o, old(self)@.cursor, from_index, to_index);
            }
            if from_index != to_index {
                vstd::seq_lib::to_multiset_remove(o, from_index as int);
                vstd::seq_lib::to_multiset_insert(o.remove(from_index as int), to_index as int, x);
                assert(o.to_multiset().contains(x)) by {
                    vstd::seq_lib::to_multiset_contains(o, x);
                }
                assert(moved.to_multiset() =~= o.to_multiset());
            }
        }
        proof { use_type_invariant(&self.core); }
        if from_index == to_index {
            return;
        }
        let mut items: Vec<I> = Vec::new();
        std::mem::swap(&mut items, &mut self.items);
        let item = items.remove(from_index);
        items.insert(to_index, item);
        self.items = items;
        self.clear_filter_state();
        let n = self.items.len();
        assert(to_index < n && from_index < n);
        if self.core.cursor == from_index {
            self.core.cursor = to_index;
        } else if from_index < self.core.cursor && to_index >= self.core.cursor {
            self.core.cursor = self.core.cursor - 1;
        } else if from_index > self.core.cursor && to_index <= self.core.cursor {
            self.core.cursor = self.core.cursor + 1;
        }
        self.update_pagination();
    }

    /// Appends an item. Drops any filter and recomputes pagination.
    pub fn push_item(&mut self, item: I)
        ensures
            final(self)@ == paginated(unfiltered(ListView { items: old(self)@.items.push(item), ..old(self)@ })),
    {
        proof { use_type_invariant(&self.core); }
        let mut items: Vec<I> = Vec::new();
        std::mem::swap(&mut items, &mut self.items);
        items.push(item);
        self.items = items;
        self.clear_filter_state();
        self.update_pagination();
    }

    /// Removes and returns the last item, if any. Drops any filter, keeps the cursor in
    /// range and recomputes pagination.
    pub fn pop_item(&mut self) -> (r: Option<I>)
        ensures
            old(self)@.items.len() == 0 ==> r is None && final(self)@ == old(self)@,
            old(self)@.items.len() > 0 ==> r == Some(old(self)@.items.last()) && final(self)@ == paginated(ListView {
                cursor: if old(self)@.items.len() - 1 == 0 {
                    0
                } else if old(self)@.cursor >= old(self)@.items.len() - 1 {
                    (old(self)@.items.len() - 2) as usize
                } else {
                    old(self)@.cursor
                },
                ..unfiltered(ListView { items: old(self)@.items.drop_last(), ..old(self)@ })
            }),
    {
        proof { use_type_invariant(&self.core); }
        if self.items.len() == 0 {
            return None;
        }
        let mut items: Vec<I> = Vec::new();
        std::mem::swap(&mut items, &mut self.items);
        let item = items.pop();
        self.items = items;
        self.clear_filter_state();
        let n = self.items.len();
        if self.core.cursor >= n && n > 0 {
            self.core.cursor = n - 1;
        } else if n == 0 {
            self.core.cursor = 0;
        }
        self.update_pagination();
        item
    }

    /// Whether a filter is being typed or applied.
    pub fn is_filtering(&self) -> (b: bool)
        ensures
            b == (self@.filter_state == FilterState::Filtering || self@.filter_state == FilterState::FilterApplied),
    {
        self.filter_state == FilterState::Filtering || self.filter_state == FilterState::FilterApplied
    }

    /// Drops the filter: empty filter text, unfiltered, cursor at the top; recomputes
    /// pagination.
    pub fn clear_filter(&mut self)
        ensures
            final(self)@ == paginated(ListView {
                filter_text: Seq::empty(),
                filter_state: FilterState::Unfiltered,
                filtered: Seq::empty(),
                cursor: 0,
                ..old(self)@
            }),
    {
        proof { use_type_invariant(&self.core); }
        self.filter_text = String::new();
        self.filter_state = FilterState::Unfiltered;
        self.filtered_items = Vec::new();
        self.core.cursor = 0;
        self.update_pagination();
    }

    /// A summary of the filter state.
    pub fn filter_state_info(&self) -> (i: FilterStateInfo)
        ensures
            i.state == self@.filter_state,
            i.query@ == self@.filter_text,
            i.match_count == spec_len(self@),
            i.is_filtering == (self@.filter_state == FilterState::Filtering || self@.filter_state == FilterState::FilterApplied),
            !i.is_clearing,
    {
        FilterStateInfo {
            state: self.filter_state,
            query: self.filter_text.clone(),
            match_count: self.len(),
            is_filtering: self.is_filtering(),
            is_clearing: false,
        }
    }

    /// Applies the filter text: with empty text drops the filter; otherwise keeps the
    /// items whose filter value fuzzy-matches the text. Moves cursor and viewport to the
    /// top and recomputes pagination.
    /// Filters the items by the filter text: an empty text drops the filter; otherwise
    /// every item whose filter value fuzzy-matches the text is kept, in order, with the
    /// matched positions, and the cursor goes to the top.
    pub fn apply_filter(&mut self)
        ensures
            filter_applied(old(self)@, final(self)@),
    {
        proof { use_type_invariant(&self.core); }
        if self.filter_text.as_str().is_empty() {
            self.filtered_items = Vec::new();
            self.filter_state = FilterState::Unfiltered;
            self.core.cursor = 0;
            self.update_pagination();
            return;
        }
        let mut results: Vec<Option<Vec<usize>>> = Vec::new();
        let mut i: usize = 0;
        while i < self.items.len()
            invariant
                i <= self@.items.len(),
                results@.len() == i,
                self@.filter_text.len() > 0,
                forall|k: int| 0 <= k < i ==> opt_vec_view(#[trigger] results@[k]) == filter_results(self@.items, self@.filter_text)[k],
            decreases self@.items.len() - i,
        {
            let value = self.items[i].filter_value();
            let r = fuzzy_indices(value.as_str(), self.filter_text.as_str());
            let m = match r {
                Some((_, v)) => Some(v),
                None => None,
            };
            results.push(m);
            i += 1;
        }
        assert(results@.map_values(|o: Option<Vec<usize>>| opt_vec_view(o)) =~= filter_results(self@.items, self@.filter_text));
        self.apply_filter_results(results);
    }

    /// Applies fuzzy-matching outcomes, one per item (the matched positions, or `None`
    /// when the item does not match): the filtered items become the matching ones, in
    /// order, with cursor and viewport at the top; recomputes pagination.
    /// Takes in the outcome of matching each item against the filter text (the matched
    /// positions, or `None`), keeps the items that matched and moves the cursor to the
    /// top.
    pub fn apply_filter_results(&mut self, results: Vec<Option<Vec<usize>>>)
        requires
            results@.len() == old(self)@.items.len(),
        ensures
            filtered_from(old(self)@.items, results@.map_values(|o: Option<Vec<usize>>| opt_vec_view(o)), final(self)@.filtered),
            final(self)@ == paginated(ListView { filtered: final(self)@.filtered, cursor: 0, viewport_start: 0, ..old(self)@ }),
    {
        proof { use_type_invariant(&self.core); }
        let ghost views = results@.map_values(|o: Option<Vec<usize>>| opt_vec_view(o));
        let mut filtered: Vec<FilteredItem<I>> = Vec::new();
        let mut results = results;
        let mut rev: Vec<Option<Vec<usize>>> = Vec::new();
        // Take the outcomes out in order.
        let mut i: usize = 0;
        let ghost orig = results@;
        assert(orig.len() == results.len());
        while results.len() > 0
            invariant
                orig.len() == old(self)@.items.len(),
                orig.len() <= usize::MAX,
                results@.len() + rev@.len() == orig.len(),
                forall|k: int| 0 <= k < results@.len() ==> #[trigger] results@[k] == orig[k],
                forall|k: int| 0 <= k < rev@.len() ==> #[trigger] rev@[k] == orig[orig.len() - 1 - k],
            decreases results@.len(),
        {
            let x = results.pop().unwrap();
            rev.push(x);
        }
        while rev.len() > 0
            invariant
                orig.len() == self@.items.len(),
                orig.len() <= usize::MAX,
                self@.items == old(self)@.items,
                views == orig.map_values(|o: Option<Vec<usize>>| opt_vec_view(o)),
                i + rev@.len() == orig.len(),
                forall|k: int| 0 <= k < rev@.len() ==> #[trigger] rev@[k] == orig[orig.len() - 1 - k],
                filtered_from(self@.items, views.take(i as int), filtered@),
            decreases rev@.len(),
        {
            let x = rev.pop().unwrap();
            proof {
                assert(x == orig[i as int]);
                assert(views.take(i as int + 1).drop_last() == views.take(i as int));
                assert(views.take(i as int + 1).last() == opt_vec_view(x));
            }
            match x {
                Some(m) => {
                    let item = self.items[i].clone();
                    filtered.push(FilteredItem { index: i, item, matches: m });
                },
                None => {},
            }
            i += 1;
        }
        assert(views.take(orig.len() as int) == views);
        self.filtered_items = filtered;
        self.core.cursor = 0;
        self.viewport_start = 0;
        self.update_pagination();
    }

    /// The status line (see `status_line`).
    pub fn status_line(&self) -> (r: String)
        ensures
            r@ == status_line(self@),
    {
        let total = self.items.len();
        let visible = self.len();
        let n = self.noun_for(visible);
        if total == 0 {
            return "No items".to_string();
        }
        if visible == 0 && self.filter_state == FilterState::FilterApplied {
            return "Nothing matched".to_string();
        }
        let mut out = String::new();
        if self.filter_state == FilterState::FilterApplied {
            let q = self.filter_text.as_str();
            let num_filtered = if total >= visible { total - visible } else { 0 };
            if !q.is_empty() && num_filtered > 0 {
                push_char(&mut out, '"');
                push_str(&mut out, q);
                push_str(&mut out, "\" ");
                push_decimal(&mut out, visible as u64);
                push_char(&mut out, ' ');
                push_str(&mut out, n.as_str());
                push_str(&mut out, " • ");
                push_decimal(&mut out, num_filtered as u64);
                push_str(&mut out, " filtered");
                return out;
            } else if !q.is_empty() {
                push_char(&mut out, '"');
                push_str(&mut out, q);
                push_str(&mut out, "\" ");
                push_decimal(&mut out, visible as u64);
                push_char(&mut out, ' ');
                push_str(&mut out, n.as_str());
                return out;
            }
        }
        push_decimal(&mut out, visible as u64);
        push_char(&mut out, ' ');
        push_str(&mut out, n.as_str());
        out
    }

    fn noun_for(&self, n: usize) -> (r: String)
        ensures
            r@ == noun(self@, n as nat),
    {
        if n == 1 {
            match &self.status_item_singular {
                Some(s) => s.clone(),
                None => "item".to_string(),
            }
        } else {
            match &self.status_item_plural {
                Some(s) => s.clone(),
                None => "items".to_string(),
            }
        }
    }

    /// The status view, given the rendered help view (see `status_view_text`).
    pub fn status_view_with_help(&self, help_view: &str) -> (r: String)
        ensures
            r@ == status_view_text(self@, help_view@),
    {
        proof { use_type_invariant(&self.core); }
        if !self.show_status_bar {
            return String::new();
        }
        let mut out = String::new();
        let len = self.len();
        if len > 0 {
            push_decimal(&mut out, (self.core.cursor + 1) as u64);
            push_char(&mut out, '/');
            push_decimal(&mut out, len as u64);
            push_char(&mut out, ' ');
            let n = self.noun_for(len);
            push_str(&mut out, n.as_str());
        }
        if !help_view.is_empty() {
            push_char(&mut out, '\n');
            push_str(&mut out, help_view);
        }
        out
    }
}

/// The matched positions of an outcome, as a sequence.
pub open spec fn opt_vec_view(o: Option<Vec<usize>>) -> Option<Seq<usize>> {
    match o {
        Some(v) => Some(v@),
        None => None,
    }
}


impl<I: Item, D: ItemDelegate<I>> Model<I, D> {
    /// Handles a key event (see `filtering_step` while a filter is being typed, and
    /// `normal_step` otherwise) and says what the caller should do next.
    pub fn update(&mut self, msg: &KeyMsg) -> (r: ListAction)
        ensures
            old(self)@.filter_state == FilterState::Filtering ==> r == ListAction::Nothing && filtering_step(
                old(self)@,
                *msg,
                final(self)@,
            ),
            old(self)@.filter_state != FilterState::Filtering ==> (final(self)@, r) == normal_step(old(self)@, *msg),
    {
        if self.filter_state == FilterState::Filtering {
            self.update_filtering(msg);
            ListAction::Nothing
        } else {
            self.update_normal(msg)
        }
    }

    #[verifier::spinoff_prover]
    fn update_filtering(&mut self, msg: &KeyMsg)
        requires
            old(self)@.filter_state == FilterState::Filtering,
        ensures
            filtering_step(old(self)@, *msg, final(self)@),
    {
        proof { use_type_invariant(&self.core); }
        match msg.key {
            KeyCode::Esc => {
                self.filter_state = if self.filtered_items.len() == 0 {
                    FilterState::Unfiltered
                } else {
                    FilterState::FilterApplied
                };
            },
            KeyCode::Enter => {
                self.apply_filter();
                self.filter_state = FilterState::FilterApplied;
            },
            KeyCode::Char(c) => {
                let mut text = String::new();
                std::mem::swap(&mut text, &mut self.filter_text);
                push_char(&mut text, c);
                self.filter_text = text;
                self.apply_filter();
            },
            KeyCode::Backspace => {
                let mut chars = str_to_chars(self.filter_text.as_str());
                chars.pop();
                self.filter_text = chars_to_string(chars.as_slice());
                self.apply_filter();
            },
            _ => {},
        }
    }

    fn sync_page(&mut self)
        ensures
            final(self)@ == page_synced(old(self)@),
    {
        proof { use_type_invariant(&self.core); }
        if self.per_page > 0 {
            self.core.paginator.page = self.core.cursor / self.per_page;
        }
    }

    #[verifier::spinoff_prover]
    #[verifier::rlimit(40)]
    fn update_normal(&mut self, msg: &KeyMsg) -> (r: ListAction)
        requires
            old(self)@.filter_state != FilterState::Filtering,
        ensures
            (final(self)@, r) == normal_step(old(self)@, *msg),
    {
        proof { use_type_invariant(&self.core); }
        if self.keymap.cursor_up.matches(msg) || self.keymap.cursor_down.matches(msg)
            || self.keymap.go_to_start.matches(msg) || self.keymap.go_to_end.matches(msg)
            || self.keymap.next_page.matches(msg) || self.keymap.prev_page.matches(msg) {
            self.navigate(msg);
            self.sync_page();
            return ListAction::Nothing;
        }
        let mut action = ListAction::Nothing;
        if self.keymap.filter.matches(msg) {
            self.filter_state = FilterState::Filtering;
            return ListAction::FocusFilter;
        } else if self.keymap.clear_filter.matches(msg) {
            self.filter_text = String::new();
            self.filter_state = FilterState::Unfiltered;
            self.filtered_items = Vec::new();
            self.core.cursor = 0;
            self.update_pagination();
        } else if self.keymap.show_full_help.matches(msg) || self.keymap.close_full_help.matches(msg) {
            self.help.show_all = !self.help.show_all;
            self.update_pagination();
        } else if self.keymap.quit.matches(msg) {
            return ListAction::Quit;
        } else if msg.key == KeyCode::Enter {
            if self.filter_state == FilterState::Unfiltered {
                if self.core.cursor < self.items.len() {
                    action = ListAction::Select(self.core.cursor);
                }
            } else {
                if self.core.cursor < self.filtered_items.len() {
                    action = ListAction::Select(self.filtered_items[self.core.cursor].index);
                }
            }
        }
        self.sync_page();
        action
    }

    /// The cursor movements of `normal_step`, before the page is synced.
    #[verifier::spinoff_prover]
    #[verifier::rlimit(40)]
    fn navigate(&mut self, msg: &KeyMsg)
        requires
            spec_matches(old(self)@.keymap.cursor_up@, *msg) || spec_matches(old(self)@.keymap.cursor_down@, *msg)
                || spec_matches(old(self)@.keymap.go_to_start@, *msg) || spec_matches(old(self)@.keymap.go_to_end@, *msg)
                || spec_matches(old(self)@.keymap.next_page@, *msg) || spec_matches(old(self)@.keymap.prev_page@, *msg),
        ensures
            page_synced(final(self)@) == normal_step(old(self)@, *msg).0,
    {
        proof { use_type_invariant(&self.core); }
        let len = self.len();
        let ipv = self.items_per_view_exec();
        if self.keymap.cursor_up.matches(msg) {
            if self.core.cursor > 0 {
                if self.core.cursor == self.viewport_start {
                    self.core.cursor = self.core.cursor - 1;
                    self.viewport_start = self.core.cursor.saturating_sub(ipv - 1);
                } else {
                    self.core.cursor = self.core.cursor - 1;
                    self.sync_viewport_with_cursor();
                }
            }
        } else if self.keymap.cursor_down.matches(msg) {
            if self.core.cursor < len.saturating_sub(1) {
                if self.core.cursor >= self.viewport_start && self.core.cursor - self.viewport_start == ipv - 1 {
                    self.core.cursor = self.core.cursor + 1;
                    self.viewport_start = self.core.cursor;
                } else {
                    self.core.cursor = self.core.cursor + 1;
                    self.sync_viewport_with_cursor();
                }
            }
        } else if self.keymap.go_to_start.matches(msg) {
            self.core.cursor = 0;
            self.sync_viewport_with_cursor();
        } else if self.keymap.go_to_end.matches(msg) {
            self.core.cursor = len.saturating_sub(1);
            self.sync_viewport_with_cursor();
        } else if self.keymap.next_page.matches(msg) {
            if len > 0 {
                let sum = self.core.cursor.saturating_add(self.per_page);
                self.core.cursor = if sum < len - 1 { sum } else { len - 1 };
                self.sync_viewport_with_cursor();
            }
        } else {
            self.core.cursor = self.core.cursor.saturating_sub(self.per_page);
            self.sync_viewport_with_cursor();
        }
    }
}


impl<I: Item, D: ItemDelegate<I>> Model<I, D> {
    /// The styles of the list's sections.
    pub closed spec fn spec_styles(&self) -> ListStyles {
        self.styles
    }

    /// The spinner shown while loading.
    pub closed spec fn spec_spinner(&self) -> spinner::Model {
        self.spinner
    }

    /// The styles of the list's sections.
    pub fn styles(&self) -> (r: &ListStyles)
        ensures
            *r == self.spec_styles(),
    {
        &self.styles
    }

    /// The spinner, to change in place.
    pub fn spinner_mut(&mut self) -> (r: &mut spinner::Model)
        ensures
            *r == old(self)@.spinner,
            final(self)@ == (ListView { spinner: *final(r), ..old(self)@ }),
    {
        &mut self.spinner
    }

    /// The help view's settings, to change in place.
    pub fn help_mut(&mut self) -> (r: &mut help::Model)
        ensures
            *r == old(self)@.help,
            final(self)@ == (ListView { help: *final(r), ..old(self)@ }),
    {
        &mut self.help
    }

    /// The styles, to change in place.
    pub fn styles_mut(&mut self) -> (r: &mut ListStyles)
        ensures
            *r == old(self)@.styles,
            final(self)@ == (ListView { styles: *final(r), ..old(self)@ }),
    {
        &mut self.styles
    }

    /// All items, to change in place; a filter that was set is dropped first, since the
    /// items it matched may change.
    pub fn items_mut(&mut self) -> (r: &mut Vec<I>)
        ensures
            (*r)@ == old(self)@.items,
            final(self)@ == (ListView { items: final(r)@, ..unfiltered(old(self)@) }),
    {
        if self.filter_state != FilterState::Unfiltered {
            self.filter_state = FilterState::Unfiltered;
            self.filtered_items = Vec::new();
        }
        &mut self.items
    }

    /// The spinner shown while loading.
    pub fn spinner(&self) -> (r: &spinner::Model)
        ensures
            *r == self.spec_spinner(),
    {
        &self.spinner
    }

    /// This list with the given styles.
    pub fn with_styles(self, styles: ListStyles) -> (m: Self)
        ensures
            m@ == (ListView { styles, ..self@ }),
            m.spec_styles() == styles,
            m.spec_spinner() == self.spec_spinner(),
            m.spec_delegate() == self.spec_delegate(),
    {
        let mut m = self;
        m.set_styles(styles);
        m
    }

    /// Replaces the styles of the list's sections.
    pub fn set_styles(&mut self, styles: ListStyles)
        ensures
            final(self)@ == (ListView { styles, ..old(self)@ }),
            final(self).spec_styles() == styles,
            final(self).spec_spinner() == old(self).spec_spinner(),
            final(self).spec_delegate() == old(self).spec_delegate(),
    {
        proof { use_type_invariant(&self.core); }
        self.styles = styles;
    }

    /// The status view: the cursor position among the shown items, then the help view
    /// of the list's bindings; whatever the help view renders, the result is the status
    /// view text for some help view.
    pub fn status_view(&self) -> (r: String)
        ensures
            exists|h: Seq<char>| r@ == #[trigger] status_view_text(self@, h),
    {
        let help_view = self.help.view(self);
        self.status_view_with_help(help_view.as_str())
    }

    /// The header: the filter being typed, or the styled title (with the number of
    /// matches when a filter is applied); then the styled status line unless a filter is
    /// being typed; one per line.
    pub fn view_header(&self) -> (r: String)
        ensures
            self@.filter_state == FilterState::Filtering ==> r@ == "Filter: "@ + self@.filter_text,
    {
        let mut sections: Vec<String> = Vec::new();
        if self.filter_state == FilterState::Filtering {
            let mut prompt = String::from_str("Filter: ");
            push_str(&mut prompt, self.filter_text.as_str());
            sections.push(prompt);
            let r = join_strings(&sections, "\n");
            assert(sections@.map_values(|p: String| p@) =~= seq![prompt@]);
            return r;
        } else if self.show_title {
            let mut title = self.title.clone();
            if self.filter_state == FilterState::FilterApplied {
                push_str(&mut title, " (");
                push_decimal(&mut title, self.len() as u64);
                push_str(&mut title, " matched)");
            }
            sections.push(render(&self.styles.title, title.as_str()));
        }
        if self.show_status_bar && self.filter_state != FilterState::Filtering {
            let status = self.status_line();
            if status.as_str().unicode_len() > 0 {
                sections.push(render(&self.styles.status_bar, status.as_str()));
            }
        }
        join_strings(&sections, "\n")
    }

    /// What the delegate reads of the list when rendering the item at position `pos` of
    /// the shown items: while a filter is set, the positions that matched that item.
    pub fn item_context(&self, pos: usize) -> (c: ItemContext)
        ensures
            context_for(self@, pos, c),
    {
        let matches = if self.filter_state != FilterState::Unfiltered && pos < self.filtered_items.len() {
            let src = &self.filtered_items[pos].matches;
            let mut copy: Vec<usize> = Vec::new();
            let mut i: usize = 0;
            while i < src.len()
                invariant
                    i <= src@.len(),
                    copy@ == src@.subrange(0, i as int),
                decreases src@.len() - i,
            {
                copy.push(src[i]);
                i += 1;
            }
            assert(copy@ =~= src@);
            Some(copy)
        } else {
            None
        };
        ItemContext {
            width: self.width,
            cursor: self.core.cursor,
            filter_state: self.filter_state,
            filter_empty: self.filter_text.as_str().unicode_len() == 0,
            matches,
        }
    }

    /// Whether `s` is a rendering the delegate may give of the item shown at position
    /// `pos`, with that item's index among all items and the context `item_context`
    /// gives for the position.
    pub open spec fn rendered_by_delegate(&self, pos: usize, s: String) -> bool {
        exists|ctx: ItemContext| #[trigger] context_for(self@, pos, ctx)
            && call_ensures(
                D::render,
                (&self@.delegate, &ctx, item_index(self@, pos as int), &item_at(self@, pos as int)),
                s,
            )
    }

    /// The delegate's rendering of `item`.
    fn render_with_delegate(&self, ctx: &ItemContext, index: usize, item: &I) -> (r: String)
        ensures
            call_ensures(D::render, (&self.spec_delegate(), ctx, index, item), r),
    {
        let f = D::render;
        f(&self.core.delegate, ctx, index, item)
    }

    /// The items in view: from the viewport's start, as many as fit, each rendered by
    /// the delegate (with its index among all items and `item_context` of its position)
    /// and, when not empty, followed by the delegate's spacing in blank lines; all joined
    /// by line breaks, trailing line breaks removed. "No items." when none are shown;
    /// nothing when items take no lines.
    pub fn view_items(&self) -> (r: String)
        ensures
            spec_len(self@) > 0 && item_lines(self@) == 0 ==> r@ == Seq::<char>::empty(),
            spec_len(self@) > 0 && item_lines(self@) > 0 ==> exists|rendered: Seq<String>|
                rendered.len() == shown_count(self@)
                && (forall|k: int| 0 <= k < rendered.len() ==> self.rendered_by_delegate(
                    (self@.viewport_start + k) as usize,
                    #[trigger] rendered[k],
                ))
                && r@ == #[trigger] trim_newlines(joined(item_parts(strings_view(rendered), self@.item_spacing as nat), "\n"@)),
            spec_len(self@) > 0 && item_lines(self@) > 0 ==> r@.len() == 0 || r@.last() != '\n',
    {
        proof { use_type_invariant(&self.core); }
        let n = self.len();
        if n == 0 {
            return render(&self.styles.no_items, "No items.");
        }
        let item_height = self.core.delegate.height() + self.core.delegate.spacing();
        if item_height == 0 {
            return String::new();
        }
        let header: usize = if self.show_title && self.show_status_bar { 2 } else { 1 };
        let footer: usize = (if self.show_help { 1usize } else { 0usize }) + (if self.show_pagination { 1usize } else { 0usize });
        let available = self.height.saturating_sub(header + footer);
        let per_view = if available / item_height >= 1 { available / item_height } else { 1 };
        assert(per_view == items_per_view(self@));
        let spacing = self.core.delegate.spacing();
        let mut parts: Vec<String> = Vec::new();
        let ghost mut rendered_strs: Seq<String> = Seq::empty();
        let mut k = self.viewport_start;
        let mut shown: usize = 0;
        while k < n && shown < per_view
            invariant
                n == spec_len(self@),
                self.filter_state == FilterState::Unfiltered ==> n == self.items@.len(),
                self.filter_state != FilterState::Unfiltered ==> n == self.filtered_items@.len(),
                spacing == self@.item_spacing,
                per_view == items_per_view(self@),
                k == self@.viewport_start + shown,
                shown <= per_view,
                shown > 0 ==> k <= n,
                rendered_strs.len() == shown,
                forall|j: int| 0 <= j < rendered_strs.len() ==> self.rendered_by_delegate(
                    (self@.viewport_start + j) as usize,
                    #[trigger] rendered_strs[j],
                ),
                parts@.map_values(|p: String| p@) == item_parts(strings_view(rendered_strs), spacing as nat),
            decreases n - k,
        {
            let ctx = self.item_context(k);
            let rendered = if self.filter_state == FilterState::Unfiltered {
                self.render_with_delegate(&ctx, k, &self.items[k])
            } else {
                let fi = &self.filtered_items[k];
                self.render_with_delegate(&ctx, fi.index, &fi.item)
            };
            assert(self.rendered_by_delegate(k, rendered));
            let ghost prev = item_parts(strings_view(rendered_strs), spacing as nat);
            let ghost old_strs = rendered_strs;
            proof {
                rendered_strs = rendered_strs.push(rendered);
                assert(strings_view(rendered_strs).drop_last() =~= strings_view(old_strs));
                assert(strings_view(rendered_strs).last() == rendered@);
            }
            let ghost rendered_all = strings_view(rendered_strs);
            if rendered.as_str().unicode_len() > 0 {
                let ghost base = prev.push(rendered@);
                let ghost before0 = parts@;
                parts.push(rendered);
                assert(parts@.map_values(|p: String| p@) =~= before0.map_values(|p: String| p@).push(rendered@));
                assert(parts@.map_values(|p: String| p@) =~= base + blank_lines(0));
                let mut j: usize = 0;
                while j < spacing
                    invariant
                        j <= spacing,
                        parts@.map_values(|p: String| p@) == base + blank_lines(j as nat),
                    decreases spacing - j,
                {
                    let ghost before = parts@;
                    parts.push(String::new());
                    assert(parts@.map_values(|p: String| p@) =~= before.map_values(|p: String| p@).push(
                        Seq::<char>::empty(),
                    ));
                    assert(base + blank_lines((j + 1) as nat) =~= (base + blank_lines(j as nat)).push(
                        Seq::<char>::empty(),
                    ));
                    j += 1;
                }
                assert(item_parts(rendered_all, spacing as nat) == base + blank_lines(spacing as nat));
            } else {
                assert(rendered@.len() == 0);
                assert(item_parts(rendered_all, spacing as nat) == prev);
            }
            k += 1;
            shown += 1;
        }
        assert(shown == shown_count(self@));
        let joined_text = join_strings(&parts, "\n");
        let ghost target = trim_newlines(joined_text@);
        let mut chars = str_to_chars(joined_text.as_str());
        while chars.len() > 0 && chars[chars.len() - 1] == '\n'
            invariant
                trim_newlines(chars@) == target,
            decreases chars@.len(),
        {
            chars.pop();
        }
        let r = chars_to_string(chars.as_slice());
        assert(r@ == target);
        r
    }

    /// The footer: the help view of the list's bindings in the help style, or nothing
    /// when help is hidden.
    pub fn view_footer(&self) -> (r: String)
        ensures
            !self@.show_help ==> r@ == Seq::<char>::empty(),
    {
        if !self.show_help {
            return String::new();
        }
        let hv = self.help.view(self);
        render(&self.styles.help_style, hv.as_str())
    }

    /// The whole list as the terminal shows it: header, items, spinner (when shown),
    /// pagination (when shown and there is more than one page), and the styled help (when
    /// shown), one section per line, empty sections left out.
    pub fn render_view(&self) -> (r: String)
        ensures
            self@.filter_state == FilterState::Filtering ==> ("Filter: "@ + self@.filter_text).len() <= r@.len()
                && r@.subrange(0, ("Filter: "@ + self@.filter_text).len() as int) == "Filter: "@ + self@.filter_text,
    {
        let mut sections: Vec<String> = Vec::new();
        let header = self.view_header();
        let ghost h = header@;
        proof {
            reveal_strlit("Filter: ");
        }
        if header.as_str().unicode_len() > 0 {
            sections.push(header);
        }
        assert(self@.filter_state == FilterState::Filtering ==> sections@.len() == 1 && sections@[0]@ == h);
        let items = self.view_items();
        if items.as_str().unicode_len() > 0 {
            sections.push(items);
        }
        if self.show_spinner {
            let sv = self.spinner.view();
            if sv.as_str().unicode_len() > 0 {
                sections.push(sv);
            }
        }
        if self.show_pagination && self.len() > 0 && self.core.paginator.total_pages > 1 && self.core.paginator.page < usize::MAX {
            let pv = self.core.paginator.view();
            if pv.as_str().unicode_len() > 0 {
                sections.push(render(&self.styles.pagination_style, pv.as_str()));
            }
        }
        let footer = self.view_footer();
        if footer.as_str().unicode_len() > 0 {
            sections.push(footer);
        }
        let r = join_strings(&sections, "\n");
        proof {
            if self@.filter_state == FilterState::Filtering {
                let pv = sections@.map_values(|p: String| p@);
                assert(pv[0] == h);
                lemma_joined_starts_with_first(pv, "\n"@);
            }
        }
        r
    }
}

/// Inserting an item keeps the cursor on the item it was on.
pub proof fn law_insert_keeps_selection<I>(items: Seq<I>, cursor: usize, index: usize, item: I)
    requires
        cursor < items.len(),
        index <= items.len(),
        items.len() < usize::MAX,
    ensures
        items.insert(index as int, item)[cursor_after_insert(cursor, index, items.len() + 1) as int]
            == items[cursor as int],
{
    let c = cursor_after_insert(cursor, index, items.len() + 1);
    if index <= cursor {
        assert(c == cursor + 1);
    }
    assert(items.insert(index as int, item)[c as int] == items[cursor as int]);
}

/// Moving an item keeps the cursor on the item it was on.
pub proof fn law_move_keeps_selection<I>(items: Seq<I>, cursor: usize, from: usize, to: usize)
    requires
        cursor < items.len(),
        from < items.len(),
        to < items.len(),
    ensures
        items.remove(from as int).insert(to as int, items[from as int])[cursor_after_move(cursor, from, to) as int]
            == items[cursor as int],
{
    let moved = items.remove(from as int).insert(to as int, items[from as int]);
    let c = cursor_after_move(cursor, from, to);
    assert(moved.len() == items.len());
    assert(moved[c as int] == items[cursor as int]);
}

/// Removing an item leaves the cursor on an item whenever any are left, and on the same
/// item unless that was the one removed.
pub proof fn law_remove_keeps_selection<I>(items: Seq<I>, cursor: usize, index: usize)
    requires
        cursor < items.len(),
        index < items.len(),
    ensures
        items.len() > 1 ==> cursor_after_remove(cursor, index, (items.len() - 1) as nat) < items.len() - 1,
        index != cursor ==> items.remove(index as int)[cursor_after_remove(cursor, index, (items.len() - 1) as nat) as int]
            == items[cursor as int],
{
}

/// The items a filter keeps are listed in their original order, each with its index among
/// all items and the positions that matched it; and every item that matched is kept.
pub proof fn law_filter_keeps_order(results: Seq<Option<Seq<usize>>>)
    requires
        results.len() <= usize::MAX,
    ensures
        forall|i: int, j: int| 0 <= i < j < kept(results).len() ==> #[trigger] kept(results)[i].0 < #[trigger] kept(results)[j].0,
        forall|i: int| 0 <= i < kept(results).len() ==> (#[trigger] kept(results)[i]).0 < results.len()
            && results[kept(results)[i].0 as int] == Some(kept(results)[i].1),
        forall|k: int| 0 <= k < results.len() && (#[trigger] results[k]) is Some ==> exists|i: int|
            0 <= i < kept(results).len() && (#[trigger] kept(results)[i]).0 == k,
    decreases results.len(),
{
    if results.len() > 0 {
        let prev = results.drop_last();
        law_filter_keeps_order(prev);
        let n = (results.len() - 1) as int;
        assert forall|k: int| 0 <= k < results.len() && (#[trigger] results[k]) is Some implies exists|i: int|
            0 <= i < kept(results).len() && (#[trigger] kept(results)[i]).0 == k by {
            if k < n {
                assert(prev[k] == results[k]);
                let i = choose|i: int| 0 <= i < kept(prev).len() && (#[trigger] kept(prev)[i]).0 == k;
                assert(kept(results)[i] == kept(prev)[i]);
            } else {
                assert(kept(results).last().0 == k);
            }
        }
        assert forall|i: int| 0 <= i < kept(results).len() implies (#[trigger] kept(results)[i]).0 < results.len()
            && results[kept(results)[i].0 as int] == Some(kept(results)[i].1) by {
            if i < kept(prev).len() {
                assert(kept(results)[i] == kept(prev)[i]);
                assert(prev[kept(prev)[i].0 as int] == results[kept(prev)[i].0 as int]);
            }
        }
    }
}

impl<I: Item, D: ItemDelegate<I>> help::KeyMap for Model<I, D> {
    /// While filtering: accept and cancel; otherwise up, down, filter, quit and "more".
    fn short_help(&self) -> (r: Vec<&Binding>)
        ensures
            self@.filter_state == FilterState::Filtering ==> r@ == seq![
                &self@.keymap.accept_filter,
                &self@.keymap.cancel_filter,
            ],
            self@.filter_state != FilterState::Filtering ==> r@ == seq![
                &self@.keymap.cursor_up,
                &self@.keymap.cursor_down,
                &self@.keymap.filter,
                &self@.keymap.quit,
                &self@.keymap.show_full_help,
            ],
    {
        if self.filter_state == FilterState::Filtering {
            vec![&self.keymap.accept_filter, &self.keymap.cancel_filter]
        } else {
            vec![
                &self.keymap.cursor_up,
                &self.keymap.cursor_down,
                &self.keymap.filter,
                &self.keymap.quit,
                &self.keymap.show_full_help,
            ]
        }
    }

    /// Navigation, filtering, and help and quit, in three columns.
    fn full_help(&self) -> (r: Vec<Vec<&Binding>>)
        ensures
            r@.len() == 3,
            r@[0]@ == seq![&self@.keymap.cursor_up, &self@.keymap.cursor_down, &self@.keymap.next_page, &self@.keymap.prev_page, &self@.keymap.go_to_start, &self@.keymap.go_to_end],
            r@[1]@ == seq![&self@.keymap.filter, &self@.keymap.clear_filter, &self@.keymap.accept_filter, &self@.keymap.cancel_filter],
            r@[2]@ == seq![&self@.keymap.show_full_help, &self@.keymap.close_full_help, &self@.keymap.quit],
    {
        vec![
            vec![
                &self.keymap.cursor_up,
                &self.keymap.cursor_down,
                &self.keymap.next_page,
                &self.keymap.prev_page,
                &self.keymap.go_to_start,
                &self.keymap.go_to_end,
            ],
            vec![
                &self.keymap.filter,
                &self.keymap.clear_filter,
                &self.keymap.accept_filter,
                &self.keymap.cancel_filter,
            ],
            vec![&self.keymap.show_full_help, &self.keymap.close_full_help, &self.keymap.quit],
        ]
    }
}

} // verus!
