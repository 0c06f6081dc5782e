//! The state of a table: columns, rows, the selected row and the scroll offset that
//! keeps it in view, with keyboard navigation.
use vstd::prelude::*;
use crate::key::{self, Binding, KeyCode, KeyMap, KeyMsg, KeyPress, spec_matches};
use crate::list::keys::{bound, kp};
use crate::help;
use crate::style::{
    bold_style, color_foreground, inherit_style, new_style, padding_style, style_bold, style_inherit, style_padding,
    style_width, width_style,
};
use crate::spinner::copy_strings;

verus! {

/// A column: its title and width.
#[derive(Debug, Clone)]
pub struct Column {
    pub title: String,
    pub width: i32,
}

impl Column {
    /// A column with the given title and width.
    pub fn new(title: &str, width: i32) -> (c: Column)
        ensures
            c.title@ == title@,
            c.width == width,
    {
        Column { title: title.to_string(), width }
    }
}

/// A row: one string per cell.
#[derive(Debug, Clone)]
pub struct Row {
    pub cells: Vec<String>,
}

impl Row {
    /// A row with the given cells.
    pub fn new(cells: Vec<String>) -> (r: Row)
        ensures
            r.cells@ == cells@,
    {
        Row { cells }
    }
}

/// The key bindings of a table.
#[derive(Debug, Clone)]
pub struct TableKeyMap {
    pub row_up: Binding,
    pub row_down: Binding,
    pub page_up: Binding,
    pub page_down: Binding,
    pub half_page_up: Binding,
    pub half_page_down: Binding,
    pub go_to_start: Binding,
    pub go_to_end: Binding,
}

fn binding(codes: Vec<KeyCode>, help_key: &str, help_desc: &str) -> (b: Binding)
    ensures
        b@.keys.len() == codes@.len(),
        forall|i: int| 0 <= i < codes@.len() ==> #[trigger] b@.keys[i] == kp(codes@[i]),
        b@.help_key == help_key@,
        b@.help_desc == help_desc@,
        b@.enabled,
{
    Binding::from_codes(codes).with_help(help_key, help_desc)
}

/// The default bindings: up/`k`, down/`j`, pgup/`b`, pgdown/`f`, `u` and `d` for half
/// pages, home/`g`, end/`G`.
pub open spec fn is_default_keymap(k: TableKeyMap) -> bool {
    &&& k.row_up@ == bound(seq![kp(KeyCode::Up), kp(KeyCode::Char('k'))], "↑/k"@, "up"@)
    &&& k.row_down@ == bound(seq![kp(KeyCode::Down), kp(KeyCode::Char('j'))], "↓/j"@, "down"@)
    &&& k.page_up@ == bound(seq![kp(KeyCode::PageUp), kp(KeyCode::Char('b'))], "pgup/b"@, "page up"@)
    &&& k.page_down@ == bound(seq![kp(KeyCode::PageDown), kp(KeyCode::Char('f'))], "pgdn/f"@, "page down"@)
    &&& k.half_page_up@ == bound(seq![kp(KeyCode::Char('u'))], "u"@, "½ page up"@)
    &&& k.half_page_down@ == bound(seq![kp(KeyCode::Char('d'))], "d"@, "½ page down"@)
    &&& k.go_to_start@ == bound(seq![kp(KeyCode::Home), kp(KeyCode::Char('g'))], "g/home"@, "go to start"@)
    &&& k.go_to_end@ == bound(seq![kp(KeyCode::End), kp(KeyCode::Char('G'))], "G/end"@, "go to end"@)
}

impl TableKeyMap {
    /// up/`k`, down/`j`, pgup/`b`, pgdown/`f`, `u` and `d` for half pages, home/`g`,
    /// end/`G`.
    pub fn default() -> (k: TableKeyMap)
        ensures
            is_default_keymap(k),
    {
        let k = TableKeyMap {
            row_up: binding(vec![KeyCode::Up, KeyCode::Char('k')], "↑/k", "up"),
            row_down: binding(vec![KeyCode::Down, KeyCode::Char('j')], "↓/j", "down"),
            page_up: binding(vec![KeyCode::PageUp, KeyCode::Char('b')], "pgup/b", "page up"),
            page_down: binding(vec![KeyCode::PageDown, KeyCode::Char('f')], "pgdn/f", "page down"),
            half_page_up: binding(vec![KeyCode::Char('u')], "u", "½ page up"),
            half_page_down: binding(vec![KeyCode::Char('d')], "d", "½ page down"),
            go_to_start: binding(vec![KeyCode::Home, KeyCode::Char('g')], "g/home", "go to start"),
            go_to_end: binding(vec![KeyCode::End, KeyCode::Char('G')], "G/end", "go to end"),
        };
        assert(k.row_up@.keys =~= seq![kp(KeyCode::Up), kp(KeyCode::Char('k'))]);
        assert(k.row_down@.keys =~= seq![kp(KeyCode::Down), kp(KeyCode::Char('j'))]);
        assert(k.page_up@.keys =~= seq![kp(KeyCode::PageUp), kp(KeyCode::Char('b'))]);
        assert(k.page_down@.keys =~= seq![kp(KeyCode::PageDown), kp(KeyCode::Char('f'))]);
        assert(k.half_page_up@.keys =~= seq![kp(KeyCode::Char('u'))]);
        assert(k.half_page_down@.keys =~= seq![kp(KeyCode::Char('d'))]);
        assert(k.go_to_start@.keys =~= seq![kp(KeyCode::Home), kp(KeyCode::Char('g'))]);
        assert(k.go_to_end@.keys =~= seq![kp(KeyCode::End), kp(KeyCode::Char('G'))]);
        k
    }
}

impl help::KeyMap for Model {
    fn short_help(&self) -> (r: Vec<&Binding>)
        ensures
            r@ == seq![&self.keymap.row_up, &self.keymap.row_down, &self.keymap.page_up, &self.keymap.page_down],
    {
        vec![&self.keymap.row_up, &self.keymap.row_down, &self.keymap.page_up, &self.keymap.page_down]
    }

    fn full_help(&self) -> (r: Vec<Vec<&Binding>>)
        ensures
            r@.len() == 4,
            r@[0]@ == seq![&self.keymap.row_up, &self.keymap.row_down],
            r@[1]@ == seq![&self.keymap.page_up, &self.keymap.page_down],
            r@[2]@ == seq![&self.keymap.half_page_up, &self.keymap.half_page_down],
            r@[3]@ == seq![&self.keymap.go_to_start, &self.keymap.go_to_end],
    {
        vec![
            vec![&self.keymap.row_up, &self.keymap.row_down],
            vec![&self.keymap.page_up, &self.keymap.page_down],
            vec![&self.keymap.half_page_up, &self.keymap.half_page_down],
            vec![&self.keymap.go_to_start, &self.keymap.go_to_end],
        ]
    }
}

impl KeyMap for TableKeyMap {
    fn short_help(&self) -> (r: Vec<&Binding>)
        ensures
            r@ == seq![&self.row_up, &self.row_down, &self.page_up, &self.page_down],
    {
        vec![&self.row_up, &self.row_down, &self.page_up, &self.page_down]
    }

    fn full_help(&self) -> (r: Vec<Vec<&Binding>>)
        ensures
            r@.len() == 4,
            r@[0]@ == seq![&self.row_up, &self.row_down],
            r@[1]@ == seq![&self.page_up, &self.page_down],
            r@[2]@ == seq![&self.half_page_up, &self.half_page_down],
            r@[3]@ == seq![&self.go_to_start, &self.go_to_end],
    {
        vec![
            vec![&self.row_up, &self.row_down],
            vec![&self.page_up, &self.page_down],
            vec![&self.half_page_up, &self.half_page_down],
            vec![&self.go_to_start, &self.go_to_end],
        ]
    }
}

/// The styles of the table's cells.
#[derive(Debug, Clone)]
pub struct Styles {
    pub header: lipgloss::Style,
    pub cell: lipgloss::Style,
    pub selected: lipgloss::Style,
}

/// How the default table styles are built from one plain style `base`: bold headers and
/// plain cells, both padded by one column on each side, and the selected row
/// `bold_colored` (a color set on bold `base`).
pub open spec fn table_styles_built(st: Styles, base: lipgloss::Style, bold_colored: lipgloss::Style) -> bool {
    &&& st.header == style_padding(style_bold(base), 0, 1, 0, 1)
    &&& st.cell == style_padding(base, 0, 1, 0, 1)
    &&& st.selected == bold_colored
}

impl Styles {
    /// Bold padded headers, padded cells, a bold pink selected row.
    pub fn default() -> (st: Styles)
        ensures
            exists|base: lipgloss::Style, bold_colored: lipgloss::Style| #[trigger] table_styles_built(st, base, bold_colored),
    {
        let base = new_style();
        let bold = bold_style(&base);
        let selected = color_foreground(&bold, "212");
        let st = Styles {
            header: padding_style(&bold, 0, 1, 0, 1),
            cell: padding_style(&base, 0, 1, 0, 1),
            selected,
        };
        assert(table_styles_built(st, base, st.selected));
        st
    }
}

/// The row number the table renderer gives the header.
pub const HEADER_ROW: i32 = -1;

/// The style of the cell at `row` (the header at `HEADER_ROW`, data rows from 0) and
/// `col`: the header or cell style, with the column's width when it has one, under the
/// selected style on the selected row.
pub open spec fn spec_cell_style(row: i32, col: usize, styles: Styles, widths: Seq<i32>, selected_row: i32) -> lipgloss::Style {
    let s0 = if row == HEADER_ROW {
        styles.header
    } else {
        styles.cell
    };
    let s1 = if col < widths.len() {
        style_width(s0, widths[col as int])
    } else {
        s0
    };
    if row >= 0 && row == selected_row {
        style_inherit(styles.selected, s1)
    } else {
        s1
    }
}

/// The style of the cell at `row` and `col` (`spec_cell_style`).
pub fn cell_style(row: i32, col: usize, styles: &Styles, widths: &Vec<i32>, selected_row: i32) -> (r: lipgloss::Style)
    ensures
        r == spec_cell_style(row, col, *styles, widths@, selected_row),
{
    let mut s = if row == HEADER_ROW {
        styles.header.clone()
    } else {
        styles.cell.clone()
    };
    if col < widths.len() {
        s = width_style(&s, widths[col]);
    }
    if row >= 0 && row == selected_row {
        s = inherit_style(&styles.selected, &s);
    }
    s
}

/// `lipgloss_extras::table::Table`, carried through as an opaque value.
#[verifier::external_type_specification]
#[verifier::external_body]
pub struct ExTable(lipgloss_extras::table::Table);

/// Calls `lipgloss_extras::table::Table::new()`. Nothing is claimed of the value.
#[verifier::external_body]
fn table_new() -> lipgloss_extras::table::Table {
    lipgloss_extras::table::Table::new()
}

/// Calls `Table::width(w)`. Nothing is claimed of the result.
#[verifier::external_body]
fn table_width(t: lipgloss_extras::table::Table, w: i32) -> lipgloss_extras::table::Table {
    t.width(w)
}

/// Calls `Table::headers(headers)`. Nothing is claimed of the result.
#[verifier::external_body]
fn table_headers(t: lipgloss_extras::table::Table, headers: Vec<String>) -> lipgloss_extras::table::Table {
    t.headers(headers)
}

/// Calls `Table::style_func_boxed` with a function that gives each cell `cell_style` of
/// its row and column. Nothing is claimed of the result.
#[verifier::external_body]
fn table_style_func(
    t: lipgloss_extras::table::Table,
    styles: Styles,
    widths: Vec<i32>,
    selected_row: i32,
) -> lipgloss_extras::table::Table {
    t.style_func_boxed(move |row: i32, col: usize| cell_style(row, col, &styles, &widths, selected_row))
}

/// Calls `Table::rows(rows)`. Nothing is claimed of the result.
#[verifier::external_body]
fn table_rows(t: lipgloss_extras::table::Table, rows: Vec<Vec<String>>) -> lipgloss_extras::table::Table {
    t.rows(rows)
}

/// Calls `ToString::to_string` on the table, which renders it. Nothing is claimed of the
/// text.
#[verifier::external_body]
fn table_to_string(t: &lipgloss_extras::table::Table) -> String {
    t.to_string()
}

/// A construction option for `with_options`.
pub enum TableOption {
    Columns(Vec<Column>),
    Rows(Vec<Row>),
    Height(i32),
    Width(i32),
    Focused(bool),
    KeyMap(TableKeyMap),
    Styles(Styles),
}

/// An option setting the styles.
pub fn with_styles(s: Styles) -> (o: TableOption)
    ensures
        o matches TableOption::Styles(t) && t == s,
{
    TableOption::Styles(s)
}

/// An option setting the columns.
pub fn with_columns(cols: Vec<Column>) -> (o: TableOption)
    ensures
        o matches TableOption::Columns(c) && c@ == cols@,
{
    TableOption::Columns(cols)
}

/// An option setting the rows.
pub fn with_rows(rows: Vec<Row>) -> (o: TableOption)
    ensures
        o matches TableOption::Rows(r) && r@ == rows@,
{
    TableOption::Rows(rows)
}

/// An option setting the height.
pub fn with_height(h: i32) -> (o: TableOption)
    ensures
        o == TableOption::Height(h),
{
    TableOption::Height(h)
}

/// An option setting the width.
pub fn with_width(w: i32) -> (o: TableOption)
    ensures
        o == TableOption::Width(w),
{
    TableOption::Width(w)
}

/// An option setting focus.
pub fn with_focused(f: bool) -> (o: TableOption)
    ensures
        o == TableOption::Focused(f),
{
    TableOption::Focused(f)
}

/// An option setting the key bindings.
pub fn with_key_map(km: TableKeyMap) -> (o: TableOption)
    ensures
        o matches TableOption::KeyMap(k) && k == km,
{
    TableOption::KeyMap(km)
}

/// What a table hands to the renderer.
#[derive(Debug, Clone)]
pub struct TableInput {
    /// The table's width, when positive.
    pub width: Option<i32>,
    pub headers: Vec<String>,
    pub widths: Vec<i32>,
    pub rows: Vec<Vec<String>>,
    pub selected: i32,
}

/// The state of a table.
#[derive(Debug, Clone)]
pub struct Model {
    pub columns: Vec<Column>,
    pub rows: Vec<Row>,
    pub selected: usize,
    pub width: i32,
    pub height: i32,
    pub keymap: TableKeyMap,
    pub focus: bool,
    /// The help view of the table's bindings.
    pub help: help::Model,
    pub styles: Styles,
    /// The first line of the rendered table (the header is line 0) in view.
    pub y_offset: usize,
}

/// A table as `with_options` starts from: no columns or rows, nothing selected, width
/// 0, height 20, focused, the default bindings, scrolled to the top.
pub open spec fn is_initial(m: Model) -> bool {
    &&& m.columns@.len() == 0
    &&& m.rows@.len() == 0
    &&& m.selected == 0
    &&& m.width == 0
    &&& m.height == 20
    &&& m.focus
    &&& m.y_offset == 0
    &&& is_default_keymap(m.keymap)
}

/// The table with one construction option applied.
pub open spec fn apply_option(m: Model, o: TableOption) -> Model {
    match o {
        TableOption::Columns(c) => Model { columns: c, ..m },
        TableOption::Rows(r) => Model { rows: r, ..m },
        TableOption::Height(h) => Model { height: h, ..m },
        TableOption::Width(w) => Model { width: w, ..m },
        TableOption::Focused(f) => Model { focus: f, ..m },
        TableOption::KeyMap(k) => Model { keymap: k, ..m },
        TableOption::Styles(t) => Model { styles: t, ..m },
    }
}

/// The table with the options applied in order.
pub open spec fn apply_options(m: Model, opts: Seq<TableOption>) -> Model
    decreases opts.len(),
{
    if opts.len() == 0 {
        m
    } else {
        apply_option(apply_options(m, opts.drop_last()), opts.last())
    }
}

proof fn lemma_apply_options_push(m: Model, opts: Seq<TableOption>, o: TableOption)
    ensures
        apply_options(m, opts.push(o)) == apply_option(apply_options(m, opts), o),
{
    assert(opts.push(o).drop_last() =~= opts);
}

/// `a - b`, or 0 when `b > a`.
pub open spec fn sat_sub(a: int, b: int) -> int {
    if a >= b { a - b } else { 0 }
}

/// `a + b`, or `usize::MAX` when the sum does not fit.
pub open spec fn sat_add(a: int, b: int) -> int {
    if a + b <= usize::MAX { a + b } else { usize::MAX as int }
}

/// The height as the navigation uses it: as a `usize` (a negative height wraps).
pub open spec fn height_usize(h: i32) -> int {
    if h >= 0 { h as int } else { h as int + usize::MAX as int + 1 }
}

/// The scroll offset after bringing the selected row's line (one below the header)
/// into a view `max(height, 1)` lines tall.
pub open spec fn visible_offset(m: Model) -> usize {
    let target = sat_add(m.selected as int, 1);
    let h = if m.height >= 1 { m.height as int } else { 1 };
    let top = m.y_offset as int;
    let bottom = sat_add(top, h - 1);
    if target < top {
        target as usize
    } else if target > bottom {
        sat_sub(target, h - 1) as usize
    } else {
        m.y_offset
    }
}

/// The selection after moving down by `n`, kept on the last row.
pub open spec fn moved_down(m: Model, n: int) -> usize {
    let last = sat_sub(m.rows.len() as int, 1);
    let s = sat_add(m.selected as int, n);
    (if s < last { s } else { last }) as usize
}

/// How a key event moves the selection of a focused table (before it is scrolled into
/// view).
pub open spec fn key_selection(m: Model, msg: KeyMsg) -> usize {
    let k = m.keymap;
    let h = height_usize(m.height);
    let half = (if h >= 1 { h } else { 1 }) / 2;
    if spec_matches(k.row_up@, msg) {
        if m.rows.len() > 0 { sat_sub(m.selected as int, 1) as usize } else { m.selected }
    } else if spec_matches(k.row_down@, msg) {
        if m.rows.len() > 0 { moved_down(m, 1) } else { m.selected }
    } else if spec_matches(k.go_to_start@, msg) {
        0
    } else if spec_matches(k.go_to_end@, msg) {
        if m.rows.len() > 0 { (m.rows.len() - 1) as usize } else { m.selected }
    } else if spec_matches(k.page_up@, msg) {
        sat_sub(m.selected as int, h) as usize
    } else if spec_matches(k.page_down@, msg) {
        moved_down(m, h)
    } else if spec_matches(k.half_page_up@, msg) {
        sat_sub(m.selected as int, half) as usize
    } else if spec_matches(k.half_page_down@, msg) {
        moved_down(m, half)
    } else {
        m.selected
    }
}

/// Navigation keeps the selection on a row.
pub proof fn law_selection_stays_on_a_row(m: Model, msg: KeyMsg)
    requires
        m.selected < m.rows@.len(),
    ensures
        key_selection(m, msg) < m.rows@.len(),
{
}

/// Where each navigation key moves the selection of a table with rows: up one and down
/// one, a page (the height) or half a page up and down, stopping at the first and last
/// rows; start to the first row and end to the last.
pub proof fn law_keys_move_selection(m: Model, msg: KeyMsg)
    requires
        0 < m.rows@.len() <= usize::MAX,
        m.selected < m.rows@.len(),
    ensures
        ({
            let k = m.keymap;
            let last = m.rows@.len() - 1;
            let h = height_usize(m.height);
            let half = (if h >= 1 { h } else { 1 }) / 2;
            let s = key_selection(m, msg) as int;
            let up = spec_matches(k.row_up@, msg);
            let down = spec_matches(k.row_down@, msg);
            let start = spec_matches(k.go_to_start@, msg);
            let end = spec_matches(k.go_to_end@, msg);
            let pu = spec_matches(k.page_up@, msg);
            let pd = spec_matches(k.page_down@, msg);
            let hu = spec_matches(k.half_page_up@, msg);
            let hd = spec_matches(k.half_page_down@, msg);
            &&& up ==> s == (if m.selected >= 1 { m.selected - 1 } else { 0 })
            &&& !up && down ==> s == (if m.selected + 1 <= last { m.selected + 1 } else { last })
            &&& !up && !down && start ==> s == 0
            &&& !up && !down && !start && end ==> s == last
            &&& !up && !down && !start && !end && pu ==> s == (if m.selected >= h { m.selected - h } else { 0 })
            &&& !up && !down && !start && !end && !pu && pd ==> s == (if m.selected + h <= last {
                m.selected + h
            } else {
                last
            })
            &&& !up && !down && !start && !end && !pu && !pd && hu ==> s == (if m.selected >= half {
                m.selected - half
            } else {
                0
            })
            &&& !up && !down && !start && !end && !pu && !pd && !hu && hd ==> s == (if m.selected + half <= last {
                m.selected + half
            } else {
                last
            })
        }),
{
}

impl Model {
    /// A focused table with the given columns, no rows, height 20, width 0.
    pub fn new(columns: Vec<Column>) -> (m: Model)
        ensures
            m.columns@ == columns@,
            m.rows@.len() == 0,
            m.selected == 0,
            m.width == 0,
            m.height == 20,
            m.focus,
            m.y_offset == 0,
            is_default_keymap(m.keymap),
            m.help.width == 0 && !m.help.show_all,
    {
        Model {
            columns,
            rows: Vec::new(),
            selected: 0,
            width: 0,
            height: 20,
            keymap: TableKeyMap::default(),
            focus: true,
            help: help::Model::new(),
            styles: Styles::default(),
            y_offset: 0,
        }
    }

    /// A focused table of height 20 with the options applied in order, a later option
    /// overriding an earlier one of the same kind.
    pub fn with_options(opts: Vec<TableOption>) -> (m: Model)
        ensures
            exists|m0: Model| #[trigger] is_initial(m0) && m == apply_options(m0, opts@),
    {
        let mut m = Model::new(Vec::new());
        let ghost m0 = m;
        let ghost orig = opts@;
        let mut opts = opts;
        let mut rev: Vec<TableOption> = Vec::new();
        while opts.len() > 0
            invariant
                opts@ + rev@.reverse() == orig,
            decreases opts@.len(),
        {
            let ghost before = rev@;
            let o = opts.pop().unwrap();
            rev.push(o);
            assert(rev@.reverse() =~= seq![o] + before.reverse());
        }
        assert(rev@.reverse() == orig);
        let ghost n = orig.len();
        assert(orig.take(0) =~= Seq::<TableOption>::empty());
        while rev.len() > 0
            invariant
                rev@.reverse() == orig.skip(n - rev@.len()),
                rev@.len() <= n,
                n == orig.len(),
                m == apply_options(m0, orig.take(n - rev@.len())),
            decreases rev@.len(),
        {
            let ghost k = n - rev@.len();
            let ghost before = rev@;
            let o = rev.pop().unwrap();
            assert(before =~= rev@.push(o));
            assert(before.reverse() =~= seq![o] + rev@.reverse());
            assert(orig.skip(k) =~= seq![o] + rev@.reverse());
            assert(orig.skip(k)[0] == orig[k]);
            assert(rev@.reverse() =~= orig.skip(k).drop_first());
            assert(orig.skip(k).drop_first() =~= orig.skip(k + 1));
            proof {
                lemma_apply_options_push(m0, orig.take(k), orig[k]);
                assert(orig.take(k).push(orig[k]) =~= orig.take(k + 1));
            }
            match o {
                TableOption::Columns(c) => {
                    m.columns = c;
                },
                TableOption::Rows(r) => {
                    m.rows = r;
                },
                TableOption::Height(h) => {
                    m.height = h;
                },
                TableOption::Width(w) => {
                    m.width = w;
                },
                TableOption::Focused(f) => {
                    m.focus = f;
                },
                TableOption::KeyMap(k) => {
                    m.keymap = k;
                },
                TableOption::Styles(t) => {
                    m.styles = t;
                },
            }
        }
        assert(orig.take(n as int) =~= orig);
        assert(is_initial(m0));
        m
    }

    /// What the table hands to the renderer: the width when positive, the column titles
    /// and widths, the rows' cells and the selected row.
    pub fn table_input(&self) -> (r: TableInput)
        ensures
            r.width == (if self.width > 0 { Some(self.width) } else { None::<i32> }),
            r.headers@.len() == self.columns@.len(),
            r.widths@.len() == self.columns@.len(),
            forall|i: int| 0 <= i < self.columns@.len() ==> #[trigger] r.headers@[i]@ == self.columns@[i].title@
                && r.widths@[i] == self.columns@[i].width,
            r.rows@.len() == self.rows@.len(),
            forall|j: int| 0 <= j < self.rows@.len() ==> #[trigger] r.rows@[j]@ == self.rows@[j].cells@,
            r.selected == self.selected as i32,
    {
        let mut headers: Vec<String> = Vec::new();
        let mut widths: Vec<i32> = Vec::new();
        let mut i: usize = 0;
        while i < self.columns.len()
            invariant
                i <= self.columns@.len(),
                headers@.len() == i,
                widths@.len() == i,
                forall|k: int| 0 <= k < i ==> #[trigger] headers@[k]@ == self.columns@[k].title@
                    && widths@[k] == self.columns@[k].width,
            decreases self.columns@.len() - i,
        {
            headers.push(String::from_str(self.columns[i].title.as_str()));
            widths.push(self.columns[i].width);
            i += 1;
        }
        let mut rows: Vec<Vec<String>> = Vec::new();
        let mut j: usize = 0;
        while j < self.rows.len()
            invariant
                j <= self.rows@.len(),
                rows@.len() == j,
                forall|k: int| 0 <= k < j ==> #[trigger] rows@[k]@ == self.rows@[k].cells@,
            decreases self.rows@.len() - j,
        {
            rows.push(copy_strings(&self.rows[j].cells));
            j += 1;
        }
        TableInput {
            width: if self.width > 0 { Some(self.width) } else { None },
            headers,
            widths,
            rows,
            selected: self.selected as i32,
        }
    }

    /// The table rendered from `table_input`: the column titles as headers, the rows'
    /// cells, the width when positive, and the cell styles of `cell_style` with the
    /// selected row marked.
    pub fn view(&self) -> String {
        let input = self.table_input();
        let mut tbl = table_new();
        if let Some(w) = input.width {
            tbl = table_width(tbl, w);
        }
        tbl = table_headers(tbl, input.headers);
        tbl = table_style_func(tbl, self.styles.clone(), input.widths, input.selected);
        tbl = table_rows(tbl, input.rows);
        table_to_string(&tbl)
    }

    /// Replaces the styles and scrolls the selected row back into view.
    pub fn set_styles(&mut self, s: Styles)
        ensures
            *final(self) == (Model { styles: s, y_offset: visible_offset(*old(self)), ..*old(self) }),
    {
        self.styles = s;
        self.update_viewport();
    }

    /// Scrolls the selected row back into view.
    pub fn update_viewport(&mut self)
        ensures
            *final(self) == (Model { y_offset: visible_offset(*old(self)), ..*old(self) }),
    {
        self.ensure_selected_visible();
    }

    /// The help view of the table's key bindings, fitted to the help model's width: the
    /// full view when it shows all bindings, else the short one.
    pub fn help_view(&self) -> (r: String)
        ensures
            self.help.show_all ==> r@ == Seq::<char>::empty() || exists|g: Seq<Seq<(Seq<char>, Seq<char>)>>, sep: Seq<char>, tail: Seq<char>|
                r@ == #[trigger] help::full_text(self.help.width as nat, g, sep, tail),
            !self.help.show_all ==> exists|items: Seq<(Seq<char>, Seq<char>)>, sep: Seq<char>, tail: Seq<char>|
                r@ == #[trigger] help::short_fit(self.help.width as nat, items, sep, tail, 0),
    {
        self.help.view(self)
    }

    /// This table with the given rows.
    pub fn with_rows(self, rows: Vec<Row>) -> (m: Model)
        ensures
            m == (Model { rows, ..self }),
    {
        let mut m = self;
        m.rows = rows;
        m
    }

    /// Sets the width.
    pub fn set_width(&mut self, w: i32)
        ensures
            *final(self) == (Model { width: w, y_offset: visible_offset(Model { width: w, ..*old(self) }), ..*old(self) }),
    {
        self.width = w;
        self.ensure_selected_visible();
    }

    /// Sets the height and scrolls the selected row into view.
    pub fn set_height(&mut self, h: i32)
        ensures
            *final(self) == (Model { height: h, y_offset: visible_offset(Model { height: h, ..*old(self) }), ..*old(self) }),
    {
        self.height = h;
        self.ensure_selected_visible();
    }

    /// Appends a row and scrolls the selected row into view.
    pub fn add_row(&mut self, row: Row)
        ensures
            final(self).rows@ == old(self).rows@.push(row),
            *final(self) == (Model {
                rows: final(self).rows,
                y_offset: visible_offset(Model { rows: final(self).rows, ..*old(self) }),
                ..*old(self)
            }),
    {
        self.rows.push(row);
        self.ensure_selected_visible();
    }

    /// The selected row, if any.
    pub fn selected_row(&self) -> (r: Option<&Row>)
        ensures
            r == (if self.selected < self.rows@.len() { Some(&self.rows@[self.selected as int]) } else { None }),
    {
        if self.selected < self.rows.len() {
            Some(&self.rows[self.selected])
        } else {
            None
        }
    }

    /// Selects the next row, staying on the last.
    pub fn select_next(&mut self)
        ensures
            *final(self) == (Model {
                selected: if old(self).rows@.len() > 0 { moved_down(*old(self), 1) } else { old(self).selected },
                ..*old(self)
            }),
    {
        if self.rows.len() > 0 {
            let s = self.selected.saturating_add(1);
            let last = self.rows.len() - 1;
            self.selected = if s < last { s } else { last };
        }
    }

    /// Selects the previous row, staying on the first.
    pub fn select_prev(&mut self)
        ensures
            *final(self) == (Model {
                selected: if old(self).rows@.len() > 0 { sat_sub(old(self).selected as int, 1) as usize } else { old(self).selected },
                ..*old(self)
            }),
    {
        if self.rows.len() > 0 {
            self.selected = self.selected.saturating_sub(1);
        }
    }

    /// Moves the selection up by `n` rows, staying on the first.
    pub fn move_up(&mut self, n: usize)
        ensures
            *final(self) == (Model {
                selected: if old(self).rows@.len() > 0 { sat_sub(old(self).selected as int, n as int) as usize } else { old(self).selected },
                ..*old(self)
            }),
    {
        if self.rows.len() > 0 {
            self.selected = self.selected.saturating_sub(n);
        }
    }

    /// Moves the selection down by `n` rows, staying on the last.
    pub fn move_down(&mut self, n: usize)
        ensures
            *final(self) == (Model {
                selected: if old(self).rows@.len() > 0 { moved_down(*old(self), n as int) } else { old(self).selected },
                ..*old(self)
            }),
    {
        if self.rows.len() > 0 {
            let s = self.selected.saturating_add(n);
            let last = self.rows.len() - 1;
            self.selected = if s < last { s } else { last };
        }
    }

    /// Selects the first row.
    pub fn goto_top(&mut self)
        ensures
            *final(self) == (Model { selected: 0, ..*old(self) }),
    {
        self.selected = 0;
    }

    /// Selects the last row.
    pub fn goto_bottom(&mut self)
        ensures
            *final(self) == (Model {
                selected: if old(self).rows@.len() > 0 { (old(self).rows@.len() - 1) as usize } else { old(self).selected },
                ..*old(self)
            }),
    {
        if self.rows.len() > 0 {
            self.selected = self.rows.len() - 1;
        }
    }

    /// Scrolls so that the selected row is in view.
    pub fn ensure_selected_visible(&mut self)
        ensures
            *final(self) == (Model { y_offset: visible_offset(*old(self)), ..*old(self) }),
    {
        let target = self.selected.saturating_add(1);
        let h: usize = if self.height >= 1 { self.height as usize } else { 1 };
        let top = self.y_offset;
        let bottom = top.saturating_add(h - 1);
        if target < top {
            self.y_offset = target;
        } else if target > bottom {
            self.y_offset = target.saturating_sub(h - 1);
        }
    }

    /// Focuses the table.
    pub fn focus(&mut self)
        ensures
            *final(self) == (Model { focus: true, ..*old(self) }),
    {
        self.focus = true;
    }

    /// Unfocuses the table.
    pub fn blur(&mut self)
        ensures
            *final(self) == (Model { focus: false, ..*old(self) }),
    {
        self.focus = false;
    }

    /// Handles a key event: when focused, moves the selection (`key_selection`) and
    /// scrolls it into view; when not focused, nothing changes.
    pub fn update(&mut self, msg: &KeyMsg)
        ensures
            !old(self).focus ==> *final(self) == *old(self),
            old(self).focus ==> *final(self) == (Model {
                selected: key_selection(*old(self), *msg),
                y_offset: visible_offset(Model { selected: key_selection(*old(self), *msg), ..*old(self) }),
                ..*old(self)
            }),
    {
        if !self.focus {
            return;
        }
        let hh: i32 = self.height;
        let h: usize = if hh >= 0 {
            hh as usize
        } else {
            let below: i32 = -(hh + 1);
            usize::MAX - (below as usize)
        };
        let half = (if h >= 1 { h } else { 1 }) / 2;
        if self.keymap.row_up.matches(msg) {
            self.select_prev();
        } else if self.keymap.row_down.matches(msg) {
            self.select_next();
        } else if self.keymap.go_to_start.matches(msg) {
            self.selected = 0;
        } else if self.keymap.go_to_end.matches(msg) {
            if self.rows.len() > 0 {
                self.selected = self.rows.len() - 1;
            }
        } else if self.keymap.page_up.matches(msg) {
            self.selected = self.selected.saturating_sub(h);
        } else if self.keymap.page_down.matches(msg) {
            let s = self.selected.saturating_add(h);
            let last = self.rows.len().saturating_sub(1);
            self.selected = if s < last { s } else { last };
        } else if self.keymap.half_page_up.matches(msg) {
            self.selected = self.selected.saturating_sub(half);
        } else if self.keymap.half_page_down.matches(msg) {
            let s = self.selected.saturating_add(half);
            let last = self.rows.len().saturating_sub(1);
            self.selected = if s < last { s } else { last };
        }
        self.ensure_selected_visible();
    }
}

} // verus!
