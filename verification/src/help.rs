//! Help views that list a component's key bindings: a short one on a single line and a
//! full one in columns, both cut to the available width.
use crate::key::{spec_enabled, Binding, BindingView};
use crate::style::{
    adaptive_foreground, inline_style, style_inline, join_horizontal_top, joined_top, new_style, render,
    visible_width, width_visible,
};
use crate::text::{push_char, push_str};
use vstd::prelude::*;

verus! {

/// Supplies the bindings that a help view lists.
pub trait KeyMap {
    /// The bindings for the one-line help view.
    fn short_help(&self) -> Vec<&Binding>;

    /// The bindings for the full help view, one vector per column.
    fn full_help(&self) -> Vec<Vec<&Binding>>;
}

/// The styles of the parts of a help view.
#[derive(Debug, Clone)]
pub struct Styles {
    pub ellipsis: lipgloss::Style,
    pub short_key: lipgloss::Style,
    pub short_desc: lipgloss::Style,
    pub short_separator: lipgloss::Style,
    pub full_key: lipgloss::Style,
    pub full_desc: lipgloss::Style,
    pub full_separator: lipgloss::Style,
}

impl Styles {
    /// Grey keys, lighter descriptions and faint separators, adapted to the terminal's
    /// background.
    pub fn default() -> (st: Styles)
        ensures
            st.short_separator == st.ellipsis,
            st.full_separator == st.ellipsis,
            st.full_key == st.short_key,
            st.full_desc == st.short_desc,
    {
        let base = new_style();
        let key_style = adaptive_foreground(&base, "#909090", "#626262");
        let desc_style = adaptive_foreground(&base, "#B2B2B2", "#4A4A4A");
        let sep_style = adaptive_foreground(&base, "#DDDADA", "#3C3C3C");
        Styles {
            ellipsis: sep_style.clone(),
            short_key: key_style.clone(),
            short_desc: desc_style.clone(),
            short_separator: sep_style.clone(),
            full_key: key_style,
            full_desc: desc_style,
            full_separator: sep_style,
        }
    }
}

/// The help view's settings.
#[derive(Debug, Clone)]
pub struct Model {
    /// Whether `view` shows the full help rather than the short one.
    pub show_all: bool,
    /// The width to fit into; 0 for no limit.
    pub width: usize,
    /// Between the items of the short view.
    pub short_separator: String,
    /// Between the columns of the full view.
    pub full_separator: String,
    /// Marks help that was cut off.
    pub ellipsis: String,
    pub styles: Styles,
}

/// Whether an item `item` columns wide overflows a view `width` wide (0: no limit) that
/// already holds `total` columns.
pub open spec fn overflows(width: nat, total: nat, item: nat) -> bool {
    width > 0 && total + item > width
}

/// What stands in place of the items that were cut off: the tail where it still fits
/// strictly inside the width, else nothing.
pub open spec fn tail_if_fits(width: nat, total: nat, tail: Seq<char>) -> Seq<char> {
    if total + visible_width(tail) < width {
        tail
    } else {
        Seq::empty()
    }
}

/// One item of the short view: the separator unless it is the first, the key, a space,
/// the description.
pub open spec fn short_item(total: nat, sep: Seq<char>, key: Seq<char>, desc: Seq<char>) -> Seq<char> {
    (if total > 0 {
        sep
    } else {
        Seq::<char>::empty()
    }) + key + seq![' '] + desc
}

/// The short view of the (key, description) items: each is added while it fits; the first
/// that does not ends the view with the tail, if that fits.
pub open spec fn short_fit(
    width: nat,
    items: Seq<(Seq<char>, Seq<char>)>,
    sep: Seq<char>,
    tail: Seq<char>,
    total: nat,
) -> Seq<char>
    decreases items.len(),
{
    if items.len() == 0 {
        Seq::empty()
    } else {
        let s = short_item(total, sep, items[0].0, items[0].1);
        let w = visible_width(s);
        if overflows(width, total, w) {
            tail_if_fits(width, total, tail)
        } else {
            s + short_fit(width, items.drop_first(), sep, tail, total + w)
        }
    }
}

/// One row of a column of the full view: the key, a space, the description.
pub open spec fn row_text(p: (Seq<char>, Seq<char>)) -> Seq<char> {
    p.0 + seq![' '] + p.1
}

/// A column of the full view: its rows, one per line.
pub open spec fn column_text(rows: Seq<(Seq<char>, Seq<char>)>) -> Seq<char>
    decreases rows.len(),
{
    if rows.len() == 0 {
        Seq::empty()
    } else if rows.len() == 1 {
        row_text(rows[0])
    } else {
        column_text(rows.drop_last()) + seq!['\n'] + row_text(rows.last())
    }
}

/// The columns of the full view: groups without rows are skipped; each other group's
/// column is added while it fits together with the separator (`sep_w` columns wide) that
/// stands before every column but the first; the first that does not fit is replaced by
/// the tail, if that fits after its separator and is not empty. `started` says whether a
/// column was added already.
pub open spec fn full_fit(
    width: nat,
    groups: Seq<Seq<(Seq<char>, Seq<char>)>>,
    sep_w: nat,
    tail: Seq<char>,
    total: nat,
    started: bool,
) -> Seq<Seq<char>>
    decreases groups.len(),
{
    if groups.len() == 0 {
        Seq::empty()
    } else if groups[0].len() == 0 {
        full_fit(width, groups.drop_first(), sep_w, tail, total, started)
    } else {
        let c = column_text(groups[0]);
        let extra: nat = if started { sep_w } else { 0 };
        let w = visible_width(c);
        if overflows(width, total, extra + w) {
            let t = tail_if_fits(width, total + extra, tail);
            if t.len() > 0 {
                seq![t]
            } else {
                Seq::empty()
            }
        } else {
            seq![c] + full_fit(width, groups.drop_first(), sep_w, tail, total + extra + w, true)
        }
    }
}

/// The columns a row of parts takes: each part's width, and the separator's before every
/// part but the first (or before the first too, when `started`).
pub open spec fn parts_width(cols: Seq<Seq<char>>, sep_w: nat, started: bool) -> nat
    decreases cols.len(),
{
    if cols.len() == 0 {
        0
    } else {
        (if started { sep_w } else { 0nat }) + visible_width(cols[0]) + parts_width(cols.drop_first(), sep_w, true)
    }
}

/// With a width limit, the columns that the full view keeps, the tail and the separators
/// between them take no more columns than the width.
pub proof fn law_full_fit_within_width(
    width: nat,
    groups: Seq<Seq<(Seq<char>, Seq<char>)>>,
    sep_w: nat,
    tail: Seq<char>,
    total: nat,
    started: bool,
)
    requires
        width > 0,
        total <= width,
    ensures
        total + parts_width(full_fit(width, groups, sep_w, tail, total, started), sep_w, started) <= width,
    decreases groups.len(),
{
    if groups.len() == 0 {
    } else if groups[0].len() == 0 {
        law_full_fit_within_width(width, groups.drop_first(), sep_w, tail, total, started);
    } else {
        let c = column_text(groups[0]);
        let extra: nat = if started { sep_w } else { 0 };
        let w = visible_width(c);
        let r = full_fit(width, groups, sep_w, tail, total, started);
        if overflows(width, total, extra + w) {
            let t = tail_if_fits(width, total + extra, tail);
            if t.len() > 0 {
                assert(r == seq![t]);
                assert(seq![t].drop_first() =~= Seq::<Seq<char>>::empty());
                assert(parts_width(seq![t].drop_first(), sep_w, true) == 0);
                assert(t == tail);
                assert(parts_width(r, sep_w, started) == extra + visible_width(t));
            } else {
                assert(r =~= Seq::<Seq<char>>::empty());
            }
        } else {
            law_full_fit_within_width(width, groups.drop_first(), sep_w, tail, total + extra + w, true);
            let rest = full_fit(width, groups.drop_first(), sep_w, tail, total + extra + w, true);
            assert((seq![c] + rest).drop_first() =~= rest);
            assert((seq![c] + rest)[0] == c);
            assert(r == seq![c] + rest);
            assert(parts_width(r, sep_w, started) == extra + w + parts_width(rest, sep_w, true));
        }
    }
}

/// The columns with the separator between each two.
pub open spec fn with_separators(cols: Seq<Seq<char>>, sep: Seq<char>) -> Seq<Seq<char>>
    decreases cols.len(),
{
    if cols.len() <= 1 {
        cols
    } else {
        with_separators(cols.drop_last(), sep) + seq![sep, cols.last()]
    }
}

/// The full view: the fitted columns side by side, separated, aligned at the top.
pub open spec fn full_text(
    width: nat,
    groups: Seq<Seq<(Seq<char>, Seq<char>)>>,
    sep: Seq<char>,
    tail: Seq<char>,
) -> Seq<char> {
    joined_top(with_separators(full_fit(width, groups, visible_width(sep), tail, 0, false), sep))
}

/// All items, separated, as a view without a width limit shows them.
pub open spec fn all_items(items: Seq<(Seq<char>, Seq<char>)>, sep: Seq<char>, total: nat) -> Seq<char>
    decreases items.len(),
{
    if items.len() == 0 {
        Seq::empty()
    } else {
        let s = short_item(total, sep, items[0].0, items[0].1);
        s + all_items(items.drop_first(), sep, total + visible_width(s))
    }
}

/// Without a width limit the short view shows every item and no tail.
pub proof fn law_unlimited_short_view_shows_all(
    items: Seq<(Seq<char>, Seq<char>)>,
    sep: Seq<char>,
    tail: Seq<char>,
    total: nat,
)
    ensures
        short_fit(0, items, sep, tail, total) == all_items(items, sep, total),
    decreases items.len(),
{
    if items.len() > 0 {
        let s = short_item(total, sep, items[0].0, items[0].1);
        law_unlimited_short_view_shows_all(items.drop_first(), sep, tail, total + visible_width(s));
    }
}

/// The strings of pairs of strings.
pub open spec fn pairs_view(v: Seq<(String, String)>) -> Seq<(Seq<char>, Seq<char>)> {
    v.map_values(|p: (String, String)| (p.0@, p.1@))
}

/// Styled parts of an item plan, by their strings.
pub open spec fn plan_view(v: Seq<((String, lipgloss::Style), (String, lipgloss::Style))>) -> Seq<
    ((Seq<char>, lipgloss::Style), (Seq<char>, lipgloss::Style)),
> {
    v.map_values(|p: ((String, lipgloss::Style), (String, lipgloss::Style))| ((p.0.0@, p.0.1), (p.1.0@, p.1.1)))
}

/// What the help view hands to the renderer for each (key, description) item: first the
/// key in the key style made inline, then the description in the description style made
/// inline.
pub open spec fn help_plan(
    pairs: Seq<(Seq<char>, Seq<char>)>,
    key_style: lipgloss::Style,
    desc_style: lipgloss::Style,
) -> Seq<((Seq<char>, lipgloss::Style), (Seq<char>, lipgloss::Style))> {
    pairs.map_values(
        |p: (Seq<char>, Seq<char>)| ((p.0, style_inline(key_style)), (p.1, style_inline(desc_style))),
    )
}

/// The strings of groups of pairs of strings.
pub open spec fn groups_view(v: Seq<Vec<(String, String)>>) -> Seq<Seq<(Seq<char>, Seq<char>)>> {
    v.map_values(|g: Vec<(String, String)>| pairs_view(g@))
}

/// The help texts (key, description) of the enabled bindings, in order.
pub open spec fn enabled_help(b: Seq<BindingView>) -> Seq<(Seq<char>, Seq<char>)>
    decreases b.len(),
{
    if b.len() == 0 {
        Seq::empty()
    } else {
        let p = enabled_help(b.drop_last());
        if spec_enabled(b.last()) {
            p.push((b.last().help_key, b.last().help_desc))
        } else {
            p
        }
    }
}

/// The views of a list of binding references.
pub open spec fn bindings_view(b: Seq<&Binding>) -> Seq<BindingView> {
    b.map_values(|x: &Binding| x@)
}

/// Whether any of the bindings is enabled, so that a column of them is worth showing.
pub fn should_render_column(bindings: &[&Binding]) -> (r: bool)
    ensures
        r == exists|k: int| 0 <= k < bindings@.len() && spec_enabled(#[trigger] bindings@[k]@),
{
    let mut i: usize = 0;
    while i < bindings.len()
        invariant
            i <= bindings@.len(),
            forall|k: int| 0 <= k < i ==> !spec_enabled(#[trigger] bindings@[k]@),
        decreases bindings@.len() - i,
    {
        if bindings[i].enabled() {
            return true;
        }
        i += 1;
    }
    false
}

/// The help texts (key, description) of the enabled bindings, in order.
pub fn help_pairs(bindings: &[&Binding]) -> (r: Vec<(String, String)>)
    ensures
        pairs_view(r@) == enabled_help(bindings_view(bindings@)),
{
    let mut out: Vec<(String, String)> = Vec::new();
    let mut i: usize = 0;
    while i < bindings.len()
        invariant
            i <= bindings@.len(),
            pairs_view(out@) == enabled_help(bindings_view(bindings@.take(i as int))),
        decreases bindings@.len() - i,
    {
        assert(bindings_view(bindings@.take(i as int + 1)).drop_last() =~= bindings_view(bindings@.take(i as int)));
        assert(bindings_view(bindings@.take(i as int + 1)).last() == bindings@[i as int]@);
        if bindings[i].enabled() {
            let help = bindings[i].help();
            let ghost before = out@;
            out.push((help.key.clone(), help.desc.clone()));
            assert(pairs_view(out@) =~= pairs_view(before).push((help.key@, help.desc@)));
        }
        i += 1;
    }
    assert(bindings@.take(bindings@.len() as int) =~= bindings@);
    out
}

impl Model {
    /// No width limit, the short view, " • " between items, four spaces between columns
    /// and "…" for what was cut off.
    pub fn new() -> (m: Model)
        ensures
            !m.show_all,
            m.width == 0,
            m.short_separator@ == " • "@,
            m.full_separator@ == "    "@,
            m.ellipsis@ == "…"@,
    {
        Model {
            show_all: false,
            width: 0,
            short_separator: String::from_str(" • "),
            full_separator: String::from_str("    "),
            ellipsis: String::from_str("…"),
            styles: Styles::default(),
        }
    }

    /// The same as `new`.
    pub fn default() -> (m: Model)
        ensures
            !m.show_all,
            m.width == 0,
            m.short_separator@ == " • "@,
            m.full_separator@ == "    "@,
            m.ellipsis@ == "…"@,
    {
        Model::new()
    }

    /// The same as `new`, under its older name.
    pub fn new_model() -> (m: Model)
        ensures
            !m.show_all,
            m.width == 0,
            m.short_separator@ == " • "@,
            m.full_separator@ == "    "@,
            m.ellipsis@ == "…"@,
    {
        Model::new()
    }

    /// The model with the given width.
    pub fn with_width(self, width: usize) -> (m: Model)
        ensures
            m == (Model { width, ..self }),
    {
        Model { width, ..self }
    }

    /// The help view reacts to no message: the model comes back unchanged.
    pub fn update<M>(self, msg: M) -> (m: Model)
        ensures
            m == self,
    {
        self
    }

    /// The full view of the key map's `full_help` when `show_all` is set, else the short
    /// view of its `short_help`; either fitted to this model's width (the full view of no
    /// groups is empty). The styled rows and
    /// separators are whatever the terminal's styles render.
    pub fn view<K: KeyMap>(&self, keymap: &K) -> (r: String)
        ensures
            self.show_all ==> r@ == Seq::<char>::empty() || exists|g: Seq<Seq<(Seq<char>, Seq<char>)>>, sep: Seq<char>, tail: Seq<char>|
                r@ == #[trigger] full_text(self.width as nat, g, sep, tail),
            !self.show_all ==> exists|items: Seq<(Seq<char>, Seq<char>)>, sep: Seq<char>, tail: Seq<char>|
                r@ == #[trigger] short_fit(self.width as nat, items, sep, tail, 0),
    {
        if self.show_all {
            self.full_help_view(keymap.full_help())
        } else {
            self.short_help_view(keymap.short_help())
        }
    }

    /// The tail that marks cut-off help: a space and the styled ellipsis.
    fn ellipsis_tail(&self) -> (r: String)
        ensures
            exists|styled: Seq<char>| r@ == seq![' '] + styled,
    {
        let mut t = String::new();
        push_char(&mut t, ' ');
        let styled = render(&inline_style(&self.styles.ellipsis), self.ellipsis.as_str());
        push_str(&mut t, styled.as_str());
        assert(t@ == seq![' '] + styled@);
        t
    }

    /// The short view of already styled (key, description) items, given the styled
    /// separator and tail.
    pub fn fit_short_help(&self, items: &Vec<(String, String)>, separator: &str, tail: &str) -> (r: String)
        ensures
            r@ == short_fit(self.width as nat, pairs_view(items@), separator@, tail@, 0),
    {
        let ghost iv = pairs_view(items@);
        let ghost full = short_fit(self.width as nat, iv, separator@, tail@, 0);
        let mut acc = String::new();
        let mut total: usize = 0;
        let ghost mut t: nat = 0;
        let mut i: usize = 0;
        assert(iv.skip(0) =~= iv);
        while i < items.len()
            invariant
                i <= items@.len(),
                iv == pairs_view(items@),
                full == short_fit(self.width as nat, iv, separator@, tail@, 0),
                acc@ + short_fit(self.width as nat, iv.skip(i as int), separator@, tail@, t) == full,
                self.width > 0 ==> total == t && t <= self.width,
                total > 0 <==> t > 0,
            decreases items@.len() - i,
        {
            let ghost rest = iv.skip(i as int);
            assert(rest[0] == iv[i as int]);
            assert(rest.drop_first() =~= iv.skip(i as int + 1));
            let mut s = String::new();
            if total > 0 {
                push_str(&mut s, separator);
            }
            push_str(&mut s, items[i].0.as_str());
            push_char(&mut s, ' ');
            push_str(&mut s, items[i].1.as_str());
            assert(s@ == short_item(t, separator@, iv[i as int].0, iv[i as int].1));
            let w = width_visible(s.as_str());
            if self.width > 0 && w > self.width - total {
                let tw = width_visible(tail);
                if tw < self.width - total {
                    push_str(&mut acc, tail);
                }
                assert(acc@ == full);
                return acc;
            }
            push_str(&mut acc, s.as_str());
            assert(acc@ + short_fit(self.width as nat, iv.skip(i as int + 1), separator@, tail@, (t + w) as nat) == full) by {
                assert(acc@ == (acc@.subrange(0, acc@.len() - s@.len()) + s@));
            }
            proof {
                t = (t + w) as nat;
            }
            total = total.saturating_add(w);
            i += 1;
        }
        assert(iv.skip(i as int).len() == 0);
        assert(acc@ == full);
        acc
    }

    /// What the view hands to the renderer for each (key, description) item: the key in
    /// the key style made inline, then the description in the description style made
    /// inline (`help_plan`).
    pub fn plan_pairs(pairs: &Vec<(String, String)>, key_style: &lipgloss::Style, desc_style: &lipgloss::Style) -> (r: Vec<(
        (String, lipgloss::Style),
        (String, lipgloss::Style),
    )>)
        ensures
            plan_view(r@) == help_plan(pairs_view(pairs@), *key_style, *desc_style),
    {
        let ks = inline_style(key_style);
        let ds = inline_style(desc_style);
        let ghost target = help_plan(pairs_view(pairs@), *key_style, *desc_style);
        let mut out: Vec<((String, lipgloss::Style), (String, lipgloss::Style))> = Vec::new();
        let mut i: usize = 0;
        while i < pairs.len()
            invariant
                i <= pairs@.len(),
                ks == style_inline(*key_style),
                ds == style_inline(*desc_style),
                target == help_plan(pairs_view(pairs@), *key_style, *desc_style),
                plan_view(out@) == target.take(i as int),
            decreases pairs@.len() - i,
        {
            let k = (String::from_str(pairs[i].0.as_str()), ks.clone());
            let d = (String::from_str(pairs[i].1.as_str()), ds.clone());
            let ghost before = out@;
            out.push((k, d));
            assert(plan_view(out@) =~= plan_view(before).push(target[i as int]));
            assert(target.take(i as int + 1) =~= target.take(i as int).push(target[i as int]));
            i += 1;
        }
        assert(target.take(pairs@.len() as int) =~= target);
        out
    }

    /// Each planned item rendered: the key part and the description part, each in its
    /// style.
    fn render_pairs(plan: &Vec<((String, lipgloss::Style), (String, lipgloss::Style))>) -> (r: Vec<(String, String)>)
        ensures
            r@.len() == plan@.len(),
    {
        let mut out: Vec<(String, String)> = Vec::new();
        let mut i: usize = 0;
        while i < plan.len()
            invariant
                i <= plan@.len(),
                out@.len() == i,
            decreases plan@.len() - i,
        {
            let key_part = render(&plan[i].0.1, plan[i].0.0.as_str());
            let desc_part = render(&plan[i].1.1, plan[i].1.0.as_str());
            out.push((key_part, desc_part));
            i += 1;
        }
        out
    }

    /// The (key, description) items styled for the view: `plan_pairs`, rendered.
    fn style_pairs(pairs: &Vec<(String, String)>, key_style: &lipgloss::Style, desc_style: &lipgloss::Style) -> (r: Vec<(String, String)>)
        ensures
            r@.len() == pairs@.len(),
    {
        let plan = Self::plan_pairs(pairs, key_style, desc_style);
        assert(plan_view(plan@).len() == plan@.len());
        assert(pairs_view(pairs@).len() == pairs@.len());
        Self::render_pairs(&plan)
    }

    /// The short help: the enabled bindings' keys and descriptions (as `help_pairs` gives
    /// them), styled and separated, as many as fit into the width, then the ellipsis if it
    /// fits. Whatever the styles render, the result is the short fit of one styled item
    /// per enabled binding.
    pub fn short_help_view(&self, bindings: Vec<&Binding>) -> (r: String)
        ensures
            exists|items: Seq<(Seq<char>, Seq<char>)>, sep: Seq<char>, tail: Seq<char>|
                items.len() == enabled_help(bindings_view(bindings@)).len()
                && r@ == #[trigger] short_fit(self.width as nat, items, sep, tail, 0),
            enabled_help(bindings_view(bindings@)).len() == 0 ==> r@ == Seq::<char>::empty(),
    {
        let separator = render(&inline_style(&self.styles.short_separator), self.short_separator.as_str());
        let pairs = help_pairs(bindings.as_slice());
        let items = Self::style_pairs(&pairs, &self.styles.short_key, &self.styles.short_desc);
        let tail = self.ellipsis_tail();
        let r = self.fit_short_help(&items, separator.as_str(), tail.as_str());
        assert(pairs_view(items@).len() == items@.len());
        assert(pairs_view(pairs@).len() == pairs@.len());
        if items.len() == 0 {
            assert(r@ == Seq::<char>::empty());
        }
        r
    }

    /// One column's text: the rows, one per line.
    fn column(rows: &Vec<(String, String)>) -> (r: String)
        ensures
            r@ == column_text(pairs_view(rows@)),
    {
        let ghost rv = pairs_view(rows@);
        let mut c = String::new();
        let mut j: usize = 0;
        while j < rows.len()
            invariant
                j <= rows@.len(),
                rv == pairs_view(rows@),
                c@ == column_text(rv.take(j as int)),
            decreases rows@.len() - j,
        {
            let ghost before = c@;
            if j > 0 {
                push_char(&mut c, '\n');
            }
            push_str(&mut c, rows[j].0.as_str());
            push_char(&mut c, ' ');
            push_str(&mut c, rows[j].1.as_str());
            assert(rv.take(j as int + 1).drop_last() =~= rv.take(j as int));
            assert(rv.take(j as int + 1).last() == rv[j as int]);
            if j == 0 {
                assert(rv.take(1)[0] == rv[0]);
            }
            j += 1;
        }
        assert(rv.take(rows@.len() as int) =~= rv);
        c
    }

    /// The columns of the full view from already styled groups of (key, description) rows,
    /// given the styled separator and tail.
    pub fn fit_full_columns(&self, groups: &Vec<Vec<(String, String)>>, separator: &str, tail: &str) -> (r: Vec<String>)
        ensures
            r@.map_values(|s: String| s@) == full_fit(
                self.width as nat,
                groups_view(groups@),
                visible_width(separator@),
                tail@,
                0,
                false,
            ),
    {
        let ghost gv = groups_view(groups@);
        let sw = width_visible(separator);
        let ghost full = full_fit(self.width as nat, gv, sw as nat, tail@, 0, false);
        let mut cols: Vec<String> = Vec::new();
        let mut total: usize = 0;
        let mut started = false;
        let ghost mut t: nat = 0;
        let mut i: usize = 0;
        assert(gv.skip(0) =~= gv);
        while i < groups.len()
            invariant
                i <= groups@.len(),
                gv == groups_view(groups@),
                sw == visible_width(separator@),
                full == full_fit(self.width as nat, gv, sw as nat, tail@, 0, false),
                cols@.map_values(|s: String| s@) + full_fit(self.width as nat, gv.skip(i as int), sw as nat, tail@, t, started) == full,
                self.width > 0 ==> total == t && t <= self.width,
            decreases groups@.len() - i,
        {
            let ghost rest = gv.skip(i as int);
            assert(rest[0] == gv[i as int]);
            assert(rest.drop_first() =~= gv.skip(i as int + 1));
            assert(gv[i as int] == pairs_view(groups@[i as int]@));
            if groups[i].len() == 0 {
                i += 1;
            } else {
                let c = Self::column(&groups[i]);
                let w = width_visible(c.as_str());
                let extra: usize = if started { sw } else { 0 };
                if self.width > 0 && (w > self.width - total || extra > self.width - total - w) {
                    let tw = width_visible(tail);
                    let room = self.width - total;
                    let ghost before = cols@;
                    if extra < room && tw < room - extra && tail.unicode_len() > 0 {
                        cols.push(String::from_str(tail));
                        assert(cols@.map_values(|s: String| s@) =~= before.map_values(|s: String| s@) + seq![tail@]);
                    } else {
                        assert(cols@.map_values(|s: String| s@) =~= before.map_values(|s: String| s@) + Seq::<Seq<char>>::empty());
                    }
                    return cols;
                }
                let ghost before = cols@;
                cols.push(c);
                assert(cols@.map_values(|s: String| s@) =~= before.map_values(|s: String| s@) + seq![column_text(gv[i as int])]);
                proof {
                    t = (t + extra + w) as nat;
                }
                total = total.saturating_add(extra).saturating_add(w);
                started = true;
                i += 1;
            }
        }
        assert(gv.skip(i as int).len() == 0);
        cols
    }

    /// The full view's parts: the columns with the separator between each two.
    fn separated(cols: &Vec<String>, separator: &str) -> (r: Vec<String>)
        ensures
            r@.map_values(|s: String| s@) == with_separators(cols@.map_values(|s: String| s@), separator@),
    {
        let ghost cv = cols@.map_values(|s: String| s@);
        let mut parts: Vec<String> = Vec::new();
        let mut i: usize = 0;
        while i < cols.len()
            invariant
                i <= cols@.len(),
                cv == cols@.map_values(|s: String| s@),
                parts@.map_values(|s: String| s@) == with_separators(cv.take(i as int), separator@),
            decreases cols@.len() - i,
        {
            let ghost before = parts@;
            if i > 0 {
                parts.push(String::from_str(separator));
            }
            parts.push(cols[i].clone());
            assert(cv.take(i as int + 1).drop_last() =~= cv.take(i as int));
            assert(cv.take(i as int + 1).last() == cv[i as int]);
            if i == 0 {
                assert(parts@.map_values(|s: String| s@) =~= cv.take(1));
            } else {
                assert(parts@.map_values(|s: String| s@) =~= before.map_values(|s: String| s@) + seq![separator@, cv[i as int]]);
            }
            i += 1;
        }
        assert(cv.take(cols@.len() as int) =~= cv);
        parts
    }

    /// The full view from already styled groups of (key, description) rows, given the
    /// styled separator and tail.
    pub fn fit_full_help(&self, groups: &Vec<Vec<(String, String)>>, separator: &str, tail: &str) -> (r: String)
        ensures
            r@ == full_text(self.width as nat, groups_view(groups@), separator@, tail@),
    {
        let cols = self.fit_full_columns(groups, separator, tail);
        let parts = Self::separated(&cols, separator);
        join_horizontal_top(&parts)
    }

    /// The full help: one column per group with an enabled binding, each row a styled key
    /// and description (as `help_pairs` gives them), as many columns as fit into the
    /// width with the separators between them, then the ellipsis if it fits; nothing for
    /// no groups. Whatever the styles render, the result is the full view of one styled
    /// row per enabled binding, grouped as the bindings are.
    pub fn full_help_view(&self, groups: Vec<Vec<&Binding>>) -> (r: String)
        ensures
            groups@.len() == 0 ==> r@ == Seq::<char>::empty(),
            groups@.len() > 0 ==> exists|g: Seq<Seq<(Seq<char>, Seq<char>)>>, sep: Seq<char>, tail: Seq<char>|
                g.len() == groups@.len()
                && (forall|k: int| 0 <= k < g.len() ==> #[trigger] g[k].len() == enabled_help(bindings_view(groups@[k]@)).len())
                && r@ == #[trigger] full_text(self.width as nat, g, sep, tail),
    {
        if groups.len() == 0 {
            return String::new();
        }
        let separator = render(&inline_style(&self.styles.full_separator), self.full_separator.as_str());
        let mut styled: Vec<Vec<(String, String)>> = Vec::new();
        let mut i: usize = 0;
        while i < groups.len()
            invariant
                i <= groups@.len(),
                styled@.len() == i,
                forall|k: int| 0 <= k < i ==> #[trigger] styled@[k]@.len() == enabled_help(bindings_view(groups@[k]@)).len(),
            decreases groups@.len() - i,
        {
            let pairs = help_pairs(groups[i].as_slice());
            assert(pairs_view(pairs@).len() == pairs@.len());
            let rows = Self::style_pairs(&pairs, &self.styles.full_key, &self.styles.full_desc);
            styled.push(rows);
            i += 1;
        }
        let tail = self.ellipsis_tail();
        let r = self.fit_full_help(&styled, separator.as_str(), tail.as_str());
        let ghost g = groups_view(styled@);
        assert(forall|k: int| 0 <= k < g.len() ==> #[trigger] g[k].len() == enabled_help(bindings_view(groups@[k]@)).len());
        r
    }
}


/// When every binding is enabled, the help view lists each binding in order, and hands
/// the renderer first its help key in the key style, then its help description in the
/// description style.
pub proof fn law_help_items_are_key_then_description(
    b: Seq<BindingView>,
    key_style: lipgloss::Style,
    desc_style: lipgloss::Style,
)
    requires
        forall|i: int| 0 <= i < b.len() ==> spec_enabled(#[trigger] b[i]),
    ensures
        enabled_help(b).len() == b.len(),
        forall|k: int| 0 <= k < b.len() ==> #[trigger] help_plan(enabled_help(b), key_style, desc_style)[k] == (
            (b[k].help_key, style_inline(key_style)),
            (b[k].help_desc, style_inline(desc_style)),
        ),
    decreases b.len(),
{
    if b.len() > 0 {
        let p = b.drop_last();
        assert forall|i: int| 0 <= i < p.len() implies spec_enabled(#[trigger] p[i]) by {
            assert(p[i] == b[i]);
        }
        law_help_items_are_key_then_description(p, key_style, desc_style);
        assert(spec_enabled(b[b.len() - 1]));
        let e = enabled_help(b);
        assert(e == enabled_help(p).push((b.last().help_key, b.last().help_desc)));
        assert forall|k: int| 0 <= k < b.len() implies #[trigger] help_plan(e, key_style, desc_style)[k] == (
            (b[k].help_key, style_inline(key_style)),
            (b[k].help_desc, style_inline(desc_style)),
        ) by {
            if k < p.len() {
                assert(help_plan(enabled_help(p), key_style, desc_style)[k] == (
                    (p[k].help_key, style_inline(key_style)),
                    (p[k].help_desc, style_inline(desc_style)),
                ));
                assert(e[k] == enabled_help(p)[k]);
            }
        }
    }
}

/// A disabled binding adds nothing to the help view's items.
pub proof fn law_disabled_binding_not_listed(b: Seq<BindingView>, x: BindingView)
    requires
        !spec_enabled(x),
    ensures
        enabled_help(b.push(x)) == enabled_help(b),
{
    assert(b.push(x).drop_last() =~= b);
}


/// The short view shows the first items in full, as a view without a width limit
/// shows them, then either nothing more or the tail: it never shows an item in part or
/// out of order; when the last item is reached, it is the view without a limit.
pub proof fn law_short_view_is_a_prefix_of_all_items(
    width: nat,
    items: Seq<(Seq<char>, Seq<char>)>,
    sep: Seq<char>,
    tail: Seq<char>,
    total: nat,
)
    ensures
        exists|k: int|
            0 <= k <= items.len() && (#[trigger] short_fit(width, items, sep, tail, total) == all_items(
                items.take(k),
                sep,
                total,
            ) || short_fit(width, items, sep, tail, total) == all_items(items.take(k), sep, total) + tail)
                && (k < items.len() || short_fit(width, items, sep, tail, total) == all_items(items, sep, total)),
    decreases items.len(),
{
    if items.len() == 0 {
        assert(items.take(0) =~= items);
    } else {
        let s = short_item(total, sep, items[0].0, items[0].1);
        let w = visible_width(s);
        let r = short_fit(width, items, sep, tail, total);
        if overflows(width, total, w) {
            assert(items.take(0) =~= Seq::<(Seq<char>, Seq<char>)>::empty());
            assert(all_items(items.take(0), sep, total) == Seq::<char>::empty());
            if total + visible_width(tail) < width {
                assert(r =~= all_items(items.take(0), sep, total) + tail);
            } else {
                assert(r =~= all_items(items.take(0), sep, total));
            }
        } else {
            let rest = items.drop_first();
            law_short_view_is_a_prefix_of_all_items(width, rest, sep, tail, total + w);
            let k = choose|k: int|
                0 <= k <= rest.len() && (#[trigger] short_fit(width, rest, sep, tail, total + w) == all_items(
                    rest.take(k),
                    sep,
                    total + w,
                ) || short_fit(width, rest, sep, tail, total + w) == all_items(rest.take(k), sep, total + w) + tail)
                    && (k < rest.len() || short_fit(width, rest, sep, tail, total + w) == all_items(rest, sep, total + w));
            let t = items.take(k + 1);
            assert(t[0] == items[0]);
            assert(t.drop_first() =~= rest.take(k));
            assert(all_items(t, sep, total) == s + all_items(rest.take(k), sep, total + w));
            assert(all_items(items, sep, total) == s + all_items(rest, sep, total + w));
            assert(r == s + short_fit(width, rest, sep, tail, total + w));
            if short_fit(width, rest, sep, tail, total + w) == all_items(rest.take(k), sep, total + w) {
                assert(r == all_items(items.take(k + 1), sep, total));
            } else {
                assert(r =~= all_items(items.take(k + 1), sep, total) + tail);
            }
            assert(short_fit(width, items, sep, tail, total) == r);
        }
    }
}

} // verus!
