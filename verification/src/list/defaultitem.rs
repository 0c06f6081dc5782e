//! The default item (a title and a description) and its delegate, and the split of a
//! text into runs of filter-matched and unmatched characters for highlighting.
use vstd::prelude::*;
use super::types::{FilterState, Item, ItemContext, ItemDelegate};
use crate::style::{
    adaptive_foreground, border_bottom_style, border_left_adaptive, border_left_style, border_right_style,
    border_top_style, inherit_style, new_style, normal_border_style, padding_style, render, style_inherit,
    style_padding, style_underline, underline_style,
};
use crate::text::{contains_usize, push_char, push_str, str_to_chars};

verus! {

/// An item with a title and a description; filtering matches the title.
#[derive(Debug, Clone)]
pub struct DefaultItem {
    pub title: String,
    pub desc: String,
}

impl DefaultItem {
    /// An item with the given title and description.
    pub fn new(title: &str, desc: &str) -> (d: DefaultItem)
        ensures
            d.title@ == title@,
            d.desc@ == desc@,
    {
        DefaultItem { title: title.to_string(), desc: desc.to_string() }
    }

    /// The text shown for the item: its title.
    pub fn to_display_string(&self) -> (r: String)
        ensures
            r@ == self.title@,
    {
        self.title.clone()
    }
}

impl Item for DefaultItem {
    open spec fn spec_filter_value(&self) -> Seq<char> {
        self.title@
    }

    fn filter_value(&self) -> (r: String) {
        self.title.clone()
    }

    open spec fn spec_title(&self) -> Seq<char> {
        self.title@
    }

    fn display_title(&self) -> (r: String) {
        self.title.clone()
    }

    fn description(&self) -> (r: String)
        ensures
            r@ == self.desc@,
    {
        self.desc.clone()
    }
}

/// The styles of the default delegate's items.
#[derive(Debug, Clone)]
pub struct DefaultItemStyles {
    pub normal_title: lipgloss::Style,
    pub normal_desc: lipgloss::Style,
    pub selected_title: lipgloss::Style,
    pub selected_desc: lipgloss::Style,
    pub dimmed_title: lipgloss::Style,
    pub dimmed_desc: lipgloss::Style,
    pub filter_match: lipgloss::Style,
}

impl DefaultItemStyles {
    /// Normal items in light grey, indented by two; the selected item in pink behind a
    /// pink left border; dimmed items while an empty filter is typed; matches underlined.
    /// The dimmed title is drawn exactly as the normal description.
    pub fn default() -> (st: DefaultItemStyles)
        ensures
            exists|base: lipgloss::Style, t: lipgloss::Style, g: lipgloss::Style, s: lipgloss::Style, d: lipgloss::Style|
                #[trigger] item_styles_built(st, base, t, g, s, d),
    {
        let base = new_style();
        let title_colors = adaptive_foreground(&base, "#1a1a1a", "#dddddd");
        let normal_title = padding_style(&title_colors, 0, 0, 0, 2);
        let grey_colors = adaptive_foreground(&base, "#A49FA5", "#777777");
        let grey = padding_style(&grey_colors, 0, 0, 0, 2);
        let normal_desc = grey.clone();
        let bordered = normal_border_style(&base);
        let left_only = border_left_style(
            &border_bottom_style(&border_right_style(&border_top_style(&bordered, false), false), false),
            true,
        );
        let selected_colors = adaptive_foreground(&border_left_adaptive(&left_only, "#F793FF", "#AD58B4"), "#EE6FF8", "#EE6FF8");
        let selected_title = padding_style(&selected_colors, 0, 0, 0, 1);
        let selected_desc = adaptive_foreground(&selected_title, "#F793FF", "#AD58B4");
        let dimmed_title = grey;
        let dimmed_colors = adaptive_foreground(&base, "#C2B8C2", "#4D4D4D");
        let dimmed_desc = padding_style(&dimmed_colors, 0, 0, 0, 2);
        let filter_match = underline_style(&base);
        let st = DefaultItemStyles {
            normal_title,
            normal_desc,
            selected_title,
            selected_desc,
            dimmed_title,
            dimmed_desc,
            filter_match,
        };
        assert(item_styles_built(st, base, title_colors, grey_colors, selected_colors, dimmed_colors));
        st
    }
}

/// How the default item styles are built from one plain style `base`: the normal title,
/// the normal description and the dimmed description padded by two on the left in their
/// colors, the dimmed title drawn as the normal description, the selected title padded
/// by one in its colors, and filter matches underlined.
pub open spec fn item_styles_built(
    st: DefaultItemStyles,
    base: lipgloss::Style,
    title_colors: lipgloss::Style,
    grey_colors: lipgloss::Style,
    selected_colors: lipgloss::Style,
    dimmed_colors: lipgloss::Style,
) -> bool {
    &&& st.normal_title == style_padding(title_colors, 0, 0, 0, 2)
    &&& st.normal_desc == style_padding(grey_colors, 0, 0, 0, 2)
    &&& st.dimmed_title == st.normal_desc
    &&& st.selected_title == style_padding(selected_colors, 0, 0, 0, 1)
    &&& st.dimmed_desc == style_padding(dimmed_colors, 0, 0, 0, 2)
    &&& st.filter_match == style_underline(base)
}

/// A position whose flag is set lies in a run with the flag set.
proof fn lemma_true_flag_has_true_run(flags: Seq<bool>, p: int)
    requires
        0 <= p < flags.len(),
        flags[p],
    ensures
        exists|q: int| 0 <= q < runs(flags).len() && (#[trigger] runs(flags)[q]).2,
    decreases flags.len(),
{
    let rr = runs(flags);
    if p == flags.len() - 1 {
        assert(rr.last().2 == flags.last());
        assert(rr[rr.len() - 1].2);
    } else {
        let prev = flags.drop_last();
        assert(prev[p] == flags[p]);
        lemma_true_flag_has_true_run(prev, p);
        let q = choose|q: int| 0 <= q < runs(prev).len() && (#[trigger] runs(prev)[q]).2;
        assert(rr[q].2);
    }
}

/// Without a run of matched positions, no match lies inside the text.
proof fn lemma_no_highlight_without_valid_match(n: nat, matches: Seq<usize>, segs: Seq<(usize, usize, bool)>)
    requires
        segs == runs(match_flags(n, matches)),
        forall|q: int| 0 <= q < segs.len() ==> !(#[trigger] segs[q]).2,
    ensures
        !(exists|k: int| 0 <= k < matches.len() && matches[k] < n),
{
    if exists|k: int| 0 <= k < matches.len() && matches[k] < n {
        let k = choose|k: int| 0 <= k < matches.len() && matches[k] < n;
        let flags = match_flags(n, matches);
        assert(matches.contains(matches[k]));
        assert(flags[matches[k] as int]);
        lemma_true_flag_has_true_run(flags, matches[k] as int);
    }
}

/// The characters `start..end` of `text` as a string.
fn chars_between(text: &Vec<char>, start: usize, end: usize) -> (r: String)
    requires
        start <= end <= text@.len(),
    ensures
        r@ == text@.subrange(start as int, end as int),
{
    let mut out = String::new();
    let mut i = start;
    while i < end
        invariant
            start <= i <= end <= text@.len(),
            out@ == text@.subrange(start as int, i as int),
        decreases end - i,
    {
        push_char(&mut out, text[i]);
        assert(text@.subrange(start as int, i as int + 1) =~= text@.subrange(start as int, i as int).push(text@[i as int]));
        i += 1;
    }
    out
}

/// Whether one of the positions lies inside the text.
pub open spec fn has_match_within(text: Seq<char>, matches: Seq<usize>) -> bool {
    exists|k: int| 0 <= k < matches.len() && matches[k] < text.len()
}

/// Text pieces paired with the style each is handed to the renderer in.
pub open spec fn parts_view(v: Seq<(String, lipgloss::Style)>) -> Seq<(Seq<char>, lipgloss::Style)> {
    v.map_values(|p: (String, lipgloss::Style)| (p.0@, p.1))
}

/// What highlighting hands to the renderer: with a position inside the text, each
/// maximal run of matched or unmatched characters, in order, the matched runs in
/// `highlight_style` and the others in `normal_style`; otherwise the whole text in
/// `normal_style`.
pub open spec fn highlight_plan(
    text: Seq<char>,
    matches: Seq<usize>,
    highlight_style: lipgloss::Style,
    normal_style: lipgloss::Style,
) -> Seq<(Seq<char>, lipgloss::Style)> {
    if has_match_within(text, matches) {
        runs(match_flags(text.len(), matches)).map_values(
            |run: (usize, usize, bool)|
                (text.subrange(run.0 as int, run.1 as int), if run.2 {
                    highlight_style
                } else {
                    normal_style
                }),
        )
    } else {
        seq![(text, normal_style)]
    }
}

/// Whether `r` is made of one rendered piece per part, in order.
pub open spec fn rendered_from(r: Seq<char>, n: nat) -> bool {
    exists|pieces: Seq<Seq<char>>| pieces.len() == n && r == #[trigger] pieces.flatten()
}

/// A run that carries the matched flag holds a position among the matches.
proof fn lemma_true_run_has_match(text_len: nat, matches: Seq<usize>, segs: Seq<(usize, usize, bool)>, q: int)
    requires
        runs_partition(segs, match_flags(text_len, matches)),
        0 <= q < segs.len(),
        segs[q].2,
    ensures
        exists|k: int| 0 <= k < matches.len() && matches[k] < text_len,
{
    let flags = match_flags(text_len, matches);
    let p = segs[q].0 as int;
    assert(flags[p] == segs[q].2);
    assert(matches.contains(p as usize));
    let k = choose|k: int| 0 <= k < matches.len() && matches[k] == p as usize;
    assert(matches[k] < text_len);
}

/// The parts `highlight_plan` describes.
pub fn highlight_parts(
    text: &str,
    matches: &[usize],
    highlight_style: &lipgloss::Style,
    normal_style: &lipgloss::Style,
) -> (r: Vec<(String, lipgloss::Style)>)
    ensures
        parts_view(r@) == highlight_plan(text@, matches@, *highlight_style, *normal_style),
{
    let chars = str_to_chars(text);
    let segments = highlight_segments(chars.len(), matches);
    proof {
        law_runs_partition(match_flags(chars@.len(), matches@));
    }
    let mut any_valid = false;
    let mut j: usize = 0;
    while j < segments.len()
        invariant
            j <= segments@.len(),
            any_valid == exists|q: int| 0 <= q < j && (#[trigger] segments@[q]).2,
        decreases segments@.len() - j,
    {
        if segments[j].2 {
            any_valid = true;
        }
        j += 1;
    }
    if !any_valid {
        proof {
            lemma_no_highlight_without_valid_match(text@.len(), matches@, segments@);
        }
        let mut out: Vec<(String, lipgloss::Style)> = Vec::new();
        out.push((String::from_str(text), normal_style.clone()));
        assert(parts_view(out@) =~= seq![(text@, *normal_style)]);
        return out;
    }
    proof {
        let q = choose|q: int| 0 <= q < segments@.len() && (#[trigger] segments@[q]).2;
        lemma_true_run_has_match(chars@.len(), matches@, segments@, q);
    }
    let ghost plan = highlight_plan(text@, matches@, *highlight_style, *normal_style);
    let mut out: Vec<(String, lipgloss::Style)> = Vec::new();
    let mut i: usize = 0;
    while i < segments.len()
        invariant
            i <= segments@.len(),
            segments@ == runs(match_flags(chars@.len(), matches@)),
            runs_partition(segments@, match_flags(chars@.len(), matches@)),
            chars@ == text@,
            has_match_within(text@, matches@),
            plan == highlight_plan(text@, matches@, *highlight_style, *normal_style),
            plan.len() == segments@.len(),
            parts_view(out@) == plan.take(i as int),
        decreases segments@.len() - i,
    {
        let (start, end, highlighted) = segments[i];
        assert(segments@[i as int].0 < segments@[i as int].1 <= chars@.len());
        let piece = chars_between(&chars, start, end);
        let style = if highlighted {
            highlight_style.clone()
        } else {
            normal_style.clone()
        };
        let ghost before = out@;
        out.push((piece, style));
        assert(parts_view(out@) =~= parts_view(before).push((piece@, style)));
        assert(plan.take(i as int + 1) =~= plan.take(i as int).push(plan[i as int]));
        i += 1;
    }
    assert(plan.take(segments@.len() as int) =~= plan);
    out
}

/// Each part rendered in its style, concatenated. Whatever the styles render, the
/// result is one rendered piece per part.
pub fn render_parts(parts: &Vec<(String, lipgloss::Style)>) -> (r: String)
    ensures
        rendered_from(r@, parts@.len()),
{
    let mut result = String::new();
    let ghost mut pieces: Seq<Seq<char>> = Seq::empty();
    let mut i: usize = 0;
    assert(pieces.flatten() =~= Seq::<char>::empty());
    while i < parts.len()
        invariant
            i <= parts@.len(),
            pieces.len() == i,
            result@ == pieces.flatten(),
        decreases parts@.len() - i,
    {
        let styled = render(&parts[i].1, parts[i].0.as_str());
        push_str(&mut result, styled.as_str());
        proof {
            pieces.lemma_flatten_push(styled@);
            pieces = pieces.push(styled@);
        }
        i += 1;
    }
    result
}

/// Renders `text` as `highlight_parts` plans it: matched runs in `highlight_style`, the
/// rest in `normal_style`, or the whole text in `normal_style` when no position lies
/// inside it. Whatever the styles render, the result is one rendered piece per planned
/// part.
pub fn apply_character_highlighting(
    text: &str,
    matches: &[usize],
    highlight_style: &lipgloss::Style,
    normal_style: &lipgloss::Style,
) -> (r: String)
    ensures
        rendered_from(r@, highlight_plan(text@, matches@, *highlight_style, *normal_style).len()),
{
    let parts = highlight_parts(text, matches, highlight_style, normal_style);
    assert(parts_view(parts@).len() == parts@.len());
    render_parts(&parts)
}

/// The default delegate: items take two lines (title and description) or one line
/// when the description is hidden, with one blank line between items.
#[derive(Debug, Clone)]
pub struct DefaultDelegate {
    pub show_description: bool,
    pub styles: DefaultItemStyles,
    height: usize,
    spacing: usize,
}

impl DefaultDelegate {
    /// Shows descriptions; two lines per item, one line of spacing.
    pub fn new() -> (d: DefaultDelegate)
        ensures
            d.shows_description(),
            d.height_field() == 2,
            d.spacing_field() == 1,
    {
        DefaultDelegate { show_description: true, styles: DefaultItemStyles::default(), height: 2, spacing: 1 }
    }
}

impl DefaultDelegate {
    /// Whether descriptions are shown.
    pub closed spec fn shows_description(&self) -> bool {
        self.show_description
    }

    /// The configured lines per item (used while descriptions are shown).
    pub closed spec fn height_field(&self) -> usize {
        self.height
    }

    /// The configured blank lines between items.
    pub closed spec fn spacing_field(&self) -> usize {
        self.spacing
    }

    /// The styles of the items (the `styles` field).
    pub closed spec fn item_styles(&self) -> DefaultItemStyles {
        self.styles
    }
}

impl<I: Item> ItemDelegate<I> for DefaultDelegate {
    open spec fn spec_height(&self) -> usize {
        if self.shows_description() { self.height_field() } else { 1 }
    }

    open spec fn spec_spacing(&self) -> usize {
        self.spacing_field()
    }

    open spec fn spec_can_remove(&self, index: usize, item: I) -> bool {
        true
    }

    fn height(&self) -> (r: usize) {
        if self.show_description { self.height } else { 1 }
    }

    fn spacing(&self) -> (r: usize) {
        self.spacing
    }

    fn can_remove(&self, index: usize, item: &I) -> (r: bool) {
        true
    }

    fn on_remove(&self, index: usize, item: &I) {
    }

    /// The title, and the description under it when descriptions are shown and it
    /// renders to something (`item_text`); nothing at zero width. Each is rendered from
    /// the parts `plan_item` hands to the renderer: the styles of the item's look (dimmed
    /// while an empty filter is typed, selected for the item at the cursor outside
    /// typing, normal otherwise) and, outside the dimmed look, the matched runs in those
    /// styles with the filter-match style laid over them.
    fn render(&self, ctx: &ItemContext, index: usize, item: &I) -> (r: String)
        ensures
            ctx.width == 0 ==> r@ == Seq::<char>::empty(),
            ctx.width > 0 ==> exists|t: Seq<char>, d: Seq<char>, desc: Seq<char>|
                #![trigger item_text(self.shows_description(), t, d), item_plan(self.item_styles(), *ctx, index, item.spec_title(), desc)]
                r@ == item_text(self.shows_description(), t, d)
                && rendered_from(t, item_plan(self.item_styles(), *ctx, index, item.spec_title(), desc).0.len())
                && rendered_from(d, item_plan(self.item_styles(), *ctx, index, item.spec_title(), desc).1.len()),
    {
        let title = item.display_title();
        let desc = item.description();
        if ctx.width == 0 {
            return String::new();
        }
        let (title_parts, desc_parts) = self.plan_item(ctx, index, title.as_str(), desc.as_str());
        let title_out = render_parts(&title_parts);
        let desc_out = render_parts(&desc_parts);
        let ghost t = title_out@;
        let ghost d = desc_out@;
        let ghost plan = item_plan(self.item_styles(), *ctx, index, item.spec_title(), desc@);
        assert(parts_view(title_parts@).len() == title_parts@.len());
        assert(parts_view(desc_parts@).len() == desc_parts@.len());
        let r = compose_item(self.show_description, title_out, desc_out);
        assert(r@ == item_text(self.shows_description(), t, d));
        assert(rendered_from(t, plan.0.len()) && rendered_from(d, plan.1.len()));
        r
    }
}

impl DefaultDelegate {
    /// What `render` hands to the renderer for an item with this title and description
    /// (`item_plan`): the title parts and the description parts, each with its style.
    pub fn plan_item(&self, ctx: &ItemContext, index: usize, title: &str, desc: &str) -> (r: (
        Vec<(String, lipgloss::Style)>,
        Vec<(String, lipgloss::Style)>,
    ))
        ensures
            parts_view(r.0@) == item_plan(self.item_styles(), *ctx, index, title@, desc@).0,
            parts_view(r.1@) == item_plan(self.item_styles(), *ctx, index, title@, desc@).1,
    {
        let s = &self.styles;
        let look = item_look(ctx, index);
        let (title_style, desc_style) = match look {
            ItemLook::Dimmed => (s.dimmed_title.clone(), s.dimmed_desc.clone()),
            ItemLook::Selected => (s.selected_title.clone(), s.selected_desc.clone()),
            ItemLook::Normal => (s.normal_title.clone(), s.normal_desc.clone()),
        };
        let matches = match look {
            ItemLook::Dimmed => None,
            _ => match &ctx.matches {
                Some(m) => Some(m),
                None => None,
            },
        };
        match matches {
            Some(m) => {
                let hs = inherit_style(&title_style, &s.filter_match);
                let tp = highlight_parts(title, m.as_slice(), &hs, &title_style);
                let dp = if desc.unicode_len() > 0 {
                    let dhs = inherit_style(&desc_style, &s.filter_match);
                    highlight_parts(desc, m.as_slice(), &dhs, &desc_style)
                } else {
                    let e: Vec<(String, lipgloss::Style)> = Vec::new();
                    assert(parts_view(e@) =~= Seq::<(Seq<char>, lipgloss::Style)>::empty());
                    e
                };
                (tp, dp)
            },
            None => {
                let mut tp: Vec<(String, lipgloss::Style)> = Vec::new();
                tp.push((String::from_str(title), title_style));
                let mut dp: Vec<(String, lipgloss::Style)> = Vec::new();
                dp.push((String::from_str(desc), desc_style));
                assert(parts_view(tp@) =~= item_plan(self.item_styles(), *ctx, index, title@, desc@).0);
                assert(parts_view(dp@) =~= item_plan(self.item_styles(), *ctx, index, title@, desc@).1);
                (tp, dp)
            },
        }
    }
}

/// The title and description styles of a look.
pub open spec fn look_styles(look: ItemLook, st: DefaultItemStyles) -> (lipgloss::Style, lipgloss::Style) {
    match look {
        ItemLook::Dimmed => (st.dimmed_title, st.dimmed_desc),
        ItemLook::Selected => (st.selected_title, st.selected_desc),
        ItemLook::Normal => (st.normal_title, st.normal_desc),
    }
}

/// What the default delegate hands to the renderer for an item with this title and
/// description: the title parts and the description parts. Both are in the look's
/// styles; in the dimmed look or without matches each is one part; otherwise each is
/// highlighted (`highlight_plan`) with the filter-match style laid over the look's, an
/// empty description giving no part.
pub open spec fn item_plan(
    st: DefaultItemStyles,
    ctx: ItemContext,
    index: usize,
    title: Seq<char>,
    desc: Seq<char>,
) -> (Seq<(Seq<char>, lipgloss::Style)>, Seq<(Seq<char>, lipgloss::Style)>) {
    let look = spec_item_look(ctx, index);
    let ts = look_styles(look, st).0;
    let ds = look_styles(look, st).1;
    if look == ItemLook::Dimmed || ctx.matches is None {
        (seq![(title, ts)], seq![(desc, ds)])
    } else {
        let m = ctx.matches.unwrap()@;
        (
            highlight_plan(title, m, style_inherit(ts, st.filter_match), ts),
            if desc.len() > 0 {
                highlight_plan(desc, m, style_inherit(ds, st.filter_match), ds)
            } else {
                Seq::empty()
            },
        )
    }
}

/// Which styles an item is drawn in.
#[derive(Debug, Clone, Copy, PartialEq, Eq, Structural)]
pub enum ItemLook {
    Dimmed,
    Selected,
    Normal,
}

/// The look of the item at `index`: dimmed while an empty filter is typed; selected when
/// it is at the cursor and no filter is being typed; normal otherwise.
pub open spec fn spec_item_look(ctx: ItemContext, index: usize) -> ItemLook {
    if ctx.filter_state == FilterState::Filtering && ctx.filter_empty {
        ItemLook::Dimmed
    } else if index == ctx.cursor && ctx.filter_state != FilterState::Filtering {
        ItemLook::Selected
    } else {
        ItemLook::Normal
    }
}

/// The look of the item at `index`.
pub fn item_look(ctx: &ItemContext, index: usize) -> (r: ItemLook)
    ensures
        r == spec_item_look(*ctx, index),
{
    if ctx.filter_state == FilterState::Filtering && ctx.filter_empty {
        ItemLook::Dimmed
    } else if index == ctx.cursor && ctx.filter_state != FilterState::Filtering {
        ItemLook::Selected
    } else {
        ItemLook::Normal
    }
}

/// An item's text: the title, and the description on the next line when descriptions
/// are shown and it is not empty.
pub open spec fn item_text(show_description: bool, title: Seq<char>, desc: Seq<char>) -> Seq<char> {
    if show_description && desc.len() > 0 {
        title + seq!['\n'] + desc
    } else {
        title
    }
}

/// An item's text from its rendered title and description.
pub fn compose_item(show_description: bool, title: String, desc: String) -> (r: String)
    ensures
        r@ == item_text(show_description, title@, desc@),
{
    if show_description && desc.as_str().unicode_len() > 0 {
        let mut out = title;
        push_char(&mut out, '\n');
        push_str(&mut out, desc.as_str());
        out
    } else {
        title
    }
}

/// The maximal runs of equal flags, as `(start, end, flag)` with `end` exclusive.
pub open spec fn runs(flags: Seq<bool>) -> Seq<(usize, usize, bool)>
    decreases flags.len(),
{
    if flags.len() == 0 {
        Seq::empty()
    } else {
        let r = runs(flags.drop_last());
        let f = flags.last();
        let n = flags.len();
        if r.len() > 0 && r.last().2 == f {
            r.update(r.len() - 1, (r.last().0, n as usize, f))
        } else {
            r.push(((n - 1) as usize, n as usize, f))
        }
    }
}

/// For each of the first `n` character positions, whether it is among `matches`.
pub open spec fn match_flags(n: nat, matches: Seq<usize>) -> Seq<bool> {
    Seq::new(n, |i: int| matches.contains(i as usize))
}

/// Splits a text of `text_len` characters into runs of positions that are all among
/// `matches` (highlighted, flag `true`) or all not (flag `false`); the runs are
/// maximal and cover the text in order.
pub fn highlight_segments(text_len: usize, matches: &[usize]) -> (r: Vec<(usize, usize, bool)>)
    ensures
        r@ == runs(match_flags(text_len as nat, matches@)),
{
    let mut out: Vec<(usize, usize, bool)> = Vec::new();
    let mut i: usize = 0;
    while i < text_len
        invariant
            i <= text_len,
            out@ == runs(match_flags(i as nat, matches@)),
        decreases text_len - i,
    {
        let f = contains_usize(matches, i);
        proof {
            let fl = match_flags((i + 1) as nat, matches@);
            assert(fl.drop_last() == match_flags(i as nat, matches@));
            assert(fl.last() == f);
        }
        let len = out.len();
        if len > 0 && out[len - 1].2 == f {
            let start = out[len - 1].0;
            out.set(len - 1, (start, i + 1, f));
        } else {
            out.push((i, i + 1, f));
        }
        i += 1;
    }
    out
}

/// `r` covers positions `0..flags.len()` in order with non-empty runs, each holding the
/// flag of every position inside it, neighbouring runs having different flags.
pub open spec fn runs_partition(r: Seq<(usize, usize, bool)>, flags: Seq<bool>) -> bool {
    &&& (flags.len() == 0 <==> r.len() == 0)
    &&& flags.len() > 0 ==> r[0].0 == 0 && r.last().1 == flags.len()
    &&& forall|k: int| 0 <= k < r.len() ==> (#[trigger] r[k]).0 < r[k].1
    &&& forall|k: int| 0 <= k < r.len() ==> (#[trigger] r[k]).1 <= flags.len()
    &&& forall|k: int| 0 <= k < r.len() - 1 ==> (#[trigger] r[k]).1 == r[k + 1].0
    &&& forall|k: int| 0 <= k < r.len() - 1 ==> (#[trigger] r[k]).2 != r[k + 1].2
    &&& forall|k: int, p: int| 0 <= k < r.len() && r[k].0 <= p < r[k].1 ==> #[trigger] flags[p] == (#[trigger] r[k]).2
}

/// The runs of a flag sequence partition it: they cover it in order, each non-empty
/// and of one flag, and neighbouring runs differ.
pub proof fn law_runs_partition(flags: Seq<bool>)
    requires
        flags.len() <= usize::MAX,
    ensures
        runs_partition(runs(flags), flags),
    decreases flags.len(),
{
    if flags.len() > 0 {
        law_runs_partition(flags.drop_last());
        lemma_runs_step(flags);
    }
}

proof fn lemma_runs_step(flags: Seq<bool>)
    requires
        flags.len() > 0,
        flags.len() <= usize::MAX,
        runs_partition(runs(flags.drop_last()), flags.drop_last()),
    ensures
        runs_partition(runs(flags), flags),
{
    let r = runs(flags.drop_last());
    let f = flags.last();
    if r.len() > 0 && r.last().2 == f {
        lemma_runs_extend(flags);
    } else {
        lemma_runs_new(flags);
    }
}

#[verifier::spinoff_prover]
#[verifier::rlimit(80)]
proof fn lemma_runs_extend(flags: Seq<bool>)
    requires
        flags.len() > 0,
        flags.len() <= usize::MAX,
        runs_partition(runs(flags.drop_last()), flags.drop_last()),
        runs(flags.drop_last()).len() > 0,
        runs(flags.drop_last()).last().2 == flags.last(),
    ensures
        runs_partition(runs(flags), flags),
{
    let r = runs(flags.drop_last());
    let d = flags.drop_last();
    let n = flags.len();
    let f = flags.last();
    let out = runs(flags);
    assert(out == r.update(r.len() - 1, (r.last().0, n as usize, f)));
    assert forall|k: int| 0 <= k < out.len() implies (#[trigger] out[k]).1 <= n && out[k].0 < out[k].1 by {
        if k < out.len() - 1 {
            assert(out[k] == r[k]);
        }
    }
    assert forall|k: int, p: int| 0 <= k < out.len() && out[k].0 <= p < out[k].1 implies #[trigger] flags[p]
        == (#[trigger] out[k]).2 by {
        if p < n - 1 {
            assert(flags[p] == d[p]);
            assert(out[k].0 == r[k].0);
            if k < out.len() - 1 {
                assert(out[k] == r[k]);
            } else {
                assert(r[k].0 <= p < r[k].1);
            }
        }
    }
    assert forall|k: int| 0 <= k < out.len() - 1 implies (#[trigger] out[k]).1 == out[k + 1].0 by {
        assert(out[k] == r[k]);
    }
    assert forall|k: int| 0 <= k < out.len() - 1 implies (#[trigger] out[k]).2 != out[k + 1].2 by {
        assert(out[k] == r[k]);
    }
}

proof fn lemma_runs_new(flags: Seq<bool>)
    requires
        flags.len() > 0,
        flags.len() <= usize::MAX,
        runs_partition(runs(flags.drop_last()), flags.drop_last()),
        !(runs(flags.drop_last()).len() > 0 && runs(flags.drop_last()).last().2 == flags.last()),
    ensures
        runs_partition(runs(flags), flags),
{
    let r = runs(flags.drop_last());
    let n = flags.len();
    assert(runs(flags) == r.push(((n - 1) as usize, n as usize, flags.last())));
    lemma_push_run(r, flags);
}

#[verifier::spinoff_prover]
#[verifier::rlimit(80)]
proof fn lemma_push_run(r: Seq<(usize, usize, bool)>, flags: Seq<bool>)
    requires
        flags.len() > 0,
        flags.len() <= usize::MAX,
        runs_partition(r, flags.drop_last()),
        !(r.len() > 0 && r.last().2 == flags.last()),
    ensures
        runs_partition(r.push(((flags.len() - 1) as usize, flags.len() as usize, flags.last())), flags),
{
    let d = flags.drop_last();
    let n = flags.len();
    let f = flags.last();
    let out = r.push(((n - 1) as usize, n as usize, f));
    assert forall|k: int| 0 <= k < out.len() implies (#[trigger] out[k]).1 <= n && out[k].0 < out[k].1 by {
        if k < out.len() - 1 {
            assert(out[k] == r[k]);
        }
    }
    assert forall|k: int, p: int| 0 <= k < out.len() && out[k].0 <= p < out[k].1 implies #[trigger] flags[p]
        == (#[trigger] out[k]).2 by {
        if k < out.len() - 1 {
            assert(out[k] == r[k]);
            assert(flags[p] == d[p]);
        }
    }
    assert forall|k: int| 0 <= k < out.len() - 1 implies (#[trigger] out[k]).1 == out[k + 1].0 by {
        assert(out[k] == r[k]);
    }
    assert forall|k: int| 0 <= k < out.len() - 1 implies (#[trigger] out[k]).2 != out[k + 1].2 by {
        assert(out[k] == r[k]);
    }
}

} // verus!
