//! The terminal styling that the widgets hand their text to (`lipgloss`).
use vstd::prelude::*;

verus! {

/// `lipgloss::Style`, carried through the widgets as an opaque value.
#[verifier::external_type_specification]
#[verifier::external_body]
pub struct ExStyle(lipgloss::Style);

/// The name of `lipgloss::width_visible(s)`: the display width of `s` once ANSI escape
/// sequences are removed.
pub uninterp spec fn visible_width(s: Seq<char>) -> nat;

/// Calls `lipgloss::Style::new()`, a style with no properties set. Nothing is claimed
/// of the value.
#[verifier::external_body]
pub(crate) fn new_style() -> lipgloss::Style {
    lipgloss::Style::new()
}

/// `Clone::clone` on a `lipgloss::Style`. The crate derives `Clone` for `Style`: every
/// field is copied (its shared `Arc` fields point to the same values), so the copy is
/// claimed equal to the original.
pub assume_specification[ <lipgloss::Style as Clone>::clone ](s: &lipgloss::Style) -> (r: lipgloss::Style)
    ensures
        r == *s,
;

/// The style `lipgloss::Style::inline(true)` builds from the given one: a
/// function of its arguments alone (it sets a property and touches no color).
pub uninterp spec fn style_inline(s: lipgloss::Style) -> lipgloss::Style;

/// Calls `lipgloss::Style::inline(true)` on a copy of the style. The result is the named style for
/// the arguments.
#[verifier::external_body]
pub(crate) fn inline_style(s: &lipgloss::Style) -> (r: lipgloss::Style)
    ensures
        r == style_inline(*s),
{
    s.clone().inline(true)
}

/// The style `lipgloss::Style::reverse(true)` builds from the given one: a
/// function of its arguments alone (it sets a property and touches no color).
pub uninterp spec fn style_reverse(s: lipgloss::Style) -> lipgloss::Style;

/// Calls `lipgloss::Style::reverse(true)` on a copy of the style. The result is the named style for
/// the arguments.
#[verifier::external_body]
pub(crate) fn reverse_style(s: &lipgloss::Style) -> (r: lipgloss::Style)
    ensures
        r == style_reverse(*s),
{
    s.clone().reverse(true)
}

/// Calls `lipgloss::Style::render(s)`. The output depends on the terminal's color
/// profile and environment, so nothing is claimed of it.
#[verifier::external_body]
pub(crate) fn render(style: &lipgloss::Style, s: &str) -> String {
    style.render(s)
}

/// Calls `lipgloss::width_visible(s)`; the result is the named value for `s`.
#[verifier::external_body]
pub(crate) fn width_visible(s: &str) -> (w: usize)
    ensures
        w == visible_width(s@),
{
    lipgloss::width_visible(s)
}

/// Calls `lipgloss::Style::foreground` on a copy of `style` with the adaptive color
/// whose light and dark variants are `light` and `dark`. The color is resolved against
/// the terminal's background, so nothing is claimed of the result.
#[verifier::external_body]
pub(crate) fn adaptive_foreground(style: &lipgloss::Style, light: &'static str, dark: &'static str) -> lipgloss::Style {
    style.clone().foreground(lipgloss::AdaptiveColor { Light: light, Dark: dark })
}

/// Calls `lipgloss::Style::foreground` on a copy of `style` with the color `lipgloss::Color::from(color)`.
/// The color is resolved against the terminal's color profile when the style is built,
/// so nothing is claimed of the result.
#[verifier::external_body]
pub(crate) fn color_foreground(style: &lipgloss::Style, color: &str) -> lipgloss::Style {
    style.clone().foreground(lipgloss::Color::from(color))
}

/// The style `lipgloss::Style::bold(true)` builds from the given one: a
/// function of its arguments alone (it sets a property and touches no color).
pub uninterp spec fn style_bold(s: lipgloss::Style) -> lipgloss::Style;

/// Calls `lipgloss::Style::bold(true)` on a copy of `style`. The result is the named style for the
/// arguments.
#[verifier::external_body]
pub(crate) fn bold_style(style: &lipgloss::Style) -> (r: lipgloss::Style)
    ensures
        r == style_bold(*style),
{
    style.clone().bold(true)
}

/// The style `lipgloss::Style::width` builds from the given one: a
/// function of its arguments alone (it sets a property and touches no color).
pub uninterp spec fn style_width(s: lipgloss::Style, w: i32) -> lipgloss::Style;

/// Calls `lipgloss::Style::width(w)` on a copy of `style`. The result is the named style for the
/// arguments.
#[verifier::external_body]
pub(crate) fn width_style(style: &lipgloss::Style, w: i32) -> (r: lipgloss::Style)
    ensures
        r == style_width(*style, w),
{
    style.clone().width(w)
}

/// The style `lipgloss::Style::padding_left` builds from the given one: a
/// function of its arguments alone (it sets a property and touches no color).
pub uninterp spec fn style_padding_left(s: lipgloss::Style, n: i32) -> lipgloss::Style;

/// Calls `lipgloss::Style::padding_left(n)` on a copy of `style`. The result is the named style for
/// the arguments.
#[verifier::external_body]
pub(crate) fn padding_left_style(style: &lipgloss::Style, n: i32) -> (r: lipgloss::Style)
    ensures
        r == style_padding_left(*style, n),
{
    style.clone().padding_left(n)
}

/// The style `lipgloss::Style::padding` builds from the given one: a
/// function of its arguments alone (it sets a property and touches no color).
pub uninterp spec fn style_padding(s: lipgloss::Style, top: i32, right: i32, bottom: i32, left: i32) -> lipgloss::Style;

/// Calls `lipgloss::Style::padding(top, right, bottom, left)` on a copy of `style`.
/// The result is the named style for the arguments.
#[verifier::external_body]
pub(crate) fn padding_style(style: &lipgloss::Style, top: i32, right: i32, bottom: i32, left: i32) -> (r: lipgloss::Style)
    ensures
        r == style_padding(*style, top, right, bottom, left),
{
    style.clone().padding(top, right, bottom, left)
}

/// Calls `lipgloss::Style::background` on a copy of `style` with the color
/// `lipgloss::Color::from(color)`. The color is resolved against the terminal's color
/// profile when the style is built, so nothing is claimed of the result.
#[verifier::external_body]
pub(crate) fn color_background(style: &lipgloss::Style, color: &str) -> lipgloss::Style {
    style.clone().background(lipgloss::Color::from(color))
}

/// The style `lipgloss::Style::underline(true)` builds from the given one: a
/// function of its arguments alone (it sets a property and touches no color).
pub uninterp spec fn style_underline(s: lipgloss::Style) -> lipgloss::Style;

/// Calls `lipgloss::Style::underline(true)` on a copy of `style`. The result is the named style for
/// the arguments.
#[verifier::external_body]
pub(crate) fn underline_style(style: &lipgloss::Style) -> (r: lipgloss::Style)
    ensures
        r == style_underline(*style),
{
    style.clone().underline(true)
}

/// The style `lipgloss::Style::border_style(normal_border())` builds from the given one: a
/// function of its arguments alone (it sets a property and touches no color).
pub uninterp spec fn style_normal_border(s: lipgloss::Style) -> lipgloss::Style;

/// Calls `lipgloss::Style::border_style(lipgloss::normal_border())` on a copy of
/// `style`. The result is the named style for the arguments.
#[verifier::external_body]
pub(crate) fn normal_border_style(style: &lipgloss::Style) -> (r: lipgloss::Style)
    ensures
        r == style_normal_border(*style),
{
    style.clone().border_style(lipgloss::normal_border())
}

/// The style `lipgloss::Style::border_top` builds from the given one: a
/// function of its arguments alone (it sets a property and touches no color).
pub uninterp spec fn style_border_top(s: lipgloss::Style, v: bool) -> lipgloss::Style;

/// Calls `lipgloss::Style::border_top(v)` on a copy of `style`. The result is the named style for
/// the arguments.
#[verifier::external_body]
pub(crate) fn border_top_style(style: &lipgloss::Style, v: bool) -> (r: lipgloss::Style)
    ensures
        r == style_border_top(*style, v),
{
    style.clone().border_top(v)
}

/// The style `lipgloss::Style::border_right` builds from the given one: a
/// function of its arguments alone (it sets a property and touches no color).
pub uninterp spec fn style_border_right(s: lipgloss::Style, v: bool) -> lipgloss::Style;

/// Calls `lipgloss::Style::border_right(v)` on a copy of `style`. The result is the named style for
/// the arguments.
#[verifier::external_body]
pub(crate) fn border_right_style(style: &lipgloss::Style, v: bool) -> (r: lipgloss::Style)
    ensures
        r == style_border_right(*style, v),
{
    style.clone().border_right(v)
}

/// The style `lipgloss::Style::border_bottom` builds from the given one: a
/// function of its arguments alone (it sets a property and touches no color).
pub uninterp spec fn style_border_bottom(s: lipgloss::Style, v: bool) -> lipgloss::Style;

/// Calls `lipgloss::Style::border_bottom(v)` on a copy of `style`. The result is the named style
/// for the arguments.
#[verifier::external_body]
pub(crate) fn border_bottom_style(style: &lipgloss::Style, v: bool) -> (r: lipgloss::Style)
    ensures
        r == style_border_bottom(*style, v),
{
    style.clone().border_bottom(v)
}

/// The style `lipgloss::Style::border_left` builds from the given one: a
/// function of its arguments alone (it sets a property and touches no color).
pub uninterp spec fn style_border_left(s: lipgloss::Style, v: bool) -> lipgloss::Style;

/// Calls `lipgloss::Style::border_left(v)` on a copy of `style`. The result is the named style for
/// the arguments.
#[verifier::external_body]
pub(crate) fn border_left_style(style: &lipgloss::Style, v: bool) -> (r: lipgloss::Style)
    ensures
        r == style_border_left(*style, v),
{
    style.clone().border_left(v)
}

/// Calls `lipgloss::Style::border_left_foreground` on a copy of `style` with the
/// adaptive color whose light and dark variants are `light` and `dark`. The color is
/// resolved against the terminal's background when the style is built, so nothing is
/// claimed of the result.
#[verifier::external_body]
pub(crate) fn border_left_adaptive(style: &lipgloss::Style, light: &'static str, dark: &'static str) -> lipgloss::Style {
    style.clone().border_left_foreground(lipgloss::AdaptiveColor { Light: light, Dark: dark })
}

/// The style `lipgloss::Style::set_string` builds from the given one: a
/// function of its arguments alone (it sets a property and touches no color).
pub uninterp spec fn style_set_string(s: lipgloss::Style, text: Seq<char>) -> lipgloss::Style;

/// Calls `lipgloss::Style::set_string(s)` on a copy of `style`. The result is the named style for
/// the arguments.
#[verifier::external_body]
pub(crate) fn set_string_style(style: &lipgloss::Style, s: &str) -> (r: lipgloss::Style)
    ensures
        r == style_set_string(*style, s@),
{
    style.clone().set_string(s)
}

/// The style `lipgloss::Style::inherit` builds from the given one: a
/// function of its arguments alone (it sets a property and touches no color).
pub uninterp spec fn style_inherit(s: lipgloss::Style, other: lipgloss::Style) -> lipgloss::Style;

/// Calls `lipgloss::Style::inherit(other)` on a copy of `style` with a copy of `other`.
/// The result is the named style for the arguments.
#[verifier::external_body]
pub(crate) fn inherit_style(style: &lipgloss::Style, other: &lipgloss::Style) -> (r: lipgloss::Style)
    ensures
        r == style_inherit(*style, *other),
{
    style.clone().inherit(other.clone())
}

/// The style `lipgloss::Style::height` builds from the given one: a
/// function of its arguments alone (it sets a property and touches no color).
pub uninterp spec fn style_height(s: lipgloss::Style, h: i32) -> lipgloss::Style;

/// Calls `lipgloss::Style::height(h)` on a copy of `style`. The result is the named style for the
/// arguments.
#[verifier::external_body]
pub(crate) fn height_style(style: &lipgloss::Style, h: i32) -> (r: lipgloss::Style)
    ensures
        r == style_height(*style, h),
{
    style.clone().height(h)
}

/// The style `lipgloss::Style::max_height` builds from the given one: a
/// function of its arguments alone (it sets a property and touches no color).
pub uninterp spec fn style_max_height(s: lipgloss::Style, h: i32) -> lipgloss::Style;

/// Calls `lipgloss::Style::max_height(h)` on a copy of `style`. The result is the named style for
/// the arguments.
#[verifier::external_body]
pub(crate) fn max_height_style(style: &lipgloss::Style, h: i32) -> (r: lipgloss::Style)
    ensures
        r == style_max_height(*style, h),
{
    style.clone().max_height(h)
}

/// The name of `lipgloss::join_horizontal(lipgloss::TOP, parts)`: the blocks of `parts`
/// set side by side, aligned at the top.
pub uninterp spec fn joined_top(parts: Seq<Seq<char>>) -> Seq<char>;

/// Calls `lipgloss::join_horizontal(lipgloss::TOP, parts)`. The result is the named value
/// for `parts`; its source returns an empty string for no parts and the part itself for
/// a single one.
#[verifier::external_body]
pub(crate) fn join_horizontal_top(parts: &Vec<String>) -> (r: String)
    ensures
        r@ == joined_top(parts@.map_values(|p: String| p@)),
        parts@.len() == 0 ==> r@ == Seq::<char>::empty(),
        parts@.len() == 1 ==> r@ == parts@[0]@,
{
    let refs: Vec<&str> = parts.iter().map(|p| p.as_str()).collect();
    lipgloss::join_horizontal(lipgloss::TOP, &refs)
}

} // verus!
