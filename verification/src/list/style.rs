//! The styles of the list's sections.
use vstd::prelude::*;
use crate::style::{
    adaptive_foreground, color_background, color_foreground, new_style, padding_left_style, padding_style,
    set_string_style, style_padding, style_padding_left, style_set_string, style_underline, underline_style,
};

verus! {

/// The bullet of the pagination dots.
pub const BULLET: &'static str = "•";

/// The mark of cut-off text.
pub const ELLIPSIS: &'static str = "…";

/// The styles of the list's sections.
#[derive(Debug, Clone)]
pub struct ListStyles {
    pub title_bar: lipgloss::Style,
    pub title: lipgloss::Style,
    pub spinner: lipgloss::Style,
    pub filter_prompt: lipgloss::Style,
    pub filter_cursor: lipgloss::Style,
    pub default_filter_character_match: lipgloss::Style,
    pub status_bar: lipgloss::Style,
    pub status_empty: lipgloss::Style,
    pub status_bar_active_filter: lipgloss::Style,
    pub status_bar_filter_count: lipgloss::Style,
    pub no_items: lipgloss::Style,
    pub pagination_style: lipgloss::Style,
    pub help_style: lipgloss::Style,
    pub active_pagination_dot: lipgloss::Style,
    pub inactive_pagination_dot: lipgloss::Style,
    pub arabic_pagination: lipgloss::Style,
    pub divider_dot: lipgloss::Style,
}

/// How the default list styles are built from one plain style `base`: the title bar and
/// the help padded, the title padded by one column on each side, the status bar padded,
/// the empty status and the arabic pagination in one subdued color, filter matches
/// underlined, the pagination indented by two, and the dots a bullet (or a spaced bullet
/// for the divider) in their colors, the inactive dot and the divider sharing the filter
/// count's color.
pub open spec fn list_styles_built(
    st: ListStyles,
    base: lipgloss::Style,
    title_colors: lipgloss::Style,
    status_colors: lipgloss::Style,
    dot_colors: lipgloss::Style,
) -> bool {
    &&& st.title_bar == style_padding(base, 0, 0, 1, 2)
    &&& st.title == style_padding(title_colors, 0, 1, 0, 1)
    &&& st.default_filter_character_match == style_underline(base)
    &&& st.status_bar == style_padding(status_colors, 0, 0, 1, 2)
    &&& st.status_empty == st.arabic_pagination
    &&& st.pagination_style == style_padding_left(base, 2)
    &&& st.help_style == style_padding(base, 1, 0, 0, 2)
    &&& st.active_pagination_dot == style_set_string(dot_colors, BULLET@)
    &&& st.inactive_pagination_dot == style_set_string(st.status_bar_filter_count, BULLET@)
    &&& st.divider_dot == style_set_string(st.status_bar_filter_count, " • "@)
}

impl ListStyles {
    /// A light title on purple, grey status and help, subdued pagination dots.
    pub fn default() -> (st: ListStyles)
        ensures
            exists|base: lipgloss::Style, t: lipgloss::Style, s: lipgloss::Style, d: lipgloss::Style|
                #[trigger] list_styles_built(st, base, t, s, d),
    {
        let base = new_style();
        let very_subdued = adaptive_foreground(&base, "#DDDADA", "#3C3C3C");
        let subdued = adaptive_foreground(&base, "#9B9B9B", "#5C5C5C");
        let title_colors = color_foreground(&color_background(&base, "62"), "230");
        let status_colors = adaptive_foreground(&base, "#A49FA5", "#777777");
        let dot_colors = adaptive_foreground(&base, "#847A85", "#979797");
        let st = ListStyles {
            title_bar: padding_style(&base, 0, 0, 1, 2),
            title: padding_style(&title_colors, 0, 1, 0, 1),
            spinner: adaptive_foreground(&base, "#8E8E8E", "#747373"),
            filter_prompt: adaptive_foreground(&base, "#04B575", "#ECFD65"),
            filter_cursor: adaptive_foreground(&base, "#EE6FF8", "#EE6FF8"),
            default_filter_character_match: underline_style(&base),
            status_bar: padding_style(&status_colors, 0, 0, 1, 2),
            status_empty: subdued.clone(),
            status_bar_active_filter: adaptive_foreground(&base, "#1a1a1a", "#dddddd"),
            status_bar_filter_count: very_subdued.clone(),
            no_items: adaptive_foreground(&base, "#909090", "#626262"),
            arabic_pagination: subdued,
            pagination_style: padding_left_style(&base, 2),
            help_style: padding_style(&base, 1, 0, 0, 2),
            active_pagination_dot: set_string_style(&dot_colors, BULLET),
            inactive_pagination_dot: set_string_style(&very_subdued, BULLET),
            divider_dot: set_string_style(&very_subdued, " • "),
        };
        assert(list_styles_built(st, base, title_colors, status_colors, dot_colors));
        st
    }
}

} // verus!
