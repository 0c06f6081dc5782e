//! The traits items and delegates implement, and the filter state.
use vstd::prelude::*;
use crate::key::Binding;

verus! {

/// An item of a list: it gives the text that filtering matches against.
pub trait Item: Sized + Clone {
    /// The text that filtering matches against.
    spec fn spec_filter_value(&self) -> Seq<char>;

    /// The text that filtering matches against.
    fn filter_value(&self) -> (r: String)
        ensures
            r@ == self.spec_filter_value(),
    ;

    /// The item's text as the list shows it.
    spec fn spec_title(&self) -> Seq<char>;

    /// The item's text as the list shows it.
    fn display_title(&self) -> (r: String)
        ensures
            r@ == self.spec_title(),
    ;

    /// The description shown under the title; none unless the item has one.
    fn description(&self) -> (r: String)
        default_ensures
            r@ == Seq::<char>::empty(),
    {
        String::new()
    }
}

/// What a delegate reads of the list when it renders an item: the list's width, the
/// cursor, the filter state, whether the filter text is empty, and the matched positions
/// the list holds for the item's index while filtering.
#[derive(Debug, Clone)]
pub struct ItemContext {
    pub width: usize,
    pub cursor: usize,
    pub filter_state: FilterState,
    pub filter_empty: bool,
    pub matches: Option<Vec<usize>>,
}

/// Says how much room each item of a list takes and whether it may be removed.
pub trait ItemDelegate<I: Item> {
    /// The number of lines an item takes.
    spec fn spec_height(&self) -> usize;

    /// The number of blank lines between items.
    spec fn spec_spacing(&self) -> usize;

    /// Whether the item at `index` may be removed.
    spec fn spec_can_remove(&self, index: usize, item: I) -> bool;

    /// The number of lines an item takes.
    fn height(&self) -> (r: usize)
        ensures
            r == self.spec_height(),
    ;

    /// The number of blank lines between items.
    fn spacing(&self) -> (r: usize)
        ensures
            r == self.spec_spacing(),
    ;

    /// Whether the item at `index` may be removed.
    fn can_remove(&self, index: usize, item: &I) -> (r: bool)
        ensures
            r == self.spec_can_remove(index, *item),
    ;

    /// Called before the item at `index` is removed.
    fn on_remove(&self, index: usize, item: &I);

    /// The rendering of the item whose index among all items is `index`.
    fn render(&self, ctx: &ItemContext, index: usize, item: &I) -> String;

    /// Extra bindings for the short help; none unless the delegate has some.
    fn short_help(&self) -> (r: Vec<Binding>)
        default_ensures
            r@ == Seq::<Binding>::empty(),
    {
        Vec::new()
    }

    /// Extra bindings for the full help, in columns; none unless the delegate has some.
    fn full_help(&self) -> (r: Vec<Vec<Binding>>)
        default_ensures
            r@ == Seq::<Vec<Binding>>::empty(),
    {
        Vec::new()
    }
}

/// An item that passed the filter: its index among all items, a copy of it, and the
/// character positions that matched.
#[derive(Debug, Clone)]
pub struct FilteredItem<I: Item> {
    pub index: usize,
    pub item: I,
    pub matches: Vec<usize>,
}

/// Where the list is in filtering.
#[derive(Debug, Clone, Copy, PartialEq, Eq, Structural)]
pub enum FilterState {
    /// No filter.
    Unfiltered,
    /// The user is typing a filter.
    Filtering,
    /// A filter is applied.
    FilterApplied,
}

/// A summary of the filter state.
#[derive(Debug, Clone, PartialEq, Eq)]
pub struct FilterStateInfo {
    pub state: FilterState,
    pub query: String,
    pub match_count: usize,
    pub is_filtering: bool,
    pub is_clearing: bool,
}

} // verus!
