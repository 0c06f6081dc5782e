//! A list of items with a cursor, pagination, fuzzy filtering and a status line.
use vstd::prelude::*;

pub mod defaultitem;
pub mod keys;
pub mod model;
pub mod simple;
pub mod style;
pub mod types;

pub use defaultitem::{DefaultDelegate, DefaultItem, DefaultItemStyles};
pub use style::ListStyles;
pub use keys::ListKeyMap;
pub use model::Model;
pub use types::{FilterState, FilterStateInfo, Item, ItemContext, ItemDelegate};

verus! {
} // verus!
