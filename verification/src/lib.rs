use vstd::prelude::*;

pub mod cursor;
pub mod filepicker;
pub mod help;
pub mod ids;
pub mod key;
pub mod list;
pub mod paginator;
pub mod progress;
pub mod runeutil;
pub mod spinner;
pub mod stopwatch;
pub mod style;
pub mod table;
pub mod text;
pub mod time;

verus! {
} // verus!
