//! Modifier-key bit flags, with the values that terminal key events carry.
use vstd::prelude::*;

verus! {

/// No modifier held.
pub const NONE: u8 = 0;
/// Shift.
pub const SHIFT: u8 = 1;
/// Control.
pub const CONTROL: u8 = 2;
/// Alt.
pub const ALT: u8 = 4;
/// Super.
pub const SUPER: u8 = 8;
/// Hyper.
pub const HYPER: u8 = 16;
/// Meta.
pub const META: u8 = 32;

} // verus!
