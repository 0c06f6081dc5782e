//! Identifiers that tell the messages of one widget instance from another's.
use vstd::prelude::*;

verus! {

/// Calls `bubbletea_rs::event::next_timer_id()`, a process-wide counter that hands out
/// a different number on each call. Nothing is claimed of the number.
#[verifier::external_body]
pub(crate) fn next_id() -> u64 {
    bubbletea_rs::event::next_timer_id()
}

} // verus!
