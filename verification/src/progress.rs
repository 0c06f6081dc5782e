//! The frame message of the animated progress bar, and which bar and animation it
//! belongs to. The bar itself animates in floating point and stands outside this
//! library.
use vstd::prelude::*;

verus! {

/// A request for the next animation frame of the bar with `id`, for the animation with
/// `tag`.
#[derive(Debug, Clone, Copy)]
pub struct FrameMsg {
    id: i64,
    tag: i64,
}

impl FrameMsg {
    /// A frame message for the bar `id` and animation `tag`.
    pub fn new(id: i64, tag: i64) -> (m: FrameMsg)
        ensures
            m.spec_id() == id,
            m.spec_tag() == tag,
    {
        FrameMsg { id, tag }
    }

    /// The bar the frame is for.
    pub closed spec fn spec_id(&self) -> i64 {
        self.id
    }

    /// The animation the frame is for.
    pub closed spec fn spec_tag(&self) -> i64 {
        self.tag
    }

    /// The bar the frame is for.
    pub fn id(&self) -> (r: i64)
        ensures
            r == self.spec_id(),
    {
        self.id
    }

    /// The animation the frame is for.
    pub fn tag(&self) -> (r: i64)
        ensures
            r == self.spec_tag(),
    {
        self.tag
    }

    /// Whether the frame belongs to the bar `id` in its current animation `tag`; a frame
    /// of another bar, or left over from an earlier animation, is ignored.
    pub fn is_for(&self, id: i64, tag: i64) -> (r: bool)
        ensures
            r == (self.spec_id() == id && self.spec_tag() == tag),
    {
        self.id == id && self.tag == tag
    }
}

/// The tag of the next animation: one more, wrapping at the end of the range.
pub fn next_tag(tag: i64) -> (r: i64)
    ensures
        tag < i64::MAX ==> r == tag + 1,
        tag == i64::MAX ==> r == i64::MIN,
{
    tag.wrapping_add(1)
}

} // verus!
