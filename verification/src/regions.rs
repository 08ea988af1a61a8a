//! The areas that a layout pass offers to a node.

use vstd::prelude::*;
use crate::axes::{AxisPair, Size};

verus! {

/// One area into which content can be laid out.
#[derive(Debug, Clone, Copy, PartialEq, Eq, Hash)]
pub struct Region {
    /// The room that is left in the area.
    pub current: Size,
    /// The size that relative sizes refer to, and that content falls back to when it is
    /// wrapped tightly.
    pub base: Size,
    /// Per axis, whether content should stretch to fill `current` instead of keeping its
    /// own size.
    pub expand: AxisPair<bool>,
}

impl Region {
    /// Makes a region of the given room, base size and expansion flags.
    pub fn new(current: Size, base: Size, expand: AxisPair<bool>) -> (region: Region)
        ensures
            region == (Region { current, base, expand }),
    {
        Region { current, base, expand }
    }
}

} // verus!
