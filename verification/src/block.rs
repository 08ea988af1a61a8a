//! The simplest node there is: one piece of content in a box.

use std::rc::Rc;
use vstd::prelude::*;
use crate::axes::{AxisPair, Size};
use crate::constraints::{Constrained, Constraints};
use crate::frame::{Element, Frame, FrameView};
use crate::layout::Layout;
use crate::regions::Region;

verus! {

/// A box around one piece of content. The box has a size of its own, and stretches along
/// each axis along which a region expands; the content stays in its top left corner.
#[derive(Debug, Clone, Copy, PartialEq, Eq, Hash)]
pub struct BoxNode {
    /// The size of the box where nothing stretches it.
    pub size: Size,
    /// The content.
    pub content: Element,
}

impl BoxNode {
    /// The frame for one region and what it depends on: the expansion flags, and the room
    /// of the region along the axes along which the box fills it.
    pub open spec fn spec_frame(self, region: Region) -> Constrained<FrameView> {
        Constrained {
            item: FrameView {
                size: region.expand.spec_select(region.current, self.size),
                elements: seq![(AxisPair { x: 0i64, y: 0i64 }, self.content)],
            },
            cts: Constraints {
                expand: region.expand,
                base: AxisPair { x: None, y: None },
                exact: region.current.spec_filter(region.expand),
            },
        }
    }

    /// Makes a box of the given size around `content`.
    pub fn new(size: Size, content: Element) -> (node: BoxNode)
        ensures
            node == (BoxNode { size, content }),
    {
        BoxNode { size, content }
    }
}

impl Layout for BoxNode {
    /// One box for each region.
    open spec fn spec_layout(&self, regions: Seq<Region>) -> Seq<Constrained<FrameView>> {
        Seq::new(regions.len(), |i: int| self.spec_frame(regions[i]))
    }

    /// Makes the box for each region in turn.
    fn layout(&self, regions: &[Region]) -> (frames: Vec<Constrained<Rc<Frame>>>)
        ensures
            frames@.len() == regions@.len(),
            forall|i: int|
                0 <= i < frames@.len() ==> (#[trigger] frames@[i])@ == self.spec_frame(
                    regions@[i],
                ),
    {
        let mut frames: Vec<Constrained<Rc<Frame>>> = Vec::with_capacity(regions.len());
        let mut i: usize = 0;
        while i < regions.len()
            invariant
                i <= regions@.len(),
                frames@.len() == i,
                forall|j: int|
                    0 <= j < i ==> (#[trigger] frames@[j])@ == self.spec_frame(regions@[j]),
            decreases regions@.len() - i,
        {
            let region = regions[i];
            let mut frame = Frame::new(region.expand.select(region.current, self.size));
            frame.push(AxisPair::new(0, 0), self.content);
            let mut cts = Constraints::new(region.expand);
            cts.exact = region.current.filter(region.expand);
            frames.push(Constrained { item: Rc::new(frame), cts });
            i += 1;
        }
        frames
    }
}

} // verus!
