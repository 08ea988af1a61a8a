//! What every node that can be laid out offers.

use std::rc::Rc;
use vstd::prelude::*;
use crate::constraints::Constrained;
use crate::frame::{Frame, FrameView};
use crate::regions::Region;

verus! {

/// A node that can be laid out into a list of regions.
///
/// Layout has no hidden state: what comes out is a function of the node and the regions,
/// named by `spec_layout`.
pub trait Layout {
    /// The frames that the node yields for `regions`, one per region and in their order,
    /// each with the constraints under which it can be used again.
    spec fn spec_layout(&self, regions: Seq<Region>) -> Seq<Constrained<FrameView>>;

    /// Lays the node out into `regions`.
    fn layout(&self, regions: &[Region]) -> (frames: Vec<Constrained<Rc<Frame>>>)
        ensures
            frames@.len() == regions@.len(),
            forall|i: int|
                0 <= i < frames@.len() ==> (#[trigger] frames@[i])@ == self.spec_layout(
                    regions@,
                )[i],
    ;
}

} // verus!
