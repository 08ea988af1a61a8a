//! The node that aligns its child in the regions it is given.

use std::rc::Rc;
use vstd::prelude::*;
use crate::alignment::Align;
use crate::args::{found_aligns, spec_body, without_aligns, without_body, Args, ArgumentError};
use crate::axes::{AxisPair, Size};
use crate::constraints::{Constrained, Constraints};
use crate::frame::{Frame, FrameView};
use crate::layout::Layout;
use crate::regions::Region;
use crate::style::Styles;

verus! {

/// A node that aligns its child.
#[derive(Debug, Hash)]
pub struct AlignNode<C> {
    /// How to align the child horizontally and vertically. An axis without a value is not
    /// aligned: the child fills it where the region asks for that.
    pub aligns: AxisPair<Option<Align>>,
    /// The node to be aligned.
    pub child: C,
}

/// What a call of `align` in a document stands for: the body, aligned, and the style
/// properties that hold inside it.
#[derive(Debug, Hash)]
pub struct StyledBlock<C> {
    /// The properties that the body is styled with.
    pub styles: Styles,
    /// The body inside the node that aligns it.
    pub node: AlignNode<C>,
}

/// The alignment that a call requests: that of its first argument with the shape of an
/// alignment, and none along either axis where there is no such argument.
pub open spec fn requested_aligns<C>(args: Args<C>) -> AxisPair<Option<Align>> {
    match found_aligns(args.items@) {
        Some(aligns) => aligns,
        None => AxisPair { x: None, y: None },
    }
}

/// What a call with the arguments `args` yields. The body is the first argument that is
/// left when the alignment has been taken. The paragraph alignment is set to the
/// horizontal alignment where one is requested.
pub open spec fn spec_align<C>(args: Args<C>) -> Result<StyledBlock<C>, ArgumentError> {
    match spec_body(without_aligns(args.items@)) {
        Ok(body) => Ok(
            StyledBlock {
                styles: Styles { par_align: requested_aligns(args).x },
                node: AlignNode { aligns: requested_aligns(args), child: body },
            },
        ),
        Err(error) => Err(error),
    }
}

/// `align`: Configure the alignment along the layouting axes.
///
/// Takes an alignment along one axis or along both, or none at all, and the body, from
/// `args`. What else `args` holds is left there.
pub fn align<C>(args: &mut Args<C>) -> (block: Result<StyledBlock<C>, ArgumentError>)
    ensures
        block == spec_align(*old(args)),
        final(args).items@ == without_body(without_aligns(old(args).items@)),
{
    let aligns = match args.find_aligns() {
        Some(aligns) => aligns,
        None => AxisPair::new(None, None),
    };
    let body = match args.expect_body() {
        Ok(body) => body,
        Err(error) => {
            return Err(error);
        },
    };

    let mut styles = Styles::new();
    if let Some(align) = aligns.x {
        styles.set_par_align(align);
    }

    Ok(StyledBlock { styles, node: AlignNode { aligns, child: body } })
}

/// The region that the child is laid out into: the given one, but without expansion along
/// the axes that are aligned. A child that is to be placed must keep its own size there.
pub open spec fn child_region(aligns: AxisPair<Option<Align>>, region: Region) -> Region {
    Region {
        current: region.current,
        base: region.base,
        expand: region.expand.spec_and(aligns.spec_map_is_none()),
    }
}

/// The regions that the child is laid out into, one for each of the given regions.
pub open spec fn child_regions(aligns: AxisPair<Option<Align>>, regions: Seq<Region>) -> Seq<
    Region,
> {
    Seq::new(regions.len(), |i: int| child_region(aligns, regions[i]))
}

/// The size of the aligned frame: along each axis the room of the region where the region
/// expands, and the size that the child came out with where it does not.
pub open spec fn target_size(region: Region, natural: Size) -> Size {
    region.expand.spec_select(region.current, natural)
}

/// The alignment that is applied: the requested one, and the start of each axis for which
/// none was requested.
pub open spec fn effective_aligns(aligns: AxisPair<Option<Align>>) -> AxisPair<Align> {
    aligns.spec_unwrap_or(AxisPair { x: Align::Left, y: Align::Top })
}

/// The frame of the child, resized to the target size for `region` and with its content
/// placed in there as `aligns` asks.
pub open spec fn aligned_frame(
    aligns: AxisPair<Option<Align>>,
    region: Region,
    frame: FrameView,
) -> FrameView {
    frame.resized(target_size(region, frame.size), effective_aligns(aligns))
}

/// What the aligned frame depends on. It always depends on the expansion flags of the
/// region. It depends on the base size along the axes where the child did. It depends on
/// the exact room along the axes where the region expands or the child depended on it.
pub open spec fn aligned_constraints(region: Region, child: Constraints) -> Constraints {
    Constraints {
        expand: region.expand,
        base: region.base.spec_filter(child.base.spec_map_is_some()),
        exact: region.current.spec_filter(
            region.expand.spec_or(child.exact.spec_map_is_some()),
        ),
    }
}

/// The result of aligning what the child yielded for the region derived from `region`.
pub open spec fn aligned(
    aligns: AxisPair<Option<Align>>,
    region: Region,
    child: Constrained<FrameView>,
) -> Constrained<FrameView> {
    Constrained {
        item: aligned_frame(aligns, region, child.item),
        cts: aligned_constraints(region, child.cts),
    }
}

/// Aligns one result of the child in the region that it was made for.
///
/// The frame is not changed where it is: if anyone else still holds it, they keep it as it
/// was, and the aligned frame is a new one.
pub fn align_in_region(
    aligns: AxisPair<Option<Align>>,
    region: &Region,
    child: Constrained<Rc<Frame>>,
) -> (out: Constrained<Rc<Frame>>)
    ensures
        out@ == aligned(aligns, *region, child@),
{
    let Constrained { item, cts } = child;
    let mut frame = Frame::into_unique(item);
    let target = region.expand.select(region.current, frame.size);
    let default = AxisPair::new(Align::Left, Align::Top);
    frame.resize(target, aligns.unwrap_or(default));
    let cts = Constraints {
        expand: region.expand,
        base: region.base.filter(cts.base.map_is_some()),
        exact: region.current.filter(region.expand.or(cts.exact.map_is_some())),
    };
    Constrained { item: Rc::new(frame), cts }
}

impl<C> AlignNode<C> {
    /// Derives the regions for the child: expansion is switched off along each axis that
    /// is aligned and left as it is along the others.
    pub fn child_regions(&self, regions: &[Region]) -> (pod: Vec<Region>)
        ensures
            pod@ == child_regions(self.aligns, regions@),
    {
        let keep = self.aligns.map_is_none();
        let mut pod: Vec<Region> = Vec::with_capacity(regions.len());
        let mut i: usize = 0;
        while i < regions.len()
            invariant
                i <= regions@.len(),
                keep == self.aligns.spec_map_is_none(),
                pod@.len() == i,
                forall|j: int| 0 <= j < i ==> pod@[j] == child_region(self.aligns, regions@[j]),
            decreases regions@.len() - i,
        {
            let region = regions[i];
            pod.push(Region::new(region.current, region.base, region.expand.and(keep)));
            i += 1;
        }
        assert(pod@ =~= child_regions(self.aligns, regions@));
        pod
    }
}

impl<C: Layout> Layout for AlignNode<C> {
    /// The child's frames for the derived regions, each aligned in its own region.
    open spec fn spec_layout(&self, regions: Seq<Region>) -> Seq<Constrained<FrameView>> {
        let inner = self.child.spec_layout(child_regions(self.aligns, regions));
        Seq::new(regions.len(), |i: int| aligned(self.aligns, regions[i], inner[i]))
    }

    /// Lays the child out into the derived regions and aligns each of its frames in the
    /// region at the same place.
    fn layout(&self, regions: &[Region]) -> (frames: Vec<Constrained<Rc<Frame>>>)
        ensures
            frames@.len() == regions@.len(),
            forall|i: int|
                0 <= i < frames@.len() ==> (#[trigger] frames@[i])@ == aligned(
                    self.aligns,
                    regions@[i],
                    self.child.spec_layout(child_regions(self.aligns, regions@))[i],
                ),
    {
        // The child only needs to expand along an axis if there's no alignment.
        let pod = self.child_regions(regions);
        let inner = self.child.layout(pod.as_slice());

        let ghost laid = inner@;
        let mut frames: Vec<Constrained<Rc<Frame>>> = Vec::with_capacity(regions.len());
        for child in it: inner
            invariant
                it.seq() == laid,
                laid.len() == regions@.len(),
                frames@.len() == it.index(),
                forall|j: int|
                    0 <= j < it.index() ==> (#[trigger] frames@[j])@ == aligned(
                        self.aligns,
                        regions@[j],
                        laid[j]@,
                    ),
        {
            let placed = align_in_region(self.aligns, &regions[frames.len()], child);
            frames.push(placed);
        }
        frames
    }
}

} // verus!
