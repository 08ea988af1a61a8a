//! What holds of every aligned layout, whatever the child and the regions are.

use vstd::prelude::*;
use crate::align::{aligned, child_regions, AlignNode};
use crate::alignment::Align;
use crate::axes::{Axis, AxisPair};
use crate::constraints::Constrained;
use crate::frame::FrameView;
use crate::layout::Layout;
use crate::regions::Region;

verus! {

/// A node yields one result for each region, in the order of the regions: the result at a
/// place is the child's result at that place, aligned in the region at that place.
pub proof fn lemma_one_result_per_region<C: Layout>(node: AlignNode<C>, regions: Seq<Region>)
    ensures
        node.spec_layout(regions).len() == regions.len(),
        forall|i: int|
            0 <= i < regions.len() ==> #[trigger] node.spec_layout(regions)[i] == aligned(
                node.aligns,
                regions[i],
                node.child.spec_layout(child_regions(node.aligns, regions))[i],
            ),
{
}

/// Where a region expands along both axes and the node aligns along neither, the frame
/// has exactly the room of the region.
pub proof fn lemma_full_stretch<C: Layout>(node: AlignNode<C>, regions: Seq<Region>, i: int)
    requires
        0 <= i < regions.len(),
        regions[i].expand.x,
        regions[i].expand.y,
        node.aligns.x is None,
        node.aligns.y is None,
    ensures
        node.spec_layout(regions)[i].item.size == regions[i].current,
{
}

/// Along an aligned axis the frame keeps the size that the child came out with, however
/// much room the region has there, unless the region itself expands along that axis to a
/// different size.
pub proof fn lemma_no_stretch<C: Layout>(
    node: AlignNode<C>,
    regions: Seq<Region>,
    i: int,
    axis: Axis,
)
    requires
        0 <= i < regions.len(),
        node.aligns.spec_get(axis) is Some,
        regions[i].expand.spec_get(axis) ==> regions[i].current.spec_get(axis)
            == node.child.spec_layout(child_regions(node.aligns, regions))[i].item.size.spec_get(
            axis,
        ),
    ensures
        node.spec_layout(regions)[i].item.size.spec_get(axis) == node.child.spec_layout(
            child_regions(node.aligns, regions),
        )[i].item.size.spec_get(axis),
{
}

/// Aligning a result a second time, with the same alignment and in the same region, gives
/// the result of the first time: the same size, the same content at the same offsets, and
/// the same constraints.
pub proof fn lemma_align_idempotent(
    aligns: AxisPair<Option<Align>>,
    region: Region,
    child: Constrained<FrameView>,
)
    ensures
        aligned(aligns, region, aligned(aligns, region, child)) == aligned(
            aligns,
            region,
            child,
        ),
{
    let once = aligned(aligns, region, child);
    let twice = aligned(aligns, region, once);
    assert(twice.item.elements =~= once.item.elements);
}

/// A node wrapped in a second node with the same alignment is laid out as the node alone.
pub proof fn lemma_nested_align_idempotent<C: Layout>(
    outer: AlignNode<AlignNode<C>>,
    regions: Seq<Region>,
)
    requires
        outer.aligns == outer.child.aligns,
    ensures
        outer.spec_layout(regions) == outer.child.spec_layout(regions),
{
    let pod = child_regions(outer.aligns, regions);
    assert(child_regions(outer.aligns, pod) =~= pod);
    let inner = outer.child.child.spec_layout(pod);
    assert forall|i: int| 0 <= i < regions.len() implies outer.spec_layout(regions)[i]
        == outer.child.spec_layout(regions)[i] by {
        let once = aligned(outer.aligns, pod[i], inner[i]);
        let twice = aligned(outer.aligns, regions[i], once);
        let direct = aligned(outer.aligns, regions[i], inner[i]);
        assert(twice.item.elements =~= direct.item.elements);
    }
    assert(outer.spec_layout(regions) =~= outer.child.spec_layout(regions));
}

/// Along each axis along which a region expands, the result depends on the exact room of
/// the region along that axis. The converse does not hold: a result may depend on the room
/// along an axis without expansion, where the child's result did.
pub proof fn lemma_expand_sets_exact<C: Layout>(
    node: AlignNode<C>,
    regions: Seq<Region>,
    i: int,
    axis: Axis,
)
    requires
        0 <= i < regions.len(),
        regions[i].expand.spec_get(axis),
    ensures
        node.spec_layout(regions)[i].cts.exact.spec_get(axis) == Some(
            regions[i].current.spec_get(axis),
        ),
{
}

/// Dependencies are never invented: the result depends on the base size only along axes
/// where the child's result did, and on the exact room only along axes where the region
/// expands or the child's result did.
pub proof fn lemma_constraints_narrow<C: Layout>(
    node: AlignNode<C>,
    regions: Seq<Region>,
    i: int,
    axis: Axis,
)
    requires
        0 <= i < regions.len(),
    ensures
        node.spec_layout(regions)[i].cts.base.spec_get(axis) is Some <==> node.child.spec_layout(
            child_regions(node.aligns, regions),
        )[i].cts.base.spec_get(axis) is Some,
        node.spec_layout(regions)[i].cts.exact.spec_get(axis) is Some <==> regions[i].expand.spec_get(
            axis,
        ) || node.child.spec_layout(child_regions(node.aligns, regions))[i].cts.exact.spec_get(
            axis,
        ) is Some,
{
}

/// The constraints of a result are met by the region that the result was made for, so the
/// result can be used again for a region that is the same.
pub proof fn lemma_result_fits_its_region<C: Layout>(
    node: AlignNode<C>,
    regions: Seq<Region>,
    i: int,
)
    requires
        0 <= i < regions.len(),
    ensures
        node.spec_layout(regions)[i].cts.spec_check(regions[i]),
{
}

} // verus!
