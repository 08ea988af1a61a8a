//! Alignment of a single child inside the regions offered by a layout pass.
//!
//! A layout pass hands a node a list of regions and gets back one frame per region, each
//! with the constraints under which it may be used again. The node in `align` wraps a
//! child: it decides per axis whether the child stretches to fill a region or keeps its
//! own size, lays the child out, fits the child's frame into the room it is due, and
//! records what the outcome depends on. `laws` states what holds of every such layout.
//!
//! The other modules hold what the node works with: lengths and pairs of values per axis,
//! alignments, frames, regions, constraints, the trait that every node implements, a
//! plain box to put into a layout, and the arguments and styles of a call in a document.

pub mod align;
pub mod alignment;
pub mod args;
pub mod axes;
pub mod block;
pub mod constraints;
pub mod frame;
pub mod laws;
pub mod layout;
pub mod length;
pub mod regions;
pub mod style;
