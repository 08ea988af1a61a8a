//! Where content sits along an axis when there is room to spare.

use vstd::prelude::*;
use crate::axes::Axis;
use crate::length::{half, spec_half, Length};

verus! {

/// An alignment along one axis. Each value belongs to the axis it is named for.
#[derive(Debug, Clone, Copy, PartialEq, Eq, Structural, Hash)]
pub enum Align {
    /// Against the left edge.
    Left,
    /// Midway between the left and the right edge.
    Center,
    /// Against the right edge.
    Right,
    /// Against the top edge.
    Top,
    /// Midway between the top and the bottom edge.
    Horizon,
    /// Against the bottom edge.
    Bottom,
}

impl Align {
    /// The axis that the alignment belongs to.
    pub open spec fn spec_axis(self) -> Axis {
        match self {
            Align::Left | Align::Center | Align::Right => Axis::Horizontal,
            Align::Top | Align::Horizon | Align::Bottom => Axis::Vertical,
        }
    }

    /// How far content moves from the start of its axis when `slack` is to spare: not at all
    /// at the start, by the whole slack at the end, by half of it in the middle.
    pub open spec fn spec_resolve(self, slack: Length) -> Length {
        match self {
            Align::Left | Align::Top => 0,
            Align::Center | Align::Horizon => spec_half(slack),
            Align::Right | Align::Bottom => slack,
        }
    }

    /// The axis that the alignment belongs to.
    pub fn axis(self) -> (axis: Axis)
        ensures
            axis == self.spec_axis(),
    {
        match self {
            Align::Left | Align::Center | Align::Right => Axis::Horizontal,
            Align::Top | Align::Horizon | Align::Bottom => Axis::Vertical,
        }
    }

    /// The offset from the start of the axis at which content is placed when `slack` is the
    /// room that it leaves free.
    pub fn resolve(self, slack: Length) -> (offset: Length)
        ensures
            offset == self.spec_resolve(slack),
    {
        match self {
            Align::Left | Align::Top => 0,
            Align::Center | Align::Horizon => half(slack),
            Align::Right | Align::Bottom => slack,
        }
    }
}

} // verus!
