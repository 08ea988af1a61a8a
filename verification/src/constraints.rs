//! What a layout result depends on, so that it can be used again where nothing it depends
//! on has changed.

use vstd::prelude::*;
use crate::axes::AxisPair;
use crate::length::Length;
use crate::regions::Region;

verus! {

/// The properties of a region on which a layout result depends.
#[derive(Debug, Clone, Copy, PartialEq, Eq, Hash)]
pub struct Constraints {
    /// The expansion flags of the region. A result always depends on them.
    pub expand: AxisPair<bool>,
    /// Per axis, the base size of the region where the result depends on it.
    pub base: AxisPair<Option<Length>>,
    /// Per axis, the room in the region where the result depends on exactly that much.
    pub exact: AxisPair<Option<Length>>,
}

/// A layout result together with what it depends on.
#[derive(Debug, PartialEq, Eq, Hash)]
pub struct Constrained<T> {
    /// The result.
    pub item: T,
    /// The properties of the region that the result depends on.
    pub cts: Constraints,
}

impl<T: View> View for Constrained<T> {
    type V = Constrained<T::V>;

    open spec fn view(&self) -> Constrained<T::V> {
        Constrained { item: self.item@, cts: self.cts }
    }
}

/// Whether a recorded dependency is met by the value that a region has: none recorded is
/// always met, one recorded only by the same value.
pub open spec fn spec_met(recorded: Option<Length>, actual: Length) -> bool {
    match recorded {
        Some(v) => v == actual,
        None => true,
    }
}

fn met(recorded: Option<Length>, actual: Length) -> (ok: bool)
    ensures
        ok == spec_met(recorded, actual),
{
    match recorded {
        Some(v) => v == actual,
        None => true,
    }
}

impl Constraints {
    /// The constraints of a result that depends on nothing but the expansion flags.
    pub open spec fn spec_new(expand: AxisPair<bool>) -> Constraints {
        Constraints {
            expand,
            base: AxisPair { x: None, y: None },
            exact: AxisPair { x: None, y: None },
        }
    }

    /// Whether every recorded dependency has in `region` the value that was recorded.
    pub open spec fn spec_check(self, region: Region) -> bool {
        &&& self.expand == region.expand
        &&& spec_met(self.base.x, region.base.x)
        &&& spec_met(self.base.y, region.base.y)
        &&& spec_met(self.exact.x, region.current.x)
        &&& spec_met(self.exact.y, region.current.y)
    }

    /// Makes the constraints of a result that depends on nothing but the expansion flags.
    pub fn new(expand: AxisPair<bool>) -> (cts: Constraints)
        ensures
            cts == Constraints::spec_new(expand),
    {
        Constraints {
            expand,
            base: AxisPair { x: None, y: None },
            exact: AxisPair { x: None, y: None },
        }
    }

    /// Tells whether a result with these constraints can be used again for `region`: it can
    /// where the expansion flags are the same and each recorded size is unchanged.
    pub fn check(&self, region: &Region) -> (ok: bool)
        ensures
            ok == self.spec_check(*region),
    {
        self.expand.x == region.expand.x && self.expand.y == region.expand.y
            && met(self.base.x, region.base.x) && met(self.base.y, region.base.y)
            && met(self.exact.x, region.current.x) && met(self.exact.y, region.current.y)
    }
}

} // verus!
