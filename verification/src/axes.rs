//! Values that come in pairs, one for each layout axis.

use vstd::prelude::*;
use crate::length::{clamp, minus, plus, Length};

verus! {

/// The two axes along which content is laid out.
#[derive(Debug, Clone, Copy, PartialEq, Eq, Structural, Hash)]
pub enum Axis {
    /// The axis that runs from left to right.
    Horizontal,
    /// The axis that runs from top to bottom.
    Vertical,
}

/// A pair of values, one for the horizontal and one for the vertical axis.
#[derive(Debug, PartialEq, Eq, Hash)]
pub struct AxisPair<T> {
    /// The value for the horizontal axis.
    pub x: T,
    /// The value for the vertical axis.
    pub y: T,
}

impl<T: Copy> Clone for AxisPair<T> {
    fn clone(&self) -> (copy: AxisPair<T>)
        ensures
            copy == *self,
    {
        *self
    }
}

impl<T: Copy> Copy for AxisPair<T> {}

/// A width and a height.
pub type Size = AxisPair<Length>;

/// A horizontal and a vertical offset.
pub type Point = AxisPair<Length>;

impl<T> AxisPair<T> {
    /// The value that the pair holds for `axis`.
    pub open spec fn spec_get(self, axis: Axis) -> T {
        match axis {
            Axis::Horizontal => self.x,
            Axis::Vertical => self.y,
        }
    }

    /// The pair with the value for `axis` replaced by `value`.
    pub open spec fn spec_set(self, axis: Axis, value: T) -> AxisPair<T> {
        match axis {
            Axis::Horizontal => AxisPair { x: value, y: self.y },
            Axis::Vertical => AxisPair { x: self.x, y: value },
        }
    }

    /// Per axis, the value of the pair where `mask` is set, and nothing where it is not.
    pub open spec fn spec_filter(self, mask: AxisPair<bool>) -> AxisPair<Option<T>> {
        AxisPair {
            x: if mask.x { Some(self.x) } else { None },
            y: if mask.y { Some(self.y) } else { None },
        }
    }

    /// Per axis, the value of the pair, marked as present.
    pub open spec fn spec_present(self) -> AxisPair<Option<T>> {
        AxisPair { x: Some(self.x), y: Some(self.y) }
    }

    /// Makes a pair from its two values.
    pub fn new(x: T, y: T) -> (pair: AxisPair<T>)
        ensures
            pair == (AxisPair { x, y }),
    {
        AxisPair { x, y }
    }

    /// Replaces the value for `axis` and leaves the other axis as it was.
    pub fn set(&mut self, axis: Axis, value: T)
        ensures
            *final(self) == old(self).spec_set(axis, value),
    {
        match axis {
            Axis::Horizontal => {
                self.x = value;
            },
            Axis::Vertical => {
                self.y = value;
            },
        }
    }

    /// Applies `f` to the value of each axis, horizontal first.
    pub fn map<U, F: Fn(T) -> U>(self, f: F) -> (pair: AxisPair<U>)
        requires
            f.requires((self.x,)),
            f.requires((self.y,)),
        ensures
            f.ensures((self.x,), pair.x),
            f.ensures((self.y,), pair.y),
    {
        let x = f(self.x);
        let y = f(self.y);
        AxisPair { x, y }
    }

    /// Keeps the value of each axis on which `mask` is set and drops the others.
    pub fn filter(self, mask: AxisPair<bool>) -> (kept: AxisPair<Option<T>>)
        ensures
            kept == self.spec_filter(mask),
    {
        AxisPair {
            x: if mask.x { Some(self.x) } else { None },
            y: if mask.y { Some(self.y) } else { None },
        }
    }
}

impl<T> AxisPair<Option<T>> {
    /// Per axis, whether the pair holds no value there.
    pub open spec fn spec_map_is_none(self) -> AxisPair<bool> {
        AxisPair { x: self.x is None, y: self.y is None }
    }

    /// Per axis, whether the pair holds a value there.
    pub open spec fn spec_map_is_some(self) -> AxisPair<bool> {
        AxisPair { x: self.x is Some, y: self.y is Some }
    }

    /// Per axis, the value that the pair holds, or that of `default` where it holds none.
    pub open spec fn spec_unwrap_or(self, default: AxisPair<T>) -> AxisPair<T> {
        AxisPair {
            x: match self.x {
                Some(v) => v,
                None => default.x,
            },
            y: match self.y {
                Some(v) => v,
                None => default.y,
            },
        }
    }

    /// Per axis, the value that the pair holds, or that of `fallback` where it holds none,
    /// which may be none again.
    pub open spec fn spec_merge(self, fallback: AxisPair<Option<T>>) -> AxisPair<Option<T>> {
        AxisPair {
            x: if self.x is Some { self.x } else { fallback.x },
            y: if self.y is Some { self.y } else { fallback.y },
        }
    }

    /// Tells for each axis whether no value is present on it.
    pub fn map_is_none(&self) -> (absent: AxisPair<bool>)
        ensures
            absent == self.spec_map_is_none(),
    {
        AxisPair { x: self.x.is_none(), y: self.y.is_none() }
    }

    /// Tells for each axis whether a value is present on it.
    pub fn map_is_some(&self) -> (present: AxisPair<bool>)
        ensures
            present == self.spec_map_is_some(),
    {
        AxisPair { x: self.x.is_some(), y: self.y.is_some() }
    }

    /// Merges two partly filled pairs: each axis keeps its value, and an axis without one
    /// takes what `fallback` has for it.
    pub fn merge(self, fallback: AxisPair<Option<T>>) -> (merged: AxisPair<Option<T>>)
        ensures
            merged == self.spec_merge(fallback),
    {
        AxisPair {
            x: if self.x.is_some() { self.x } else { fallback.x },
            y: if self.y.is_some() { self.y } else { fallback.y },
        }
    }

    /// Fills each axis that holds no value with the value of `default` for that axis.
    pub fn unwrap_or(self, default: AxisPair<T>) -> (filled: AxisPair<T>)
        ensures
            filled == self.spec_unwrap_or(default),
    {
        AxisPair {
            x: match self.x {
                Some(v) => v,
                None => default.x,
            },
            y: match self.y {
                Some(v) => v,
                None => default.y,
            },
        }
    }
}

impl AxisPair<bool> {
    /// Per axis, the value of `t` where the pair is set and that of `f` where it is not.
    pub open spec fn spec_select<T>(self, t: AxisPair<T>, f: AxisPair<T>) -> AxisPair<T> {
        AxisPair { x: if self.x { t.x } else { f.x }, y: if self.y { t.y } else { f.y } }
    }

    /// Per axis, whether both pairs are set.
    pub open spec fn spec_and(self, other: AxisPair<bool>) -> AxisPair<bool> {
        AxisPair { x: self.x && other.x, y: self.y && other.y }
    }

    /// Per axis, whether at least one of the pairs is set.
    pub open spec fn spec_or(self, other: AxisPair<bool>) -> AxisPair<bool> {
        AxisPair { x: self.x || other.x, y: self.y || other.y }
    }

    /// Picks for each axis the value of `t` where the pair is set, and that of `f` elsewhere.
    pub fn select<T>(self, t: AxisPair<T>, f: AxisPair<T>) -> (picked: AxisPair<T>)
        ensures
            picked == self.spec_select(t, f),
    {
        AxisPair { x: if self.x { t.x } else { f.x }, y: if self.y { t.y } else { f.y } }
    }

    /// The conjunction of two pairs of flags, axis by axis.
    pub fn and(self, other: AxisPair<bool>) -> (both: AxisPair<bool>)
        ensures
            both == self.spec_and(other),
    {
        AxisPair { x: self.x && other.x, y: self.y && other.y }
    }

    /// The disjunction of two pairs of flags, axis by axis.
    pub fn or(self, other: AxisPair<bool>) -> (either: AxisPair<bool>)
        ensures
            either == self.spec_or(other),
    {
        AxisPair { x: self.x || other.x, y: self.y || other.y }
    }
}

impl AxisPair<Length> {
    /// The sum of two pairs of lengths, axis by axis, each axis saturating by itself.
    pub open spec fn spec_plus(self, other: AxisPair<Length>) -> AxisPair<Length> {
        AxisPair { x: clamp(self.x + other.x), y: clamp(self.y + other.y) }
    }

    /// The difference of two pairs of lengths, axis by axis, each axis saturating by itself.
    pub open spec fn spec_minus(self, other: AxisPair<Length>) -> AxisPair<Length> {
        AxisPair { x: clamp(self.x - other.x), y: clamp(self.y - other.y) }
    }

    /// Adds `other` to the pair, axis by axis.
    pub fn plus(self, other: AxisPair<Length>) -> (sum: AxisPair<Length>)
        ensures
            sum == self.spec_plus(other),
    {
        AxisPair { x: plus(self.x, other.x), y: plus(self.y, other.y) }
    }

    /// Subtracts `other` from the pair, axis by axis.
    pub fn minus(self, other: AxisPair<Length>) -> (diff: AxisPair<Length>)
        ensures
            diff == self.spec_minus(other),
    {
        AxisPair { x: minus(self.x, other.x), y: minus(self.y, other.y) }
    }
}

} // verus!
