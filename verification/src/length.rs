//! Lengths in layout units, with arithmetic that saturates instead of overflowing.

use vstd::prelude::*;

verus! {

/// A length, or a coordinate, in whole layout units.
pub type Length = i64;

/// The length nearest to `v` that a [`Length`] can hold.
pub open spec fn clamp(v: int) -> Length {
    if v < i64::MIN {
        i64::MIN
    } else if v > i64::MAX {
        i64::MAX
    } else {
        v as i64
    }
}

/// Half of `v`, rounded towards negative infinity.
pub open spec fn spec_half(v: Length) -> Length {
    (v as int / 2) as i64
}

/// The sum of two lengths, held at the nearest end of the range where it would leave it.
pub fn plus(a: Length, b: Length) -> (sum: Length)
    ensures
        sum == clamp(a + b),
{
    match a.checked_add(b) {
        Some(v) => v,
        None => if b > 0 {
            i64::MAX
        } else {
            i64::MIN
        },
    }
}

/// The difference of two lengths, held at the nearest end of the range where it would leave it.
pub fn minus(a: Length, b: Length) -> (diff: Length)
    ensures
        diff == clamp(a - b),
{
    match a.checked_sub(b) {
        Some(v) => v,
        None => if b < 0 {
            i64::MAX
        } else {
            i64::MIN
        },
    }
}

/// Half of a length, rounded towards negative infinity.
pub fn half(v: Length) -> (h: Length)
    ensures
        h == spec_half(v),
{
    if v >= 0 {
        v / 2
    } else {
        (v + 1) / 2 - 1
    }
}

} // verus!
