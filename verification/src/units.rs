//! Fixed-point representation of protocol gain values.
//!
//! The control protocol carries linear gain as a number between 0.0 and 1.0,
//! with -1.0 reserved as a "value not yet known" sentinel. Inside this crate
//! every such quantity is held in fixed point: `UNIT` units stand for a gain
//! of 1.0, so the representable grid is fine enough that two distinct stored
//! values are always meaningfully different. Comparisons that would need a
//! rounding tolerance on a continuous scale collapse to exact equality on
//! this grid.

use vstd::prelude::*;

verus! {

/// Number of fixed-point units that stand for a protocol gain of 1.0.
pub const UNIT: i32 = 1_000_000;

/// Sentinel for a state field that has not yet been reported by the device;
/// mirrors the protocol's -1.0 marker.
pub const UNKNOWN: i32 = -1_000_000;

/// Largest accepted coarse step size: a gain of 0.10.
pub const MAX_INCREMENT: i32 = 100_000;

/// Largest accepted fine step size: a gain of 0.05.
pub const MAX_FINE_INCREMENT: i32 = 50_000;

/// Tolerant equality between two stored gain values. On the fixed-point grid
/// every representable difference is at least one whole unit, so a tolerance
/// smaller than the grid step is exact equality.
pub fn roughly_eq(a: i32, b: i32) -> (r: bool)
    ensures
        r == (a == b),
{
    a == b
}

/// Negation of [`roughly_eq`].
pub fn roughly_ne(a: i32, b: i32) -> (r: bool)
    ensures
        r == (a != b),
{
    a != b
}

/// Tolerant comparison of gain values, offered as a trait so call sites read
/// the same over any representation of a gain.
pub trait RoughEq<T>: Sized {
    fn roughly_eq(&self, other: T) -> bool;

    fn roughly_ne(&self, other: T) -> bool;
}

impl RoughEq<i32> for i32 {
    fn roughly_eq(&self, other: i32) -> (r: bool)
        ensures
            r == (*self == other),
    {
        *self == other
    }

    fn roughly_ne(&self, other: i32) -> (r: bool)
        ensures
            r == (*self != other),
    {
        *self != other
    }
}

} // verus!
