//! A point in three-dimensional space, in meters.
//!
//! Each coordinate is the bit pattern of an IEEE-754 binary64 value.
use vstd::prelude::*;

use crate::scalar::{bits_add, bits_mul, bits_sqrt, bits_sub};
use crate::scalar::{diff_bits, prod_bits, sqrt_bits, sum_bits};
use crate::scalar::{is_finite_bits, POS_ZERO};

verus! {

/// A 3D coordinate. Immutable value type.
#[derive(Clone, Copy, PartialEq, Eq, Structural, Debug)]
pub struct Point {
    pub x: u64,
    pub y: u64,
    pub z: u64,
}

/// All three coordinates are finite.
pub open spec fn finite_point(p: Point) -> bool {
    is_finite_bits(p.x) && is_finite_bits(p.y) && is_finite_bits(p.z)
}

/// The square of a scalar, written as a self-product.
pub open spec fn square_bits(a: u64) -> u64 {
    prod_bits(a, a)
}

/// The Euclidean distance between two points, computed coordinate by
/// coordinate exactly as [`Point::distance`] computes it:
/// `sqrt((a.x-b.x)^2 + (a.y-b.y)^2 + (a.z-b.z)^2)`, each operation a
/// binary64 operation on bit patterns.
pub open spec fn spec_distance(a: Point, b: Point) -> u64 {
    sqrt_bits(
        sum_bits(
            sum_bits(square_bits(diff_bits(a.x, b.x)), square_bits(diff_bits(a.y, b.y))),
            square_bits(diff_bits(a.z, b.z)),
        ),
    )
}

impl Point {
    /// Builds the point with the given coordinate bit patterns.
    pub fn new(x: u64, y: u64, z: u64) -> (p: Point)
        ensures
            p == (Point { x, y, z }),
    {
        Point { x, y, z }
    }

    /// Calculate the distance to another point.
    ///
    /// The distance from a point to itself is exactly positive zero when the
    /// coordinates are finite; this is what lets a body's interaction with
    /// itself, and with a body at the same position, contribute no force.
    pub fn distance(&self, other: &Point) -> (r: u64)
        ensures
            r == spec_distance(*self, *other),
            *self == *other && finite_point(*self) ==> r == POS_ZERO,
    {
        let dx = bits_sub(self.x, other.x);
        let dy = bits_sub(self.y, other.y);
        let dz = bits_sub(self.z, other.z);
        let sq = bits_add(bits_add(bits_mul(dx, dx), bits_mul(dy, dy)), bits_mul(dz, dz));
        bits_sqrt(sq)
    }
}

} // verus!
