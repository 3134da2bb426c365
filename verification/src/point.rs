//! Integer grid points, with the vector arithmetic done by glam.

use vstd::prelude::*;

verus! {

/// A cell of the play grid. `y` grows downwards, as on a terminal.
#[derive(Debug, Copy, Clone, PartialEq, Eq, Structural)]
pub struct Point {
    pub x: i32,
    pub y: i32,
}

/// Whether `v` can be held in an `i32`.
pub open spec fn fits_i32(v: int) -> bool {
    i32::MIN <= v <= i32::MAX
}

impl Point {
    pub fn new(x: i32, y: i32) -> (p: Point)
        ensures
            p.x == x,
            p.y == y,
    {
        Point { x, y }
    }

    /// The point moved by `delta`, seen as a vector.
    pub fn plus(self, delta: Point) -> (p: Point)
        requires
            fits_i32(self.x + delta.x),
            fits_i32(self.y + delta.y),
        ensures
            p.x == self.x + delta.x,
            p.y == self.y + delta.y,
    {
        vec_add(self, delta)
    }
}

/// Trusted: glam's `IVec2 + IVec2`, which adds the two `x` and the two `y`
/// with `i32` addition. The contract leaves out the sums that do not fit,
/// on which that addition may panic.
#[verifier::external_body]
pub(crate) fn vec_add(a: Point, b: Point) -> (r: Point)
    requires
        fits_i32(a.x + b.x),
        fits_i32(a.y + b.y),
    ensures
        r.x == a.x + b.x,
        r.y == a.y + b.y,
{
    let v = glam::IVec2::new(a.x, a.y) + glam::IVec2::new(b.x, b.y);
    Point { x: v.x, y: v.y }
}

/// Trusted: glam's `IVec2 - IVec2`, which subtracts the two `x` and the two
/// `y` with `i32` subtraction. The contract leaves out the differences that
/// do not fit.
#[verifier::external_body]
pub(crate) fn vec_sub(a: Point, b: Point) -> (r: Point)
    requires
        fits_i32(a.x - b.x),
        fits_i32(a.y - b.y),
    ensures
        r.x == a.x - b.x,
        r.y == a.y - b.y,
{
    let v = glam::IVec2::new(a.x, a.y) - glam::IVec2::new(b.x, b.y);
    Point { x: v.x, y: v.y }
}

/// Trusted: glam's `i32 * IVec2`, which multiplies each coordinate by the
/// scalar with `i32` multiplication. The contract leaves out the products
/// that do not fit.
#[verifier::external_body]
pub(crate) fn vec_scale(k: i32, a: Point) -> (r: Point)
    requires
        fits_i32(k * a.x),
        fits_i32(k * a.y),
    ensures
        r.x == k * a.x,
        r.y == k * a.y,
{
    let v = k * glam::IVec2::new(a.x, a.y);
    Point { x: v.x, y: v.y }
}

} // verus!
