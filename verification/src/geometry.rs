//! Points on the drawing plane and the little geometry the builders need.

use vstd::prelude::*;

verus! {

/// A position in the 3D scene, in fixed integer drawing units.
///
/// The `y` axis is the "up" axis; clicked points come projected onto the
/// ground plane, and rectangle corners normalize `y` to 0 where a corner is
/// computed rather than clicked.
#[derive(Clone, Copy, Debug, PartialEq, Eq, Structural)]
pub struct Point3 {
    pub x: i32,
    pub y: i32,
    pub z: i32,
}

/// The squared Euclidean distance between two points, as a mathematical
/// integer. Circles record this exact quantity instead of the (generally
/// irrational) distance itself; a renderer takes the square root.
pub open spec fn dist_sq(a: Point3, b: Point3) -> int {
    (a.x - b.x) * (a.x - b.x) + (a.y - b.y) * (a.y - b.y) + (a.z - b.z) * (a.z - b.z)
}

/// One squared coordinate difference, used to bound the sum below.
proof fn lemma_sq_diff_bounds(u: int, v: int)
    requires
        i32::MIN <= u <= i32::MAX,
        i32::MIN <= v <= i32::MAX,
    ensures
        0 <= (u - v) * (u - v) < 0x10000000000000000,
{
    let d = u - v;
    assert(-0x100000000 < d < 0x100000000);
    assert(0 <= d * d < 0x10000000000000000) by (nonlinear_arith)
        requires
            -0x100000000 < d < 0x100000000,
    ;
}

/// Computes the exact squared distance between two points.
pub fn distance_squared(a: Point3, b: Point3) -> (r: u128)
    ensures
        r == dist_sq(a, b),
{
    proof {
        lemma_sq_diff_bounds(a.x as int, b.x as int);
        lemma_sq_diff_bounds(a.y as int, b.y as int);
        lemma_sq_diff_bounds(a.z as int, b.z as int);
    }
    let dx: i128 = a.x as i128 - b.x as i128;
    let dy: i128 = a.y as i128 - b.y as i128;
    let dz: i128 = a.z as i128 - b.z as i128;
    (dx * dx + dy * dy + dz * dz) as u128
}

/// The four rectangle corners determined by two opposite corners `s0` and
/// `s1`: the two clicked corners keep their coordinates, the two computed
/// corners combine the clicked `x`/`z` extents with `y` normalized to 0.
pub open spec fn rect_corners(s0: Point3, s1: Point3) -> (Point3, Point3, Point3, Point3) {
    (
        s0,
        Point3 { x: s1.x, y: 0, z: s0.z },
        s1,
        Point3 { x: s0.x, y: 0, z: s1.z },
    )
}

/// Computes the four rectangle corners of [`rect_corners`].
pub fn corners_of_rect(s0: Point3, s1: Point3) -> (r: (Point3, Point3, Point3, Point3))
    ensures
        r == rect_corners(s0, s1),
{
    (
        s0,
        Point3 { x: s1.x, y: 0, z: s0.z },
        s1,
        Point3 { x: s0.x, y: 0, z: s1.z },
    )
}

} // verus!
