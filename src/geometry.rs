use vstd::prelude::*;

verus! {

/// A position in the play field.
#[derive(Clone, Copy, Debug, PartialEq, Eq, Structural)]
pub struct Point {
    pub x: i32,
    pub y: i32,
}

/// The squared Euclidean distance between two points.
pub open spec fn dist_sq(a: Point, b: Point) -> int {
    (a.x - b.x) * (a.x - b.x) + (a.y - b.y) * (a.y - b.y)
}

/// `a` lies strictly inside the circle round `b` whose squared radius is `r_sq`.
pub open spec fn within(a: Point, b: Point, r_sq: u64) -> bool {
    dist_sq(a, b) < r_sq
}

/// `v` brought into the range of a coordinate.
pub open spec fn clamp_coord(v: int) -> i32 {
    if v < i32::MIN { i32::MIN } else if v > i32::MAX { i32::MAX } else { v as i32 }
}

/// Computes the squared distance between two points.
pub fn distance_squared(a: Point, b: Point) -> (d: u128)
    ensures
        d == dist_sq(a, b),
{
    let dx: i128 = a.x as i128 - b.x as i128;
    let dy: i128 = a.y as i128 - b.y as i128;
    assert(0 <= dx * dx <= 0x1_0000_0000 * 0x1_0000_0000) by (nonlinear_arith)
        requires -0x1_0000_0000 <= dx <= 0x1_0000_0000;
    assert(0 <= dy * dy <= 0x1_0000_0000 * 0x1_0000_0000) by (nonlinear_arith)
        requires -0x1_0000_0000 <= dy <= 0x1_0000_0000;
    (dx * dx + dy * dy) as u128
}

/// Tells whether `a` lies strictly inside the circle round `b` whose squared radius is `r_sq`.
pub fn is_within(a: Point, b: Point, r_sq: u64) -> (res: bool)
    ensures
        res == within(a, b, r_sq),
{
    distance_squared(a, b) < r_sq as u128
}

/// A point offset by `(dx, dy)`, each coordinate kept in range.
pub fn offset_point(p: Point, dx: i64, dy: i64) -> (r: Point)
    ensures
        r.x == clamp_coord(p.x + dx),
        r.y == clamp_coord(p.y + dy),
{
    Point { x: clamp_i32(p.x as i128 + dx as i128), y: clamp_i32(p.y as i128 + dy as i128) }
}

fn clamp_i32(v: i128) -> (r: i32)
    ensures
        r == clamp_coord(v as int),
{
    if v < i32::MIN as i128 {
        i32::MIN
    } else if v > i32::MAX as i128 {
        i32::MAX
    } else {
        v as i32
    }
}

} // verus!
