//! The arena rectangle and the fixed-point plane it lies in.

use vstd::prelude::*;

verus! {

/// Coordinate steps per world unit.
pub const UNIT: i32 = 1000;

/// The x coordinate of the left wall.
pub const LEFT_WALL: i32 = -450 * UNIT;

/// The x coordinate of the right wall.
pub const RIGHT_WALL: i32 = 450 * UNIT;

/// The y coordinate of the bottom wall.
pub const BOTTOM_WALL: i32 = -300 * UNIT;

/// The y coordinate of the top wall.
pub const TOP_WALL: i32 = 300 * UNIT;

/// Nanoseconds per second; all elapsed times are in nanoseconds.
pub const NANOS_PER_SECOND: u64 = 1_000_000_000;

/// A position in the plane.
#[derive(Clone, Copy, Debug, PartialEq, Eq, Structural)]
pub struct Point {
    pub x: i32,
    pub y: i32,
}

/// `v` limited to the interval from `low` to `high`.
pub open spec fn clamped(v: int, low: int, high: int) -> int {
    if v < low {
        low
    } else if v > high {
        high
    } else {
        v
    }
}

/// Whether `v` lies between `from` and `to`, ends included, whichever of
/// the two is larger.
pub open spec fn between(v: int, from: int, to: int) -> bool {
    (from <= v <= to) || (to <= v <= from)
}

impl Point {
    /// The square of the Euclidean distance between two points.
    pub open spec fn dist_sq(self, other: Point) -> int {
        (self.x - other.x) * (self.x - other.x) + (self.y - other.y) * (self.y - other.y)
    }

    /// Whether the point lies in the arena: walls on the left and at the
    /// bottom belong to it, walls on the right and at the top do not.
    pub open spec fn in_arena(self) -> bool {
        LEFT_WALL <= self.x < RIGHT_WALL && BOTTOM_WALL <= self.y < TOP_WALL
    }

    /// The point with these coordinates.
    pub fn new(x: i32, y: i32) -> (p: Point)
        ensures
            p == (Point { x, y }),
    {
        Point { x, y }
    }

    /// The squared distance, computed without overflow for any two points.
    pub fn distance_squared(&self, other: &Point) -> (d: u128)
        ensures
            d == self.dist_sq(*other),
    {
        let dx: u128 = abs_diff(self.x, other.x) as u128;
        let dy: u128 = abs_diff(self.y, other.y) as u128;
        assert(dx * dx <= 0xffff_ffff * 0xffff_ffff) by (nonlinear_arith)
            requires
                dx <= 0xffff_ffff,
        ;
        assert(dy * dy <= 0xffff_ffff * 0xffff_ffff) by (nonlinear_arith)
            requires
                dy <= 0xffff_ffff,
        ;
        assert(dx * dx == (self.x - other.x) * (self.x - other.x)) by (nonlinear_arith)
            requires
                dx == self.x - other.x || dx == other.x - self.x,
        ;
        assert(dy * dy == (self.y - other.y) * (self.y - other.y)) by (nonlinear_arith)
            requires
                dy == self.y - other.y || dy == other.y - self.y,
        ;
        dx * dx + dy * dy
    }

    /// Strictly closer to `other` than `radius`.
    pub fn is_within(&self, other: &Point, radius: u32) -> (b: bool)
        ensures
            b == (self.dist_sq(*other) < radius * radius),
    {
        let r: u128 = radius as u128;
        assert(r * r <= 0xffff_ffff * 0xffff_ffff) by (nonlinear_arith)
            requires
                r <= 0xffff_ffff,
        ;
        self.distance_squared(other) < r * r
    }

    /// Strictly farther from `other` than `radius`.
    pub fn is_beyond(&self, other: &Point, radius: u32) -> (b: bool)
        ensures
            b == (self.dist_sq(*other) > radius * radius),
    {
        let r: u128 = radius as u128;
        assert(r * r <= 0xffff_ffff * 0xffff_ffff) by (nonlinear_arith)
            requires
                r <= 0xffff_ffff,
        ;
        self.distance_squared(other) > r * r
    }
}

/// The distance between two coordinates.
pub fn abs_diff(a: i32, b: i32) -> (d: u32)
    ensures
        d == if a >= b { a - b } else { b - a },
{
    if a >= b {
        (a as i64 - b as i64) as u32
    } else {
        (b as i64 - a as i64) as u32
    }
}

} // verus!
