//! Points, offsets and the clamped integer arithmetic the surface is laid
//! out with.
//!
//! Coordinates and lengths count steps, [`UNIT`] of them to a UI unit, so
//! half of a whole length is exact. A position that lies on an even step has
//! that step as its coordinate; a position between two even steps has the
//! odd step between them. Counted so, a coordinate compares with zero and
//! with every half unit as the position itself does.

use vstd::prelude::*;

verus! {

/// A position on the drawing surface. The zero point doubles as "no
/// position": a point counts as present only when neither coordinate is zero.
#[derive(Clone, Copy, Debug, PartialEq, Eq, Structural)]
pub struct Point {
    pub x: i32,
    pub y: i32,
}

/// A displacement between two positions, or the size of an area.
#[derive(Clone, Copy, Debug, PartialEq, Eq, Structural)]
pub struct Offset {
    pub x: i32,
    pub y: i32,
}

/// How many steps of a coordinate make one UI unit.
pub const UNIT: i32 = 64;

/// The whole UI units in `v` steps, rounded down.
pub open spec fn units_in(v: i32) -> i32 {
    (v / UNIT) as i32
}

/// The whole UI units in `v` steps, rounded down.
pub fn count_units(v: i32) -> (r: i32)
    ensures
        r == units_in(v),
        r * UNIT <= v < r * UNIT + UNIT,
{
    let quotient: i32 = v / UNIT;
    if v % UNIT < 0 {
        quotient - 1
    } else {
        quotient
    }
}

/// The value of `v` once it is forced into the range of a coordinate.
pub open spec fn clamp(v: int) -> i32 {
    if v < i32::MIN {
        i32::MIN
    } else if v > i32::MAX {
        i32::MAX
    } else {
        v as i32
    }
}

/// Half of `v`, rounded toward zero.
pub open spec fn half(v: i32) -> i32 {
    if v >= 0 {
        (v / 2) as i32
    } else {
        (-((-v) / 2)) as i32
    }
}

/// `length` at the scale `zoom`: their product. Scale one, at which every
/// window starts, is stated apart: there the result is `length` itself, with
/// no product to reason about.
pub open spec fn scaled(length: i32, zoom: i32) -> int {
    if zoom == 1 {
        length as int
    } else {
        length * zoom
    }
}

fn narrow(v: i64) -> (r: i32)
    ensures
        r == clamp(v as int),
{
    if v < i32::MIN as i64 {
        i32::MIN
    } else if v > i32::MAX as i64 {
        i32::MAX
    } else {
        v as i32
    }
}

/// `a + b`, held at the ends of the coordinate range.
pub fn add_clamped(a: i32, b: i32) -> (r: i32)
    ensures
        r == clamp(a + b),
{
    narrow(a as i64 + b as i64)
}

/// `a - b`, held at the ends of the coordinate range.
pub fn sub_clamped(a: i32, b: i32) -> (r: i32)
    ensures
        r == clamp(a - b),
{
    narrow(a as i64 - b as i64)
}

/// `length` scaled by `zoom`, held at the ends of the coordinate range.
pub fn scale_clamped(length: i32, zoom: i32) -> (r: i32)
    ensures
        r == clamp(scaled(length, zoom)),
{
    assert(-0x4000_0000_0000_0000 <= length * zoom <= 0x4000_0000_0000_0000) by (nonlinear_arith)
        requires
            -0x8000_0000 <= length <= 0x7fff_ffff,
            -0x8000_0000 <= zoom <= 0x7fff_ffff,
    ;
    assert(zoom == 1 ==> length * zoom == length) by (nonlinear_arith);
    narrow(length as i64 * zoom as i64)
}

/// Half of `v`, rounded toward zero.
pub fn halve(v: i32) -> (r: i32)
    ensures
        r == half(v),
{
    v / 2
}

impl Point {
    pub open spec fn spec_zero() -> Point {
        Point { x: 0, y: 0 }
    }

    /// The zero point.
    #[verifier::when_used_as_spec(spec_zero)]
    pub fn zero() -> (p: Point)
        ensures
            p == Point::spec_zero(),
    {
        Point { x: 0, y: 0 }
    }

    pub open spec fn spec_is_present(&self) -> bool {
        self.x != 0 && self.y != 0
    }

    /// Whether the point stands for a position: neither coordinate is zero.
    #[verifier::when_used_as_spec(spec_is_present)]
    pub fn is_present(&self) -> (r: bool)
        ensures
            r == self.spec_is_present(),
    {
        self.x != 0 && self.y != 0
    }

    pub open spec fn spec_strictly_inside(&self, min: Point, max: Point) -> bool {
        min.x < self.x < max.x && min.y < self.y < max.y
    }

    /// Whether the point lies inside the rectangle spanned by `min` and
    /// `max`, its border excluded.
    #[verifier::when_used_as_spec(spec_strictly_inside)]
    pub fn strictly_inside(&self, min: Point, max: Point) -> (r: bool)
        ensures
            r == self.spec_strictly_inside(min, max),
    {
        let right_of_min: bool = self.x > min.x && self.y > min.y;
        let left_of_max: bool = self.x < max.x && self.y < max.y;
        left_of_max && right_of_min
    }

    pub open spec fn spec_offset_from(&self, other: Point) -> Offset {
        Offset { x: clamp(self.x - other.x), y: clamp(self.y - other.y) }
    }

    /// The displacement that leads from `other` to this point, each
    /// component held at the ends of the coordinate range.
    #[verifier::when_used_as_spec(spec_offset_from)]
    pub fn offset_from(&self, other: Point) -> (d: Offset)
        ensures
            d == self.spec_offset_from(other),
    {
        Offset { x: sub_clamped(self.x, other.x), y: sub_clamped(self.y, other.y) }
    }
}

impl Offset {
    pub open spec fn spec_zero() -> Offset {
        Offset { x: 0, y: 0 }
    }

    /// The zero displacement.
    #[verifier::when_used_as_spec(spec_zero)]
    pub fn zero() -> (d: Offset)
        ensures
            d == Offset::spec_zero(),
    {
        Offset { x: 0, y: 0 }
    }

    pub open spec fn spec_to_point(&self) -> Point {
        Point { x: self.x, y: self.y }
    }

    /// The position this displacement reaches from the zero point.
    #[verifier::when_used_as_spec(spec_to_point)]
    pub fn to_point(&self) -> (p: Point)
        ensures
            p == self.spec_to_point(),
    {
        Point { x: self.x, y: self.y }
    }
}

} // verus!
