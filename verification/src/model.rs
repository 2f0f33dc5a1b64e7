//! The mathematical model: hex coordinates over the unbounded integers.
//!
//! Nothing here is executable. The fixed-width coordinate types of this crate
//! are viewed as values of these types, and their contracts are stated with
//! the functions below.

use crate::cube::CubeAxis;
use vstd::math::{abs, max};
use vstd::prelude::*;

verus! {

/// An axial coordinate `(q, r)`. Every pair of integers names one cell.
pub struct Axial {
    pub q: int,
    pub r: int,
}

/// A cube coordinate `(q, r, s)`. It names a cell only when it is valid.
pub struct Cube {
    pub q: int,
    pub r: int,
    pub s: int,
}

/// An offset coordinate `(q, r)`. Which cell it names depends on the
/// variant (row or column, odd or even) it is read in.
pub struct Offset {
    pub q: int,
    pub r: int,
}

/// Half of `x`, rounded toward negative infinity.
pub open spec fn floor_half(x: int) -> int {
    x / 2
}

/// The shear of the even offset variants: `(x + 1) / 2` for non-negative
/// `x` and `(x - 1) / 2` for negative `x`, both quotients rounded toward
/// negative infinity.
pub open spec fn ceiled_half(x: int) -> int {
    if x < 0 {
        (x - 1) / 2
    } else {
        (x + 1) / 2
    }
}

/// Whether `x` can be held in an `i32`.
pub open spec fn fits_i32(x: int) -> bool {
    i32::MIN <= x <= i32::MAX
}

impl Cube {
    /// The zero-sum invariant of cube coordinates.
    pub open spec fn is_valid(self) -> bool {
        self.q + self.r + self.s == 0
    }

    /// The cube coordinate of an axial coordinate: `s = -q - r`.
    pub open spec fn of_axial(a: Axial) -> Cube {
        Cube { q: a.q, r: a.r, s: -a.q - a.r }
    }

    /// The axial coordinate of a cube coordinate: `s` is dropped.
    pub open spec fn to_axial(self) -> Axial {
        Axial { q: self.q, r: self.r }
    }

    /// Grid distance from the origin.
    pub open spec fn magnitude(self) -> int {
        ((abs(self.q) + abs(self.r) + abs(self.s)) / 2) as int
    }

    /// Whether all three components can be held in an `i32`.
    pub open spec fn fits_i32(self) -> bool {
        fits_i32(self.q) && fits_i32(self.r) && fits_i32(self.s)
    }

    /// This triple with the component on `axis` replaced by the negated sum
    /// of the other two.
    pub open spec fn with_recomputed(self, axis: CubeAxis) -> Cube {
        match axis {
            CubeAxis::Q => Cube { q: -self.r - self.s, r: self.r, s: self.s },
            CubeAxis::R => Cube { q: self.q, r: -self.q - self.s, s: self.s },
            CubeAxis::S => Cube { q: self.q, r: self.r, s: -self.q - self.r },
        }
    }
}

impl Axial {
    /// Componentwise sum.
    pub open spec fn plus(self, other: Axial) -> Axial {
        Axial { q: self.q + other.q, r: self.r + other.r }
    }

    /// Componentwise difference.
    pub open spec fn minus(self, other: Axial) -> Axial {
        Axial { q: self.q - other.q, r: self.r - other.r }
    }

    /// Both components multiplied by `k`.
    pub open spec fn scaled(self, k: int) -> Axial {
        Axial { q: k * self.q, r: k * self.r }
    }

    /// Grid distance from the origin: the magnitude of the equivalent cube
    /// coordinate.
    pub open spec fn magnitude(self) -> int {
        Cube::of_axial(self).magnitude()
    }

    /// Grid distance between two cells: the magnitude of their difference.
    pub open spec fn distance(self, other: Axial) -> int {
        self.minus(other).magnitude()
    }

    /// Row layout, odd rows shoved: `q` is sheared by `floor_half(r)`.
    pub open spec fn to_row_odd(self) -> Offset {
        Offset { q: self.q + floor_half(self.r), r: self.r }
    }

    /// Inverse of [`Axial::to_row_odd`].
    pub open spec fn of_row_odd(o: Offset) -> Axial {
        Axial { q: o.q - floor_half(o.r), r: o.r }
    }

    /// Row layout, even rows shoved: `q` is sheared by `ceiled_half(r)`.
    pub open spec fn to_row_even(self) -> Offset {
        Offset { q: self.q + ceiled_half(self.r), r: self.r }
    }

    /// Inverse of [`Axial::to_row_even`].
    pub open spec fn of_row_even(o: Offset) -> Axial {
        Axial { q: o.q - ceiled_half(o.r), r: o.r }
    }

    /// Column layout, odd columns shoved: `r` is sheared by `floor_half(q)`.
    pub open spec fn to_col_odd(self) -> Offset {
        Offset { q: self.q, r: self.r + floor_half(self.q) }
    }

    /// Inverse of [`Axial::to_col_odd`].
    pub open spec fn of_col_odd(o: Offset) -> Axial {
        Axial { q: o.q, r: o.r - floor_half(o.q) }
    }

    /// Column layout, even columns shoved: `r` is sheared by
    /// `ceiled_half(q)`.
    pub open spec fn to_col_even(self) -> Offset {
        Offset { q: self.q, r: self.r + ceiled_half(self.q) }
    }

    /// Inverse of [`Axial::to_col_even`].
    pub open spec fn of_col_even(o: Offset) -> Axial {
        Axial { q: o.q, r: o.r - ceiled_half(o.q) }
    }
}

/// Converting an axial coordinate to cube form and back gives the same
/// coordinate, and the cube form is valid.
pub proof fn axial_cube_round_trip(a: Axial)
    ensures
        Cube::of_axial(a).is_valid(),
        Cube::of_axial(a).to_axial() == a,
{
}

/// Converting a valid cube coordinate to axial form and back gives the same
/// coordinate.
pub proof fn cube_axial_round_trip(c: Cube)
    requires
        c.is_valid(),
    ensures
        Cube::of_axial(c.to_axial()) == c,
{
}

/// Recomputing any one component of a triple makes it valid, and leaves the
/// other two components as they were.
pub proof fn recomputed_is_valid(c: Cube, axis: CubeAxis)
    ensures
        c.with_recomputed(axis).is_valid(),
        axis != CubeAxis::Q ==> c.with_recomputed(axis).q == c.q,
        axis != CubeAxis::R ==> c.with_recomputed(axis).r == c.r,
        axis != CubeAxis::S ==> c.with_recomputed(axis).s == c.s,
{
}

/// A triple that is already valid is left unchanged, whichever component is
/// recomputed.
pub proof fn recomputing_keeps_valid(c: Cube, axis: CubeAxis)
    requires
        c.is_valid(),
    ensures
        c.with_recomputed(axis) == c,
{
}

/// The row-odd conversions are inverses of each other, in both orders.
pub proof fn row_odd_round_trip(a: Axial, o: Offset)
    ensures
        Axial::of_row_odd(a.to_row_odd()) == a,
        Axial::of_row_odd(o).to_row_odd() == o,
{
}

/// The row-even conversions are inverses of each other, in both orders.
pub proof fn row_even_round_trip(a: Axial, o: Offset)
    ensures
        Axial::of_row_even(a.to_row_even()) == a,
        Axial::of_row_even(o).to_row_even() == o,
{
}

/// The column-odd conversions are inverses of each other, in both orders.
pub proof fn col_odd_round_trip(a: Axial, o: Offset)
    ensures
        Axial::of_col_odd(a.to_col_odd()) == a,
        Axial::of_col_odd(o).to_col_odd() == o,
{
}

/// The column-even conversions are inverses of each other, in both orders.
pub proof fn col_even_round_trip(a: Axial, o: Offset)
    ensures
        Axial::of_col_even(a.to_col_even()) == a,
        Axial::of_col_even(o).to_col_even() == o,
{
}

/// The magnitude of a valid cube coordinate is its largest component by
/// absolute value.
pub proof fn magnitude_is_largest_component(c: Cube)
    requires
        c.is_valid(),
    ensures
        c.magnitude() == max(max(abs(c.q) as int, abs(c.r) as int), abs(c.s) as int),
{
}

/// The distance from `a` to `b` equals the distance from `b` to `a`.
pub proof fn distance_is_symmetric(a: Axial, b: Axial)
    ensures
        a.distance(b) == b.distance(a),
{
}

/// The distance from a cell to itself is zero.
pub proof fn distance_to_self_is_zero(a: Axial)
    ensures
        a.distance(a) == 0,
{
}

/// Distances are never negative, and only equal cells are at distance zero.
pub proof fn distance_is_zero_only_between_equal(a: Axial, b: Axial)
    ensures
        a.distance(b) >= 0,
        a.distance(b) == 0 <==> a == b,
{
}

/// Going from `a` to `c` by way of `b` is never shorter than going directly.
pub proof fn distance_triangle_inequality(a: Axial, b: Axial, c: Axial)
    ensures
        a.distance(c) <= a.distance(b) + b.distance(c),
{
    magnitude_is_largest_component(Cube::of_axial(a.minus(c)));
    magnitude_is_largest_component(Cube::of_axial(a.minus(b)));
    magnitude_is_largest_component(Cube::of_axial(b.minus(c)));
}

} // verus!
