//! Axial coordinates, their arithmetic, and their conversions.

use crate::cube::CubePos;
use crate::model::{ceiled_half, fits_i32, floor_half, Axial};
use crate::offset::{ColEvenPos, ColOddPos, RowEvenPos, RowOddPos};
use crate::tiles::{TilePos, TilemapSize};
use vstd::prelude::*;

verus! {

/// A position in a hex grid, labelled by a pair of `i32` digits `q` and `r`.
/// When it is made from a [`crate::tiles::TilePos`], `x` becomes `q` and `y`
/// becomes `r`.
///
/// It is vector-like: two positions can be added and subtracted, and a
/// position can be multiplied by an `i32` scalar. Positive `r` points upward.
#[derive(Clone, Copy, Debug, PartialEq, Eq, Structural, PartialOrd, Ord, Hash)]
pub struct AxialPos {
    pub q: i32,
    pub r: i32,
}

impl View for AxialPos {
    type V = Axial;

    open spec fn view(&self) -> Axial {
        Axial { q: self.q as int, r: self.r as int }
    }
}

/// Half of `x`, rounded toward negative infinity.
pub fn floored_division_by_2(x: i32) -> (half: i32)
    ensures
        half == floor_half(x as int),
{
    // `/` on `i32` rounds toward zero, so a negative `x` is shifted first.
    if x < 0 {
        (x + 1) / 2 - 1
    } else {
        x / 2
    }
}

/// The shear of the even offset variants, see [`ceiled_half`].
pub fn ceiled_division_by_2(x: i32) -> (half: i32)
    ensures
        half == ceiled_half(x as int),
{
    // Written so that neither `x - 1` nor `x + 1` is formed: they leave
    // `i32` at its two ends.
    if x < 0 {
        x / 2 - 1
    } else {
        x / 2 + x % 2
    }
}

impl<'a> core::convert::From<&'a TilePos> for AxialPos {
    /// Reads a tile index as an axial position: `x` becomes `q` and `y`
    /// becomes `r`, each reinterpreted as an `i32`.
    fn from(tile_pos: &'a TilePos) -> (axial_pos: AxialPos)
        ensures
            tile_pos.x <= i32::MAX ==> axial_pos.q == tile_pos.x,
            tile_pos.y <= i32::MAX ==> axial_pos.r == tile_pos.y,
    {
        AxialPos { q: tile_pos.x as i32, r: tile_pos.y as i32 }
    }
}

impl<'a> vstd::std_specs::convert::FromSpecImpl<&'a TilePos> for AxialPos {
    open spec fn obeys_from_spec() -> bool {
        true
    }

    open spec fn from_spec(tile_pos: &'a TilePos) -> AxialPos {
        AxialPos { q: tile_pos.x as i32, r: tile_pos.y as i32 }
    }
}

impl core::convert::From<CubePos> for AxialPos {
    /// The axial position of a cube position: `s` is dropped.
    fn from(cube_pos: CubePos) -> (axial_pos: AxialPos)
        ensures
            axial_pos@ == cube_pos@.to_axial(),
    {
        AxialPos { q: cube_pos.q(), r: cube_pos.r() }
    }
}

impl vstd::std_specs::convert::FromSpecImpl<CubePos> for AxialPos {
    open spec fn obeys_from_spec() -> bool {
        true
    }

    open spec fn from_spec(cube_pos: CubePos) -> AxialPos {
        AxialPos { q: cube_pos@.q as i32, r: cube_pos@.r as i32 }
    }
}

impl core::ops::Add<AxialPos> for AxialPos {
    type Output = AxialPos;

    fn add(self, rhs: AxialPos) -> (sum: AxialPos)
        ensures
            sum@ == self@.plus(rhs@),
    {
        AxialPos { q: self.q + rhs.q, r: self.r + rhs.r }
    }
}

impl vstd::std_specs::ops::AddSpecImpl<AxialPos> for AxialPos {
    open spec fn obeys_add_spec() -> bool {
        true
    }

    open spec fn add_req(self, rhs: AxialPos) -> bool {
        fits_i32(self.q + rhs.q) && fits_i32(self.r + rhs.r)
    }

    open spec fn add_spec(self, rhs: AxialPos) -> AxialPos {
        AxialPos { q: (self.q + rhs.q) as i32, r: (self.r + rhs.r) as i32 }
    }
}

impl core::ops::Sub<AxialPos> for AxialPos {
    type Output = AxialPos;

    fn sub(self, rhs: AxialPos) -> (difference: AxialPos)
        ensures
            difference@ == self@.minus(rhs@),
    {
        AxialPos { q: self.q - rhs.q, r: self.r - rhs.r }
    }
}

impl vstd::std_specs::ops::SubSpecImpl<AxialPos> for AxialPos {
    open spec fn obeys_sub_spec() -> bool {
        true
    }

    open spec fn sub_req(self, rhs: AxialPos) -> bool {
        fits_i32(self.q - rhs.q) && fits_i32(self.r - rhs.r)
    }

    open spec fn sub_spec(self, rhs: AxialPos) -> AxialPos {
        AxialPos { q: (self.q - rhs.q) as i32, r: (self.r - rhs.r) as i32 }
    }
}

impl core::ops::Mul<AxialPos> for i32 {
    type Output = AxialPos;

    fn mul(self, rhs: AxialPos) -> (product: AxialPos)
        ensures
            product@ == rhs@.scaled(self as int),
    {
        AxialPos { q: self * rhs.q, r: self * rhs.r }
    }
}

impl vstd::std_specs::ops::MulSpecImpl<AxialPos> for i32 {
    open spec fn obeys_mul_spec() -> bool {
        true
    }

    open spec fn mul_req(self, rhs: AxialPos) -> bool {
        fits_i32(self * rhs.q) && fits_i32(self * rhs.r)
    }

    open spec fn mul_spec(self, rhs: AxialPos) -> AxialPos {
        AxialPos { q: (self * rhs.q) as i32, r: (self * rhs.r) as i32 }
    }
}

impl AxialPos {
    /// One step along `q`.
    pub fn unit_q() -> (unit: AxialPos)
        ensures
            unit.q == 1,
            unit.r == 0,
    {
        AxialPos { q: 1, r: 0 }
    }

    /// One step along `r`.
    pub fn unit_r() -> (unit: AxialPos)
        ensures
            unit.q == 0,
            unit.r == -1,
    {
        AxialPos { q: 0, r: -1 }
    }

    /// One step along `s`.
    pub fn unit_s() -> (unit: AxialPos)
        ensures
            unit.q == 1,
            unit.r == -1,
    {
        AxialPos { q: 1, r: -1 }
    }

    /// The axial position of the cell that `offset_pos` labels in the
    /// row-odd system.
    pub fn from_row_odd(offset_pos: RowOddPos) -> (axial_pos: AxialPos)
        requires
            fits_i32(Axial::of_row_odd(offset_pos@).q),
        ensures
            axial_pos@ == Axial::of_row_odd(offset_pos@),
    {
        let RowOddPos { q, r } = offset_pos;
        let delta = floored_division_by_2(r);
        AxialPos { q: q - delta, r }
    }

    /// The axial position of the cell that `offset_pos` labels in the
    /// row-even system.
    pub fn from_row_even(offset_pos: RowEvenPos) -> (axial_pos: AxialPos)
        requires
            fits_i32(Axial::of_row_even(offset_pos@).q),
        ensures
            axial_pos@ == Axial::of_row_even(offset_pos@),
    {
        let RowEvenPos { q, r } = offset_pos;
        let delta = ceiled_division_by_2(r);
        AxialPos { q: q - delta, r }
    }

    /// The axial position of the cell that `offset_pos` labels in the
    /// column-odd system.
    pub fn from_col_odd(offset_pos: ColOddPos) -> (axial_pos: AxialPos)
        requires
            fits_i32(Axial::of_col_odd(offset_pos@).r),
        ensures
            axial_pos@ == Axial::of_col_odd(offset_pos@),
    {
        let ColOddPos { q, r } = offset_pos;
        let delta = floored_division_by_2(q);
        AxialPos { q, r: r - delta }
    }

    /// The axial position of the cell that `offset_pos` labels in the
    /// column-even system.
    pub fn from_col_even(offset_pos: ColEvenPos) -> (axial_pos: AxialPos)
        requires
            fits_i32(Axial::of_col_even(offset_pos@).r),
        ensures
            axial_pos@ == Axial::of_col_even(offset_pos@),
    {
        let ColEvenPos { q, r } = offset_pos;
        let delta = ceiled_division_by_2(q);
        AxialPos { q, r: r - delta }
    }

    /// The distance of this position from the `(0, 0)` cell, in cells.
    pub fn magnitude(&self) -> (magnitude: i32)
        requires
            self@.magnitude() <= i32::MAX,
        ensures
            magnitude == self@.magnitude(),
    {
        let cube_pos = CubePos::from_axial(*self);
        cube_pos.magnitude()
    }

    /// The distance between `self` and `other`, in cells.
    pub fn distance_from(&self, other: &AxialPos) -> (distance: i32)
        requires
            self@.distance(other@) <= i32::MAX,
        ensures
            distance == self@.distance(other@),
    {
        (*self - *other).magnitude()
    }

    /// Try converting into a [`TilePos`].
    ///
    /// Returns `None` if either one of `q` or `r` is negative, or lies out
    /// of the bounds of `map_size`.
    pub fn as_tile_pos(&self, map_size: &TilemapSize) -> (tile_pos: Option<TilePos>)
        ensures
            tile_pos is Some <==> 0 <= self.q < map_size.x && 0 <= self.r < map_size.y,
            tile_pos matches Some(t) ==> t.x == self.q && t.y == self.r,
    {
        TilePos::from_i32_pair(self.q, self.r, map_size)
    }
}

} // verus!
