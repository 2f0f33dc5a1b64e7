//! The four offset coordinate systems, which line hex cells up with the
//! rows and columns of a rectangular tile map.

use crate::axial::{ceiled_division_by_2, floored_division_by_2, AxialPos};
use crate::model::{fits_i32, Offset};
use crate::tiles::{TilePos, TilemapSize};
use vstd::prelude::*;

verus! {

/// A position in a row-oriented grid in which odd rows are shoved half a
/// cell along `q`.
#[derive(Clone, Copy, Debug, PartialEq, Eq, Structural, PartialOrd, Ord, Hash)]
pub struct RowOddPos {
    pub q: i32,
    pub r: i32,
}

impl View for RowOddPos {
    type V = Offset;

    open spec fn view(&self) -> Offset {
        Offset { q: self.q as int, r: self.r as int }
    }
}

impl<'a> core::convert::From<&'a TilePos> for RowOddPos {
    /// Reads a tile index as an offset position: `x` becomes `q` and `y`
    /// becomes `r`, each reinterpreted as an `i32`.
    fn from(tile_pos: &'a TilePos) -> (offset_pos: RowOddPos)
        ensures
            tile_pos.x <= i32::MAX ==> offset_pos.q == tile_pos.x,
            tile_pos.y <= i32::MAX ==> offset_pos.r == tile_pos.y,
    {
        RowOddPos { q: tile_pos.x as i32, r: tile_pos.y as i32 }
    }
}

impl<'a> vstd::std_specs::convert::FromSpecImpl<&'a TilePos> for RowOddPos {
    open spec fn obeys_from_spec() -> bool {
        true
    }

    open spec fn from_spec(tile_pos: &'a TilePos) -> RowOddPos {
        RowOddPos { q: tile_pos.x as i32, r: tile_pos.y as i32 }
    }
}

impl RowOddPos {
    /// The row-odd label of the cell at `axial_pos`.
    pub fn from_axial(axial_pos: AxialPos) -> (offset_pos: RowOddPos)
        requires
            fits_i32(axial_pos@.to_row_odd().q),
        ensures
            offset_pos@ == axial_pos@.to_row_odd(),
    {
        let AxialPos { q, r } = axial_pos;
        let delta = floored_division_by_2(r);
        RowOddPos { q: q + delta, r }
    }

    /// Try converting into a [`TilePos`].
    ///
    /// Returns `None` if either one of `q` or `r` is negative, or lies out
    /// of the bounds of `map_size`.
    pub fn as_tile_pos(&self, map_size: &TilemapSize) -> (tile_pos: Option<TilePos>)
        ensures
            tile_pos is Some <==> 0 <= self.q < map_size.x && 0 <= self.r < map_size.y,
            tile_pos matches Some(t) ==> t.x == self.q && t.y == self.r,
    {
        TilePos::from_i32_pair(self.q, self.r, map_size)
    }
}

/// A position in a row-oriented grid in which even rows are shoved half a
/// cell along `q`.
#[derive(Clone, Copy, Debug, PartialEq, Eq, Structural, PartialOrd, Ord, Hash)]
pub struct RowEvenPos {
    pub q: i32,
    pub r: i32,
}

impl View for RowEvenPos {
    type V = Offset;

    open spec fn view(&self) -> Offset {
        Offset { q: self.q as int, r: self.r as int }
    }
}

impl<'a> core::convert::From<&'a TilePos> for RowEvenPos {
    /// Reads a tile index as an offset position: `x` becomes `q` and `y`
    /// becomes `r`, each reinterpreted as an `i32`.
    fn from(tile_pos: &'a TilePos) -> (offset_pos: RowEvenPos)
        ensures
            tile_pos.x <= i32::MAX ==> offset_pos.q == tile_pos.x,
            tile_pos.y <= i32::MAX ==> offset_pos.r == tile_pos.y,
    {
        RowEvenPos { q: tile_pos.x as i32, r: tile_pos.y as i32 }
    }
}

impl<'a> vstd::std_specs::convert::FromSpecImpl<&'a TilePos> for RowEvenPos {
    open spec fn obeys_from_spec() -> bool {
        true
    }

    open spec fn from_spec(tile_pos: &'a TilePos) -> RowEvenPos {
        RowEvenPos { q: tile_pos.x as i32, r: tile_pos.y as i32 }
    }
}

impl RowEvenPos {
    /// The row-even label of the cell at `axial_pos`.
    pub fn from_axial(axial_pos: AxialPos) -> (offset_pos: RowEvenPos)
        requires
            fits_i32(axial_pos@.to_row_even().q),
        ensures
            offset_pos@ == axial_pos@.to_row_even(),
    {
        let AxialPos { q, r } = axial_pos;
        let delta = ceiled_division_by_2(r);
        RowEvenPos { q: q + delta, r }
    }

    /// Try converting into a [`TilePos`].
    ///
    /// Returns `None` if either one of `q` or `r` is negative, or lies out
    /// of the bounds of `map_size`.
    pub fn as_tile_pos(&self, map_size: &TilemapSize) -> (tile_pos: Option<TilePos>)
        ensures
            tile_pos is Some <==> 0 <= self.q < map_size.x && 0 <= self.r < map_size.y,
            tile_pos matches Some(t) ==> t.x == self.q && t.y == self.r,
    {
        TilePos::from_i32_pair(self.q, self.r, map_size)
    }
}

/// A position in a column-oriented grid in which odd columns are shoved
/// half a cell along `r`.
#[derive(Clone, Copy, Debug, PartialEq, Eq, Structural, PartialOrd, Ord, Hash)]
pub struct ColOddPos {
    pub q: i32,
    pub r: i32,
}

impl View for ColOddPos {
    type V = Offset;

    open spec fn view(&self) -> Offset {
        Offset { q: self.q as int, r: self.r as int }
    }
}

impl<'a> core::convert::From<&'a TilePos> for ColOddPos {
    /// Reads a tile index as an offset position: `x` becomes `q` and `y`
    /// becomes `r`, each reinterpreted as an `i32`.
    fn from(tile_pos: &'a TilePos) -> (offset_pos: ColOddPos)
        ensures
            tile_pos.x <= i32::MAX ==> offset_pos.q == tile_pos.x,
            tile_pos.y <= i32::MAX ==> offset_pos.r == tile_pos.y,
    {
        ColOddPos { q: tile_pos.x as i32, r: tile_pos.y as i32 }
    }
}

impl<'a> vstd::std_specs::convert::FromSpecImpl<&'a TilePos> for ColOddPos {
    open spec fn obeys_from_spec() -> bool {
        true
    }

    open spec fn from_spec(tile_pos: &'a TilePos) -> ColOddPos {
        ColOddPos { q: tile_pos.x as i32, r: tile_pos.y as i32 }
    }
}

impl ColOddPos {
    /// The col-odd label of the cell at `axial_pos`.
    pub fn from_axial(axial_pos: AxialPos) -> (offset_pos: ColOddPos)
        requires
            fits_i32(axial_pos@.to_col_odd().r),
        ensures
            offset_pos@ == axial_pos@.to_col_odd(),
    {
        let AxialPos { q, r } = axial_pos;
        let delta = floored_division_by_2(q);
        ColOddPos { q, r: r + delta }
    }

    /// Try converting into a [`TilePos`].
    ///
    /// Returns `None` if either one of `q` or `r` is negative, or lies out
    /// of the bounds of `map_size`.
    pub fn as_tile_pos(&self, map_size: &TilemapSize) -> (tile_pos: Option<TilePos>)
        ensures
            tile_pos is Some <==> 0 <= self.q < map_size.x && 0 <= self.r < map_size.y,
            tile_pos matches Some(t) ==> t.x == self.q && t.y == self.r,
    {
        TilePos::from_i32_pair(self.q, self.r, map_size)
    }
}

/// A position in a column-oriented grid in which even columns are shoved
/// half a cell along `r`.
#[derive(Clone, Copy, Debug, PartialEq, Eq, Structural, PartialOrd, Ord, Hash)]
pub struct ColEvenPos {
    pub q: i32,
    pub r: i32,
}

impl View for ColEvenPos {
    type V = Offset;

    open spec fn view(&self) -> Offset {
        Offset { q: self.q as int, r: self.r as int }
    }
}

impl<'a> core::convert::From<&'a TilePos> for ColEvenPos {
    /// Reads a tile index as an offset position: `x` becomes `q` and `y`
    /// becomes `r`, each reinterpreted as an `i32`.
    fn from(tile_pos: &'a TilePos) -> (offset_pos: ColEvenPos)
        ensures
            tile_pos.x <= i32::MAX ==> offset_pos.q == tile_pos.x,
            tile_pos.y <= i32::MAX ==> offset_pos.r == tile_pos.y,
    {
        ColEvenPos { q: tile_pos.x as i32, r: tile_pos.y as i32 }
    }
}

impl<'a> vstd::std_specs::convert::FromSpecImpl<&'a TilePos> for ColEvenPos {
    open spec fn obeys_from_spec() -> bool {
        true
    }

    open spec fn from_spec(tile_pos: &'a TilePos) -> ColEvenPos {
        ColEvenPos { q: tile_pos.x as i32, r: tile_pos.y as i32 }
    }
}

impl ColEvenPos {
    /// The col-even label of the cell at `axial_pos`.
    pub fn from_axial(axial_pos: AxialPos) -> (offset_pos: ColEvenPos)
        requires
            fits_i32(axial_pos@.to_col_even().r),
        ensures
            offset_pos@ == axial_pos@.to_col_even(),
    {
        let AxialPos { q, r } = axial_pos;
        let delta = ceiled_division_by_2(q);
        ColEvenPos { q, r: r + delta }
    }

    /// Try converting into a [`TilePos`].
    ///
    /// Returns `None` if either one of `q` or `r` is negative, or lies out
    /// of the bounds of `map_size`.
    pub fn as_tile_pos(&self, map_size: &TilemapSize) -> (tile_pos: Option<TilePos>)
        ensures
            tile_pos is Some <==> 0 <= self.q < map_size.x && 0 <= self.r < map_size.y,
            tile_pos matches Some(t) ==> t.x == self.q && t.y == self.r,
    {
        TilePos::from_i32_pair(self.q, self.r, map_size)
    }
}

} // verus!
