//! The rectangular index space of a bounded tile map.

use vstd::prelude::*;

verus! {

/// The extent of a tile map: `x` tiles wide and `y` tiles high.
#[derive(Clone, Copy, Debug, PartialEq, Eq, Structural, Hash)]
pub struct TilemapSize {
    pub x: u32,
    pub y: u32,
}

/// The index of a tile in the storage of a tile map.
#[derive(Clone, Copy, Debug, PartialEq, Eq, Structural, PartialOrd, Ord, Hash)]
pub struct TilePos {
    pub x: u32,
    pub y: u32,
}

impl TilePos {
    /// Whether this index lies inside a map of the given size.
    pub open spec fn within(self, map_size: TilemapSize) -> bool {
        self.x < map_size.x && self.y < map_size.y
    }

    pub fn new(x: u32, y: u32) -> (pos: TilePos)
        ensures
            pos.x == x,
            pos.y == y,
    {
        TilePos { x, y }
    }

    /// Checks whether this index lies inside a map of the given size.
    pub fn within_map_bounds(&self, map_size: &TilemapSize) -> (inside: bool)
        ensures
            inside == self.within(*map_size),
    {
        self.x < map_size.x && self.y < map_size.y
    }

    /// The index with the given components, if neither is negative and both
    /// lie inside a map of the given size.
    pub fn from_i32_pair(x: i32, y: i32, map_size: &TilemapSize) -> (pos: Option<TilePos>)
        ensures
            pos is Some <==> 0 <= x < map_size.x && 0 <= y < map_size.y,
            pos matches Some(t) ==> t.x == x && t.y == y,
    {
        if x < 0 || y < 0 {
            None
        } else {
            let tile_pos = TilePos::new(x as u32, y as u32);
            if tile_pos.within_map_bounds(map_size) {
                Some(tile_pos)
            } else {
                None
            }
        }
    }
}

} // verus!
