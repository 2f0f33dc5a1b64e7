use hex_grid::axial::AxialPos;
use hex_grid::offset::{ColEvenPos, ColOddPos, RowEvenPos, RowOddPos};
use hex_grid::tiles::{TilePos, TilemapSize};

#[test]
fn negative_axial_has_no_tile_pos() {
    let a = AxialPos { q: -1, r: 0 };
    for (x, y) in [(0, 0), (1, 1), (4, 7), (u32::MAX, u32::MAX)] {
        assert_eq!(a.as_tile_pos(&TilemapSize { x, y }), None);
    }
    assert_eq!(AxialPos { q: 0, r: -1 }.as_tile_pos(&TilemapSize { x: 4, y: 4 }), None);
}

#[test]
fn tile_pos_exists_strictly_inside_the_map() {
    let size = TilemapSize { x: 4, y: 3 };
    assert_eq!(AxialPos { q: 0, r: 0 }.as_tile_pos(&size), Some(TilePos { x: 0, y: 0 }));
    assert_eq!(AxialPos { q: 3, r: 2 }.as_tile_pos(&size), Some(TilePos { x: 3, y: 2 }));
    assert_eq!(AxialPos { q: 4, r: 2 }.as_tile_pos(&size), None);
    assert_eq!(AxialPos { q: 3, r: 3 }.as_tile_pos(&size), None);
}

#[test]
fn empty_map_holds_no_tile() {
    assert_eq!(AxialPos { q: 0, r: 0 }.as_tile_pos(&TilemapSize { x: 0, y: 5 }), None);
    assert_eq!(AxialPos { q: 0, r: 0 }.as_tile_pos(&TilemapSize { x: 5, y: 0 }), None);
}

#[test]
fn offset_positions_index_tiles_by_their_own_components() {
    let size = TilemapSize { x: 4, y: 3 };
    assert_eq!(RowOddPos { q: 3, r: 2 }.as_tile_pos(&size), Some(TilePos { x: 3, y: 2 }));
    assert_eq!(RowEvenPos { q: 1, r: 0 }.as_tile_pos(&size), Some(TilePos { x: 1, y: 0 }));
    assert_eq!(ColOddPos { q: 0, r: 2 }.as_tile_pos(&size), Some(TilePos { x: 0, y: 2 }));
    assert_eq!(ColEvenPos { q: 2, r: 1 }.as_tile_pos(&size), Some(TilePos { x: 2, y: 1 }));
    assert_eq!(RowOddPos { q: 4, r: 2 }.as_tile_pos(&size), None);
    assert_eq!(RowEvenPos { q: -1, r: 0 }.as_tile_pos(&size), None);
    assert_eq!(ColOddPos { q: 0, r: 3 }.as_tile_pos(&size), None);
    assert_eq!(ColEvenPos { q: 2, r: -1 }.as_tile_pos(&size), None);
}

#[test]
fn tile_pos_maps_x_to_q_and_y_to_r() {
    let tile_pos = TilePos { x: 3, y: 7 };
    assert_eq!(AxialPos::from(&tile_pos), AxialPos { q: 3, r: 7 });
    assert_eq!(RowOddPos::from(&tile_pos), RowOddPos { q: 3, r: 7 });
    assert_eq!(RowEvenPos::from(&tile_pos), RowEvenPos { q: 3, r: 7 });
    assert_eq!(ColOddPos::from(&tile_pos), ColOddPos { q: 3, r: 7 });
    assert_eq!(ColEvenPos::from(&tile_pos), ColEvenPos { q: 3, r: 7 });
}

#[test]
fn tile_pos_survives_the_trip_through_axial() {
    let size = TilemapSize { x: 6, y: 6 };
    for x in 0..6 {
        for y in 0..6 {
            let tile_pos = TilePos::new(x, y);
            assert_eq!(AxialPos::from(&tile_pos).as_tile_pos(&size), Some(tile_pos));
        }
    }
}

#[test]
fn from_i32_pair_checks_sign_and_bounds() {
    let size = TilemapSize { x: 2, y: 2 };
    assert_eq!(TilePos::from_i32_pair(1, 1, &size), Some(TilePos { x: 1, y: 1 }));
    assert_eq!(TilePos::from_i32_pair(2, 1, &size), None);
    assert_eq!(TilePos::from_i32_pair(1, -1, &size), None);
    assert_eq!(TilePos::from_i32_pair(i32::MIN, i32::MIN, &size), None);
    assert!(TilePos { x: 1, y: 0 }.within_map_bounds(&size));
    assert!(!TilePos { x: 0, y: 2 }.within_map_bounds(&size));
}
