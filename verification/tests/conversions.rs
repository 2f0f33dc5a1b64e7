use hex_grid::axial::{ceiled_division_by_2, floored_division_by_2, AxialPos};
use hex_grid::cube::CubePos;
use hex_grid::offset::{ColEvenPos, ColOddPos, RowEvenPos, RowOddPos};

#[test]
fn floored_division_rounds_down() {
    let expected = [(-4, -2), (-3, -2), (-2, -1), (-1, -1), (0, 0), (1, 0), (2, 1), (3, 1)];
    for (x, half) in expected {
        assert_eq!(floored_division_by_2(x), half, "x = {}", x);
    }
    assert_eq!(floored_division_by_2(i32::MIN), -1_073_741_824);
    assert_eq!(floored_division_by_2(i32::MAX), 1_073_741_823);
}

#[test]
fn ceiled_division_follows_its_two_formulas() {
    let expected =
        [(-4, -3), (-3, -2), (-2, -2), (-1, -1), (0, 0), (1, 1), (2, 1), (3, 2), (4, 2)];
    for (x, half) in expected {
        assert_eq!(ceiled_division_by_2(x), half, "x = {}", x);
    }
    assert_eq!(ceiled_division_by_2(i32::MAX), 1_073_741_824);
    assert_eq!(ceiled_division_by_2(i32::MIN), -1_073_741_825);
}

#[test]
fn row_odd_to_axial_subtracts_half_the_row() {
    let axial_pos = AxialPos::from_row_odd(RowOddPos { q: 2, r: 3 });
    assert_eq!(axial_pos, AxialPos { q: 1, r: 3 });
}

#[test]
fn row_odd_shear_floors_on_negative_rows() {
    assert_eq!(RowOddPos::from_axial(AxialPos { q: 0, r: -3 }), RowOddPos { q: -2, r: -3 });
    assert_eq!(AxialPos::from_row_odd(RowOddPos { q: -2, r: -3 }), AxialPos { q: 0, r: -3 });
}

#[test]
fn each_variant_shears_its_own_axis() {
    let axial_pos = AxialPos { q: 3, r: 5 };
    assert_eq!(RowOddPos::from_axial(axial_pos), RowOddPos { q: 5, r: 5 });
    assert_eq!(RowEvenPos::from_axial(axial_pos), RowEvenPos { q: 6, r: 5 });
    assert_eq!(ColOddPos::from_axial(axial_pos), ColOddPos { q: 3, r: 6 });
    assert_eq!(ColEvenPos::from_axial(axial_pos), ColEvenPos { q: 3, r: 7 });
}

#[test]
fn offset_conversions_round_trip_from_axial() {
    for q in -9..=9 {
        for r in -9..=9 {
            let a = AxialPos { q, r };
            assert_eq!(AxialPos::from_row_odd(RowOddPos::from_axial(a)), a);
            assert_eq!(AxialPos::from_row_even(RowEvenPos::from_axial(a)), a);
            assert_eq!(AxialPos::from_col_odd(ColOddPos::from_axial(a)), a);
            assert_eq!(AxialPos::from_col_even(ColEvenPos::from_axial(a)), a);
        }
    }
}

#[test]
fn offset_conversions_round_trip_from_offset() {
    for q in -9..=9 {
        for r in -9..=9 {
            let p = RowOddPos { q, r };
            assert_eq!(RowOddPos::from_axial(AxialPos::from_row_odd(p)), p);
            let p = RowEvenPos { q, r };
            assert_eq!(RowEvenPos::from_axial(AxialPos::from_row_even(p)), p);
            let p = ColOddPos { q, r };
            assert_eq!(ColOddPos::from_axial(AxialPos::from_col_odd(p)), p);
            let p = ColEvenPos { q, r };
            assert_eq!(ColEvenPos::from_axial(AxialPos::from_col_even(p)), p);
        }
    }
}

#[test]
fn cube_of_axial_sums_to_zero() {
    let cube_pos = CubePos::from_axial(AxialPos { q: 4, r: -7 });
    assert_eq!((cube_pos.q(), cube_pos.r(), cube_pos.s()), (4, -7, 3));
    assert_eq!(cube_pos.q() + cube_pos.r() + cube_pos.s(), 0);
}

#[test]
fn axial_cube_round_trip() {
    for q in -9..=9 {
        for r in -9..=9 {
            let a = AxialPos { q, r };
            let c = CubePos::from_axial(a);
            assert_eq!(AxialPos::from(c), a);
            assert_eq!(CubePos::from_axial(AxialPos::from(c)), c);
        }
    }
}

#[test]
fn cube_of_axial_at_the_edge_of_the_range() {
    let cube_pos = CubePos::from_axial(AxialPos { q: i32::MAX, r: 1 });
    assert_eq!(cube_pos.s(), i32::MIN);
}
