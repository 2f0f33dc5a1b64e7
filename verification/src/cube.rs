//! Cube coordinates: the three-component form used for distances and for
//! rounding.

use crate::axial::AxialPos;
use crate::model::{fits_i32, Cube};
use vstd::prelude::*;

verus! {

/// One of the three axes of a cube coordinate.
#[derive(Clone, Copy, Debug, PartialEq, Eq, Structural, Hash)]
pub enum CubeAxis {
    Q,
    R,
    S,
}

impl CubeAxis {
    /// The axis with the largest of three rounding residuals. Among equal
    /// residuals `r` is taken before `s`, and `s` before `q`.
    pub open spec fn largest_residual(q_residual: int, r_residual: int, s_residual: int)
        -> CubeAxis {
        if r_residual >= q_residual && r_residual >= s_residual {
            CubeAxis::R
        } else if s_residual >= q_residual {
            CubeAxis::S
        } else {
            CubeAxis::Q
        }
    }

    /// The residual that belongs to this axis.
    pub open spec fn pick(self, q_residual: int, r_residual: int, s_residual: int) -> int {
        match self {
            CubeAxis::Q => q_residual,
            CubeAxis::R => r_residual,
            CubeAxis::S => s_residual,
        }
    }

    /// No residual is larger than the one on the axis that
    /// [`CubeAxis::largest_residual`] names.
    pub proof fn largest_residual_is_largest(q_residual: int, r_residual: int, s_residual: int)
        ensures
            ({
                let axis = CubeAxis::largest_residual(q_residual, r_residual, s_residual);
                let largest = axis.pick(q_residual, r_residual, s_residual);
                largest >= q_residual && largest >= r_residual && largest >= s_residual
            }),
    {
    }

    /// Names the axis on which rounding moved a coordinate the furthest.
    /// Each residual is a magnitude, given as an integer that orders as the
    /// residuals do.
    pub fn of_largest_residual(q_residual: u32, r_residual: u32, s_residual: u32) -> (axis:
        CubeAxis)
        ensures
            axis == CubeAxis::largest_residual(
                q_residual as int,
                r_residual as int,
                s_residual as int,
            ),
    {
        if r_residual >= q_residual && r_residual >= s_residual {
            CubeAxis::R
        } else if s_residual >= q_residual {
            CubeAxis::S
        } else {
            CubeAxis::Q
        }
    }
}

/// A position in a hex grid, labelled by three `i32` digits that sum to
/// zero. The fields are private, so a value can only come from a conversion
/// that establishes the sum.
#[derive(Clone, Copy, Debug, PartialEq, Eq, Structural, PartialOrd, Ord, Hash)]
pub struct CubePos {
    q: i32,
    r: i32,
    s: i32,
}

impl View for CubePos {
    type V = Cube;

    closed spec fn view(&self) -> Cube {
        Cube { q: self.q as int, r: self.r as int, s: self.s as int }
    }
}

impl CubePos {
    /// Holds of every position that executable code can get hold of.
    #[verifier::type_invariant]
    spec fn zero_sum(self) -> bool {
        self.q + self.r + self.s == 0
    }

    /// Two positions with the same view are the same position.
    pub proof fn view_is_injective(a: CubePos, b: CubePos)
        requires
            a@ == b@,
        ensures
            a == b,
    {
    }

    /// The cube position of an axial position.
    pub fn from_axial(axial_pos: AxialPos) -> (cube_pos: CubePos)
        requires
            fits_i32(Cube::of_axial(axial_pos@).s),
        ensures
            cube_pos@ == Cube::of_axial(axial_pos@),
            cube_pos@.is_valid(),
    {
        let AxialPos { q, r } = axial_pos;
        let s: i64 = -(q as i64 + r as i64);
        CubePos { q, r, s: s as i32 }
    }

    /// The cube position nearest to three components that were rounded one
    /// by one: the component on `recomputed` is dropped and made anew from
    /// the other two, so that the three sum to zero.
    pub fn from_rounded(q: i32, r: i32, s: i32, recomputed: CubeAxis) -> (cube_pos: CubePos)
        requires
            (Cube { q: q as int, r: r as int, s: s as int }).with_recomputed(recomputed).fits_i32(),
        ensures
            cube_pos@ == (Cube { q: q as int, r: r as int, s: s as int }).with_recomputed(
                recomputed,
            ),
            cube_pos@.is_valid(),
    {
        match recomputed {
            CubeAxis::Q => {
                let q: i64 = -(r as i64 + s as i64);
                CubePos { q: q as i32, r, s }
            },
            CubeAxis::R => {
                let r: i64 = -(q as i64 + s as i64);
                CubePos { q, r: r as i32, s }
            },
            CubeAxis::S => {
                let s: i64 = -(q as i64 + r as i64);
                CubePos { q, r, s: s as i32 }
            },
        }
    }

    /// The first component. With the other two it sums to zero.
    pub fn q(&self) -> (q: i32)
        ensures
            q == self@.q,
            self@.is_valid(),
    {
        proof {
            use_type_invariant(self);
        }
        self.q
    }

    /// The second component. With the other two it sums to zero.
    pub fn r(&self) -> (r: i32)
        ensures
            r == self@.r,
            self@.is_valid(),
    {
        proof {
            use_type_invariant(self);
        }
        self.r
    }

    /// The third component. With the other two it sums to zero.
    pub fn s(&self) -> (s: i32)
        ensures
            s == self@.s,
            self@.is_valid(),
    {
        proof {
            use_type_invariant(self);
        }
        self.s
    }

    /// The distance of this position from the origin, in cells.
    pub fn magnitude(&self) -> (magnitude: i32)
        requires
            self@.magnitude() <= i32::MAX,
        ensures
            magnitude == self@.magnitude(),
    {
        let q: i64 = if self.q < 0 { -(self.q as i64) } else { self.q as i64 };
        let r: i64 = if self.r < 0 { -(self.r as i64) } else { self.r as i64 };
        let s: i64 = if self.s < 0 { -(self.s as i64) } else { self.s as i64 };
        ((q + r + s) / 2) as i32
    }
}

} // verus!
