//! Coordinate algebra for hexagonal grids.
//!
//! A hex cell can be addressed in axial, cube or one of four offset
//! coordinate systems. This crate converts between them, measures grid
//! distance and maps coordinates onto the rectangular index space of a
//! bounded tile map. Every executable function carries a contract stated
//! over the unbounded integer model in [`model`].

pub mod axial;
pub mod cube;
pub mod model;
pub mod offset;
pub mod tiles;
