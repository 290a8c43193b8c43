//! Movement and coordinate core of a hex-grid game: cube coordinates and the
//! six neighbour directions, the map grid, colour settings, key handling and
//! the discrete decisions of animated movement.

pub mod controls;
pub mod geometry;
pub mod map_data;
pub mod settings;
pub mod transition;
