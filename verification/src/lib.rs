//! Transvoxel iso-surface extraction.
//!
//! Extracts a triangle mesh approximating the iso-surface of a scalar voxel
//! field over a cubic block of space, with optional double-resolution
//! "transition" faces that join seamlessly with neighbouring blocks extracted
//! at twice the subdivision count.

pub mod algorithm;
pub mod aux_tables;
pub mod density_caching;
pub mod extraction;
pub mod generic_mesh;
pub mod mesh_builder;
pub mod prelude;
pub mod rotation;
pub mod tables;
pub mod tables_wrapper;
pub mod traits;
pub mod transition_sides;
pub mod voxel_coordinates;
pub mod voxel_source;

pub use transition_sides::no_side;
