//! Common convenient re-exports.

pub use crate::extraction::{extract, extract_from_field};
pub use crate::transition_sides;
pub use crate::voxel_source::Block;
