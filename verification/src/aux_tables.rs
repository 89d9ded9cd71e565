//! Small fixed tables of the algorithm itself: the corner offsets of a
//! regular cell, the thirteen grid points of a transition cell, and the bit
//! contribution of each high resolution face voxel to the transition case
//! number.

use vstd::prelude::*;

use crate::voxel_coordinates::{HighResolutionVoxelDelta, RegularVoxelDelta};

verus! {

/// Index of one of the eight corner voxels of a regular cell (0 to 7).
#[derive(Clone, Copy, Debug, PartialEq, Eq, Structural)]
pub struct RegularCellVoxelIndex(pub usize);

/// The offset of corner `index` from a regular cell's base voxel: corner 0 is
/// the base, and bits 0, 1 and 2 of the index step along X, Y and Z.
pub open spec fn regular_cell_voxel_delta(index: int) -> RegularVoxelDelta {
    RegularVoxelDelta {
        x: if index % 2 == 1 {
            1
        } else {
            0
        },
        y: if index % 4 >= 2 {
            1
        } else {
            0
        },
        z: if index >= 4 {
            1
        } else {
            0
        },
    }
}

/// The offset of corner `index` from a regular cell's base voxel.
pub fn get_regular_voxel_delta(index: RegularCellVoxelIndex) -> (r: RegularVoxelDelta)
    requires
        index.0 < 8,
    ensures
        r == regular_cell_voxel_delta(index.0 as int),
        0 <= r.x <= 1,
        0 <= r.y <= 1,
        0 <= r.z <= 1,
{
    match index.0 {
        0 => RegularVoxelDelta { x: 0, y: 0, z: 0 },
        1 => RegularVoxelDelta { x: 1, y: 0, z: 0 },
        2 => RegularVoxelDelta { x: 0, y: 1, z: 0 },
        3 => RegularVoxelDelta { x: 1, y: 1, z: 0 },
        4 => RegularVoxelDelta { x: 0, y: 0, z: 1 },
        5 => RegularVoxelDelta { x: 1, y: 0, z: 1 },
        6 => RegularVoxelDelta { x: 0, y: 1, z: 1 },
        _ => RegularVoxelDelta { x: 1, y: 1, z: 1 },
    }
}

/// Index of one of the thirteen grid points of a transition cell (0 to 12).
#[derive(Clone, Copy, Debug, PartialEq, Eq, Structural)]
pub struct TransitionCellGridPointIndex(pub usize);

/// One of the thirteen grid points of a transition cell: either one of the
/// nine points of the 3x3 high resolution face pattern, or one of the four
/// corners of the low resolution face (given as cell offsets in U and V).
#[derive(Clone, Copy, Debug, PartialEq, Eq, Structural)]
pub enum TransitionCellGridPoint {
    /// A point on the high resolution face, at the given UVW delta (W = 0).
    HighResFace(HighResolutionVoxelDelta),
    /// A corner of the low resolution face, at the given cell offsets.
    RegularFace(usize, usize),
}

/// The grid point table: entries 0 to 8 walk the 3x3 high resolution face
/// pattern row by row; entries 9 to 12 are the low resolution face corners.
pub open spec fn transition_cell_grid_point_spec(index: int) -> TransitionCellGridPoint {
    if index < 9 {
        TransitionCellGridPoint::HighResFace(
            HighResolutionVoxelDelta { u: (index % 3) as isize, v: (index / 3) as isize, w: 0 },
        )
    } else {
        TransitionCellGridPoint::RegularFace(
            if (index - 9) % 2 == 1 {
                1
            } else {
                0
            },
            if index >= 11 {
                1
            } else {
                0
            },
        )
    }
}

/// The grid point of a transition cell at `index` in the grid point table.
pub fn transition_cell_grid_point(index: TransitionCellGridPointIndex) -> (r:
    TransitionCellGridPoint)
    requires
        index.0 < 13,
    ensures
        r == transition_cell_grid_point_spec(index.0 as int),
{
    match index.0 {
        0 => TransitionCellGridPoint::HighResFace(HighResolutionVoxelDelta { u: 0, v: 0, w: 0 }),
        1 => TransitionCellGridPoint::HighResFace(HighResolutionVoxelDelta { u: 1, v: 0, w: 0 }),
        2 => TransitionCellGridPoint::HighResFace(HighResolutionVoxelDelta { u: 2, v: 0, w: 0 }),
        3 => TransitionCellGridPoint::HighResFace(HighResolutionVoxelDelta { u: 0, v: 1, w: 0 }),
        4 => TransitionCellGridPoint::HighResFace(HighResolutionVoxelDelta { u: 1, v: 1, w: 0 }),
        5 => TransitionCellGridPoint::HighResFace(HighResolutionVoxelDelta { u: 2, v: 1, w: 0 }),
        6 => TransitionCellGridPoint::HighResFace(HighResolutionVoxelDelta { u: 0, v: 2, w: 0 }),
        7 => TransitionCellGridPoint::HighResFace(HighResolutionVoxelDelta { u: 1, v: 2, w: 0 }),
        8 => TransitionCellGridPoint::HighResFace(HighResolutionVoxelDelta { u: 2, v: 2, w: 0 }),
        9 => TransitionCellGridPoint::RegularFace(0, 0),
        10 => TransitionCellGridPoint::RegularFace(1, 0),
        11 => TransitionCellGridPoint::RegularFace(0, 1),
        _ => TransitionCellGridPoint::RegularFace(1, 1),
    }
}

/// The UVW delta of the `i`-th voxel contributing to a transition cell's case
/// number: the 3x3 high resolution face pattern, row by row.
pub open spec fn transition_case_delta(i: int) -> HighResolutionVoxelDelta {
    HighResolutionVoxelDelta { u: (i % 3) as isize, v: (i / 3) as isize, w: 0 }
}

/// The case number contribution of the `i`-th high resolution face voxel.
/// The non-power-of-two ordering follows the Transvoxel case numbering and
/// must be kept exactly as it is.
pub open spec fn transition_case_value(i: int) -> usize {
    if i == 0 {
        0x01
    } else if i == 1 {
        0x02
    } else if i == 2 {
        0x04
    } else if i == 3 {
        0x80
    } else if i == 4 {
        0x100
    } else if i == 5 {
        0x08
    } else if i == 6 {
        0x40
    } else if i == 7 {
        0x20
    } else {
        0x10
    }
}

/// The `i`-th entry of the transition case contribution table: which high
/// resolution face voxel to test, and which value it adds to the case number
/// when its density is inside the threshold.
pub fn transition_case_contribution(i: usize) -> (r: (HighResolutionVoxelDelta, usize))
    requires
        i < 9,
    ensures
        r.0 == transition_case_delta(i as int),
        r.1 == transition_case_value(i as int),
        0 <= r.0.u <= 2,
        0 <= r.0.v <= 2,
        r.0.w == 0,
{
    match i {
        0 => (HighResolutionVoxelDelta { u: 0, v: 0, w: 0 }, 0x01),
        1 => (HighResolutionVoxelDelta { u: 1, v: 0, w: 0 }, 0x02),
        2 => (HighResolutionVoxelDelta { u: 2, v: 0, w: 0 }, 0x04),
        3 => (HighResolutionVoxelDelta { u: 0, v: 1, w: 0 }, 0x80),
        4 => (HighResolutionVoxelDelta { u: 1, v: 1, w: 0 }, 0x100),
        5 => (HighResolutionVoxelDelta { u: 2, v: 1, w: 0 }, 0x08),
        6 => (HighResolutionVoxelDelta { u: 0, v: 2, w: 0 }, 0x40),
        7 => (HighResolutionVoxelDelta { u: 1, v: 2, w: 0 }, 0x20),
        _ => (HighResolutionVoxelDelta { u: 2, v: 2, w: 0 }, 0x10),
    }
}

} // verus!
