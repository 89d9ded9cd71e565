//! Structs for addressing discrete voxels.
//!
//! If you subdivide the world or a volume with a grid, "voxels" are the
//! intersection points of the grids.  The cubes between them are called
//! "cells".
//!
//! "Regular" means: at the lower voxel resolution, defined by the block's
//! subdivisions, without considering transition faces.
//!
//! Regular cells and voxels are addressed by x,y,z indices.
//!
//! Transition cells can only appear on external faces of the block.  For
//! addressing them a rotated UVW system is defined per face, where UV are
//! coordinates along the face and W is perpendicular to it, pointing into the
//! block.  For cells, 1 UV unit is 1 cell.  For high resolution voxels
//! ([`HighResolutionVoxelDelta`]), 1 unit is half a cell: the face holds
//! samples at twice the block's resolution.

use vstd::prelude::*;

use crate::rotation::{
    lemma_rotation_components_bounded, lemma_unit_mul, regular_voxel_index_for_face,
    rotation_for_side, Rotation,
};
use crate::transition_sides::TransitionSide;

verus! {

/// The regular voxel of the double-resolution neighbour block that coincides
/// with a high resolution voxel on a transition face: the neighbour block
/// lies one step along the face's W axis and is subdivided twice as finely.
pub open spec fn higher_res_neighbour_numerators(
    this_block_size: int,
    voxel_index: HighResolutionVoxelIndex,
) -> (int, int, int) {
    let rot = rotation_for_side(voxel_index.cell.side);
    let n2 = 2 * this_block_size;
    let cu = 2 * voxel_index.cell.cell_u + voxel_index.delta.u;
    let cv = 2 * voxel_index.cell.cell_v + voxel_index.delta.v;
    let dw = voxel_index.delta.w;
    (
        n2 * (rot.uvw_base.x + rot.w.x) + dw * rot.w.x + cu * rot.u.x + cv * rot.v.x,
        n2 * (rot.uvw_base.y + rot.w.y) + dw * rot.w.y + cu * rot.u.y + cv * rot.v.y,
        n2 * (rot.uvw_base.z + rot.w.z) + dw * rot.w.z + cu * rot.u.z + cv * rot.v.z,
    )
}

/// Seamlessness of the face grids: every high resolution voxel of a
/// transition face sits exactly where the neighbouring double-resolution
/// block has a regular voxel.  In units of half a cell (denominator 2N for
/// both blocks), the voxel's position within this block equals the
/// neighbour's voxel index shifted by one block length along the face's
/// outward axis; since the neighbour block's base is exactly one block
/// length along that axis, the two world positions coincide.
pub proof fn lemma_face_position_matches_neighbour(
    block_size: int,
    voxel_index: HighResolutionVoxelIndex,
)
    requires
        1 <= block_size,
    ensures
        ({
            let nums = crate::rotation::position_in_block_numerators(block_size, voxel_index);
            let neighbour = higher_res_neighbour_numerators(block_size, voxel_index);
            let w = rotation_for_side(voxel_index.cell.side).w;
            &&& nums.0 == neighbour.0 - 2 * block_size * w.x
            &&& nums.1 == neighbour.1 - 2 * block_size * w.y
            &&& nums.2 == neighbour.2 - 2 * block_size * w.z
        }),
{
    let rot = rotation_for_side(voxel_index.cell.side);
    let n2 = 2 * block_size;
    let cu = 2 * voxel_index.cell.cell_u + voxel_index.delta.u;
    let cv = 2 * voxel_index.cell.cell_v + voxel_index.delta.v;
    let dw = voxel_index.delta.w;
    lemma_rotation_components_bounded(rot);
    assert((2 * block_size) * (rot.uvw_base.x + rot.w.x) == (2 * block_size) * rot.uvw_base.x + (2
        * block_size) * rot.w.x && (2 * block_size) * rot.uvw_base.x == rot.uvw_base.x * 2
        * block_size && dw * rot.w.x == rot.w.x * dw && cu * rot.u.x == rot.u.x * cu && cv
        * rot.v.x == rot.v.x * cv) by (nonlinear_arith);
    assert((2 * block_size) * (rot.uvw_base.y + rot.w.y) == (2 * block_size) * rot.uvw_base.y + (2
        * block_size) * rot.w.y && (2 * block_size) * rot.uvw_base.y == rot.uvw_base.y * 2
        * block_size && dw * rot.w.y == rot.w.y * dw && cu * rot.u.y == rot.u.y * cu && cv
        * rot.v.y == rot.v.y * cv) by (nonlinear_arith);
    assert((2 * block_size) * (rot.uvw_base.z + rot.w.z) == (2 * block_size) * rot.uvw_base.z + (2
        * block_size) * rot.w.z && (2 * block_size) * rot.uvw_base.z == rot.uvw_base.z * 2
        * block_size && dw * rot.w.z == rot.w.z * dw && cu * rot.u.z == rot.u.z * cu && cv
        * rot.v.z == rot.v.z * cv) by (nonlinear_arith);
}

/// Subdivision counts the engine accepts: every flat-array size and every
/// index computation made over a block with `n` subdivisions stays within
/// `usize` (and the small signed intermediates within `isize`).
pub open spec fn fits_subdivisions(n: int) -> bool {
    &&& 1 <= n
    &&& (n + 1) * (n + 1) * (n + 1) <= usize::MAX
    &&& 6 * (n + 1) * (n + 1) <= usize::MAX
    &&& 4 * n * n * n <= usize::MAX
    &&& 60 * n * n <= usize::MAX
    &&& 6 * (2 * n + 1) * (2 * n + 1) <= usize::MAX
    &&& 16 * n <= isize::MAX
}

/// The small products and sums that index computations need all fit the
/// machine as soon as the subdivision count does.
pub proof fn lemma_fits_consequences(n: int)
    requires
        fits_subdivisions(n),
    ensures
        n + 1 <= usize::MAX,
        (n + 1) * (n + 1) <= usize::MAX,
        6 * (n + 1) <= usize::MAX,
        2 * n + 1 <= usize::MAX,
        (2 * n + 1) * (2 * n + 1) <= usize::MAX,
        n * n <= usize::MAX,
        4 * n * n <= usize::MAX,
        6 * n <= usize::MAX,
        6 * n * n <= usize::MAX,
        10 * n * n <= usize::MAX,
{
    assert((n + 1) <= (n + 1) * (n + 1) && (n + 1) * (n + 1) <= (n + 1) * (n + 1) * (n + 1))
        by (nonlinear_arith)
        requires
            n >= 1,
    ;
    assert(6 * (n + 1) <= 6 * (n + 1) * (n + 1)) by (nonlinear_arith)
        requires
            n >= 1,
    ;
    assert(2 * n + 1 <= (2 * n + 1) * (2 * n + 1) && 6 * ((2 * n + 1) * (2 * n + 1)) == 6 * (2 * n
        + 1) * (2 * n + 1)) by (nonlinear_arith)
        requires
            n >= 1,
    ;
    assert(n * n <= 60 * n * n && 4 * n * n <= 60 * n * n && 6 * n <= 60 * n * n && 6 * n * n <= 60
        * n * n && 10 * n * n <= 60 * n * n) by (nonlinear_arith)
        requires
            n >= 1,
    ;
    assert((2 * n + 1) * (2 * n + 1) <= 6 * (2 * n + 1) * (2 * n + 1)) by (nonlinear_arith)
        requires
            n >= 1,
    ;
}

/// Coordinates of a regular cell within the block.
#[derive(Clone, Copy, Debug, PartialEq, Eq, Structural)]
pub struct RegularCellIndex {
    /// X. From 0 to `subdivisions` - 1 (included)
    pub x: usize,
    /// Y. From 0 to `subdivisions` - 1 (included)
    pub y: usize,
    /// Z. From 0 to `subdivisions` - 1 (included)
    pub z: usize,
}

/// XYZ index of a regular voxel relative to the base of a regular cell, or to
/// another regular voxel.  1 unit is 1 cell's size.
#[derive(Clone, Copy, Debug, PartialEq, Eq, Structural)]
pub struct RegularVoxelDelta {
    /// X
    pub x: isize,
    /// Y
    pub y: isize,
    /// Z
    pub z: isize,
}

/// Index of a regular voxel relative to a block.  It can refer to a voxel
/// outside of the block, as we need to reach farther out to compute normals.
#[derive(Clone, Copy, Debug, PartialEq, Eq, Structural)]
pub struct RegularVoxelIndex {
    /// X-index. From -1 to `subdivisions` + 1 (included)
    pub x: isize,
    /// Y-index. From -1 to `subdivisions` + 1 (included)
    pub y: isize,
    /// Z-index. From -1 to `subdivisions` + 1 (included)
    pub z: isize,
}

impl RegularCellIndex {
    /// The regular voxel reached from this cell's base voxel by `delta`.
    pub fn voxel(&self, delta: &RegularVoxelDelta) -> (r: RegularVoxelIndex)
        requires
            self.x + delta.x <= isize::MAX,
            self.y + delta.y <= isize::MAX,
            self.z + delta.z <= isize::MAX,
            isize::MIN <= self.x + delta.x,
            isize::MIN <= self.y + delta.y,
            isize::MIN <= self.z + delta.z,
            self.x <= isize::MAX,
            self.y <= isize::MAX,
            self.z <= isize::MAX,
        ensures
            r.x == self.x + delta.x,
            r.y == self.y + delta.y,
            r.z == self.z + delta.z,
    {
        RegularVoxelIndex {
            x: self.x as isize + delta.x,
            y: self.y as isize + delta.y,
            z: self.z as isize + delta.z,
        }
    }
}

impl RegularVoxelIndex {
    /// The regular voxel reached from this voxel by `delta`.
    pub fn offset(&self, delta: &RegularVoxelDelta) -> (r: RegularVoxelIndex)
        requires
            isize::MIN <= self.x + delta.x <= isize::MAX,
            isize::MIN <= self.y + delta.y <= isize::MAX,
            isize::MIN <= self.z + delta.z <= isize::MAX,
        ensures
            r.x == self.x + delta.x,
            r.y == self.y + delta.y,
            r.z == self.z + delta.z,
    {
        RegularVoxelIndex { x: self.x + delta.x, y: self.y + delta.y, z: self.z + delta.z }
    }
}

/// Index of a transition cell within a block.
#[derive(Clone, Copy, Debug, PartialEq, Eq, Structural)]
pub struct TransitionCellIndex {
    /// The block face on which this cell is.
    pub side: TransitionSide,
    /// U-index. From 0 to `subdivisions` - 1 (included)
    pub cell_u: usize,
    /// V-index. From 0 to `subdivisions` - 1 (included)
    pub cell_v: usize,
}

impl TransitionCellIndex {
    /// Shorthand constructor.
    pub fn from(side: TransitionSide, cell_u: usize, cell_v: usize) -> (r: TransitionCellIndex)
        ensures
            r == (TransitionCellIndex { side, cell_u, cell_v }),
    {
        TransitionCellIndex { side, cell_u, cell_v }
    }

    /// The high resolution voxel reached from this cell's base by `delta`.
    pub fn high_res_voxel(&self, delta: &HighResolutionVoxelDelta) -> (r: HighResolutionVoxelIndex)
        ensures
            r.cell == *self,
            r.delta == *delta,
    {
        HighResolutionVoxelIndex { cell: *self, delta: *delta }
    }
}

/// Index of a high resolution voxel within a transition cell.
#[derive(Clone, Copy, Debug, PartialEq, Eq, Structural)]
pub struct HighResolutionVoxelDelta {
    /// U. From -1 to 3 (included). 0 to 2 are within the cell. -1 and 3
    /// extend out, for gradient computations
    pub u: isize,
    /// V. From -1 to 3 (included). 0 to 2 are within the cell. -1 and 3
    /// extend out, for gradient computations
    pub v: isize,
    /// W. From -1 to 1. 0 is on the face, 1 is within the cell, -1 is
    /// outside the cell
    pub w: isize,
}

impl HighResolutionVoxelDelta {
    /// Shorthand constructor.
    pub fn from(u: isize, v: isize, w: isize) -> (r: HighResolutionVoxelDelta)
        ensures
            r == (HighResolutionVoxelDelta { u, v, w }),
    {
        HighResolutionVoxelDelta { u, v, w }
    }
}

/// Index of a high resolution voxel within a block.
#[derive(Clone, Copy, Debug, PartialEq, Eq, Structural)]
pub struct HighResolutionVoxelIndex {
    /// Cell within the block.
    pub cell: TransitionCellIndex,
    /// Voxel within the cell.
    pub delta: HighResolutionVoxelDelta,
}

impl HighResolutionVoxelIndex {
    /// Shorthand constructor.
    pub fn from(
        side: TransitionSide,
        cell_u: usize,
        cell_v: usize,
        u: isize,
        v: isize,
        w: isize,
    ) -> (r: HighResolutionVoxelIndex)
        ensures
            r == (HighResolutionVoxelIndex {
                cell: TransitionCellIndex { side, cell_u, cell_v },
                delta: HighResolutionVoxelDelta { u, v, w },
            }),
    {
        HighResolutionVoxelIndex {
            cell: TransitionCellIndex { side, cell_u, cell_v },
            delta: HighResolutionVoxelDelta { u, v, w },
        }
    }

    /// The index ranges a block with `n` subdivisions supports: the cell
    /// within the face, the UV delta reaching at most one step outside the
    /// cell's 3x3 pattern, and W at most one step off the face.
    pub open spec fn valid_for(self, n: int) -> bool {
        &&& self.cell.cell_u < n
        &&& self.cell.cell_v < n
        &&& -1 <= self.delta.u <= 3
        &&& -1 <= self.delta.v <= 3
        &&& -1 <= self.delta.w <= 1
    }

    /// Model of `on_regular_grid`: the voxel coincides with a voxel of the
    /// regular grid exactly when U and V are even and W is zero.
    pub open spec fn on_regular_grid_spec(self) -> bool {
        self.delta.u % 2 == 0 && self.delta.v % 2 == 0 && self.delta.w == 0
    }

    /// Whether the voxel coincides with a voxel on the "regular" grid.
    pub fn on_regular_grid(&self) -> (r: bool)
        requires
            -8 <= self.delta.u <= 8,
            -8 <= self.delta.v <= 8,
        ensures
            r == self.on_regular_grid_spec(),
    {
        let du_on_regular_grid = (self.delta.u % 2) == 0;
        let dv_on_regular_grid = (self.delta.v % 2) == 0;
        let dw_on_regular_grid = self.delta.w == 0;
        du_on_regular_grid && dv_on_regular_grid && dw_on_regular_grid
    }

    /// Convert to the coinciding regular voxel index.  Only valid if
    /// `self.on_regular_grid()`.
    pub fn as_regular_index(
        &self,
        rotation: &Rotation,
        block_subdivisions: usize,
    ) -> (r: RegularVoxelIndex)
        requires
            self.on_regular_grid_spec(),
            rotation.wf(),
            rotation.side == self.cell.side,
            fits_subdivisions(block_subdivisions as int),
            self.cell.cell_u < block_subdivisions,
            self.cell.cell_v < block_subdivisions,
            0 <= self.delta.u <= 3,
            0 <= self.delta.v <= 3,
        ensures
            ({
                let nums = regular_voxel_index_for_face(
                    block_subdivisions as int,
                    self.cell,
                    self.delta.u as int / 2,
                    self.delta.v as int / 2,
                );
                r.x == nums.0 && r.y == nums.1 && r.z == nums.2
            }),
            0 <= r.x <= block_subdivisions,
            0 <= r.y <= block_subdivisions,
            0 <= r.z <= block_subdivisions,
    {
        let cell_u = self.delta.u as usize / 2;
        let cell_v = self.delta.v as usize / 2;
        rotation.to_regular_voxel_index(block_subdivisions, &self.cell, cell_u, cell_v)
    }

    /// `self` being a double-resolution voxel on a transition face in this
    /// block, it coincides with a regular voxel of the neighbouring block at
    /// that face.  This gives that voxel's index within that block.
    #[verifier::rlimit(100)]
    pub fn to_higher_res_neighbour_block_index(&self, this_block_size: usize) -> (r:
        RegularVoxelIndex)
        requires
            fits_subdivisions(this_block_size as int),
            self.cell.cell_u < this_block_size,
            self.cell.cell_v < this_block_size,
            -1 <= self.delta.u <= 3,
            -1 <= self.delta.v <= 3,
            -1 <= self.delta.w <= 1,
        ensures
            ({
                let nums = higher_res_neighbour_numerators(this_block_size as int, *self);
                r.x == nums.0 && r.y == nums.1 && r.z == nums.2
            }),
    {
        let higher_res_block_size: isize = this_block_size as isize * 2;
        let cell = self.cell;
        let delta = self.delta;
        let rot = Rotation::for_side(cell.side);
        let cu: isize = 2 * cell.cell_u as isize + delta.u;
        let cv: isize = 2 * cell.cell_v as isize + delta.v;
        proof {
            let n2 = 2 * this_block_size as int;
            lemma_rotation_components_bounded(rot);
            lemma_unit_mul(rot.uvw_base.x + rot.w.x, n2);
            lemma_unit_mul(rot.uvw_base.y + rot.w.y, n2);
            lemma_unit_mul(rot.uvw_base.z + rot.w.z, n2);
            lemma_unit_mul(delta.w as int, rot.w.x as int);
            lemma_unit_mul(delta.w as int, rot.w.y as int);
            lemma_unit_mul(delta.w as int, rot.w.z as int);
            lemma_unit_mul(rot.u.x as int, cu as int);
            lemma_unit_mul(rot.u.y as int, cu as int);
            lemma_unit_mul(rot.u.z as int, cu as int);
            lemma_unit_mul(rot.v.x as int, cv as int);
            lemma_unit_mul(rot.v.y as int, cv as int);
            lemma_unit_mul(rot.v.z as int, cv as int);
        }
        let x: isize = higher_res_block_size * (rot.uvw_base.x + rot.w.x) + delta.w * rot.w.x
            + cu * rot.u.x + cv * rot.v.x;
        let y: isize = higher_res_block_size * (rot.uvw_base.y + rot.w.y) + delta.w * rot.w.y
            + cu * rot.u.y + cv * rot.v.y;
        let z: isize = higher_res_block_size * (rot.uvw_base.z + rot.w.z) + delta.w * rot.w.z
            + cu * rot.u.z + cv * rot.v.z;
        RegularVoxelIndex { x, y, z }
    }

    /// The high resolution voxel reached from this one by `delta`.
    pub fn offset(&self, delta: &HighResolutionVoxelDelta) -> (r: HighResolutionVoxelIndex)
        requires
            isize::MIN <= self.delta.u + delta.u <= isize::MAX,
            isize::MIN <= self.delta.v + delta.v <= isize::MAX,
            isize::MIN <= self.delta.w + delta.w <= isize::MAX,
        ensures
            r.cell == self.cell,
            r.delta.u == self.delta.u + delta.u,
            r.delta.v == self.delta.v + delta.v,
            r.delta.w == self.delta.w + delta.w,
    {
        HighResolutionVoxelIndex {
            cell: self.cell,
            delta: HighResolutionVoxelDelta {
                u: self.delta.u + delta.u,
                v: self.delta.v + delta.v,
                w: self.delta.w + delta.w,
            },
        }
    }

    /// The high resolution voxel reached from this one by the opposite of
    /// `delta`.
    pub fn offset_back(&self, delta: &HighResolutionVoxelDelta) -> (r: HighResolutionVoxelIndex)
        requires
            isize::MIN <= self.delta.u - delta.u <= isize::MAX,
            isize::MIN <= self.delta.v - delta.v <= isize::MAX,
            isize::MIN <= self.delta.w - delta.w <= isize::MAX,
        ensures
            r.cell == self.cell,
            r.delta.u == self.delta.u - delta.u,
            r.delta.v == self.delta.v - delta.v,
            r.delta.w == self.delta.w - delta.w,
    {
        HighResolutionVoxelIndex {
            cell: self.cell,
            delta: HighResolutionVoxelDelta {
                u: self.delta.u - delta.u,
                v: self.delta.v - delta.v,
                w: self.delta.w - delta.w,
            },
        }
    }
}

} // verus!
