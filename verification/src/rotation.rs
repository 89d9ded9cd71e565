//! Mapping system between XYZ and UVW coordinates.
//!
//! The Transvoxel tables are written for one face of the block (LowZ).  For
//! the other five faces a fixed rotation maps the per-face UVW system onto
//! world XYZ, so a single set of tables serves all six faces.

use vstd::prelude::*;

use crate::mesh_builder::Position;
use crate::traits::Coordinate;
use crate::transition_sides::TransitionSide;
use crate::voxel_coordinates::{
    fits_subdivisions, HighResolutionVoxelDelta, HighResolutionVoxelIndex, RegularVoxelIndex,
    TransitionCellIndex,
};

verus! {

/// An integer vector in the world XYZ system.
#[derive(Clone, Copy, Debug, PartialEq, Eq, Structural)]
pub struct Xyz {
    /// X
    pub x: isize,
    /// Y
    pub y: isize,
    /// Z
    pub z: isize,
}

impl Xyz {
    /// Shorthand constructor.
    pub fn from(xyz: (isize, isize, isize)) -> (r: Xyz)
        ensures
            r == (Xyz { x: xyz.0, y: xyz.1, z: xyz.2 }),
    {
        Xyz { x: xyz.0, y: xyz.1, z: xyz.2 }
    }
}

/// Rotation information for one of the 6 [`TransitionSide`]s.
#[derive(Clone, Copy, Debug, PartialEq, Eq, Structural)]
pub struct Rotation {
    /// The side is just stored along here for convenience.
    pub side: TransitionSide,
    /// Where the origin of the UVW system is, in the XYZ system.  It is used
    /// both for cells and blocks.  0 is at the lowest of the cell or block,
    /// 1 at the highest.
    pub uvw_base: Xyz,
    /// The direction of the U unit vector, in the XYZ system.  Components can
    /// be -1, 0 or 1.
    pub u: Xyz,
    /// The direction of the V unit vector, in the XYZ system.
    pub v: Xyz,
    /// The direction of the W unit vector, in the XYZ system.
    pub w: Xyz,
    /// The direction of the X unit vector, in the UVW system.
    pub plus_x_as_uvw: HighResolutionVoxelDelta,
    /// The direction of the Y unit vector, in the UVW system.
    pub plus_y_as_uvw: HighResolutionVoxelDelta,
    /// The direction of the Z unit vector, in the UVW system.
    pub plus_z_as_uvw: HighResolutionVoxelDelta,
}

/// The fixed rotation attached to each side of the block.  LowZ is the
/// identity; the five others permute and negate axes so that tables written
/// for LowZ apply everywhere.
pub open spec fn rotation_for_side(side: TransitionSide) -> Rotation {
    match side {
        TransitionSide::LowX => Rotation {
            side: TransitionSide::LowX,
            uvw_base: Xyz { x: 0, y: 0, z: 1 },
            u: Xyz { x: 0, y: 0, z: (-1) as isize },
            v: Xyz { x: 0, y: 1, z: 0 },
            w: Xyz { x: 1, y: 0, z: 0 },
            plus_x_as_uvw: HighResolutionVoxelDelta { u: 0, v: 0, w: 1 },
            plus_y_as_uvw: HighResolutionVoxelDelta { u: 0, v: 1, w: 0 },
            plus_z_as_uvw: HighResolutionVoxelDelta { u: (-1) as isize, v: 0, w: 0 },
        },
        TransitionSide::HighX => Rotation {
            side: TransitionSide::HighX,
            uvw_base: Xyz { x: 1, y: 0, z: 0 },
            u: Xyz { x: 0, y: 0, z: 1 },
            v: Xyz { x: 0, y: 1, z: 0 },
            w: Xyz { x: (-1) as isize, y: 0, z: 0 },
            plus_x_as_uvw: HighResolutionVoxelDelta { u: 0, v: 0, w: (-1) as isize },
            plus_y_as_uvw: HighResolutionVoxelDelta { u: 0, v: 1, w: 0 },
            plus_z_as_uvw: HighResolutionVoxelDelta { u: 1, v: 0, w: 0 },
        },
        TransitionSide::LowY => Rotation {
            side: TransitionSide::LowY,
            uvw_base: Xyz { x: 0, y: 0, z: 1 },
            u: Xyz { x: 1, y: 0, z: 0 },
            v: Xyz { x: 0, y: 0, z: (-1) as isize },
            w: Xyz { x: 0, y: 1, z: 0 },
            plus_x_as_uvw: HighResolutionVoxelDelta { u: 1, v: 0, w: 0 },
            plus_y_as_uvw: HighResolutionVoxelDelta { u: 0, v: 0, w: 1 },
            plus_z_as_uvw: HighResolutionVoxelDelta { u: 0, v: (-1) as isize, w: 0 },
        },
        TransitionSide::HighY => Rotation {
            side: TransitionSide::HighY,
            uvw_base: Xyz { x: 0, y: 1, z: 0 },
            u: Xyz { x: 1, y: 0, z: 0 },
            v: Xyz { x: 0, y: 0, z: 1 },
            w: Xyz { x: 0, y: (-1) as isize, z: 0 },
            plus_x_as_uvw: HighResolutionVoxelDelta { u: 1, v: 0, w: 0 },
            plus_y_as_uvw: HighResolutionVoxelDelta { u: 0, v: 0, w: (-1) as isize },
            plus_z_as_uvw: HighResolutionVoxelDelta { u: 0, v: 1, w: 0 },
        },
        TransitionSide::LowZ => Rotation {
            side: TransitionSide::LowZ,
            uvw_base: Xyz { x: 0, y: 0, z: 0 },
            u: Xyz { x: 1, y: 0, z: 0 },
            v: Xyz { x: 0, y: 1, z: 0 },
            w: Xyz { x: 0, y: 0, z: 1 },
            plus_x_as_uvw: HighResolutionVoxelDelta { u: 1, v: 0, w: 0 },
            plus_y_as_uvw: HighResolutionVoxelDelta { u: 0, v: 1, w: 0 },
            plus_z_as_uvw: HighResolutionVoxelDelta { u: 0, v: 0, w: 1 },
        },
        TransitionSide::HighZ => Rotation {
            side: TransitionSide::HighZ,
            uvw_base: Xyz { x: 1, y: 0, z: 1 },
            u: Xyz { x: (-1) as isize, y: 0, z: 0 },
            v: Xyz { x: 0, y: 1, z: 0 },
            w: Xyz { x: 0, y: 0, z: (-1) as isize },
            plus_x_as_uvw: HighResolutionVoxelDelta { u: (-1) as isize, v: 0, w: 0 },
            plus_y_as_uvw: HighResolutionVoxelDelta { u: 0, v: 1, w: 0 },
            plus_z_as_uvw: HighResolutionVoxelDelta { u: 0, v: 0, w: (-1) as isize },
        },
    }
}

/// The integer numerators of a high resolution voxel's position within its
/// block, in units of half a cell: dividing each by `2 * block_size` gives
/// the position with block-relative coordinates in [0, 1].
pub open spec fn position_in_block_numerators(
    block_size: int,
    voxel_index: HighResolutionVoxelIndex,
) -> (int, int, int) {
    let rot = rotation_for_side(voxel_index.cell.side);
    let cu = 2 * voxel_index.cell.cell_u + voxel_index.delta.u;
    let cv = 2 * voxel_index.cell.cell_v + voxel_index.delta.v;
    let dw = voxel_index.delta.w;
    (
        rot.uvw_base.x * 2 * block_size + rot.u.x * cu + rot.v.x * cv + rot.w.x * dw,
        rot.uvw_base.y * 2 * block_size + rot.u.y * cu + rot.v.y * cv + rot.w.y * dw,
        rot.uvw_base.z * 2 * block_size + rot.u.z * cu + rot.v.z * cv + rot.w.z * dw,
    )
}

/// The regular voxel coinciding with one of the four low-resolution-face grid
/// points of a transition cell (`face_u`, `face_v` each 0 or 1).
pub open spec fn regular_voxel_index_for_face(
    block_size: int,
    cell_index: TransitionCellIndex,
    face_u: int,
    face_v: int,
) -> (int, int, int) {
    let rot = rotation_for_side(cell_index.side);
    let cu = cell_index.cell_u + face_u;
    let cv = cell_index.cell_v + face_v;
    (
        rot.uvw_base.x * block_size + rot.u.x * cu + rot.v.x * cv,
        rot.uvw_base.y * block_size + rot.u.y * cu + rot.v.y * cv,
        rot.uvw_base.z * block_size + rot.u.z * cu + rot.v.z * cv,
    )
}

/// A product whose first factor is one of -2, -1, 0, 1, 2 is the matching
/// multiple of the second factor.  Rotation components are such small
/// factors, so this turns every product of the coordinate mapping into a
/// linear term.
pub proof fn lemma_unit_mul(c: int, m: int)
    requires
        -2 <= c <= 2,
    ensures
        m * c == c * m,
        c == 2 ==> c * m == 2 * m,
        c == 1 ==> c * m == m,
        c == 0 ==> c * m == 0,
        c == -1 ==> c * m == -m,
        c == -2 ==> c * m == -(2 * m),
{
    assert(m * c == c * m) by (nonlinear_arith);
    assert(c == 2 ==> c * m == 2 * m) by (nonlinear_arith);
    assert(c == 1 ==> c * m == m) by (nonlinear_arith);
    assert(c == 0 ==> c * m == 0) by (nonlinear_arith);
    assert(c == -1 ==> c * m == -m) by (nonlinear_arith);
    assert(c == -2 ==> c * m == -(2 * m)) by (nonlinear_arith);
}

/// Every component of a well formed rotation is -1, 0 or 1, except the UVW
/// base whose components are 0 or 1.
pub proof fn lemma_rotation_components_bounded(rot: Rotation)
    requires
        rot.wf(),
    ensures
        0 <= rot.uvw_base.x <= 1,
        0 <= rot.uvw_base.y <= 1,
        0 <= rot.uvw_base.z <= 1,
        -1 <= rot.u.x <= 1,
        -1 <= rot.u.y <= 1,
        -1 <= rot.u.z <= 1,
        -1 <= rot.v.x <= 1,
        -1 <= rot.v.y <= 1,
        -1 <= rot.v.z <= 1,
        -1 <= rot.w.x <= 1,
        -1 <= rot.w.y <= 1,
        -1 <= rot.w.z <= 1,
        -1 <= rot.plus_x_as_uvw.u <= 1,
        -1 <= rot.plus_x_as_uvw.v <= 1,
        -1 <= rot.plus_x_as_uvw.w <= 1,
        -1 <= rot.plus_y_as_uvw.u <= 1,
        -1 <= rot.plus_y_as_uvw.v <= 1,
        -1 <= rot.plus_y_as_uvw.w <= 1,
        -1 <= rot.plus_z_as_uvw.u <= 1,
        -1 <= rot.plus_z_as_uvw.v <= 1,
        -1 <= rot.plus_z_as_uvw.w <= 1,
{
}

/// The regular voxel coinciding with a low-resolution-face grid point lies
/// within the block's regular grid.
pub proof fn lemma_face_voxel_in_block(
    block_size: int,
    cell_index: TransitionCellIndex,
    face_u: int,
    face_v: int,
)
    requires
        1 <= block_size,
        cell_index.cell_u < block_size,
        cell_index.cell_v < block_size,
        0 <= face_u <= 1,
        0 <= face_v <= 1,
    ensures
        ({
            let nums = regular_voxel_index_for_face(block_size, cell_index, face_u, face_v);
            &&& 0 <= nums.0 <= block_size
            &&& 0 <= nums.1 <= block_size
            &&& 0 <= nums.2 <= block_size
        }),
{
    let rot = rotation_for_side(cell_index.side);
    let n = block_size;
    let cu = cell_index.cell_u + face_u;
    let cv = cell_index.cell_v + face_v;
    lemma_rotation_components_bounded(rot);
    lemma_unit_mul(rot.uvw_base.x as int, n);
    lemma_unit_mul(rot.uvw_base.y as int, n);
    lemma_unit_mul(rot.uvw_base.z as int, n);
    lemma_unit_mul(rot.u.x as int, cu);
    lemma_unit_mul(rot.u.y as int, cu);
    lemma_unit_mul(rot.u.z as int, cu);
    lemma_unit_mul(rot.v.x as int, cv);
    lemma_unit_mul(rot.v.y as int, cv);
    lemma_unit_mul(rot.v.z as int, cv);
    let nums = regular_voxel_index_for_face(block_size, cell_index, face_u, face_v);
    match cell_index.side {
        TransitionSide::LowX => {
            assert(nums.0 == 0 && nums.1 == cv && nums.2 == n - cu);
        },
        TransitionSide::HighX => {
            assert(nums.0 == n && nums.1 == cv && nums.2 == cu);
        },
        TransitionSide::LowY => {
            assert(nums.0 == cu && nums.1 == 0 && nums.2 == n - cv);
        },
        TransitionSide::HighY => {
            assert(nums.0 == cu && nums.1 == n && nums.2 == cv);
        },
        TransitionSide::LowZ => {
            assert(nums.0 == cu && nums.1 == cv && nums.2 == 0);
        },
        TransitionSide::HighZ => {
            assert(nums.0 == n - cu && nums.1 == cv && nums.2 == n);
        },
    }
}

impl Rotation {
    /// A rotation value is well formed when it is the table entry of its own
    /// side.
    pub open spec fn wf(self) -> bool {
        self == rotation_for_side(self.side)
    }

    /// The rotation attached to `side`.
    pub fn for_side(side: TransitionSide) -> (r: Rotation)
        ensures
            r == rotation_for_side(side),
            r.wf(),
    {
        match side {
            TransitionSide::LowX => Rotation::from(
                TransitionSide::LowX,
                (0, 0, 1),
                (0, 0, -1),
                (0, 1, 0),
                (1, 0, 0),
                (1, 0, 0),
                (0, 0, 1),
                (0, 1, 0),
                (-1, 0, 0),
            ),
            TransitionSide::HighX => Rotation::from(
                TransitionSide::HighX,
                (1, 0, 0),
                (0, 0, 1),
                (0, 1, 0),
                (-1, 0, 0),
                (0, 0, 1),
                (0, 0, -1),
                (0, 1, 0),
                (1, 0, 0),
            ),
            TransitionSide::LowY => Rotation::from(
                TransitionSide::LowY,
                (0, 0, 1),
                (1, 0, 0),
                (0, 0, -1),
                (0, 1, 0),
                (0, 1, 0),
                (1, 0, 0),
                (0, 0, 1),
                (0, -1, 0),
            ),
            TransitionSide::HighY => Rotation::from(
                TransitionSide::HighY,
                (0, 1, 0),
                (1, 0, 0),
                (0, 0, 1),
                (0, -1, 0),
                (0, 0, 1),
                (1, 0, 0),
                (0, 0, -1),
                (0, 1, 0),
            ),
            TransitionSide::LowZ => Rotation::from(
                TransitionSide::LowZ,
                (0, 0, 0),
                (1, 0, 0),
                (0, 1, 0),
                (0, 0, 1),
                (0, 0, 0),
                (1, 0, 0),
                (0, 1, 0),
                (0, 0, 1),
            ),
            TransitionSide::HighZ => Rotation::from(
                TransitionSide::HighZ,
                (1, 0, 1),
                (-1, 0, 0),
                (0, 1, 0),
                (0, 0, -1),
                (1, 0, 1),
                (-1, 0, 0),
                (0, 1, 0),
                (0, 0, -1),
            ),
        }
    }

    /// Constructor from raw tuples: world coordinates of the UVW base and of
    /// the U, V and W unit vectors, then UVW coordinates of the XYZ base and
    /// of the X, Y and Z unit vectors (the XYZ base is not stored).
    #[allow(clippy::too_many_arguments)]
    pub fn from(
        side: TransitionSide,
        uvw_base: (isize, isize, isize),
        u: (isize, isize, isize),
        v: (isize, isize, isize),
        w: (isize, isize, isize),
        _xyz_base: (isize, isize, isize),
        x: (isize, isize, isize),
        y: (isize, isize, isize),
        z: (isize, isize, isize),
    ) -> (r: Rotation)
        ensures
            r == (Rotation {
                side,
                uvw_base: Xyz { x: uvw_base.0, y: uvw_base.1, z: uvw_base.2 },
                u: Xyz { x: u.0, y: u.1, z: u.2 },
                v: Xyz { x: v.0, y: v.1, z: v.2 },
                w: Xyz { x: w.0, y: w.1, z: w.2 },
                plus_x_as_uvw: HighResolutionVoxelDelta { u: x.0, v: x.1, w: x.2 },
                plus_y_as_uvw: HighResolutionVoxelDelta { u: y.0, v: y.1, w: y.2 },
                plus_z_as_uvw: HighResolutionVoxelDelta { u: z.0, v: z.1, w: z.2 },
            }),
    {
        Rotation {
            side,
            uvw_base: Xyz::from(uvw_base),
            u: Xyz::from(u),
            v: Xyz::from(v),
            w: Xyz::from(w),
            plus_x_as_uvw: HighResolutionVoxelDelta::from(x.0, x.1, x.2),
            plus_y_as_uvw: HighResolutionVoxelDelta::from(y.0, y.1, y.2),
            plus_z_as_uvw: HighResolutionVoxelDelta::from(z.0, z.1, z.2),
        }
    }

    /// The reference rotation, used before any transition face is entered.
    pub fn default() -> (r: Rotation)
        ensures
            r == rotation_for_side(TransitionSide::LowX),
            r.wf(),
    {
        Rotation::for_side(TransitionSide::LowX)
    }

    /// Gives the position of this voxel relative to the block (each
    /// coordinate ranging from 0 to 1): half the integer numerator divided by
    /// the subdivision count.
    #[verifier::rlimit(60)]
    pub fn to_position_in_block<C: Coordinate>(
        &self,
        block_size: usize,
        voxel_index: &HighResolutionVoxelIndex,
    ) -> (r: Position<C>)
        requires
            self.wf(),
            voxel_index.cell.side == self.side,
            fits_subdivisions(block_size as int),
            voxel_index.cell.cell_u < block_size,
            voxel_index.cell.cell_v < block_size,
            -1 <= voxel_index.delta.u <= 3,
            -1 <= voxel_index.delta.v <= 3,
            -1 <= voxel_index.delta.w <= 1,
        ensures
            ({
                let nums = position_in_block_numerators(block_size as int, *voxel_index);
                &&& r.x == C::half_spec(nums.0 as isize).times_spec(
                    C::ratio_spec(1 as isize, block_size),
                )
                &&& r.y == C::half_spec(nums.1 as isize).times_spec(
                    C::ratio_spec(1 as isize, block_size),
                )
                &&& r.z == C::half_spec(nums.2 as isize).times_spec(
                    C::ratio_spec(1 as isize, block_size),
                )
            }),
    {
        let cell_index = voxel_index.cell;
        let delta = voxel_index.delta;
        // Everything is computed in units of half a cell, with one single
        // division at the end, as deferring the division avoids half-step
        // rounding.
        let cu: isize = 2 * cell_index.cell_u as isize + delta.u;
        let cv: isize = 2 * cell_index.cell_v as isize + delta.v;
        proof {
            let n = block_size as int;
            lemma_rotation_components_bounded(*self);
            lemma_unit_mul(self.uvw_base.x as int, 2);
            lemma_unit_mul(self.uvw_base.y as int, 2);
            lemma_unit_mul(self.uvw_base.z as int, 2);
            lemma_unit_mul(self.uvw_base.x * 2, n);
            lemma_unit_mul(self.uvw_base.y * 2, n);
            lemma_unit_mul(self.uvw_base.z * 2, n);
            lemma_unit_mul(self.u.x as int, cu as int);
            lemma_unit_mul(self.u.y as int, cu as int);
            lemma_unit_mul(self.u.z as int, cu as int);
            lemma_unit_mul(self.v.x as int, cv as int);
            lemma_unit_mul(self.v.y as int, cv as int);
            lemma_unit_mul(self.v.z as int, cv as int);
            lemma_unit_mul(self.w.x as int, delta.w as int);
            lemma_unit_mul(self.w.y as int, delta.w as int);
            lemma_unit_mul(self.w.z as int, delta.w as int);
        }
        let x: isize = self.uvw_base.x * 2 * block_size as isize + self.u.x * cu + self.v.x * cv
            + self.w.x * delta.w;
        let y: isize = self.uvw_base.y * 2 * block_size as isize + self.u.y * cu + self.v.y * cv
            + self.w.y * delta.w;
        let z: isize = self.uvw_base.z * 2 * block_size as isize + self.u.z * cu + self.v.z * cv
            + self.w.z * delta.w;
        let rx = C::half(x).times(C::from_ratio(1, block_size));
        let ry = C::half(y).times(C::from_ratio(1, block_size));
        let rz = C::half(z).times(C::from_ratio(1, block_size));
        Position { x: rx, y: ry, z: rz }
    }

    /// The regular voxel coinciding with one of the four low-resolution-face
    /// grid points of a transition cell (`face_u`, `face_v` each 0 or 1).
    /// The result always lies within the block's regular grid.
    #[verifier::rlimit(60)]
    pub fn to_regular_voxel_index(
        &self,
        block_size: usize,
        cell_index: &TransitionCellIndex,
        face_u: usize,
        face_v: usize,
    ) -> (r: RegularVoxelIndex)
        requires
            self.wf(),
            cell_index.side == self.side,
            fits_subdivisions(block_size as int),
            cell_index.cell_u < block_size,
            cell_index.cell_v < block_size,
            face_u <= 1,
            face_v <= 1,
        ensures
            ({
                let nums = regular_voxel_index_for_face(
                    block_size as int,
                    *cell_index,
                    face_u as int,
                    face_v as int,
                );
                r.x == nums.0 && r.y == nums.1 && r.z == nums.2
            }),
            0 <= r.x <= block_size,
            0 <= r.y <= block_size,
            0 <= r.z <= block_size,
    {
        let cu: isize = (cell_index.cell_u + face_u) as isize;
        let cv: isize = (cell_index.cell_v + face_v) as isize;
        proof {
            let n = block_size as int;
            lemma_rotation_components_bounded(*self);
            lemma_unit_mul(self.uvw_base.x as int, n);
            lemma_unit_mul(self.uvw_base.y as int, n);
            lemma_unit_mul(self.uvw_base.z as int, n);
            lemma_unit_mul(self.u.x as int, cu as int);
            lemma_unit_mul(self.u.y as int, cu as int);
            lemma_unit_mul(self.u.z as int, cu as int);
            lemma_unit_mul(self.v.x as int, cv as int);
            lemma_unit_mul(self.v.y as int, cv as int);
            lemma_unit_mul(self.v.z as int, cv as int);
        }
        let x: isize = self.uvw_base.x * block_size as isize + self.u.x * cu + self.v.x * cv;
        let y: isize = self.uvw_base.y * block_size as isize + self.u.y * cu + self.v.y * cv;
        let z: isize = self.uvw_base.z * block_size as isize + self.u.z * cu + self.v.z * cv;
        proof {
            match self.side {
                TransitionSide::LowX => {
                    assert(x == 0 && y == cv && z == block_size - cu);
                },
                TransitionSide::HighX => {
                    assert(x == block_size && y == cv && z == cu);
                },
                TransitionSide::LowY => {
                    assert(x == cu && y == 0 && z == block_size - cv);
                },
                TransitionSide::HighY => {
                    assert(x == cu && y == block_size && z == cv);
                },
                TransitionSide::LowZ => {
                    assert(x == cu && y == cv && z == 0);
                },
                TransitionSide::HighZ => {
                    assert(x == block_size - cu && y == cv && z == block_size);
                },
            }
        }
        RegularVoxelIndex { x, y, z }
    }
}

} // verus!
