//! Decoders for the packed 16-bit vertex data words of the Transvoxel
//! tables.
//!
//! The low byte of a word holds the indices of the two endpoints of the edge
//! on which the vertex lies.  The high byte holds the vertex reuse data: a
//! "new vertex" flag, direction bits toward the cell the vertex can be
//! reused from, and the reuse slot under which it is stored.

use vstd::prelude::*;

use crate::aux_tables::{RegularCellVoxelIndex, TransitionCellGridPointIndex};

verus! {

/// A reuse slot of a regular cell (0 to 3).
#[derive(Clone, Copy, Debug, PartialEq, Eq, Structural)]
pub struct RegularReuseIndex(pub usize);

/// A reuse slot of a transition cell (0 to 9).
#[derive(Clone, Copy, Debug, PartialEq, Eq, Structural)]
pub struct TransitionReuseIndex(pub usize);

/// One entry of the regular vertex data table.
#[derive(Clone, Copy, Debug, PartialEq, Eq, Structural)]
pub struct RegularVertexData(pub u16);

impl RegularVertexData {
    /// Model of `reuse_dx`: -1 when bit 4 of the high byte asks to reuse from
    /// the previous cell along X, else 0.
    pub open spec fn reuse_dx_spec(self) -> int {
        -(((self.0 >> 12) & 1) as int)
    }

    /// Cell index shift along X for vertex reuse (0 or -1).
    pub fn reuse_dx(&self) -> (r: isize)
        ensures
            r == self.reuse_dx_spec(),
            -1 <= r <= 0,
    {
        let reuse_info: u16 = (self.0 & 0xFF00) >> 8;
        let bit: u16 = (reuse_info & 0x10) >> 4;
        proof {
            let v = self.0;
            assert(((v & 0xFF00) >> 8 & 0x10) >> 4 == (v >> 12) & 1 && (v >> 12) & 1 <= 1)
                by (bit_vector);
        }
        -(bit as i16) as isize
    }

    /// Model of `reuse_dy`: -1 when bit 5 of the high byte asks to reuse from
    /// the previous cell along Y, else 0.
    pub open spec fn reuse_dy_spec(self) -> int {
        -(((self.0 >> 13) & 1) as int)
    }

    /// Cell index shift along Y for vertex reuse (0 or -1).
    pub fn reuse_dy(&self) -> (r: isize)
        ensures
            r == self.reuse_dy_spec(),
            -1 <= r <= 0,
    {
        let reuse_info: u16 = (self.0 & 0xFF00) >> 8;
        let bit: u16 = (reuse_info & 0x20) >> 5;
        proof {
            let v = self.0;
            assert(((v & 0xFF00) >> 8 & 0x20) >> 5 == (v >> 13) & 1 && (v >> 13) & 1 <= 1)
                by (bit_vector);
        }
        -(bit as i16) as isize
    }

    /// Model of `reuse_dz`: -1 when bit 6 of the high byte asks to reuse from
    /// the previous cell along Z, else 0.
    pub open spec fn reuse_dz_spec(self) -> int {
        -(((self.0 >> 14) & 1) as int)
    }

    /// Cell index shift along Z for vertex reuse (0 or -1).
    pub fn reuse_dz(&self) -> (r: isize)
        ensures
            r == self.reuse_dz_spec(),
            -1 <= r <= 0,
    {
        let reuse_info: u16 = (self.0 & 0xFF00) >> 8;
        let bit: u16 = (reuse_info & 0x40) >> 6;
        proof {
            let v = self.0;
            assert(((v & 0xFF00) >> 8 & 0x40) >> 6 == (v >> 14) & 1 && (v >> 14) & 1 <= 1)
                by (bit_vector);
        }
        -(bit as i16) as isize
    }

    /// Model of `new_vertex`: bit 7 of the high byte marks a vertex to
    /// materialise fresh and store under the reuse slot.
    pub open spec fn new_vertex_spec(self) -> bool {
        (self.0 >> 15) & 1 == 1
    }

    /// Whether this entry asks for a fresh vertex (to be stored for reuse).
    pub fn new_vertex(&self) -> (r: bool)
        ensures
            r == self.new_vertex_spec(),
    {
        let reuse_info: u16 = (self.0 & 0xFF00) >> 8;
        proof {
            let v = self.0;
            assert(((v & 0xFF00) >> 8 & 0x80 != 0) == ((v >> 15) & 1 == 1)) by (bit_vector);
        }
        (reuse_info & 0x80) != 0
    }

    /// Model of `reuse_index`: bits 0 to 3 of the high byte.
    pub open spec fn reuse_index_spec(self) -> int {
        ((self.0 >> 8) & 0xF) as int
    }

    /// The reuse slot of this entry.
    pub fn reuse_index(&self) -> (r: RegularReuseIndex)
        ensures
            r.0 == self.reuse_index_spec(),
    {
        let reuse_info: u16 = (self.0 & 0xFF00) >> 8;
        proof {
            let v = self.0;
            assert((v & 0xFF00) >> 8 & 0xF == (v >> 8) & 0xF && (v >> 8) & 0xF < 16)
                by (bit_vector);
        }
        RegularReuseIndex((reuse_info & 0x0F) as usize)
    }

    /// Model of `voxel_a_index`: the high nibble of the low byte.
    pub open spec fn voxel_a_index_spec(self) -> int {
        ((self.0 >> 4) & 0xF) as int
    }

    /// The cell corner holding the first edge endpoint.
    pub fn voxel_a_index(&self) -> (r: RegularCellVoxelIndex)
        ensures
            r.0 == self.voxel_a_index_spec(),
    {
        let edge_location: u16 = self.0 & 0xFF;
        proof {
            let v = self.0;
            assert((v & 0xFF & 0xF0) >> 4 == (v >> 4) & 0xF && (v >> 4) & 0xF < 16)
                by (bit_vector);
        }
        RegularCellVoxelIndex(((edge_location & 0xF0) >> 4) as usize)
    }

    /// Model of `voxel_b_index`: the low nibble of the low byte.
    pub open spec fn voxel_b_index_spec(self) -> int {
        (self.0 & 0xF) as int
    }

    /// The cell corner holding the second edge endpoint.
    pub fn voxel_b_index(&self) -> (r: RegularCellVoxelIndex)
        ensures
            r.0 == self.voxel_b_index_spec(),
    {
        let edge_location: u16 = self.0 & 0xFF;
        proof {
            let v = self.0;
            assert(v & 0xFF & 0xF == v & 0xF && v & 0xF < 16) by (bit_vector);
        }
        RegularCellVoxelIndex((edge_location & 0xF) as usize)
    }
}

/// One entry of the transition vertex data table.
#[derive(Clone, Copy, Debug, PartialEq, Eq, Structural)]
pub struct TransitionVertexData(pub u16);

impl TransitionVertexData {
    /// Model of `reuse`: bits 4 or 5 of the high byte ask to fetch the vertex
    /// from a preceding cell.
    pub open spec fn reuse_spec(self) -> bool {
        (self.0 >> 12) & 3 != 0
    }

    /// Whether this entry asks to reuse a previously created vertex.
    pub fn reuse(&self) -> (r: bool)
        ensures
            r == self.reuse_spec(),
    {
        let reuse_info: u16 = (self.0 & 0xFF00) >> 8;
        proof {
            let v = self.0;
            assert((v & 0xFF00) >> 8 & 0x30 != 0 == ((v >> 12) & 3 != 0)) by (bit_vector);
        }
        (reuse_info & 0x30) != 0
    }

    /// Model of `reuse_du`: -1 when bit 4 of the high byte asks to reuse from
    /// the previous cell along U, else 0.
    pub open spec fn reuse_du_spec(self) -> int {
        -(((self.0 >> 12) & 1) as int)
    }

    /// Cell index shift along U for vertex reuse (0 or -1).
    pub fn reuse_du(&self) -> (r: isize)
        ensures
            r == self.reuse_du_spec(),
            -1 <= r <= 0,
    {
        let reuse_info: u16 = (self.0 & 0xFF00) >> 8;
        let bit: u16 = (reuse_info & 0x10) >> 4;
        proof {
            let v = self.0;
            assert(((v & 0xFF00) >> 8 & 0x10) >> 4 == (v >> 12) & 1 && (v >> 12) & 1 <= 1)
                by (bit_vector);
        }
        -(bit as i16) as isize
    }

    /// Model of `reuse_dv`: -1 when bit 5 of the high byte asks to reuse from
    /// the previous cell along V, else 0.
    pub open spec fn reuse_dv_spec(self) -> int {
        -(((self.0 >> 13) & 1) as int)
    }

    /// Cell index shift along V for vertex reuse (0 or -1).
    pub fn reuse_dv(&self) -> (r: isize)
        ensures
            r == self.reuse_dv_spec(),
            -1 <= r <= 0,
    {
        let reuse_info: u16 = (self.0 & 0xFF00) >> 8;
        let bit: u16 = (reuse_info & 0x20) >> 5;
        proof {
            let v = self.0;
            assert(((v & 0xFF00) >> 8 & 0x20) >> 5 == (v >> 13) & 1 && (v >> 13) & 1 <= 1)
                by (bit_vector);
        }
        -(bit as i16) as isize
    }

    /// Model of `new_reusable`: bit 7 of the high byte marks a fresh vertex
    /// to store under the reuse slot.
    pub open spec fn new_reusable_spec(self) -> bool {
        (self.0 >> 15) & 1 == 1
    }

    /// Whether this entry creates a fresh vertex that later cells may reuse.
    pub fn new_reusable(&self) -> (r: bool)
        ensures
            r == self.new_reusable_spec(),
    {
        let reuse_info: u16 = (self.0 & 0xFF00) >> 8;
        proof {
            let v = self.0;
            assert(((v & 0xFF00) >> 8 & 0x80 != 0) == ((v >> 15) & 1 == 1)) by (bit_vector);
        }
        (reuse_info & 0x80) != 0
    }

    /// Model of `reuse_index`: bits 0 to 3 of the high byte.
    pub open spec fn reuse_index_spec(self) -> int {
        ((self.0 >> 8) & 0xF) as int
    }

    /// The reuse slot of this entry.
    pub fn reuse_index(&self) -> (r: TransitionReuseIndex)
        ensures
            r.0 == self.reuse_index_spec(),
    {
        let reuse_info: u16 = (self.0 & 0xFF00) >> 8;
        proof {
            let v = self.0;
            assert((v & 0xFF00) >> 8 & 0xF == (v >> 8) & 0xF && (v >> 8) & 0xF < 16)
                by (bit_vector);
        }
        TransitionReuseIndex((reuse_info & 0x0F) as usize)
    }

    /// Model of `grid_point_a_index`: the high nibble of the low byte.
    pub open spec fn grid_point_a_index_spec(self) -> int {
        ((self.0 >> 4) & 0xF) as int
    }

    /// The grid point holding the first edge endpoint.
    pub fn grid_point_a_index(&self) -> (r: TransitionCellGridPointIndex)
        ensures
            r.0 == self.grid_point_a_index_spec(),
    {
        let edge_location: u16 = self.0 & 0xFF;
        proof {
            let v = self.0;
            assert((v & 0xFF & 0xF0) >> 4 == (v >> 4) & 0xF && (v >> 4) & 0xF < 16)
                by (bit_vector);
        }
        TransitionCellGridPointIndex(((edge_location & 0xF0) >> 4) as usize)
    }

    /// Model of `grid_point_b_index`: the low nibble of the low byte.
    pub open spec fn grid_point_b_index_spec(self) -> int {
        (self.0 & 0xF) as int
    }

    /// The grid point holding the second edge endpoint.
    pub fn grid_point_b_index(&self) -> (r: TransitionCellGridPointIndex)
        ensures
            r.0 == self.grid_point_b_index_spec(),
    {
        let edge_location: u16 = self.0 & 0xFF;
        proof {
            let v = self.0;
            assert(v & 0xFF & 0xF == v & 0xF && v & 0xF < 16) by (bit_vector);
        }
        TransitionCellGridPointIndex((edge_location & 0xF) as usize)
    }
}

} // verus!
