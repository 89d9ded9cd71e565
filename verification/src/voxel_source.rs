//! Traits and structs for providing access to a voxel grid.

use vstd::prelude::*;

use crate::mesh_builder::Position;
use crate::rotation::{position_in_block_numerators, Rotation};
use crate::traits::{Coordinate, VoxelData};
use crate::voxel_coordinates::{
    fits_subdivisions, HighResolutionVoxelIndex, RegularVoxelIndex,
};

verus! {

/// A cubic zone of the world, for which to run an extraction.
#[derive(Clone, Copy, Debug)]
pub struct BlockDims<C: Coordinate> {
    /// Lowest x,y,z point.
    pub base: [C; 3],
    /// Side of the cube.
    pub size: C,
}

/// A [`BlockDims`] (cubic region of the world) with attached number of
/// subdivisions for the extraction.  With n subdivisions, the block will
/// contain n cells, encompassing n + 1 voxels across each dimension.
#[derive(Clone, Copy, Debug)]
pub struct Block<C: Coordinate> {
    /// The zone.
    pub dims: BlockDims<C>,
    /// How many subdivisions.
    pub subdivisions: usize,
}

impl<C: Coordinate> Block<C> {
    /// A block the engine can extract: at least one subdivision, and few
    /// enough that every index computed over the block fits the machine.
    pub open spec fn wf(self) -> bool {
        fits_subdivisions(self.subdivisions as int)
    }

    /// Shortcut constructor.
    pub fn from(base: [C; 3], size: C, subdivisions: usize) -> (r: Block<C>)
        ensures
            r == (Block { dims: BlockDims { base, size }, subdivisions }),
    {
        Block { dims: BlockDims { base, size }, subdivisions }
    }
}

/// Wrapper used to retrieve voxel values for a block.  This source is
/// accessed through voxel coordinates relative to the block.
///
/// A source may be impure (a random field, a counting probe): nothing ties
/// two calls on the same address to each other.  The `may_yield` predicate
/// names which data values the source can produce at all; it is the handle by
/// which callers state hypotheses such as "every density this oracle can
/// return lies below the threshold".
pub trait VoxelSource<V: VoxelData>: Sized {
    /// Which calls this source supports (for example: a world-mapping source
    /// needs its block to have at least one subdivision).
    spec fn wf(self) -> bool;

    /// Which data values this source can return.
    spec fn may_yield(self, data: V) -> bool;

    /// Which high resolution voxel indices `get_transition_density` accepts.
    spec fn admits_transition_index(self, index: HighResolutionVoxelIndex) -> bool;

    /// This method is called by the extraction algorithm for regular voxels.
    ///
    /// It should return the voxel data at the given regular voxel index.
    /// When computing gradients this may be queried one step outside of the
    /// extracted block: each index component ranges over -1 to
    /// `subdivisions` + 1 (both included).
    fn get_density(&mut self, voxel_index: &RegularVoxelIndex) -> (r: V)
        requires
            old(self).wf(),
        ensures
            final(self).wf(),
            old(self).may_yield(r),
            forall|v: V| final(self).may_yield(v) == old(self).may_yield(v),
            forall|index: HighResolutionVoxelIndex|
                final(self).admits_transition_index(index) == old(self).admits_transition_index(
                    index,
                ),
    ;

    /// If the extraction needs to handle some transition faces, this method
    /// is called to get voxel data for the face's high resolution voxels.
    /// It is only called for voxels that are not on the regular grid (odd u
    /// or v, or non-zero w).
    fn get_transition_density(&mut self, index: &HighResolutionVoxelIndex) -> (r: V)
        requires
            old(self).wf(),
            old(self).admits_transition_index(*index),
        ensures
            final(self).wf(),
            old(self).may_yield(r),
            forall|v: V| final(self).may_yield(v) == old(self).may_yield(v),
            forall|other: HighResolutionVoxelIndex|
                final(self).admits_transition_index(other) == old(self).admits_transition_index(
                    other,
                ),
    ;
}

/// A source of "world" voxel data: gives data for any world x,y,z
/// coordinates.
pub trait DataField<V: VoxelData, C: Coordinate>: Sized {
    /// Which data values this field can return.
    spec fn may_yield(self, data: V) -> bool;

    /// Obtain the data at the given point in space.
    fn get_data(&mut self, x: C, y: C, z: C) -> (r: V)
        ensures
            old(self).may_yield(r),
            forall|v: V| final(self).may_yield(v) == old(self).may_yield(v),
    ;
}

/// Relays calls to the underlying field every time voxel data is queried,
/// mapping voxel coordinates to world x,y,z coordinates using the block
/// context.  The interesting logic lies in converting UVW coordinates
/// relative to one transition side to XYZ coordinates.
pub struct WorldMappingVoxelSource<S, C: Coordinate> {
    /// Field used to access world data.
    pub field: S,
    /// Block context, used to map coordinates.
    pub block: Block<C>,
}

impl<V: VoxelData, S: DataField<V, C>, C: Coordinate> VoxelSource<V> for WorldMappingVoxelSource<
    S,
    C,
> {
    open spec fn wf(self) -> bool {
        self.block.wf()
    }

    open spec fn may_yield(self, data: V) -> bool {
        self.field.may_yield(data)
    }

    open spec fn admits_transition_index(self, index: HighResolutionVoxelIndex) -> bool {
        index.valid_for(self.block.subdivisions as int)
    }

    fn get_density(&mut self, voxel_index: &RegularVoxelIndex) -> (r: V) {
        let base = &self.block.dims.base;
        let size = self.block.dims.size;
        let subs = self.block.subdivisions;
        let x = base[0].plus(size.times(C::from_ratio(voxel_index.x, subs)));
        let y = base[1].plus(size.times(C::from_ratio(voxel_index.y, subs)));
        let z = base[2].plus(size.times(C::from_ratio(voxel_index.z, subs)));
        self.field.get_data(x, y, z)
    }

    fn get_transition_density(&mut self, index: &HighResolutionVoxelIndex) -> (r: V) {
        let rotation = Rotation::for_side(index.cell.side);
        let position_in_block: Position<C> = rotation.to_position_in_block(
            self.block.subdivisions,
            index,
        );
        let x = self.block.dims.base[0].plus(self.block.dims.size.times(position_in_block.x));
        let y = self.block.dims.base[1].plus(self.block.dims.size.times(position_in_block.y));
        let z = self.block.dims.base[2].plus(self.block.dims.size.times(position_in_block.z));
        self.field.get_data(x, y, z)
    }
}

impl HighResolutionVoxelIndex {
    /// Convert to a relative x, y, z position within the block ((0,0,0)
    /// being at the block origin, (1,1,1) at the opposite max end).
    pub fn to_position_in_block<C: Coordinate>(&self, block: &Block<C>) -> (r: Position<C>)
        requires
            block.wf(),
            self.cell.cell_u < block.subdivisions,
            self.cell.cell_v < block.subdivisions,
            -1 <= self.delta.u <= 3,
            -1 <= self.delta.v <= 3,
            -1 <= self.delta.w <= 1,
        ensures
            ({
                let nums = position_in_block_numerators(block.subdivisions as int, *self);
                &&& r.x == C::half_spec(nums.0 as isize).times_spec(
                    C::ratio_spec(1 as isize, block.subdivisions),
                )
                &&& r.y == C::half_spec(nums.1 as isize).times_spec(
                    C::ratio_spec(1 as isize, block.subdivisions),
                )
                &&& r.z == C::half_spec(nums.2 as isize).times_spec(
                    C::ratio_spec(1 as isize, block.subdivisions),
                )
            }),
    {
        let rotation = Rotation::for_side(self.cell.side);
        rotation.to_position_in_block(block.subdivisions, self)
    }
}

} // verus!
