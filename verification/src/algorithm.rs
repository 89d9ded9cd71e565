//! The main extraction algorithm.
//!
//! At its heart it is simply: for each regular cell, extract its geometry
//! with marching cubes, then for each transition face in the request,
//! extract each transition cell of the face.  Both extractions are alike:
//! get densities for the 8 or 9 voxels of the cell, compute the case and
//! class from the densities, get triangulation info from the case and class,
//! and output vertices from that.
//!
//! Some complexity lies in the details: the compact data in the tables, the
//! reuse of vertices from a previous cell when available, the shrinking of
//! regular cells to make room for transition cells, and the rotations that
//! make tables written for one face apply to all six.

use vstd::prelude::*;

use crate::density_caching::{is_block_addr, lemma_flat_pair_injective, PreCachingVoxelSource};
use crate::mesh_builder::{tri_valid, GridPoint, MeshBuilder, Position, VertexIndex};
use crate::rotation::Rotation;
use crate::tables_wrapper::{RegularReuseIndex, TransitionReuseIndex};
use crate::traits::{Coordinate, Density, VoxelData};
use crate::transition_sides::{TransitionSide, TransitionSides};
use crate::voxel_coordinates::{
    fits_subdivisions, lemma_fits_consequences, RegularVoxelIndex,
};
use crate::voxel_source::{Block, VoxelSource};

verus! {

/// Flat position of a regular cell's reuse slot in the shared storage.
pub open spec fn regular_slot_position(n: int, x: int, y: int, z: int, slot: int) -> int {
    x + n * y + n * n * z + n * n * n * slot
}

/// Flat position of a transition cell's reuse slot in the shared storage.
pub open spec fn transition_slot_position(n: int, side: int, u: int, v: int, slot: int) -> int {
    side + 6 * u + 6 * n * v + 6 * n * n * slot
}

/// Regular slot positions determine their coordinates.
proof fn lemma_regular_slot_injective(
    n: int,
    x1: int,
    y1: int,
    z1: int,
    s1: int,
    x2: int,
    y2: int,
    z2: int,
    s2: int,
)
    requires
        n >= 1,
        0 <= x1 < n,
        0 <= y1 < n,
        0 <= z1 < n,
        0 <= s1 < 4,
        0 <= x2 < n,
        0 <= y2 < n,
        0 <= z2 < n,
        0 <= s2 < 4,
        regular_slot_position(n, x1, y1, z1, s1) == regular_slot_position(n, x2, y2, z2, s2),
    ensures
        x1 == x2 && y1 == y2 && z1 == z2 && s1 == s2,
{
    assert(regular_slot_position(n, x1, y1, z1, s1) == (y1 + n * (z1 + n * s1)) * n + x1 && y1
        + n * (z1 + n * s1) == (z1 + n * s1) * n + y1 && z1 + n * s1 == s1 * n + z1
        && regular_slot_position(n, x2, y2, z2, s2) == (y2 + n * (z2 + n * s2)) * n + x2 && y2
        + n * (z2 + n * s2) == (z2 + n * s2) * n + y2 && z2 + n * s2 == s2 * n + z2)
        by (nonlinear_arith);
    assert(0 <= z1 + n * s1 < 4 * n && 0 <= z2 + n * s2 < 4 * n && 0 <= y1 + n * (z1 + n * s1) < 4
        * n * n && 0 <= y2 + n * (z2 + n * s2) < 4 * n * n) by (nonlinear_arith)
        requires
            n >= 1,
            0 <= y1 < n,
            0 <= z1 < n,
            0 <= s1 < 4,
            0 <= y2 < n,
            0 <= z2 < n,
            0 <= s2 < 4,
    ;
    lemma_flat_pair_injective(
        n,
        y1 + n * (z1 + n * s1),
        x1,
        y2 + n * (z2 + n * s2),
        x2,
    );
    lemma_flat_pair_injective(n, z1 + n * s1, y1, z2 + n * s2, y2);
    lemma_flat_pair_injective(n, s1, z1, s2, z2);
    assert(s1 * n + z1 == s2 * n + z2);
}

/// Regular slot positions stay within the storage.
proof fn lemma_regular_slot_bound(n: int, x: int, y: int, z: int, slot: int)
    requires
        n >= 1,
        0 <= x < n,
        0 <= y < n,
        0 <= z < n,
        0 <= slot < 4,
    ensures
        0 <= regular_slot_position(n, x, y, z, slot),
        regular_slot_position(n, x, y, z, slot) < 4 * n * n * n,
{
    assert(0 <= x + n * y + n * n * z + n * n * n * slot && x + n * y + n * n * z + n * n * n
        * slot < 4 * n * n * n) by (nonlinear_arith)
        requires
            n >= 1,
            0 <= x < n,
            0 <= y < n,
            0 <= z < n,
            0 <= slot < 4,
    ;
}

/// Transition slot positions determine their coordinates.
proof fn lemma_transition_slot_injective(
    n: int,
    side1: int,
    u1: int,
    v1: int,
    s1: int,
    side2: int,
    u2: int,
    v2: int,
    s2: int,
)
    requires
        n >= 1,
        0 <= side1 < 6,
        0 <= u1 < n,
        0 <= v1 < n,
        0 <= s1 < 10,
        0 <= side2 < 6,
        0 <= u2 < n,
        0 <= v2 < n,
        0 <= s2 < 10,
        transition_slot_position(n, side1, u1, v1, s1) == transition_slot_position(
            n,
            side2,
            u2,
            v2,
            s2,
        ),
    ensures
        side1 == side2 && u1 == u2 && v1 == v2 && s1 == s2,
{
    assert(transition_slot_position(n, side1, u1, v1, s1) == (u1 + n * (v1 + n * s1)) * 6
        + side1 && u1 + n * (v1 + n * s1) == (v1 + n * s1) * n + u1 && v1 + n * s1 == s1 * n + v1
        && transition_slot_position(n, side2, u2, v2, s2) == (u2 + n * (v2 + n * s2)) * 6 + side2
        && u2 + n * (v2 + n * s2) == (v2 + n * s2) * n + u2 && v2 + n * s2 == s2 * n + v2)
        by (nonlinear_arith);
    assert(0 <= v1 + n * s1 < 10 * n && 0 <= v2 + n * s2 < 10 * n && 0 <= u1 + n * (v1 + n * s1)
        < 10 * n * n && 0 <= u2 + n * (v2 + n * s2) < 10 * n * n) by (nonlinear_arith)
        requires
            n >= 1,
            0 <= u1 < n,
            0 <= v1 < n,
            0 <= s1 < 10,
            0 <= u2 < n,
            0 <= v2 < n,
            0 <= s2 < 10,
    ;
    lemma_flat_pair_injective(
        6,
        u1 + n * (v1 + n * s1),
        side1,
        u2 + n * (v2 + n * s2),
        side2,
    );
    lemma_flat_pair_injective(n, v1 + n * s1, u1, v2 + n * s2, u2);
    lemma_flat_pair_injective(n, s1, v1, s2, v2);
}

/// Transition slot positions stay within the storage.
proof fn lemma_transition_slot_bound(n: int, side: int, u: int, v: int, slot: int)
    requires
        n >= 1,
        0 <= side < 6,
        0 <= u < n,
        0 <= v < n,
        0 <= slot < 10,
    ensures
        0 <= transition_slot_position(n, side, u, v, slot),
        transition_slot_position(n, side, u, v, slot) < 60 * n * n,
{
    assert(0 <= side + 6 * u + 6 * n * v + 6 * n * n * slot && side + 6 * u + 6 * n * v + 6 * n
        * n * slot < 60 * n * n) by (nonlinear_arith)
        requires
            n >= 1,
            0 <= side < 6,
            0 <= u < n,
            0 <= v < n,
            0 <= slot < 10,
    ;
}

/// Storage for the vertices a later cell may reuse: one slot per (cell,
/// reuse index), overwritten as the extraction proceeds, holding the index
/// the mesh builder returned for the vertex.
pub struct SharedVertexIndices {
    regular: Vec<Option<VertexIndex>>,
    transition: Vec<Option<VertexIndex>>,
    block_size: usize,
}

impl SharedVertexIndices {
    /// The block's subdivision count.
    pub closed spec fn subs(self) -> int {
        self.block_size as int
    }

    /// Both tables are fully allocated.
    pub closed spec fn wf(self) -> bool {
        &&& fits_subdivisions(self.subs())
        &&& self.regular.len() == 4 * self.subs() * self.subs() * self.subs()
        &&& self.transition.len() == 60 * self.subs() * self.subs()
    }

    /// The stored index for a regular cell's reuse slot.
    pub closed spec fn regular_at(self, x: int, y: int, z: int, slot: int) -> Option<
        VertexIndex,
    > {
        self.regular[regular_slot_position(self.subs(), x, y, z, slot)]
    }

    /// The stored index for a transition cell's reuse slot.
    pub closed spec fn transition_at(self, side: int, u: int, v: int, slot: int) -> Option<
        VertexIndex,
    > {
        self.transition[transition_slot_position(self.subs(), side, u, v, slot)]
    }

    /// Every stored vertex index is below `bound`.
    pub closed spec fn all_below(self, bound: nat) -> bool {
        &&& (forall|i: int|
            0 <= i < self.regular.len() && (#[trigger] self.regular[i]) is Some ==> (
            self.regular[i]->Some_0).0 < bound)
        &&& (forall|i: int|
            0 <= i < self.transition.len() && (#[trigger] self.transition[i]) is Some ==> (
            self.transition[i]->Some_0).0 < bound)
    }

    /// Stored indices stay below any later vertex count.
    pub proof fn lemma_all_below_monotonic(self, bound1: nat, bound2: nat)
        requires
            self.all_below(bound1),
            bound1 <= bound2,
        ensures
            self.all_below(bound2),
    {
    }

    /// Fresh storage with every slot empty.
    pub fn new(block_size: usize) -> (r: SharedVertexIndices)
        requires
            fits_subdivisions(block_size as int),
        ensures
            r.wf(),
            r.subs() == block_size as int,
            forall|bound: nat| r.all_below(bound),
    {
        let n = block_size;
        let ghost ni = n as int;
        proof {
            lemma_fits_consequences(ni);
            assert(4 * ni * ni * ni == 4 * (ni * (ni * ni)) && 60 * ni * ni == 60 * (ni * ni))
                by (nonlinear_arith);
        }
        let regular_len: usize = 4 * (n * (n * n));
        let transition_len: usize = 60 * (n * n);
        let mut regular: Vec<Option<VertexIndex>> = Vec::new();
        let mut i: usize = 0;
        while i < regular_len
            invariant
                i <= regular_len,
                regular.len() == i,
                forall|k: int| 0 <= k < i ==> (#[trigger] regular[k]) is None,
            decreases regular_len - i,
        {
            regular.push(None);
            i = i + 1;
        }
        let mut transition: Vec<Option<VertexIndex>> = Vec::new();
        let mut j: usize = 0;
        while j < transition_len
            invariant
                j <= transition_len,
                transition.len() == j,
                forall|k: int| 0 <= k < j ==> (#[trigger] transition[k]) is None,
            decreases transition_len - j,
        {
            transition.push(None);
            j = j + 1;
        }
        SharedVertexIndices { regular, transition, block_size }
    }

    /// The vertex stored for a regular cell's reuse slot, if any cell stored
    /// one already.
    pub fn get_regular(
        &self,
        cell_x: usize,
        cell_y: usize,
        cell_z: usize,
        reuse_index: RegularReuseIndex,
    ) -> (r: Option<VertexIndex>)
        requires
            self.wf(),
            cell_x < self.subs(),
            cell_y < self.subs(),
            cell_z < self.subs(),
            reuse_index.0 < 4,
        ensures
            r == self.regular_at(cell_x as int, cell_y as int, cell_z as int, reuse_index.0 as int),
    {
        let n = self.block_size;
        proof {
            lemma_fits_consequences(n as int);
            lemma_regular_slot_bound(
                n as int,
                cell_x as int,
                cell_y as int,
                cell_z as int,
                reuse_index.0 as int,
            );
            assert(n as int * (n as int) * (n as int) == n as int * ((n as int) * (n as int))
                && 4 * (n as int * (n as int) * (n as int)) == 4 * (n as int) * (n as int) * (
            n as int)) by (nonlinear_arith);
        }
        let storage_index: usize = cell_x + n * cell_y + n * n * cell_z + n * n * n
            * reuse_index.0;
        self.regular[storage_index]
    }

    /// Stores the vertex for a regular cell's reuse slot.
    pub fn put_regular(
        &mut self,
        index: VertexIndex,
        cell_x: usize,
        cell_y: usize,
        cell_z: usize,
        reuse_index: RegularReuseIndex,
    )
        requires
            old(self).wf(),
            cell_x < old(self).subs(),
            cell_y < old(self).subs(),
            cell_z < old(self).subs(),
            reuse_index.0 < 4,
        ensures
            final(self).wf(),
            final(self).subs() == old(self).subs(),
            final(self).regular_at(
                cell_x as int,
                cell_y as int,
                cell_z as int,
                reuse_index.0 as int,
            ) == Some(index),
            forall|x: int, y: int, z: int, s: int|
                0 <= x < old(self).subs() && 0 <= y < old(self).subs() && 0 <= z < old(self).subs()
                    && 0 <= s < 4 && !(x == cell_x as int && y == cell_y as int && z
                    == cell_z as int && s == reuse_index.0 as int) ==> #[trigger] final(self).regular_at(x, y, z, s) == old(self).regular_at(x, y, z, s),
            forall|side: int, u: int, v: int, s: int|
                #[trigger] final(self).transition_at(side, u, v, s) == old(self).transition_at(
                    side,
                    u,
                    v,
                    s,
                ),
            forall|bound: nat|
                old(self).all_below(bound) && index.0 < bound ==> final(self).all_below(bound),
    {
        let n = self.block_size;
        proof {
            lemma_fits_consequences(n as int);
            lemma_regular_slot_bound(
                n as int,
                cell_x as int,
                cell_y as int,
                cell_z as int,
                reuse_index.0 as int,
            );
            assert(n as int * (n as int) * (n as int) == n as int * ((n as int) * (n as int))
                && 4 * (n as int * (n as int) * (n as int)) == 4 * (n as int) * (n as int) * (
            n as int)) by (nonlinear_arith);
        }
        let storage_index: usize = cell_x + n * cell_y + n * n * cell_z + n * n * n
            * reuse_index.0;
        self.regular[storage_index] = Some(index);
        proof {
            assert forall|x: int, y: int, z: int, s: int|
                0 <= x < old(self).subs() && 0 <= y < old(self).subs() && 0 <= z < old(self).subs()
                    && 0 <= s < 4 && !(x == cell_x as int && y == cell_y as int && z
                    == cell_z as int && s == reuse_index.0 as int) implies #[trigger] final(self).regular_at(x, y, z, s) == old(self).regular_at(x, y, z, s) by {
                if regular_slot_position(self.subs(), x, y, z, s) == storage_index as int {
                    lemma_regular_slot_injective(
                        self.subs(),
                        x,
                        y,
                        z,
                        s,
                        cell_x as int,
                        cell_y as int,
                        cell_z as int,
                        reuse_index.0 as int,
                    );
                }
                lemma_regular_slot_bound(self.subs(), x, y, z, s);
            }
        }
    }

    /// The vertex stored for a transition cell's reuse slot, if any cell
    /// stored one already.
    pub fn get_transition(
        &self,
        cell: &crate::voxel_coordinates::TransitionCellIndex,
        reuse_index: TransitionReuseIndex,
    ) -> (r: Option<VertexIndex>)
        requires
            self.wf(),
            cell.cell_u < self.subs(),
            cell.cell_v < self.subs(),
            reuse_index.0 < 10,
        ensures
            r == self.transition_at(
                cell.side.index_spec(),
                cell.cell_u as int,
                cell.cell_v as int,
                reuse_index.0 as int,
            ),
    {
        let n = self.block_size;
        let side = cell.side.index();
        proof {
            lemma_fits_consequences(n as int);
            lemma_transition_slot_bound(
                n as int,
                side as int,
                cell.cell_u as int,
                cell.cell_v as int,
                reuse_index.0 as int,
            );
            assert(6 * (n as int) * (n as int) == 6 * ((n as int) * (n as int)) && 60 * ((
            n as int) * (n as int)) == 60 * (n as int) * (n as int)) by (nonlinear_arith);
        }
        let storage_index: usize = side + 6 * cell.cell_u + 6 * n * cell.cell_v + 6 * (n * n)
            * reuse_index.0;
        self.transition[storage_index]
    }

    /// Stores the vertex for a transition cell's reuse slot.
    pub fn put_transition(
        &mut self,
        index: VertexIndex,
        cell: &crate::voxel_coordinates::TransitionCellIndex,
        reuse_index: TransitionReuseIndex,
    )
        requires
            old(self).wf(),
            cell.cell_u < old(self).subs(),
            cell.cell_v < old(self).subs(),
            reuse_index.0 < 10,
        ensures
            final(self).wf(),
            final(self).subs() == old(self).subs(),
            final(self).transition_at(
                cell.side.index_spec(),
                cell.cell_u as int,
                cell.cell_v as int,
                reuse_index.0 as int,
            ) == Some(index),
            forall|side: int, u: int, v: int, s: int|
                0 <= side < 6 && 0 <= u < old(self).subs() && 0 <= v < old(self).subs() && 0 <= s
                    < 10 && !(side == cell.side.index_spec() && u == cell.cell_u as int && v
                    == cell.cell_v as int && s == reuse_index.0 as int) ==> #[trigger] final(self).transition_at(side, u, v, s) == old(self).transition_at(side, u, v, s),
            forall|x: int, y: int, z: int, s: int|
                #[trigger] final(self).regular_at(x, y, z, s) == old(self).regular_at(x, y, z, s),
            forall|bound: nat|
                old(self).all_below(bound) && index.0 < bound ==> final(self).all_below(bound),
    {
        let n = self.block_size;
        let side = cell.side.index();
        proof {
            lemma_fits_consequences(n as int);
            lemma_transition_slot_bound(
                n as int,
                side as int,
                cell.cell_u as int,
                cell.cell_v as int,
                reuse_index.0 as int,
            );
            assert(6 * (n as int) * (n as int) == 6 * ((n as int) * (n as int)) && 60 * ((
            n as int) * (n as int)) == 60 * (n as int) * (n as int)) by (nonlinear_arith);
        }
        let storage_index: usize = side + 6 * cell.cell_u + 6 * n * cell.cell_v + 6 * (n * n)
            * reuse_index.0;
        self.transition[storage_index] = Some(index);
        proof {
            assert forall|side_: int, u: int, v: int, s: int|
                0 <= side_ < 6 && 0 <= u < old(self).subs() && 0 <= v < old(self).subs() && 0 <= s
                    < 10 && !(side_ == cell.side.index_spec() && u == cell.cell_u as int && v
                    == cell.cell_v as int && s == reuse_index.0 as int) implies #[trigger] final(self).transition_at(side_, u, v, s) == old(self).transition_at(side_, u, v, s) by {
                if transition_slot_position(self.subs(), side_, u, v, s) == storage_index as int {
                    lemma_transition_slot_injective(
                        self.subs(),
                        side_,
                        u,
                        v,
                        s,
                        cell.side.index_spec(),
                        cell.cell_u as int,
                        cell.cell_v as int,
                        reuse_index.0 as int,
                    );
                }
                lemma_transition_slot_bound(self.subs(), side_, u, v, s);
            }
        }
    }
}

/// Whether the grid point at the given voxel index may be retracted at all:
/// not if it lies on a face whose neighbour is rendered at the same level of
/// detail (a face that is not a transition side), as pulling it would open a
/// crack along that seam.
pub open spec fn can_shrink_spec(
    xi: int,
    yi: int,
    zi: int,
    subdivisions: int,
    transition_sides: TransitionSides,
) -> bool {
    !((xi == 0 && !transition_sides.has(TransitionSide::LowX)) || (xi == subdivisions
        && !transition_sides.has(TransitionSide::HighX)) || (yi == 0 && !transition_sides.has(
        TransitionSide::LowY,
    )) || (yi == subdivisions && !transition_sides.has(TransitionSide::HighY)) || (zi == 0
        && !transition_sides.has(TransitionSide::LowZ)) || (zi == subdivisions
        && !transition_sides.has(TransitionSide::HighZ)))
}

/// Where one coordinate of a grid point ends up after the shrink rule: when
/// the point is eligible and lies on a transition face along this axis, it is
/// retracted toward the inside of the block by `shrink_factor` of one cell.
pub open spec fn shrunk_coordinate_spec<C: Coordinate>(
    value: C,
    i: int,
    low: TransitionSide,
    high: TransitionSide,
    can: bool,
    subdivisions: int,
    transition_sides: TransitionSides,
    shrink: C,
) -> C {
    if can && i == 0 && transition_sides.has(low) {
        value.plus_spec(shrink)
    } else if can && i == subdivisions && transition_sides.has(high) {
        value.minus_spec(shrink)
    } else {
        value
    }
}

/// Do not shrink a grid point (in any direction) if it is on a face where
/// the neighbouring block is rendered at the same level of detail (not a
/// transition side).
fn can_shrink(
    xi: isize,
    yi: isize,
    zi: isize,
    subdivisions: usize,
    transition_sides: &TransitionSides,
) -> (r: bool)
    requires
        subdivisions <= isize::MAX,
    ensures
        r == can_shrink_spec(
            xi as int,
            yi as int,
            zi as int,
            subdivisions as int,
            *transition_sides,
        ),
{
    let dont_shrink = ((xi == 0) && !transition_sides.contains(TransitionSide::LowX)) || ((xi
        == subdivisions as isize) && !transition_sides.contains(TransitionSide::HighX)) || ((yi
        == 0) && !transition_sides.contains(TransitionSide::LowY)) || ((yi == subdivisions as isize)
        && !transition_sides.contains(TransitionSide::HighY)) || ((zi == 0)
        && !transition_sides.contains(TransitionSide::LowZ)) || ((zi == subdivisions as isize)
        && !transition_sides.contains(TransitionSide::HighZ));
    !dont_shrink
}

/// Retracts the grid point at regular voxel index (xi, yi, zi) away from
/// every transition face it lies on, by `shrink_factor` of one cell, unless
/// it also lies on a same-resolution face (in which case it must not move at
/// all).  With no transition side every grid point stays exactly where the
/// regular grid puts it.
#[allow(clippy::too_many_arguments)]
pub fn shrink_if_needed<C: Coordinate>(
    x: &mut C,
    y: &mut C,
    z: &mut C,
    xi: isize,
    yi: isize,
    zi: isize,
    cell_size: C,
    subdivisions: usize,
    transition_sides: &TransitionSides,
)
    requires
        subdivisions <= isize::MAX,
    ensures
        ({
            let can = can_shrink_spec(
                xi as int,
                yi as int,
                zi as int,
                subdivisions as int,
                *transition_sides,
            );
            let shrink = C::shrink_factor_spec().times_spec(cell_size);
            &&& *final(x) == shrunk_coordinate_spec(
                *old(x),
                xi as int,
                TransitionSide::LowX,
                TransitionSide::HighX,
                can,
                subdivisions as int,
                *transition_sides,
                shrink,
            )
            &&& *final(y) == shrunk_coordinate_spec(
                *old(y),
                yi as int,
                TransitionSide::LowY,
                TransitionSide::HighY,
                can,
                subdivisions as int,
                *transition_sides,
                shrink,
            )
            &&& *final(z) == shrunk_coordinate_spec(
                *old(z),
                zi as int,
                TransitionSide::LowZ,
                TransitionSide::HighZ,
                can,
                subdivisions as int,
                *transition_sides,
                shrink,
            )
        }),
        transition_sides.is_empty_spec() ==> *final(x) == *old(x) && *final(y) == *old(y)
            && *final(z) == *old(z),
{
    let shrink: C = C::shrink_factor().times(cell_size);
    if can_shrink(xi, yi, zi, subdivisions, transition_sides) {
        if (xi == 0) && (transition_sides.contains(TransitionSide::LowX)) {
            *x = (*x).plus(shrink);
        } else if (xi == subdivisions as isize) && (transition_sides.contains(
            TransitionSide::HighX,
        )) {
            *x = (*x).minus(shrink);
        }
        if (yi == 0) && (transition_sides.contains(TransitionSide::LowY)) {
            *y = (*y).plus(shrink);
        } else if (yi == subdivisions as isize) && (transition_sides.contains(
            TransitionSide::HighY,
        )) {
            *y = (*y).minus(shrink);
        }
        if (zi == 0) && (transition_sides.contains(TransitionSide::LowZ)) {
            *z = (*z).plus(shrink);
        } else if (zi == subdivisions as isize) && (transition_sides.contains(
            TransitionSide::HighZ,
        )) {
            *z = (*z).minus(shrink);
        }
    }
}


/// The case-number weight of regular cell corner `i`: bit `i`.
pub open spec fn regular_case_weight(i: int) -> int {
    if i == 0 {
        1
    } else if i == 1 {
        2
    } else if i == 2 {
        4
    } else if i == 3 {
        8
    } else if i == 4 {
        16
    } else if i == 5 {
        32
    } else if i == 6 {
        64
    } else {
        128
    }
}

/// The sum of the first `k` regular corner weights.
pub open spec fn regular_case_total(k: int) -> int {
    if k <= 0 {
        0
    } else if k == 1 {
        1
    } else if k == 2 {
        3
    } else if k == 3 {
        7
    } else if k == 4 {
        15
    } else if k == 5 {
        31
    } else if k == 6 {
        63
    } else if k == 7 {
        127
    } else {
        255
    }
}

/// The case-number weight of regular cell corner `i`.
fn regular_case_weight_exec(i: usize) -> (r: usize)
    requires
        i < 8,
    ensures
        r == regular_case_weight(i as int),
{
    match i {
        0 => 1,
        1 => 2,
        2 => 4,
        3 => 8,
        4 => 16,
        5 => 32,
        6 => 64,
        _ => 128,
    }
}

/// The sum of the first `k` transition face contribution values.
pub open spec fn transition_case_total(k: int) -> int {
    if k <= 0 {
        0
    } else if k == 1 {
        0x01
    } else if k == 2 {
        0x03
    } else if k == 3 {
        0x07
    } else if k == 4 {
        0x87
    } else if k == 5 {
        0x187
    } else if k == 6 {
        0x18F
    } else if k == 7 {
        0x1CF
    } else if k == 8 {
        0x1EF
    } else {
        0x1FF
    }
}

/// Orchestrates the extraction: sweeps the regular cells, then each
/// transition face, computing case numbers from the cached densities and
/// materialising vertices and triangles through the mesh builder.
pub struct Extractor<C: Coordinate, V: VoxelData, S: VoxelSource<V>, M: MeshBuilder<V, C>> {
    density_source: PreCachingVoxelSource<V, S>,
    block: Block<C>,
    threshold: V::Density,
    transition_sides: TransitionSides,
    mesh_builder: M,
    shared_storage: SharedVertexIndices,
    current_rotation: Rotation,
}

impl<C: Coordinate, V: VoxelData, S: VoxelSource<V>, M: MeshBuilder<V, C>> Extractor<C, V, S, M> {
    /// The block's subdivision count.
    pub closed spec fn subs(self) -> int {
        self.block.subdivisions as int
    }

    /// The block being extracted.
    pub closed spec fn block_spec(self) -> Block<C> {
        self.block
    }

    /// The iso-value.
    pub closed spec fn threshold_spec(self) -> V::Density {
        self.threshold
    }

    /// The faces extracted at double resolution.
    pub closed spec fn sides_spec(self) -> TransitionSides {
        self.transition_sides
    }

    /// The triangles handed to the mesh builder so far.
    pub closed spec fn triangles(self) -> Seq<(usize, usize, usize)> {
        self.mesh_builder.triangles()
    }

    /// The number of vertices handed to the mesh builder so far.
    pub closed spec fn num_vertices(self) -> nat {
        self.mesh_builder.num_vertices()
    }

    /// Which data values the oracle behind the cache can return.
    pub closed spec fn may_yield(self, data: V) -> bool {
        self.density_source.source_may_yield(data)
    }

    /// The cached value of a regular voxel address.
    pub closed spec fn voxel_value(self, x: int, y: int, z: int) -> V {
        self.density_source.regular_value(x, y, z)
    }

    /// The vertex stored for a regular cell's reuse slot, if any.
    pub closed spec fn reusable_regular(self, x: int, y: int, z: int, slot: int) -> Option<
        VertexIndex,
    > {
        self.shared_storage.regular_at(x, y, z, slot)
    }

    /// The vertex stored for a transition cell's reuse slot, if any.
    pub closed spec fn reusable_transition(self, side: int, u: int, v: int, slot: int) -> Option<
        VertexIndex,
    > {
        self.shared_storage.transition_at(side, u, v, slot)
    }

    /// Everything the extractor maintains between steps.
    pub closed spec fn wf(self) -> bool {
        &&& fits_subdivisions(self.subs())
        &&& self.density_source.wf()
        &&& self.density_source.subs() == self.subs()
        &&& self.shared_storage.wf()
        &&& self.shared_storage.subs() == self.subs()
        &&& self.current_rotation.wf()
        &&& self.shared_storage.all_below(self.mesh_builder.num_vertices())
    }

    /// Every density the oracle can produce lies outside the threshold.
    pub open spec fn all_outside(self) -> bool {
        forall|v: V|
            self.may_yield(v) ==> !v.density_spec().inside_spec(self.threshold_spec())
    }

    /// Every density the oracle can produce lies inside the threshold.
    pub open spec fn all_inside(self) -> bool {
        forall|v: V| self.may_yield(v) ==> v.density_spec().inside_spec(self.threshold_spec())
    }

    /// The oracle is degenerate: uniformly inside or uniformly outside.
    pub open spec fn uniform(self) -> bool {
        self.all_outside() || self.all_inside()
    }

    /// The extraction parameters and the oracle's predicate are stable.
    pub closed spec fn same_config(self, pre: Self) -> bool {
        &&& self.block == pre.block
        &&& self.threshold == pre.threshold
        &&& self.transition_sides == pre.transition_sides
        &&& forall|v: V| self.may_yield(v) == pre.may_yield(v)
    }

    /// How every extraction step relates its state to the state before it:
    /// the configuration is stable, the builder only grows, already emitted
    /// triangles stay, and every new triangle references vertices the
    /// builder has.
    pub open spec fn evolved_from(self, pre: Self) -> bool {
        &&& self.same_config(pre)
        &&& pre.triangles().len() <= self.triangles().len()
        &&& (forall|t: int|
            0 <= t < pre.triangles().len() ==> #[trigger] self.triangles()[t]
                == pre.triangles()[t])
        &&& pre.num_vertices() <= self.num_vertices()
        &&& (forall|t: int|
            pre.triangles().len() <= t < self.triangles().len() ==> tri_valid(
                #[trigger] self.triangles()[t],
                self.num_vertices(),
            ))
    }

    /// The builder's visible history has not moved.
    pub open spec fn builder_unchanged(self, pre: Self) -> bool {
        self.triangles() == pre.triangles() && self.num_vertices() == pre.num_vertices()
    }

    /// The shared reuse storage has not moved.
    pub closed spec fn storage_unchanged(self, pre: Self) -> bool {
        self.shared_storage == pre.shared_storage
    }

    /// The cache's transition half has not moved: the loaded sides and
    /// every held face value are the same.
    pub closed spec fn transition_state_unchanged(self, pre: Self) -> bool {
        &&& self.density_source.transition_loaded() == pre.density_source.transition_loaded()
        &&& (forall|i: int|
            #[trigger] self.density_source.side_loaded(i) == pre.density_source.side_loaded(i))
        &&& (forall|s: int, gu: int, gv: int|
            #[trigger] self.density_source.transition_value(s, gu, gv)
                == pre.density_source.transition_value(s, gu, gv))
    }

    /// Every active side's face voxels are materialised.
    pub closed spec fn sides_ready(self) -> bool {
        &&& self.density_source.transition_loaded()
        &&& forall|i: int|
            0 <= i < 6 && #[trigger] self.transition_sides.has_index(i)
                ==> self.density_source.side_loaded(i)
    }

    /// The transition caches have not been loaded yet.
    pub closed spec fn transition_not_loaded(self) -> bool {
        !self.density_source.transition_loaded()
    }

    /// Growing twice is growing.
    pub proof fn lemma_evolved_transitive(s3: Self, s2: Self, s1: Self)
        requires
            s3.evolved_from(s2),
            s2.evolved_from(s1),
        ensures
            s3.evolved_from(s1),
    {
        assert forall|t: int|
            s1.triangles().len() <= t < s3.triangles().len() implies tri_valid(
            #[trigger] s3.triangles()[t],
            s3.num_vertices(),
        ) by {
            if t < s2.triangles().len() {
                assert(s3.triangles()[t] == s2.triangles()[t]);
                assert(tri_valid(s2.triangles()[t], s2.num_vertices()));
            }
        }
    }

    /// Whether corner `i` of a regular cell has a density inside the
    /// threshold.
    pub open spec fn corner_inside(self, cell: crate::voxel_coordinates::RegularCellIndex, i: int) -> bool {
        let d = crate::aux_tables::regular_cell_voxel_delta(i);
        self.voxel_value(
            cell.x + d.x,
            cell.y + d.y,
            cell.z + d.z,
        ).density_spec().inside_spec(self.threshold_spec())
    }

    /// The regular case number restricted to the first `k` corners.
    pub open spec fn regular_case_partial(
        self,
        cell: crate::voxel_coordinates::RegularCellIndex,
        k: int,
    ) -> int
        decreases k,
    {
        if k <= 0 {
            0
        } else {
            self.regular_case_partial(cell, k - 1) + if self.corner_inside(cell, k - 1) {
                regular_case_weight(k - 1)
            } else {
                0
            }
        }
    }

    /// Partial case numbers stay within the sum of the seen weights.
    pub proof fn lemma_regular_case_partial_bounds(
        self,
        cell: crate::voxel_coordinates::RegularCellIndex,
        k: int,
    )
        requires
            0 <= k <= 8,
        ensures
            0 <= self.regular_case_partial(cell, k) <= regular_case_total(k),
        decreases k,
    {
        if k > 0 {
            self.lemma_regular_case_partial_bounds(cell, k - 1);
        }
    }

    /// With every corner outside the case number is zero.
    pub proof fn lemma_regular_case_all_outside(
        self,
        cell: crate::voxel_coordinates::RegularCellIndex,
        k: int,
    )
        requires
            0 <= k <= 8,
            forall|i: int| 0 <= i < k ==> !self.corner_inside(cell, i),
        ensures
            self.regular_case_partial(cell, k) == 0,
        decreases k,
    {
        if k > 0 {
            self.lemma_regular_case_all_outside(cell, k - 1);
        }
    }

    /// With every corner inside the case number is the all-ones case.
    pub proof fn lemma_regular_case_all_inside(
        self,
        cell: crate::voxel_coordinates::RegularCellIndex,
        k: int,
    )
        requires
            0 <= k <= 8,
            forall|i: int| 0 <= i < k ==> self.corner_inside(cell, i),
        ensures
            self.regular_case_partial(cell, k) == regular_case_total(k),
        decreases k,
    {
        if k > 0 {
            self.lemma_regular_case_all_inside(cell, k - 1);
        }
    }

    /// The cached value at a high resolution face voxel: the coinciding
    /// regular voxel where there is one, the face slab otherwise.
    pub open spec fn transition_point_value(
        self,
        idx: crate::voxel_coordinates::HighResolutionVoxelIndex,
    ) -> V {
        if idx.on_regular_grid_spec() {
            let nums = crate::rotation::regular_voxel_index_for_face(
                self.subs(),
                idx.cell,
                idx.delta.u as int / 2,
                idx.delta.v as int / 2,
            );
            self.voxel_value(nums.0, nums.1, nums.2)
        } else {
            self.transition_face_value(
                idx.cell.side.index_spec(),
                2 * idx.cell.cell_u + idx.delta.u,
                2 * idx.cell.cell_v + idx.delta.v,
            )
        }
    }

    /// The cached value of a face slab voxel.
    pub closed spec fn transition_face_value(self, side: int, gu: int, gv: int) -> V {
        self.density_source.transition_value(side, gu, gv)
    }

    /// Whether high resolution face voxel `i` of a transition cell has a
    /// density inside the threshold.
    pub open spec fn transition_corner_inside(
        self,
        cell: crate::voxel_coordinates::TransitionCellIndex,
        i: int,
    ) -> bool {
        let idx = crate::voxel_coordinates::HighResolutionVoxelIndex {
            cell,
            delta: crate::aux_tables::transition_case_delta(i),
        };
        self.transition_point_value(idx).density_spec().inside_spec(self.threshold_spec())
    }

    /// The transition case number restricted to the first `k` face voxels.
    pub open spec fn transition_case_partial(
        self,
        cell: crate::voxel_coordinates::TransitionCellIndex,
        k: int,
    ) -> int
        decreases k,
    {
        if k <= 0 {
            0
        } else {
            self.transition_case_partial(cell, k - 1) + if self.transition_corner_inside(
                cell,
                k - 1,
            ) {
                crate::aux_tables::transition_case_value(k - 1) as int
            } else {
                0
            }
        }
    }

    /// Partial transition case numbers stay within the sum of the seen
    /// contributions.
    pub proof fn lemma_transition_case_partial_bounds(
        self,
        cell: crate::voxel_coordinates::TransitionCellIndex,
        k: int,
    )
        requires
            0 <= k <= 9,
        ensures
            0 <= self.transition_case_partial(cell, k) <= transition_case_total(k),
        decreases k,
    {
        if k > 0 {
            self.lemma_transition_case_partial_bounds(cell, k - 1);
        }
    }

    /// With every face voxel outside the transition case number is zero.
    pub proof fn lemma_transition_case_all_outside(
        self,
        cell: crate::voxel_coordinates::TransitionCellIndex,
        k: int,
    )
        requires
            0 <= k <= 9,
            forall|i: int| 0 <= i < k ==> !self.transition_corner_inside(cell, i),
        ensures
            self.transition_case_partial(cell, k) == 0,
        decreases k,
    {
        if k > 0 {
            self.lemma_transition_case_all_outside(cell, k - 1);
        }
    }

    /// With every face voxel inside the transition case number is the
    /// all-ones case.
    pub proof fn lemma_transition_case_all_inside(
        self,
        cell: crate::voxel_coordinates::TransitionCellIndex,
        k: int,
    )
        requires
            0 <= k <= 9,
            forall|i: int| 0 <= i < k ==> self.transition_corner_inside(cell, i),
        ensures
            self.transition_case_partial(cell, k) == transition_case_total(k),
        decreases k,
    {
        if k > 0 {
            self.lemma_transition_case_all_inside(cell, k - 1);
        }
    }

    /// The case number of a regular cell only reads the block cache and the
    /// threshold: states agreeing on those agree on the case.
    pub proof fn lemma_regular_case_stable(
        s2: Self,
        s1: Self,
        cell: crate::voxel_coordinates::RegularCellIndex,
        k: int,
    )
        requires
            0 <= k <= 8,
            s2.subs() == s1.subs(),
            s2.threshold_spec() == s1.threshold_spec(),
            cell.x < s1.subs(),
            cell.y < s1.subs(),
            cell.z < s1.subs(),
            forall|a: int, b: int, c: int|
                is_block_addr(s1.subs(), a, b, c) ==> #[trigger] s2.voxel_value(a, b, c)
                    == s1.voxel_value(a, b, c),
        ensures
            s2.regular_case_partial(cell, k) == s1.regular_case_partial(cell, k),
        decreases k,
    {
        if k > 0 {
            Self::lemma_regular_case_stable(s2, s1, cell, k - 1);
            let d = crate::aux_tables::regular_cell_voxel_delta(k - 1);
            assert(is_block_addr(s1.subs(), cell.x + d.x, cell.y + d.y, cell.z + d.z));
            assert(s2.voxel_value(cell.x + d.x, cell.y + d.y, cell.z + d.z) == s1.voxel_value(
                cell.x + d.x,
                cell.y + d.y,
                cell.z + d.z,
            ));
        }
    }

    /// The case number of a transition cell only reads the block cache, the
    /// face slabs and the threshold: states agreeing on those agree on the
    /// case.
    pub proof fn lemma_transition_case_stable(
        s2: Self,
        s1: Self,
        cell: crate::voxel_coordinates::TransitionCellIndex,
        k: int,
    )
        requires
            0 <= k <= 9,
            s2.subs() == s1.subs(),
            s2.threshold_spec() == s1.threshold_spec(),
            cell.cell_u < s1.subs(),
            cell.cell_v < s1.subs(),
            forall|a: int, b: int, c: int|
                is_block_addr(s1.subs(), a, b, c) ==> #[trigger] s2.voxel_value(a, b, c)
                    == s1.voxel_value(a, b, c),
            s2.transition_state_unchanged(s1),
        ensures
            s2.transition_case_partial(cell, k) == s1.transition_case_partial(cell, k),
        decreases k,
    {
        if k > 0 {
            Self::lemma_transition_case_stable(s2, s1, cell, k - 1);
            let delta = crate::aux_tables::transition_case_delta(k - 1);
            let idx = crate::voxel_coordinates::HighResolutionVoxelIndex { cell, delta };
            if idx.on_regular_grid_spec() {
                crate::rotation::lemma_face_voxel_in_block(
                    s1.subs(),
                    cell,
                    delta.u as int / 2,
                    delta.v as int / 2,
                );
                let nums = crate::rotation::regular_voxel_index_for_face(
                    s1.subs(),
                    cell,
                    delta.u as int / 2,
                    delta.v as int / 2,
                );
                assert(is_block_addr(s1.subs(), nums.0, nums.1, nums.2));
                assert(s2.voxel_value(nums.0, nums.1, nums.2) == s1.voxel_value(
                    nums.0,
                    nums.1,
                    nums.2,
                ));
            } else {
                let side = cell.side.index_spec();
                let gu = 2 * cell.cell_u + delta.u;
                let gv = 2 * cell.cell_v + delta.v;
                assert(s2.density_source.transition_value(side, gu, gv)
                    == s1.density_source.transition_value(side, gu, gv));
            }
            assert(s2.transition_corner_inside(cell, k - 1) == s1.transition_corner_inside(
                cell,
                k - 1,
            ));
        }
    }

    /// The triangulation class of a regular cell, over the named tables:
    /// the class entry for the cell's case number.
    pub open spec fn regular_cell_class_spec(
        self,
        cell: crate::voxel_coordinates::RegularCellIndex,
    ) -> int {
        crate::tables::regular_cell_class_entry(self.regular_case_partial(cell, 8)) as int
    }

    /// How many triangles a regular cell emits: the named triangle count of
    /// its class.
    pub open spec fn regular_cell_triangles(
        self,
        cell: crate::voxel_coordinates::RegularCellIndex,
    ) -> int {
        crate::tables::regular_triangle_count(self.regular_cell_class_spec(cell)) as int
    }

    /// How many vertices a regular cell materialises at most: the named
    /// vertex count of its class (reuse can only lower the number created).
    pub open spec fn regular_cell_vertex_limit(
        self,
        cell: crate::voxel_coordinates::RegularCellIndex,
    ) -> int {
        crate::tables::regular_vertex_count(self.regular_cell_class_spec(cell)) as int
    }

    /// The raw class byte of a transition cell: the low seven bits are the
    /// class, bit 7 the orientation flag.
    pub open spec fn transition_cell_raw_class(
        self,
        cell: crate::voxel_coordinates::TransitionCellIndex,
    ) -> u8 {
        crate::tables::transition_cell_class_entry(self.transition_case_partial(cell, 9))
    }

    /// The triangulation class of a transition cell.
    pub open spec fn transition_cell_class_spec(
        self,
        cell: crate::voxel_coordinates::TransitionCellIndex,
    ) -> int {
        (self.transition_cell_raw_class(cell) & 0x7F) as int
    }

    /// How many triangles a transition cell emits.
    pub open spec fn transition_cell_triangles(
        self,
        cell: crate::voxel_coordinates::TransitionCellIndex,
    ) -> int {
        crate::tables::transition_triangle_count(self.transition_cell_class_spec(cell)) as int
    }

    /// How many vertices a transition cell materialises at most.
    pub open spec fn transition_cell_vertex_limit(
        self,
        cell: crate::voxel_coordinates::TransitionCellIndex,
    ) -> int {
        crate::tables::transition_vertex_count(self.transition_cell_class_spec(cell)) as int
    }

    /// The regular cell visited at step `k` of the sweep: x-outer, y-middle,
    /// z-inner order.
    pub open spec fn sweep_cell(n: int, k: int) -> crate::voxel_coordinates::RegularCellIndex {
        crate::voxel_coordinates::RegularCellIndex {
            x: (k / (n * n)) as usize,
            y: ((k / n) % n) as usize,
            z: (k % n) as usize,
        }
    }

    /// How many triangles the first `k` cells of the regular sweep emit.
    pub open spec fn regular_sweep_partial(self, k: int) -> int
        decreases k,
    {
        if k <= 0 {
            0
        } else {
            self.regular_sweep_partial(k - 1) + self.regular_cell_triangles(
                Self::sweep_cell(self.subs(), k - 1),
            )
        }
    }

    /// How many triangles the regular sweep emits in total.
    pub open spec fn regular_sweep_total(self) -> int {
        self.regular_sweep_partial(self.subs() * (self.subs() * self.subs()))
    }

    /// How many triangles the first `k` cells of one face's sweep emit:
    /// u-outer, v-inner order.
    pub open spec fn transition_face_partial(self, side: TransitionSide, k: int) -> int
        decreases k,
    {
        if k <= 0 {
            0
        } else {
            self.transition_face_partial(side, k - 1) + self.transition_cell_triangles(
                crate::voxel_coordinates::TransitionCellIndex {
                    side,
                    cell_u: ((k - 1) / self.subs()) as usize,
                    cell_v: ((k - 1) % self.subs()) as usize,
                },
            )
        }
    }

    /// How many triangles the faces before table position `bound` emit:
    /// inactive sides contribute nothing.
    pub open spec fn transition_sweep_partial(self, bound: int) -> int
        decreases bound,
    {
        if bound <= 0 {
            0
        } else {
            self.transition_sweep_partial(bound - 1) + if self.sides_spec().has_index(bound - 1) {
                self.transition_face_partial(
                    crate::transition_sides::side_from_index(bound - 1),
                    self.subs() * self.subs(),
                )
            } else {
                0
            }
        }
    }

    /// How many triangles the transition sweep emits in total.
    pub open spec fn transition_sweep_total(self) -> int {
        self.transition_sweep_partial(6)
    }

    /// The record of regular voxel addresses handed to the oracle so far.
    pub closed spec fn regular_queries(self) -> vstd::multiset::Multiset<(int, int, int)> {
        self.density_source.regular_queries()
    }

    /// The record of held face addresses handed to the oracle so far.
    pub closed spec fn transition_queries(self) -> vstd::multiset::Multiset<(int, int, int)> {
        self.density_source.transition_queries()
    }

    /// Cache determinism, surfaced at the extractor: over its whole
    /// lifetime, the oracle is asked for each regular voxel address at most
    /// once, and for each held face address at most once.
    pub proof fn lemma_oracle_queried_at_most_once(self)
        requires
            self.wf(),
        ensures
            forall|x: int, y: int, z: int|
                #[trigger] self.regular_queries().count((x, y, z)) <= 1,
            forall|side: int, gu: int, gv: int|
                #[trigger] self.transition_queries().count((side, gu, gv)) <= 1,
    {
        crate::density_caching::PreCachingVoxelSource::lemma_oracle_queried_at_most_once(
            self.density_source,
        );
    }

    /// Every block voxel value the extractor holds could have been returned
    /// by the oracle.
    pub proof fn lemma_block_values_may_yield(self)
        requires
            self.wf(),
        ensures
            forall|a: int, b: int, c: int|
                is_block_addr(self.subs(), a, b, c) ==> self.may_yield(
                    #[trigger] self.voxel_value(a, b, c),
                ),
    {
        self.density_source.lemma_wf_values_may_yield();
        assert forall|a: int, b: int, c: int|
            is_block_addr(self.subs(), a, b, c) implies self.may_yield(
            #[trigger] self.voxel_value(a, b, c),
        ) by {
            assert(crate::density_caching::regular_addr_valid(self.subs(), a, b, c));
            assert(self.density_source.source_may_yield(self.density_source.regular_value(a, b, c)));
        }
    }

    /// Sweep sums never go negative.
    pub proof fn lemma_transition_sweep_nonnegative(self, bound: int)
        requires
            0 <= bound <= 6,
        ensures
            self.transition_sweep_partial(bound) >= 0,
        decreases bound,
    {
        if bound > 0 {
            self.lemma_transition_sweep_nonnegative(bound - 1);
            if self.sides_spec().has_index(bound - 1) {
                self.lemma_transition_face_nonnegative(
                    crate::transition_sides::side_from_index(bound - 1),
                    self.subs() * self.subs(),
                );
            }
        }
    }

    /// Face sums never go negative.
    pub proof fn lemma_transition_face_nonnegative(self, side: TransitionSide, k: int)
        ensures
            self.transition_face_partial(side, k) >= 0,
        decreases k,
    {
        if k > 0 {
            self.lemma_transition_face_nonnegative(side, k - 1);
        }
    }

    /// With no active side the transition sweep emits nothing.
    pub proof fn lemma_transition_sweep_empty(self, bound: int)
        requires
            0 <= bound <= 6,
            self.sides_spec().is_empty_spec(),
        ensures
            self.transition_sweep_partial(bound) == 0,
        decreases bound,
    {
        if bound > 0 {
            self.lemma_transition_sweep_empty(bound - 1);
            let side = crate::transition_sides::side_from_index(bound - 1);
            assert(!self.sides_spec().has(side));
            assert(side.index_spec() == bound - 1);
        }
    }

    /// The flat sweep step number of a cell determines its coordinates.
    proof fn lemma_sweep_cell_coords(n: int, x: int, y: int, z: int)
        requires
            n >= 1,
            0 <= x < n,
            0 <= y < n,
            0 <= z < n,
        ensures
            Self::sweep_cell(n, x * (n * n) + y * n + z)
                == (crate::voxel_coordinates::RegularCellIndex {
                x: x as usize,
                y: y as usize,
                z: z as usize,
            }),
    {
        let k = x * (n * n) + y * n + z;
        crate::density_caching::lemma_flat_pair_bound(n, y, z, n);
        assert(x * (n * n) + y * n + z == x * (n * n) + (y * n + z)) by (nonlinear_arith);
        assert(x * (n * n) + y * n + z == (x * n + y) * n + z) by (nonlinear_arith);
        assert(x * n >= 0) by (nonlinear_arith)
            requires
                x >= 0,
                n >= 1,
        ;
        vstd::arithmetic::div_mod::lemma_fundamental_div_mod_converse(k, n * n, x, y * n + z);
        vstd::arithmetic::div_mod::lemma_fundamental_div_mod_converse(k, n, x * n + y, z);
        vstd::arithmetic::div_mod::lemma_fundamental_div_mod_converse(x * n + y, n, x, y);
        assert(k / (n * n) == x && k / n == x * n + y && k % n == z && (x * n + y) % n == y);
    }

    /// The flat step number of a face cell determines its coordinates.
    proof fn lemma_face_cell_coords(n: int, u: int, v: int)
        requires
            n >= 1,
            0 <= u < n,
            0 <= v < n,
        ensures
            (u * n + v) / n == u,
            (u * n + v) % n == v,
    {
        vstd::arithmetic::div_mod::lemma_fundamental_div_mod_converse(u * n + v, n, u, v);
    }

    /// The regular sweep sum only reads the block cache and the threshold.
    pub proof fn lemma_regular_sweep_stable(s2: Self, s1: Self, k: int)
        requires
            s1.subs() >= 1,
            0 <= k <= s1.subs() * (s1.subs() * s1.subs()),
            s2.subs() == s1.subs(),
            s2.threshold_spec() == s1.threshold_spec(),
            forall|a: int, b: int, c: int|
                is_block_addr(s1.subs(), a, b, c) ==> #[trigger] s2.voxel_value(a, b, c)
                    == s1.voxel_value(a, b, c),
        ensures
            s2.regular_sweep_partial(k) == s1.regular_sweep_partial(k),
        decreases k,
    {
        if k > 0 {
            Self::lemma_regular_sweep_stable(s2, s1, k - 1);
            let n = s1.subs();
            let cell = Self::sweep_cell(n, k - 1);
            assert(0 <= (k - 1) / (n * n) < n && 0 <= ((k - 1) / n) % n < n && 0 <= (k - 1) % n
                < n) by (nonlinear_arith)
                requires
                    n >= 1,
                    0 <= k - 1 < n * (n * n),
            ;
            Self::lemma_regular_case_stable(s2, s1, cell, 8);
        }
    }

    /// One face's sweep sum only reads the caches and the threshold.
    pub proof fn lemma_transition_face_stable(
        s2: Self,
        s1: Self,
        side: TransitionSide,
        k: int,
    )
        requires
            s1.subs() >= 1,
            0 <= k <= s1.subs() * s1.subs(),
            s2.subs() == s1.subs(),
            s2.threshold_spec() == s1.threshold_spec(),
            forall|a: int, b: int, c: int|
                is_block_addr(s1.subs(), a, b, c) ==> #[trigger] s2.voxel_value(a, b, c)
                    == s1.voxel_value(a, b, c),
            s2.transition_state_unchanged(s1),
        ensures
            s2.transition_face_partial(side, k) == s1.transition_face_partial(side, k),
        decreases k,
    {
        if k > 0 {
            Self::lemma_transition_face_stable(s2, s1, side, k - 1);
            let n = s1.subs();
            let cell = crate::voxel_coordinates::TransitionCellIndex {
                side,
                cell_u: ((k - 1) / n) as usize,
                cell_v: ((k - 1) % n) as usize,
            };
            assert(0 <= (k - 1) / n < n && 0 <= (k - 1) % n < n) by (nonlinear_arith)
                requires
                    n >= 1,
                    0 <= k - 1 < n * n,
            ;
            Self::lemma_transition_case_stable(s2, s1, cell, 9);
        }
    }

    /// The transition sweep sum only reads the caches, the threshold and the
    /// active sides.
    pub proof fn lemma_transition_sweep_stable(s2: Self, s1: Self, bound: int)
        requires
            s1.subs() >= 1,
            0 <= bound <= 6,
            s2.subs() == s1.subs(),
            s2.threshold_spec() == s1.threshold_spec(),
            s2.sides_spec() == s1.sides_spec(),
            forall|a: int, b: int, c: int|
                is_block_addr(s1.subs(), a, b, c) ==> #[trigger] s2.voxel_value(a, b, c)
                    == s1.voxel_value(a, b, c),
            s2.transition_state_unchanged(s1),
        ensures
            s2.transition_sweep_partial(bound) == s1.transition_sweep_partial(bound),
        decreases bound,
    {
        if bound > 0 {
            Self::lemma_transition_sweep_stable(s2, s1, bound - 1);
            if s1.sides_spec().has_index(bound - 1) {
                assert(s1.subs() * s1.subs() >= 0) by (nonlinear_arith)
                    requires
                        s1.subs() >= 1,
                ;
                Self::lemma_transition_face_stable(
                    s2,
                    s1,
                    crate::transition_sides::side_from_index(bound - 1),
                    s1.subs() * s1.subs(),
                );
            }
        }
    }

    /// Whether the halo of regular voxels outside the block is loaded.
    pub closed spec fn halo_loaded(self) -> bool {
        self.density_source.extended_loaded()
    }

    /// The world position of the grid point at a regular voxel index: the
    /// voxel's position on the regular grid, then the shrink rule.
    pub open spec fn regular_position_spec(self, xi: int, yi: int, zi: int) -> Position<C> {
        let n = self.subs();
        let nu = self.block_spec().subdivisions;
        let size = self.block_spec().dims.size;
        let base = self.block_spec().dims.base;
        let cell_size = size.times_spec(C::ratio_spec(1 as isize, nu));
        let shrink = C::shrink_factor_spec().times_spec(cell_size);
        let can = can_shrink_spec(xi, yi, zi, n, self.sides_spec());
        Position {
            x: shrunk_coordinate_spec(
                base[0].plus_spec(size.times_spec(C::ratio_spec(xi as isize, nu))),
                xi,
                TransitionSide::LowX,
                TransitionSide::HighX,
                can,
                n,
                self.sides_spec(),
                shrink,
            ),
            y: shrunk_coordinate_spec(
                base[1].plus_spec(size.times_spec(C::ratio_spec(yi as isize, nu))),
                yi,
                TransitionSide::LowY,
                TransitionSide::HighY,
                can,
                n,
                self.sides_spec(),
                shrink,
            ),
            z: shrunk_coordinate_spec(
                base[2].plus_spec(size.times_spec(C::ratio_spec(zi as isize, nu))),
                zi,
                TransitionSide::LowZ,
                TransitionSide::HighZ,
                can,
                n,
                self.sides_spec(),
                shrink,
            ),
        }
    }

    /// The central-difference density gradient at a regular voxel.
    pub open spec fn regular_gradient_spec(self, xi: int, yi: int, zi: int) -> (
        V::Density,
        V::Density,
        V::Density,
    ) {
        (
            self.voxel_value(xi + 1, yi, zi).density_spec().diff_spec(
                self.voxel_value(xi - 1, yi, zi).density_spec(),
            ),
            self.voxel_value(xi, yi + 1, zi).density_spec().diff_spec(
                self.voxel_value(xi, yi - 1, zi).density_spec(),
            ),
            self.voxel_value(xi, yi, zi + 1).density_spec().diff_spec(
                self.voxel_value(xi, yi, zi - 1).density_spec(),
            ),
        )
    }

    /// With no transition side at all, every regular grid point sits
    /// exactly on the regular grid: base + size times (index over
    /// subdivisions), with no shrink applied anywhere.
    pub proof fn lemma_no_transition_no_shrink(self, xi: int, yi: int, zi: int)
        requires
            self.sides_spec().is_empty_spec(),
        ensures
            self.regular_position_spec(xi, yi, zi) == (Position {
                x: self.block_spec().dims.base[0].plus_spec(
                    self.block_spec().dims.size.times_spec(
                        C::ratio_spec(xi as isize, self.block_spec().subdivisions),
                    ),
                ),
                y: self.block_spec().dims.base[1].plus_spec(
                    self.block_spec().dims.size.times_spec(
                        C::ratio_spec(yi as isize, self.block_spec().subdivisions),
                    ),
                ),
                z: self.block_spec().dims.base[2].plus_spec(
                    self.block_spec().dims.size.times_spec(
                        C::ratio_spec(zi as isize, self.block_spec().subdivisions),
                    ),
                ),
            }),
    {
        assert(!self.sides_spec().has(TransitionSide::LowX));
        assert(!self.sides_spec().has(TransitionSide::HighX));
        assert(!self.sides_spec().has(TransitionSide::LowY));
        assert(!self.sides_spec().has(TransitionSide::HighY));
        assert(!self.sides_spec().has(TransitionSide::LowZ));
        assert(!self.sides_spec().has(TransitionSide::HighZ));
    }

    /// Creates the extractor: caches the block's regular voxels and sets up
    /// the shared vertex storage.
    pub fn new(
        density_source: S,
        block: &Block<C>,
        threshold: V::Density,
        transition_sides: TransitionSides,
        mesh_builder: M,
    ) -> (r: Self)
        requires
            density_source.wf(),
            block.wf(),
            forall|idx: crate::voxel_coordinates::HighResolutionVoxelIndex|
                idx.valid_for(block.subdivisions as int)
                    ==> #[trigger] density_source.admits_transition_index(idx),
        ensures
            r.wf(),
            r.subs() == block.subdivisions,
            r.block_spec() == *block,
            r.threshold_spec() == threshold,
            r.sides_spec() == transition_sides,
            forall|v: V| r.may_yield(v) == density_source.may_yield(v),
            r.triangles() == mesh_builder.triangles(),
            r.num_vertices() == mesh_builder.num_vertices(),
            r.transition_not_loaded(),
    {
        Extractor {
            density_source: PreCachingVoxelSource::new(density_source, block.subdivisions),
            block: *block,
            threshold,
            transition_sides,
            mesh_builder,
            shared_storage: SharedVertexIndices::new(block.subdivisions),
            current_rotation: Rotation::default(),
        }
    }

    /// The voxel data at a regular voxel address, from the cache.
    fn regular_voxel_data(&mut self, voxel_index: &RegularVoxelIndex) -> (r: V)
        requires
            old(self).wf(),
            crate::density_caching::regular_addr_valid(
                old(self).subs(),
                voxel_index.x as int,
                voxel_index.y as int,
                voxel_index.z as int,
            ),
        ensures
            final(self).wf(),
            final(self).same_config(*old(self)),
            final(self).subs() == old(self).subs(),
            final(self).builder_unchanged(*old(self)),
            final(self).storage_unchanged(*old(self)),
            final(self).transition_state_unchanged(*old(self)),
            r == final(self).voxel_value(
                voxel_index.x as int,
                voxel_index.y as int,
                voxel_index.z as int,
            ),
            old(self).may_yield(r),
            forall|a: int, b: int, c: int|
                is_block_addr(old(self).subs(), a, b, c) ==> #[trigger] final(self).voxel_value(
                    a,
                    b,
                    c,
                ) == old(self).voxel_value(a, b, c),
            (old(self).halo_loaded() || is_block_addr(
                old(self).subs(),
                voxel_index.x as int,
                voxel_index.y as int,
                voxel_index.z as int,
            )) ==> *final(self) == *old(self),
            final(self).halo_loaded() == (old(self).halo_loaded()
                || crate::density_caching::is_halo_addr(
                old(self).subs(),
                voxel_index.x as int,
                voxel_index.y as int,
                voxel_index.z as int,
            )),
            final(self).current_rotation == old(self).current_rotation,
    {
        let r = self.density_source.get_density(voxel_index);
        proof {
            self.density_source.lemma_source_frame_consequences(old(self).density_source);
            self.density_source.lemma_block_cache_untouched_consequences(
                old(self).density_source,
            );
            self.density_source.lemma_transition_untouched_consequences(
                old(self).density_source,
            );
        }
        r
    }

    /// Case number of a regular cell: one bit per corner voxel whose
    /// density is inside the threshold.  Only reads the block cache.
    fn regular_cell_case(&mut self, cell_index: &crate::voxel_coordinates::RegularCellIndex) -> (
        case: usize)
        requires
            old(self).wf(),
            cell_index.x < old(self).subs(),
            cell_index.y < old(self).subs(),
            cell_index.z < old(self).subs(),
        ensures
            *final(self) == *old(self),
            case < 256,
            case as int == old(self).regular_case_partial(*cell_index, 8),
    {
        proof {
            lemma_fits_consequences(self.subs());
        }
        let mut case: usize = 0;
        let mut i: usize = 0;
        while i < 8
            invariant
                *self == *old(self),
                old(self).wf(),
                cell_index.x < old(self).subs(),
                cell_index.y < old(self).subs(),
                cell_index.z < old(self).subs(),
                i <= 8,
                case as int == old(self).regular_case_partial(*cell_index, i as int),
                case <= 255,
            decreases 8 - i,
        {
            let deltas = crate::aux_tables::get_regular_voxel_delta(
                crate::aux_tables::RegularCellVoxelIndex(i),
            );
            proof {
                lemma_fits_consequences(self.subs());
            }
            let voxel_index = cell_index.voxel(&deltas);
            let data = self.regular_voxel_data(&voxel_index);
            let inside = data.density().inside(&self.threshold);
            proof {
                old(self).lemma_regular_case_partial_bounds(*cell_index, i as int + 1);
                assert(old(self).corner_inside(*cell_index, i as int) == inside);
            }
            if inside {
                case = case + regular_case_weight_exec(i);
            }
            i = i + 1;
        }
        case
    }

    /// Applies the shrink rule to a grid point position.
    fn shrink_if_needed(
        &self,
        grid_point_x: &mut C,
        grid_point_y: &mut C,
        grid_point_z: &mut C,
        voxel_index: &RegularVoxelIndex,
    )
        requires
            self.wf(),
        ensures
            ({
                let n = self.subs();
                let cell_size = self.block_spec().dims.size.times_spec(
                    C::ratio_spec(1 as isize, self.block_spec().subdivisions),
                );
                let shrink = C::shrink_factor_spec().times_spec(cell_size);
                let can = can_shrink_spec(
                    voxel_index.x as int,
                    voxel_index.y as int,
                    voxel_index.z as int,
                    n,
                    self.sides_spec(),
                );
                &&& *final(grid_point_x) == shrunk_coordinate_spec(
                    *old(grid_point_x),
                    voxel_index.x as int,
                    TransitionSide::LowX,
                    TransitionSide::HighX,
                    can,
                    n,
                    self.sides_spec(),
                    shrink,
                )
                &&& *final(grid_point_y) == shrunk_coordinate_spec(
                    *old(grid_point_y),
                    voxel_index.y as int,
                    TransitionSide::LowY,
                    TransitionSide::HighY,
                    can,
                    n,
                    self.sides_spec(),
                    shrink,
                )
                &&& *final(grid_point_z) == shrunk_coordinate_spec(
                    *old(grid_point_z),
                    voxel_index.z as int,
                    TransitionSide::LowZ,
                    TransitionSide::HighZ,
                    can,
                    n,
                    self.sides_spec(),
                    shrink,
                )
            }),
    {
        proof {
            lemma_fits_consequences(self.subs());
        }
        let cell_size = self.block.dims.size.times(C::from_ratio(1, self.block.subdivisions));
        shrink_if_needed::<C>(
            grid_point_x,
            grid_point_y,
            grid_point_z,
            voxel_index.x,
            voxel_index.y,
            voxel_index.z,
            cell_size,
            self.block.subdivisions,
            &self.transition_sides,
        )
    }

    /// The world position of the grid point at a regular voxel index:
    /// regular grid position, then shrink.
    fn regular_grid_point_position(&self, voxel_index: &RegularVoxelIndex) -> (r: Position<C>)
        requires
            self.wf(),
        ensures
            r == self.regular_position_spec(
                voxel_index.x as int,
                voxel_index.y as int,
                voxel_index.z as int,
            ),
    {
        let subs = self.block.subdivisions;
        proof {
            lemma_fits_consequences(self.subs());
        }
        let mut x = self.block.dims.base[0].plus(
            self.block.dims.size.times(C::from_ratio(voxel_index.x, subs)),
        );
        let mut y = self.block.dims.base[1].plus(
            self.block.dims.size.times(C::from_ratio(voxel_index.y, subs)),
        );
        let mut z = self.block.dims.base[2].plus(
            self.block.dims.size.times(C::from_ratio(voxel_index.z, subs)),
        );
        self.shrink_if_needed(&mut x, &mut y, &mut z, voxel_index);
        Position { x, y, z }
    }

    /// Central-difference gradient at a regular voxel, sampling one step
    /// along each axis (possibly into the halo).
    fn regular_voxel_gradient(&mut self, voxel_index: &RegularVoxelIndex) -> (r: (
        V::Density,
        V::Density,
        V::Density,
    ))
        requires
            old(self).wf(),
            0 <= voxel_index.x <= old(self).subs(),
            0 <= voxel_index.y <= old(self).subs(),
            0 <= voxel_index.z <= old(self).subs(),
        ensures
            final(self).wf(),
            final(self).same_config(*old(self)),
            final(self).subs() == old(self).subs(),
            final(self).builder_unchanged(*old(self)),
            final(self).storage_unchanged(*old(self)),
            final(self).transition_state_unchanged(*old(self)),
            final(self).current_rotation == old(self).current_rotation,
            r == final(self).regular_gradient_spec(
                voxel_index.x as int,
                voxel_index.y as int,
                voxel_index.z as int,
            ),
            forall|a: int, b: int, c: int|
                is_block_addr(old(self).subs(), a, b, c) ==> #[trigger] final(self).voxel_value(
                    a,
                    b,
                    c,
                ) == old(self).voxel_value(a, b, c),
            old(self).halo_loaded() ==> *final(self) == *old(self),
            final(self).halo_loaded() || *final(self) == *old(self),
    {
        proof {
            lemma_fits_consequences(self.subs());
        }
        let xgradient = self.regular_voxel_data(
            &voxel_index.offset(&crate::voxel_coordinates::RegularVoxelDelta { x: 1, y: 0, z: 0 }),
        ).density().diff(
            self.regular_voxel_data(
                &voxel_index.offset(
                    &crate::voxel_coordinates::RegularVoxelDelta { x: -1, y: 0, z: 0 },
                ),
            ).density(),
        );
        let ygradient = self.regular_voxel_data(
            &voxel_index.offset(&crate::voxel_coordinates::RegularVoxelDelta { x: 0, y: 1, z: 0 }),
        ).density().diff(
            self.regular_voxel_data(
                &voxel_index.offset(
                    &crate::voxel_coordinates::RegularVoxelDelta { x: 0, y: -1, z: 0 },
                ),
            ).density(),
        );
        let zgradient = self.regular_voxel_data(
            &voxel_index.offset(&crate::voxel_coordinates::RegularVoxelDelta { x: 0, y: 0, z: 1 }),
        ).density().diff(
            self.regular_voxel_data(
                &voxel_index.offset(
                    &crate::voxel_coordinates::RegularVoxelDelta { x: 0, y: 0, z: -1 },
                ),
            ).density(),
        );
        (xgradient, ygradient, zgradient)
    }

    /// A grid point at a regular voxel index: shrunk position, stencil
    /// gradient, cached voxel data.
    fn regular_grid_point(&mut self, voxel_index: RegularVoxelIndex) -> (r: GridPoint<V, C>)
        requires
            old(self).wf(),
            0 <= voxel_index.x <= old(self).subs(),
            0 <= voxel_index.y <= old(self).subs(),
            0 <= voxel_index.z <= old(self).subs(),
        ensures
            final(self).wf(),
            final(self).same_config(*old(self)),
            final(self).subs() == old(self).subs(),
            final(self).builder_unchanged(*old(self)),
            final(self).storage_unchanged(*old(self)),
            final(self).transition_state_unchanged(*old(self)),
            final(self).current_rotation == old(self).current_rotation,
            r.position == old(self).regular_position_spec(
                voxel_index.x as int,
                voxel_index.y as int,
                voxel_index.z as int,
            ),
            r.gradient == final(self).regular_gradient_spec(
                voxel_index.x as int,
                voxel_index.y as int,
                voxel_index.z as int,
            ),
            r.voxel_data == old(self).voxel_value(
                voxel_index.x as int,
                voxel_index.y as int,
                voxel_index.z as int,
            ),
            old(self).may_yield(r.voxel_data),
            forall|a: int, b: int, c: int|
                is_block_addr(old(self).subs(), a, b, c) ==> #[trigger] final(self).voxel_value(
                    a,
                    b,
                    c,
                ) == old(self).voxel_value(a, b, c),
            old(self).halo_loaded() ==> *final(self) == *old(self),
    {
        let position = self.regular_grid_point_position(&voxel_index);
        let gradient = self.regular_voxel_gradient(&voxel_index);
        let voxel_data = self.regular_voxel_data(&voxel_index);
        GridPoint { position, gradient, voxel_data }
    }

    /// The grid point at one of the eight corner voxels of a regular cell.
    fn regular_grid_point_within_cell(
        &mut self,
        cell_index: &crate::voxel_coordinates::RegularCellIndex,
        voxel_index_within_cell: crate::aux_tables::RegularCellVoxelIndex,
    ) -> (r: GridPoint<V, C>)
        requires
            old(self).wf(),
            cell_index.x < old(self).subs(),
            cell_index.y < old(self).subs(),
            cell_index.z < old(self).subs(),
            voxel_index_within_cell.0 < 8,
        ensures
            final(self).wf(),
            final(self).same_config(*old(self)),
            final(self).subs() == old(self).subs(),
            final(self).builder_unchanged(*old(self)),
            final(self).storage_unchanged(*old(self)),
            final(self).transition_state_unchanged(*old(self)),
            final(self).current_rotation == old(self).current_rotation,
            old(self).may_yield(r.voxel_data),
            forall|a: int, b: int, c: int|
                is_block_addr(old(self).subs(), a, b, c) ==> #[trigger] final(self).voxel_value(
                    a,
                    b,
                    c,
                ) == old(self).voxel_value(a, b, c),
            ({
                let d = crate::aux_tables::regular_cell_voxel_delta(
                    voxel_index_within_cell.0 as int,
                );
                &&& r.position == old(self).regular_position_spec(
                    cell_index.x + d.x,
                    cell_index.y + d.y,
                    cell_index.z + d.z,
                )
                &&& r.gradient == final(self).regular_gradient_spec(
                    cell_index.x + d.x,
                    cell_index.y + d.y,
                    cell_index.z + d.z,
                )
                &&& r.voxel_data == old(self).voxel_value(
                    cell_index.x + d.x,
                    cell_index.y + d.y,
                    cell_index.z + d.z,
                )
            }),
    {
        let voxel_deltas = crate::aux_tables::get_regular_voxel_delta(voxel_index_within_cell);
        proof {
            lemma_fits_consequences(self.subs());
        }
        let voxel_index = cell_index.voxel(&voxel_deltas);
        self.regular_grid_point(voxel_index)
    }

    /// Hands the mesh builder a new vertex between two grid points, placed
    /// where the interpolated density crosses the threshold.
    fn add_vertex_between(&mut self, point_a: GridPoint<V, C>, point_b: GridPoint<V, C>) -> (r:
        VertexIndex)
        requires
            old(self).wf(),
        ensures
            final(self).wf(),
            final(self).same_config(*old(self)),
            final(self).subs() == old(self).subs(),
            final(self).storage_unchanged(*old(self)),
            final(self).transition_state_unchanged(*old(self)),
            final(self).current_rotation == old(self).current_rotation,
            final(self).voxel_values_eq(*old(self)),
            forall|a: int, b: int, c: int|
                #[trigger] final(self).voxel_value(a, b, c) == old(self).voxel_value(a, b, c),
            final(self).halo_loaded() == old(self).halo_loaded(),
            final(self).num_vertices() == old(self).num_vertices() + 1,
            r.0 as nat == old(self).num_vertices(),
            final(self).triangles() == old(self).triangles(),
    {
        let interp_toward_b = V::Density::interp(
            point_a.voxel_data.density(),
            point_b.voxel_data.density(),
            self.threshold,
        );
        let r = self.mesh_builder.add_vertex_between(point_a, point_b, interp_toward_b);
        proof {
            self.shared_storage.lemma_all_below_monotonic(
                old(self).num_vertices(),
                self.num_vertices(),
            );
            self.density_source.lemma_untouched_reflexive();
        }
        r
    }

    /// The cache contents are untouched.
    pub closed spec fn voxel_values_eq(self, pre: Self) -> bool {
        self.density_source == pre.density_source
    }

    /// Creates a new vertex between two corner grid points of a regular
    /// cell.
    fn new_regular_vertex(
        &mut self,
        cell_index: &crate::voxel_coordinates::RegularCellIndex,
        voxel_a_index: crate::aux_tables::RegularCellVoxelIndex,
        voxel_b_index: crate::aux_tables::RegularCellVoxelIndex,
    ) -> (r: VertexIndex)
        requires
            old(self).wf(),
            cell_index.x < old(self).subs(),
            cell_index.y < old(self).subs(),
            cell_index.z < old(self).subs(),
            voxel_a_index.0 < 8,
            voxel_b_index.0 < 8,
        ensures
            final(self).wf(),
            final(self).same_config(*old(self)),
            final(self).subs() == old(self).subs(),
            final(self).storage_unchanged(*old(self)),
            final(self).transition_state_unchanged(*old(self)),
            final(self).current_rotation == old(self).current_rotation,
            final(self).num_vertices() == old(self).num_vertices() + 1,
            r.0 as nat == old(self).num_vertices(),
            final(self).triangles() == old(self).triangles(),
            forall|a: int, b: int, c: int|
                is_block_addr(old(self).subs(), a, b, c) ==> #[trigger] final(self).voxel_value(
                    a,
                    b,
                    c,
                ) == old(self).voxel_value(a, b, c),
    {
        let a = self.regular_grid_point_within_cell(cell_index, voxel_a_index);
        let b = self.regular_grid_point_within_cell(cell_index, voxel_b_index);
        self.add_vertex_between(a, b)
    }

    /// Either creates or reuses an existing vertex for one entry of the
    /// regular vertex data table.  Returns an index the mesh builder knows.
    fn regular_vertex(
        &mut self,
        cell_index: &crate::voxel_coordinates::RegularCellIndex,
        vd: crate::tables_wrapper::RegularVertexData,
    ) -> (r: VertexIndex)
        requires
            old(self).wf(),
            cell_index.x < old(self).subs(),
            cell_index.y < old(self).subs(),
            cell_index.z < old(self).subs(),
            vd.voxel_a_index_spec() < 8,
            vd.voxel_b_index_spec() < 8,
            vd.reuse_index_spec() < 4,
        ensures
            final(self).wf(),
            final(self).same_config(*old(self)),
            final(self).subs() == old(self).subs(),
            final(self).transition_state_unchanged(*old(self)),
            final(self).current_rotation == old(self).current_rotation,
            old(self).num_vertices() <= final(self).num_vertices() <= old(self).num_vertices()
                + 1,
            r.0 < final(self).num_vertices(),
            final(self).triangles() == old(self).triangles(),
            forall|a: int, b: int, c: int|
                is_block_addr(old(self).subs(), a, b, c) ==> #[trigger] final(self).voxel_value(
                    a,
                    b,
                    c,
                ) == old(self).voxel_value(a, b, c),
            ({
                let dx = vd.reuse_dx_spec();
                let dy = vd.reuse_dy_spec();
                let dz = vd.reuse_dz_spec();
                let accessible = (dx == 0 || cell_index.x > 0) && (dy == 0 || cell_index.y > 0)
                    && (dz == 0 || cell_index.z > 0);
                let stored = old(self).reusable_regular(
                    cell_index.x + dx,
                    cell_index.y + dy,
                    cell_index.z + dz,
                    vd.reuse_index_spec(),
                );
                if vd.new_vertex_spec() {
                    // A fresh vertex, stored under this cell's reuse slot.
                    &&& final(self).num_vertices() == old(self).num_vertices() + 1
                    &&& r.0 as nat == old(self).num_vertices()
                    &&& final(self).reusable_regular(
                        cell_index.x as int,
                        cell_index.y as int,
                        cell_index.z as int,
                        vd.reuse_index_spec(),
                    ) == Some(r)
                    &&& (forall|x: int, y: int, z: int, s: int|
                        0 <= x < old(self).subs() && 0 <= y < old(self).subs() && 0 <= z < old(self).subs() && 0 <= s < 4 && !(x == cell_index.x as int && y
                            == cell_index.y as int && z == cell_index.z as int && s
                            == vd.reuse_index_spec()) ==> #[trigger] final(self).reusable_regular(
                            x,
                            y,
                            z,
                            s,
                        ) == old(self).reusable_regular(x, y, z, s))
                    &&& (forall|side: int, u: int, v: int, s: int|
                        #[trigger] final(self).reusable_transition(side, u, v, s) == old(self).reusable_transition(side, u, v, s))
                } else if accessible && stored is Some {
                    // The vertex of the preceding cell is reused as it is.
                    &&& r == stored->Some_0
                    &&& final(self).num_vertices() == old(self).num_vertices()
                    &&& final(self).storage_unchanged(*old(self))
                } else {
                    // The cell to reuse from is outside the block (or its
                    // slot was never written): a fresh vertex, not stored.
                    &&& final(self).num_vertices() == old(self).num_vertices() + 1
                    &&& r.0 as nat == old(self).num_vertices()
                    &&& final(self).storage_unchanged(*old(self))
                }
            }),
    {
        let cell_x = cell_index.x;
        let cell_y = cell_index.y;
        let cell_z = cell_index.z;
        if vd.new_vertex() {
            let i = self.new_regular_vertex(cell_index, vd.voxel_a_index(), vd.voxel_b_index());
            let ghost mid = *self;
            self.shared_storage.put_regular(i, cell_x, cell_y, cell_z, vd.reuse_index());
            proof {
                assert forall|a: int, b: int, c: int|
                    is_block_addr(old(self).subs(), a, b, c) implies #[trigger] self.voxel_value(
                    a,
                    b,
                    c,
                ) == old(self).voxel_value(a, b, c) by {
                    assert(mid.voxel_value(a, b, c) == old(self).voxel_value(a, b, c));
                }
            }
            i
        } else {
            let dx = vd.reuse_dx();
            let dy = vd.reuse_dy();
            let dz = vd.reuse_dz();
            let previous_vertex_is_accessible = ((dx == 0) || (cell_x > 0)) && ((dy == 0) || (
            cell_y > 0)) && ((dz == 0) || (cell_z > 0));
            if previous_vertex_is_accessible {
                proof {
                    lemma_fits_consequences(self.subs());
                }
                let reuse_x = (cell_x as isize + dx) as usize;
                let reuse_y = (cell_y as isize + dy) as usize;
                let reuse_z = (cell_z as isize + dz) as usize;
                let stored = self.shared_storage.get_regular(
                    reuse_x,
                    reuse_y,
                    reuse_z,
                    vd.reuse_index(),
                );
                match stored {
                    Some(reused) => {
                        proof {
                            lemma_regular_slot_bound(
                                self.subs(),
                                reuse_x as int,
                                reuse_y as int,
                                reuse_z as int,
                                vd.reuse_index_spec(),
                            );
                        }
                        reused
                    },
                    None => {
                        // The reuse slot was never written: materialise a
                        // fresh vertex instead (and do not store it).
                        self.new_regular_vertex(
                            cell_index,
                            vd.voxel_a_index(),
                            vd.voxel_b_index(),
                        )
                    },
                }
            } else {
                // The cell to reuse from is not part of our block:
                // materialise a fresh vertex instead.
                self.new_regular_vertex(cell_index, vd.voxel_a_index(), vd.voxel_b_index())
            }
        }
    }

    /// Extracts the geometry of one regular cell: case, class,
    /// triangulation, vertices (fresh or reused), triangles.
    fn extract_regular_cell(&mut self, cell_index: crate::voxel_coordinates::RegularCellIndex)
        requires
            old(self).wf(),
            cell_index.x < old(self).subs(),
            cell_index.y < old(self).subs(),
            cell_index.z < old(self).subs(),
        ensures
            final(self).wf(),
            final(self).evolved_from(*old(self)),
            final(self).subs() == old(self).subs(),
            final(self).transition_state_unchanged(*old(self)),
            final(self).current_rotation == old(self).current_rotation,
            forall|a: int, b: int, c: int|
                is_block_addr(old(self).subs(), a, b, c) ==> #[trigger] final(self).voxel_value(
                    a,
                    b,
                    c,
                ) == old(self).voxel_value(a, b, c),
            final(self).triangles().len() == old(self).triangles().len() + old(self).regular_cell_triangles(cell_index),
            old(self).num_vertices() <= final(self).num_vertices() <= old(self).num_vertices()
                + old(self).regular_cell_vertex_limit(cell_index),
            ({
                let class = old(self).regular_cell_class_spec(cell_index);
                exists|vs: Seq<VertexIndex>|
                    {
                        &&& (#[trigger] vs.len()) == crate::tables::regular_vertex_count(
                            class,
                        ) as int
                        &&& (forall|k: int|
                            0 <= k < vs.len() ==> (#[trigger] vs[k]).0 < final(self).num_vertices())
                        &&& (forall|t: int|
                            0 <= t < crate::tables::regular_triangle_count(class)
                                ==> #[trigger] final(self).triangles()[old(self).triangles().len() + t] == (
                                (vs[crate::tables::regular_triangulation_entry(
                                    class,
                                    3 * t,
                                ) as int]).0,
                                (vs[crate::tables::regular_triangulation_entry(
                                    class,
                                    3 * t + 1,
                                ) as int]).0,
                                (vs[crate::tables::regular_triangulation_entry(
                                    class,
                                    3 * t + 2,
                                ) as int]).0,
                            ))
                    }
            }),
            old(self).uniform() ==> final(self).builder_unchanged(*old(self)),
    {
        let case_number = self.regular_cell_case(&cell_index);
        let cell_class: u8 = crate::tables::regular_cell_class(case_number);
        if cell_class != 0 {
            // Such a cell generates vertices, whose normals need voxels
            // one step outside of the block.
            let ghost before_halo = *self;
            self.density_source.load_regular_extended_voxels();
            proof {
                self.density_source.lemma_source_frame_consequences(
                    before_halo.density_source,
                );
                self.density_source.lemma_transition_untouched_consequences(
                    before_halo.density_source,
                );
                self.density_source.lemma_block_cache_untouched_consequences(
                    before_halo.density_source,
                );
            }
        }
        let vertex_count = crate::tables::regular_cell_vertex_count(cell_class);
        let triangle_count = crate::tables::regular_cell_triangle_count(cell_class);
        proof {
            assert(cell_class as int == old(self).regular_cell_class_spec(cell_index));
        }
        let ghost start = *self;
        proof {
            assert forall|a: int, b: int, c: int|
                is_block_addr(old(self).subs(), a, b, c) implies #[trigger] start.voxel_value(
                a,
                b,
                c,
            ) == old(self).voxel_value(a, b, c) by {}
            Self::lemma_regular_case_stable(start, *old(self), cell_index, 8);
            assert(cell_class as int == start.regular_cell_class_spec(cell_index));
        }
        let mut cell_vertices_indices: Vec<VertexIndex> = Vec::new();
        let mut i: usize = 0;
        while i < vertex_count as usize
            invariant
                self.wf(),
                self.subs() == start.subs(),
                self.same_config(start),
                self.transition_state_unchanged(start),
                self.current_rotation == start.current_rotation,
                cell_index.x < self.subs(),
                cell_index.y < self.subs(),
                cell_index.z < self.subs(),
                case_number < 256,
                vertex_count <= 12,
                i <= vertex_count,
                cell_vertices_indices.len() == i,
                self.triangles() == start.triangles(),
                start.num_vertices() <= self.num_vertices() <= start.num_vertices() + i,
                forall|k: int|
                    0 <= k < i ==> (#[trigger] cell_vertices_indices[k]).0
                        < self.num_vertices(),
                forall|a: int, b: int, c: int|
                    is_block_addr(start.subs(), a, b, c) ==> #[trigger] self.voxel_value(a, b, c)
                        == start.voxel_value(a, b, c),
            decreases vertex_count - i,
        {
            let code = crate::tables::regular_vertex_data(case_number, i);
            let vd = crate::tables_wrapper::RegularVertexData(code);
            let ghost before = *self;
            let vertex = self.regular_vertex(&cell_index, vd);
            cell_vertices_indices.push(vertex);
            proof {
                assert forall|a: int, b: int, c: int|
                    is_block_addr(start.subs(), a, b, c) implies #[trigger] self.voxel_value(
                    a,
                    b,
                    c,
                ) == start.voxel_value(a, b, c) by {
                    assert(before.voxel_value(a, b, c) == start.voxel_value(a, b, c));
                }
            }
            i = i + 1;
        }
        let mut t: usize = 0;
        while t < triangle_count as usize
            invariant
                self.wf(),
                self.subs() == start.subs(),
                self.same_config(start),
                self.transition_state_unchanged(start),
                self.current_rotation == start.current_rotation,
                forall|a: int, b: int, c: int|
                    is_block_addr(start.subs(), a, b, c) ==> #[trigger] self.voxel_value(a, b, c)
                        == start.voxel_value(a, b, c),
                cell_class as int == start.regular_cell_class_spec(cell_index),
                cell_class < 16,
                triangle_count <= 5,
                vertex_count <= 12,
                vertex_count as int == crate::tables::regular_vertex_count(cell_class as int),
                triangle_count as int == crate::tables::regular_triangle_count(
                    cell_class as int,
                ),
                t <= triangle_count,
                cell_vertices_indices.len() == vertex_count,
                forall|k: int|
                    0 <= k < vertex_count ==> (#[trigger] cell_vertices_indices[k]).0
                        < self.num_vertices(),
                start.num_vertices() <= self.num_vertices() <= start.num_vertices()
                    + vertex_count,
                start.triangles().len() <= self.triangles().len(),
                forall|k: int|
                    0 <= k < start.triangles().len() ==> #[trigger] self.triangles()[k]
                        == start.triangles()[k],
                forall|k: int|
                    start.triangles().len() <= k < self.triangles().len() ==> tri_valid(
                        #[trigger] self.triangles()[k],
                        self.num_vertices(),
                    ),
                self.triangles().len() == start.triangles().len() + t,
                forall|k: int|
                    0 <= k < t ==> #[trigger] self.triangles()[start.triangles().len() + k] == (
                        (cell_vertices_indices[crate::tables::regular_triangulation_entry(
                            cell_class as int,
                            3 * k,
                        ) as int]).0,
                        (cell_vertices_indices[crate::tables::regular_triangulation_entry(
                            cell_class as int,
                            3 * k + 1,
                        ) as int]).0,
                        (cell_vertices_indices[crate::tables::regular_triangulation_entry(
                            cell_class as int,
                            3 * k + 2,
                        ) as int]).0,
                    ),
            decreases triangle_count - t,
        {
            let v1_index_in_cell = crate::tables::regular_cell_triangulation_entry(
                cell_class,
                3 * t,
            );
            let v2_index_in_cell = crate::tables::regular_cell_triangulation_entry(
                cell_class,
                3 * t + 1,
            );
            let v3_index_in_cell = crate::tables::regular_cell_triangulation_entry(
                cell_class,
                3 * t + 2,
            );
            let global_index_1 = cell_vertices_indices[v1_index_in_cell as usize];
            let global_index_2 = cell_vertices_indices[v2_index_in_cell as usize];
            let global_index_3 = cell_vertices_indices[v3_index_in_cell as usize];
            let ghost before_triangle = *self;
            self.mesh_builder.add_triangle(global_index_1, global_index_2, global_index_3);
            proof {
                self.density_source.lemma_untouched_reflexive();
                assert forall|a: int, b: int, c: int|
                    is_block_addr(start.subs(), a, b, c) implies #[trigger] self.voxel_value(
                    a,
                    b,
                    c,
                ) == start.voxel_value(a, b, c) by {
                    assert(before_triangle.voxel_value(a, b, c) == start.voxel_value(a, b, c));
                }
            }
            t = t + 1;
        }
        proof {
            assert forall|a: int, b: int, c: int|
                is_block_addr(old(self).subs(), a, b, c) implies #[trigger] self.voxel_value(
                a,
                b,
                c,
            ) == old(self).voxel_value(a, b, c) by {
                assert(self.voxel_value(a, b, c) == start.voxel_value(a, b, c));
                assert(start.voxel_value(a, b, c) == old(self).voxel_value(a, b, c));
            }
            let class = old(self).regular_cell_class_spec(cell_index);
            let vs = cell_vertices_indices@;
            assert((vs.len()) == crate::tables::regular_vertex_count(class) as int && (forall|
                k: int,
            |
                0 <= k < vs.len() ==> (#[trigger] vs[k]).0 < self.num_vertices()) && (forall|
                t_: int,
            |
                0 <= t_ < crate::tables::regular_triangle_count(class)
                    ==> #[trigger] self.triangles()[old(self).triangles().len() + t_] == (
                    (vs[crate::tables::regular_triangulation_entry(class, 3 * t_) as int]).0,
                    (vs[crate::tables::regular_triangulation_entry(class, 3 * t_ + 1) as int]).0,
                    (vs[crate::tables::regular_triangulation_entry(class, 3 * t_ + 2) as int]).0,
                )));
            if old(self).uniform() {
                old(self).density_source.lemma_wf_values_may_yield();
                if old(self).all_outside() {
                    assert forall|i: int| 0 <= i < 8 implies !(#[trigger] old(self).corner_inside(cell_index, i)) by {
                        let d = crate::aux_tables::regular_cell_voxel_delta(i);
                        assert(is_block_addr(
                            old(self).subs(),
                            cell_index.x + d.x,
                            cell_index.y + d.y,
                            cell_index.z + d.z,
                        ));
                        assert(old(self).may_yield(
                            old(self).voxel_value(
                                cell_index.x + d.x,
                                cell_index.y + d.y,
                                cell_index.z + d.z,
                            ),
                        ));
                    }
                    old(self).lemma_regular_case_all_outside(cell_index, 8);
                } else {
                    assert forall|i: int| 0 <= i < 8 implies #[trigger] old(self).corner_inside(
                        cell_index,
                        i,
                    ) by {
                        let d = crate::aux_tables::regular_cell_voxel_delta(i);
                        assert(is_block_addr(
                            old(self).subs(),
                            cell_index.x + d.x,
                            cell_index.y + d.y,
                            cell_index.z + d.z,
                        ));
                        assert(old(self).may_yield(
                            old(self).voxel_value(
                                cell_index.x + d.x,
                                cell_index.y + d.y,
                                cell_index.z + d.z,
                            ),
                        ));
                    }
                    old(self).lemma_regular_case_all_inside(cell_index, 8);
                }
                assert(case_number == 0 || case_number == 255);
                assert(vertex_count == 0 && triangle_count == 0);
                assert(self.triangles() =~= old(self).triangles());
            }
        }
    }

    /// Sweeps every regular cell of the block in x-outer, y-middle, z-inner
    /// order.
    fn extract_regular_cells(&mut self)
        requires
            old(self).wf(),
        ensures
            final(self).wf(),
            final(self).evolved_from(*old(self)),
            final(self).subs() == old(self).subs(),
            final(self).transition_state_unchanged(*old(self)),
            final(self).current_rotation == old(self).current_rotation,
            forall|a: int, b: int, c: int|
                is_block_addr(old(self).subs(), a, b, c) ==> #[trigger] final(self).voxel_value(
                    a,
                    b,
                    c,
                ) == old(self).voxel_value(a, b, c),
            final(self).triangles().len() == old(self).triangles().len() + old(self).regular_sweep_total(),
            old(self).uniform() ==> final(self).builder_unchanged(*old(self)),
    {
        let subs = self.block.subdivisions;
        let ghost n = self.subs();
        proof {
            self.density_source.lemma_untouched_reflexive();
            lemma_fits_consequences(n);
        }
        let mut cell_x: usize = 0;
        while cell_x < subs
            invariant
                self.wf(),
                subs == self.block_spec().subdivisions,
                n == old(self).subs(),
                self.subs() == old(self).subs(),
                cell_x <= subs,
                self.evolved_from(*old(self)),
                self.transition_state_unchanged(*old(self)),
                self.current_rotation == old(self).current_rotation,
                forall|a: int, b: int, c: int|
                    is_block_addr(n, a, b, c) ==> #[trigger] self.voxel_value(a, b, c) == old(self).voxel_value(a, b, c),
                self.triangles().len() == old(self).triangles().len() + old(self).regular_sweep_partial((cell_x as int) * (n * n)),
                old(self).uniform() ==> self.builder_unchanged(*old(self)),
            decreases subs - cell_x,
        {
            let mut cell_y: usize = 0;
            while cell_y < subs
                invariant
                    self.wf(),
                    subs == self.block_spec().subdivisions,
                    n == old(self).subs(),
                    self.subs() == old(self).subs(),
                    cell_x < subs,
                    cell_y <= subs,
                    self.evolved_from(*old(self)),
                    self.transition_state_unchanged(*old(self)),
                    self.current_rotation == old(self).current_rotation,
                    forall|a: int, b: int, c: int|
                        is_block_addr(n, a, b, c) ==> #[trigger] self.voxel_value(a, b, c) == old(self).voxel_value(a, b, c),
                    self.triangles().len() == old(self).triangles().len() + old(self).regular_sweep_partial((cell_x as int) * (n * n) + (cell_y as int) * n),
                    old(self).uniform() ==> self.builder_unchanged(*old(self)),
                decreases subs - cell_y,
            {
                let mut cell_z: usize = 0;
                while cell_z < subs
                    invariant
                        self.wf(),
                        subs == self.block_spec().subdivisions,
                        n == old(self).subs(),
                        self.subs() == old(self).subs(),
                        cell_x < subs,
                        cell_y < subs,
                        cell_z <= subs,
                        self.evolved_from(*old(self)),
                        self.transition_state_unchanged(*old(self)),
                        self.current_rotation == old(self).current_rotation,
                        forall|a: int, b: int, c: int|
                            is_block_addr(n, a, b, c) ==> #[trigger] self.voxel_value(a, b, c)
                                == old(self).voxel_value(a, b, c),
                        self.triangles().len() == old(self).triangles().len() + old(self).regular_sweep_partial(
                            (cell_x as int) * (n * n) + (cell_y as int) * n + cell_z as int,
                        ),
                        old(self).uniform() ==> self.builder_unchanged(*old(self)),
                    decreases subs - cell_z,
                {
                    let cell_index = crate::voxel_coordinates::RegularCellIndex {
                        x: cell_x,
                        y: cell_y,
                        z: cell_z,
                    };
                    let ghost before = *self;
                    let ghost idx = (cell_x as int) * (n * n) + (cell_y as int) * n
                        + cell_z as int;
                    self.extract_regular_cell(cell_index);
                    proof {
                        Self::lemma_evolved_transitive(*self, before, *old(self));
                        assert forall|a: int, b: int, c: int|
                            is_block_addr(n, a, b, c) implies #[trigger] self.voxel_value(a, b, c)
                            == old(self).voxel_value(a, b, c) by {
                            assert(before.voxel_value(a, b, c) == old(self).voxel_value(a, b, c));
                        }
                        Self::lemma_regular_case_stable(before, *old(self), cell_index, 8);
                        Self::lemma_sweep_cell_coords(
                            n,
                            cell_x as int,
                            cell_y as int,
                            cell_z as int,
                        );
                        assert(before.regular_cell_triangles(cell_index) == old(self).regular_cell_triangles(cell_index));
                        assert(old(self).regular_sweep_partial(idx + 1) == old(self).regular_sweep_partial(idx) + old(self).regular_cell_triangles(
                            cell_index,
                        ));
                    }
                    cell_z = cell_z + 1;
                }
                proof {
                    assert((cell_x as int) * (n * n) + (cell_y as int + 1) * n == (cell_x as int)
                        * (n * n) + (cell_y as int) * n + n) by (nonlinear_arith);
                }
                cell_y = cell_y + 1;
            }
            proof {
                assert((cell_x as int + 1) * (n * n) == (cell_x as int) * (n * n) + n * n)
                    by (nonlinear_arith);
            }
            cell_x = cell_x + 1;
        }
        proof {
            assert((subs as int) * (n * n) == n * (n * n));
        }
    }

    /// The voxel data at a high resolution face voxel: voxels coinciding
    /// with the regular grid are served by the regular cache, the others by
    /// the face slabs (or the oracle, off the face).
    fn transition_grid_point_data(
        &mut self,
        voxel_index: &crate::voxel_coordinates::HighResolutionVoxelIndex,
    ) -> (r: V)
        requires
            old(self).wf(),
            voxel_index.valid_for(old(self).subs()),
            old(self).sides_ready(),
            old(self).sides_spec().has_index(voxel_index.cell.side.index_spec()),
            old(self).rotation_matches(voxel_index.cell.side),
        ensures
            final(self).wf(),
            final(self).same_config(*old(self)),
            final(self).subs() == old(self).subs(),
            final(self).builder_unchanged(*old(self)),
            final(self).storage_unchanged(*old(self)),
            final(self).transition_state_unchanged(*old(self)),
            final(self).current_rotation == old(self).current_rotation,
            final(self).sides_ready(),
            old(self).may_yield(r),
            forall|a: int, b: int, c: int|
                is_block_addr(old(self).subs(), a, b, c) ==> #[trigger] final(self).voxel_value(
                    a,
                    b,
                    c,
                ) == old(self).voxel_value(a, b, c),
            ({
                let gu = 2 * voxel_index.cell.cell_u + voxel_index.delta.u;
                let gv = 2 * voxel_index.cell.cell_v + voxel_index.delta.v;
                (voxel_index.delta.w == 0 && 0 <= gu <= 2 * old(self).subs() && 0 <= gv <= 2
                    * old(self).subs()) ==> (*final(self) == *old(self) && r == old(self).transition_point_value(*voxel_index))
            }),
    {
        proof {
            lemma_fits_consequences(self.subs());
        }
        if voxel_index.on_regular_grid() {
            let rotation = self.current_rotation;
            let regular_index = voxel_index.as_regular_index(
                &rotation,
                self.block.subdivisions,
            );
            self.regular_voxel_data(&regular_index)
        } else {
            let ghost before = *self;
            let r = self.density_source.get_transition_density(voxel_index);
            proof {
                self.density_source.lemma_source_frame_consequences(before.density_source);
                self.density_source.lemma_regular_state_untouched_consequences(
                    before.density_source,
                );
                self.density_source.lemma_transition_untouched_consequences(
                    before.density_source,
                );
            }
            r
        }
    }

    /// The current rotation is the one attached to `side`.
    pub closed spec fn rotation_matches(self, side: TransitionSide) -> bool {
        self.current_rotation == crate::rotation::rotation_for_side(side)
    }

    /// Case number of a transition cell: one bit per high resolution face
    /// voxel whose density is inside the threshold, in the fixed Transvoxel
    /// bit order.  Only reads cached values.
    fn transition_cell_case(
        &mut self,
        cell_index: &crate::voxel_coordinates::TransitionCellIndex,
    ) -> (case: usize)
        requires
            old(self).wf(),
            cell_index.cell_u < old(self).subs(),
            cell_index.cell_v < old(self).subs(),
            old(self).sides_ready(),
            old(self).sides_spec().has_index(cell_index.side.index_spec()),
            old(self).rotation_matches(cell_index.side),
        ensures
            *final(self) == *old(self),
            case < 512,
            case as int == old(self).transition_case_partial(*cell_index, 9),
    {
        proof {
            lemma_fits_consequences(self.subs());
        }
        let mut case: usize = 0;
        let mut i: usize = 0;
        while i < 9
            invariant
                *self == *old(self),
                old(self).wf(),
                cell_index.cell_u < old(self).subs(),
                cell_index.cell_v < old(self).subs(),
                old(self).sides_ready(),
                old(self).sides_spec().has_index(cell_index.side.index_spec()),
                old(self).rotation_matches(cell_index.side),
                i <= 9,
                case as int == old(self).transition_case_partial(*cell_index, i as int),
                case <= 0x1FF,
            decreases 9 - i,
        {
            let (voxel_delta, contribution) = crate::aux_tables::transition_case_contribution(i);
            let voxel_index = cell_index.high_res_voxel(&voxel_delta);
            let data = self.transition_grid_point_data(&voxel_index);
            let inside = data.density().inside(&self.threshold);
            proof {
                old(self).lemma_transition_case_partial_bounds(*cell_index, i as int + 1);
                assert(old(self).transition_corner_inside(*cell_index, i as int) == inside);
            }
            if inside {
                case = case + contribution;
            }
            i = i + 1;
        }
        case
    }

    /// The world position of a grid point on the high resolution face (no
    /// shrink: the face lies on the block boundary by definition).
    pub open spec fn high_res_position_spec(
        self,
        idx: crate::voxel_coordinates::HighResolutionVoxelIndex,
    ) -> Position<C> {
        let n = self.subs();
        let size = self.block_spec().dims.size;
        let base = self.block_spec().dims.base;
        let nu = self.block_spec().subdivisions;
        let nums = crate::rotation::position_in_block_numerators(n, idx);
        Position {
            x: C::half_spec(nums.0 as isize).times_spec(C::ratio_spec(1 as isize, nu)).times_spec(
                size,
            ).plus_spec(base[0]),
            y: C::half_spec(nums.1 as isize).times_spec(C::ratio_spec(1 as isize, nu)).times_spec(
                size,
            ).plus_spec(base[1]),
            z: C::half_spec(nums.2 as isize).times_spec(C::ratio_spec(1 as isize, nu)).times_spec(
                size,
            ).plus_spec(base[2]),
        }
    }

    /// Computes the world position of a high resolution face grid point.
    fn high_res_face_grid_point_position(
        &self,
        cell_index: &crate::voxel_coordinates::TransitionCellIndex,
        delta: crate::voxel_coordinates::HighResolutionVoxelDelta,
    ) -> (r: Position<C>)
        requires
            self.wf(),
            cell_index.cell_u < self.subs(),
            cell_index.cell_v < self.subs(),
            -1 <= delta.u <= 3,
            -1 <= delta.v <= 3,
            -1 <= delta.w <= 1,
            self.rotation_matches(cell_index.side),
        ensures
            r == self.high_res_position_spec(
                crate::voxel_coordinates::HighResolutionVoxelIndex { cell: *cell_index, delta },
            ),
    {
        let rot = self.current_rotation;
        let voxel_index = cell_index.high_res_voxel(&delta);
        let position_in_block: Position<C> = rot.to_position_in_block(
            self.block.subdivisions,
            &voxel_index,
        );
        let scaled = position_in_block.scaled(self.block.dims.size);
        scaled.shifted(&self.block.dims.base)
    }

    /// Density gradient at a high resolution face voxel that does not
    /// coincide with the regular grid: central differences along the world
    /// axes expressed in UVW.
    /// A face voxel shifted by one half-step along a UVW direction.
    pub open spec fn stepped_index(
        idx: crate::voxel_coordinates::HighResolutionVoxelIndex,
        step: crate::voxel_coordinates::HighResolutionVoxelDelta,
        sign: int,
    ) -> crate::voxel_coordinates::HighResolutionVoxelIndex {
        crate::voxel_coordinates::HighResolutionVoxelIndex {
            cell: idx.cell,
            delta: crate::voxel_coordinates::HighResolutionVoxelDelta {
                u: (if sign >= 0 {
                    idx.delta.u + step.u
                } else {
                    idx.delta.u - step.u
                }) as isize,
                v: (if sign >= 0 {
                    idx.delta.v + step.v
                } else {
                    idx.delta.v - step.v
                }) as isize,
                w: (if sign >= 0 {
                    idx.delta.w + step.w
                } else {
                    idx.delta.w - step.w
                }) as isize,
            },
        }
    }

    /// Whether a half-step sample lies on the face and within its doubled
    /// grid: such samples are held by the cache and pinned.
    pub open spec fn face_sample_in_range(
        self,
        idx: crate::voxel_coordinates::HighResolutionVoxelIndex,
    ) -> bool {
        &&& idx.delta.w == 0
        &&& 0 <= 2 * idx.cell.cell_u + idx.delta.u <= 2 * self.subs()
        &&& 0 <= 2 * idx.cell.cell_v + idx.delta.v <= 2 * self.subs()
    }

    /// A held face sample's value only reads the caches: states agreeing on
    /// them agree on the value.
    proof fn lemma_transition_point_value_stable(
        s2: Self,
        s1: Self,
        idx: crate::voxel_coordinates::HighResolutionVoxelIndex,
    )
        requires
            s2.subs() == s1.subs(),
            s1.subs() >= 1,
            idx.cell.cell_u < s1.subs(),
            idx.cell.cell_v < s1.subs(),
            -1 <= idx.delta.u <= 3,
            -1 <= idx.delta.v <= 3,
            forall|a: int, b: int, c: int|
                is_block_addr(s1.subs(), a, b, c) ==> #[trigger] s2.voxel_value(a, b, c)
                    == s1.voxel_value(a, b, c),
            s2.transition_state_unchanged(s1),
        ensures
            s2.transition_point_value(idx) == s1.transition_point_value(idx),
    {
        if idx.on_regular_grid_spec() {
            assert(idx.delta.u != -1 && idx.delta.v != -1);
            crate::rotation::lemma_face_voxel_in_block(
                s1.subs(),
                idx.cell,
                idx.delta.u as int / 2,
                idx.delta.v as int / 2,
            );
            let nums = crate::rotation::regular_voxel_index_for_face(
                s1.subs(),
                idx.cell,
                idx.delta.u as int / 2,
                idx.delta.v as int / 2,
            );
            assert(is_block_addr(s1.subs(), nums.0, nums.1, nums.2));
            assert(s2.voxel_value(nums.0, nums.1, nums.2) == s1.voxel_value(
                nums.0,
                nums.1,
                nums.2,
            ));
        } else {
            let side = idx.cell.side.index_spec();
            let gu = 2 * idx.cell.cell_u + idx.delta.u;
            let gv = 2 * idx.cell.cell_v + idx.delta.v;
            assert(s2.density_source.transition_value(side, gu, gv)
                == s1.density_source.transition_value(side, gu, gv));
        }
    }

    #[verifier::rlimit(100)]
    fn high_res_face_grid_point_gradient_non_regular(
        &mut self,
        base_voxel_index: &crate::voxel_coordinates::HighResolutionVoxelIndex,
    ) -> (r: (V::Density, V::Density, V::Density))
        requires
            old(self).wf(),
            0 <= base_voxel_index.delta.u <= 2,
            0 <= base_voxel_index.delta.v <= 2,
            base_voxel_index.delta.w == 0,
            base_voxel_index.cell.cell_u < old(self).subs(),
            base_voxel_index.cell.cell_v < old(self).subs(),
            old(self).sides_ready(),
            old(self).sides_spec().has_index(base_voxel_index.cell.side.index_spec()),
            old(self).rotation_matches(base_voxel_index.cell.side),
        ensures
            final(self).wf(),
            final(self).same_config(*old(self)),
            final(self).subs() == old(self).subs(),
            final(self).builder_unchanged(*old(self)),
            final(self).storage_unchanged(*old(self)),
            final(self).transition_state_unchanged(*old(self)),
            final(self).current_rotation == old(self).current_rotation,
            final(self).sides_ready(),
            forall|a: int, b: int, c: int|
                is_block_addr(old(self).subs(), a, b, c) ==> #[trigger] final(self).voxel_value(
                    a,
                    b,
                    c,
                ) == old(self).voxel_value(a, b, c),
            ({
                let rot = crate::rotation::rotation_for_side(base_voxel_index.cell.side);
                let px = Self::stepped_index(*base_voxel_index, rot.plus_x_as_uvw, 1);
                let mx = Self::stepped_index(*base_voxel_index, rot.plus_x_as_uvw, -1);
                let py = Self::stepped_index(*base_voxel_index, rot.plus_y_as_uvw, 1);
                let my = Self::stepped_index(*base_voxel_index, rot.plus_y_as_uvw, -1);
                let pz = Self::stepped_index(*base_voxel_index, rot.plus_z_as_uvw, 1);
                let mz = Self::stepped_index(*base_voxel_index, rot.plus_z_as_uvw, -1);
                &&& ((old(self).face_sample_in_range(px) && old(self).face_sample_in_range(mx))
                    ==> r.0 == old(self).transition_point_value(px).density_spec().diff_spec(
                    old(self).transition_point_value(mx).density_spec(),
                ))
                &&& ((old(self).face_sample_in_range(py) && old(self).face_sample_in_range(my))
                    ==> r.1 == old(self).transition_point_value(py).density_spec().diff_spec(
                    old(self).transition_point_value(my).density_spec(),
                ))
                &&& ((old(self).face_sample_in_range(pz) && old(self).face_sample_in_range(mz))
                    ==> r.2 == old(self).transition_point_value(pz).density_spec().diff_spec(
                    old(self).transition_point_value(mz).density_spec(),
                ))
            }),
    {
        let rot = self.current_rotation;
        proof {
            crate::rotation::lemma_rotation_components_bounded(rot);
        }
        let ghost base = *base_voxel_index;
        let xp = self.transition_grid_point_data(&base_voxel_index.offset(&rot.plus_x_as_uvw));
        let ghost s1 = *self;
        let xm = self.transition_grid_point_data(
            &base_voxel_index.offset_back(&rot.plus_x_as_uvw),
        );
        let ghost s2 = *self;
        let x_gradient = xp.density().diff(xm.density());
        let yp = self.transition_grid_point_data(&base_voxel_index.offset(&rot.plus_y_as_uvw));
        let ghost s3 = *self;
        let ym = self.transition_grid_point_data(
            &base_voxel_index.offset_back(&rot.plus_y_as_uvw),
        );
        let ghost s4 = *self;
        let y_gradient = yp.density().diff(ym.density());
        let zp = self.transition_grid_point_data(&base_voxel_index.offset(&rot.plus_z_as_uvw));
        let ghost s5 = *self;
        let zm = self.transition_grid_point_data(
            &base_voxel_index.offset_back(&rot.plus_z_as_uvw),
        );
        let z_gradient = zp.density().diff(zm.density());
        proof {
            let n = old(self).subs();
            assert forall|a: int, b: int, c: int|
                is_block_addr(n, a, b, c) implies #[trigger] s2.voxel_value(a, b, c) == old(
                self,
            ).voxel_value(a, b, c) by {
                assert(s1.voxel_value(a, b, c) == old(self).voxel_value(a, b, c));
            }
            assert forall|a: int, b: int, c: int|
                is_block_addr(n, a, b, c) implies #[trigger] s3.voxel_value(a, b, c) == old(
                self,
            ).voxel_value(a, b, c) by {
                assert(s2.voxel_value(a, b, c) == old(self).voxel_value(a, b, c));
            }
            assert forall|a: int, b: int, c: int|
                is_block_addr(n, a, b, c) implies #[trigger] s4.voxel_value(a, b, c) == old(
                self,
            ).voxel_value(a, b, c) by {
                assert(s3.voxel_value(a, b, c) == old(self).voxel_value(a, b, c));
            }
            assert forall|a: int, b: int, c: int|
                is_block_addr(n, a, b, c) implies #[trigger] s5.voxel_value(a, b, c) == old(
                self,
            ).voxel_value(a, b, c) by {
                assert(s4.voxel_value(a, b, c) == old(self).voxel_value(a, b, c));
            }
            let px = Self::stepped_index(base, rot.plus_x_as_uvw, 1);
            let mx = Self::stepped_index(base, rot.plus_x_as_uvw, -1);
            let py = Self::stepped_index(base, rot.plus_y_as_uvw, 1);
            let my = Self::stepped_index(base, rot.plus_y_as_uvw, -1);
            let pz = Self::stepped_index(base, rot.plus_z_as_uvw, 1);
            let mz = Self::stepped_index(base, rot.plus_z_as_uvw, -1);
            if old(self).face_sample_in_range(px) && old(self).face_sample_in_range(mx) {
                Self::lemma_transition_point_value_stable(s1, *old(self), mx);
            }
            if old(self).face_sample_in_range(py) && old(self).face_sample_in_range(my) {
                Self::lemma_transition_point_value_stable(s2, *old(self), py);
                Self::lemma_transition_point_value_stable(s3, *old(self), my);
            }
            if old(self).face_sample_in_range(pz) && old(self).face_sample_in_range(mz) {
                Self::lemma_transition_point_value_stable(s4, *old(self), pz);
                Self::lemma_transition_point_value_stable(s5, *old(self), mz);
            }
        }
        (x_gradient, y_gradient, z_gradient)
    }

    /// Density gradient at a high resolution face voxel: voxels coinciding
    /// with the regular grid reuse the regular stencil, the others use
    /// half-step differences through the face data.
    fn high_res_face_grid_point_gradient(
        &mut self,
        base_voxel_index: &crate::voxel_coordinates::HighResolutionVoxelIndex,
    ) -> (r: (V::Density, V::Density, V::Density))
        requires
            old(self).wf(),
            0 <= base_voxel_index.delta.u <= 2,
            0 <= base_voxel_index.delta.v <= 2,
            base_voxel_index.delta.w == 0,
            base_voxel_index.cell.cell_u < old(self).subs(),
            base_voxel_index.cell.cell_v < old(self).subs(),
            old(self).sides_ready(),
            old(self).sides_spec().has_index(base_voxel_index.cell.side.index_spec()),
            old(self).rotation_matches(base_voxel_index.cell.side),
        ensures
            final(self).wf(),
            final(self).same_config(*old(self)),
            final(self).subs() == old(self).subs(),
            final(self).builder_unchanged(*old(self)),
            final(self).storage_unchanged(*old(self)),
            final(self).transition_state_unchanged(*old(self)),
            final(self).current_rotation == old(self).current_rotation,
            final(self).sides_ready(),
            forall|a: int, b: int, c: int|
                is_block_addr(old(self).subs(), a, b, c) ==> #[trigger] final(self).voxel_value(
                    a,
                    b,
                    c,
                ) == old(self).voxel_value(a, b, c),
            base_voxel_index.on_regular_grid_spec() ==> ({
                let nums = crate::rotation::regular_voxel_index_for_face(
                    old(self).subs(),
                    base_voxel_index.cell,
                    base_voxel_index.delta.u as int / 2,
                    base_voxel_index.delta.v as int / 2,
                );
                r == final(self).regular_gradient_spec(nums.0, nums.1, nums.2)
            }),
    {
        proof {
            lemma_fits_consequences(self.subs());
        }
        if base_voxel_index.on_regular_grid() {
            let rotation = self.current_rotation;
            let regular_index = base_voxel_index.as_regular_index(
                &rotation,
                self.block.subdivisions,
            );
            self.regular_voxel_gradient(&regular_index)
        } else {
            self.high_res_face_grid_point_gradient_non_regular(base_voxel_index)
        }
    }

    /// A grid point on the high resolution face of a transition cell.
    fn transition_grid_point_on_high_res_face(
        &mut self,
        cell_index: &crate::voxel_coordinates::TransitionCellIndex,
        delta: crate::voxel_coordinates::HighResolutionVoxelDelta,
    ) -> (r: GridPoint<V, C>)
        requires
            old(self).wf(),
            0 <= delta.u <= 2,
            0 <= delta.v <= 2,
            delta.w == 0,
            cell_index.cell_u < old(self).subs(),
            cell_index.cell_v < old(self).subs(),
            old(self).sides_ready(),
            old(self).sides_spec().has_index(cell_index.side.index_spec()),
            old(self).rotation_matches(cell_index.side),
        ensures
            final(self).wf(),
            final(self).same_config(*old(self)),
            final(self).subs() == old(self).subs(),
            final(self).builder_unchanged(*old(self)),
            final(self).storage_unchanged(*old(self)),
            final(self).transition_state_unchanged(*old(self)),
            final(self).current_rotation == old(self).current_rotation,
            final(self).sides_ready(),
            r.position == old(self).high_res_position_spec(
                crate::voxel_coordinates::HighResolutionVoxelIndex { cell: *cell_index, delta },
            ),
            r.voxel_data == old(self).transition_point_value(
                crate::voxel_coordinates::HighResolutionVoxelIndex { cell: *cell_index, delta },
            ),
            old(self).may_yield(r.voxel_data),
            forall|a: int, b: int, c: int|
                is_block_addr(old(self).subs(), a, b, c) ==> #[trigger] final(self).voxel_value(
                    a,
                    b,
                    c,
                ) == old(self).voxel_value(a, b, c),
            ({
                let idx = crate::voxel_coordinates::HighResolutionVoxelIndex {
                    cell: *cell_index,
                    delta,
                };
                idx.on_regular_grid_spec() ==> ({
                    let nums = crate::rotation::regular_voxel_index_for_face(
                        old(self).subs(),
                        *cell_index,
                        delta.u as int / 2,
                        delta.v as int / 2,
                    );
                    r.gradient == final(self).regular_gradient_spec(nums.0, nums.1, nums.2)
                })
            }),
    {
        let voxel_index = cell_index.high_res_voxel(&delta);
        let position = self.high_res_face_grid_point_position(cell_index, delta);
        let gradient = self.high_res_face_grid_point_gradient(&voxel_index);
        let voxel_data = self.high_res_face_grid_point_data(&voxel_index);
        proof {
            if voxel_index.on_regular_grid_spec() {
                crate::rotation::lemma_face_voxel_in_block(
                    old(self).subs(),
                    *cell_index,
                    delta.u as int / 2,
                    delta.v as int / 2,
                );
            }
        }
        GridPoint { position, gradient, voxel_data }
    }

    /// The voxel data at a high resolution face voxel.
    fn high_res_face_grid_point_data(
        &mut self,
        voxel_index: &crate::voxel_coordinates::HighResolutionVoxelIndex,
    ) -> (r: V)
        requires
            old(self).wf(),
            0 <= voxel_index.delta.u <= 2,
            0 <= voxel_index.delta.v <= 2,
            voxel_index.delta.w == 0,
            voxel_index.cell.cell_u < old(self).subs(),
            voxel_index.cell.cell_v < old(self).subs(),
            old(self).sides_ready(),
            old(self).sides_spec().has_index(voxel_index.cell.side.index_spec()),
            old(self).rotation_matches(voxel_index.cell.side),
        ensures
            *final(self) == *old(self),
            r == old(self).transition_point_value(*voxel_index),
            old(self).may_yield(r),
    {
        self.transition_grid_point_data(voxel_index)
    }

    /// One of the thirteen grid points of a transition cell.
    fn transition_grid_point(
        &mut self,
        cell_index: &crate::voxel_coordinates::TransitionCellIndex,
        grid_point_index: crate::aux_tables::TransitionCellGridPointIndex,
    ) -> (r: GridPoint<V, C>)
        requires
            old(self).wf(),
            grid_point_index.0 < 13,
            cell_index.cell_u < old(self).subs(),
            cell_index.cell_v < old(self).subs(),
            old(self).sides_ready(),
            old(self).sides_spec().has_index(cell_index.side.index_spec()),
            old(self).rotation_matches(cell_index.side),
        ensures
            final(self).wf(),
            final(self).same_config(*old(self)),
            final(self).subs() == old(self).subs(),
            final(self).builder_unchanged(*old(self)),
            final(self).storage_unchanged(*old(self)),
            final(self).transition_state_unchanged(*old(self)),
            final(self).current_rotation == old(self).current_rotation,
            final(self).sides_ready(),
            forall|a: int, b: int, c: int|
                is_block_addr(old(self).subs(), a, b, c) ==> #[trigger] final(self).voxel_value(
                    a,
                    b,
                    c,
                ) == old(self).voxel_value(a, b, c),
            old(self).may_yield(r.voxel_data),
            ({
                let gp = crate::aux_tables::transition_cell_grid_point_spec(
                    grid_point_index.0 as int,
                );
                &&& (gp is HighResFace ==> ({
                    let idx = crate::voxel_coordinates::HighResolutionVoxelIndex {
                        cell: *cell_index,
                        delta: gp->HighResFace_0,
                    };
                    &&& r.position == old(self).high_res_position_spec(idx)
                    &&& r.voxel_data == old(self).transition_point_value(idx)
                }))
                &&& (gp is RegularFace ==> ({
                    let nums = crate::rotation::regular_voxel_index_for_face(
                        old(self).subs(),
                        *cell_index,
                        gp->RegularFace_0 as int,
                        gp->RegularFace_1 as int,
                    );
                    &&& r.position == old(self).regular_position_spec(nums.0, nums.1, nums.2)
                    &&& r.gradient == final(self).regular_gradient_spec(nums.0, nums.1, nums.2)
                    &&& r.voxel_data == old(self).voxel_value(nums.0, nums.1, nums.2)
                }))
            }),
    {
        match crate::aux_tables::transition_cell_grid_point(grid_point_index) {
            crate::aux_tables::TransitionCellGridPoint::HighResFace(delta) => {
                self.transition_grid_point_on_high_res_face(cell_index, delta)
            },
            crate::aux_tables::TransitionCellGridPoint::RegularFace(face_u, face_v) => {
                self.transition_grid_point_on_low_res_face(cell_index, face_u, face_v)
            },
        }
    }

    /// A grid point on the low resolution face of a transition cell: it
    /// addresses a regular voxel through the rotation and is treated exactly
    /// as a regular grid point (it inherits shrink).
    fn transition_grid_point_on_low_res_face(
        &mut self,
        cell_index: &crate::voxel_coordinates::TransitionCellIndex,
        face_u: usize,
        face_v: usize,
    ) -> (r: GridPoint<V, C>)
        requires
            old(self).wf(),
            face_u <= 1,
            face_v <= 1,
            cell_index.cell_u < old(self).subs(),
            cell_index.cell_v < old(self).subs(),
            old(self).sides_ready(),
            old(self).rotation_matches(cell_index.side),
        ensures
            final(self).wf(),
            final(self).same_config(*old(self)),
            final(self).subs() == old(self).subs(),
            final(self).builder_unchanged(*old(self)),
            final(self).storage_unchanged(*old(self)),
            final(self).transition_state_unchanged(*old(self)),
            final(self).current_rotation == old(self).current_rotation,
            final(self).sides_ready(),
            forall|a: int, b: int, c: int|
                is_block_addr(old(self).subs(), a, b, c) ==> #[trigger] final(self).voxel_value(
                    a,
                    b,
                    c,
                ) == old(self).voxel_value(a, b, c),
            old(self).may_yield(r.voxel_data),
            ({
                let nums = crate::rotation::regular_voxel_index_for_face(
                    old(self).subs(),
                    *cell_index,
                    face_u as int,
                    face_v as int,
                );
                &&& r.position == old(self).regular_position_spec(nums.0, nums.1, nums.2)
                &&& r.gradient == final(self).regular_gradient_spec(nums.0, nums.1, nums.2)
                &&& r.voxel_data == old(self).voxel_value(nums.0, nums.1, nums.2)
            }),
    {
        let rot = self.current_rotation;
        proof {
            lemma_fits_consequences(self.subs());
        }
        let voxel_index = rot.to_regular_voxel_index(
            self.block.subdivisions,
            cell_index,
            face_u,
            face_v,
        );
        self.regular_grid_point(voxel_index)
    }

    /// Creates a new vertex between two grid points of a transition cell.
    fn new_transition_vertex(
        &mut self,
        cell_index: &crate::voxel_coordinates::TransitionCellIndex,
        grid_point_a_index: crate::aux_tables::TransitionCellGridPointIndex,
        grid_point_b_index: crate::aux_tables::TransitionCellGridPointIndex,
    ) -> (r: VertexIndex)
        requires
            old(self).wf(),
            grid_point_a_index.0 < 13,
            grid_point_b_index.0 < 13,
            cell_index.cell_u < old(self).subs(),
            cell_index.cell_v < old(self).subs(),
            old(self).sides_ready(),
            old(self).sides_spec().has_index(cell_index.side.index_spec()),
            old(self).rotation_matches(cell_index.side),
        ensures
            final(self).wf(),
            final(self).same_config(*old(self)),
            final(self).subs() == old(self).subs(),
            final(self).storage_unchanged(*old(self)),
            final(self).transition_state_unchanged(*old(self)),
            final(self).current_rotation == old(self).current_rotation,
            final(self).sides_ready(),
            final(self).num_vertices() == old(self).num_vertices() + 1,
            r.0 as nat == old(self).num_vertices(),
            final(self).triangles() == old(self).triangles(),
            forall|a: int, b: int, c: int|
                is_block_addr(old(self).subs(), a, b, c) ==> #[trigger] final(self).voxel_value(
                    a,
                    b,
                    c,
                ) == old(self).voxel_value(a, b, c),
    {
        let a = self.transition_grid_point(cell_index, grid_point_a_index);
        let b = self.transition_grid_point(cell_index, grid_point_b_index);
        self.add_vertex_between(a, b)
    }

    /// Either creates or reuses an existing vertex for one entry of the
    /// transition vertex data table.  Returns an index the mesh builder
    /// knows.
    fn transition_vertex(
        &mut self,
        cell_index: &crate::voxel_coordinates::TransitionCellIndex,
        vd: crate::tables_wrapper::TransitionVertexData,
    ) -> (r: VertexIndex)
        requires
            old(self).wf(),
            cell_index.cell_u < old(self).subs(),
            cell_index.cell_v < old(self).subs(),
            vd.grid_point_a_index_spec() < 13,
            vd.grid_point_b_index_spec() < 13,
            vd.reuse_index_spec() < 10,
            old(self).sides_ready(),
            old(self).sides_spec().has_index(cell_index.side.index_spec()),
            old(self).rotation_matches(cell_index.side),
        ensures
            final(self).wf(),
            final(self).same_config(*old(self)),
            final(self).subs() == old(self).subs(),
            final(self).transition_state_unchanged(*old(self)),
            final(self).current_rotation == old(self).current_rotation,
            final(self).sides_ready(),
            old(self).num_vertices() <= final(self).num_vertices() <= old(self).num_vertices()
                + 1,
            r.0 < final(self).num_vertices(),
            final(self).triangles() == old(self).triangles(),
            forall|a: int, b: int, c: int|
                is_block_addr(old(self).subs(), a, b, c) ==> #[trigger] final(self).voxel_value(
                    a,
                    b,
                    c,
                ) == old(self).voxel_value(a, b, c),
            ({
                let du = vd.reuse_du_spec();
                let dv = vd.reuse_dv_spec();
                let accessible = (du == 0 || cell_index.cell_u > 0) && (dv == 0
                    || cell_index.cell_v > 0);
                let stored = old(self).reusable_transition(
                    cell_index.side.index_spec(),
                    cell_index.cell_u + du,
                    cell_index.cell_v + dv,
                    vd.reuse_index_spec(),
                );
                if vd.reuse_spec() && accessible && stored is Some {
                    // The vertex of the preceding cell is reused as it is.
                    &&& r == stored->Some_0
                    &&& final(self).num_vertices() == old(self).num_vertices()
                    &&& final(self).storage_unchanged(*old(self))
                } else if vd.reuse_spec() {
                    // The cell to reuse from is outside this face (or its
                    // slot was never written): a fresh vertex, not stored.
                    &&& final(self).num_vertices() == old(self).num_vertices() + 1
                    &&& r.0 as nat == old(self).num_vertices()
                    &&& final(self).storage_unchanged(*old(self))
                } else if vd.new_reusable_spec() {
                    // A fresh vertex, stored under this cell's reuse slot.
                    &&& final(self).num_vertices() == old(self).num_vertices() + 1
                    &&& r.0 as nat == old(self).num_vertices()
                    &&& final(self).reusable_transition(
                        cell_index.side.index_spec(),
                        cell_index.cell_u as int,
                        cell_index.cell_v as int,
                        vd.reuse_index_spec(),
                    ) == Some(r)
                    &&& (forall|side: int, u: int, v: int, s: int|
                        0 <= side < 6 && 0 <= u < old(self).subs() && 0 <= v < old(self).subs()
                            && 0 <= s < 10 && !(side == cell_index.side.index_spec() && u
                            == cell_index.cell_u as int && v == cell_index.cell_v as int && s
                            == vd.reuse_index_spec()) ==> #[trigger] final(self).reusable_transition(side, u, v, s) == old(self).reusable_transition(
                            side,
                            u,
                            v,
                            s,
                        ))
                    &&& (forall|x: int, y: int, z: int, s: int|
                        #[trigger] final(self).reusable_regular(x, y, z, s) == old(self).reusable_regular(x, y, z, s))
                } else {
                    // A fresh vertex interior to the cell: never reused.
                    &&& final(self).num_vertices() == old(self).num_vertices() + 1
                    &&& r.0 as nat == old(self).num_vertices()
                    &&& final(self).storage_unchanged(*old(self))
                }
            }),
    {
        if vd.reuse() {
            let cell_u = cell_index.cell_u;
            let cell_v = cell_index.cell_v;
            let du = vd.reuse_du();
            let dv = vd.reuse_dv();
            let previous_vertex_is_accessible = ((du == 0) || (cell_u > 0)) && ((dv == 0) || (
            cell_v > 0));
            if previous_vertex_is_accessible {
                proof {
                    lemma_fits_consequences(self.subs());
                }
                let reuse_cell_u = (cell_u as isize + du) as usize;
                let reuse_cell_v = (cell_v as isize + dv) as usize;
                let previous_index = crate::voxel_coordinates::TransitionCellIndex {
                    side: cell_index.side,
                    cell_u: reuse_cell_u,
                    cell_v: reuse_cell_v,
                };
                let stored = self.shared_storage.get_transition(
                    &previous_index,
                    vd.reuse_index(),
                );
                match stored {
                    Some(reused) => {
                        proof {
                            lemma_transition_slot_bound(
                                self.subs(),
                                cell_index.side.index_spec(),
                                reuse_cell_u as int,
                                reuse_cell_v as int,
                                vd.reuse_index_spec(),
                            );
                        }
                        reused
                    },
                    None => {
                        // The reuse slot was never written: materialise a
                        // fresh vertex instead (and do not store it).
                        self.new_transition_vertex(
                            cell_index,
                            vd.grid_point_a_index(),
                            vd.grid_point_b_index(),
                        )
                    },
                }
            } else {
                // The cell to reuse from is not part of this face:
                // materialise a fresh vertex instead.
                self.new_transition_vertex(
                    cell_index,
                    vd.grid_point_a_index(),
                    vd.grid_point_b_index(),
                )
            }
        } else {
            let i = self.new_transition_vertex(
                cell_index,
                vd.grid_point_a_index(),
                vd.grid_point_b_index(),
            );
            let ghost mid = *self;
            if vd.new_reusable() {
                self.shared_storage.put_transition(i, cell_index, vd.reuse_index());
            }
            proof {
                assert forall|a: int, b: int, c: int|
                    is_block_addr(old(self).subs(), a, b, c) implies #[trigger] self.voxel_value(
                    a,
                    b,
                    c,
                ) == old(self).voxel_value(a, b, c) by {
                    assert(mid.voxel_value(a, b, c) == old(self).voxel_value(a, b, c));
                }
            }
            i
        }
    }

    /// Extracts the geometry of one transition cell: case, class (with its
    /// orientation bit), triangulation, vertices, triangles.
    fn extract_transition_cell(
        &mut self,
        cell_index: &crate::voxel_coordinates::TransitionCellIndex,
    )
        requires
            old(self).wf(),
            cell_index.cell_u < old(self).subs(),
            cell_index.cell_v < old(self).subs(),
            old(self).sides_ready(),
            old(self).sides_spec().has_index(cell_index.side.index_spec()),
            old(self).rotation_matches(cell_index.side),
        ensures
            final(self).wf(),
            final(self).evolved_from(*old(self)),
            final(self).subs() == old(self).subs(),
            final(self).transition_state_unchanged(*old(self)),
            final(self).current_rotation == old(self).current_rotation,
            final(self).sides_ready(),
            forall|a: int, b: int, c: int|
                is_block_addr(old(self).subs(), a, b, c) ==> #[trigger] final(self).voxel_value(
                    a,
                    b,
                    c,
                ) == old(self).voxel_value(a, b, c),
            final(self).triangles().len() == old(self).triangles().len() + old(self).transition_cell_triangles(*cell_index),
            old(self).num_vertices() <= final(self).num_vertices() <= old(self).num_vertices()
                + old(self).transition_cell_vertex_limit(*cell_index),
            ({
                let raw = old(self).transition_cell_raw_class(*cell_index);
                let class = old(self).transition_cell_class_spec(*cell_index);
                exists|vs: Seq<VertexIndex>|
                    {
                        &&& (#[trigger] vs.len()) == crate::tables::transition_vertex_count(
                            class,
                        ) as int
                        &&& (forall|k: int|
                            0 <= k < vs.len() ==> (#[trigger] vs[k]).0 < final(self).num_vertices())
                        &&& (forall|t: int|
                            0 <= t < crate::tables::transition_triangle_count(class)
                                ==> #[trigger] final(self).triangles()[old(self).triangles().len() + t] == (if raw & 0x80 == 0 {
                                // LowZ is the base case, so a clear
                                // orientation bit emits in table order.
                                (
                                    (vs[crate::tables::transition_triangulation_entry(
                                        class,
                                        3 * t,
                                    ) as int]).0,
                                    (vs[crate::tables::transition_triangulation_entry(
                                        class,
                                        3 * t + 1,
                                    ) as int]).0,
                                    (vs[crate::tables::transition_triangulation_entry(
                                        class,
                                        3 * t + 2,
                                    ) as int]).0,
                                )
                            } else {
                                (
                                    (vs[crate::tables::transition_triangulation_entry(
                                        class,
                                        3 * t + 2,
                                    ) as int]).0,
                                    (vs[crate::tables::transition_triangulation_entry(
                                        class,
                                        3 * t + 1,
                                    ) as int]).0,
                                    (vs[crate::tables::transition_triangulation_entry(
                                        class,
                                        3 * t,
                                    ) as int]).0,
                                )
                            }))
                    }
            }),
            old(self).uniform() ==> final(self).builder_unchanged(*old(self)),
    {
        let case_number = self.transition_cell_case(cell_index);
        let raw_cell_class: u8 = crate::tables::transition_cell_class(case_number);
        let cell_class: u8 = raw_cell_class & 0x7F;
        let invert_triangulation = (raw_cell_class & 0x80) != 0;
        // The tables are written for LowZ as the base case, so the
        // orientation bit is applied inverted.
        let our_invert_triangulation = !invert_triangulation;
        let vertex_count = crate::tables::transition_cell_vertex_count(cell_class);
        let triangle_count = crate::tables::transition_cell_triangle_count(cell_class);
        let ghost start = *self;
        proof {
            assert(raw_cell_class == start.transition_cell_raw_class(*cell_index));
            assert(cell_class as int == start.transition_cell_class_spec(*cell_index));
        }
        let mut cell_vertices_indices: Vec<VertexIndex> = Vec::new();
        let mut i: usize = 0;
        while i < vertex_count as usize
            invariant
                self.wf(),
                self.subs() == start.subs(),
                self.same_config(start),
                self.transition_state_unchanged(start),
                self.current_rotation == start.current_rotation,
                self.sides_ready(),
                start.sides_spec().has_index(cell_index.side.index_spec()),
                start.rotation_matches(cell_index.side),
                cell_index.cell_u < self.subs(),
                cell_index.cell_v < self.subs(),
                case_number < 512,
                vertex_count <= 12,
                i <= vertex_count,
                cell_vertices_indices.len() == i,
                self.triangles() == start.triangles(),
                start.num_vertices() <= self.num_vertices() <= start.num_vertices() + i,
                forall|k: int|
                    0 <= k < i ==> (#[trigger] cell_vertices_indices[k]).0
                        < self.num_vertices(),
                forall|a: int, b: int, c: int|
                    is_block_addr(start.subs(), a, b, c) ==> #[trigger] self.voxel_value(a, b, c)
                        == start.voxel_value(a, b, c),
            decreases vertex_count - i,
        {
            let code = crate::tables::transition_vertex_data(case_number, i);
            let vd = crate::tables_wrapper::TransitionVertexData(code);
            let ghost before = *self;
            let vertex = self.transition_vertex(cell_index, vd);
            cell_vertices_indices.push(vertex);
            proof {
                assert forall|a: int, b: int, c: int|
                    is_block_addr(start.subs(), a, b, c) implies #[trigger] self.voxel_value(
                    a,
                    b,
                    c,
                ) == start.voxel_value(a, b, c) by {
                    assert(before.voxel_value(a, b, c) == start.voxel_value(a, b, c));
                }
            }
            i = i + 1;
        }
        let mut t: usize = 0;
        while t < triangle_count as usize
            invariant
                self.wf(),
                self.subs() == start.subs(),
                self.same_config(start),
                self.transition_state_unchanged(start),
                self.current_rotation == start.current_rotation,
                self.sides_ready(),
                forall|a: int, b: int, c: int|
                    is_block_addr(start.subs(), a, b, c) ==> #[trigger] self.voxel_value(a, b, c)
                        == start.voxel_value(a, b, c),
                raw_cell_class == start.transition_cell_raw_class(*cell_index),
                cell_class as int == start.transition_cell_class_spec(*cell_index),
                our_invert_triangulation == (raw_cell_class & 0x80 == 0),
                cell_class < 56,
                triangle_count <= 12,
                vertex_count <= 12,
                vertex_count as int == crate::tables::transition_vertex_count(cell_class as int),
                triangle_count as int == crate::tables::transition_triangle_count(
                    cell_class as int,
                ),
                t <= triangle_count,
                cell_vertices_indices.len() == vertex_count,
                forall|k: int|
                    0 <= k < vertex_count ==> (#[trigger] cell_vertices_indices[k]).0
                        < self.num_vertices(),
                start.num_vertices() <= self.num_vertices() <= start.num_vertices()
                    + vertex_count,
                start.triangles().len() <= self.triangles().len(),
                forall|k: int|
                    0 <= k < start.triangles().len() ==> #[trigger] self.triangles()[k]
                        == start.triangles()[k],
                forall|k: int|
                    start.triangles().len() <= k < self.triangles().len() ==> tri_valid(
                        #[trigger] self.triangles()[k],
                        self.num_vertices(),
                    ),
                self.triangles().len() == start.triangles().len() + t,
                forall|k: int|
                    0 <= k < t ==> #[trigger] self.triangles()[start.triangles().len() + k] == (
                    if raw_cell_class & 0x80 == 0 {
                        (
                            (cell_vertices_indices[crate::tables::transition_triangulation_entry(
                                cell_class as int,
                                3 * k,
                            ) as int]).0,
                            (cell_vertices_indices[crate::tables::transition_triangulation_entry(
                                cell_class as int,
                                3 * k + 1,
                            ) as int]).0,
                            (cell_vertices_indices[crate::tables::transition_triangulation_entry(
                                cell_class as int,
                                3 * k + 2,
                            ) as int]).0,
                        )
                    } else {
                        (
                            (cell_vertices_indices[crate::tables::transition_triangulation_entry(
                                cell_class as int,
                                3 * k + 2,
                            ) as int]).0,
                            (cell_vertices_indices[crate::tables::transition_triangulation_entry(
                                cell_class as int,
                                3 * k + 1,
                            ) as int]).0,
                            (cell_vertices_indices[crate::tables::transition_triangulation_entry(
                                cell_class as int,
                                3 * k,
                            ) as int]).0,
                        )
                    }),
            decreases triangle_count - t,
        {
            let v1_index_in_cell = crate::tables::transition_cell_triangulation_entry(
                cell_class,
                3 * t,
            );
            let v2_index_in_cell = crate::tables::transition_cell_triangulation_entry(
                cell_class,
                3 * t + 1,
            );
            let v3_index_in_cell = crate::tables::transition_cell_triangulation_entry(
                cell_class,
                3 * t + 2,
            );
            let global_index_1 = cell_vertices_indices[v1_index_in_cell as usize];
            let global_index_2 = cell_vertices_indices[v2_index_in_cell as usize];
            let global_index_3 = cell_vertices_indices[v3_index_in_cell as usize];
            let ghost before_triangle = *self;
            if our_invert_triangulation {
                self.mesh_builder.add_triangle(global_index_1, global_index_2, global_index_3);
            } else {
                self.mesh_builder.add_triangle(global_index_3, global_index_2, global_index_1);
            }
            proof {
                self.density_source.lemma_untouched_reflexive();
                assert forall|a: int, b: int, c: int|
                    is_block_addr(start.subs(), a, b, c) implies #[trigger] self.voxel_value(
                    a,
                    b,
                    c,
                ) == start.voxel_value(a, b, c) by {
                    assert(before_triangle.voxel_value(a, b, c) == start.voxel_value(a, b, c));
                }
            }
            t = t + 1;
        }
        proof {
            let raw = old(self).transition_cell_raw_class(*cell_index);
            let class = old(self).transition_cell_class_spec(*cell_index);
            let vs = cell_vertices_indices@;
            assert((vs.len()) == crate::tables::transition_vertex_count(class) as int && (forall|
                k: int,
            |
                0 <= k < vs.len() ==> (#[trigger] vs[k]).0 < self.num_vertices()) && (forall|
                t_: int,
            |
                0 <= t_ < crate::tables::transition_triangle_count(class)
                    ==> #[trigger] self.triangles()[old(self).triangles().len() + t_] == (if raw
                    & 0x80 == 0 {
                    (
                        (vs[crate::tables::transition_triangulation_entry(class, 3 * t_) as int]).0,
                        (vs[crate::tables::transition_triangulation_entry(
                            class,
                            3 * t_ + 1,
                        ) as int]).0,
                        (vs[crate::tables::transition_triangulation_entry(
                            class,
                            3 * t_ + 2,
                        ) as int]).0,
                    )
                } else {
                    (
                        (vs[crate::tables::transition_triangulation_entry(
                            class,
                            3 * t_ + 2,
                        ) as int]).0,
                        (vs[crate::tables::transition_triangulation_entry(
                            class,
                            3 * t_ + 1,
                        ) as int]).0,
                        (vs[crate::tables::transition_triangulation_entry(class, 3 * t_) as int]).0,
                    )
                })));
            if old(self).uniform() {
                old(self).density_source.lemma_wf_values_may_yield();
                if old(self).all_outside() {
                    assert forall|i_: int| 0 <= i_ < 9 implies !(#[trigger] old(self).transition_corner_inside(*cell_index, i_)) by {
                        old(self).lemma_transition_corner_value_may_yield(*cell_index, i_);
                    }
                    old(self).lemma_transition_case_all_outside(*cell_index, 9);
                } else {
                    assert forall|i_: int| 0 <= i_ < 9 implies #[trigger] old(self).transition_corner_inside(*cell_index, i_) by {
                        old(self).lemma_transition_corner_value_may_yield(*cell_index, i_);
                    }
                    old(self).lemma_transition_case_all_inside(*cell_index, 9);
                }
                assert(case_number == 0 || case_number == 511);
                assert(case_number == 0 ==> raw_cell_class == 0);
                assert(0u8 & 0x7F == 0) by (bit_vector);
                assert(cell_class == 0);
                assert(vertex_count == 0 && triangle_count == 0);
                assert(self.triangles() =~= old(self).triangles());
            }
        }
    }

    /// The value a transition case reads for face voxel `i` of a cell could
    /// have been returned by the oracle.
    proof fn lemma_transition_corner_value_may_yield(
        self,
        cell: crate::voxel_coordinates::TransitionCellIndex,
        i: int,
    )
        requires
            self.wf(),
            self.sides_ready(),
            self.sides_spec().has_index(cell.side.index_spec()),
            cell.cell_u < self.subs(),
            cell.cell_v < self.subs(),
            0 <= i < 9,
        ensures
            self.may_yield(
                self.transition_point_value(
                    crate::voxel_coordinates::HighResolutionVoxelIndex {
                        cell,
                        delta: crate::aux_tables::transition_case_delta(i),
                    },
                ),
            ),
    {
        self.density_source.lemma_wf_values_may_yield();
        let delta = crate::aux_tables::transition_case_delta(i);
        let idx = crate::voxel_coordinates::HighResolutionVoxelIndex { cell, delta };
        if idx.on_regular_grid_spec() {
            crate::rotation::lemma_face_voxel_in_block(
                self.subs(),
                cell,
                delta.u as int / 2,
                delta.v as int / 2,
            );
            let nums = crate::rotation::regular_voxel_index_for_face(
                self.subs(),
                cell,
                delta.u as int / 2,
                delta.v as int / 2,
            );
            assert(is_block_addr(self.subs(), nums.0, nums.1, nums.2));
            assert(self.may_yield(self.voxel_value(nums.0, nums.1, nums.2)));
        } else {
            let gu = 2 * cell.cell_u + delta.u;
            let gv = 2 * cell.cell_v + delta.v;
            assert(crate::density_caching::is_t_addr(
                self.subs(),
                cell.side.index_spec(),
                gu,
                gv,
            ));
            assert(self.density_source.side_loaded(cell.side.index_spec()));
        }
    }

    /// Sweeps each active transition face, in u-outer v-inner order within
    /// the face.
    fn extract_transition_cells(&mut self)
        requires
            old(self).wf(),
            old(self).transition_not_loaded(),
        ensures
            final(self).wf(),
            final(self).evolved_from(*old(self)),
            final(self).subs() == old(self).subs(),
            forall|a: int, b: int, c: int|
                is_block_addr(old(self).subs(), a, b, c) ==> #[trigger] final(self).voxel_value(
                    a,
                    b,
                    c,
                ) == old(self).voxel_value(a, b, c),
            final(self).triangles().len() == old(self).triangles().len() + final(self).transition_sweep_total(),
            old(self).uniform() ==> final(self).builder_unchanged(*old(self)),
    {
        let subs = self.block.subdivisions;
        let ghost n = self.subs();
        let ghost pre = *self;
        self.density_source.load_transition_voxels(self.transition_sides);
        proof {
            lemma_fits_consequences(n);
            self.density_source.lemma_source_frame_consequences(pre.density_source);
            self.density_source.lemma_regular_state_untouched_consequences(pre.density_source);
        }
        let mut side_index: usize = 0;
        while side_index < 6
            invariant
                self.wf(),
                subs == self.block_spec().subdivisions,
                n == old(self).subs(),
                self.subs() == old(self).subs(),
                side_index <= 6,
                self.evolved_from(*old(self)),
                self.sides_ready(),
                forall|a: int, b: int, c: int|
                    is_block_addr(n, a, b, c) ==> #[trigger] self.voxel_value(a, b, c) == old(self).voxel_value(a, b, c),
                self.triangles().len() == old(self).triangles().len()
                    + self.transition_sweep_partial(side_index as int),
                old(self).uniform() ==> self.builder_unchanged(*old(self)),
            decreases 6 - side_index,
        {
            let side = crate::transition_sides::TransitionSide::from_index(side_index);
            if self.transition_sides.contains(side) {
                let ghost at_rotation = *self;
                self.current_rotation = Rotation::for_side(side);
                proof {
                    self.density_source.lemma_untouched_reflexive();
                    Self::lemma_transition_sweep_stable(*self, at_rotation, side_index as int);
                    assert forall|a: int, b: int, c: int|
                        is_block_addr(n, a, b, c) implies #[trigger] self.voxel_value(a, b, c)
                        == old(self).voxel_value(a, b, c) by {
                        assert(at_rotation.voxel_value(a, b, c) == old(self).voxel_value(a, b, c));
                    }
                }
                let mut cell_u: usize = 0;
                while cell_u < subs
                    invariant
                        self.wf(),
                        subs == self.block_spec().subdivisions,
                        n == old(self).subs(),
                        self.subs() == old(self).subs(),
                        cell_u <= subs,
                        side.index_spec() == side_index as int,
                        side == crate::transition_sides::side_from_index(side_index as int),
                        self.sides_spec().has_index(side_index as int),
                        self.rotation_matches(side),
                        self.evolved_from(*old(self)),
                        self.sides_ready(),
                        forall|a: int, b: int, c: int|
                            is_block_addr(n, a, b, c) ==> #[trigger] self.voxel_value(a, b, c)
                                == old(self).voxel_value(a, b, c),
                        self.triangles().len() == old(self).triangles().len()
                            + self.transition_sweep_partial(side_index as int)
                            + self.transition_face_partial(side, (cell_u as int) * n),
                        old(self).uniform() ==> self.builder_unchanged(*old(self)),
                    decreases subs - cell_u,
                {
                    let mut cell_v: usize = 0;
                    while cell_v < subs
                        invariant
                            self.wf(),
                            subs == self.block_spec().subdivisions,
                            n == old(self).subs(),
                            self.subs() == old(self).subs(),
                            cell_u < subs,
                            cell_v <= subs,
                            side.index_spec() == side_index as int,
                            side == crate::transition_sides::side_from_index(side_index as int),
                            self.sides_spec().has_index(side_index as int),
                            self.rotation_matches(side),
                            self.evolved_from(*old(self)),
                            self.sides_ready(),
                            forall|a: int, b: int, c: int|
                                is_block_addr(n, a, b, c) ==> #[trigger] self.voxel_value(a, b, c)
                                    == old(self).voxel_value(a, b, c),
                            self.triangles().len() == old(self).triangles().len()
                                + self.transition_sweep_partial(side_index as int)
                                + self.transition_face_partial(
                                side,
                                (cell_u as int) * n + cell_v as int,
                            ),
                            old(self).uniform() ==> self.builder_unchanged(*old(self)),
                        decreases subs - cell_v,
                    {
                        let cell_index = crate::voxel_coordinates::TransitionCellIndex::from(
                            side,
                            cell_u,
                            cell_v,
                        );
                        let ghost before = *self;
                        let ghost k = (cell_u as int) * n + cell_v as int;
                        self.extract_transition_cell(&cell_index);
                        proof {
                            Self::lemma_evolved_transitive(*self, before, *old(self));
                            assert forall|a: int, b: int, c: int|
                                is_block_addr(n, a, b, c) implies #[trigger] self.voxel_value(
                                a,
                                b,
                                c,
                            ) == old(self).voxel_value(a, b, c) by {
                                assert(before.voxel_value(a, b, c) == old(self).voxel_value(
                                    a,
                                    b,
                                    c,
                                ));
                            }
                            Self::lemma_transition_sweep_stable(*self, before, side_index as int);
                            assert(0 <= (cell_u as int) * n + (cell_v as int) && (cell_u as int)
                                * n + (cell_v as int) < n * n) by (nonlinear_arith)
                                requires
                                    0 <= (cell_u as int) < n,
                                    0 <= (cell_v as int) < n,
                            ;
                            Self::lemma_transition_face_stable(*self, before, side, k);
                            Self::lemma_transition_case_stable(*self, before, cell_index, 9);
                            Self::lemma_face_cell_coords(n, cell_u as int, cell_v as int);
                            assert(self.transition_face_partial(side, k + 1)
                                == self.transition_face_partial(side, k)
                                + self.transition_cell_triangles(cell_index));
                        }
                        cell_v = cell_v + 1;
                    }
                    proof {
                        assert((cell_u as int + 1) * n == (cell_u as int) * n + n)
                            by (nonlinear_arith);
                    }
                    cell_u = cell_u + 1;
                }
                proof {
                    assert((subs as int) * n == n * n);
                    assert(self.transition_sweep_partial(side_index as int + 1)
                        == self.transition_sweep_partial(side_index as int)
                        + self.transition_face_partial(side, n * n));
                }
            } else {
                proof {
                    assert(self.transition_sweep_partial(side_index as int + 1)
                        == self.transition_sweep_partial(side_index as int));
                }
            }
            side_index = side_index + 1;
        }
    }

    /// Runs the extraction: the regular sweep, then the transition sweep,
    /// and hands the mesh builder back.
    ///
    /// Whatever the oracle returned, the builder's history only grows and
    /// every new triangle references vertices the builder created.  The
    /// number of new triangles is pinned: the regular sweep adds exactly the
    /// table's triangle count for each cell's case (computed from the block
    /// voxels already cached in this extractor), and the transition sweep
    /// adds exactly the per-cell table counts over some loading of the face
    /// voxels (the witness below), which is empty when no side is active.
    /// When the oracle can only produce densities on one side of the
    /// threshold, no vertex and no triangle is added at all.
    pub fn extract(self) -> (r: M)
        requires
            self.wf(),
            self.transition_not_loaded(),
        ensures
            self.triangles().len() <= r.triangles().len(),
            forall|t: int|
                0 <= t < self.triangles().len() ==> #[trigger] r.triangles()[t]
                    == self.triangles()[t],
            self.num_vertices() <= r.num_vertices(),
            forall|t: int|
                self.triangles().len() <= t < r.triangles().len() ==> crate::mesh_builder::tri_valid(
                    #[trigger] r.triangles()[t],
                    r.num_vertices(),
                ),
            exists|w: Self|
                {
                    &&& (#[trigger] w.transition_sweep_total()) >= 0
                    &&& w.subs() == self.subs()
                    &&& w.block_spec() == self.block_spec()
                    &&& w.threshold_spec() == self.threshold_spec()
                    &&& w.sides_spec() == self.sides_spec()
                    &&& (forall|v: V| #[trigger] w.may_yield(v) == self.may_yield(v))
                    &&& (forall|a: int, b: int, c: int|
                        is_block_addr(self.subs(), a, b, c) ==> #[trigger] w.voxel_value(a, b, c)
                            == self.voxel_value(a, b, c))
                    &&& w.regular_sweep_total() == self.regular_sweep_total()
                    &&& (self.sides_spec().is_empty_spec() ==> w.transition_sweep_total() == 0)
                    &&& r.triangles().len() == self.triangles().len() + w.regular_sweep_total()
                        + w.transition_sweep_total()
                },
            self.sides_spec().is_empty_spec() ==> r.triangles().len() == self.triangles().len()
                + self.regular_sweep_total(),
            self.uniform() ==> (r.triangles() == self.triangles() && r.num_vertices()
                == self.num_vertices()),
    {
        let mut this = self;
        this.extract_regular_cells();
        let ghost mid = this;
        this.extract_transition_cells();
        proof {
            let w = this;
            assert forall|a: int, b: int, c: int|
                is_block_addr(self.subs(), a, b, c) implies #[trigger] w.voxel_value(a, b, c)
                == self.voxel_value(a, b, c) by {
                assert(mid.voxel_value(a, b, c) == self.voxel_value(a, b, c));
            }
            assert(0 <= self.subs() * (self.subs() * self.subs())) by (nonlinear_arith)
                requires
                    self.subs() >= 1,
            ;
            Self::lemma_regular_sweep_stable(
                w,
                self,
                self.subs() * (self.subs() * self.subs()),
            );
            assert(w.transition_sweep_total() >= 0) by {
                Self::lemma_transition_sweep_nonnegative(w, 6);
            }
            if self.sides_spec().is_empty_spec() {
                w.lemma_transition_sweep_empty(6);
            }
            assert((#[trigger] w.transition_sweep_total()) >= 0 && w.subs() == self.subs()
                && w.block_spec() == self.block_spec() && w.threshold_spec()
                == self.threshold_spec() && w.sides_spec() == self.sides_spec() && (forall|v: V|
                #[trigger] w.may_yield(v) == self.may_yield(v)) && (forall|a: int, b: int, c: int|
                is_block_addr(self.subs(), a, b, c) ==> #[trigger] w.voxel_value(a, b, c)
                    == self.voxel_value(a, b, c)) && w.regular_sweep_total()
                == self.regular_sweep_total() && (self.sides_spec().is_empty_spec()
                ==> w.transition_sweep_total() == 0) && this.triangles().len()
                == self.triangles().len() + w.regular_sweep_total() + w.transition_sweep_total());
        }
        let Extractor { mesh_builder, .. } = this;
        mesh_builder
    }
}

} // verus!
