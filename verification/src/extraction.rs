//! Main mesh extraction entry points.

use vstd::prelude::*;

use crate::algorithm::Extractor;
use crate::mesh_builder::{tri_valid, MeshBuilder};
use crate::traits::{Coordinate, Density, VoxelData};
use crate::transition_sides::TransitionSides;
use crate::voxel_coordinates::HighResolutionVoxelIndex;
use crate::voxel_source::{Block, DataField, VoxelSource, WorldMappingVoxelSource};

verus! {

/// Extracts an iso-surface mesh for a [`VoxelSource`].
///
/// Arguments:
///  * `source`: the voxel data source
///  * `block`: the world zone for which to extract, and its subdivision count
///  * `threshold`: density value defining the iso-surface
///  * `transition_sides`: the sides of the block which need to be adapted to
///    neighbouring double-resolution blocks
///  * `mesh_builder`: builder called to append vertices and triangles; it is
///    returned back at the end.
///
/// The builder comes back with its previous content intact, every new
/// triangle referencing vertices the builder created, and the number of new
/// triangles equal to the summed table counts of the cell cases over the
/// voxel values the extraction cached (the witness in the contract); a
/// source whose densities all lie strictly on one side of the threshold
/// produces nothing.
pub fn extract<C: Coordinate, V: VoxelData, S: VoxelSource<V>, M: MeshBuilder<V, C>>(
    source: S,
    block: &Block<C>,
    threshold: V::Density,
    transition_sides: TransitionSides,
    mesh_builder: M,
) -> (r: M)
    requires
        source.wf(),
        block.wf(),
        forall|idx: HighResolutionVoxelIndex|
            idx.valid_for(block.subdivisions as int) ==> #[trigger] source.admits_transition_index(
                idx,
            ),
    ensures
        mesh_builder.triangles().len() <= r.triangles().len(),
        forall|t: int|
            0 <= t < mesh_builder.triangles().len() ==> #[trigger] r.triangles()[t]
                == mesh_builder.triangles()[t],
        mesh_builder.num_vertices() <= r.num_vertices(),
        forall|t: int|
            mesh_builder.triangles().len() <= t < r.triangles().len() ==> tri_valid(
                #[trigger] r.triangles()[t],
                r.num_vertices(),
            ),
        (forall|v: V|
            source.may_yield(v) ==> !v.density_spec().inside_spec(threshold)) ==> (r.triangles()
            == mesh_builder.triangles() && r.num_vertices() == mesh_builder.num_vertices()),
        (forall|v: V| source.may_yield(v) ==> v.density_spec().inside_spec(threshold)) ==> (
        r.triangles() == mesh_builder.triangles() && r.num_vertices()
            == mesh_builder.num_vertices()),
        exists|w: Extractor<C, V, S, M>|
            {
                &&& (#[trigger] w.transition_sweep_total()) >= 0
                &&& w.block_spec() == *block
                &&& w.threshold_spec() == threshold
                &&& w.sides_spec() == transition_sides
                &&& (forall|v: V| #[trigger] w.may_yield(v) == source.may_yield(v))
                &&& (forall|a: int, b: int, c: int|
                    crate::density_caching::is_block_addr(block.subdivisions as int, a, b, c)
                        ==> source.may_yield(#[trigger] w.voxel_value(a, b, c)))
                &&& (transition_sides.is_empty_spec() ==> w.transition_sweep_total() == 0)
                &&& r.triangles().len() == mesh_builder.triangles().len() + w.regular_sweep_total()
                    + w.transition_sweep_total()
            },
{
    let extractor = Extractor::new(source, block, threshold, transition_sides, mesh_builder);
    proof {
        if forall|v: V| source.may_yield(v) ==> !v.density_spec().inside_spec(threshold) {
            assert forall|v: V| extractor.may_yield(v) implies !v.density_spec().inside_spec(
                extractor.threshold_spec(),
            ) by {
                assert(source.may_yield(v) ==> !v.density_spec().inside_spec(threshold));
            }
        }
        if forall|v: V| source.may_yield(v) ==> v.density_spec().inside_spec(threshold) {
            assert forall|v: V| extractor.may_yield(v) implies v.density_spec().inside_spec(
                extractor.threshold_spec(),
            ) by {
                assert(source.may_yield(v) ==> v.density_spec().inside_spec(threshold));
            }
        }
    }
    let ghost e0 = extractor;
    let r = extractor.extract();
    proof {
        let w = choose|w: Extractor<C, V, S, M>|
            {
                &&& (#[trigger] w.transition_sweep_total()) >= 0
                &&& w.subs() == e0.subs()
                &&& w.block_spec() == e0.block_spec()
                &&& w.threshold_spec() == e0.threshold_spec()
                &&& w.sides_spec() == e0.sides_spec()
                &&& (forall|v: V| #[trigger] w.may_yield(v) == e0.may_yield(v))
                &&& (forall|a: int, b: int, c: int|
                    crate::density_caching::is_block_addr(e0.subs(), a, b, c)
                        ==> #[trigger] w.voxel_value(a, b, c) == e0.voxel_value(a, b, c))
                &&& w.regular_sweep_total() == e0.regular_sweep_total()
                &&& (e0.sides_spec().is_empty_spec() ==> w.transition_sweep_total() == 0)
                &&& r.triangles().len() == e0.triangles().len() + w.regular_sweep_total()
                    + w.transition_sweep_total()
            };
        e0.lemma_block_values_may_yield();
        assert forall|v: V| #[trigger] w.may_yield(v) == source.may_yield(v) by {
            assert(w.may_yield(v) == e0.may_yield(v));
        }
        assert forall|a: int, b: int, c: int|
            crate::density_caching::is_block_addr(block.subdivisions as int, a, b, c) implies source.may_yield(
            #[trigger] w.voxel_value(a, b, c),
        ) by {
            assert(crate::density_caching::is_block_addr(e0.subs(), a, b, c));
            assert(w.voxel_value(a, b, c) == e0.voxel_value(a, b, c));
            assert(e0.may_yield(e0.voxel_value(a, b, c)));
            assert(w.may_yield(w.voxel_value(a, b, c)) == e0.may_yield(e0.voxel_value(a, b, c)));
        }
    }
    r
}

/// Extracts an iso-surface mesh for a [`DataField`]: the field is queried in
/// world coordinates through the block context.  Same guarantees as
/// [`extract`].
pub fn extract_from_field<C: Coordinate, V: VoxelData, FIELD: DataField<V, C>, M: MeshBuilder<
    V,
    C,
>>(
    field: FIELD,
    block: &Block<C>,
    threshold: V::Density,
    transition_sides: TransitionSides,
    mesh_builder: M,
) -> (r: M)
    requires
        block.wf(),
    ensures
        mesh_builder.triangles().len() <= r.triangles().len(),
        forall|t: int|
            0 <= t < mesh_builder.triangles().len() ==> #[trigger] r.triangles()[t]
                == mesh_builder.triangles()[t],
        mesh_builder.num_vertices() <= r.num_vertices(),
        forall|t: int|
            mesh_builder.triangles().len() <= t < r.triangles().len() ==> tri_valid(
                #[trigger] r.triangles()[t],
                r.num_vertices(),
            ),
        (forall|v: V| field.may_yield(v) ==> !v.density_spec().inside_spec(threshold)) ==> (
        r.triangles() == mesh_builder.triangles() && r.num_vertices()
            == mesh_builder.num_vertices()),
        (forall|v: V| field.may_yield(v) ==> v.density_spec().inside_spec(threshold)) ==> (
        r.triangles() == mesh_builder.triangles() && r.num_vertices()
            == mesh_builder.num_vertices()),
        exists|w: Extractor<C, V, WorldMappingVoxelSource<FIELD, C>, M>|
            {
                &&& (#[trigger] w.transition_sweep_total()) >= 0
                &&& w.block_spec() == *block
                &&& w.threshold_spec() == threshold
                &&& w.sides_spec() == transition_sides
                &&& (forall|v: V| #[trigger] w.may_yield(v) == field.may_yield(v))
                &&& (forall|a: int, b: int, c: int|
                    crate::density_caching::is_block_addr(block.subdivisions as int, a, b, c)
                        ==> field.may_yield(#[trigger] w.voxel_value(a, b, c)))
                &&& (transition_sides.is_empty_spec() ==> w.transition_sweep_total() == 0)
                &&& r.triangles().len() == mesh_builder.triangles().len() + w.regular_sweep_total()
                    + w.transition_sweep_total()
            },
{
    let source = WorldMappingVoxelSource { field, block: *block };
    let extractor = Extractor::new(source, block, threshold, transition_sides, mesh_builder);
    proof {
        if forall|v: V| field.may_yield(v) ==> !v.density_spec().inside_spec(threshold) {
            assert forall|v: V| extractor.may_yield(v) implies !v.density_spec().inside_spec(
                extractor.threshold_spec(),
            ) by {
                assert(source.may_yield(v) == field.may_yield(v));
                assert(field.may_yield(v) ==> !v.density_spec().inside_spec(threshold));
            }
        }
        if forall|v: V| field.may_yield(v) ==> v.density_spec().inside_spec(threshold) {
            assert forall|v: V| extractor.may_yield(v) implies v.density_spec().inside_spec(
                extractor.threshold_spec(),
            ) by {
                assert(source.may_yield(v) == field.may_yield(v));
                assert(field.may_yield(v) ==> v.density_spec().inside_spec(threshold));
            }
        }
    }
    let ghost e0 = extractor;
    let r = extractor.extract();
    proof {
        let w = choose|w: Extractor<C, V, WorldMappingVoxelSource<FIELD, C>, M>|
            {
                &&& (#[trigger] w.transition_sweep_total()) >= 0
                &&& w.subs() == e0.subs()
                &&& w.block_spec() == e0.block_spec()
                &&& w.threshold_spec() == e0.threshold_spec()
                &&& w.sides_spec() == e0.sides_spec()
                &&& (forall|v: V| #[trigger] w.may_yield(v) == e0.may_yield(v))
                &&& (forall|a: int, b: int, c: int|
                    crate::density_caching::is_block_addr(e0.subs(), a, b, c)
                        ==> #[trigger] w.voxel_value(a, b, c) == e0.voxel_value(a, b, c))
                &&& w.regular_sweep_total() == e0.regular_sweep_total()
                &&& (e0.sides_spec().is_empty_spec() ==> w.transition_sweep_total() == 0)
                &&& r.triangles().len() == e0.triangles().len() + w.regular_sweep_total()
                    + w.transition_sweep_total()
            };
        e0.lemma_block_values_may_yield();
        assert forall|v: V| #[trigger] w.may_yield(v) == field.may_yield(v) by {
            assert(w.may_yield(v) == e0.may_yield(v));
            assert(e0.may_yield(v) == source.may_yield(v));
            assert(source.may_yield(v) == field.may_yield(v));
        }
        assert forall|a: int, b: int, c: int|
            crate::density_caching::is_block_addr(block.subdivisions as int, a, b, c) implies field.may_yield(
            #[trigger] w.voxel_value(a, b, c),
        ) by {
            assert(crate::density_caching::is_block_addr(e0.subs(), a, b, c));
            assert(w.voxel_value(a, b, c) == e0.voxel_value(a, b, c));
            assert(e0.may_yield(e0.voxel_value(a, b, c)));
            assert(w.may_yield(w.voxel_value(a, b, c)) == e0.may_yield(e0.voxel_value(a, b, c)));
            assert(e0.may_yield(e0.voxel_value(a, b, c)) == source.may_yield(
                e0.voxel_value(a, b, c),
            ));
            assert(source.may_yield(e0.voxel_value(a, b, c)) == field.may_yield(
                e0.voxel_value(a, b, c),
            ));
        }
    }
    r
}

} // verus!
