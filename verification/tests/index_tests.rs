//! Tests of the index conversions between a block and its double-resolution
//! neighbours.

use transvoxel::tables_wrapper::{RegularVertexData, TransitionVertexData};
use transvoxel::transition_sides::TransitionSide::{HighX, HighZ, LowZ};
use transvoxel::voxel_coordinates::{HighResolutionVoxelIndex, RegularVoxelIndex};

#[test]
fn index_conversion() {
    let this_block_size = 5;
    let i = HighResolutionVoxelIndex::from(LowZ, 2, 3, -1, 0, 1);
    assert_eq!(
        i.to_higher_res_neighbour_block_index(this_block_size),
        RegularVoxelIndex { x: 3, y: 6, z: 11 }
    );
}

#[test]
fn index_conversion2() {
    let this_block_size = 5;
    let i = HighResolutionVoxelIndex::from(HighX, 2, 3, -1, 0, 1);
    assert_eq!(
        i.to_higher_res_neighbour_block_index(this_block_size),
        RegularVoxelIndex { x: -1, y: 6, z: 3 }
    );
}

#[test]
fn index_conversion3() {
    let this_block_size = 5;
    let i = HighResolutionVoxelIndex::from(HighZ, 2, 3, 1, 1, -1);
    assert_eq!(
        i.to_higher_res_neighbour_block_index(this_block_size),
        RegularVoxelIndex { x: 5, y: 7, z: 1 }
    );
}

#[test]
fn regular_vertex_data_decoding() {
    // 0x6201: edge between corners 0 and 1, reusable from the cell one step
    // back along Y and Z, under slot 2.
    let vd = RegularVertexData(0x6201);
    assert_eq!(vd.voxel_a_index().0, 0);
    assert_eq!(vd.voxel_b_index().0, 1);
    assert!(!vd.new_vertex());
    assert_eq!(vd.reuse_dx(), 0);
    assert_eq!(vd.reuse_dy(), -1);
    assert_eq!(vd.reuse_dz(), -1);
    assert_eq!(vd.reuse_index().0, 2);
    // 0x8337: edge between corners 3 and 7, fresh vertex stored in slot 3.
    let vd = RegularVertexData(0x8337);
    assert_eq!(vd.voxel_a_index().0, 3);
    assert_eq!(vd.voxel_b_index().0, 7);
    assert!(vd.new_vertex());
    assert_eq!(vd.reuse_dx(), 0);
    assert_eq!(vd.reuse_dy(), 0);
    assert_eq!(vd.reuse_dz(), 0);
    assert_eq!(vd.reuse_index().0, 3);
}

#[test]
fn transition_vertex_data_decoding() {
    // 0x1356: edge between grid points 5 and 6, reused from the cell one
    // step back along U, under slot 3.
    let vd = TransitionVertexData(0x1356);
    assert!(vd.reuse());
    assert_eq!(vd.reuse_du(), -1);
    assert_eq!(vd.reuse_dv(), 0);
    assert!(!vd.new_reusable());
    assert_eq!(vd.reuse_index().0, 3);
    assert_eq!(vd.grid_point_a_index().0, 5);
    assert_eq!(vd.grid_point_b_index().0, 6);
    // 0x8859: edge between grid points 5 and 9, fresh vertex stored in
    // slot 8.
    let vd = TransitionVertexData(0x8859);
    assert!(!vd.reuse());
    assert!(vd.new_reusable());
    assert_eq!(vd.reuse_index().0, 8);
    assert_eq!(vd.grid_point_a_index().0, 5);
    assert_eq!(vd.grid_point_b_index().0, 9);
}
