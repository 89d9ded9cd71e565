//! Tests of the extraction engine over a simple f32 numeric type.

use std::cell::Cell;
use std::rc::Rc;

use rand::{Rng, SeedableRng};

use transvoxel::extraction::{extract, extract_from_field};
use transvoxel::generic_mesh::{GenericMeshBuilder, Mesh, Triangle};
use transvoxel::traits::{Coordinate, Density};
use transvoxel::transition_sides::{no_side, TransitionSide, TransitionSides};
use transvoxel::voxel_coordinates::{HighResolutionVoxelIndex, RegularVoxelIndex};
use transvoxel::voxel_source::{Block, DataField, VoxelSource, WorldMappingVoxelSource};

/// A plain f32 serving as both coordinate and density.
#[derive(Clone, Copy, Debug, PartialEq, Default)]
pub struct Num(pub f32);

impl Coordinate for Num {
    fn plus_spec(self, other: Self) -> Self {
        Num(self.0 + other.0)
    }
    fn minus_spec(self, other: Self) -> Self {
        Num(self.0 - other.0)
    }
    fn times_spec(self, other: Self) -> Self {
        Num(self.0 * other.0)
    }
    fn ratio_spec(a: isize, b: usize) -> Self {
        Num(a as f32 / b as f32)
    }
    fn half_spec(a: isize) -> Self {
        Num(0.5 * a as f32)
    }
    fn shrink_factor_spec() -> Self {
        Num(0.15)
    }
    fn plus(self, other: Self) -> Self {
        Num(self.0 + other.0)
    }
    fn minus(self, other: Self) -> Self {
        Num(self.0 - other.0)
    }
    fn times(self, other: Self) -> Self {
        Num(self.0 * other.0)
    }
    fn from_ratio(a: isize, b: usize) -> Self {
        Num(a as f32 / b as f32)
    }
    fn half(a: isize) -> Self {
        Num(0.5 * a as f32)
    }
    fn shrink_factor() -> Self {
        Num(0.15)
    }
}

impl Density for Num {
    fn inside_spec(self, threshold: Self) -> bool {
        self.0 > threshold.0
    }
    fn interp_spec(a: Self, b: Self, threshold: Self) -> Self {
        Self::interp(a, b, threshold)
    }
    fn diff_spec(self, other: Self) -> Self {
        Num(self.0 - other.0)
    }
    fn gradients_to_normal_spec(x_gradient: Self, y_gradient: Self, z_gradient: Self) -> [Self; 3] {
        Self::gradients_to_normal(x_gradient, y_gradient, z_gradient)
    }
    fn inside(&self, threshold: &Self) -> bool {
        self.0 > threshold.0
    }
    fn interp(a: Self, b: Self, threshold: Self) -> Self {
        if (b.0 - a.0).abs() > f32::EPSILON {
            Num((threshold.0 - a.0) / (b.0 - a.0))
        } else {
            Num(0.5)
        }
    }
    fn diff(&self, other: Self) -> Self {
        Num(self.0 - other.0)
    }
    fn gradients_to_normal(x_gradient: Self, y_gradient: Self, z_gradient: Self) -> [Self; 3] {
        let norm = (x_gradient.0 * x_gradient.0
            + y_gradient.0 * y_gradient.0
            + z_gradient.0 * z_gradient.0)
            .sqrt();
        if norm > f32::EPSILON {
            [
                Num(-x_gradient.0 / norm),
                Num(-y_gradient.0 / norm),
                Num(-z_gradient.0 / norm),
            ]
        } else {
            [Num(0.0), Num(0.0), Num(0.0)]
        }
    }
}

/// A dense grid of densities: regular voxels from -1 to block_size + 1, plus
/// per-face high resolution voxels.
pub struct DensityArray {
    block_size: usize,
    data: Vec<f32>,
    inter_data: Vec<f32>,
}

impl DensityArray {
    pub fn new(block_size: usize) -> Self {
        let n = block_size + 3;
        let faces = 6 * block_size * block_size * 5 * 5 * 5;
        DensityArray {
            block_size,
            data: vec![0.0; n * n * n],
            inter_data: vec![0.0; faces],
        }
    }

    fn data_index(&self, x: isize, y: isize, z: isize) -> usize {
        let n = self.block_size + 3;
        (x + 1) as usize * n * n + (y + 1) as usize * n + (z + 1) as usize
    }

    pub fn set(&mut self, x: isize, y: isize, z: isize, value: f32) {
        let i = self.data_index(x, y, z);
        self.data[i] = value;
    }

    fn inter_index(
        &self,
        side: TransitionSide,
        cell_u: usize,
        cell_v: usize,
        du: isize,
        dv: isize,
        dw: isize,
    ) -> usize {
        let n = self.block_size;
        ((((side.index() * n + cell_u) * n + cell_v) * 5 + (du + 1) as usize) * 5
            + (dv + 1) as usize)
            * 5
            + (dw + 1) as usize
    }

    pub fn set_inter(
        &mut self,
        side: TransitionSide,
        cell_u: usize,
        cell_v: usize,
        du: isize,
        dv: isize,
        dw: isize,
        value: f32,
    ) {
        let i = self.inter_index(side, cell_u, cell_v, du, dv, dw);
        self.inter_data[i] = value;
    }
}

impl VoxelSource<Num> for DensityArray {
    fn wf(self) -> bool {
        true
    }
    fn may_yield(self, _data: Num) -> bool {
        true
    }
    fn admits_transition_index(self, _index: HighResolutionVoxelIndex) -> bool {
        true
    }
    fn get_density(&mut self, voxel_index: &RegularVoxelIndex) -> Num {
        Num(self.data[self.data_index(voxel_index.x, voxel_index.y, voxel_index.z)])
    }
    fn get_transition_density(&mut self, index: &HighResolutionVoxelIndex) -> Num {
        if index.delta.u % 2 != 0 || index.delta.v % 2 != 0 {
            let i = self.inter_index(
                index.cell.side,
                index.cell.cell_u,
                index.cell.cell_v,
                index.delta.u,
                index.delta.v,
                index.delta.w,
            );
            Num(self.inter_data[i])
        } else {
            // Both u and v even: only reached for gradients (non-zero w).
            // Normals do not matter in this implementation.
            Num(0.0)
        }
    }
}

pub fn extract_from_grid(
    field: DensityArray,
    block: &Block<Num>,
    threshold: f32,
    transition_sides: TransitionSides,
) -> Mesh<Num> {
    extract(
        field,
        block,
        Num(threshold),
        transition_sides,
        GenericMeshBuilder::new(),
    )
    .build()
}

fn tri_positions(t: &Triangle<Num>) -> [[f32; 3]; 3] {
    let p = |k: usize| {
        [
            t.vertices[k].position[0].0,
            t.vertices[k].position[1].0,
            t.vertices[k].position[2].0,
        ]
    };
    [p(0), p(1), p(2)]
}

fn tri_normals(t: &Triangle<Num>) -> [[f32; 3]; 3] {
    let p = |k: usize| {
        [
            t.vertices[k].normal[0].0,
            t.vertices[k].normal[1].0,
            t.vertices[k].normal[2].0,
        ]
    };
    [p(0), p(1), p(2)]
}

/// Whether the actual triangle has exactly the expected vertex positions, up
/// to rotation of the triangle.
fn same_tri(actual: &Triangle<Num>, expected: &[[f32; 3]; 3]) -> bool {
    let a = tri_positions(actual);
    for r in 0..3 {
        if (0..3).all(|k| a[(k + r) % 3] == expected[k]) {
            return true;
        }
    }
    false
}

fn same_tri_with_normals(
    actual: &Triangle<Num>,
    expected: &[[f32; 3]; 3],
    expected_normals: &[[f32; 3]; 3],
) -> bool {
    let a = tri_positions(actual);
    let an = tri_normals(actual);
    for r in 0..3 {
        if (0..3).all(|k| a[(k + r) % 3] == expected[k] && an[(k + r) % 3] == expected_normals[k])
        {
            return true;
        }
    }
    false
}

/// Checks that the actual triangles are exactly the expected ones, in any
/// order and winding rotation.
fn assert_tris(actual: Vec<Triangle<Num>>, expected: Vec<[[f32; 3]; 3]>) {
    let mut remaining = actual.clone();
    for e in &expected {
        match remaining.iter().position(|a| same_tri(a, e)) {
            Some(idx) => {
                remaining.remove(idx);
            }
            None => panic!("expected triangle {:?} not found in {:?}", e, actual),
        }
    }
    assert!(
        remaining.is_empty(),
        "unexpected extra triangles: {:?}",
        remaining
    );
}

/// The triangles wholly inside the axis-aligned cube at (min_x, min_y,
/// min_z) with the given edge.
fn restrict(
    tris: Vec<Triangle<Num>>,
    min_x: f32,
    min_y: f32,
    min_z: f32,
    size: f32,
) -> Vec<Triangle<Num>> {
    let in_cube = |p: &[f32; 3]| {
        p[0] >= min_x
            && p[0] <= min_x + size
            && p[1] >= min_y
            && p[1] <= min_y + size
            && p[2] >= min_z
            && p[2] <= min_z + size
    };
    tris.into_iter()
        .filter(|t| tri_positions(t).iter().all(|p| in_cube(p)))
        .collect()
}

#[test]
fn it_works() {
    assert_eq!(2 + 2, 4);
}

#[test]
fn empty_extraction() {
    let f = DensityArray::new(10);
    let b = Block::from([Num(0.0), Num(0.0), Num(0.0)], Num(10.0), 10);
    let m = extract_from_grid(f, &b, 0.5, no_side());
    assert_eq!(m.num_tris(), 0);
}

#[test]
fn one_cube_corner_gives_one_triangle() {
    let mut f = DensityArray::new(1);
    f.set(0, 0, 0, 1.0);
    let b = Block::from([Num(0.0), Num(0.0), Num(0.0)], Num(1.0), 1);
    let m = extract_from_grid(f, &b, 0.5, no_side());
    assert_tris(
        m.tris(),
        vec![[[0.5, 0.0, 0.0], [0.0, 0.5, 0.0], [0.0, 0.0, 0.5]]],
    );
}

#[test]
fn another_one_cube_corner() {
    let mut f = DensityArray::new(3);
    f.set(3, 0, 0, 1.0);
    let b = Block::from([Num(0.0), Num(0.0), Num(0.0)], Num(3.0), 3);
    let m = extract_from_grid(f, &b, 0.5, no_side());
    assert_tris(
        m.tris(),
        vec![[[2.5, 0.0, 0.0], [3.0, 0.0, 0.5], [3.0, 0.5, 0.0]]],
    );
}

#[test]
fn two_corners_give_two_triangles_in_one_cube() {
    let mut f = DensityArray::new(1);
    f.set(0, 0, 0, 1.0);
    f.set(1, 0, 0, 1.0);
    let b = Block::from([Num(0.0), Num(0.0), Num(0.0)], Num(1.0), 1);
    let m = extract_from_grid(f, &b, 0.5, no_side());
    assert_tris(
        m.tris(),
        vec![
            [[1.0, 0.0, 0.5], [0.0, 0.5, 0.0], [0.0, 0.0, 0.5]],
            [[0.0, 0.5, 0.0], [1.0, 0.0, 0.5], [1.0, 0.5, 0.0]],
        ],
    );
}

#[test]
fn basic_normals() {
    // Extract a flat square (constant z): the normals should point to +Z.
    let mut f = DensityArray::new(1);
    for x in -1..3 {
        for y in -1..3 {
            f.set(x, y, 0, 1.0);
        }
    }
    let b = Block::from([Num(0.0), Num(0.0), Num(0.0)], Num(1.0), 1);
    let m = extract_from_grid(f, &b, 0.5, no_side());
    let tris = m.tris();
    assert_eq!(tris.len(), 2);
    let first_expected = [[0.0, 0.0, 0.5], [1.0, 0.0, 0.5], [1.0, 1.0, 0.5]];
    let up = [[0.0, 0.0, 1.0], [0.0, 0.0, 1.0], [0.0, 0.0, 1.0]];
    let second_expected = [[0.0, 0.0, 0.5], [1.0, 1.0, 0.5], [0.0, 1.0, 0.5]];
    let found_first = tris
        .iter()
        .any(|t| same_tri_with_normals(t, &first_expected, &up));
    let found_second = tris.iter().any(|t| same_tri(t, &second_expected));
    assert!(found_first, "missing flat triangle with +Z normals");
    assert!(found_second, "missing second flat triangle");
}

#[test]
fn ambiguous_case() {
    // First cell
    let mut f = DensityArray::new(1);
    f.set(0, 0, 0, 1.0);
    f.set(0, 0, 1, 1.0);
    f.set(0, 1, 0, 1.0);
    f.set(0, 1, 1, 1.0);
    f.set(1, 1, 0, 1.0);
    f.set(1, 0, 1, 1.0);
    let b = Block::from([Num(0.0), Num(0.0), Num(0.0)], Num(1.0), 1);
    let m = extract_from_grid(f, &b, 0.5, no_side());
    assert_eq!(m.tris().len(), 4);
    // Second cell (+x from the first one)
    let mut f = DensityArray::new(1);
    f.set(0, 1, 0, 1.0);
    f.set(0, 0, 1, 1.0);
    let b = Block::from([Num(1.0), Num(1.0), Num(1.0)], Num(1.0), 1);
    let m = extract_from_grid(f, &b, 0.5, no_side());
    assert_tris(
        m.tris(),
        vec![
            [[1.0, 1.5, 1.0], [1.5, 2.0, 1.0], [1.0, 2.0, 1.5]],
            [[1.0, 1.0, 1.5], [1.0, 1.5, 2.0], [1.5, 1.0, 2.0]],
        ],
    );
}

#[test]
fn vertices_are_reused_within_a_cell() {
    let mut f = DensityArray::new(1);
    f.set(0, 0, 0, 1.0);
    f.set(1, 0, 0, 1.0);
    let b = Block::from([Num(0.0), Num(0.0), Num(0.0)], Num(1.0), 1);
    let m = extract_from_grid(f, &b, 0.5, no_side());
    assert_eq!(m.tris().len(), 2);
    // 2 vertices should be reused to form a quad between the 2 triangles
    // => Total only 4 vertices instead of 6
    let positions_for_4_vertices = 4 * 3;
    assert_eq!(m.positions.len(), positions_for_4_vertices);
}

#[test]
fn vertices_are_reused_between_cells() {
    let mut f = DensityArray::new(2);
    f.set(0, 2, 2, 1.0);
    f.set(1, 2, 2, 1.0);
    let b = Block::from([Num(0.0), Num(0.0), Num(0.0)], Num(2.0), 2);
    let m = extract_from_grid(f, &b, 0.5, no_side());
    assert_eq!(m.tris().len(), 3);
    // 2 vertices reused within the first cell, 2 more between cells
    // => Total only 5 vertices instead of 9
    let positions_for_5_vertices = 5 * 3;
    assert_eq!(m.positions.len(), positions_for_5_vertices);
}

#[test]
fn trivial_transition_cell() {
    // Field left empty
    let f = DensityArray::new(10);
    let b = Block::from([Num(0.0), Num(0.0), Num(0.0)], Num(10.0), 10);
    let transition_sides = TransitionSides::empty().adding(TransitionSide::LowZ);
    let m = extract_from_grid(f, &b, 0.5, transition_sides);
    assert_eq!(m.tris().len(), 0);
}

#[test]
fn simplest_transition_cell() {
    let mut f = DensityArray::new(10);
    // Cells in the middle of a transition block face ensure actual cell
    // shrinking.  This produces 4 "quarters" of a pyramid (viewed from
    // z-top).
    f.set(5, 5, 0, 1.0);
    let b = Block::from([Num(0.0), Num(0.0), Num(0.0)], Num(100.0), 10);
    let transition_sides = TransitionSides::empty().adding(TransitionSide::LowZ);
    let m = extract_from_grid(f, &b, 0.5, transition_sides);
    // shrink = 0.15, cell size = 10 => transition width 1.5,
    // 5.75 = transition width + half the remaining
    let v_top = [50.0, 50.0, 5.75];
    let q1v2 = [55.0, 50.0, 1.5];
    let q1v3 = [50.0, 55.0, 1.5];
    let q1v4 = [50.0, 52.5, 0.0];
    let q1v5 = [52.5, 50.0, 0.0];
    let q2v2 = [50.0, 55.0, 1.5];
    let q2v3 = [45.0, 50.0, 1.5];
    let q2v4 = [47.5, 50.0, 0.0];
    let q2v5 = [50.0, 52.5, 0.0];
    let q3v2 = [45.0, 50.0, 1.5];
    let q3v3 = [50.0, 45.0, 1.5];
    let q3v4 = [50.0, 47.5, 0.0];
    let q3v5 = [47.5, 50.0, 0.0];
    let q4v2 = [50.0, 45.0, 1.5];
    let q4v3 = [55.0, 50.0, 1.5];
    let q4v4 = [52.5, 50.0, 0.0];
    let q4v5 = [50.0, 47.5, 0.0];
    // Only Q1, which also exercises the restrict helper
    assert_tris(
        restrict(m.tris(), 50.0, 50.0, 0.0, 10.0),
        vec![
            [v_top, q1v2, q1v3],
            [q1v4, q1v3, q1v2],
            [q1v2, q1v5, q1v4],
        ],
    );
    assert_tris(
        m.tris(),
        vec![
            [v_top, q1v2, q1v3],
            [q1v4, q1v3, q1v2],
            [q1v2, q1v5, q1v4],
            [v_top, q2v2, q2v3],
            [q2v4, q2v3, q2v2],
            [q2v2, q2v5, q2v4],
            [v_top, q3v2, q3v3],
            [q3v4, q3v3, q3v2],
            [q3v2, q3v5, q3v4],
            [v_top, q4v2, q4v3],
            [q4v4, q4v3, q4v2],
            [q4v2, q4v5, q4v4],
        ],
    );
}

#[test]
fn simple_transition_cell() {
    let mut f = DensityArray::new(3);
    f.set(1, 1, 0, 1.0);
    // These go together: they describe the same voxel requested by 2
    // different cells.
    f.set_inter(TransitionSide::LowZ, 1, 1, 0, 1, 0, 1.0);
    f.set_inter(TransitionSide::LowZ, 0, 1, 2, 1, 0, 1.0);
    let b = Block::from([Num(0.0), Num(0.0), Num(0.0)], Num(30.0), 3);
    let transition_sides = TransitionSides::empty().adding(TransitionSide::LowZ);
    let m = extract_from_grid(f, &b, 0.5, transition_sides);
    let v_top = [10.0, 10.0, 5.75];
    let q1v2 = [15.0, 10.0, 1.5];
    let q1v3 = [10.0, 15.0, 1.5];
    let q1v4 = [12.5, 10.0, 0.0];
    let q1v5 = [12.5, 15.0, 0.0];
    let q1v6 = [10.0, 17.5, 0.0];
    assert_tris(
        restrict(m.tris(), 10.0, 10.0, 0.0, 10.0),
        vec![
            [v_top, q1v2, q1v3],
            [q1v2, q1v4, q1v5],
            [q1v5, q1v3, q1v2],
            [q1v5, q1v6, q1v3],
        ],
    );
}

#[test]
fn simplest_transition_cell_non_negative_z() {
    let mut f = DensityArray::new(3);
    f.set(0, 1, 1, 1.0);
    let b = Block::from([Num(0.0), Num(0.0), Num(0.0)], Num(30.0), 3);
    let transition_sides = TransitionSides::empty().adding(TransitionSide::LowX);
    let m = extract_from_grid(f, &b, 0.5, transition_sides);
    let v_top = [5.75, 10.0, 10.0];
    let q1v2 = [1.5, 15.0, 10.0];
    let q1v3 = [1.5, 10.0, 15.0];
    let q1v4 = [0.0, 10.0, 12.5];
    let q1v5 = [0.0, 12.5, 10.0];
    assert_tris(
        restrict(m.tris(), 0.0, 10.0, 10.0, 10.0),
        vec![
            [v_top, q1v2, q1v3],
            [q1v4, q1v3, q1v2],
            [q1v2, q1v5, q1v4],
        ],
    );
}

/// A sphere of density, centered on (10, 10, 10): with threshold 0 the
/// density is 0 at distance 5 from the center, positive closer, negative
/// farther.
pub struct Sphere;

impl DataField<Num, Num> for Sphere {
    fn may_yield(self, _data: Num) -> bool {
        true
    }
    fn get_data(&mut self, x: Num, y: Num, z: Num) -> Num {
        let distance_from_center = ((x.0 - 10.0) * (x.0 - 10.0)
            + (y.0 - 10.0) * (y.0 - 10.0)
            + (z.0 - 10.0) * (z.0 - 10.0))
            .sqrt();
        Num(1.0 - distance_from_center / 5.0)
    }
}

#[test]
fn simple_sphere() {
    let block = Block::from([Num(0.0), Num(0.0), Num(0.0)], Num(20.0), 2);
    let source = WorldMappingVoxelSource {
        field: Sphere {},
        block,
    };
    let threshold = Num(0.0);
    let m = extract(source, &block, threshold, no_side(), GenericMeshBuilder::new()).build();
    let v_plus_x = [15.0, 10.0, 10.0];
    let v_minus_x = [5.0, 10.0, 10.0];
    let v_plus_y = [10.0, 15.0, 10.0];
    let v_minus_y = [10.0, 5.0, 10.0];
    let v_plus_z = [10.0, 10.0, 15.0];
    let v_minus_z = [10.0, 10.0, 5.0];
    assert_tris(
        m.tris(),
        vec![
            [v_plus_z, v_plus_x, v_plus_y],
            [v_plus_z, v_plus_y, v_minus_x],
            [v_plus_z, v_minus_x, v_minus_y],
            [v_plus_z, v_minus_y, v_plus_x],
            [v_minus_z, v_plus_x, v_minus_y],
            [v_minus_z, v_plus_y, v_plus_x],
            [v_minus_z, v_minus_x, v_plus_y],
            [v_minus_z, v_minus_y, v_minus_x],
        ],
    );
}

/// A constant field handing out zero everywhere.
pub struct ZeroField;

impl DataField<Num, Num> for ZeroField {
    fn may_yield(self, _data: Num) -> bool {
        true
    }
    fn get_data(&mut self, _x: Num, _y: Num, _z: Num) -> Num {
        Num(0.0)
    }
}

/// A field handing out a fresh random value on every call.
pub struct RandomField;

impl DataField<Num, Num> for RandomField {
    fn may_yield(self, _data: Num) -> bool {
        true
    }
    fn get_data(&mut self, _x: Num, _y: Num, _z: Num) -> Num {
        Num(rand::random::<f32>())
    }
}

/// Counts how often the extraction queries the underlying source.
pub struct CountingField<S> {
    pub calls: Rc<Cell<usize>>,
    underlying: S,
}

impl<S> CountingField<S> {
    pub fn new(underlying: S) -> (Self, Rc<Cell<usize>>) {
        let calls = Rc::new(Cell::new(0));
        (
            CountingField {
                calls: calls.clone(),
                underlying,
            },
            calls,
        )
    }
}

impl<S: VoxelSource<Num>> VoxelSource<Num> for CountingField<S> {
    fn wf(self) -> bool {
        true
    }
    fn may_yield(self, _data: Num) -> bool {
        true
    }
    fn admits_transition_index(self, _index: HighResolutionVoxelIndex) -> bool {
        true
    }
    fn get_density(&mut self, voxel_index: &RegularVoxelIndex) -> Num {
        self.calls.set(self.calls.get() + 1);
        self.underlying.get_density(voxel_index)
    }
    fn get_transition_density(&mut self, index: &HighResolutionVoxelIndex) -> Num {
        self.calls.set(self.calls.get() + 1);
        self.underlying.get_transition_density(index)
    }
}

#[test]
fn count_density_calls_minimal() {
    // Block with just 1 subdivision and empty
    let block = Block::from([Num(0.0), Num(0.0), Num(0.0)], Num(10.0), 1);
    // Regular: just query each voxel once for finding the case
    let (source, count) = CountingField::new(WorldMappingVoxelSource {
        field: ZeroField,
        block,
    });
    extract(source, &block, Num(0.5), no_side(), GenericMeshBuilder::new());
    assert_eq!(count.get(), 8);
    // With one transition: the 5 high-res-only face voxels are needed too
    let (source, count) = CountingField::new(WorldMappingVoxelSource {
        field: ZeroField,
        block,
    });
    let sides = TransitionSides::empty().adding(TransitionSide::LowX);
    extract(source, &block, Num(0.5), sides, GenericMeshBuilder::new());
    assert_eq!(count.get(), 13);
    // With two transition sides
    let (source, count) = CountingField::new(WorldMappingVoxelSource {
        field: ZeroField,
        block,
    });
    let sides = TransitionSides::empty()
        .adding(TransitionSide::LowX)
        .adding(TransitionSide::LowZ);
    extract(source, &block, Num(0.5), sides, GenericMeshBuilder::new());
    assert_eq!(count.get(), 18);
}

#[test]
fn count_density_calls_random() {
    // Block with 3 subdivisions and random densities
    let block = Block::from([Num(0.0), Num(0.0), Num(0.0)], Num(10.0), 3);
    let (source, count) = CountingField::new(WorldMappingVoxelSource {
        field: RandomField,
        block,
    });
    extract(source, &block, Num(0.5), no_side(), GenericMeshBuilder::new());
    // Min: 4x4x4 for determining the case
    // Max: 4x4x4 for the case + 6x4x4 (the halo, one slab per direction)
    assert!(count.get() >= 4 * 4 * 4);
    assert!(count.get() <= 4 * 4 * 4 + 6 * 4 * 4);
    // With one transition
    let (source, _count) = CountingField::new(WorldMappingVoxelSource {
        field: RandomField,
        block,
    });
    let sides = TransitionSides::empty().adding(TransitionSide::LowX);
    extract(source, &block, Num(0.5), sides, GenericMeshBuilder::new());
}

/// A field with density 1 only at the single world point (0, 1.5, 1).
pub struct SingleHighResPoint;

impl DataField<Num, Num> for SingleHighResPoint {
    fn may_yield(self, _data: Num) -> bool {
        true
    }
    fn get_data(&mut self, x: Num, y: Num, z: Num) -> Num {
        if (x.0 - 0.0).abs() > f32::EPSILON {
            Num(0.0)
        } else if (y.0 - 1.5).abs() > f32::EPSILON {
            Num(0.0)
        } else if (z.0 - 1.0).abs() > f32::EPSILON {
            Num(0.0)
        } else {
            Num(1.0)
        }
    }
}

#[test]
fn test_regular_cache_extended_loaded() {
    // A 3x3x3 block with low X as transition side (x == 0.0).
    // The only non-zero density is at (0.0, 1.5, 1.0), which means the
    // regular cell at (0, 1, 1) produces nothing, the transition cell
    // (LowX, u=1, v=1) produces something, and one of the produced
    // vertices needs the density gradient at (0.0, 1.0, 1.0), which reads
    // the regular voxel at (-1, 1, 1): the halo must load even though no
    // regular cell asked for it.
    let subdivisions = 3;
    let size = 3.0;
    let block = Block::from([Num(0.0), Num(0.0), Num(0.0)], Num(size), subdivisions);
    let sides = TransitionSides::empty().adding(TransitionSide::LowX);
    let m = extract_from_field(
        SingleHighResPoint,
        &block,
        Num(0.5),
        sides,
        GenericMeshBuilder::new(),
    )
    .build();
    assert!(m.num_tris() > 0);
}

#[test]
fn single_interior_corner_positions() {
    // A single positive corner far from all faces, with no transition side:
    // exact, shrink-free positions forming a small octahedron.
    let mut f = DensityArray::new(2);
    f.set(1, 1, 1, 1.0);
    let b = Block::from([Num(0.0), Num(0.0), Num(0.0)], Num(2.0), 2);
    let m = extract_from_grid(f, &b, 0.5, no_side());
    assert_eq!(m.num_tris(), 8);
    let expected = [
        [0.5, 1.0, 1.0],
        [1.5, 1.0, 1.0],
        [1.0, 0.5, 1.0],
        [1.0, 1.5, 1.0],
        [1.0, 1.0, 0.5],
        [1.0, 1.0, 1.5],
    ];
    for t in m.tris() {
        for p in tri_positions(&t) {
            assert!(
                expected.contains(&p),
                "unexpected vertex position {:?}",
                p
            );
        }
    }
}

#[test]
fn transition_case_two_cell() {
    // A single positive high resolution voxel in the middle of a transition
    // face gives the two-triangle transition triangulation, with two of the
    // six vertices shared (four unique vertices).
    let mut f = DensityArray::new(1);
    f.set_inter(TransitionSide::LowZ, 0, 0, 1, 1, 0, 1.0);
    let b = Block::from([Num(0.0), Num(0.0), Num(0.0)], Num(1.0), 1);
    let sides = TransitionSides::empty().adding(TransitionSide::LowZ);
    let m = extract_from_grid(f, &b, 0.5, sides);
    assert_eq!(m.num_tris(), 2);
    assert_eq!(m.positions.len(), 4 * 3);
}

/// A field continuous across the plane x = 1: density 1 at the single world
/// point (1, 0.5, 0.5), 0 everywhere else.
pub struct SeamPoint;

impl DataField<Num, Num> for SeamPoint {
    fn may_yield(self, _data: Num) -> bool {
        true
    }
    fn get_data(&mut self, x: Num, y: Num, z: Num) -> Num {
        if (x.0 - 1.0).abs() < 1e-6 && (y.0 - 0.5).abs() < 1e-6 && (z.0 - 0.5).abs() < 1e-6 {
            Num(1.0)
        } else {
            Num(0.0)
        }
    }
}

#[test]
fn transition_face_vertices_match_neighbour() {
    // Block A (one subdivision, HighX as a transition side) and block B
    // (its neighbour across x = 1, twice the subdivisions, no transition)
    // sample the same field.  Every vertex A emits on the shared face
    // x = 1 must also be emitted by B there.
    let block_a = Block::from([Num(0.0), Num(0.0), Num(0.0)], Num(1.0), 1);
    let sides_a = TransitionSides::empty().adding(TransitionSide::HighX);
    let mesh_a = extract_from_field(
        SeamPoint,
        &block_a,
        Num(0.5),
        sides_a,
        GenericMeshBuilder::new(),
    )
    .build();
    let block_b = Block::from([Num(1.0), Num(0.0), Num(0.0)], Num(1.0), 2);
    let mesh_b = extract_from_field(
        SeamPoint,
        &block_b,
        Num(0.5),
        no_side(),
        GenericMeshBuilder::new(),
    )
    .build();
    let face_vertices = |m: &Mesh<Num>| {
        let mut vs: Vec<[f32; 3]> = Vec::new();
        let n = m.positions.len() / 3;
        for i in 0..n {
            let p = [
                m.positions[3 * i].0,
                m.positions[3 * i + 1].0,
                m.positions[3 * i + 2].0,
            ];
            if (p[0] - 1.0).abs() < 1e-6 {
                vs.push(p);
            }
        }
        vs
    };
    let a_face = face_vertices(&mesh_a);
    let b_face = face_vertices(&mesh_b);
    assert!(!a_face.is_empty(), "block A emitted nothing on the shared face");
    for v in &a_face {
        assert!(
            b_face.contains(v),
            "vertex {:?} of block A is not among block B's face vertices {:?}",
            v,
            b_face
        );
    }
}

/// A field drawing a fresh value in [-1, 1) from a seeded generator on
/// every call.
pub struct SeededRandomField {
    rng: rand::rngs::StdRng,
}

impl DataField<Num, Num> for SeededRandomField {
    fn may_yield(self, _data: Num) -> bool {
        true
    }
    fn get_data(&mut self, _x: Num, _y: Num, _z: Num) -> Num {
        Num(self.rng.gen_range(-1.0..1.0))
    }
}

fn random_sides(rng: &mut rand::rngs::StdRng) -> TransitionSides {
    let mut sides = no_side();
    for i in 0..6 {
        if rng.gen_bool(0.5) {
            sides = sides.adding(TransitionSide::from_index(i));
        }
    }
    sides
}

#[test]
fn random_data() {
    // Just to get some small confidence that it doesn't crash
    let seed: u64 = rand::random();
    println!("Using seed {}", seed);
    let mut rng = rand::rngs::StdRng::seed_from_u64(seed);
    let subdivisions = rng.gen_range(2..30);
    let block = Block::from([Num(0.0), Num(0.0), Num(0.0)], Num(10.0), subdivisions);
    let sides = random_sides(&mut rng);
    let field = SeededRandomField { rng };
    let m = extract_from_field(field, &block, Num(0.5), sides, GenericMeshBuilder::new()).build();
    println!("Extracted mesh with {} tris", m.num_tris());
}

/// A constant field handing out one everywhere.
pub struct OneField;

impl DataField<Num, Num> for OneField {
    fn may_yield(self, _data: Num) -> bool {
        true
    }
    fn get_data(&mut self, _x: Num, _y: Num, _z: Num) -> Num {
        Num(1.0)
    }
}

#[test]
fn full_field_extraction_is_empty() {
    // A density above the threshold everywhere gives no surface either, with
    // or without transition sides.
    let b = Block::from([Num(0.0), Num(0.0), Num(0.0)], Num(4.0), 4);
    let m = extract_from_field(OneField, &b, Num(0.5), no_side(), GenericMeshBuilder::new())
        .build();
    assert_eq!(m.num_tris(), 0);
    let sides = TransitionSides::empty()
        .adding(TransitionSide::HighY)
        .adding(TransitionSide::LowZ);
    let m =
        extract_from_field(OneField, &b, Num(0.5), sides, GenericMeshBuilder::new()).build();
    assert_eq!(m.num_tris(), 0);
    assert_eq!(m.positions.len(), 0);
}
