//! Tests extracting the same data at multiple levels of detail.

use std::time::{SystemTime, UNIX_EPOCH};

use noise::{HybridMulti, NoiseFn, OpenSimplex};
use rand::{Rng, SeedableRng};

use transvoxel::extraction::extract_from_field;
use transvoxel::generic_mesh::GenericMeshBuilder;
use transvoxel::traits::{Coordinate, Density};
use transvoxel::transition_sides::no_side;
use transvoxel::voxel_source::{Block, DataField};

/// A plain f32 serving as both coordinate and density.
#[derive(Clone, Copy, Debug, PartialEq, Default)]
pub struct Scalar(pub f32);

impl Coordinate for Scalar {
    fn plus_spec(self, other: Self) -> Self {
        Scalar(self.0 + other.0)
    }
    fn minus_spec(self, other: Self) -> Self {
        Scalar(self.0 - other.0)
    }
    fn times_spec(self, other: Self) -> Self {
        Scalar(self.0 * other.0)
    }
    fn ratio_spec(a: isize, b: usize) -> Self {
        Scalar(a as f32 / b as f32)
    }
    fn half_spec(a: isize) -> Self {
        Scalar(0.5 * a as f32)
    }
    fn shrink_factor_spec() -> Self {
        Scalar(0.15)
    }
    fn plus(self, other: Self) -> Self {
        Scalar(self.0 + other.0)
    }
    fn minus(self, other: Self) -> Self {
        Scalar(self.0 - other.0)
    }
    fn times(self, other: Self) -> Self {
        Scalar(self.0 * other.0)
    }
    fn from_ratio(a: isize, b: usize) -> Self {
        Scalar(a as f32 / b as f32)
    }
    fn half(a: isize) -> Self {
        Scalar(0.5 * a as f32)
    }
    fn shrink_factor() -> Self {
        Scalar(0.15)
    }
}

impl Density for Scalar {
    fn inside_spec(self, threshold: Self) -> bool {
        self.0 > threshold.0
    }
    fn interp_spec(a: Self, b: Self, threshold: Self) -> Self {
        Self::interp(a, b, threshold)
    }
    fn diff_spec(self, other: Self) -> Self {
        Scalar(self.0 - other.0)
    }
    fn gradients_to_normal_spec(x_gradient: Self, y_gradient: Self, z_gradient: Self) -> [Self; 3] {
        Self::gradients_to_normal(x_gradient, y_gradient, z_gradient)
    }
    fn inside(&self, threshold: &Self) -> bool {
        self.0 > threshold.0
    }
    fn interp(a: Self, b: Self, threshold: Self) -> Self {
        if (b.0 - a.0).abs() > f32::EPSILON {
            Scalar((threshold.0 - a.0) / (b.0 - a.0))
        } else {
            Scalar(0.5)
        }
    }
    fn diff(&self, other: Self) -> Self {
        Scalar(self.0 - other.0)
    }
    fn gradients_to_normal(x_gradient: Self, y_gradient: Self, z_gradient: Self) -> [Self; 3] {
        let norm = (x_gradient.0 * x_gradient.0
            + y_gradient.0 * y_gradient.0
            + z_gradient.0 * z_gradient.0)
            .sqrt();
        if norm > f32::EPSILON {
            [
                Scalar(-x_gradient.0 / norm),
                Scalar(-y_gradient.0 / norm),
                Scalar(-z_gradient.0 / norm),
            ]
        } else {
            [Scalar(0.0), Scalar(0.0), Scalar(0.0)]
        }
    }
}

/// A block of noise densities, sampled at integer positions, to check the
/// surface generation against.
pub struct NoiseContainer {
    pub buffer: Vec<Vec<Vec<f32>>>,
}

impl NoiseContainer {
    fn size(&self) -> usize {
        self.buffer.len()
    }

    fn block(dimensions: usize) -> NoiseContainer {
        let mut buffer = vec![vec![vec![0.0f32; dimensions]; dimensions]; dimensions];
        let normalizer = dimensions as f64;
        // An offset drawn from a time-seeded generator stands in for actual
        // randomness of the noise itself.
        let seed = SystemTime::now()
            .duration_since(UNIX_EPOCH)
            .expect("Time went backwards")
            .as_millis() as u64;
        let mut rng = rand_chacha::ChaCha8Rng::seed_from_u64(seed);
        let random_offset: Vec<f64> = (0..3).map(|_| rng.gen_range(0.0..1000.0)).collect();
        let surface_noise = HybridMulti::<OpenSimplex>::new(seed as u32);
        // The 1..dimensions-1 range keeps an enclosed container.
        for x in 1..dimensions - 1 {
            for y in 1..dimensions - 1 {
                for z in 1..dimensions - 1 {
                    buffer[x][y][z] = {
                        let normalized_x = random_offset[0] + x as f64 / normalizer;
                        let normalized_y = random_offset[1] + y as f64 / normalizer;
                        let normalized_z = random_offset[2] + z as f64 / normalizer;
                        surface_noise.get([normalized_x, normalized_y, normalized_z]) as f32
                    };
                }
            }
        }
        NoiseContainer { buffer }
    }
}

impl DataField<Scalar, Scalar> for &NoiseContainer {
    fn may_yield(self, _data: Scalar) -> bool {
        true
    }
    fn get_data(&mut self, x: Scalar, y: Scalar, z: Scalar) -> Scalar {
        let ix = x.0.round() as i32;
        let iy = y.0.round() as i32;
        let iz = z.0.round() as i32;
        if (ix < 0 || ix >= self.size() as i32)
            || (iy < 0 || iy >= self.size() as i32)
            || (iz < 0 || iz >= self.size() as i32)
        {
            return Scalar(0.0);
        }
        Scalar(self.buffer[ix as usize][iy as usize][iz as usize])
    }
}

/// Checks that extracting the surface at different resolutions completes.
#[test]
fn extract_field_in_multiple_resolution() {
    let noise = NoiseContainer::block(64);
    for resolution in 4..noise.buffer.len() {
        let block = Block::from(
            [Scalar(0.0), Scalar(0.0), Scalar(0.0)],
            Scalar(noise.buffer.len() as f32),
            resolution,
        );
        let _mesh = extract_from_field(
            &noise,
            &block,
            Scalar(0.0),
            no_side(),
            GenericMeshBuilder::new(),
        );
    }
}
