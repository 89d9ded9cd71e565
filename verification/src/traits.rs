//! Numeric capability traits used by the extraction algorithm.
//!
//! The engine is generic over a coordinate type, a density type and a voxel
//! data type.  Each exec method is pinned to a spec-level counterpart, so that
//! the engine's own contracts can speak about the values it computes without
//! fixing any particular numeric representation.

use vstd::prelude::*;

verus! {

/// Trait that must be implemented for coordinates (x/y/z).
///
/// Implementations provide exact spec-level models of their arithmetic: every
/// exec operation returns precisely the value named by its spec counterpart,
/// so positions computed by the engine are pinned structurally.
pub trait Coordinate: Sized + Copy {
    /// Model of `plus`.
    spec fn plus_spec(self, other: Self) -> Self;

    /// Model of `minus`.
    spec fn minus_spec(self, other: Self) -> Self;

    /// Model of `times`.
    spec fn times_spec(self, other: Self) -> Self;

    /// Model of `from_ratio`.
    spec fn ratio_spec(a: isize, b: usize) -> Self;

    /// Model of `half`.
    spec fn half_spec(a: isize) -> Self;

    /// Model of `shrink_factor`.
    spec fn shrink_factor_spec() -> Self;

    /// Addition.
    fn plus(self, other: Self) -> (r: Self)
        ensures
            r == self.plus_spec(other),
    ;

    /// Subtraction.
    fn minus(self, other: Self) -> (r: Self)
        ensures
            r == self.minus_spec(other),
    ;

    /// Multiplication.
    fn times(self, other: Self) -> (r: Self)
        ensures
            r == self.times_spec(other),
    ;

    /// A value of this type representing the ratio a / b.
    fn from_ratio(a: isize, b: usize) -> (r: Self)
        requires
            b >= 1,
        ensures
            r == Self::ratio_spec(a, b),
    ;

    /// A value of this type representing a / 2.
    fn half(a: isize) -> (r: Self)
        ensures
            r == Self::half_spec(a),
    ;

    /// What portion of a cell space is reserved for placing transition cells
    /// (typically 0.15).  This is part of the trait rather than a constant or
    /// parameter, because the value is needed in the coordinate type.
    fn shrink_factor() -> (r: Self)
        ensures
            r == Self::shrink_factor_spec(),
    ;
}

/// Trait that must be implemented for a type to be used as a density by the
/// algorithm.
pub trait Density: Sized + Copy {
    /// Model of `inside`.
    spec fn inside_spec(self, threshold: Self) -> bool;

    /// Model of `interp`.
    spec fn interp_spec(a: Self, b: Self, threshold: Self) -> Self;

    /// Model of `diff`.
    spec fn diff_spec(self, other: Self) -> Self;

    /// Model of `gradients_to_normal`.
    spec fn gradients_to_normal_spec(x_gradient: Self, y_gradient: Self, z_gradient: Self) -> [
        Self;
        3
    ];

    /// How to determine whether a point with a given density is inside or
    /// outside the mesh (conventionally: the density exceeds the threshold).
    fn inside(&self, threshold: &Self) -> (r: bool)
        ensures
            r == self.inside_spec(*threshold),
    ;

    /// Interpolate to determine where between A and B the threshold is
    /// crossed (conventionally `(threshold - a) / (b - a)`, falling back to
    /// one half when A and B are too close to each other).
    fn interp(a: Self, b: Self, threshold: Self) -> (r: Self)
        ensures
            r == Self::interp_spec(a, b, threshold),
    ;

    /// Subtraction, producing one gradient component.
    fn diff(&self, other: Self) -> (r: Self)
        ensures
            r == self.diff_spec(other),
    ;

    /// Convert 3 directional gradients of the density to a vector orthogonal
    /// to the surface, pointing out of it (conventionally the normalised
    /// opposite of the gradient vector, or zero when the gradient is too
    /// small).
    fn gradients_to_normal(x_gradient: Self, y_gradient: Self, z_gradient: Self) -> (r: [Self; 3])
        ensures
            r == Self::gradients_to_normal_spec(x_gradient, y_gradient, z_gradient),
    ;
}

/// Trait that a type must implement to be used as voxel data (return values
/// of a voxel source, used as input by the algorithm).  Anything can be
/// stored, but the type has to provide a density for the algorithm to work
/// with.  Any additional data stored can be used by a custom mesh builder.
pub trait VoxelData: Sized + Copy {
    /// The type that acts as density.
    type Density: Density;

    /// Model of `density`.
    spec fn density_spec(self) -> Self::Density;

    /// How to get the density from a given data object.
    fn density(&self) -> (r: Self::Density)
        ensures
            r == self.density_spec(),
    ;
}

/// Every density is usable directly as voxel data carrying itself.
impl<D: Density> VoxelData for D {
    type Density = D;

    open spec fn density_spec(self) -> D {
        self
    }

    fn density(&self) -> (r: D) {
        *self
    }
}

} // verus!
