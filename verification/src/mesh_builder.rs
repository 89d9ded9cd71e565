//! Structs and traits used to customize mesh generation.

use vstd::prelude::*;

use crate::traits::{Coordinate, VoxelData};

verus! {

/// A world space position.
#[derive(Clone, Copy, Debug)]
pub struct Position<C: Coordinate> {
    /// X
    pub x: C,
    /// Y
    pub y: C,
    /// Z
    pub z: C,
}

impl<C: Coordinate> Position<C> {
    /// Model of `interp_toward`: each coordinate moves from `self` toward
    /// `other` by `factor` times the distance between them.
    pub open spec fn interp_toward_spec(self, other: Position<C>, factor: C) -> Position<C> {
        Position {
            x: self.x.plus_spec(factor.times_spec(other.x.minus_spec(self.x))),
            y: self.y.plus_spec(factor.times_spec(other.y.minus_spec(self.y))),
            z: self.z.plus_spec(factor.times_spec(other.z.minus_spec(self.z))),
        }
    }

    /// Interpolate between this `self` position and `other`, by the given
    /// `factor` (0 giving self, 1 giving other).
    pub fn interp_toward(&self, other: &Position<C>, factor: C) -> (r: Position<C>)
        ensures
            r == self.interp_toward_spec(*other, factor),
    {
        Position {
            x: self.x.plus(factor.times(other.x.minus(self.x))),
            y: self.y.plus(factor.times(other.y.minus(self.y))),
            z: self.z.plus(factor.times(other.z.minus(self.z))),
        }
    }

    /// Model of `scaled`.
    pub open spec fn scaled_spec(self, rhs: C) -> Position<C> {
        Position { x: self.x.times_spec(rhs), y: self.y.times_spec(rhs), z: self.z.times_spec(rhs) }
    }

    /// This position with every coordinate multiplied by `rhs`.
    pub fn scaled(&self, rhs: C) -> (r: Position<C>)
        ensures
            r == self.scaled_spec(rhs),
    {
        Position { x: self.x.times(rhs), y: self.y.times(rhs), z: self.z.times(rhs) }
    }

    /// Model of `shifted`.
    pub open spec fn shifted_spec(self, rhs: [C; 3]) -> Position<C> {
        Position {
            x: self.x.plus_spec(rhs[0]),
            y: self.y.plus_spec(rhs[1]),
            z: self.z.plus_spec(rhs[2]),
        }
    }

    /// This position translated by the vector `rhs`.
    pub fn shifted(&self, rhs: &[C; 3]) -> (r: Position<C>)
        ensures
            r == self.shifted_spec(*rhs),
    {
        Position { x: self.x.plus(rhs[0]), y: self.y.plus(rhs[1]), z: self.z.plus(rhs[2]) }
    }
}

/// A grid point on the voxel grid.  A pair of these is passed to the mesh
/// builder when creating vertices.
pub struct GridPoint<V: VoxelData, C: Coordinate> {
    /// World location of the grid point.
    pub position: Position<C>,
    /// Density gradient (estimated) at the grid point.
    pub gradient: (V::Density, V::Density, V::Density),
    /// Data at the grid point that was obtained from the field.
    pub voxel_data: V,
}

/// Whether a triangle references only vertices below the given vertex
/// count.
pub open spec fn tri_valid(t: (usize, usize, usize), num_vertices: nat) -> bool {
    t.0 < num_vertices && t.1 < num_vertices && t.2 < num_vertices
}

/// An index in the vertex buffer.
#[derive(Default, Clone, Copy, Debug, PartialEq, Eq, Structural)]
pub struct VertexIndex(pub usize);

/// Trait you need to implement to build a mesh.
///
/// The two spec members model the builder's externally visible history: how
/// many vertices it has accepted, and the stream of triangles it has been
/// given (as triples of vertex indices).  The method contracts pin how each
/// call extends that history, so the extraction engine's own guarantees (no
/// fabricated indices, no triangles for an empty field) are provable for any
/// conforming builder.
pub trait MeshBuilder<V: VoxelData, C: Coordinate>: Sized {
    /// How many vertices have been added so far.
    spec fn num_vertices(self) -> nat;

    /// The triangles added so far, as triples of vertex indices.
    spec fn triangles(self) -> Seq<(usize, usize, usize)>;

    /// Called by the extraction algorithm when a new vertex is to be created
    /// between 2 grid points.
    ///
    /// Returns the index of the created vertex in the vertex buffer, as this
    /// will potentially get reused later.  `interp_toward_b` indicates where
    /// the vertex is to be placed within the AB segment: near 0 means near A,
    /// near 1 means near B.
    fn add_vertex_between(
        &mut self,
        point_a: GridPoint<V, C>,
        point_b: GridPoint<V, C>,
        interp_toward_b: V::Density,
    ) -> (r: VertexIndex)
        ensures
            r.0 as nat == old(self).num_vertices(),
            final(self).num_vertices() == old(self).num_vertices() + 1,
            final(self).triangles() == old(self).triangles(),
    ;

    /// Called by the extraction algorithm when a triangle is to be created,
    /// using 3 pre-created vertices.
    fn add_triangle(
        &mut self,
        vertex_1_index: VertexIndex,
        vertex_2_index: VertexIndex,
        vertex_3_index: VertexIndex,
    )
        ensures
            final(self).num_vertices() == old(self).num_vertices(),
            final(self).triangles() == old(self).triangles().push(
                (vertex_1_index.0, vertex_2_index.0, vertex_3_index.0),
            ),
    ;
}

} // verus!
