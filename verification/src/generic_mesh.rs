//! A generic (engine independent) implementation of a mesh, and an
//! associated mesh builder.

use vstd::prelude::*;

use crate::mesh_builder::{GridPoint, MeshBuilder, VertexIndex};
use crate::traits::{Coordinate, Density};

verus! {

/// A mesh: flat vertex data plus triangle indices.
#[derive(Debug)]
pub struct Mesh<F> {
    /// Flat vector of the vertex positions.  Each consecutive three values
    /// define x,y,z for one vertex.
    pub positions: Vec<F>,
    /// Flat vector of the vertex normals.  Each consecutive three values
    /// define x,y,z for one vertex.
    pub normals: Vec<F>,
    /// Flat vector of the triangle indices.  Each consecutive i,j,k define
    /// one triangle by 3 indices.  Indices refer to the `positions` and
    /// `normals` triples, so each index is below `positions.len() / 3`.
    pub triangle_indices: Vec<usize>,
}

/// A triangle, mostly for debugging or test purposes.
#[derive(Debug, Clone, PartialEq, Copy)]
pub struct Triangle<F> {
    /// Vertices.
    pub vertices: [Vertex<F>; 3],
}

/// A vertex, mostly for debugging or test purposes.
#[derive(Debug, Clone, PartialEq, Copy)]
pub struct Vertex<F> {
    /// XYZ.
    pub position: [F; 3],
    /// XYZ of the normal.
    pub normal: [F; 3],
}

impl<F: Copy> Mesh<F> {
    /// A mesh is consistent when the vertex buffers agree and every triangle
    /// index points at a vertex.
    pub open spec fn wf(self) -> bool {
        &&& self.normals.len() == self.positions.len()
        &&& self.positions.len() % 3 == 0
        &&& self.triangle_indices.len() % 3 == 0
        &&& forall|i: int|
            0 <= i < self.triangle_indices.len() ==> 3 * (#[trigger] self.triangle_indices[i])
                + 3 <= self.positions.len()
    }

    /// The triangles count.
    pub open spec fn num_tris_spec(self) -> int {
        self.triangle_indices.len() as int / 3
    }

    /// Shorthand to get the triangles count.
    pub fn num_tris(&self) -> (r: usize)
        ensures
            r == self.num_tris_spec(),
    {
        self.triangle_indices.len() / 3
    }

    /// Outputs a copy of the triangles in a structured format: triangle `t`
    /// carries the positions and normals of the vertices its three indices
    /// point at.
    pub fn tris(&self) -> (r: Vec<Triangle<F>>)
        requires
            self.wf(),
        ensures
            r.len() == self.num_tris_spec(),
            forall|t: int, k: int, j: int|
                0 <= t < r.len() && 0 <= k < 3 && 0 <= j < 3 ==> {
                    let vi = self.triangle_indices[3 * t + k];
                    &&& (#[trigger] r[t].vertices[k].position[j]) == self.positions[3 * vi + j]
                    &&& r[t].vertices[k].normal[j] == self.normals[3 * vi + j]
                },
    {
        let mut tris: Vec<Triangle<F>> = Vec::new();
        let n = self.num_tris();
        let mut i: usize = 0;
        while i < n
            invariant
                self.wf(),
                n == self.num_tris_spec(),
                i <= n,
                tris.len() == i,
                forall|t: int, k: int, j: int|
                    0 <= t < i && 0 <= k < 3 && 0 <= j < 3 ==> {
                        let vi = self.triangle_indices[3 * t + k];
                        &&& (#[trigger] tris[t].vertices[k].position[j]) == self.positions[3 * vi
                            + j]
                        &&& tris[t].vertices[k].normal[j] == self.normals[3 * vi + j]
                    },
            decreases n - i,
        {
            proof {
                assert(3 * (i as int) + 2 < self.triangle_indices.len()) by (nonlinear_arith)
                    requires
                        0 <= i < self.triangle_indices.len() / 3,
                        self.triangle_indices.len() % 3 == 0,
                ;
            }
            let i1 = self.triangle_indices[3 * i];
            let i2 = self.triangle_indices[3 * i + 1];
            let i3 = self.triangle_indices[3 * i + 2];
            let tri = Triangle {
                vertices: [
                    Vertex {
                        position: [
                            self.positions[3 * i1],
                            self.positions[3 * i1 + 1],
                            self.positions[3 * i1 + 2],
                        ],
                        normal: [
                            self.normals[3 * i1],
                            self.normals[3 * i1 + 1],
                            self.normals[3 * i1 + 2],
                        ],
                    },
                    Vertex {
                        position: [
                            self.positions[3 * i2],
                            self.positions[3 * i2 + 1],
                            self.positions[3 * i2 + 2],
                        ],
                        normal: [
                            self.normals[3 * i2],
                            self.normals[3 * i2 + 1],
                            self.normals[3 * i2 + 2],
                        ],
                    },
                    Vertex {
                        position: [
                            self.positions[3 * i3],
                            self.positions[3 * i3 + 1],
                            self.positions[3 * i3 + 2],
                        ],
                        normal: [
                            self.normals[3 * i3],
                            self.normals[3 * i3 + 1],
                            self.normals[3 * i3 + 2],
                        ],
                    },
                ],
            };
            tris.push(tri);
            i = i + 1;
        }
        tris
    }
}

/// A [`MeshBuilder`] that accumulates a [`Mesh`], for a numeric type serving
/// as both coordinate and density.  Each vertex is interpolated between its
/// two grid points; its normal comes from the interpolated gradient.
pub struct GenericMeshBuilder<F: Coordinate + Density> {
    positions: Vec<F>,
    normals: Vec<F>,
    triangle_list: Vec<(usize, usize, usize)>,
    vertices: usize,
}

impl<F: Coordinate + Density> GenericMeshBuilder<F> {
    /// The flat positions accumulated so far.
    pub closed spec fn positions_spec(self) -> Seq<F> {
        self.positions@
    }

    /// The flat normals accumulated so far.
    pub closed spec fn normals_spec(self) -> Seq<F> {
        self.normals@
    }

    /// The builder keeps three position and three normal values per vertex.
    pub open spec fn buffers_consistent(self) -> bool {
        &&& self.positions_spec().len() == 3 * self.num_vertices()
        &&& self.normals_spec().len() == 3 * self.num_vertices()
    }

    /// Create a fresh builder.
    pub fn new() -> (r: GenericMeshBuilder<F>)
        ensures
            r.num_vertices() == 0,
            r.triangles() == Seq::<(usize, usize, usize)>::empty(),
            r.buffers_consistent(),
    {
        let r = GenericMeshBuilder {
            positions: Vec::new(),
            normals: Vec::new(),
            triangle_list: Vec::new(),
            vertices: 0,
        };
        proof {
            assert(r.triangles() =~= Seq::<(usize, usize, usize)>::empty());
        }
        r
    }

    /// Output the mesh.  The result is consistent as soon as the buffers are
    /// (they always are for a builder that went through `new`) and every
    /// triangle handed to the builder referenced created vertices.
    pub fn build(self) -> (r: Mesh<F>)
        requires
            self.triangles().len() * 3 <= usize::MAX,
        ensures
            r.positions@ == self.positions_spec(),
            r.normals@ == self.normals_spec(),
            r.num_tris_spec() == self.triangles().len(),
            forall|t: int|
                0 <= t < self.triangles().len() ==> {
                    let tri = #[trigger] self.triangles()[t];
                    &&& r.triangle_indices[3 * t] == tri.0
                    &&& r.triangle_indices[3 * t + 1] == tri.1
                    &&& r.triangle_indices[3 * t + 2] == tri.2
                },
            (self.buffers_consistent() && (forall|t: int|
                0 <= t < self.triangles().len() ==> crate::mesh_builder::tri_valid(
                    #[trigger] self.triangles()[t],
                    self.num_vertices(),
                ))) ==> r.wf(),
    {
        let n = self.triangle_list.len();
        let mut flat: Vec<usize> = Vec::new();
        let mut t: usize = 0;
        while t < n
            invariant
                n == self.triangle_list.len(),
                t <= n,
                n * 3 <= usize::MAX,
                flat.len() == 3 * t,
                forall|k: int|
                    0 <= k < t ==> {
                        let tri = #[trigger] self.triangle_list[k];
                        &&& flat[3 * k] == tri.0
                        &&& flat[3 * k + 1] == tri.1
                        &&& flat[3 * k + 2] == tri.2
                    },
            decreases n - t,
        {
            proof {
                assert(3 * (t as int) + 3 <= 3 * (n as int) && 3 * (n as int) == (n as int) * 3)
                    by (nonlinear_arith)
                    requires
                        t < n,
                ;
            }
            let tri = self.triangle_list[t];
            flat.push(tri.0);
            flat.push(tri.1);
            flat.push(tri.2);
            t = t + 1;
        }
        let r = Mesh { positions: self.positions, normals: self.normals, triangle_indices: flat };
        proof {
            assert(r.triangle_indices.len() % 3 == 0 && r.triangle_indices.len() as int / 3 == n)
                by (nonlinear_arith)
                requires
                    r.triangle_indices.len() == 3 * (n as int),
            ;
            if self.buffers_consistent() && (forall|t_: int|
                0 <= t_ < self.triangles().len() ==> crate::mesh_builder::tri_valid(
                    #[trigger] self.triangles()[t_],
                    self.num_vertices(),
                )) {
                assert(r.positions.len() % 3 == 0) by (nonlinear_arith)
                    requires
                        r.positions.len() == 3 * (self.num_vertices() as int),
                ;
                assert forall|i: int|
                    0 <= i < r.triangle_indices.len() implies 3 * (
                #[trigger] r.triangle_indices[i]) + 3 <= r.positions.len() by {
                    let k = i / 3;
                    assert(0 <= k < n && (i == 3 * k || i == 3 * k + 1 || i == 3 * k + 2))
                        by (nonlinear_arith)
                        requires
                            0 <= i < 3 * (n as int),
                            k == i / 3,
                    ;
                    assert(crate::mesh_builder::tri_valid(
                        self.triangles()[k],
                        self.num_vertices(),
                    ));
                }
            }
        }
        r
    }
}

impl<F: Coordinate + Density> MeshBuilder<F, F> for GenericMeshBuilder<F> {
    closed spec fn num_vertices(self) -> nat {
        (self.positions@.len() / 3) as nat
    }

    closed spec fn triangles(self) -> Seq<(usize, usize, usize)> {
        self.triangle_list@
    }

    fn add_vertex_between(
        &mut self,
        point_a: GridPoint<F, F>,
        point_b: GridPoint<F, F>,
        interp_toward_b: F,
    ) -> (r: VertexIndex)
        ensures
            final(self).positions_spec() == old(self).positions_spec() + ({
                let p = point_a.position.interp_toward_spec(point_b.position, interp_toward_b);
                seq![p.x, p.y, p.z]
            }),
            final(self).normals_spec() == old(self).normals_spec() + ({
                let g = F::gradients_to_normal_spec(
                    point_a.gradient.0.plus_spec(
                        interp_toward_b.times_spec(
                            point_b.gradient.0.minus_spec(point_a.gradient.0),
                        ),
                    ),
                    point_a.gradient.1.plus_spec(
                        interp_toward_b.times_spec(
                            point_b.gradient.1.minus_spec(point_a.gradient.1),
                        ),
                    ),
                    point_a.gradient.2.plus_spec(
                        interp_toward_b.times_spec(
                            point_b.gradient.2.minus_spec(point_a.gradient.2),
                        ),
                    ),
                );
                seq![g[0], g[1], g[2]]
            }),
            old(self).buffers_consistent() ==> final(self).buffers_consistent(),
    {
        let position = point_a.position.interp_toward(&point_b.position, interp_toward_b);
        let gradient_x = point_a.gradient.0.plus(
            interp_toward_b.times(point_b.gradient.0.minus(point_a.gradient.0)),
        );
        let gradient_y = point_a.gradient.1.plus(
            interp_toward_b.times(point_b.gradient.1.minus(point_a.gradient.1)),
        );
        let gradient_z = point_a.gradient.2.plus(
            interp_toward_b.times(point_b.gradient.2.minus(point_a.gradient.2)),
        );
        let normal = F::gradients_to_normal(gradient_x, gradient_y, gradient_z);
        let index = self.positions.len() / 3;
        self.positions.push(position.x);
        self.positions.push(position.y);
        self.positions.push(position.z);
        self.normals.push(normal[0]);
        self.normals.push(normal[1]);
        self.normals.push(normal[2]);
        self.vertices = self.positions.len() / 3;
        proof {
            assert(self.positions@ =~= old(self).positions@ + seq![
                position.x,
                position.y,
                position.z,
            ]);
            assert(self.normals@ =~= old(self).normals@ + seq![normal[0], normal[1], normal[2]]);
        }
        VertexIndex(index)
    }

    fn add_triangle(
        &mut self,
        vertex_1_index: VertexIndex,
        vertex_2_index: VertexIndex,
        vertex_3_index: VertexIndex,
    )
        ensures
            final(self).positions_spec() == old(self).positions_spec(),
            final(self).normals_spec() == old(self).normals_spec(),
    {
        self.triangle_list.push((vertex_1_index.0, vertex_2_index.0, vertex_3_index.0));
    }
}

} // verus!
