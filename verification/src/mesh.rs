//! Indexed triangle meshes.
use vstd::prelude::*;
use vstd::std_specs::ops::AddSpecImpl;
use crate::fixed::Fixed;
use crate::geometry::Triangle;
use crate::geometry::Vertex;
use crate::vector::UVec3;
use crate::vector::Vec2;
use crate::vector::Vec3;

verus! {

/// A list of triangles, each three indices into a list of vertices.
#[derive(Debug)]
pub struct Mesh {
    triangles: Vec<UVec3>,
    vertices: Vec<Vertex>,
}

/// What a mesh holds.
pub struct MeshView {
    pub triangles: Seq<UVec3>,
    pub vertices: Seq<Vertex>,
}

impl View for Mesh {
    type V = MeshView;

    closed spec fn view(&self) -> MeshView {
        MeshView { triangles: self.triangles@, vertices: self.vertices@ }
    }
}

/// The index triples `triangles`, each moved up by `offset`.
pub open spec fn shifted_triangles_spec(triangles: Seq<UVec3>, offset: int) -> Seq<UVec3> {
    Seq::new(triangles.len(), |k: int| triangles[k].shifted_spec(offset))
}

/// Whether every index of `triangles` can be moved up by `offset`.
pub open spec fn can_shift(triangles: Seq<UVec3>, offset: int) -> bool {
    forall|k: int|
        0 <= k < triangles.len() ==> {
            &&& (#[trigger] triangles[k]).x + offset <= u32::MAX
            &&& triangles[k].y + offset <= u32::MAX
            &&& triangles[k].z + offset <= u32::MAX
        }
}

/// The index triples that a flat list of indices spells out, three at a time;
/// what is left over at the end is dropped.
pub open spec fn triangles_from_indices_spec(indices: Seq<u32>) -> Seq<UVec3> {
    Seq::new(
        (indices.len() / 3) as nat,
        |k: int| UVec3 { x: indices[3 * k], y: indices[3 * k + 1], z: indices[3 * k + 2] },
    )
}

/// The vertex that the buffers describe at position `i`: its position with
/// `w` one, its normal, its colour if there are colours and white if not, its
/// texture coordinate if there are any and zero if not.
pub open spec fn buffer_vertex_spec(
    positions: Seq<Vec3>,
    normals: Seq<Vec3>,
    colors: Seq<Vec3>,
    uvs: Seq<Vec2>,
    i: int,
) -> Vertex {
    Vertex {
        position: positions[i].extend_spec(Fixed::one_spec()),
        normal: normals[i],
        color: if colors.len() > 0 {
            colors[i]
        } else {
            Vec3::from_ints_spec(1, 1, 1)
        },
        uv: if uvs.len() > 0 {
            uvs[i]
        } else {
            Vec2::from_ints_spec(0, 0)
        },
    }
}

/// The vertices that the buffers describe, one for each position.
pub open spec fn buffer_vertices_spec(
    positions: Seq<Vec3>,
    normals: Seq<Vec3>,
    colors: Seq<Vec3>,
    uvs: Seq<Vec2>,
) -> Seq<Vertex> {
    Seq::new(positions.len(), |i: int| buffer_vertex_spec(positions, normals, colors, uvs, i))
}

impl MeshView {
    /// Whether every index of every triangle points at a vertex.
    pub open spec fn well_formed(self) -> bool {
        forall|k: int|
            0 <= k < self.triangles.len() ==> (#[trigger] self.triangles[k]).below(
                self.vertices.len() as int,
            )
    }

    /// The `k`-th triangle with its vertices looked up.
    pub open spec fn triangle(self, k: int) -> Triangle
        recommends
            0 <= k < self.triangles.len(),
            self.triangles[k].below(self.vertices.len() as int),
    {
        Triangle {
            vert0: self.vertices[self.triangles[k].x as int],
            vert1: self.vertices[self.triangles[k].y as int],
            vert2: self.vertices[self.triangles[k].z as int],
        }
    }

    /// The mesh with a section added whose indices count from its own first
    /// vertex.
    pub open spec fn with_section(self, triangles: Seq<UVec3>, vertices: Seq<Vertex>) -> MeshView {
        MeshView {
            triangles: self.triangles + shifted_triangles_spec(
                triangles,
                self.vertices.len() as int,
            ),
            vertices: self.vertices + vertices,
        }
    }
}

impl Mesh {
    pub fn new() -> (r: Mesh)
        ensures
            r@.triangles == Seq::<UVec3>::empty(),
            r@.vertices == Seq::<Vertex>::empty(),
    {
        Mesh { triangles: Vec::new(), vertices: Vec::new() }
    }

    pub fn triangles(&self) -> (r: &Vec<UVec3>)
        ensures
            r@ == self@.triangles,
    {
        &self.triangles
    }

    pub fn vertices(&self) -> (r: &Vec<Vertex>)
        ensures
            r@ == self@.vertices,
    {
        &self.vertices
    }

    pub fn get_vertices_from_triangle(&self, triangle: UVec3) -> (r: [&Vertex; 3])
        requires
            triangle.below(self@.vertices.len() as int),
        ensures
            *r@[0] == self@.vertices[triangle.x as int],
            *r@[1] == self@.vertices[triangle.y as int],
            *r@[2] == self@.vertices[triangle.z as int],
    {
        [
            &self.vertices[triangle.x as usize],
            &self.vertices[triangle.y as usize],
            &self.vertices[triangle.z as usize],
        ]
    }

    /// Whether every index of every triangle points at a vertex.
    pub fn is_well_formed(&self) -> (r: bool)
        ensures
            r == self@.well_formed(),
    {
        let n: usize = self.vertices.len();
        let mut k: usize = 0;
        while k < self.triangles.len()
            invariant
                k <= self.triangles@.len(),
                n == self.vertices@.len(),
                forall|j: int|
                    0 <= j < k ==> (#[trigger] self.triangles@[j]).below(n as int),
            decreases self.triangles@.len() - k,
        {
            let t = self.triangles[k];
            if t.x as usize >= n || t.y as usize >= n || t.z as usize >= n {
                assert(!self@.triangles[k as int].below(self@.vertices.len() as int));
                return false;
            }
            k = k + 1;
        }
        true
    }

    pub fn from_vertices(triangles: &[UVec3], vertices: &[Vertex]) -> (r: Mesh)
        ensures
            r@.triangles == triangles@,
            r@.vertices == vertices@,
    {
        let mut mesh = Mesh::new();
        mesh.add_section_from_vertices(triangles, vertices);
        assert(mesh@.triangles =~= triangles@);
        assert(mesh@.vertices =~= vertices@);
        mesh
    }

    pub fn add_section_from_vertices(&mut self, triangles: &[UVec3], vertices: &[Vertex])
        requires
            old(self)@.vertices.len() <= u32::MAX,
            can_shift(triangles@, old(self)@.vertices.len() as int),
        ensures
            final(self)@ == old(self)@.with_section(triangles@, vertices@),
    {
        let ghost before = self@;
        let offset: u32 = self.vertices.len() as u32;
        let mut k: usize = 0;
        while k < triangles.len()
            invariant
                k <= triangles@.len(),
                offset == before.vertices.len(),
                can_shift(triangles@, offset as int),
                self.vertices@ == before.vertices,
                self.triangles@ == before.triangles + shifted_triangles_spec(
                    triangles@,
                    offset as int,
                ).take(k as int),
            decreases triangles@.len() - k,
        {
            let t = triangles[k];
            self.triangles.push(t.shifted(offset));
            assert(self.triangles@ =~= before.triangles + shifted_triangles_spec(
                triangles@,
                offset as int,
            ).take(k + 1));
            k = k + 1;
        }
        assert(self.triangles@ =~= before.triangles + shifted_triangles_spec(
            triangles@,
            offset as int,
        ));
        let mut i: usize = 0;
        while i < vertices.len()
            invariant
                i <= vertices@.len(),
                self.triangles@ == before.triangles + shifted_triangles_spec(
                    triangles@,
                    offset as int,
                ),
                self.vertices@ == before.vertices + vertices@.take(i as int),
            decreases vertices@.len() - i,
        {
            self.vertices.push(vertices[i]);
            assert(self.vertices@ =~= before.vertices + vertices@.take(i + 1));
            i = i + 1;
        }
        assert(self.vertices@ =~= before.vertices + vertices@);
    }

    pub fn add_section_from_buffers(
        &mut self,
        triangles: &[UVec3],
        positions: &[Vec3],
        normals: &[Vec3],
        colors: &[Vec3],
        uvs: &[Vec2],
    )
        requires
            normals@.len() >= positions@.len(),
            colors@.len() == 0 || colors@.len() >= positions@.len(),
            uvs@.len() == 0 || uvs@.len() >= positions@.len(),
        ensures
            final(self)@.triangles == old(self)@.triangles + triangles@,
            final(self)@.vertices == old(self)@.vertices + buffer_vertices_spec(
                positions@,
                normals@,
                colors@,
                uvs@,
            ),
    {
        let ghost before = self@;
        let ghost added = buffer_vertices_spec(positions@, normals@, colors@, uvs@);
        let mut k: usize = 0;
        while k < triangles.len()
            invariant
                k <= triangles@.len(),
                self.vertices@ == before.vertices,
                self.triangles@ == before.triangles + triangles@.take(k as int),
            decreases triangles@.len() - k,
        {
            self.triangles.push(triangles[k]);
            assert(self.triangles@ =~= before.triangles + triangles@.take(k + 1));
            k = k + 1;
        }
        assert(self.triangles@ =~= before.triangles + triangles@);

        let has_uvs = uvs.len() > 0;
        let has_colors = colors.len() > 0;

        let mut i: usize = 0;
        while i < positions.len()
            invariant
                i <= positions@.len(),
                normals@.len() >= positions@.len(),
                colors@.len() == 0 || colors@.len() >= positions@.len(),
                uvs@.len() == 0 || uvs@.len() >= positions@.len(),
                has_uvs == (uvs@.len() > 0),
                has_colors == (colors@.len() > 0),
                added == buffer_vertices_spec(positions@, normals@, colors@, uvs@),
                self.triangles@ == before.triangles + triangles@,
                self.vertices@ == before.vertices + added.take(i as int),
            decreases positions@.len() - i,
        {
            let vertex = Vertex::Construct(
                positions[i].extend(Fixed::one()),
                normals[i],
                if has_colors {
                    colors[i]
                } else {
                    Vec3::from_ints(1, 1, 1)
                },
                if has_uvs {
                    uvs[i]
                } else {
                    Vec2::from_ints(0, 0)
                },
            );
            self.vertices.push(vertex);
            assert(self.vertices@ =~= before.vertices + added.take(i + 1));
            i = i + 1;
        }
        assert(self.vertices@ =~= before.vertices + added);
    }

    /// Groups a flat list of indices into triangles, three at a time.
    pub fn triangles_from_indices(indices: &[u32]) -> (r: Vec<UVec3>)
        ensures
            r@ == triangles_from_indices_spec(indices@),
    {
        let ghost want = triangles_from_indices_spec(indices@);
        let len: usize = indices.len();
        let count: usize = len / 3;
        let mut result: Vec<UVec3> = Vec::new();
        let mut k: usize = 0;
        while k < count
            invariant
                k <= count,
                len == indices@.len(),
                count == len / 3,
                want == triangles_from_indices_spec(indices@),
                result@ == want.take(k as int),
            decreases count - k,
        {
            assert(3 * k + 2 < indices@.len());
            result.push(UVec3::new(indices[3 * k], indices[3 * k + 1], indices[3 * k + 2]));
            assert(result@ =~= want.take(k + 1));
            k = k + 1;
        }
        assert(result@ =~= want);
        result
    }
}

impl Default for Mesh {
    fn default() -> (r: Mesh)
        ensures
            r@.triangles == Seq::<UVec3>::empty(),
            r@.vertices == Seq::<Vertex>::empty(),
    {
        Self::new()
    }
}

impl core::ops::Add for Mesh {
    type Output = Mesh;

    /// The mesh that holds the sections of `self` followed by those of `rhs`.
    fn add(self, rhs: Mesh) -> (r: Mesh)
        ensures
            r@ == self@.with_section(rhs@.triangles, rhs@.vertices),
    {
        let mut result =
            Mesh::from_vertices(self.triangles().as_slice(), self.vertices().as_slice());
        result.add_section_from_vertices(rhs.triangles().as_slice(), rhs.vertices().as_slice());
        result
    }
}

impl AddSpecImpl for Mesh {
    /// Two meshes with the same contents need not be the same value, so the
    /// sum is described by its contents, in the contract of `add`.
    open spec fn obeys_add_spec() -> bool {
        false
    }

    open spec fn add_req(self, rhs: Mesh) -> bool {
        &&& self@.vertices.len() <= u32::MAX
        &&& can_shift(rhs@.triangles, self@.vertices.len() as int)
    }

    open spec fn add_spec(self, rhs: Mesh) -> Mesh {
        self
    }
}

} // verus!
