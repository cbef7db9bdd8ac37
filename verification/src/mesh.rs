//! Mesh buffers and the geometry of one emitted face.

use crate::face::{spec_triangle_corner, spec_uv, triangle_corner, uv, vec_add, Face};
use vstd::prelude::*;

verus! {

/// What a mesh is: per-vertex positions, normals and texture coordinates,
/// and the vertex indices of its triangles, three per triangle.
#[verifier::ext_equal]
pub struct MeshModel {
    pub positions: Seq<(int, int, int)>,
    pub normals: Seq<(int, int, int)>,
    pub uvs: Seq<(int, int)>,
    pub indices: Seq<int>,
}

impl MeshModel {
    /// The mesh without vertices or triangles.
    pub open spec fn empty() -> MeshModel {
        MeshModel {
            positions: Seq::empty(),
            normals: Seq::empty(),
            uvs: Seq::empty(),
            indices: Seq::empty(),
        }
    }

    /// The mesh with one more quad: the given face of the unit cube whose
    /// minimum corner is `cell`. Four vertices are appended, one per corner
    /// of the quad, each with the face's outward normal and the corner's
    /// texture coordinate; six indices are appended, which name the new
    /// vertices as the triangles `0, 1, 2` and `0, 2, 3` of the quad.
    pub open spec fn push_face(self, cell: (int, int, int), face: Face) -> MeshModel {
        let base = self.positions.len() as int;
        MeshModel {
            positions: self.positions + Seq::new(4, |k: int| vec_add(cell, face.spec_corner(k))),
            normals: self.normals + Seq::new(4, |k: int| face.spec_normal()),
            uvs: self.uvs + Seq::new(4, |k: int| spec_uv(k)),
            indices: self.indices + Seq::new(6, |j: int| base + spec_triangle_corner(j)),
        }
    }

    /// The buffers fit together: one normal and one texture coordinate per
    /// position, four vertices and six indices per face, and every index
    /// names a vertex.
    pub open spec fn wf(self) -> bool {
        &&& self.normals.len() == self.positions.len()
        &&& self.uvs.len() == self.positions.len()
        &&& self.positions.len() % 4 == 0
        &&& self.indices.len() % 6 == 0
        &&& 6 * self.positions.len() == 4 * self.indices.len()
        &&& forall|i: int|
            0 <= i < self.indices.len() ==> 0 <= #[trigger] self.indices[i]
                < self.positions.len()
    }

    /// The number of quads in a well-formed mesh.
    pub open spec fn face_count(self) -> int {
        self.positions.len() as int / 4
    }

    /// Adding a face keeps a mesh well formed and adds four vertices and six
    /// indices.
    pub proof fn lemma_push_face_wf(self, cell: (int, int, int), face: Face)
        requires
            self.wf(),
        ensures
            self.push_face(cell, face).wf(),
            self.push_face(cell, face).positions.len() == self.positions.len() + 4,
            self.push_face(cell, face).indices.len() == self.indices.len() + 6,
            self.push_face(cell, face).face_count() == self.face_count() + 1,
    {
    }
}

/// Vertex and index buffers of a triangle mesh on the integer lattice.
///
/// Positions are lattice points: the corners of unit cells. Indices come in
/// groups of six, two triangles for each face, and refer to positions by
/// their place in the buffer.
#[derive(Debug)]
pub struct MeshBuffers {
    positions: Vec<(i64, i64, i64)>,
    normals: Vec<(i8, i8, i8)>,
    uvs: Vec<(u8, u8)>,
    indices: Vec<u32>,
}

impl View for MeshBuffers {
    type V = MeshModel;

    closed spec fn view(&self) -> MeshModel {
        MeshModel {
            positions: Seq::new(
                self.positions@.len(),
                |i: int|
                    (
                        self.positions@[i].0 as int,
                        self.positions@[i].1 as int,
                        self.positions@[i].2 as int,
                    ),
            ),
            normals: Seq::new(
                self.normals@.len(),
                |i: int|
                    (
                        self.normals@[i].0 as int,
                        self.normals@[i].1 as int,
                        self.normals@[i].2 as int,
                    ),
            ),
            uvs: Seq::new(
                self.uvs@.len(),
                |i: int| (self.uvs@[i].0 as int, self.uvs@[i].1 as int),
            ),
            indices: Seq::new(self.indices@.len(), |i: int| self.indices@[i] as int),
        }
    }
}

impl MeshBuffers {
    /// The stored positions.
    pub closed spec fn spec_positions(&self) -> Seq<(i64, i64, i64)> {
        self.positions@
    }

    /// The stored normals.
    pub closed spec fn spec_normals(&self) -> Seq<(i8, i8, i8)> {
        self.normals@
    }

    /// The stored texture coordinates.
    pub closed spec fn spec_uvs(&self) -> Seq<(u8, u8)> {
        self.uvs@
    }

    /// The stored indices.
    pub closed spec fn spec_indices(&self) -> Seq<u32> {
        self.indices@
    }

    /// The model of the buffers is what they store, number by number.
    pub proof fn lemma_view_is_the_contents(&self)
        ensures
            self@.positions.len() == self.spec_positions().len(),
            forall|i: int|
                0 <= i < self.spec_positions().len() ==> #[trigger] self@.positions[i] == (
                    self.spec_positions()[i].0 as int,
                    self.spec_positions()[i].1 as int,
                    self.spec_positions()[i].2 as int,
                ),
            self@.normals.len() == self.spec_normals().len(),
            forall|i: int|
                0 <= i < self.spec_normals().len() ==> #[trigger] self@.normals[i] == (
                    self.spec_normals()[i].0 as int,
                    self.spec_normals()[i].1 as int,
                    self.spec_normals()[i].2 as int,
                ),
            self@.uvs.len() == self.spec_uvs().len(),
            forall|i: int|
                0 <= i < self.spec_uvs().len() ==> #[trigger] self@.uvs[i] == (
                    self.spec_uvs()[i].0 as int,
                    self.spec_uvs()[i].1 as int,
                ),
            self@.indices.len() == self.spec_indices().len(),
            forall|i: int|
                0 <= i < self.spec_indices().len() ==> #[trigger] self@.indices[i]
                    == self.spec_indices()[i] as int,
    {
    }

    /// Buffers with the same model store the same numbers.
    pub proof fn lemma_same_view_same_contents(&self, other: &MeshBuffers)
        requires
            self@ == other@,
        ensures
            self.spec_positions() == other.spec_positions(),
            self.spec_normals() == other.spec_normals(),
            self.spec_uvs() == other.spec_uvs(),
            self.spec_indices() == other.spec_indices(),
    {
        self.lemma_view_is_the_contents();
        other.lemma_view_is_the_contents();
        assert forall|i: int| 0 <= i < self.spec_positions().len() implies self.spec_positions()[i]
            == other.spec_positions()[i] by {
            assert(self@.positions[i] == other@.positions[i]);
        }
        assert forall|i: int| 0 <= i < self.spec_normals().len() implies self.spec_normals()[i]
            == other.spec_normals()[i] by {
            assert(self@.normals[i] == other@.normals[i]);
        }
        assert forall|i: int| 0 <= i < self.spec_uvs().len() implies self.spec_uvs()[i]
            == other.spec_uvs()[i] by {
            assert(self@.uvs[i] == other@.uvs[i]);
        }
        assert forall|i: int| 0 <= i < self.spec_indices().len() implies self.spec_indices()[i]
            == other.spec_indices()[i] by {
            assert(self@.indices[i] == self.spec_indices()[i] as int);
            assert(other@.indices[i] == other.spec_indices()[i] as int);
        }
        assert(self.spec_positions() =~= other.spec_positions());
        assert(self.spec_normals() =~= other.spec_normals());
        assert(self.spec_uvs() =~= other.spec_uvs());
        assert(self.spec_indices() =~= other.spec_indices());
    }

    /// Makes empty buffers.
    pub fn new() -> (buffers: MeshBuffers)
        ensures
            buffers@ == MeshModel::empty(),
            buffers@.wf(),
    {
        MeshBuffers {
            positions: Vec::new(),
            normals: Vec::new(),
            uvs: Vec::new(),
            indices: Vec::new(),
        }
    }

    /// The number of vertices.
    pub fn vertex_count(&self) -> (n: usize)
        ensures
            n == self@.positions.len(),
    {
        self.positions.len()
    }

    /// The number of indices: three for each triangle.
    pub fn index_count(&self) -> (n: usize)
        ensures
            n == self@.indices.len(),
    {
        self.indices.len()
    }

    /// The vertex positions, as lattice points.
    pub fn positions(&self) -> (p: &Vec<(i64, i64, i64)>)
        ensures
            p@ == self.spec_positions(),
    {
        &self.positions
    }

    /// The vertex normals: one unit vector along an axis for each position.
    pub fn normals(&self) -> (n: &Vec<(i8, i8, i8)>)
        ensures
            n@ == self.spec_normals(),
    {
        &self.normals
    }

    /// The texture coordinates: one corner of the unit square for each position.
    pub fn uvs(&self) -> (t: &Vec<(u8, u8)>)
        ensures
            t@ == self.spec_uvs(),
    {
        &self.uvs
    }

    /// The triangle indices.
    pub fn indices(&self) -> (ix: &Vec<u32>)
        ensures
            ix@ == self.spec_indices(),
    {
        &self.indices
    }

    /// Gives the four buffers away: positions, normals, texture coordinates
    /// and indices, in this order.
    pub fn into_parts(self) -> (parts: (
        Vec<(i64, i64, i64)>,
        Vec<(i8, i8, i8)>,
        Vec<(u8, u8)>,
        Vec<u32>,
    ))
        ensures
            parts.0@ == self.spec_positions(),
            parts.1@ == self.spec_normals(),
            parts.2@ == self.spec_uvs(),
            parts.3@ == self.spec_indices(),
    {
        (self.positions, self.normals, self.uvs, self.indices)
    }
}

/// Appends the quad for one face of the cell at `cell` to the buffers.
///
/// Four vertices and six indices are added and nothing that was there is
/// changed. The new indices are the old vertex count plus `0, 1, 2, 0, 2, 3`:
/// seen from outside the cell, both triangles run counter-clockwise.
///
/// The new vertices must be nameable by a `u32`: there has to be room for
/// four more.
pub fn emit_face(buffers: &mut MeshBuffers, cell: (i32, i32, i32), face: Face)
    requires
        old(buffers)@.wf(),
        old(buffers)@.positions.len() + 4 <= u32::MAX,
    ensures
        final(buffers)@ == old(buffers)@.push_face(
            (cell.0 as int, cell.1 as int, cell.2 as int),
            face,
        ),
        final(buffers)@.wf(),
{
    let ghost before = old(buffers)@;
    let ghost goal = before.push_face((cell.0 as int, cell.1 as int, cell.2 as int), face);
    let base: u32 = buffers.positions.len() as u32;
    let normal = face.normal();
    let mut k: u8 = 0;
    while k < 4
        invariant
            k <= 4,
            before.wf(),
            goal == before.push_face((cell.0 as int, cell.1 as int, cell.2 as int), face),
            (normal.0 as int, normal.1 as int, normal.2 as int) == face.spec_normal(),
            base as int == before.positions.len(),
            buffers@.indices == before.indices,
            buffers@.positions.len() == before.positions.len() + k,
            buffers@.normals.len() == before.positions.len() + k,
            buffers@.uvs.len() == before.positions.len() + k,
            forall|i: int|
                0 <= i < before.positions.len() + k ==> #[trigger] buffers@.positions[i]
                    == goal.positions[i],
            forall|i: int|
                0 <= i < before.positions.len() + k ==> #[trigger] buffers@.normals[i]
                    == goal.normals[i],
            forall|i: int|
                0 <= i < before.positions.len() + k ==> #[trigger] buffers@.uvs[i] == goal.uvs[i],
        decreases 4 - k,
    {
        let ghost prev = buffers@;
        let c = face.corner(k);
        buffers.positions.push(
            (cell.0 as i64 + c.0 as i64, cell.1 as i64 + c.1 as i64, cell.2 as i64 + c.2 as i64),
        );
        buffers.normals.push(normal);
        buffers.uvs.push(uv(k));
        proof {
            let n = before.positions.len() + k;
            assert forall|i: int| 0 <= i < n + 1 implies buffers@.positions[i]
                == goal.positions[i] by {
                if i < n {
                    assert(buffers@.positions[i] == prev.positions[i]);
                }
            }
            assert forall|i: int| 0 <= i < n + 1 implies buffers@.normals[i]
                == goal.normals[i] by {
                if i < n {
                    assert(buffers@.normals[i] == prev.normals[i]);
                }
            }
            assert forall|i: int| 0 <= i < n + 1 implies buffers@.uvs[i] == goal.uvs[i] by {
                if i < n {
                    assert(buffers@.uvs[i] == prev.uvs[i]);
                }
            }
        }
        k = k + 1;
    }
    let mut j: u8 = 0;
    while j < 6
        invariant
            j <= 6,
            before.wf(),
            goal == before.push_face((cell.0 as int, cell.1 as int, cell.2 as int), face),
            base as int == before.positions.len(),
            base + 4 <= u32::MAX,
            buffers@.positions =~= goal.positions,
            buffers@.normals =~= goal.normals,
            buffers@.uvs =~= goal.uvs,
            buffers@.indices.len() == before.indices.len() + j,
            forall|i: int|
                0 <= i < before.indices.len() + j ==> #[trigger] buffers@.indices[i]
                    == goal.indices[i],
        decreases 6 - j,
    {
        let ghost prev = buffers@;
        buffers.indices.push(base + triangle_corner(j) as u32);
        proof {
            assert forall|i: int| 0 <= i < before.indices.len() + j + 1 implies buffers@.indices[i]
                == goal.indices[i] by {
                if i < before.indices.len() + j {
                    assert(buffers@.indices[i] == prev.indices[i]);
                }
            }
        }
        j = j + 1;
    }
    proof {
        before.lemma_push_face_wf((cell.0 as int, cell.1 as int, cell.2 as int), face);
    }
}

} // verus!
