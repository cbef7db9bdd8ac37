//! Face culling: which faces of a cell can be seen from outside the solid.

use crate::face::Face;
use crate::grid::{GridModel, VoxelGrid};
use vstd::prelude::*;

verus! {

/// The visibility rule. A face of the cell at `(x, y, z)` is visible exactly
/// when the cell is occupied and the neighbour across that face is not. A
/// neighbour outside the grid is air, so faces on the grid's boundary are
/// visible without any special case.
pub open spec fn face_visible(g: GridModel, x: int, y: int, z: int, face: Face) -> bool {
    let n = face.spec_normal();
    g.is_occupied(x, y, z) && !g.is_occupied(x + n.0, y + n.1, z + n.2)
}

/// The one-element sequence `[face]` if the face is visible, else the empty
/// sequence.
pub open spec fn visible_or_nothing(g: GridModel, x: int, y: int, z: int, face: Face) -> Seq<Face> {
    if face_visible(g, x, y, z, face) {
        seq![face]
    } else {
        Seq::empty()
    }
}

/// The visible faces of the cell at `(x, y, z)` in the order top, bottom,
/// right, left, back, front.
pub open spec fn spec_visible_faces(g: GridModel, x: int, y: int, z: int) -> Seq<Face> {
    visible_or_nothing(g, x, y, z, Face::Top) + visible_or_nothing(g, x, y, z, Face::Bottom)
        + visible_or_nothing(g, x, y, z, Face::Right) + visible_or_nothing(g, x, y, z, Face::Left)
        + visible_or_nothing(g, x, y, z, Face::Back) + visible_or_nothing(g, x, y, z, Face::Front)
}

/// The sequence of visible faces holds exactly the faces that the visibility
/// rule admits, by rising rank: each of them once, and so at most six.
pub proof fn lemma_visible_faces_exact(g: GridModel, x: int, y: int, z: int)
    ensures
        forall|f: Face| spec_visible_faces(g, x, y, z).contains(f) <==> face_visible(g, x, y, z, f),
        forall|i: int, j: int|
            0 <= i < j < spec_visible_faces(g, x, y, z).len() ==> (#[trigger] spec_visible_faces(
                g,
                x,
                y,
                z,
            )[i]).rank() < (#[trigger] spec_visible_faces(g, x, y, z)[j]).rank(),
        spec_visible_faces(g, x, y, z).no_duplicates(),
        spec_visible_faces(g, x, y, z).len() <= 6,
        !g.is_occupied(x, y, z) ==> spec_visible_faces(g, x, y, z) == Seq::<Face>::empty(),
{
    let s = spec_visible_faces(g, x, y, z);
    let a = visible_or_nothing(g, x, y, z, Face::Top);
    let b = a + visible_or_nothing(g, x, y, z, Face::Bottom);
    let c = b + visible_or_nothing(g, x, y, z, Face::Right);
    let d = c + visible_or_nothing(g, x, y, z, Face::Left);
    let e = d + visible_or_nothing(g, x, y, z, Face::Back);
    assert forall|f: Face| face_visible(g, x, y, z, f) implies s.contains(f) by {
        let i: int = match f {
            Face::Top => 0,
            Face::Bottom => a.len() as int,
            Face::Right => b.len() as int,
            Face::Left => c.len() as int,
            Face::Back => d.len() as int,
            Face::Front => e.len() as int,
        };
        assert(s[i] == f);
    }
}

/// An occupied cell at the edge of the grid shows the face that looks out
/// of the grid.
pub proof fn lemma_boundary_face_visible(g: GridModel, x: int, y: int, z: int, face: Face)
    requires
        g.wf(),
        g.is_occupied(x, y, z),
        !g.in_bounds(
            x + face.spec_normal().0,
            y + face.spec_normal().1,
            z + face.spec_normal().2,
        ),
    ensures
        face_visible(g, x, y, z, face),
{
}

/// Where two occupied cells share a face, neither of them shows it: the face
/// is hidden on the one side and its opposite is hidden on the other.
pub proof fn lemma_shared_face_hidden(g: GridModel, x: int, y: int, z: int, face: Face)
    requires
        g.is_occupied(x, y, z),
        g.is_occupied(
            x + face.spec_normal().0,
            y + face.spec_normal().1,
            z + face.spec_normal().2,
        ),
    ensures
        !face_visible(g, x, y, z, face),
        !face_visible(
            g,
            x + face.spec_normal().0,
            y + face.spec_normal().1,
            z + face.spec_normal().2,
            face.spec_opposite(),
        ),
{
}

/// Decides the visibility rule for one face of one cell.
pub fn is_face_visible(grid: &VoxelGrid, x: i32, y: i32, z: i32, face: Face) -> (visible: bool)
    requires
        grid.wf(),
    ensures
        visible == face_visible(grid@, x as int, y as int, z as int, face),
{
    if !grid.is_occupied(x, y, z) {
        return false;
    }
    proof {
        grid@.lemma_dimensions_bounded();
    }
    let n = face.normal();
    !grid.is_occupied(x + n.0 as i32, y + n.1 as i32, z + n.2 as i32)
}

/// Appends the face to the list if it is visible.
fn push_if_visible(faces: &mut Vec<Face>, grid: &VoxelGrid, x: i32, y: i32, z: i32, face: Face)
    requires
        grid.wf(),
    ensures
        final(faces)@ == old(faces)@ + visible_or_nothing(
            grid@,
            x as int,
            y as int,
            z as int,
            face,
        ),
{
    if is_face_visible(grid, x, y, z, face) {
        faces.push(face);
    }
}

/// The faces of the cell at `(x, y, z)` that can be seen from outside, in
/// the order top, bottom, right, left, back, front. An empty cell, and any
/// coordinate outside the grid, has none.
pub fn visible_faces(grid: &VoxelGrid, x: i32, y: i32, z: i32) -> (faces: Vec<Face>)
    requires
        grid.wf(),
    ensures
        faces@ == spec_visible_faces(grid@, x as int, y as int, z as int),
        forall|f: Face|
            faces@.contains(f) <==> face_visible(grid@, x as int, y as int, z as int, f),
        faces@.no_duplicates(),
{
    let mut faces: Vec<Face> = Vec::new();
    push_if_visible(&mut faces, grid, x, y, z, Face::Top);
    push_if_visible(&mut faces, grid, x, y, z, Face::Bottom);
    push_if_visible(&mut faces, grid, x, y, z, Face::Right);
    push_if_visible(&mut faces, grid, x, y, z, Face::Left);
    push_if_visible(&mut faces, grid, x, y, z, Face::Back);
    push_if_visible(&mut faces, grid, x, y, z, Face::Front);
    proof {
        lemma_visible_faces_exact(grid@, x as int, y as int, z as int);
    }
    faces
}

} // verus!
