//! The surface of a solid block: a grid in which every cell is occupied.
//!
//! Inside a solid block every face is shared by two occupied cells, so only
//! the cells of the outer shell show faces, and the number of visible faces
//! is the block's surface area.

use crate::cull::{face_visible, spec_visible_faces};
use crate::face::Face;
use crate::generate::spec_generate_mesh;
use crate::grid::GridModel;
use crate::surface::{box_faces, cell_faces, row_faces, slab_faces, surface, CellFace};
use vstd::prelude::*;

verus! {

/// How many of the two faces that cell `i` of a line of `n` cells has along
/// that line lie at an end of the line.
pub open spec fn end_faces(n: int, i: int) -> int {
    (if i == 0 { 1int } else { 0int }) + (if i == n - 1 { 1int } else { 0int })
}

/// The sum of [`end_faces`] over the first `k` cells of a line of `n` cells.
pub open spec fn end_faces_before(n: int, k: int) -> int {
    (if k >= 1 { 1int } else { 0int }) + (if k >= n { 1int } else { 0int })
}

/// A cell whose six neighbours are all occupied shows no face.
pub proof fn lemma_enclosed_cell_hidden(g: GridModel, x: int, y: int, z: int)
    requires
        forall|face: Face|
            g.is_occupied(
                x + #[trigger] face.spec_normal().0,
                y + face.spec_normal().1,
                z + face.spec_normal().2,
            ),
    ensures
        forall|face: Face| !face_visible(g, x, y, z, face),
        spec_visible_faces(g, x, y, z) == Seq::<Face>::empty(),
        cell_faces(g, x, y, z) == Seq::<CellFace>::empty(),
{
}

/// In a solid block a face of a cell is visible exactly when the neighbour
/// across it lies outside the grid.
pub proof fn lemma_solid_face_visible(g: GridModel, x: int, y: int, z: int, face: Face)
    requires
        g.wf(),
        g.is_solid(),
        g.in_bounds(x, y, z),
    ensures
        face_visible(g, x, y, z, face) <==> !g.in_bounds(
            x + face.spec_normal().0,
            y + face.spec_normal().1,
            z + face.spec_normal().2,
        ),
{
}

/// In a solid block a cell strictly inside the grid shows no face.
pub proof fn lemma_solid_interior_cell_hidden(g: GridModel, x: int, y: int, z: int)
    requires
        g.wf(),
        g.is_solid(),
        0 < x < g.width - 1,
        0 < y < g.height - 1,
        0 < z < g.depth - 1,
    ensures
        cell_faces(g, x, y, z) == Seq::<CellFace>::empty(),
{
    assert forall|face: Face|
        g.is_occupied(
            x + #[trigger] face.spec_normal().0,
            y + face.spec_normal().1,
            z + face.spec_normal().2,
        ) by {
        assert(g.in_bounds(
            x + face.spec_normal().0,
            y + face.spec_normal().1,
            z + face.spec_normal().2,
        ));
    }
    lemma_enclosed_cell_hidden(g, x, y, z);
}

/// In a solid block a cell shows, along each axis, the faces that lie at an
/// end of the grid.
pub proof fn lemma_solid_cell_faces(g: GridModel, x: int, y: int, z: int)
    requires
        g.wf(),
        g.is_solid(),
        g.in_bounds(x, y, z),
    ensures
        cell_faces(g, x, y, z).len() == end_faces(g.width, x) + end_faces(g.height, y) + end_faces(
            g.depth,
            z,
        ),
{
    lemma_solid_face_visible(g, x, y, z, Face::Top);
    lemma_solid_face_visible(g, x, y, z, Face::Bottom);
    lemma_solid_face_visible(g, x, y, z, Face::Right);
    lemma_solid_face_visible(g, x, y, z, Face::Left);
    lemma_solid_face_visible(g, x, y, z, Face::Back);
    lemma_solid_face_visible(g, x, y, z, Face::Front);
}

proof fn lemma_solid_row(g: GridModel, x: int, y: int, z_end: int)
    requires
        g.wf(),
        g.is_solid(),
        0 <= x < g.width,
        0 <= y < g.height,
        0 <= z_end <= g.depth,
    ensures
        row_faces(g, x, y, z_end).len() == z_end * (end_faces(g.width, x) + end_faces(g.height, y))
            + end_faces_before(g.depth, z_end),
    decreases z_end,
{
    let c = end_faces(g.width, x) + end_faces(g.height, y);
    if z_end > 0 {
        lemma_solid_row(g, x, y, z_end - 1);
        lemma_solid_cell_faces(g, x, y, z_end - 1);
        assert(z_end * c == (z_end - 1) * c + c) by (nonlinear_arith);
    } else {
        assert(z_end * c == 0) by (nonlinear_arith)
            requires
                z_end == 0,
        ;
    }
}

proof fn lemma_solid_slab(g: GridModel, x: int, y_end: int)
    requires
        g.wf(),
        g.is_solid(),
        0 <= x < g.width,
        0 <= y_end <= g.height,
    ensures
        slab_faces(g, x, y_end).len() == y_end * (g.depth * end_faces(g.width, x) + 2) + g.depth
            * end_faces_before(g.height, y_end),
    decreases y_end,
{
    let d = g.depth;
    let a = end_faces(g.width, x);
    let c = d * a + 2;
    if y_end > 0 {
        let b = end_faces(g.height, y_end - 1);
        let before = end_faces_before(g.height, y_end - 1);
        lemma_solid_slab(g, x, y_end - 1);
        lemma_solid_row(g, x, y_end - 1, d);
        assert(y_end * c + d * (before + b) == ((y_end - 1) * c + d * before) + (d * (a + b) + 2))
            by (nonlinear_arith)
            requires
                c == d * a + 2,
        ;
    } else {
        assert(y_end * c + d * 0 == 0) by (nonlinear_arith)
            requires
                y_end == 0,
        ;
    }
}

proof fn lemma_solid_box(g: GridModel, x_end: int)
    requires
        g.wf(),
        g.is_solid(),
        0 <= x_end <= g.width,
    ensures
        box_faces(g, x_end).len() == x_end * (2 * g.height + 2 * g.depth) + (g.height * g.depth)
            * end_faces_before(g.width, x_end),
    decreases x_end,
{
    let h = g.height;
    let d = g.depth;
    let c = 2 * h + 2 * d;
    if x_end > 0 {
        let a = end_faces(g.width, x_end - 1);
        let before = end_faces_before(g.width, x_end - 1);
        lemma_solid_box(g, x_end - 1);
        lemma_solid_slab(g, x_end - 1, h);
        assert(x_end * c + (h * d) * (before + a) == ((x_end - 1) * c + (h * d) * before) + (h * (d
            * a + 2) + d * 2)) by (nonlinear_arith)
            requires
                c == 2 * h + 2 * d,
        ;
    } else {
        assert(x_end * c + (h * d) * 0 == 0) by (nonlinear_arith)
            requires
                x_end == 0,
        ;
    }
}

/// The surface of a solid block of `w x h x d` cells has `2(wh + hd + wd)`
/// faces, the block's surface area, however many cells lie inside. Its mesh
/// has four vertices and six indices for each of them.
pub proof fn lemma_solid_block_surface(g: GridModel)
    requires
        g.wf(),
        g.is_solid(),
    ensures
        surface(g).len() == 2 * (g.width * g.height + g.height * g.depth + g.width * g.depth),
        spec_generate_mesh(g).positions.len() == 4 * surface(g).len(),
        spec_generate_mesh(g).indices.len() == 6 * surface(g).len(),
{
    let (w, h, d) = (g.width, g.height, g.depth);
    lemma_solid_box(g, w);
    assert(w * (2 * h + 2 * d) + (h * d) * 2 == 2 * (w * h + h * d + w * d)) by (nonlinear_arith);
}

/// The surface of a solid cube of side `n` has `6 n^2` faces.
pub proof fn lemma_solid_cube_surface(g: GridModel, n: int)
    requires
        g.wf(),
        g.is_solid(),
        g.width == n,
        g.height == n,
        g.depth == n,
    ensures
        surface(g).len() == 6 * (n * n),
        spec_generate_mesh(g).positions.len() == 24 * (n * n),
        spec_generate_mesh(g).indices.len() == 36 * (n * n),
{
    lemma_solid_block_surface(g);
}

} // verus!
