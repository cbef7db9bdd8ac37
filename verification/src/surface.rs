//! The surface of a grid: its visible faces, in scan order.
//!
//! The grid is scanned with `x` outermost, then `y`, then `z`; the visible
//! faces of each cell follow one another in the order top, bottom, right,
//! left, back, front.

use crate::cull::{face_visible, lemma_visible_faces_exact, spec_visible_faces};
use crate::face::Face;
use crate::grid::GridModel;
use vstd::prelude::*;

verus! {

/// One face of one cell: what a single quad of the mesh stands for.
pub struct CellFace {
    pub cell: (int, int, int),
    pub face: Face,
}

/// The visible faces of the cell at `(x, y, z)`, each tagged with the cell.
pub open spec fn cell_faces(g: GridModel, x: int, y: int, z: int) -> Seq<CellFace> {
    spec_visible_faces(g, x, y, z).map_values(|face: Face| CellFace { cell: (x, y, z), face })
}

/// The visible faces of the cells `(x, y, 0)` to `(x, y, z_end - 1)`.
pub open spec fn row_faces(g: GridModel, x: int, y: int, z_end: int) -> Seq<CellFace>
    decreases z_end,
{
    if z_end <= 0 {
        Seq::empty()
    } else {
        row_faces(g, x, y, z_end - 1) + cell_faces(g, x, y, z_end - 1)
    }
}

/// The visible faces of the rows `(x, 0)` to `(x, y_end - 1)`, each row over
/// the grid's whole depth.
pub open spec fn slab_faces(g: GridModel, x: int, y_end: int) -> Seq<CellFace>
    decreases y_end,
{
    if y_end <= 0 {
        Seq::empty()
    } else {
        slab_faces(g, x, y_end - 1) + row_faces(g, x, y_end - 1, g.depth)
    }
}

/// The visible faces of the slabs `0` to `x_end - 1`, each slab over the
/// grid's whole height and depth.
pub open spec fn box_faces(g: GridModel, x_end: int) -> Seq<CellFace>
    decreases x_end,
{
    if x_end <= 0 {
        Seq::empty()
    } else {
        box_faces(g, x_end - 1) + slab_faces(g, x_end - 1, g.height)
    }
}

/// Every visible face of the grid, in scan order.
pub open spec fn surface(g: GridModel) -> Seq<CellFace> {
    box_faces(g, g.width)
}

/// Whether `a` comes before `b` in scan order: cells compare by `x`, then by
/// `y`, then by `z`, and the faces of one cell by their rank.
pub open spec fn scans_before(a: CellFace, b: CellFace) -> bool {
    ||| a.cell.0 < b.cell.0
    ||| a.cell.0 == b.cell.0 && a.cell.1 < b.cell.1
    ||| a.cell.0 == b.cell.0 && a.cell.1 == b.cell.1 && a.cell.2 < b.cell.2
    ||| a.cell == b.cell && a.face.rank() < b.face.rank()
}

/// Whether every entry of the sequence comes before all that follow it in
/// scan order. Such a sequence holds no entry twice.
pub open spec fn in_scan_order(faces: Seq<CellFace>) -> bool {
    forall|i: int, j: int|
        0 <= i < j < faces.len() ==> scans_before(#[trigger] faces[i], #[trigger] faces[j])
}

/// Two sequences in scan order, the first of which ends before the second
/// begins, are in scan order when joined.
proof fn lemma_joined_in_scan_order(first: Seq<CellFace>, second: Seq<CellFace>)
    requires
        in_scan_order(first),
        in_scan_order(second),
        forall|a: CellFace, b: CellFace|
            #[trigger] first.contains(a) && #[trigger] second.contains(b) ==> scans_before(a, b),
    ensures
        in_scan_order(first + second),
{
    let joined = first + second;
    assert forall|i: int, j: int| 0 <= i < j < joined.len() implies scans_before(
        #[trigger] joined[i],
        #[trigger] joined[j],
    ) by {
        if i < first.len() <= j {
            assert(first.contains(first[i]));
            assert(second.contains(second[j - first.len()]));
        }
    }
}

/// The faces of a cell are its visible faces, by rising rank.
pub proof fn lemma_cell_faces(g: GridModel, x: int, y: int, z: int)
    ensures
        forall|cf: CellFace|
            #[trigger] cell_faces(g, x, y, z).contains(cf) <==> cf.cell == (x, y, z)
                && face_visible(g, x, y, z, cf.face),
        in_scan_order(cell_faces(g, x, y, z)),
        cell_faces(g, x, y, z).len() <= 6,
{
    let faces = spec_visible_faces(g, x, y, z);
    let tagged = cell_faces(g, x, y, z);
    lemma_visible_faces_exact(g, x, y, z);
    assert forall|cf: CellFace|
        cf.cell == (x, y, z) && face_visible(g, x, y, z, cf.face) implies #[trigger] tagged.contains(
        cf,
    ) by {
        let i = choose|i: int| 0 <= i < faces.len() && faces[i] == cf.face;
        assert(tagged[i] == cf);
    }
}

/// A row holds the visible faces of its cells, in scan order.
pub proof fn lemma_row_faces(g: GridModel, x: int, y: int, z_end: int)
    ensures
        forall|cf: CellFace|
            #[trigger] row_faces(g, x, y, z_end).contains(cf) <==> {
                &&& cf.cell.0 == x && cf.cell.1 == y && 0 <= cf.cell.2 < z_end
                &&& face_visible(g, cf.cell.0, cf.cell.1, cf.cell.2, cf.face)
            },
        in_scan_order(row_faces(g, x, y, z_end)),
    decreases z_end,
{
    broadcast use vstd::seq_lib::lemma_seq_concat_contains_all_elements;

    if z_end > 0 {
        lemma_row_faces(g, x, y, z_end - 1);
        lemma_cell_faces(g, x, y, z_end - 1);
        lemma_joined_in_scan_order(row_faces(g, x, y, z_end - 1), cell_faces(g, x, y, z_end - 1));
    }
}

/// A slab holds the visible faces of its rows, in scan order.
pub proof fn lemma_slab_faces(g: GridModel, x: int, y_end: int)
    ensures
        forall|cf: CellFace|
            #[trigger] slab_faces(g, x, y_end).contains(cf) <==> {
                &&& cf.cell.0 == x && 0 <= cf.cell.1 < y_end && 0 <= cf.cell.2 < g.depth
                &&& face_visible(g, cf.cell.0, cf.cell.1, cf.cell.2, cf.face)
            },
        in_scan_order(slab_faces(g, x, y_end)),
    decreases y_end,
{
    broadcast use vstd::seq_lib::lemma_seq_concat_contains_all_elements;

    if y_end > 0 {
        lemma_slab_faces(g, x, y_end - 1);
        lemma_row_faces(g, x, y_end - 1, g.depth);
        lemma_joined_in_scan_order(slab_faces(g, x, y_end - 1), row_faces(g, x, y_end - 1, g.depth));
    }
}

/// The first slabs of a grid hold the visible faces of their cells, in scan
/// order.
pub proof fn lemma_box_faces(g: GridModel, x_end: int)
    ensures
        forall|cf: CellFace|
            #[trigger] box_faces(g, x_end).contains(cf) <==> {
                &&& 0 <= cf.cell.0 < x_end && 0 <= cf.cell.1 < g.height && 0 <= cf.cell.2 < g.depth
                &&& face_visible(g, cf.cell.0, cf.cell.1, cf.cell.2, cf.face)
            },
        in_scan_order(box_faces(g, x_end)),
    decreases x_end,
{
    broadcast use vstd::seq_lib::lemma_seq_concat_contains_all_elements;

    if x_end > 0 {
        lemma_box_faces(g, x_end - 1);
        lemma_slab_faces(g, x_end - 1, g.height);
        lemma_joined_in_scan_order(box_faces(g, x_end - 1), slab_faces(g, x_end - 1, g.height));
    }
}

/// The surface of a grid holds exactly the faces that the visibility rule
/// admits, each of them once, in scan order.
pub proof fn lemma_surface_is_the_visible_faces(g: GridModel)
    requires
        g.wf(),
    ensures
        forall|cf: CellFace|
            #[trigger] surface(g).contains(cf) <==> face_visible(
                g,
                cf.cell.0,
                cf.cell.1,
                cf.cell.2,
                cf.face,
            ),
        in_scan_order(surface(g)),
        surface(g).no_duplicates(),
{
    lemma_box_faces(g, g.width);
}

/// A row of `z_end` cells has at most `6 * z_end` visible faces.
pub proof fn lemma_row_faces_len(g: GridModel, x: int, y: int, z_end: int)
    requires
        0 <= z_end,
    ensures
        row_faces(g, x, y, z_end).len() <= 6 * z_end,
    decreases z_end,
{
    if z_end > 0 {
        lemma_row_faces_len(g, x, y, z_end - 1);
        lemma_cell_faces(g, x, y, z_end - 1);
    }
}

/// The first `y_end` rows of a slab have at most `6 * y_end * depth` visible
/// faces.
pub proof fn lemma_slab_faces_len(g: GridModel, x: int, y_end: int)
    requires
        0 <= y_end,
        0 <= g.depth,
    ensures
        slab_faces(g, x, y_end).len() <= 6 * (y_end * g.depth),
    decreases y_end,
{
    if y_end > 0 {
        lemma_slab_faces_len(g, x, y_end - 1);
        lemma_row_faces_len(g, x, y_end - 1, g.depth);
        assert(y_end * g.depth == (y_end - 1) * g.depth + g.depth) by (nonlinear_arith);
    } else {
        assert(y_end * g.depth == 0) by (nonlinear_arith)
            requires
                y_end == 0,
        ;
    }
}

/// The first `x_end` slabs of a grid have at most `6 * x_end * height * depth`
/// visible faces.
pub proof fn lemma_box_faces_len(g: GridModel, x_end: int)
    requires
        0 <= x_end,
        0 <= g.height,
        0 <= g.depth,
    ensures
        box_faces(g, x_end).len() <= 6 * (x_end * (g.height * g.depth)),
    decreases x_end,
{
    if x_end > 0 {
        lemma_box_faces_len(g, x_end - 1);
        lemma_slab_faces_len(g, x_end - 1, g.height);
        assert(x_end * (g.height * g.depth) == (x_end - 1) * (g.height * g.depth) + g.height
            * g.depth) by (nonlinear_arith);
    } else {
        assert(x_end * (g.height * g.depth) == 0) by (nonlinear_arith)
            requires
                x_end == 0,
        ;
    }
}

/// A well-formed grid has at most six visible faces for each of its cells,
/// few enough for the vertices of its mesh to be numbered by a `u32`.
pub proof fn lemma_surface_len(g: GridModel)
    requires
        g.wf(),
    ensures
        surface(g).len() <= 6 * g.volume(),
        4 * surface(g).len() <= u32::MAX,
{
    lemma_box_faces_len(g, g.width);
    assert(g.width * (g.height * g.depth) == g.width * g.height * g.depth) by (nonlinear_arith);
}

/// A grid without occupied cells has no surface.
pub proof fn lemma_empty_grid_has_no_surface(g: GridModel)
    requires
        g.is_empty(),
    ensures
        surface(g) == Seq::<CellFace>::empty(),
{
    lemma_box_faces(g, g.width);
    if surface(g).len() > 0 {
        assert(surface(g).contains(surface(g)[0]));
    }
}

} // verus!
