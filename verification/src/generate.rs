//! Meshing: from the surface of a grid to vertex and index buffers.

use crate::cull::visible_faces;
use crate::face::{spec_triangle_corner, spec_uv, vec_add};
use crate::grid::{GridModel, VoxelGrid};
use crate::mesh::{emit_face, MeshBuffers, MeshModel};
use crate::surface::{
    box_faces, cell_faces, lemma_box_faces_len, lemma_cell_faces, lemma_empty_grid_has_no_surface,
    lemma_row_faces_len, lemma_slab_faces_len, row_faces, slab_faces, surface, CellFace,
};
use vstd::prelude::*;

verus! {

/// The mesh with one quad for each of the given faces, in their order.
/// Face `n` owns the vertices `4n` to `4n + 3`, one for each corner of its
/// quad, and the indices `6n` to `6n + 5`, which name those vertices as two
/// triangles.
pub open spec fn mesh_of_faces(faces: Seq<CellFace>) -> MeshModel {
    MeshModel {
        positions: Seq::new(
            4 * faces.len(),
            |i: int| vec_add(faces[i / 4].cell, faces[i / 4].face.spec_corner(i % 4)),
        ),
        normals: Seq::new(4 * faces.len(), |i: int| faces[i / 4].face.spec_normal()),
        uvs: Seq::new(4 * faces.len(), |i: int| spec_uv(i % 4)),
        indices: Seq::new(6 * faces.len(), |j: int| 4 * (j / 6) + spec_triangle_corner(j % 6)),
    }
}

/// The mesh of a grid: one quad for each visible face, in scan order.
pub open spec fn spec_generate_mesh(g: GridModel) -> MeshModel {
    mesh_of_faces(surface(g))
}

/// The mesh of a sequence of faces is well formed and has as many quads as
/// there are faces.
pub proof fn lemma_mesh_of_faces_wf(faces: Seq<CellFace>)
    ensures
        mesh_of_faces(faces).wf(),
        mesh_of_faces(faces).face_count() == faces.len(),
{
}

/// The mesh of no faces is the empty mesh.
pub proof fn lemma_mesh_of_no_faces()
    ensures
        mesh_of_faces(Seq::empty()) == MeshModel::empty(),
{
}

/// The mesh of a sequence of faces that ends in `last` is the mesh of the
/// faces before it with the quad of `last` appended.
pub proof fn lemma_mesh_of_faces_push(faces: Seq<CellFace>, last: CellFace)
    ensures
        mesh_of_faces(faces.push(last)) == mesh_of_faces(faces).push_face(last.cell, last.face),
{
}

/// A grid without occupied cells has no surface, and its mesh has no
/// vertices and no indices.
pub proof fn lemma_empty_grid_has_empty_mesh(g: GridModel)
    requires
        g.is_empty(),
    ensures
        surface(g) == Seq::<CellFace>::empty(),
        spec_generate_mesh(g) == MeshModel::empty(),
        spec_generate_mesh(g).positions.len() == 0,
        spec_generate_mesh(g).indices.len() == 0,
{
    lemma_empty_grid_has_no_surface(g);
    lemma_mesh_of_no_faces();
}

/// Meshing is repeatable. Two meshes generated from grids with the same
/// contents, and so two meshes generated from one unmodified grid, have the
/// same model and store the same numbers: every position, normal, texture
/// coordinate and index is the same.
pub proof fn lemma_generate_mesh_is_repeatable(
    first_grid: VoxelGrid,
    second_grid: VoxelGrid,
    first: MeshBuffers,
    second: MeshBuffers,
)
    requires
        first_grid@ == second_grid@,
        first@ == spec_generate_mesh(first_grid@),
        second@ == spec_generate_mesh(second_grid@),
    ensures
        first@ == second@,
        first.spec_positions() == second.spec_positions(),
        first.spec_normals() == second.spec_normals(),
        first.spec_uvs() == second.spec_uvs(),
        first.spec_indices() == second.spec_indices(),
{
    first.lemma_same_view_same_contents(&second);
}

/// While the cell at `(x, y, z)` of a well-formed grid is being meshed, the
/// faces before it and its own leave room in a `u32` for four more vertices.
proof fn lemma_room_for_cell(g: GridModel, x: int, y: int, z: int)
    requires
        g.wf(),
        g.in_bounds(x, y, z),
    ensures
        4 * (box_faces(g, x).len() + slab_faces(g, x, y).len() + row_faces(g, x, y, z).len() + 6)
            <= u32::MAX,
{
    lemma_box_faces_len(g, x);
    lemma_slab_faces_len(g, x, y);
    lemma_row_faces_len(g, x, y, z);
    let (w, h, d) = (g.width, g.height, g.depth);
    assert(x * (h * d) + y * d + z + 1 <= w * h * d) by (nonlinear_arith)
        requires
            0 <= x < w,
            0 <= y < h,
            0 <= z < d,
    ;
}

/// Builds the mesh of the grid's surface: one quad for each face of an
/// occupied cell whose neighbour across that face is empty or outside the
/// grid.
///
/// Cells are visited with `x` outermost, then `y`, then `z`, and the faces
/// of a cell follow in the order top, bottom, right, left, back, front. The
/// result depends on the grid's contents alone.
pub fn generate_mesh(grid: &VoxelGrid) -> (mesh: MeshBuffers)
    requires
        grid.wf(),
    ensures
        mesh@ == spec_generate_mesh(grid@),
        mesh@.wf(),
        mesh@.positions.len() == 4 * surface(grid@).len(),
        mesh@.indices.len() == 6 * surface(grid@).len(),
        mesh@.indices.len() % 6 == 0,
        forall|i: int|
            0 <= i < mesh@.indices.len() ==> 0 <= #[trigger] mesh@.indices[i]
                < mesh@.positions.len(),
{
    let ghost g = grid@;
    let width = grid.width();
    let height = grid.height();
    let depth = grid.depth();
    let mut mesh = MeshBuffers::new();
    let mut x: i32 = 0;
    proof {
        lemma_mesh_of_no_faces();
    }
    while x < width
        invariant
            grid.wf(),
            g == grid@,
            width == g.width && height == g.height && depth == g.depth,
            0 <= x <= width,
            mesh@ == mesh_of_faces(box_faces(g, x as int)),
        decreases width - x,
    {
        let ghost slabs = box_faces(g, x as int);
        let mut y: i32 = 0;
        while y < height
            invariant
                grid.wf(),
                g == grid@,
                width == g.width && height == g.height && depth == g.depth,
                0 <= x < width,
                0 <= y <= height,
                slabs == box_faces(g, x as int),
                mesh@ == mesh_of_faces(slabs + slab_faces(g, x as int, y as int)),
            decreases height - y,
        {
            let ghost rows = slabs + slab_faces(g, x as int, y as int);
            let mut z: i32 = 0;
            while z < depth
                invariant
                    grid.wf(),
                    g == grid@,
                    width == g.width && height == g.height && depth == g.depth,
                    0 <= x < width,
                    0 <= y < height,
                    0 <= z <= depth,
                    rows == box_faces(g, x as int) + slab_faces(g, x as int, y as int),
                    mesh@ == mesh_of_faces(rows + row_faces(g, x as int, y as int, z as int)),
                decreases depth - z,
            {
                let ghost cells = rows + row_faces(g, x as int, y as int, z as int);
                let ghost here = cell_faces(g, x as int, y as int, z as int);
                let faces = visible_faces(grid, x, y, z);
                let mut i: usize = 0;
                proof {
                    lemma_room_for_cell(g, x as int, y as int, z as int);
                    lemma_cell_faces(g, x as int, y as int, z as int);
                }
                while i < faces.len()
                    invariant
                        0 <= i <= faces@.len(),
                        faces@.len() == here.len(),
                        here.len() <= 6,
                        forall|k: int|
                            0 <= k < here.len() ==> #[trigger] here[k] == (CellFace {
                                cell: (x as int, y as int, z as int),
                                face: faces@[k],
                            }),
                        4 * (cells.len() + 6) <= u32::MAX,
                        mesh@ == mesh_of_faces(cells + here.take(i as int)),
                    decreases faces@.len() - i,
                {
                    proof {
                        lemma_mesh_of_faces_wf(cells + here.take(i as int));
                        lemma_mesh_of_faces_push(cells + here.take(i as int), here[i as int]);
                    }
                    emit_face(&mut mesh, (x, y, z), faces[i]);
                    i = i + 1;
                }
                z = z + 1;
            }
            y = y + 1;
        }
        x = x + 1;
    }
    proof {
        lemma_mesh_of_faces_wf(surface(g));
    }
    mesh
}

} // verus!
