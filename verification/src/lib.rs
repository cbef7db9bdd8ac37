//! Face-culled meshing of a dense voxel grid.
//!
//! A [`VoxelGrid`] records which cells of a bounded box are occupied. The
//! mesher walks the grid in a fixed scan order and emits one quad for every
//! face of an occupied cell whose neighbour across that face is empty or
//! outside the grid. Geometry is kept on the integer lattice: a consumer
//! scales lattice points to world units when it uploads the buffers.

pub mod cull;
pub mod face;
pub mod generate;
pub mod grid;
pub mod mesh;
pub mod solid;
pub mod surface;

pub use cull::{is_face_visible, visible_faces};
pub use face::Face;
pub use generate::generate_mesh;
pub use grid::{GridError, GridModel, VoxelGrid, MAX_CELLS};
pub use mesh::{emit_face, MeshBuffers, MeshModel};
pub use surface::CellFace;
