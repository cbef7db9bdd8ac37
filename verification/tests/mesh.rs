use voxel_mesh::{emit_face, Face, MeshBuffers};

#[test]
fn new_buffers_are_empty() {
    let buffers = MeshBuffers::new();
    assert_eq!(buffers.vertex_count(), 0);
    assert_eq!(buffers.index_count(), 0);
    assert!(buffers.positions().is_empty());
    assert!(buffers.normals().is_empty());
    assert!(buffers.uvs().is_empty());
    assert!(buffers.indices().is_empty());
}

#[test]
fn emit_face_appends_the_top_quad() {
    let mut buffers = MeshBuffers::new();
    emit_face(&mut buffers, (3, 4, 5), Face::Top);
    assert_eq!(buffers.positions(), &vec![(3, 5, 5), (3, 5, 6), (4, 5, 6), (4, 5, 5)]);
    assert_eq!(buffers.normals(), &vec![(0, 1, 0); 4]);
    assert_eq!(buffers.uvs(), &vec![(0, 0), (1, 0), (1, 1), (0, 1)]);
    assert_eq!(buffers.indices(), &vec![0, 1, 2, 0, 2, 3]);
    assert_eq!(buffers.vertex_count(), 4);
    assert_eq!(buffers.index_count(), 6);
}

#[test]
fn emit_face_places_each_quad_on_its_side_of_the_cell() {
    let quad = |face: Face| {
        let mut buffers = MeshBuffers::new();
        emit_face(&mut buffers, (10, 20, 30), face);
        buffers.positions().clone()
    };
    assert_eq!(quad(Face::Top), vec![(10, 21, 30), (10, 21, 31), (11, 21, 31), (11, 21, 30)]);
    assert_eq!(quad(Face::Bottom), vec![(10, 20, 30), (11, 20, 30), (11, 20, 31), (10, 20, 31)]);
    assert_eq!(quad(Face::Right), vec![(11, 20, 30), (11, 21, 30), (11, 21, 31), (11, 20, 31)]);
    assert_eq!(quad(Face::Left), vec![(10, 20, 30), (10, 20, 31), (10, 21, 31), (10, 21, 30)]);
    assert_eq!(quad(Face::Back), vec![(10, 20, 31), (11, 20, 31), (11, 21, 31), (10, 21, 31)]);
    assert_eq!(quad(Face::Front), vec![(10, 20, 30), (10, 21, 30), (11, 21, 30), (11, 20, 30)]);
}

#[test]
fn emit_face_repeats_the_normal_four_times() {
    for (face, normal) in [
        (Face::Top, (0, 1, 0)),
        (Face::Bottom, (0, -1, 0)),
        (Face::Right, (1, 0, 0)),
        (Face::Left, (-1, 0, 0)),
        (Face::Back, (0, 0, 1)),
        (Face::Front, (0, 0, -1)),
    ] {
        let mut buffers = MeshBuffers::new();
        emit_face(&mut buffers, (0, 0, 0), face);
        assert_eq!(buffers.normals(), &vec![normal; 4]);
        assert_eq!(buffers.uvs(), &vec![(0, 0), (1, 0), (1, 1), (0, 1)]);
    }
}

#[test]
fn emit_face_indexes_from_the_current_vertex_count() {
    let mut buffers = MeshBuffers::new();
    emit_face(&mut buffers, (0, 0, 0), Face::Front);
    emit_face(&mut buffers, (0, 0, 0), Face::Right);
    emit_face(&mut buffers, (1, 0, 0), Face::Top);
    assert_eq!(buffers.vertex_count(), 12);
    assert_eq!(buffers.index_count(), 18);
    assert_eq!(
        buffers.indices(),
        &vec![0, 1, 2, 0, 2, 3, 4, 5, 6, 4, 6, 7, 8, 9, 10, 8, 10, 11]
    );
}

#[test]
fn emit_face_leaves_earlier_faces_untouched() {
    let mut buffers = MeshBuffers::new();
    emit_face(&mut buffers, (7, 8, 9), Face::Left);
    let positions = buffers.positions().clone();
    let normals = buffers.normals().clone();
    let uvs = buffers.uvs().clone();
    let indices = buffers.indices().clone();
    emit_face(&mut buffers, (-2, 0, 4), Face::Back);
    assert_eq!(&buffers.positions()[..4], &positions[..]);
    assert_eq!(&buffers.normals()[..4], &normals[..]);
    assert_eq!(&buffers.uvs()[..4], &uvs[..]);
    assert_eq!(&buffers.indices()[..6], &indices[..]);
    assert_eq!(&buffers.positions()[4..], &[(-2, 0, 5), (-1, 0, 5), (-1, 1, 5), (-2, 1, 5)]);
}

#[test]
fn emit_face_takes_cells_below_zero() {
    let mut buffers = MeshBuffers::new();
    emit_face(&mut buffers, (-1, -1, -1), Face::Bottom);
    assert_eq!(buffers.positions(), &vec![(-1, -1, -1), (0, -1, -1), (0, -1, 0), (-1, -1, 0)]);
}

#[test]
fn emit_face_takes_cells_at_the_ends_of_the_coordinate_range() {
    let max = i32::MAX as i64;
    let min = i32::MIN as i64;
    let mut buffers = MeshBuffers::new();
    emit_face(&mut buffers, (i32::MAX, i32::MAX, i32::MAX), Face::Top);
    emit_face(&mut buffers, (i32::MIN, i32::MIN, i32::MIN), Face::Front);
    assert_eq!(
        buffers.positions(),
        &vec![
            (max, max + 1, max),
            (max, max + 1, max + 1),
            (max + 1, max + 1, max + 1),
            (max + 1, max + 1, max),
            (min, min, min),
            (min, min + 1, min),
            (min + 1, min + 1, min),
            (min + 1, min, min),
        ]
    );
}

#[test]
fn into_parts_gives_the_four_buffers_away() {
    let mut buffers = MeshBuffers::new();
    emit_face(&mut buffers, (1, 2, 3), Face::Right);
    emit_face(&mut buffers, (1, 2, 3), Face::Front);
    let (positions, normals, uvs, indices) = buffers.into_parts();
    assert_eq!(
        positions,
        vec![
            (2, 2, 3), (2, 3, 3), (2, 3, 4), (2, 2, 4),
            (1, 2, 3), (1, 3, 3), (2, 3, 3), (2, 2, 3),
        ]
    );
    assert_eq!(
        normals,
        vec![
            (1, 0, 0), (1, 0, 0), (1, 0, 0), (1, 0, 0),
            (0, 0, -1), (0, 0, -1), (0, 0, -1), (0, 0, -1),
        ]
    );
    assert_eq!(uvs, vec![(0, 0), (1, 0), (1, 1), (0, 1), (0, 0), (1, 0), (1, 1), (0, 1)]);
    assert_eq!(indices, vec![0, 1, 2, 0, 2, 3, 4, 5, 6, 4, 6, 7]);
}
