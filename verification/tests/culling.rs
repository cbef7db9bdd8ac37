use voxel_mesh::{is_face_visible, visible_faces, Face, VoxelGrid};

const ALL: [Face; 6] = [Face::Top, Face::Bottom, Face::Right, Face::Left, Face::Back, Face::Front];

fn solid(width: i32, height: i32, depth: i32) -> VoxelGrid {
    let mut grid = VoxelGrid::new(width, height, depth).unwrap();
    for x in 0..width {
        for y in 0..height {
            for z in 0..depth {
                grid.set(x, y, z, true).unwrap();
            }
        }
    }
    grid
}

#[test]
fn a_lone_cell_shows_all_six_faces_in_order() {
    let grid = solid(1, 1, 1);
    assert_eq!(visible_faces(&grid, 0, 0, 0), ALL.to_vec());
}

#[test]
fn an_empty_cell_shows_nothing() {
    let mut grid = VoxelGrid::new(3, 1, 1).unwrap();
    grid.set(0, 0, 0, true).unwrap();
    grid.set(2, 0, 0, true).unwrap();
    assert_eq!(visible_faces(&grid, 1, 0, 0), Vec::<Face>::new());
    for face in ALL {
        assert!(!is_face_visible(&grid, 1, 0, 0, face));
    }
}

#[test]
fn a_coordinate_outside_the_grid_shows_nothing() {
    let grid = solid(2, 2, 2);
    assert_eq!(visible_faces(&grid, -1, 0, 0), Vec::<Face>::new());
    assert_eq!(visible_faces(&grid, 2, 0, 0), Vec::<Face>::new());
    assert_eq!(visible_faces(&grid, 0, 5, 0), Vec::<Face>::new());
    assert_eq!(visible_faces(&grid, i32::MAX, i32::MAX, i32::MAX), Vec::<Face>::new());
    assert_eq!(visible_faces(&grid, i32::MIN, i32::MIN, i32::MIN), Vec::<Face>::new());
    assert!(!is_face_visible(&grid, i32::MAX, 0, 0, Face::Right));
    assert!(!is_face_visible(&grid, i32::MIN, 0, 0, Face::Left));
}

#[test]
fn neighbours_along_x_hide_the_face_between_them() {
    let grid = solid(2, 1, 1);
    assert_eq!(
        visible_faces(&grid, 0, 0, 0),
        vec![Face::Top, Face::Bottom, Face::Left, Face::Back, Face::Front]
    );
    assert_eq!(
        visible_faces(&grid, 1, 0, 0),
        vec![Face::Top, Face::Bottom, Face::Right, Face::Back, Face::Front]
    );
    assert!(!is_face_visible(&grid, 0, 0, 0, Face::Right));
    assert!(!is_face_visible(&grid, 1, 0, 0, Face::Left));
}

#[test]
fn neighbours_along_y_hide_the_face_between_them() {
    let grid = solid(1, 2, 1);
    assert_eq!(
        visible_faces(&grid, 0, 0, 0),
        vec![Face::Bottom, Face::Right, Face::Left, Face::Back, Face::Front]
    );
    assert_eq!(
        visible_faces(&grid, 0, 1, 0),
        vec![Face::Top, Face::Right, Face::Left, Face::Back, Face::Front]
    );
}

#[test]
fn neighbours_along_z_hide_the_face_between_them() {
    let grid = solid(1, 1, 2);
    assert_eq!(
        visible_faces(&grid, 0, 0, 0),
        vec![Face::Top, Face::Bottom, Face::Right, Face::Left, Face::Front]
    );
    assert_eq!(
        visible_faces(&grid, 0, 0, 1),
        vec![Face::Top, Face::Bottom, Face::Right, Face::Left, Face::Back]
    );
}

#[test]
fn a_shared_face_is_hidden_on_both_sides() {
    let mut grid = VoxelGrid::new(3, 3, 3).unwrap();
    grid.set(1, 1, 1, true).unwrap();
    for face in ALL {
        let n = face.normal();
        let (x, y, z) = (1 + n.0 as i32, 1 + n.1 as i32, 1 + n.2 as i32);
        assert!(is_face_visible(&grid, 1, 1, 1, face));
        grid.set(x, y, z, true).unwrap();
        assert!(!is_face_visible(&grid, 1, 1, 1, face));
        assert!(!is_face_visible(&grid, x, y, z, face.opposite()));
        assert!(is_face_visible(&grid, x, y, z, face));
        grid.set(x, y, z, false).unwrap();
    }
}

#[test]
fn a_face_beside_an_empty_cell_is_visible() {
    let mut grid = solid(3, 3, 3);
    grid.set(1, 1, 1, false).unwrap();
    assert!(is_face_visible(&grid, 0, 1, 1, Face::Right));
    assert!(is_face_visible(&grid, 2, 1, 1, Face::Left));
    assert!(is_face_visible(&grid, 1, 0, 1, Face::Top));
    assert!(is_face_visible(&grid, 1, 2, 1, Face::Bottom));
    assert!(is_face_visible(&grid, 1, 1, 0, Face::Back));
    assert!(is_face_visible(&grid, 1, 1, 2, Face::Front));
}

#[test]
fn the_interior_cell_of_a_solid_cube_shows_nothing() {
    let grid = solid(3, 3, 3);
    assert_eq!(visible_faces(&grid, 1, 1, 1), Vec::<Face>::new());
}

#[test]
fn a_corner_cell_of_a_solid_cube_shows_three_faces() {
    let grid = solid(3, 3, 3);
    assert_eq!(visible_faces(&grid, 0, 0, 0), vec![Face::Bottom, Face::Left, Face::Front]);
    assert_eq!(visible_faces(&grid, 2, 2, 2), vec![Face::Top, Face::Right, Face::Back]);
    assert_eq!(visible_faces(&grid, 1, 2, 1), vec![Face::Top]);
    assert_eq!(visible_faces(&grid, 0, 1, 2), vec![Face::Left, Face::Back]);
}

#[test]
fn visible_faces_agree_with_the_rule_face_by_face() {
    let mut grid = VoxelGrid::new(3, 2, 3).unwrap();
    for (x, y, z) in [(0, 0, 0), (1, 0, 0), (1, 1, 0), (1, 1, 1), (2, 0, 2), (0, 1, 2)] {
        grid.set(x, y, z, true).unwrap();
    }
    for x in -1..4 {
        for y in -1..3 {
            for z in -1..4 {
                let mut expected = Vec::new();
                for face in ALL {
                    let n = face.normal();
                    let rule = grid.is_occupied(x, y, z)
                        && !grid.is_occupied(x + n.0 as i32, y + n.1 as i32, z + n.2 as i32);
                    assert_eq!(is_face_visible(&grid, x, y, z, face), rule);
                    if rule {
                        expected.push(face);
                    }
                }
                assert_eq!(visible_faces(&grid, x, y, z), expected);
            }
        }
    }
}
