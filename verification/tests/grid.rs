use voxel_mesh::{GridError, VoxelGrid, MAX_CELLS};

#[test]
fn new_rejects_a_zero_dimension() {
    assert_eq!(VoxelGrid::new(0, 1, 1).unwrap_err(), GridError::InvalidDimensions);
    assert_eq!(VoxelGrid::new(1, 0, 1).unwrap_err(), GridError::InvalidDimensions);
    assert_eq!(VoxelGrid::new(1, 1, 0).unwrap_err(), GridError::InvalidDimensions);
    assert_eq!(VoxelGrid::new(0, 0, 0).unwrap_err(), GridError::InvalidDimensions);
}

#[test]
fn new_rejects_a_negative_dimension() {
    assert_eq!(VoxelGrid::new(-1, 4, 4).unwrap_err(), GridError::InvalidDimensions);
    assert_eq!(VoxelGrid::new(4, -3, 4).unwrap_err(), GridError::InvalidDimensions);
    assert_eq!(VoxelGrid::new(4, 4, i32::MIN).unwrap_err(), GridError::InvalidDimensions);
}

#[test]
fn new_rejects_a_bad_dimension_beside_huge_ones() {
    assert_eq!(
        VoxelGrid::new(i32::MAX, i32::MAX, 0).unwrap_err(),
        GridError::InvalidDimensions
    );
}

#[test]
fn new_keeps_the_dimensions() {
    let grid = VoxelGrid::new(8, 2, 5).unwrap();
    assert_eq!(grid.width(), 8);
    assert_eq!(grid.height(), 2);
    assert_eq!(grid.depth(), 5);
}

#[test]
fn new_grid_has_no_occupied_cell() {
    let grid = VoxelGrid::new(3, 4, 5).unwrap();
    for x in 0..3 {
        for y in 0..4 {
            for z in 0..5 {
                assert!(!grid.is_occupied(x, y, z));
            }
        }
    }
}

#[test]
fn set_marks_exactly_one_cell() {
    let mut grid = VoxelGrid::new(3, 4, 5).unwrap();
    assert_eq!(grid.set(1, 2, 3, true), Ok(()));
    for x in 0..3 {
        for y in 0..4 {
            for z in 0..5 {
                assert_eq!(grid.is_occupied(x, y, z), (x, y, z) == (1, 2, 3));
            }
        }
    }
}

#[test]
fn set_tells_coordinates_that_share_a_sum_apart() {
    let mut grid = VoxelGrid::new(2, 3, 4).unwrap();
    grid.set(0, 2, 3, true).unwrap();
    grid.set(1, 0, 0, true).unwrap();
    grid.set(1, 2, 3, true).unwrap();
    let mut occupied = Vec::new();
    for x in 0..2 {
        for y in 0..3 {
            for z in 0..4 {
                if grid.is_occupied(x, y, z) {
                    occupied.push((x, y, z));
                }
            }
        }
    }
    assert_eq!(occupied, vec![(0, 2, 3), (1, 0, 0), (1, 2, 3)]);
}

#[test]
fn set_can_clear_a_cell_again() {
    let mut grid = VoxelGrid::new(2, 2, 2).unwrap();
    grid.set(1, 1, 0, true).unwrap();
    grid.set(0, 1, 1, true).unwrap();
    assert_eq!(grid.set(1, 1, 0, false), Ok(()));
    assert!(!grid.is_occupied(1, 1, 0));
    assert!(grid.is_occupied(0, 1, 1));
}

#[test]
fn set_is_idempotent() {
    let mut grid = VoxelGrid::new(2, 2, 2).unwrap();
    assert_eq!(grid.set(1, 0, 1, true), Ok(()));
    assert_eq!(grid.set(1, 0, 1, true), Ok(()));
    assert!(grid.is_occupied(1, 0, 1));
    assert_eq!(grid.set(0, 0, 0, false), Ok(()));
    assert!(!grid.is_occupied(0, 0, 0));
}

#[test]
fn set_outside_the_grid_is_out_of_bounds() {
    let mut grid = VoxelGrid::new(2, 3, 4).unwrap();
    assert_eq!(grid.set(2, 0, 0, true), Err(GridError::OutOfBounds));
    assert_eq!(grid.set(0, 3, 0, true), Err(GridError::OutOfBounds));
    assert_eq!(grid.set(0, 0, 4, true), Err(GridError::OutOfBounds));
    assert_eq!(grid.set(-1, 0, 0, true), Err(GridError::OutOfBounds));
    assert_eq!(grid.set(0, -1, 0, true), Err(GridError::OutOfBounds));
    assert_eq!(grid.set(0, 0, -1, false), Err(GridError::OutOfBounds));
    assert_eq!(grid.set(i32::MAX, i32::MAX, i32::MAX, true), Err(GridError::OutOfBounds));
    assert_eq!(grid.set(i32::MIN, 0, 0, true), Err(GridError::OutOfBounds));
}

#[test]
fn a_refused_set_leaves_the_grid_as_it_was() {
    let mut grid = VoxelGrid::new(2, 2, 2).unwrap();
    grid.set(1, 1, 1, true).unwrap();
    assert_eq!(grid.set(2, 1, 1, true), Err(GridError::OutOfBounds));
    assert_eq!(grid.set(1, 1, 2, false), Err(GridError::OutOfBounds));
    for x in 0..2 {
        for y in 0..2 {
            for z in 0..2 {
                assert_eq!(grid.is_occupied(x, y, z), (x, y, z) == (1, 1, 1));
            }
        }
    }
}

#[test]
fn outside_the_grid_is_air() {
    let mut grid = VoxelGrid::new(2, 2, 2).unwrap();
    for x in 0..2 {
        for y in 0..2 {
            for z in 0..2 {
                grid.set(x, y, z, true).unwrap();
            }
        }
    }
    assert!(!grid.is_occupied(-1, 0, 0));
    assert!(!grid.is_occupied(0, -1, 0));
    assert!(!grid.is_occupied(0, 0, -1));
    assert!(!grid.is_occupied(2, 0, 0));
    assert!(!grid.is_occupied(0, 2, 0));
    assert!(!grid.is_occupied(0, 0, 2));
    assert!(!grid.is_occupied(i32::MAX, 1, 1));
    assert!(!grid.is_occupied(1, i32::MIN, 1));
    assert!(grid.is_occupied(1, 1, 1));
}

#[test]
fn every_face_of_a_full_grid_fits_32_bit_indices() {
    assert_eq!(MAX_CELLS, 178_956_970);
    assert!(24 * (MAX_CELLS as u64) <= u32::MAX as u64);
    assert!(24 * (MAX_CELLS as u64 + 1) > u32::MAX as u64);
}

#[test]
fn fits_tells_grids_that_can_be_made() {
    assert!(VoxelGrid::fits(1, 1, 1));
    assert!(VoxelGrid::fits(8, 2, 8));
    assert!(VoxelGrid::fits(178_956_970, 1, 1));
    assert!(VoxelGrid::fits(1, 178_956_970, 1));
    assert!(VoxelGrid::fits(1, 1, 178_956_970));
    assert!(VoxelGrid::fits(563, 563, 564));
    assert!(VoxelGrid::fits(13_377, 13_377, 1));
    assert!(!VoxelGrid::fits(178_956_971, 1, 1));
    assert!(!VoxelGrid::fits(1, 178_956_971, 1));
    assert!(!VoxelGrid::fits(1, 1, 178_956_971));
    assert!(!VoxelGrid::fits(564, 564, 564));
    assert!(!VoxelGrid::fits(13_377, 13_378, 1));
    assert!(!VoxelGrid::fits(i32::MAX, i32::MAX, i32::MAX));
    assert!(!VoxelGrid::fits(i32::MAX, 1, 2));
    assert!(!VoxelGrid::fits(65_536, 65_536, 1));
}

#[test]
fn fits_leaves_bad_dimensions_to_new() {
    assert!(VoxelGrid::fits(0, 1, 1));
    assert!(VoxelGrid::fits(-1, i32::MAX, i32::MAX));
    assert!(VoxelGrid::fits(i32::MAX, i32::MAX, 0));
    assert!(VoxelGrid::fits(i32::MIN, i32::MIN, i32::MIN));
}
