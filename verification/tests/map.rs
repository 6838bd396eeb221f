use rustenstein_3d::map::{Grid, Orientation, Vector2i};

fn sample() -> Grid {
    // 3 columns, 2 rows; the tile of (x, y) is 10 * y + x + 1
    Grid::new(vec![1, 2, 3, 11, 12, 13], Vector2i::new(3, 2)).unwrap()
}

#[test]
fn get_block_returns_stored_tile() {
    let grid = sample();
    for y in 0..2 {
        for x in 0..3 {
            assert_eq!(grid.get_block(Vector2i::new(x, y)), Some(10 * y + x + 1));
        }
    }
}

#[test]
fn get_block_is_none_outside() {
    let grid = sample();
    assert_eq!(grid.get_block(Vector2i::new(-1, 0)), None);
    assert_eq!(grid.get_block(Vector2i::new(0, -1)), None);
    assert_eq!(grid.get_block(Vector2i::new(-1, -1)), None);
    assert_eq!(grid.get_block(Vector2i::new(i32::MIN, 0)), None);
    assert_eq!(grid.get_block(Vector2i::new(0, i32::MAX)), None);
    assert_eq!(grid.get_block(Vector2i::new(4, 0)), None);
    assert_eq!(grid.get_block(Vector2i::new(0, 3)), None);
}

#[test]
fn get_block_is_none_at_width_and_at_height() {
    let grid = sample();
    assert_eq!(grid.get_block(Vector2i::new(3, 0)), None);
    assert_eq!(grid.get_block(Vector2i::new(3, 1)), None);
    assert_eq!(grid.get_block(Vector2i::new(0, 2)), None);
    assert_eq!(grid.get_block(Vector2i::new(2, 2)), None);
    assert_eq!(grid.get_block(Vector2i::new(3, 2)), None);
}

#[test]
fn new_refuses_wrong_tile_count() {
    assert!(Grid::new(vec![1, 2, 3], Vector2i::new(2, 2)).is_none());
    assert!(Grid::new(vec![1, 2, 3, 4, 5], Vector2i::new(2, 2)).is_none());
    assert!(Grid::new(vec![], Vector2i::new(1, 1)).is_none());
    assert!(Grid::new(vec![1, 2, 3, 4], Vector2i::new(2, 2)).is_some());
}

#[test]
fn new_refuses_negative_size() {
    assert!(Grid::new(vec![], Vector2i::new(-1, 0)).is_none());
    assert!(Grid::new(vec![], Vector2i::new(0, -1)).is_none());
    assert!(Grid::new(vec![1], Vector2i::new(-1, -1)).is_none());
}

#[test]
fn empty_grid_has_no_block() {
    let grid = Grid::new(vec![], Vector2i::new(0, 0)).unwrap();
    assert_eq!(grid.get_block(Vector2i::new(0, 0)), None);
    assert_eq!(grid.get_map_size(), Vector2i::new(0, 0));
    let flat = Grid::new(vec![], Vector2i::new(5, 0)).unwrap();
    assert_eq!(flat.get_block(Vector2i::new(2, 0)), None);
}

#[test]
fn get_map_size_is_the_size_given() {
    assert_eq!(sample().get_map_size(), Vector2i::new(3, 2));
}

#[test]
fn clone_keeps_the_tiles() {
    let grid = sample();
    let copy = grid.clone();
    assert_eq!(copy.get_map_size(), Vector2i::new(3, 2));
    assert_eq!(copy.get_block(Vector2i::new(1, 1)), Some(12));
}

#[test]
fn is_walkable_only_on_empty_cells_inside() {
    let grid = Grid::new(vec![0, 1, 0, 7], Vector2i::new(2, 2)).unwrap();
    assert!(grid.is_walkable(Vector2i::new(0, 0)));
    assert!(!grid.is_walkable(Vector2i::new(1, 0)));
    assert!(grid.is_walkable(Vector2i::new(0, 1)));
    assert!(!grid.is_walkable(Vector2i::new(1, 1)));
    assert!(!grid.is_walkable(Vector2i::new(2, 0)));
    assert!(!grid.is_walkable(Vector2i::new(0, -1)));
}

#[test]
fn orientation_offsets() {
    assert_eq!(Vector2i::from(Orientation::Top), Vector2i::new(-1, 0));
    assert_eq!(Vector2i::from(Orientation::Bottom), Vector2i::new(1, 0));
    assert_eq!(Vector2i::from(Orientation::Left), Vector2i::new(0, -1));
    assert_eq!(Vector2i::from(Orientation::Right), Vector2i::new(0, 1));
    assert_eq!(Vector2i::from(Orientation::TopLeft), Vector2i::new(-1, -1));
    assert_eq!(Vector2i::from(Orientation::TopRight), Vector2i::new(-1, 1));
    assert_eq!(Vector2i::from(Orientation::BottomLeft), Vector2i::new(1, -1));
    assert_eq!(Vector2i::from(Orientation::BottomRight), Vector2i::new(1, 1));
}

#[test]
fn neighbours_of_the_middle_cell() {
    // 3 by 3; the tile of (x, y) is 10 * y + x
    let grid = Grid::new(vec![0, 1, 2, 10, 11, 12, 20, 21, 22], Vector2i::new(3, 3)).unwrap();
    let middle = Vector2i::new(1, 1);
    assert_eq!(grid.get_block_with_orientation(Orientation::Top, middle), Some(10));
    assert_eq!(grid.get_block_with_orientation(Orientation::Bottom, middle), Some(12));
    assert_eq!(grid.get_block_with_orientation(Orientation::Left, middle), Some(1));
    assert_eq!(grid.get_block_with_orientation(Orientation::Right, middle), Some(21));
    assert_eq!(grid.get_block_with_orientation(Orientation::TopLeft, middle), Some(0));
    assert_eq!(grid.get_block_with_orientation(Orientation::TopRight, middle), Some(20));
    assert_eq!(grid.get_block_with_orientation(Orientation::BottomLeft, middle), Some(2));
    assert_eq!(grid.get_block_with_orientation(Orientation::BottomRight, middle), Some(22));
}

#[test]
fn neighbours_outside_the_grid() {
    let grid = sample();
    let corner = Vector2i::new(0, 0);
    assert_eq!(grid.get_block_with_orientation(Orientation::Top, corner), None);
    assert_eq!(grid.get_block_with_orientation(Orientation::Left, corner), None);
    assert_eq!(grid.get_block_with_orientation(Orientation::TopLeft, corner), None);
    assert_eq!(grid.get_block_with_orientation(Orientation::TopRight, corner), None);
    assert_eq!(grid.get_block_with_orientation(Orientation::BottomLeft, corner), None);
    assert_eq!(grid.get_block_with_orientation(Orientation::Bottom, corner), Some(2));
    assert_eq!(grid.get_block_with_orientation(Orientation::Right, corner), Some(11));
    assert_eq!(grid.get_block_with_orientation(Orientation::BottomRight, corner), Some(12));
    let last = Vector2i::new(2, 1);
    assert_eq!(grid.get_block_with_orientation(Orientation::Bottom, last), None);
    assert_eq!(grid.get_block_with_orientation(Orientation::Right, last), None);
    assert_eq!(grid.get_block_with_orientation(Orientation::TopLeft, last), Some(2));
}

#[test]
fn neighbours_at_the_ends_of_the_coordinates() {
    let grid = sample();
    let low = Vector2i::new(i32::MIN, i32::MIN);
    let high = Vector2i::new(i32::MAX, i32::MAX);
    assert_eq!(grid.get_block_with_orientation(Orientation::TopLeft, low), None);
    assert_eq!(grid.get_block_with_orientation(Orientation::Top, low), None);
    assert_eq!(grid.get_block_with_orientation(Orientation::Left, low), None);
    assert_eq!(grid.get_block_with_orientation(Orientation::BottomRight, high), None);
    assert_eq!(grid.get_block_with_orientation(Orientation::Bottom, high), None);
    assert_eq!(grid.get_block_with_orientation(Orientation::Right, high), None);
}
