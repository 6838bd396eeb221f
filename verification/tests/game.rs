use rustenstein_3d::fps::FPSHandler;
use rustenstein_3d::game_mode::{get_map, RAW_MAP, START_X, START_Y};
use rustenstein_3d::hud::{FaceUpdate, HUD};
use rustenstein_3d::map::{Grid, Vector2i};
use rustenstein_3d::mini_map::{Block, MiniMap};
use rustenstein_3d::RustensteinOptions;

#[test]
fn level_is_24_by_24() {
    let map = get_map();
    assert_eq!(map.get_map_size(), Vector2i::new(24, 24));
    assert_eq!(RAW_MAP.len(), 576);
    assert_eq!(map.get_block(Vector2i::new(0, 0)), Some(1));
    assert_eq!(map.get_block(Vector2i::new(6, 4)), Some(2));
    assert_eq!(map.get_block(Vector2i::new(15, 4)), Some(3));
    assert_eq!(map.get_block(Vector2i::new(1, 16)), Some(4));
    assert_eq!(map.get_block(Vector2i::new(6, 18)), Some(5));
    assert_eq!(map.get_block(Vector2i::new(4, 6)), Some(0));
    for y in 0..24 {
        for x in 0..24 {
            assert_eq!(map.get_block(Vector2i::new(x, y)), Some(RAW_MAP[(y * 24 + x) as usize]));
        }
    }
}

#[test]
fn level_is_closed_in_by_walls() {
    let map = get_map();
    for i in 0..24 {
        assert!(!map.is_walkable(Vector2i::new(i, 0)));
        assert!(!map.is_walkable(Vector2i::new(i, 23)));
        assert!(!map.is_walkable(Vector2i::new(0, i)));
        assert!(!map.is_walkable(Vector2i::new(23, i)));
    }
}

#[test]
fn player_starts_in_an_empty_cell() {
    assert_eq!((START_X, START_Y), (22, 12));
    assert!(get_map().is_walkable(Vector2i::new(START_X, START_Y)));
}

#[test]
fn mini_map_is_shown_until_toggled() {
    let mut mini_map = MiniMap::new(get_map());
    assert!(mini_map.is_active());
    assert!(!mini_map.toggle_active());
    assert!(!mini_map.is_active());
    assert!(mini_map.toggle_active());
    assert!(mini_map.is_active());
}

#[test]
fn mini_map_draws_column_after_column() {
    // 3 columns, 2 rows; the tile of (x, y) is 10 * y + x
    let grid = Grid::new(vec![0, 1, 2, 10, 11, 12], Vector2i::new(3, 2)).unwrap();
    let block = |x, y, texture_id| Block { position: Vector2i::new(x, y), texture_id };
    assert_eq!(
        MiniMap::new(grid).create_block(),
        vec![
            block(0, 0, 0),
            block(0, 1, 10),
            block(1, 0, 1),
            block(1, 1, 11),
            block(2, 0, 2),
            block(2, 1, 12)
        ]
    );
}

#[test]
fn mini_map_of_an_empty_grid_has_no_blocks() {
    let grid = Grid::new(vec![], Vector2i::new(0, 3)).unwrap();
    assert!(MiniMap::new(grid).create_block().is_empty());
    let grid = Grid::new(vec![], Vector2i::new(3, 0)).unwrap();
    assert!(MiniMap::new(grid).create_block().is_empty());
}

#[test]
fn mini_map_of_the_level_has_every_cell() {
    let blocks = MiniMap::new(get_map()).create_block();
    assert_eq!(blocks.len(), 576);
    assert_eq!(blocks[6 * 24 + 4], Block { position: Vector2i::new(6, 4), texture_id: 2 });
}

#[test]
fn frame_rate_is_three_times_the_frames_of_a_third() {
    let mut fps = FPSHandler::new();
    for _ in 0..10 {
        assert_eq!(fps.update(false), None);
    }
    assert_eq!(fps.update(true), Some(30));
    assert_eq!(fps.update(false), None);
    assert_eq!(fps.update(true), Some(6));
    assert_eq!(fps.update(true), Some(3));
}

#[test]
fn first_frame_rate_is_zero() {
    assert_eq!(FPSHandler::new().update(true), Some(0));
}

#[test]
fn face_plays_once_and_rests() {
    let mut hud = HUD::new();
    let face = |texture_id, restart_animation, restart_face| FaceUpdate {
        texture_id,
        restart_animation,
        restart_face,
    };
    assert_eq!(hud.update(false, false), face(40, false, false));
    assert_eq!(hud.update(true, false), face(41, true, false));
    assert_eq!(hud.update(true, false), face(42, true, false));
    assert_eq!(hud.update(true, false), face(40, true, false));
    // stopped
    assert_eq!(hud.update(true, false), face(40, false, false));
    // the time of the face has come: it plays from its second frame
    assert_eq!(hud.update(true, true), face(40, true, true));
    assert_eq!(hud.update(false, false), face(41, false, false));
    assert_eq!(hud.update(true, false), face(42, true, false));
}

#[test]
fn window_center_is_half_the_size() {
    let options =
        RustensteinOptions { no_ground: false, fps: 30, window_size: vec![768, 480], cursor: false };
    assert_eq!(options.window_center(), Vector2i::new(384, 240));
    let options =
        RustensteinOptions { no_ground: true, fps: 60, window_size: vec![801, 65535], cursor: true };
    assert_eq!(options.window_center(), Vector2i::new(400, 32767));
}
