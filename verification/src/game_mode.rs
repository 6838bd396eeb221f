//! The level that the game is played on.

use vstd::prelude::*;
use crate::map::{Grid, GridView, Vector2i};
use crate::raycasting_engine::{lemma_enclosed_walk_ends_inside, wall_texture_id, DrawState};

verus! {

/// The tiles of the level, row after row: 24 rows of 24 tiles.
pub const RAW_MAP: [i32; 576] = [
    1, 1, 1, 1, 1, 1, 1, 1, 1, 1, 1, 1, 1, 1, 1, 1, 1, 1, 1, 1, 1, 1, 1, 1,
    1, 0, 0, 0, 0, 0, 0, 0, 0, 0, 0, 0, 0, 0, 0, 0, 0, 0, 0, 0, 0, 0, 0, 1,
    1, 0, 0, 0, 0, 0, 0, 0, 0, 0, 0, 0, 0, 0, 0, 0, 0, 0, 0, 0, 0, 0, 0, 1,
    1, 0, 0, 0, 0, 0, 0, 0, 0, 0, 0, 0, 0, 0, 0, 0, 0, 0, 0, 0, 0, 0, 0, 1,
    1, 0, 0, 0, 0, 0, 2, 2, 2, 2, 2, 0, 0, 0, 0, 3, 0, 3, 0, 3, 0, 0, 0, 1,
    1, 0, 0, 0, 0, 0, 2, 0, 0, 0, 2, 0, 0, 0, 0, 0, 0, 0, 0, 0, 0, 0, 0, 1,
    1, 0, 0, 0, 0, 0, 2, 0, 0, 0, 2, 0, 0, 0, 0, 3, 0, 0, 0, 3, 0, 0, 0, 1,
    1, 0, 0, 0, 0, 0, 2, 0, 0, 0, 2, 0, 0, 0, 0, 0, 0, 0, 0, 0, 0, 0, 0, 1,
    1, 0, 0, 0, 0, 0, 2, 2, 0, 2, 2, 0, 0, 0, 0, 3, 0, 3, 0, 3, 0, 0, 0, 1,
    1, 0, 0, 0, 0, 0, 0, 0, 0, 0, 0, 0, 0, 0, 0, 0, 0, 0, 0, 0, 0, 0, 0, 1,
    1, 0, 0, 0, 0, 0, 0, 0, 0, 0, 0, 0, 0, 0, 0, 0, 0, 0, 0, 0, 0, 0, 0, 1,
    1, 0, 0, 0, 0, 0, 0, 0, 0, 0, 0, 0, 0, 0, 0, 0, 0, 0, 0, 0, 0, 0, 0, 1,
    1, 0, 0, 0, 0, 0, 0, 0, 0, 0, 0, 0, 0, 0, 0, 0, 0, 0, 0, 0, 0, 0, 0, 1,
    1, 0, 0, 0, 0, 0, 0, 0, 0, 0, 0, 0, 0, 0, 0, 0, 0, 0, 0, 0, 0, 0, 0, 1,
    1, 0, 0, 0, 0, 0, 0, 0, 0, 0, 0, 0, 0, 0, 0, 0, 0, 0, 0, 0, 0, 0, 0, 1,
    1, 0, 0, 0, 0, 0, 0, 0, 0, 0, 0, 0, 0, 0, 0, 0, 0, 0, 0, 0, 0, 0, 0, 1,
    1, 4, 4, 4, 4, 4, 4, 4, 4, 0, 0, 0, 0, 0, 0, 0, 0, 0, 0, 0, 0, 0, 0, 1,
    1, 4, 0, 4, 0, 0, 0, 0, 4, 0, 0, 0, 0, 0, 0, 0, 0, 0, 0, 0, 0, 0, 0, 1,
    1, 4, 0, 0, 0, 0, 5, 0, 4, 0, 0, 0, 0, 0, 0, 0, 0, 0, 0, 0, 0, 0, 0, 1,
    1, 4, 0, 4, 0, 0, 0, 0, 4, 0, 0, 0, 0, 0, 0, 0, 0, 0, 0, 0, 0, 0, 0, 1,
    1, 4, 0, 4, 4, 4, 4, 4, 4, 0, 0, 0, 0, 0, 0, 0, 0, 0, 0, 0, 0, 0, 0, 1,
    1, 4, 0, 0, 0, 0, 0, 0, 0, 0, 0, 0, 0, 0, 0, 0, 0, 0, 0, 0, 0, 0, 0, 1,
    1, 4, 4, 4, 4, 4, 4, 4, 4, 0, 0, 0, 0, 0, 0, 0, 0, 0, 0, 0, 0, 0, 0, 1,
    1, 1, 1, 1, 1, 1, 1, 1, 1, 1, 1, 1, 1, 1, 1, 1, 1, 1, 1, 1, 1, 1, 1, 1,
];

/// The column of the cell in which the player starts.
pub const START_X: i32 = 22;

/// The row of the cell in which the player starts.
pub const START_Y: i32 = 12;

/// The mathematical model of the level.
pub open spec fn level() -> GridView {
    GridView { width: 24, height: 24, tiles: RAW_MAP@ }
}

/// The level as a grid.
pub fn get_map() -> (map: Grid)
    ensures
        map@ == level(),
{
    let mut tiles: Vec<i32> = Vec::new();
    let mut i: usize = 0;
    while i < 576
        invariant
            i <= 576,
            tiles@ == RAW_MAP@.take(i as int),
        decreases 576 - i,
    {
        tiles.push(RAW_MAP[i]);
        assert(tiles@ =~= RAW_MAP@.take(i as int + 1));
        i += 1;
    }
    assert(RAW_MAP@.take(576) =~= RAW_MAP@);
    Grid::new(tiles, Vector2i { x: 24, y: 24 }).unwrap()
}

/// The level is closed in by walls, and the player starts in an empty cell
/// of it.
pub proof fn lemma_level_enclosed()
    ensures
        level().wf(),
        level().enclosed(),
        level().walkable(START_X as int, START_Y as int),
{
    let g = level();
    assert(g.tiles.len() == 576);
    assert forall|x: int, y: int| #[trigger] g.on_border(x, y) implies !g.walkable(x, y) by {
        if y == 0 {
            assert(g.tiles[x] != 0);
        } else if y == 23 {
            assert(g.tiles[552 + x] != 0);
        } else if x == 0 {
            assert(g.tiles[y * 24] != 0);
        } else {
            assert(g.tiles[y * 24 + 23] != 0);
        }
    }
}

/// Every tile of the level is empty or one of five kinds of wall.
pub proof fn lemma_level_tiles(x: int, y: int)
    requires
        level().in_bounds(x, y),
    ensures
        level().tile(x, y) matches Some(tile) && 0 <= tile <= 5,
{
}

/// Every ray in the level meets a wall of the level. A walk that starts in an
/// empty cell, stands in an empty cell after each step but the last and ends
/// at a cell that is not empty has ended at one of the five kinds of wall, and
/// the texture of that wall, shaded or not, is one of the textures 1 to 10.
pub proof fn lemma_level_walls(state: DrawState, decisions: Seq<bool>)
    requires
        state.unit_steps(),
        decisions.len() >= 1,
        forall|k: int|
            0 <= k < decisions.len() ==> level().walkable(
                (#[trigger] state.walked(decisions.take(k))).map_pos.x as int,
                state.walked(decisions.take(k)).map_pos.y as int,
            ),
        !level().walkable(
            state.walked(decisions).map_pos.x as int,
            state.walked(decisions).map_pos.y as int,
        ),
    ensures
        level().tile(
            state.walked(decisions).map_pos.x as int,
            state.walked(decisions).map_pos.y as int,
        ) matches Some(tile) && 1 <= tile <= 5 && 1 <= wall_texture_id(
            tile as int,
            state.walked(decisions).side,
        ) <= 10,
{
    lemma_level_enclosed();
    lemma_enclosed_walk_ends_inside(level(), state, decisions);
    lemma_level_tiles(
        state.walked(decisions).map_pos.x as int,
        state.walked(decisions).map_pos.y as int,
    );
}

} // verus!
