//! The map of the level drawn small, with the player on it.

use vstd::prelude::*;
use crate::map::{Grid, GridView, Vector2i};

verus! {

/// A cell of the mini map: where it lies and what is drawn there.
#[derive(Clone, Copy, Debug, PartialEq, Eq, Structural)]
pub struct Block {
    pub position: Vector2i,
    pub texture_id: i32,
}

pub struct MiniMap {
    map: Grid,
    active: bool,
}

/// The mathematical model of a mini map.
pub struct MiniMapView {
    pub map: GridView,
    pub active: bool,
}

impl View for MiniMap {
    type V = MiniMapView;

    closed spec fn view(&self) -> MiniMapView {
        MiniMapView { map: self.map@, active: self.active }
    }
}

/// The place of cell `(x, y)` in the order in which a grid of the given
/// height is drawn: column after column, each from its first row down.
pub open spec fn drawing_order(height: int, x: int, y: int) -> int {
    x * height + y
}

impl MiniMap {
    /// A mini map of `map` that is shown.
    pub fn new(map: Grid) -> (mini_map: MiniMap)
        ensures
            mini_map@ == (MiniMapView { map: map@, active: true }),
    {
        MiniMap { map, active: true }
    }

    /// Shows a hidden mini map and hides a shown one; tells whether it is
    /// shown now.
    pub fn toggle_active(&mut self) -> (active: bool)
        ensures
            active == !old(self)@.active,
            final(self)@ == (MiniMapView { active, ..old(self)@ }),
    {
        self.active = !self.active;
        self.active
    }

    pub fn is_active(&self) -> (active: bool)
        ensures
            active == self@.active,
    {
        self.active
    }

    /// The cells of the map in the order in which they are drawn, each with
    /// the tile id that names its texture.
    pub fn create_block(&self) -> (blocks: Vec<Block>)
        ensures
            blocks@.len() == self@.map.width * self@.map.height,
            forall|x: int, y: int|
                self@.map.in_bounds(x, y) ==> {
                    &&& 0 <= #[trigger] drawing_order(self@.map.height, x, y) < blocks@.len()
                    &&& blocks@[drawing_order(self@.map.height, x, y)].position.x == x
                    &&& blocks@[drawing_order(self@.map.height, x, y)].position.y == y
                    &&& self@.map.tile(x, y) == Some(
                        blocks@[drawing_order(self@.map.height, x, y)].texture_id,
                    )
                },
    {
        proof {
            use_type_invariant(&self.map);
        }
        let map_size = self.map.get_map_size();
        let ghost grid = self@.map;
        let mut blocks: Vec<Block> = Vec::new();
        let mut pos = Vector2i { x: 0, y: 0 };
        while pos.x < map_size.x
            invariant
                grid == self@.map,
                grid.wf(),
                map_size.x == grid.width,
                map_size.y == grid.height,
                0 <= pos.x <= map_size.x,
                pos.y == 0,
                blocks@.len() == pos.x * grid.height,
                forall|x: int, y: int|
                    0 <= x < pos.x && 0 <= y < grid.height ==> {
                        &&& 0 <= #[trigger] drawing_order(grid.height, x, y) < blocks@.len()
                        &&& blocks@[drawing_order(grid.height, x, y)].position.x == x
                        &&& blocks@[drawing_order(grid.height, x, y)].position.y == y
                        &&& grid.tile(x, y) == Some(
                            blocks@[drawing_order(grid.height, x, y)].texture_id,
                        )
                    },
            decreases map_size.x - pos.x,
        {
            let ghost column = pos.x;
            while pos.y < map_size.y
                invariant
                    pos.x == column,
                    grid == self@.map,
                    grid.wf(),
                    map_size.x == grid.width,
                    map_size.y == grid.height,
                    0 <= pos.x < map_size.x,
                    0 <= pos.y <= map_size.y,
                    blocks@.len() == pos.x * grid.height + pos.y,
                    forall|x: int, y: int|
                        (0 <= x < pos.x && 0 <= y < grid.height) || (x == pos.x && 0 <= y < pos.y)
                            ==> {
                            &&& 0 <= #[trigger] drawing_order(grid.height, x, y) < blocks@.len()
                            &&& blocks@[drawing_order(grid.height, x, y)].position.x == x
                            &&& blocks@[drawing_order(grid.height, x, y)].position.y == y
                            &&& grid.tile(x, y) == Some(
                                blocks@[drawing_order(grid.height, x, y)].texture_id,
                            )
                        },
                decreases map_size.y - pos.y,
            {
                let texture_id = self.map.get_block(pos).unwrap();
                let ghost before = blocks@;
                blocks.push(Block { position: pos, texture_id });
                assert forall|x: int, y: int|
                    (0 <= x < pos.x && 0 <= y < grid.height) || (x == pos.x && 0 <= y < pos.y + 1)
                    implies {
                    &&& 0 <= #[trigger] drawing_order(grid.height, x, y) < blocks@.len()
                    &&& blocks@[drawing_order(grid.height, x, y)].position.x == x
                    &&& blocks@[drawing_order(grid.height, x, y)].position.y == y
                    &&& grid.tile(x, y) == Some(
                        blocks@[drawing_order(grid.height, x, y)].texture_id,
                    )
                } by {
                    if x == pos.x && y == pos.y {
                        assert(drawing_order(grid.height, x, y) == before.len());
                    } else {
                        assert(0 <= drawing_order(grid.height, x, y) < before.len());
                        assert(blocks@[drawing_order(grid.height, x, y)]
                            == before[drawing_order(grid.height, x, y)]);
                    }
                }
                pos.y += 1;
            }
            assert((pos.x + 1) * grid.height == pos.x * grid.height + grid.height)
                by (nonlinear_arith);
            pos.x += 1;
            pos.y = 0;
        }
        blocks
    }
}

} // verus!
