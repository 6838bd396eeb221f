//! The tile grid: a rectangle of tile ids with a bounds-checked lookup.
//!
//! Tile id `0` is an empty cell that can be walked and seen through; any other
//! id is a wall and names its material.

use vstd::prelude::*;
use vstd::std_specs::convert::FromSpecImpl;

verus! {

/// A pair of integer coordinates: a grid cell, a step between cells, or a size.
#[derive(Clone, Copy, Debug, PartialEq, Eq, Structural)]
pub struct Vector2i {
    pub x: i32,
    pub y: i32,
}

impl Vector2i {
    pub fn new(x: i32, y: i32) -> (v: Vector2i)
        ensures
            v.x == x,
            v.y == y,
    {
        Vector2i { x, y }
    }
}

/// One of the eight neighbours of a cell.
#[derive(Clone, Copy, Debug, PartialEq, Eq, Structural)]
pub enum Orientation {
    Top,
    Bottom,
    Left,
    Right,
    TopLeft,
    TopRight,
    BottomLeft,
    BottomRight,
}

impl Orientation {
    /// The step from a cell to its neighbour on this side.
    pub open spec fn offset(self) -> Vector2i {
        match self {
            Orientation::Top => Vector2i { x: -1i32, y: 0 },
            Orientation::Bottom => Vector2i { x: 1, y: 0 },
            Orientation::Left => Vector2i { x: 0, y: -1i32 },
            Orientation::Right => Vector2i { x: 0, y: 1 },
            Orientation::TopLeft => Vector2i { x: -1i32, y: -1i32 },
            Orientation::TopRight => Vector2i { x: -1i32, y: 1 },
            Orientation::BottomLeft => Vector2i { x: 1, y: -1i32 },
            Orientation::BottomRight => Vector2i { x: 1, y: 1 },
        }
    }
}

impl From<Orientation> for Vector2i {
    fn from(o: Orientation) -> (v: Vector2i) {
        match o {
            Orientation::Top => Vector2i::new(-1, 0),
            Orientation::Bottom => Vector2i::new(1, 0),
            Orientation::Left => Vector2i::new(0, -1),
            Orientation::Right => Vector2i::new(0, 1),
            Orientation::TopLeft => Vector2i::new(-1, -1),
            Orientation::TopRight => Vector2i::new(-1, 1),
            Orientation::BottomLeft => Vector2i::new(1, -1),
            Orientation::BottomRight => Vector2i::new(1, 1),
        }
    }
}

impl FromSpecImpl<Orientation> for Vector2i {
    open spec fn obeys_from_spec() -> bool {
        true
    }

    open spec fn from_spec(o: Orientation) -> Vector2i {
        o.offset()
    }
}

/// The mathematical model of a grid: its extent and its tiles, row after row.
pub struct GridView {
    pub width: int,
    pub height: int,
    pub tiles: Seq<i32>,
}

impl GridView {
    /// The extent is not negative, a cell's coordinates can hold it, and
    /// there is exactly one tile per cell.
    pub open spec fn wf(self) -> bool {
        &&& 0 <= self.width <= i32::MAX
        &&& 0 <= self.height <= i32::MAX
        &&& self.tiles.len() == self.width * self.height
    }

    pub open spec fn in_bounds(self, x: int, y: int) -> bool {
        0 <= x < self.width && 0 <= y < self.height
    }

    /// The tile id stored for cell `(x, y)`, or `None` outside the grid.
    pub open spec fn tile(self, x: int, y: int) -> Option<i32> {
        if self.in_bounds(x, y) {
            Some(self.tiles[y * self.width + x])
        } else {
            None
        }
    }

    /// Cell `(x, y)` lies in the grid and is empty.
    pub open spec fn walkable(self, x: int, y: int) -> bool {
        self.tile(x, y) == Some(0i32)
    }

    /// Cell `(x, y)` lies on the outermost ring of the grid.
    pub open spec fn on_border(self, x: int, y: int) -> bool {
        &&& self.in_bounds(x, y)
        &&& (x == 0 || y == 0 || x == self.width - 1 || y == self.height - 1)
    }

    /// Every cell of the outermost ring is a wall.
    pub open spec fn enclosed(self) -> bool {
        forall|x: int, y: int| #[trigger] self.on_border(x, y) ==> !self.walkable(x, y)
    }
}

/// A rectangular grid of tile ids that is fixed once built.
pub struct Grid {
    map: Vec<i32>,
    map_size: Vector2i,
}

impl View for Grid {
    type V = GridView;

    closed spec fn view(&self) -> GridView {
        GridView {
            width: self.map_size.x as int,
            height: self.map_size.y as int,
            tiles: self.map@,
        }
    }
}

impl Clone for Grid {
    fn clone(&self) -> (copy: Grid)
        ensures
            copy@ == self@,
    {
        proof {
            use_type_invariant(self);
        }
        let map = self.map.clone();
        assert(map@ =~= self.map@);
        Grid { map, map_size: self.map_size }
    }
}

impl Grid {
    /// Holds of every grid: there is exactly one tile per cell.
    #[verifier::type_invariant]
    pub open spec fn inv(&self) -> bool {
        self@.wf()
    }

    /// Builds the grid of `map_size.x` by `map_size.y` cells from its tiles,
    /// given row after row. A negative extent, or a number of tiles other than
    /// one per cell, is refused.
    pub fn new(map: Vec<i32>, map_size: Vector2i) -> (grid: Option<Grid>)
        ensures
            grid is Some <==> (GridView {
                width: map_size.x as int,
                height: map_size.y as int,
                tiles: map@,
            }).wf(),
            grid matches Some(g) ==> g@ == (GridView {
                width: map_size.x as int,
                height: map_size.y as int,
                tiles: map@,
            }),
    {
        if map_size.x < 0 || map_size.y < 0 {
            return None;
        }
        let width = map_size.x as u64;
        let height = map_size.y as u64;
        assert(width * height <= 0x7fff_ffff * 0x7fff_ffff) by (nonlinear_arith)
            requires
                0 <= width <= 0x7fff_ffff,
                0 <= height <= 0x7fff_ffff,
        ;
        let cells: u64 = width * height;
        if map.len() as u64 != cells {
            return None;
        }
        Some(Grid { map, map_size })
    }

    fn block_at(&self, x: i64, y: i64) -> (block: Option<i32>)
        ensures
            block == self@.tile(x as int, y as int),
    {
        proof {
            use_type_invariant(self);
        }
        if x < 0 || y < 0 || x >= self.map_size.x as i64 || y >= self.map_size.y as i64 {
            None
        } else {
            let width = self.map_size.x as usize;
            let column = x as usize;
            let row = y as usize;
            assert(0 <= row * width && row * width + column < self.map.len())
                by (nonlinear_arith)
                requires
                    0 <= column < width,
                    0 <= row < self.map_size.y,
                    self.map.len() == width * self.map_size.y,
            ;
            let index = row * width + column;
            Some(self.map[index])
        }
    }

    /// The tile id at `position`, or `None` where `position` lies outside the
    /// grid: `x` below zero or not below the width, `y` below zero or not
    /// below the height.
    pub fn get_block(&self, position: Vector2i) -> (block: Option<i32>)
        ensures
            block == self@.tile(position.x as int, position.y as int),
            !self@.in_bounds(position.x as int, position.y as int) ==> block is None,
            self@.in_bounds(position.x as int, position.y as int) ==> block == Some(
                self@.tiles[position.y * self@.width + position.x],
            ),
    {
        self.block_at(position.x as i64, position.y as i64)
    }

    /// Whether `position` is an empty cell of the grid. A position outside the
    /// grid is not.
    pub fn is_walkable(&self, position: Vector2i) -> (free: bool)
        ensures
            free == self@.walkable(position.x as int, position.y as int),
    {
        match self.get_block(position) {
            Some(block) => block == 0,
            None => false,
        }
    }

    pub fn get_map_size(&self) -> (size: Vector2i)
        ensures
            size.x == self@.width,
            size.y == self@.height,
    {
        self.map_size
    }

    /// The tile id of the neighbour of `position` on the given side, or `None`
    /// where that neighbour lies outside the grid.
    pub fn get_block_with_orientation(
        &self,
        block_orientation: Orientation,
        position: Vector2i,
    ) -> (block: Option<i32>)
        ensures
            block == self@.tile(
                position.x + block_orientation.offset().x,
                position.y + block_orientation.offset().y,
            ),
    {
        match block_orientation {
            Orientation::Top => self.handle_top(position),
            Orientation::Bottom => self.handle_bottom(position),
            Orientation::Left => self.handle_left(position),
            Orientation::Right => self.handle_right(position),
            Orientation::TopLeft => self.handle_top_left(position),
            Orientation::TopRight => self.handle_top_right(position),
            Orientation::BottomLeft => self.handle_bottom_left(position),
            Orientation::BottomRight => self.handle_bottom_right(position),
        }
    }

    fn handle_top(&self, position: Vector2i) -> (block: Option<i32>)
        ensures
            block == self@.tile(position.x - 1, position.y as int),
    {
        self.block_at(position.x as i64 - 1, position.y as i64)
    }

    fn handle_bottom(&self, position: Vector2i) -> (block: Option<i32>)
        ensures
            block == self@.tile(position.x + 1, position.y as int),
    {
        self.block_at(position.x as i64 + 1, position.y as i64)
    }

    fn handle_left(&self, position: Vector2i) -> (block: Option<i32>)
        ensures
            block == self@.tile(position.x as int, position.y - 1),
    {
        self.block_at(position.x as i64, position.y as i64 - 1)
    }

    fn handle_right(&self, position: Vector2i) -> (block: Option<i32>)
        ensures
            block == self@.tile(position.x as int, position.y + 1),
    {
        self.block_at(position.x as i64, position.y as i64 + 1)
    }

    fn handle_top_left(&self, position: Vector2i) -> (block: Option<i32>)
        ensures
            block == self@.tile(position.x - 1, position.y - 1),
    {
        self.block_at(position.x as i64 - 1, position.y as i64 - 1)
    }

    fn handle_top_right(&self, position: Vector2i) -> (block: Option<i32>)
        ensures
            block == self@.tile(position.x - 1, position.y + 1),
    {
        self.block_at(position.x as i64 - 1, position.y as i64 + 1)
    }

    fn handle_bottom_left(&self, position: Vector2i) -> (block: Option<i32>)
        ensures
            block == self@.tile(position.x + 1, position.y - 1),
    {
        self.block_at(position.x as i64 + 1, position.y as i64 - 1)
    }

    fn handle_bottom_right(&self, position: Vector2i) -> (block: Option<i32>)
        ensures
            block == self@.tile(position.x + 1, position.y + 1),
    {
        self.block_at(position.x as i64 + 1, position.y as i64 + 1)
    }
}

} // verus!
