//! The integer side of a grid ray caster.
//!
//! For each screen column a ray is walked through the grid, cell by cell, until
//! it meets a wall; the wall becomes a vertical textured slice, and the rows
//! under and over the slice become floor and ceiling points. The fractional
//! arithmetic on the ray itself (its direction, the distances along it) is the
//! caller's: what comes of it enters here as whole numbers and signs. This module
//! holds everything that is decided on whole numbers: which cell the walk enters
//! next and whether it ends there, where a slice starts and ends, which texture
//! column and texture it shows, and what the per-column draw buffers hold.

use vstd::prelude::*;
use crate::map::{Grid, GridView, Vector2i};

verus! {

/// Width and height of a texture, in texels.
pub const TEXTURE_SIZE: i32 = 128;

/// Added to a tile id to select the shaded variant of its texture.
pub const SHADED_TEXTURE_OFFSET: i32 = 5;

/// The texture of the floor points.
pub const GROUND_TEXTURE_ID: i32 = 0;

/// The texture of the ceiling points.
pub const SKY_TEXTURE_ID: i32 = 11;

/// The grid axis along which the walk made its last step. A wall that was
/// entered by a step along `X` is hit on a face that looks along the x axis.
#[derive(Clone, Copy, Debug, PartialEq, Eq, Structural)]
pub enum Side {
    X,
    Y,
}

/// The sign of one component of a ray's direction.
#[derive(Clone, Copy, Debug, PartialEq, Eq, Structural)]
pub enum Sign {
    Negative,
    Zero,
    Positive,
}

/// The signs of the two components of a ray's direction.
#[derive(Clone, Copy, Debug, PartialEq, Eq, Structural)]
pub struct RaySigns {
    pub x: Sign,
    pub y: Sign,
}

/// A point of a draw buffer: a screen position and a texel.
#[derive(Clone, Copy, Debug, PartialEq, Eq, Structural)]
pub struct Vertex {
    pub position: Vector2i,
    pub tex_coords: Vector2i,
}

/// The working values of one column. They are made anew for every column and
/// hold nothing of another column or frame.
#[derive(Clone, Copy, Debug, PartialEq, Eq, Structural)]
pub struct DrawState {
    /// The cell that the walk has reached.
    pub map_pos: Vector2i,
    /// The step that the walk makes along each axis.
    pub step: Vector2i,
    /// The axis of the last step.
    pub side: Side,
    /// The first screen row of the wall slice.
    pub draw_start: i32,
    /// The last screen row of the wall slice.
    pub draw_end: i32,
}

/// Where the floor under a wall face is anchored: the corner of the hit cell,
/// given as an offset from the cell, and the axis along which the face runs.
#[derive(Clone, Copy, Debug, PartialEq, Eq, Structural)]
pub struct FloorAnchor {
    pub corner: Vector2i,
    pub along: Side,
}

/// The step along one axis for a direction component of the given sign: back
/// for a negative component, forward otherwise.
pub open spec fn step_toward(sign: Sign) -> i32 {
    if sign == Sign::Negative {
        -1i32
    } else {
        1i32
    }
}

/// The height of a wall slice on a screen of `height` rows. `distance` is the
/// whole part of the distance to the wall and `ratio` the whole part of
/// `height` divided by that distance. A wall nearer than one cell fills the
/// screen.
pub open spec fn line_height(height: int, distance: int, ratio: int) -> int {
    if distance == 0 {
        height
    } else if ratio < 0 {
        -ratio
    } else {
        ratio
    }
}

/// The first row of a slice of `line` rows centred on a screen of `height` rows.
pub open spec fn slice_start(height: int, line: int) -> int {
    if height / 2 - line / 2 < 0 {
        0
    } else {
        height / 2 - line / 2
    }
}

/// The last row of a slice of `line` rows centred on a screen of `height` rows.
pub open spec fn slice_end(height: int, line: int) -> int {
    if height / 2 + line / 2 > height - 1 {
        height - 1
    } else {
        height / 2 + line / 2
    }
}

/// The texture column at the other end of the texture.
pub open spec fn mirrored(texture_x: int) -> int {
    TEXTURE_SIZE - texture_x - 1
}

/// Whether the texture of a wall face is shown mirrored: on a face entered
/// along x by a ray that runs toward greater x, and on a face entered along y
/// by a ray that runs toward lesser y.
pub open spec fn is_mirrored(side: Side, ray: RaySigns) -> bool {
    (side == Side::X && ray.x == Sign::Positive) || (side == Side::Y && ray.y == Sign::Negative)
}

/// The texture column shown where the ray hits `texture_x` texels along the
/// wall face.
pub open spec fn texture_column(texture_x: int, side: Side, ray: RaySigns) -> int {
    if is_mirrored(side, ray) {
        mirrored(texture_x)
    } else {
        texture_x
    }
}

/// The texture of a wall of tile id `tile` hit on the given side.
pub open spec fn wall_texture_id(tile: int, side: Side) -> int {
    if side == Side::Y {
        tile + SHADED_TEXTURE_OFFSET
    } else {
        tile
    }
}

/// The two ends of the wall slice of column `x`: the lower end with the last
/// texture row, then the upper end with the first.
pub open spec fn wall_line(x: i32, draw_start: i32, draw_end: i32, texture_x: i32) -> Seq<
    Vertex,
> {
    seq![
        Vertex {
            position: Vector2i { x, y: draw_end },
            tex_coords: Vector2i { x: texture_x, y: TEXTURE_SIZE },
        },
        Vertex {
            position: Vector2i { x, y: draw_start },
            tex_coords: Vector2i { x: texture_x, y: 0 },
        },
    ]
}

/// The number of screen rows under a slice that ends at row `draw_end`.
pub open spec fn plane_rows(height: int, draw_end: int) -> int {
    height - draw_end - 1
}

/// The texel at which a texture that repeats every `TEXTURE_SIZE` texels shows
/// the coordinate `v`, itself in texels: the remainder of `v`, with the sign
/// of `v`.
pub open spec fn wrap_texel(v: int) -> int {
    if v >= 0 {
        v % (TEXTURE_SIZE as int)
    } else {
        -((-v) % (TEXTURE_SIZE as int))
    }
}

/// The texel shown at a point of the floor that is given in texels.
pub open spec fn texel_at(point: Vector2i) -> Vector2i {
    Vector2i { x: wrap_texel(point.x as int) as i32, y: wrap_texel(point.y as int) as i32 }
}

/// The floor points of column `x` under a slice that ends at row `draw_end`:
/// one for each row below the slice, from the top down. `floor` holds for each
/// of these rows the point of the floor that is seen there, in texels.
pub open spec fn ground_points(x: i32, draw_end: i32, floor: Seq<Vector2i>) -> Seq<Vertex> {
    Seq::new(
        floor.len(),
        |i: int|
            Vertex {
                position: Vector2i { x, y: (draw_end + 1 + i) as i32 },
                tex_coords: texel_at(floor[i]),
            },
    )
}

/// The ceiling points of column `x` on a screen of `height` rows: the floor
/// points mirrored at the middle of the screen, with the same texels.
pub open spec fn sky_points(x: i32, draw_end: i32, height: i32, floor: Seq<Vector2i>) -> Seq<
    Vertex,
> {
    Seq::new(
        floor.len(),
        |i: int|
            Vertex {
                position: Vector2i { x, y: (height - (draw_end + 1 + i)) as i32 },
                tex_coords: texel_at(floor[i]),
            },
    )
}

/// Where the floor is anchored under a wall face that was hit on `side` by a
/// ray of the given signs.
pub open spec fn floor_anchor(side: Side, ray: RaySigns) -> FloorAnchor {
    if side == Side::X && ray.x == Sign::Positive {
        FloorAnchor { corner: Vector2i { x: 0, y: 0 }, along: Side::Y }
    } else if side == Side::X && ray.x == Sign::Negative {
        FloorAnchor { corner: Vector2i { x: 1, y: 0 }, along: Side::Y }
    } else if side == Side::Y && ray.y == Sign::Positive {
        FloorAnchor { corner: Vector2i { x: 0, y: 0 }, along: Side::X }
    } else {
        FloorAnchor { corner: Vector2i { x: 0, y: 1 }, along: Side::X }
    }
}

impl DrawState {
    /// The state after one more step of the walk: along x if `x_nearer`, the
    /// next grid line across x being the nearer one, else along y.
    pub open spec fn advanced(self, x_nearer: bool) -> DrawState {
        if x_nearer {
            DrawState {
                map_pos: Vector2i { x: (self.map_pos.x + self.step.x) as i32, y: self.map_pos.y },
                side: Side::X,
                ..self
            }
        } else {
            DrawState {
                map_pos: Vector2i { x: self.map_pos.x, y: (self.map_pos.y + self.step.y) as i32 },
                side: Side::Y,
                ..self
            }
        }
    }

    /// The state after the steps that `decisions` gives, one after the other.
    pub open spec fn walked(self, decisions: Seq<bool>) -> DrawState
        decreases decisions.len(),
    {
        if decisions.len() == 0 {
            self
        } else {
            self.walked(decisions.drop_last()).advanced(decisions.last())
        }
    }

    /// The step that `advanced` makes leaves the coordinate an `i32`.
    pub open spec fn can_advance(self, x_nearer: bool) -> bool {
        if x_nearer {
            i32::MIN <= self.map_pos.x + self.step.x <= i32::MAX
        } else {
            i32::MIN <= self.map_pos.y + self.step.y <= i32::MAX
        }
    }

    /// Each step leads to a neighbouring cell.
    pub open spec fn unit_steps(self) -> bool {
        &&& (self.step.x == 1 || self.step.x == -1)
        &&& (self.step.y == 1 || self.step.y == -1)
    }

    /// Where the face that the walk has crossed lies in the cell it has
    /// entered, along the axis of the last step: `0` for the face at the
    /// cell's own coordinate, met by a step forward, `1` for the face at the
    /// next coordinate, met by a step back.
    pub open spec fn face_offset(self) -> int {
        if self.side == Side::X {
            (1 - self.step.x) / 2
        } else {
            (1 - self.step.y) / 2
        }
    }

    /// The state with the slice of a wall of `line` rows on a screen of
    /// `height` rows.
    pub open spec fn with_slice(self, height: int, line: int) -> DrawState {
        DrawState {
            draw_start: slice_start(height, line) as i32,
            draw_end: slice_end(height, line) as i32,
            ..self
        }
    }
}

/// The mathematical model of an engine: its grid, its screen, and for every
/// screen column the wall line, the wall's texture and the floor and ceiling
/// points.
pub struct REngineView {
    pub map: GridView,
    pub window_size: Vector2i,
    pub vertex_array: Seq<Seq<Vertex>>,
    pub textures_id: Seq<i32>,
    pub ground: Seq<Seq<Vertex>>,
    pub sky: Seq<Seq<Vertex>>,
    pub no_ground: bool,
}

impl REngineView {
    /// The screen is not empty and every buffer has one entry per column.
    pub open spec fn wf(self) -> bool {
        &&& self.map.wf()
        &&& self.window_size.x >= 1
        &&& self.window_size.y >= 1
        &&& self.vertex_array.len() == self.window_size.x
        &&& self.textures_id.len() == self.window_size.x
        &&& self.ground.len() == self.window_size.x
        &&& self.sky.len() == self.window_size.x
    }

    /// The engine with the wall line and the wall texture of column `x` replaced.
    pub open spec fn with_wall(self, x: int, line: Seq<Vertex>, texture: i32) -> REngineView {
        REngineView {
            vertex_array: self.vertex_array.update(x, line),
            textures_id: self.textures_id.update(x, texture),
            ..self
        }
    }

    /// The engine with the floor and ceiling points of column `x` replaced.
    pub open spec fn with_planes(self, x: int, ground: Seq<Vertex>, sky: Seq<Vertex>) -> REngineView {
        REngineView { ground: self.ground.update(x, ground), sky: self.sky.update(x, sky), ..self }
    }

    /// The engine after the wall of column `x` was worked out from the state
    /// of the column, the signs of its ray and the place `texture_x` where the
    /// ray hit the wall face, in texels along the face.
    pub open spec fn calculate_wall_texture(
        self,
        state: DrawState,
        ray: RaySigns,
        x: i32,
        texture_x: i32,
    ) -> REngineView {
        self.with_wall(
            x as int,
            wall_line(
                x,
                state.draw_start,
                state.draw_end,
                texture_column(texture_x as int, state.side, ray) as i32,
            ),
            wall_texture_id(
                self.map.tile(state.map_pos.x as int, state.map_pos.y as int).unwrap() as int,
                state.side,
            ) as i32,
        )
    }

    /// The engine after the floor and the ceiling of column `x` were worked
    /// out from the state of the column and, for each row under the wall
    /// slice, the point of the floor that is seen there.
    pub open spec fn calculate_ground(
        self,
        state: DrawState,
        x: i32,
        floor: Seq<Vector2i>,
    ) -> REngineView {
        self.with_planes(
            x as int,
            ground_points(x, state.draw_end, floor),
            sky_points(x, state.draw_end, self.window_size.y, floor),
        )
    }
}

/// The per-column draw buffers of one screen, with the grid that is drawn.
pub struct REngine {
    map: Grid,
    window_size: Vector2i,
    vertex_array: Vec<Vec<Vertex>>,
    textures_id: Vec<i32>,
    ground: Vec<Vec<Vertex>>,
    sky: Vec<Vec<Vertex>>,
    no_ground: bool,
}

impl View for REngine {
    type V = REngineView;

    closed spec fn view(&self) -> REngineView {
        REngineView {
            map: self.map@,
            window_size: self.window_size,
            vertex_array: Seq::new(self.vertex_array@.len(), |i: int| self.vertex_array@[i]@),
            textures_id: self.textures_id@,
            ground: Seq::new(self.ground@.len(), |i: int| self.ground@[i]@),
            sky: Seq::new(self.sky@.len(), |i: int| self.sky@[i]@),
            no_ground: self.no_ground,
        }
    }
}

impl REngine {
    /// Holds of every engine.
    #[verifier::type_invariant]
    pub open spec fn inv(&self) -> bool {
        self@.wf()
    }

    /// An engine that draws `map` on a screen of `window_size.x` columns and
    /// `window_size.y` rows, with every buffer empty. A screen without columns
    /// or without rows is refused.
    pub fn new(map: Grid, window_size: Vector2i, no_ground: bool) -> (engine: Option<REngine>)
        ensures
            engine is Some <==> window_size.x >= 1 && window_size.y >= 1,
            engine matches Some(e) ==> {
                &&& e@.wf()
                &&& e@.map == map@
                &&& e@.window_size == window_size
                &&& e@.no_ground == no_ground
                &&& forall|x: int|
                    0 <= x < window_size.x ==> {
                        &&& #[trigger] e@.vertex_array[x] == Seq::<Vertex>::empty()
                        &&& e@.textures_id[x] == 0
                        &&& e@.ground[x] == Seq::<Vertex>::empty()
                        &&& e@.sky[x] == Seq::<Vertex>::empty()
                    }
            },
    {
        if window_size.x < 1 || window_size.y < 1 {
            return None;
        }
        proof {
            use_type_invariant(&map);
        }
        let mut textures_id: Vec<i32> = Vec::new();
        let mut column: i32 = 0;
        while column < window_size.x
            invariant
                0 <= column <= window_size.x,
                textures_id@.len() == column,
                forall|x: int| 0 <= x < column ==> textures_id@[x] == 0,
            decreases window_size.x - column,
        {
            textures_id.push(0);
            column += 1;
        }
        let vertex_array = Self::create_line_array(window_size);
        let ground = Self::create_line_array(window_size);
        let sky = Self::create_line_array(window_size);
        let engine = REngine { map, window_size, vertex_array, textures_id, ground, sky, no_ground };
        assert forall|x: int| 0 <= x < window_size.x implies {
            &&& #[trigger] engine@.vertex_array[x] == Seq::<Vertex>::empty()
            &&& engine@.ground[x] == Seq::<Vertex>::empty()
            &&& engine@.sky[x] == Seq::<Vertex>::empty()
        } by {
            assert(engine.vertex_array@[x]@ =~= Seq::<Vertex>::empty());
            assert(engine.ground@[x]@ =~= Seq::<Vertex>::empty());
            assert(engine.sky@[x]@ =~= Seq::<Vertex>::empty());
        }
        Some(engine)
    }

    /// One empty buffer for each of the `window_size.x` columns.
    fn create_line_array(window_size: Vector2i) -> (lines: Vec<Vec<Vertex>>)
        ensures
            lines@.len() == if window_size.x < 0 {
                0
            } else {
                window_size.x as int
            },
            forall|x: int| 0 <= x < lines@.len() ==> (#[trigger] lines@[x])@.len() == 0,
    {
        let mut lines: Vec<Vec<Vertex>> = Vec::new();
        let mut column: i32 = 0;
        while column < window_size.x
            invariant
                0 <= column,
                window_size.x < 0 ==> column == 0,
                window_size.x >= 0 ==> column <= window_size.x,
                lines@.len() == column,
                forall|x: int| 0 <= x < lines@.len() ==> (#[trigger] lines@[x])@.len() == 0,
            decreases window_size.x - column,
        {
            lines.push(Vec::new());
            column += 1;
        }
        lines
    }

    /// The grid that is drawn.
    pub fn get_map(&self) -> (map: &Grid)
        ensures
            map@ == self@.map,
    {
        &self.map
    }

    /// The size of the screen: columns and rows.
    pub fn get_window_size(&self) -> (size: Vector2i)
        ensures
            size == self@.window_size,
    {
        self.window_size
    }

    /// Whether floor and ceiling are left undrawn.
    pub fn is_ground_disabled(&self) -> (disabled: bool)
        ensures
            disabled == self@.no_ground,
    {
        self.no_ground
    }

    /// Leaves floor and ceiling undrawn from now on.
    pub fn disable_ground(&mut self)
        ensures
            final(self)@ == (REngineView { no_ground: true, ..old(self)@ }),
    {
        proof {
            use_type_invariant(&*self);
        }
        self.no_ground = true;
    }

    /// The state of a column whose ray starts in cell `map_pos` and runs in
    /// the direction of the given signs: no step made yet, no slice yet.
    pub fn calculate_step(map_pos: Vector2i, ray: RaySigns) -> (state: DrawState)
        ensures
            state == (DrawState {
                map_pos,
                step: Vector2i { x: step_toward(ray.x), y: step_toward(ray.y) },
                side: Side::X,
                draw_start: 0,
                draw_end: 0,
            }),
    {
        let step_x: i32 = match ray.x {
            Sign::Negative => -1,
            _ => 1,
        };
        let step_y: i32 = match ray.y {
            Sign::Negative => -1,
            _ => 1,
        };
        DrawState {
            map_pos,
            step: Vector2i { x: step_x, y: step_y },
            side: Side::X,
            draw_start: 0,
            draw_end: 0,
        }
    }

    /// Makes one step of the walk, along x if `x_nearer` and along y if not,
    /// and tells whether the walk ends in the cell it has entered: at a wall,
    /// or outside the grid.
    pub fn hit_wall(&self, state: &mut DrawState, x_nearer: bool) -> (hit: bool)
        requires
            old(state).can_advance(x_nearer),
        ensures
            *final(state) == old(state).advanced(x_nearer),
            hit == !self@.map.walkable(
                final(state).map_pos.x as int,
                final(state).map_pos.y as int,
            ),
    {
        if x_nearer {
            state.map_pos.x = state.map_pos.x + state.step.x;
            state.side = Side::X;
        } else {
            state.map_pos.y = state.map_pos.y + state.step.y;
            state.side = Side::Y;
        }
        !self.map.is_walkable(state.map_pos)
    }

    /// Where the face that the walk has crossed lies in the cell it has
    /// entered, along the axis of the last step: `0` or `1`.
    pub fn calculate_face_offset(state: &DrawState) -> (offset: i32)
        requires
            state.unit_steps(),
        ensures
            offset == state.face_offset(),
            offset == 0 || offset == 1,
    {
        match state.side {
            Side::X => (1 - state.step.x) / 2,
            Side::Y => (1 - state.step.y) / 2,
        }
    }

    /// Sets the first and the last row of the wall slice. `distance` is the
    /// whole part of the distance to the wall, and `ratio` the whole part of
    /// the screen height divided by that distance.
    pub fn calculate_wall_height(&self, state: &mut DrawState, distance: i32, ratio: i32)
        ensures
            *final(state) == old(state).with_slice(
                self@.window_size.y as int,
                line_height(self@.window_size.y as int, distance as int, ratio as int),
            ),
            0 <= final(state).draw_start <= final(state).draw_end < self@.window_size.y,
    {
        proof {
            use_type_invariant(self);
        }
        let height: i64 = self.window_size.y as i64;
        let line: i64 = if distance == 0 {
            height
        } else if ratio < 0 {
            -(ratio as i64)
        } else {
            ratio as i64
        };
        let start: i64 = height / 2 - line / 2;
        let end: i64 = height / 2 + line / 2;
        state.draw_start = if start < 0 {
            0
        } else {
            start as i32
        };
        state.draw_end = if end > height - 1 {
            (height - 1) as i32
        } else {
            end as i32
        };
    }

    /// The texture column shown where a ray of the given signs hits a wall
    /// face on `side`, `texture_x` texels along the face.
    fn wall_texture_x(texture_x: i32, side: Side, ray: RaySigns) -> (column: i32)
        requires
            0 <= texture_x < TEXTURE_SIZE,
        ensures
            column == texture_column(texture_x as int, side, ray),
            0 <= column < TEXTURE_SIZE,
    {
        let mut column = texture_x;
        if side == Side::X && ray.x == Sign::Positive {
            column = TEXTURE_SIZE - column - 1;
        }
        if side == Side::Y && ray.y == Sign::Negative {
            column = TEXTURE_SIZE - column - 1;
        }
        column
    }

    /// Works out the wall of column `x`: the line from the lower to the upper
    /// end of the slice, textured with the column of the wall's texture that
    /// the ray hit, and the texture itself, which is the tile id of the hit
    /// cell, shaded where the wall was entered along y. `texture_x` is the
    /// place of the hit, in texels along the wall face.
    pub fn calculate_wall_texture(
        &mut self,
        state: &DrawState,
        ray: RaySigns,
        x: i32,
        texture_x: i32,
    )
        requires
            0 <= x < old(self)@.window_size.x,
            0 <= texture_x < TEXTURE_SIZE,
            old(self)@.map.in_bounds(state.map_pos.x as int, state.map_pos.y as int),
            wall_texture_id(
                old(self)@.map.tile(state.map_pos.x as int, state.map_pos.y as int).unwrap() as int,
                state.side,
            ) <= i32::MAX,
        ensures
            final(self)@ == old(self)@.calculate_wall_texture(*state, ray, x, texture_x),
    {
        proof {
            use_type_invariant(&*self);
        }
        let column = Self::wall_texture_x(texture_x, state.side, ray);
        let mut texture_id = self.map.get_block(state.map_pos).unwrap();
        if state.side == Side::Y {
            texture_id = texture_id + SHADED_TEXTURE_OFFSET;
        }
        let mut line: Vec<Vertex> = Vec::new();
        line.push(
            Vertex {
                position: Vector2i { x, y: state.draw_end },
                tex_coords: Vector2i { x: column, y: TEXTURE_SIZE },
            },
        );
        line.push(
            Vertex {
                position: Vector2i { x, y: state.draw_start },
                tex_coords: Vector2i { x: column, y: 0 },
            },
        );
        assert(line@ =~= wall_line(x, state.draw_start, state.draw_end, column));
        self.vertex_array[x as usize] = line;
        self.textures_id[x as usize] = texture_id;
        assert(self@.vertex_array =~= old(self)@.vertex_array.update(x as int, line@));
        assert(self@.ground =~= old(self)@.ground);
        assert(self@.sky =~= old(self)@.sky);
    }

    /// Where the floor is anchored under the wall face that the walk has hit.
    pub fn calculate_floor(state: &DrawState, ray: RaySigns) -> (anchor: FloorAnchor)
        ensures
            anchor == floor_anchor(state.side, ray),
    {
        if state.side == Side::X && ray.x == Sign::Positive {
            FloorAnchor { corner: Vector2i { x: 0, y: 0 }, along: Side::Y }
        } else if state.side == Side::X && ray.x == Sign::Negative {
            FloorAnchor { corner: Vector2i { x: 1, y: 0 }, along: Side::Y }
        } else if state.side == Side::Y && ray.y == Sign::Positive {
            FloorAnchor { corner: Vector2i { x: 0, y: 0 }, along: Side::X }
        } else {
            FloorAnchor { corner: Vector2i { x: 0, y: 1 }, along: Side::X }
        }
    }

    /// The texel shown at a point of the floor that is given in texels.
    fn floor_texel(point: Vector2i) -> (texel: Vector2i)
        ensures
            texel == texel_at(point),
    {
        Vector2i { x: point.x % TEXTURE_SIZE, y: point.y % TEXTURE_SIZE }
    }

    /// Works out floor and ceiling of column `x`. `floor` holds, for each row
    /// under the wall slice, from the row below the slice down to the last row
    /// of the screen, the point of the floor that is seen in that row, in
    /// texels. The ceiling shows the same texel in the row as far above the
    /// middle of the screen. What the two buffers of the column held before
    /// is gone.
    pub fn calculate_ground(&mut self, state: &DrawState, x: i32, floor: &Vec<Vector2i>)
        requires
            0 <= x < old(self)@.window_size.x,
            0 <= state.draw_end,
            floor@.len() == plane_rows(old(self)@.window_size.y as int, state.draw_end as int),
        ensures
            final(self)@ == old(self)@.calculate_ground(*state, x, floor@),
    {
        proof {
            use_type_invariant(&*self);
        }
        let height = self.window_size.y;
        let mut ground: Vec<Vertex> = Vec::new();
        let mut sky: Vec<Vertex> = Vec::new();
        let mut y: i32 = state.draw_end + 1;
        let mut row: usize = 0;
        while y < height
            invariant
                0 <= state.draw_end,
                floor@.len() == plane_rows(height as int, state.draw_end as int),
                y == state.draw_end + 1 + row,
                y <= height,
                ground@ == ground_points(x, state.draw_end, floor@.take(row as int)),
                sky@ == sky_points(x, state.draw_end, height, floor@.take(row as int)),
            decreases height - y,
        {
            let tex_coords = Self::floor_texel(floor[row]);
            ground.push(Vertex { position: Vector2i { x, y }, tex_coords });
            sky.push(Vertex { position: Vector2i { x, y: height - y }, tex_coords });
            assert(ground@ =~= ground_points(x, state.draw_end, floor@.take(row as int + 1)));
            assert(sky@ =~= sky_points(x, state.draw_end, height, floor@.take(row as int + 1)));
            y += 1;
            row += 1;
        }
        assert(floor@.take(row as int) =~= floor@);
        self.ground[x as usize] = ground;
        self.sky[x as usize] = sky;
        assert(self@.ground =~= old(self)@.ground.update(x as int, ground@));
        assert(self@.sky =~= old(self)@.sky.update(x as int, sky@));
        assert(self@.vertex_array =~= old(self)@.vertex_array);
    }

    /// The wall line of column `x`.
    pub fn wall_line(&self, x: i32) -> (line: &Vec<Vertex>)
        requires
            0 <= x < self@.window_size.x,
        ensures
            line@ == self@.vertex_array[x as int],
    {
        proof {
            use_type_invariant(self);
        }
        &self.vertex_array[x as usize]
    }

    /// The texture of the wall of column `x`.
    pub fn wall_texture(&self, x: i32) -> (texture: i32)
        requires
            0 <= x < self@.window_size.x,
        ensures
            texture == self@.textures_id[x as int],
    {
        proof {
            use_type_invariant(self);
        }
        self.textures_id[x as usize]
    }

    /// The floor points of column `x`.
    pub fn ground_line(&self, x: i32) -> (line: &Vec<Vertex>)
        requires
            0 <= x < self@.window_size.x,
        ensures
            line@ == self@.ground[x as int],
    {
        proof {
            use_type_invariant(self);
        }
        &self.ground[x as usize]
    }

    /// The ceiling points of column `x`.
    pub fn sky_line(&self, x: i32) -> (line: &Vec<Vertex>)
        requires
            0 <= x < self@.window_size.x,
        ensures
            line@ == self@.sky[x as int],
    {
        proof {
            use_type_invariant(self);
        }
        &self.sky[x as usize]
    }
}

impl GridView {
    /// The number of steps after which a walk in `state` has left the grid at
    /// the latest: the steps to the edge ahead along x and those along y.
    pub open spec fn steps_left(self, state: DrawState) -> int {
        (if state.step.x > 0 {
            self.width - state.map_pos.x
        } else {
            state.map_pos.x + 1
        }) + (if state.step.y > 0 {
            self.height - state.map_pos.y
        } else {
            state.map_pos.y + 1
        })
    }
}

/// The walk ends. From a cell of the grid a step can always be made; it
/// lowers the number of steps left by one; and that number is at least two in
/// every cell of the grid and at most width plus height. So a walk that starts
/// in the grid has left it, or found a wall before, after fewer steps than
/// width plus height.
pub proof fn lemma_walk_ends(grid: GridView, state: DrawState, x_nearer: bool)
    requires
        grid.wf(),
        grid.in_bounds(state.map_pos.x as int, state.map_pos.y as int),
        state.unit_steps(),
    ensures
        state.can_advance(x_nearer),
        grid.steps_left(state.advanced(x_nearer)) == grid.steps_left(state) - 1,
        2 <= grid.steps_left(state) <= grid.width + grid.height,
        grid.steps_left(state.advanced(x_nearer)) < 2 ==> !grid.in_bounds(
            state.advanced(x_nearer).map_pos.x as int,
            state.advanced(x_nearer).map_pos.y as int,
        ),
{
}

/// In a grid whose outermost ring is all wall, a walk that stands in an empty
/// cell stays in the grid with its next step: it ends at a wall of the grid,
/// never outside.
pub proof fn lemma_enclosed_walk_stays_inside(grid: GridView, state: DrawState, x_nearer: bool)
    requires
        grid.wf(),
        grid.enclosed(),
        grid.walkable(state.map_pos.x as int, state.map_pos.y as int),
        state.unit_steps(),
    ensures
        grid.in_bounds(
            state.advanced(x_nearer).map_pos.x as int,
            state.advanced(x_nearer).map_pos.y as int,
        ),
{
    assert(!grid.on_border(state.map_pos.x as int, state.map_pos.y as int));
}

/// The number of steps along x among `decisions`.
pub open spec fn steps_along_x(decisions: Seq<bool>) -> int
    decreases decisions.len(),
{
    if decisions.len() == 0 {
        0
    } else if decisions.last() {
        steps_along_x(decisions.drop_last()) + 1
    } else {
        steps_along_x(decisions.drop_last())
    }
}

/// A walk is a staircase: it has moved along x by as many steps as
/// `decisions` asks along x, and along y by the others, each in the direction
/// in which the walk was started.
pub proof fn lemma_walk_is_a_staircase(state: DrawState, decisions: Seq<bool>)
    requires
        state.unit_steps(),
        i32::MIN <= state.map_pos.x - decisions.len(),
        state.map_pos.x + decisions.len() <= i32::MAX,
        i32::MIN <= state.map_pos.y - decisions.len(),
        state.map_pos.y + decisions.len() <= i32::MAX,
    ensures
        0 <= steps_along_x(decisions) <= decisions.len(),
        state.walked(decisions).map_pos.x == state.map_pos.x + state.step.x * steps_along_x(
            decisions,
        ),
        state.walked(decisions).map_pos.y == state.map_pos.y + state.step.y * (decisions.len()
            - steps_along_x(decisions)),
        decisions.len() > 0 ==> state.walked(decisions).side == if decisions.last() {
            Side::X
        } else {
            Side::Y
        },
    decreases decisions.len(),
{
    if decisions.len() > 0 {
        let before = decisions.drop_last();
        lemma_walk_is_a_staircase(state, before);
        lemma_walked_keeps_steps(state, before);
        let along_x = steps_along_x(before);
        let along_y = before.len() - along_x;
        assert(state.step.x * (along_x + 1) == state.step.x * along_x + state.step.x)
            by (nonlinear_arith);
        assert(state.step.y * (along_y + 1) == state.step.y * along_y + state.step.y)
            by (nonlinear_arith);
        assert(-along_x <= state.step.x * along_x <= along_x) by (nonlinear_arith)
            requires
                state.step.x == 1 || state.step.x == -1,
                0 <= along_x,
        ;
        assert(-along_y <= state.step.y * along_y <= along_y) by (nonlinear_arith)
            requires
                state.step.y == 1 || state.step.y == -1,
                0 <= along_y,
        ;
    }
}

/// A walk keeps the steps it was started with.
pub proof fn lemma_walked_keeps_steps(state: DrawState, decisions: Seq<bool>)
    ensures
        state.walked(decisions).step == state.step,
    decreases decisions.len(),
{
    if decisions.len() > 0 {
        lemma_walked_keeps_steps(state, decisions.drop_last());
    }
}

/// No walk stays in the grid for long. A walk that starts in the grid and is
/// in the grid after each of its steps has made at most width plus height
/// minus two steps, whatever the order of its steps along x and along y.
pub proof fn lemma_walk_is_short(grid: GridView, state: DrawState, decisions: Seq<bool>)
    requires
        grid.wf(),
        state.unit_steps(),
        forall|k: int|
            0 <= k <= decisions.len() ==> grid.in_bounds(
                (#[trigger] state.walked(decisions.take(k))).map_pos.x as int,
                state.walked(decisions.take(k)).map_pos.y as int,
            ),
    ensures
        grid.steps_left(state.walked(decisions)) == grid.steps_left(state) - decisions.len(),
        decisions.len() <= grid.width + grid.height - 2,
    decreases decisions.len(),
{
    assert(decisions.take(decisions.len() as int) =~= decisions);
    assert(state.walked(decisions.take(0)) == state);
    lemma_walk_ends(grid, state, true);
    if decisions.len() > 0 {
        let before = decisions.drop_last();
        assert forall|k: int| 0 <= k <= before.len() implies grid.in_bounds(
            (#[trigger] state.walked(before.take(k))).map_pos.x as int,
            state.walked(before.take(k)).map_pos.y as int,
        ) by {
            assert(before.take(k) =~= decisions.take(k));
        }
        lemma_walk_is_short(grid, state, before);
        lemma_walked_keeps_steps(state, before);
        assert(before =~= decisions.take(decisions.len() - 1));
        lemma_walk_ends(grid, state.walked(before), decisions.last());
        lemma_walked_keeps_steps(state, decisions);
        lemma_walk_ends(grid, state.walked(decisions), true);
    }
}

/// In a grid whose outermost ring is all wall, a walk over empty cells ends in
/// the grid: where the walk starts in an empty cell and stands in an empty
/// cell after each step but the last, it is in the grid after the last, at a
/// wall of the grid or in one more empty cell, never outside.
pub proof fn lemma_enclosed_walk_ends_inside(
    grid: GridView,
    state: DrawState,
    decisions: Seq<bool>,
)
    requires
        grid.wf(),
        grid.enclosed(),
        state.unit_steps(),
        decisions.len() >= 1,
        forall|k: int|
            0 <= k < decisions.len() ==> grid.walkable(
                (#[trigger] state.walked(decisions.take(k))).map_pos.x as int,
                state.walked(decisions.take(k)).map_pos.y as int,
            ),
    ensures
        grid.in_bounds(
            state.walked(decisions).map_pos.x as int,
            state.walked(decisions).map_pos.y as int,
        ),
{
    let before = decisions.drop_last();
    assert(before =~= decisions.take(decisions.len() - 1));
    lemma_walked_keeps_steps(state, before);
    lemma_enclosed_walk_stays_inside(grid, state.walked(before), decisions.last());
}

/// A slice lies on the screen, its start not below its end.
pub proof fn lemma_slice_on_screen(height: int, line: int)
    requires
        height >= 1,
        line >= 0,
    ensures
        0 <= slice_start(height, line) <= slice_end(height, line) < height,
{
}

/// A slice ends in the lower half of the screen: for every row `y` under it,
/// `2 * y - height` is positive.
pub proof fn lemma_rows_under_slice(height: int, line: int, y: int)
    requires
        height >= 1,
        line >= 0,
        slice_end(height, line) < y,
    ensures
        2 * y - height >= 1,
{
}

/// Mirroring a texture column twice gives the column back, and a mirrored
/// column is a column of the texture.
pub proof fn lemma_mirrored_twice(texture_x: int)
    ensures
        mirrored(mirrored(texture_x)) == texture_x,
        0 <= texture_x < TEXTURE_SIZE ==> 0 <= mirrored(texture_x) < TEXTURE_SIZE,
{
}

/// The same place on a wall face shows mirror-image texture columns to rays
/// that come from its two sides. On a face entered along x, a ray toward
/// greater x sees `TEXTURE_SIZE - texture_x - 1` and a ray toward lesser x
/// sees `texture_x`; on a face entered along y it is the other way round.
pub proof fn lemma_mirroring_symmetry(texture_x: int, side: Side, toward: RaySigns, back: RaySigns)
    requires
        toward.x == Sign::Positive,
        toward.y == Sign::Positive,
        back.x == Sign::Negative,
        back.y == Sign::Negative,
    ensures
        texture_column(texture_x, Side::X, toward) == TEXTURE_SIZE - texture_x - 1,
        texture_column(texture_x, Side::X, back) == texture_x,
        texture_column(texture_x, Side::Y, back) == TEXTURE_SIZE - texture_x - 1,
        texture_column(texture_x, Side::Y, toward) == texture_x,
        texture_column(texture_x, side, toward) == mirrored(texture_column(texture_x, side, back)),
        texture_column(texture_x, side, back) == mirrored(texture_column(texture_x, side, toward)),
{
}

/// The floor and ceiling points of a column depend on the column's state and
/// the floor seen in its rows alone: there are as many of each as rows, and
/// working a column out a second time from the same state and floor changes
/// nothing.
pub proof fn lemma_calculate_ground_twice(
    engine: REngineView,
    state: DrawState,
    x: i32,
    floor: Seq<Vector2i>,
)
    requires
        engine.wf(),
        0 <= x < engine.window_size.x,
    ensures
        engine.calculate_ground(state, x, floor).wf(),
        engine.calculate_ground(state, x, floor).ground[x as int].len() == floor.len(),
        engine.calculate_ground(state, x, floor).sky[x as int].len() == floor.len(),
        engine.calculate_ground(state, x, floor).calculate_ground(state, x, floor)
            == engine.calculate_ground(state, x, floor),
{
    let once = engine.calculate_ground(state, x, floor);
    let twice = once.calculate_ground(state, x, floor);
    assert(twice.ground =~= once.ground);
    assert(twice.sky =~= once.sky);
}

/// The columns do not depend on one another: working out one column leaves
/// the buffers of every other column as they were, so two columns can be
/// worked out in either order.
pub proof fn lemma_columns_are_independent(
    engine: REngineView,
    state: DrawState,
    ray: RaySigns,
    x: i32,
    texture_x: i32,
    floor: Seq<Vector2i>,
    other_state: DrawState,
    other_ray: RaySigns,
    other_x: i32,
    other_texture_x: i32,
    other_floor: Seq<Vector2i>,
)
    requires
        engine.wf(),
        0 <= x < engine.window_size.x,
        0 <= other_x < engine.window_size.x,
        x != other_x,
    ensures
        engine.calculate_wall_texture(state, ray, x, texture_x).vertex_array[other_x as int]
            == engine.vertex_array[other_x as int],
        engine.calculate_wall_texture(state, ray, x, texture_x).textures_id[other_x as int]
            == engine.textures_id[other_x as int],
        engine.calculate_ground(state, x, floor).ground[other_x as int]
            == engine.ground[other_x as int],
        engine.calculate_ground(state, x, floor).sky[other_x as int] == engine.sky[other_x as int],
        engine.calculate_wall_texture(state, ray, x, texture_x).calculate_wall_texture(
            other_state,
            other_ray,
            other_x,
            other_texture_x,
        ) == engine.calculate_wall_texture(
            other_state,
            other_ray,
            other_x,
            other_texture_x,
        ).calculate_wall_texture(state, ray, x, texture_x),
        engine.calculate_ground(state, x, floor).calculate_ground(other_state, other_x, other_floor)
            == engine.calculate_ground(other_state, other_x, other_floor).calculate_ground(
            state,
            x,
            floor,
        ),
{
    let walls = engine.calculate_wall_texture(state, ray, x, texture_x).calculate_wall_texture(
        other_state,
        other_ray,
        other_x,
        other_texture_x,
    );
    let other_walls = engine.calculate_wall_texture(
        other_state,
        other_ray,
        other_x,
        other_texture_x,
    ).calculate_wall_texture(state, ray, x, texture_x);
    assert(walls.vertex_array =~= other_walls.vertex_array);
    assert(walls.textures_id =~= other_walls.textures_id);
    let planes = engine.calculate_ground(state, x, floor).calculate_ground(
        other_state,
        other_x,
        other_floor,
    );
    let other_planes = engine.calculate_ground(other_state, other_x, other_floor).calculate_ground(
        state,
        x,
        floor,
    );
    assert(planes.ground =~= other_planes.ground);
    assert(planes.sky =~= other_planes.sky);
}

} // verus!
