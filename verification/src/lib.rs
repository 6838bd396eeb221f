//! The whole-number core of a first-person ray caster on a tile grid: the
//! grid, the walk of a ray through it, the wall slices and floor points of
//! each screen column, and the small state machines of the game around them.

use vstd::prelude::*;
use crate::map::Vector2i;

pub mod animation;
pub mod event_handler;
pub mod fps;
pub mod game_mode;
pub mod hud;
pub mod map;
pub mod mini_map;
pub mod raycasting_engine;
pub mod weapon;

verus! {

/// What the player chose when starting the game.
pub struct RustensteinOptions {
    /// Floor and ceiling are left undrawn.
    pub no_ground: bool,
    /// The frames drawn per second, at most.
    pub fps: u8,
    /// Width and height of the window.
    pub window_size: Vec<u16>,
    /// The mouse cursor is shown.
    pub cursor: bool,
}

impl RustensteinOptions {
    /// The middle of the window, where the mouse is put.
    pub fn window_center(&self) -> (center: Vector2i)
        requires
            self.window_size@.len() >= 2,
        ensures
            center.x == self.window_size@[0] / 2,
            center.y == self.window_size@[1] / 2,
    {
        Vector2i { x: self.window_size[0] as i32 / 2, y: self.window_size[1] as i32 / 2 }
    }
}

} // verus!
