//! The four weapons of the player: which one is held, and the animation of
//! each.
//!
//! A weapon fires while the left mouse button is held or the use key is down.
//! Firing asks the animation of the held weapon to play; the animation then
//! runs through its frames once.

use vstd::prelude::*;
use crate::animation::{Animation, AnimationView, PlayMode, PlayState};

verus! {

/// What the player asks of the weapons in one frame.
#[derive(Clone, Copy, Debug, PartialEq, Eq, Structural)]
pub struct WeaponInput {
    /// The key of the first weapon was pressed.
    pub num1: bool,
    /// The key of the second weapon was pressed.
    pub num2: bool,
    /// The key of the third weapon was pressed.
    pub num3: bool,
    /// The key of the fourth weapon was pressed.
    pub num4: bool,
    /// The left mouse button was pressed.
    pub fire_pressed: bool,
    /// The left mouse button was released.
    pub fire_released: bool,
    /// The use key is down.
    pub use_key: bool,
}

pub struct Weapon {
    animations: Vec<Animation>,
    shadows_id: Vec<i32>,
    current_weapon: usize,
    mouse_fire: bool,
}

/// The mathematical model of the weapons.
pub struct WeaponView {
    pub animations: Seq<AnimationView>,
    pub shadows_id: Seq<i32>,
    pub current_weapon: int,
    /// The left mouse button is held.
    pub mouse_fire: bool,
}

impl WeaponView {
    /// There are four weapons, each with a shadow and with an animation that
    /// can be played, and one of them is held.
    pub open spec fn wf(self) -> bool {
        &&& self.animations.len() == 4
        &&& self.shadows_id.len() == 4
        &&& 0 <= self.current_weapon < 4
        &&& forall|i: int|
            0 <= i < 4 ==> {
                &&& (#[trigger] self.animations[i]).wf()
                &&& self.animations[i].a < self.animations[i].texture_ids.len()
            }
    }

    /// The animation of the weapon held.
    pub open spec fn shown(self) -> AnimationView {
        self.animations[self.current_weapon]
    }

    /// The weapon held after the keys of `input`: that of the last of the four
    /// keys that was pressed, or the same as before.
    pub open spec fn selected(self, input: WeaponInput) -> int {
        if input.num4 {
            3
        } else if input.num3 {
            2
        } else if input.num2 {
            1
        } else if input.num1 {
            0
        } else {
            self.current_weapon
        }
    }

    /// Whether the mouse fires the weapon: the button goes down, or it was
    /// down and does not come up.
    pub open spec fn mouse_fires(self, input: WeaponInput) -> bool {
        if self.mouse_fire {
            !input.fire_released
        } else {
            input.fire_pressed
        }
    }

    /// The animation of the held weapon once the mouse has had its say.
    pub open spec fn after_mouse(self, input: WeaponInput) -> AnimationView {
        let animation = self.animations[self.selected(input)];
        if self.mouse_fires(input) {
            animation.set_state(PlayState::Play)
        } else {
            animation
        }
    }

    /// The animation of the held weapon once mouse and use key have had
    /// their say.
    pub open spec fn after_fire(self, input: WeaponInput) -> AnimationView {
        if input.use_key {
            self.after_mouse(input).set_state(PlayState::Play)
        } else {
            self.after_mouse(input)
        }
    }

    /// The weapons after the input of one frame.
    pub open spec fn update(self, input: WeaponInput) -> WeaponView {
        WeaponView {
            animations: self.animations.update(self.selected(input), self.after_fire(input)),
            current_weapon: self.selected(input),
            mouse_fire: self.mouse_fires(input),
            ..self
        }
    }

    /// Whether the input of one frame restarts the clock of the held weapon.
    pub open spec fn update_restarts(self, input: WeaponInput) -> bool {
        ||| self.mouse_fires(input) && self.animations[self.selected(input)].set_state_restarts(
            PlayState::Play,
        )
        ||| input.use_key && self.after_mouse(input).set_state_restarts(PlayState::Play)
    }

    /// The weapons after the animation of the held weapon was updated.
    pub open spec fn update_animation(self, lag_elapsed: bool) -> WeaponView {
        WeaponView {
            animations: self.animations.update(
                self.current_weapon,
                self.shown().update(lag_elapsed),
            ),
            ..self
        }
    }
}

impl View for Weapon {
    type V = WeaponView;

    closed spec fn view(&self) -> WeaponView {
        WeaponView {
            animations: animation_views(self.animations@),
            shadows_id: self.shadows_id@,
            current_weapon: self.current_weapon as int,
            mouse_fire: self.mouse_fire,
        }
    }
}

/// The models of the animations.
spec fn animation_views(animations: Seq<Animation>) -> Seq<AnimationView> {
    Seq::new(animations.len(), |i: int| animations[i]@)
}

/// Asks the animation at `index` to play, and tells whether its clock is to be
/// restarted.
fn play(animations: &mut Vec<Animation>, index: usize) -> (restart: bool)
    requires
        index < old(animations)@.len(),
        animation_views(old(animations)@)[index as int].a < animation_views(
            old(animations)@,
        )[index as int].texture_ids.len(),
    ensures
        animation_views(final(animations)@) == animation_views(old(animations)@).update(
            index as int,
            animation_views(old(animations)@)[index as int].set_state(PlayState::Play),
        ),
        restart == animation_views(old(animations)@)[index as int].set_state_restarts(
            PlayState::Play,
        ),
    no_unwind
{
    let restart = animations[index].set_state(PlayState::Play);
    assert(animation_views(animations@) =~= animation_views(old(animations)@).update(
        index as int,
        animation_views(old(animations)@)[index as int].set_state(PlayState::Play),
    ));
    restart
}

/// Updates the animation at `index`, and tells whether its clock is to be
/// restarted.
fn advance(animations: &mut Vec<Animation>, index: usize, lag_elapsed: bool) -> (restart: bool)
    requires
        index < old(animations)@.len(),
    ensures
        animation_views(final(animations)@) == animation_views(old(animations)@).update(
            index as int,
            animation_views(old(animations)@)[index as int].update(lag_elapsed),
        ),
        restart == animation_views(old(animations)@)[index as int].update_advances(lag_elapsed),
    no_unwind
{
    let restart = animations[index].update(lag_elapsed);
    assert(animation_views(animations@) =~= animation_views(old(animations)@).update(
        index as int,
        animation_views(old(animations)@)[index as int].update(lag_elapsed),
    ));
    restart
}

impl Weapon {
    /// Holds of the weapons at all times.
    #[verifier::type_invariant]
    pub open spec fn inv(&self) -> bool {
        self@.wf()
    }

    /// The four weapons, the first of them held, none firing.
    pub fn new() -> (weapon: Weapon)
        ensures
            weapon@.wf(),
            weapon@.current_weapon == 0,
            !weapon@.mouse_fire,
            weapon@.shadows_id == seq![18i32, 25, 32, 39],
            weapon@.animations == Seq::new(
                4,
                |i: int|
                    AnimationView {
                        state: PlayState::Stop,
                        mode: PlayMode::Once,
                        a: 1,
                        b: 5,
                        offset: 3,
                        texture_ids: Self::weapon_textures(i),
                        current_texture: 0,
                    },
            ),
    {
        let animations = Self::initialize_animation();
        let shadows_id: Vec<i32> = vec![18, 25, 32, 39];
        let weapon = Weapon { animations, shadows_id, current_weapon: 0, mouse_fire: false };
        assert(weapon@.animations =~= Seq::new(
            4,
            |i: int|
                AnimationView {
                    state: PlayState::Stop,
                    mode: PlayMode::Once,
                    a: 1,
                    b: 5,
                    offset: 3,
                    texture_ids: Self::weapon_textures(i),
                    current_texture: 0,
                },
        ));
        weapon
    }

    /// The texture ids of the frames of weapon `i`.
    pub open spec fn weapon_textures(i: int) -> Seq<i32> {
        if i == 0 {
            seq![12i32, 13, 14, 15, 16, 17]
        } else if i == 1 {
            seq![19i32, 20, 21, 22, 23, 24]
        } else if i == 2 {
            seq![26i32, 27, 28, 29, 30, 31]
        } else {
            seq![33i32, 34, 35, 36, 37, 38]
        }
    }

    fn initialize_animation() -> (animations: Vec<Animation>)
        ensures
            animations@.len() == 4,
            forall|i: int|
                0 <= i < 4 ==> (#[trigger] animations@[i])@ == (AnimationView {
                    state: PlayState::Stop,
                    mode: PlayMode::Once,
                    a: 1,
                    b: 5,
                    offset: 3,
                    texture_ids: Self::weapon_textures(i),
                    current_texture: 0,
                }),
    {
        let mut animations: Vec<Animation> = Vec::new();
        animations.push(
            Animation::new(vec![12, 13, 14, 15, 16, 17], PlayState::Stop, PlayMode::Once, 3),
        );
        animations.push(
            Animation::new(vec![19, 20, 21, 22, 23, 24], PlayState::Stop, PlayMode::Once, 3),
        );
        animations.push(
            Animation::new(vec![26, 27, 28, 29, 30, 31], PlayState::Stop, PlayMode::Once, 3),
        );
        animations.push(
            Animation::new(vec![33, 34, 35, 36, 37, 38], PlayState::Stop, PlayMode::Once, 3),
        );
        assert(animations@[0]@.texture_ids =~= Self::weapon_textures(0));
        assert(animations@[1]@.texture_ids =~= Self::weapon_textures(1));
        assert(animations@[2]@.texture_ids =~= Self::weapon_textures(2));
        assert(animations@[3]@.texture_ids =~= Self::weapon_textures(3));
        animations
    }

    /// Takes the weapon whose key was pressed; the later key wins.
    fn update_selected_weapon(&mut self, input: &WeaponInput)
        ensures
            final(self)@ == (WeaponView {
                current_weapon: old(self)@.selected(*input),
                ..old(self)@
            }),
    {
        proof {
            use_type_invariant(&*self);
        }
        if input.num1 {
            self.current_weapon = 0;
        }
        if input.num2 {
            self.current_weapon = 1;
        }
        if input.num3 {
            self.current_weapon = 2;
        }
        if input.num4 {
            self.current_weapon = 3;
        }
    }

    /// Takes the input of one frame: changes the weapon held, follows the
    /// mouse button, and asks the animation of the held weapon to play where
    /// the weapon fires. Tells whether the clock of the held weapon is to be
    /// restarted.
    pub fn update(&mut self, input: &WeaponInput) -> (restart: bool)
        ensures
            final(self)@ == old(self)@.update(*input),
            restart == old(self)@.update_restarts(*input),
    {
        self.update_selected_weapon(input);
        proof {
            use_type_invariant(&*self);
        }
        let mut restart = false;
        if !self.mouse_fire {
            if input.fire_pressed {
                restart = play(&mut self.animations, self.current_weapon);
                self.mouse_fire = true;
            }
        } else if input.fire_released {
            self.mouse_fire = false;
        } else {
            restart = play(&mut self.animations, self.current_weapon);
        }
        if input.use_key {
            let again = play(&mut self.animations, self.current_weapon);
            restart = restart || again;
        }
        assert(self@.animations =~= old(self)@.update(*input).animations);
        restart
    }

    /// Updates the animation of the held weapon, and tells whether its clock
    /// is to be restarted.
    pub fn update_animation(&mut self, lag_elapsed: bool) -> (restart: bool)
        ensures
            final(self)@ == old(self)@.update_animation(lag_elapsed),
            restart == old(self)@.shown().update_advances(lag_elapsed),
    {
        proof {
            use_type_invariant(&*self);
        }
        let restart = advance(&mut self.animations, self.current_weapon, lag_elapsed);
        assert(self@.animations =~= old(self)@.update_animation(lag_elapsed).animations);
        restart
    }

    /// The index of the weapon held.
    pub fn current_weapon(&self) -> (index: usize)
        ensures
            index == self@.current_weapon,
    {
        self.current_weapon
    }

    /// The texture of the weapon held, as its animation shows it.
    pub fn current_texture_id(&self) -> (id: i32)
        ensures
            id == self@.shown().texture_ids[self@.shown().current_texture as int],
    {
        proof {
            use_type_invariant(self);
        }
        self.animations[self.current_weapon].get_current_texture_id()
    }

    /// The texture of the shadow of the weapon held.
    pub fn current_shadow_id(&self) -> (id: i32)
        ensures
            id == self@.shadows_id[self@.current_weapon],
    {
        proof {
            use_type_invariant(self);
        }
        self.shadows_id[self.current_weapon]
    }
}

} // verus!
