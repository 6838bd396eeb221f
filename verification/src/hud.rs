//! The face in the status bar.
//!
//! The face is animated: every so often it plays through its frames once.

use vstd::prelude::*;
use crate::animation::{Animation, AnimationView, PlayMode, PlayState};

verus! {

/// What one update of the status bar asks of its owner.
#[derive(Clone, Copy, Debug, PartialEq, Eq, Structural)]
pub struct FaceUpdate {
    /// The texture that the face shows in this frame.
    pub texture_id: i32,
    /// The clock of the animation is to be restarted.
    pub restart_animation: bool,
    /// The clock that times the face is to be restarted.
    pub restart_face: bool,
}

#[allow(clippy::upper_case_acronyms)]
pub struct HUD {
    face_animation: Animation,
}

impl View for HUD {
    type V = AnimationView;

    closed spec fn view(&self) -> AnimationView {
        self.face_animation@
    }
}

/// The face before its first update.
pub open spec fn new_face() -> AnimationView {
    AnimationView {
        state: PlayState::Play,
        mode: PlayMode::Once,
        a: 1,
        b: 2,
        offset: 0,
        texture_ids: seq![40i32, 41, 42],
        current_texture: 0,
    }
}

/// The texture that the face shows in the frame of an update.
pub open spec fn face_texture(face: AnimationView, lag_elapsed: bool) -> i32 {
    face.update(lag_elapsed).texture_ids[face.update(lag_elapsed).current_texture as int]
}

/// The face after an update: its animation is updated, and where the time
/// of the face has come it is asked to play.
pub open spec fn face_after(face: AnimationView, lag_elapsed: bool, face_elapsed: bool)
    -> AnimationView {
    if face_elapsed {
        face.update(lag_elapsed).set_state(PlayState::Play)
    } else {
        face.update(lag_elapsed)
    }
}

impl HUD {
    /// The animation of the face can be played.
    #[verifier::type_invariant]
    pub open spec fn inv(&self) -> bool {
        self@.wf() && self@.a < self@.texture_ids.len()
    }

    pub fn new() -> (hud: HUD)
        ensures
            hud@ == new_face(),
    {
        let face_animation = Animation::new(vec![40, 41, 42], PlayState::Play, PlayMode::Once, 0);
        assert(face_animation@.texture_ids =~= seq![40i32, 41, 42]);
        HUD { face_animation }
    }

    /// Updates the face. `lag_elapsed` tells whether the lag between two
    /// frames of the animation has passed, `face_elapsed` whether the time has
    /// come for the face to move again.
    pub fn update(&mut self, lag_elapsed: bool, face_elapsed: bool) -> (face: FaceUpdate)
        ensures
            final(self)@ == face_after(old(self)@, lag_elapsed, face_elapsed),
            face.texture_id == face_texture(old(self)@, lag_elapsed),
            face.restart_face == face_elapsed,
            face.restart_animation == (old(self)@.update_advances(lag_elapsed) || (face_elapsed
                && old(self)@.update(lag_elapsed).set_state_restarts(PlayState::Play))),
    {
        proof {
            use_type_invariant(&*self);
        }
        let advanced = self.face_animation.update(lag_elapsed);
        let texture_id = self.face_animation.get_current_texture_id();
        let mut again = false;
        if face_elapsed {
            again = self.face_animation.set_state(PlayState::Play);
        }
        FaceUpdate { texture_id, restart_animation: advanced || again, restart_face: face_elapsed }
    }
}

} // verus!
