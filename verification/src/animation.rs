//! A sprite animation: a list of texture ids of which one is shown at a time.
//!
//! The animation keeps no clock. Whoever owns it measures the time since the
//! last restart, tells `update` whether the lag between two frames has passed,
//! and restarts its clock whenever `set_state` or `update` says so.

use vstd::prelude::*;

verus! {

#[derive(Clone, Copy, Debug, PartialEq, Eq, Structural)]
pub enum PlayState {
    Play,
    Stop,
}

/// What a playing animation does after its last frame: stop, or go on from
/// the first.
#[derive(Clone, Copy, Debug, PartialEq, Eq, Structural)]
pub enum PlayMode {
    Once,
    Loop,
}

struct Data {
    a: u32,
    b: u32,
    offset: u32,
    texture_ids: Vec<i32>,
}

pub struct Animation {
    state: PlayState,
    mode: PlayMode,
    data: Data,
    current_texture: u32,
}

/// The mathematical model of an animation.
pub struct AnimationView {
    pub state: PlayState,
    pub mode: PlayMode,
    /// The frame from which the animation is played when it is started anew.
    pub a: u32,
    /// The last frame of the loop.
    pub b: u32,
    /// The frame from which on a request to play starts the animation anew.
    pub offset: u32,
    pub texture_ids: Seq<i32>,
    /// The index of the frame that is shown.
    pub current_texture: u32,
}

impl AnimationView {
    /// There is a frame, the frames can be counted, and the frame shown is one
    /// of them.
    pub open spec fn wf(self) -> bool {
        &&& 1 <= self.texture_ids.len() <= u32::MAX
        &&& self.current_texture < self.texture_ids.len()
    }

    /// Whether a request for `new_state` restarts the clock: every request to
    /// stop does, and a request to play does where the animation is at or
    /// past its offset.
    pub open spec fn set_state_restarts(self, new_state: PlayState) -> bool {
        new_state == PlayState::Stop || self.offset <= self.current_texture
    }

    /// The animation after a request for `new_state`. Stopping shows the first
    /// frame again. Playing starts anew from frame `a` where the animation is
    /// at or past its offset, and changes no frame otherwise.
    pub open spec fn set_state(self, new_state: PlayState) -> AnimationView {
        if new_state == PlayState::Stop {
            AnimationView { state: PlayState::Stop, current_texture: 0, ..self }
        } else if self.offset <= self.current_texture {
            AnimationView { state: PlayState::Play, current_texture: self.a, ..self }
        } else {
            AnimationView { state: PlayState::Play, ..self }
        }
    }

    /// Whether `update` moves to another frame: the animation plays and the
    /// lag between two frames has passed.
    pub open spec fn update_advances(self, lag_elapsed: bool) -> bool {
        self.state == PlayState::Play && lag_elapsed
    }

    /// The animation after `update`. Where it advances, the next frame is
    /// shown; after the last frame the first is shown again, and an animation
    /// that plays once stops there.
    pub open spec fn update(self, lag_elapsed: bool) -> AnimationView {
        if !self.update_advances(lag_elapsed) {
            self
        } else if self.current_texture != self.texture_ids.len() - 1 {
            AnimationView { current_texture: (self.current_texture + 1) as u32, ..self }
        } else if self.mode == PlayMode::Once {
            AnimationView { state: PlayState::Stop, current_texture: 0, ..self }
        } else {
            AnimationView { current_texture: 0, ..self }
        }
    }
}

impl View for Animation {
    type V = AnimationView;

    closed spec fn view(&self) -> AnimationView {
        AnimationView {
            state: self.state,
            mode: self.mode,
            a: self.data.a,
            b: self.data.b,
            offset: self.data.offset,
            texture_ids: self.data.texture_ids@,
            current_texture: self.current_texture,
        }
    }
}

impl Animation {
    /// Holds of every animation.
    #[verifier::type_invariant]
    pub open spec fn inv(&self) -> bool {
        self@.wf()
    }

    /// An animation of the given frames that shows the first of them. When it
    /// is started anew it plays from the second frame, and its loop ends with
    /// the last.
    pub fn new(texture_ids: Vec<i32>, state: PlayState, mode: PlayMode, offset: u32) -> (animation:
        Animation)
        requires
            1 <= texture_ids@.len() <= u32::MAX,
        ensures
            animation@ == (AnimationView {
                state,
                mode,
                a: 1,
                b: (texture_ids@.len() - 1) as u32,
                offset,
                texture_ids: texture_ids@,
                current_texture: 0,
            }),
    {
        Animation { state, mode, data: Self::make_data(offset, texture_ids), current_texture: 0 }
    }

    /// Requests that the animation play or stop, and tells whether the clock
    /// is to be restarted.
    pub fn set_state(&mut self, new_state: PlayState) -> (restart: bool)
        requires
            new_state == PlayState::Play && old(self)@.offset <= old(self)@.current_texture
                ==> old(self)@.a < old(self)@.texture_ids.len(),
        ensures
            final(self)@ == old(self)@.set_state(new_state),
            restart == old(self)@.set_state_restarts(new_state),
        no_unwind
    {
        proof {
            use_type_invariant(&*self);
        }
        self.state = new_state;
        match self.state {
            PlayState::Stop => {
                self.current_texture = 0;
                true
            },
            PlayState::Play => {
                if self.data.offset <= self.current_texture {
                    self.current_texture = self.data.a;
                    true
                } else {
                    false
                }
            },
        }
    }

    pub fn set_mode(&mut self, new_mode: PlayMode)
        ensures
            final(self)@ == (AnimationView { mode: new_mode, ..old(self)@ }),
    {
        proof {
            use_type_invariant(&*self);
        }
        self.mode = new_mode;
    }

    pub fn get_state(&self) -> (state: PlayState)
        ensures
            state == self@.state,
    {
        self.state
    }

    pub fn get_mode(&self) -> (mode: PlayMode)
        ensures
            mode == self@.mode,
    {
        self.mode
    }

    /// The texture id of the frame that is shown.
    pub fn get_current_texture_id(&self) -> (id: i32)
        ensures
            id == self@.texture_ids[self@.current_texture as int],
    {
        proof {
            use_type_invariant(self);
        }
        self.data.texture_ids[self.current_texture as usize]
    }

    /// Sets the first and the last frame of the loop.
    pub fn set_loop_anim(&mut self, a: u32, b: u32)
        ensures
            final(self)@ == (AnimationView { a, b, ..old(self)@ }),
    {
        proof {
            use_type_invariant(&*self);
        }
        self.data.a = a;
        self.data.b = b;
    }

    /// Sets the frame from which on a request to play starts the animation
    /// anew.
    pub fn set_need_anim_offset(&mut self, offset: u32)
        ensures
            final(self)@ == (AnimationView { offset, ..old(self)@ }),
    {
        proof {
            use_type_invariant(&*self);
        }
        self.data.offset = offset
    }

    /// Moves a playing animation to its next frame where the lag between two
    /// frames has passed, and tells whether the clock is to be restarted: it
    /// is exactly when the animation has moved.
    pub fn update(&mut self, lag_elapsed: bool) -> (restart: bool)
        ensures
            final(self)@ == old(self)@.update(lag_elapsed),
            restart == old(self)@.update_advances(lag_elapsed),
        no_unwind
    {
        proof {
            use_type_invariant(&*self);
        }
        match self.state {
            PlayState::Play => {
                if lag_elapsed {
                    if self.current_texture as usize != self.data.texture_ids.len() - 1 {
                        self.current_texture += 1;
                    } else {
                        self.current_texture = 0;
                        match self.mode {
                            PlayMode::Once => {
                                self.state = PlayState::Stop;
                            },
                            PlayMode::Loop => {},
                        }
                    }
                    true
                } else {
                    false
                }
            },
            PlayState::Stop => false,
        }
    }

    fn make_data(offset: u32, texture_ids: Vec<i32>) -> (data: Data)
        requires
            1 <= texture_ids@.len() <= u32::MAX,
        ensures
            data.a == 1,
            data.b == texture_ids@.len() - 1,
            data.offset == offset,
            data.texture_ids@ == texture_ids@,
    {
        let b = (texture_ids.len() - 1) as u32;
        Data { a: 1, b, offset, texture_ids }
    }
}

} // verus!
