use rustenstein_3d::animation::{Animation, PlayMode, PlayState};

fn weapon_animation(mode: PlayMode) -> Animation {
    Animation::new(vec![12, 13, 14, 15, 16, 17], PlayState::Stop, mode, 3)
}

#[test]
fn new_animation_shows_the_first_frame() {
    let animation = weapon_animation(PlayMode::Once);
    assert_eq!(animation.get_current_texture_id(), 12);
    assert_eq!(animation.get_state(), PlayState::Stop);
    assert_eq!(animation.get_mode(), PlayMode::Once);
}

#[test]
fn stopped_animation_does_not_move() {
    let mut animation = weapon_animation(PlayMode::Once);
    assert!(!animation.update(true));
    assert!(!animation.update(false));
    assert_eq!(animation.get_current_texture_id(), 12);
    assert_eq!(animation.get_state(), PlayState::Stop);
}

#[test]
fn playing_animation_waits_for_the_lag() {
    let mut animation = weapon_animation(PlayMode::Once);
    assert!(!animation.set_state(PlayState::Play));
    assert!(!animation.update(false));
    assert_eq!(animation.get_current_texture_id(), 12);
    assert!(animation.update(true));
    assert_eq!(animation.get_current_texture_id(), 13);
    assert!(!animation.update(false));
    assert_eq!(animation.get_current_texture_id(), 13);
}

#[test]
fn animation_played_once_stops_after_the_last_frame() {
    let mut animation = weapon_animation(PlayMode::Once);
    animation.set_state(PlayState::Play);
    for expected in [13, 14, 15, 16, 17] {
        assert!(animation.update(true));
        assert_eq!(animation.get_current_texture_id(), expected);
        assert_eq!(animation.get_state(), PlayState::Play);
    }
    assert!(animation.update(true));
    assert_eq!(animation.get_current_texture_id(), 12);
    assert_eq!(animation.get_state(), PlayState::Stop);
    assert!(!animation.update(true));
    assert_eq!(animation.get_current_texture_id(), 12);
}

#[test]
fn looping_animation_goes_on_from_the_first_frame() {
    let mut animation = weapon_animation(PlayMode::Loop);
    animation.set_state(PlayState::Play);
    for _ in 0..6 {
        assert!(animation.update(true));
    }
    assert_eq!(animation.get_current_texture_id(), 12);
    assert_eq!(animation.get_state(), PlayState::Play);
    assert!(animation.update(true));
    assert_eq!(animation.get_current_texture_id(), 13);
}

#[test]
fn play_starts_anew_at_or_past_the_offset() {
    let mut animation = weapon_animation(PlayMode::Once);
    animation.set_state(PlayState::Play);
    animation.update(true);
    animation.update(true);
    // at frame 2, before the offset 3: nothing changes
    assert!(!animation.set_state(PlayState::Play));
    assert_eq!(animation.get_current_texture_id(), 14);
    animation.update(true);
    // at frame 3, the offset: back to frame 1
    assert!(animation.set_state(PlayState::Play));
    assert_eq!(animation.get_current_texture_id(), 13);
    assert_eq!(animation.get_state(), PlayState::Play);
}

#[test]
fn stop_shows_the_first_frame_and_restarts_the_clock() {
    let mut animation = weapon_animation(PlayMode::Once);
    animation.set_state(PlayState::Play);
    animation.update(true);
    animation.update(true);
    assert!(animation.set_state(PlayState::Stop));
    assert_eq!(animation.get_current_texture_id(), 12);
    assert_eq!(animation.get_state(), PlayState::Stop);
    assert!(animation.set_state(PlayState::Stop));
}

#[test]
fn offset_zero_restarts_at_once() {
    let mut animation = Animation::new(vec![40, 41, 42], PlayState::Play, PlayMode::Once, 0);
    assert!(animation.set_state(PlayState::Play));
    assert_eq!(animation.get_current_texture_id(), 41);
}

#[test]
fn loop_start_and_offset_can_be_set() {
    let mut animation = weapon_animation(PlayMode::Once);
    animation.set_loop_anim(4, 5);
    animation.set_need_anim_offset(0);
    assert!(animation.set_state(PlayState::Play));
    assert_eq!(animation.get_current_texture_id(), 16);
    animation.set_need_anim_offset(5);
    assert!(!animation.set_state(PlayState::Play));
    assert_eq!(animation.get_current_texture_id(), 16);
    animation.update(true);
    assert!(animation.set_state(PlayState::Play));
    assert_eq!(animation.get_current_texture_id(), 16);
}

#[test]
fn mode_can_be_set() {
    let mut animation = weapon_animation(PlayMode::Once);
    animation.set_mode(PlayMode::Loop);
    assert_eq!(animation.get_mode(), PlayMode::Loop);
    assert_eq!(animation.get_state(), PlayState::Stop);
    assert_eq!(animation.get_current_texture_id(), 12);
}

#[test]
fn single_frame_animation_stays_on_its_frame() {
    let mut animation = Animation::new(vec![7], PlayState::Play, PlayMode::Loop, 3);
    assert!(animation.update(true));
    assert_eq!(animation.get_current_texture_id(), 7);
    assert_eq!(animation.get_state(), PlayState::Play);
    animation.set_mode(PlayMode::Once);
    assert!(animation.update(true));
    assert_eq!(animation.get_state(), PlayState::Stop);
}
