use rustenstein_3d::weapon::{Weapon, WeaponInput};

fn idle() -> WeaponInput {
    WeaponInput {
        num1: false,
        num2: false,
        num3: false,
        num4: false,
        fire_pressed: false,
        fire_released: false,
        use_key: false,
    }
}

#[test]
fn new_weapon_is_the_first() {
    let weapon = Weapon::new();
    assert_eq!(weapon.current_weapon(), 0);
    assert_eq!(weapon.current_texture_id(), 12);
    assert_eq!(weapon.current_shadow_id(), 18);
}

#[test]
fn number_keys_select_the_weapon() {
    let mut weapon = Weapon::new();
    let expected = [(12, 18), (19, 25), (26, 32), (33, 39)];
    for (index, (texture, shadow)) in expected.into_iter().enumerate() {
        let mut input = idle();
        input.num1 = index == 0;
        input.num2 = index == 1;
        input.num3 = index == 2;
        input.num4 = index == 3;
        assert!(!weapon.update(&input));
        assert_eq!(weapon.current_weapon(), index);
        assert_eq!(weapon.current_texture_id(), texture);
        assert_eq!(weapon.current_shadow_id(), shadow);
    }
    assert!(!weapon.update(&idle()));
    assert_eq!(weapon.current_weapon(), 3);
}

#[test]
fn later_number_key_wins() {
    let mut weapon = Weapon::new();
    let mut input = idle();
    input.num2 = true;
    input.num3 = true;
    weapon.update(&input);
    assert_eq!(weapon.current_weapon(), 2);
    input.num1 = true;
    input.num4 = true;
    weapon.update(&input);
    assert_eq!(weapon.current_weapon(), 3);
    let mut input = idle();
    input.num1 = true;
    input.num2 = true;
    weapon.update(&input);
    assert_eq!(weapon.current_weapon(), 1);
}

#[test]
fn firing_plays_the_animation_of_the_weapon() {
    let mut weapon = Weapon::new();
    let mut press = idle();
    press.fire_pressed = true;
    // the animation is at frame 0, before its offset: no restart
    assert!(!weapon.update(&press));
    assert!(!weapon.update_animation(false));
    assert_eq!(weapon.current_texture_id(), 12);
    for expected in [13, 14] {
        assert!(!weapon.update(&idle()));
        assert!(weapon.update_animation(true));
        assert_eq!(weapon.current_texture_id(), expected);
    }
    // the button is still held: at frame 3 the animation starts anew
    assert!(!weapon.update(&idle()));
    assert!(weapon.update_animation(true));
    assert_eq!(weapon.current_texture_id(), 15);
    assert!(weapon.update(&idle()));
    assert_eq!(weapon.current_texture_id(), 13);
}

#[test]
fn released_button_lets_the_animation_run_out() {
    let mut weapon = Weapon::new();
    let mut press = idle();
    press.fire_pressed = true;
    weapon.update(&press);
    weapon.update_animation(true);
    let mut release = idle();
    release.fire_released = true;
    assert!(!weapon.update(&release));
    for expected in [14, 15, 16, 17, 12] {
        assert!(!weapon.update(&idle()));
        assert!(weapon.update_animation(true));
        assert_eq!(weapon.current_texture_id(), expected);
    }
    // stopped: nothing moves any more
    assert!(!weapon.update(&idle()));
    assert!(!weapon.update_animation(true));
    assert_eq!(weapon.current_texture_id(), 12);
}

#[test]
fn release_without_press_does_nothing() {
    let mut weapon = Weapon::new();
    let mut release = idle();
    release.fire_released = true;
    assert!(!weapon.update(&release));
    assert!(!weapon.update_animation(true));
    assert_eq!(weapon.current_texture_id(), 12);
}

#[test]
fn use_key_fires_too() {
    let mut weapon = Weapon::new();
    let mut input = idle();
    input.use_key = true;
    assert!(!weapon.update(&input));
    assert!(weapon.update_animation(true));
    assert_eq!(weapon.current_texture_id(), 13);
    assert!(!weapon.update(&idle()));
    assert!(weapon.update_animation(true));
    assert!(weapon.update_animation(true));
    assert_eq!(weapon.current_texture_id(), 15);
    assert!(weapon.update(&input));
    assert_eq!(weapon.current_texture_id(), 13);
}

#[test]
fn each_weapon_has_its_own_animation() {
    let mut weapon = Weapon::new();
    let mut press = idle();
    press.fire_pressed = true;
    weapon.update(&press);
    weapon.update_animation(true);
    assert_eq!(weapon.current_texture_id(), 13);
    let mut second = idle();
    second.num2 = true;
    second.fire_released = true;
    weapon.update(&second);
    assert_eq!(weapon.current_texture_id(), 19);
    assert!(!weapon.update_animation(true));
    let mut first = idle();
    first.num1 = true;
    weapon.update(&first);
    assert_eq!(weapon.current_texture_id(), 13);
}
