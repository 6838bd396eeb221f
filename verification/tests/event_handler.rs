use rustenstein_3d::event_handler::{Button, Event, EventHandler, Key};

const W: Key = Key { code: 22 };
const M: Key = Key { code: 12 };
const LEFT: Button = Button { code: 0 };
const RIGHT: Button = Button { code: 1 };

fn key_pressed(code: Key, shift: bool) -> Event {
    Event::KeyPressed { code, alt: false, ctrl: true, shift, system: false }
}

fn key_released(code: Key, alt: bool) -> Event {
    Event::KeyReleased { code, alt, ctrl: false, shift: false, system: true }
}

fn handler(events: Vec<Event>) -> EventHandler {
    let mut handler = EventHandler::default();
    handler.update_events(events);
    handler
}

#[test]
fn default_handler_has_no_events() {
    let handler = EventHandler::default();
    assert!(handler.get_events().is_empty());
    assert!(!handler.has_closed_event());
    assert_eq!(handler.has_mouse_moved_event(), None);
    assert_eq!(handler.has_key_pressed_event(W), None);
}

#[test]
fn update_events_replaces_the_events() {
    let mut handler = handler(vec![Event::Closed, Event::MouseEntered]);
    assert_eq!(handler.get_events(), vec![Event::Closed, Event::MouseEntered]);
    handler.update_events(vec![Event::LostFocus]);
    assert_eq!(handler.get_events(), vec![Event::LostFocus]);
    assert!(!handler.has_closed_event());
}

#[test]
fn plain_events_are_found_anywhere() {
    let handler = handler(vec![
        Event::Other,
        Event::MouseMoved { x: 1, y: 2 },
        Event::Closed,
        Event::GainedFocus,
        Event::MouseLeft,
    ]);
    assert!(handler.has_closed_event());
    assert!(handler.has_gained_focus_event());
    assert!(handler.has_mouse_left_event());
    assert!(!handler.has_lost_focus_event());
    assert!(!handler.has_mouse_entered_event());
    let handler = EventHandler { events: vec![Event::LostFocus, Event::MouseEntered] };
    assert!(handler.has_lost_focus_event());
    assert!(handler.has_mouse_entered_event());
    assert!(!handler.has_gained_focus_event());
    assert!(!handler.has_mouse_left_event());
    assert!(!handler.has_closed_event());
}

#[test]
fn first_press_of_the_key_is_found() {
    let handler = handler(vec![
        key_released(W, false),
        key_pressed(M, false),
        key_pressed(W, true),
        key_pressed(W, false),
    ]);
    assert_eq!(handler.has_key_pressed_event(W), Some((W, false, true, true, false)));
    assert_eq!(handler.has_key_pressed_event(M), Some((M, false, true, false, false)));
    assert_eq!(handler.has_key_pressed_event(Key { code: 0 }), None);
}

#[test]
fn first_release_of_the_key_is_found() {
    let handler = handler(vec![
        key_pressed(W, true),
        key_released(M, false),
        key_released(W, true),
        key_released(W, false),
    ]);
    assert_eq!(handler.has_key_released_event(W), Some((W, true, false, false, true)));
    assert_eq!(handler.has_key_released_event(M), Some((M, false, false, false, true)));
    assert_eq!(handler.has_key_released_event(Key { code: -1 }), None);
}

#[test]
fn first_press_of_the_mouse_button_is_found() {
    let handler = handler(vec![
        Event::MouseButtonReleased { button: LEFT, x: 9, y: 9 },
        Event::MouseButtonPressed { button: RIGHT, x: 1, y: 2 },
        Event::MouseButtonPressed { button: LEFT, x: 3, y: 4 },
        Event::MouseButtonPressed { button: LEFT, x: 5, y: 6 },
    ]);
    assert_eq!(handler.has_mouse_button_pressed_event(LEFT), Some((LEFT, 3, 4)));
    assert_eq!(handler.has_mouse_button_pressed_event(RIGHT), Some((RIGHT, 1, 2)));
    assert_eq!(handler.has_mouse_button_pressed_event(Button { code: 2 }), None);
    assert_eq!(handler.has_mouse_button_released_event(LEFT), Some((LEFT, 9, 9)));
    assert_eq!(handler.has_mouse_button_released_event(RIGHT), None);
}

#[test]
fn first_mouse_move_is_found() {
    let handler = handler(vec![
        Event::MouseEntered,
        Event::MouseMoved { x: 400, y: 20 },
        Event::MouseMoved { x: 410, y: 25 },
    ]);
    assert_eq!(handler.has_mouse_moved_event(), Some((400, 20)));
}

#[test]
fn first_text_is_found() {
    let handler = handler(vec![
        Event::Other,
        Event::TextEntered { unicode: 'r' },
        Event::TextEntered { unicode: 's' },
    ]);
    assert_eq!(handler.has_text_entered(), Some('r'));
    assert_eq!(EventHandler::default().has_text_entered(), None);
}

#[test]
fn joystick_buttons_are_found_by_button() {
    let handler = handler(vec![
        Event::JoystickButtonPressed { joystickid: 1, button: 7 },
        Event::JoystickButtonPressed { joystickid: 2, button: 3 },
        Event::JoystickButtonPressed { joystickid: 0, button: 3 },
        Event::JoystickButtonReleased { joystickid: 4, button: 3 },
    ]);
    assert_eq!(handler.has_joystick_button_pressed(3), Some((3, 2)));
    assert_eq!(handler.has_joystick_button_pressed(7), Some((7, 1)));
    assert_eq!(handler.has_joystick_button_pressed(1), None);
    assert_eq!(handler.has_joystick_button_released(3), Some((3, 4)));
    assert_eq!(handler.has_joystick_button_released(7), None);
}

#[test]
fn joystick_connections_are_found() {
    let handler = handler(vec![
        Event::JoystickDisconnected { joystickid: 5 },
        Event::JoystickConnected { joystickid: 6 },
        Event::JoystickConnected { joystickid: 7 },
        Event::JoystickDisconnected { joystickid: 8 },
    ]);
    assert_eq!(handler.has_joystick_connected(), Some(6));
    assert_eq!(handler.has_joystick_disconnected(), Some(5));
    assert_eq!(EventHandler::default().has_joystick_connected(), None);
    assert_eq!(EventHandler::default().has_joystick_disconnected(), None);
}
