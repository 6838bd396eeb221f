//! The events of one frame, and the questions that the game asks of them.
//!
//! Every question of the form "was there such an event" is answered with the
//! first event of that kind, in the order in which the events arrived.

use vstd::prelude::*;

verus! {

/// A key of the keyboard, by its code.
#[derive(Clone, Copy, Debug, PartialEq, Eq, Structural)]
pub struct Key {
    pub code: i32,
}

/// A button of the mouse, by its code.
#[derive(Clone, Copy, Debug, PartialEq, Eq, Structural)]
pub struct Button {
    pub code: i32,
}

/// A window event, with what the game reads of it.
#[allow(inconsistent_fields)]
#[derive(Clone, Copy, Debug, PartialEq, Eq, Structural)]
pub enum Event {
    Closed,
    LostFocus,
    GainedFocus,
    TextEntered { unicode: char },
    KeyPressed { code: Key, alt: bool, ctrl: bool, shift: bool, system: bool },
    KeyReleased { code: Key, alt: bool, ctrl: bool, shift: bool, system: bool },
    MouseButtonPressed { button: Button, x: i32, y: i32 },
    MouseButtonReleased { button: Button, x: i32, y: i32 },
    MouseMoved { x: i32, y: i32 },
    MouseEntered,
    MouseLeft,
    JoystickButtonPressed { joystickid: u32, button: u32 },
    JoystickButtonReleased { joystickid: u32, button: u32 },
    JoystickConnected { joystickid: u32 },
    JoystickDisconnected { joystickid: u32 },
    /// Any other event.
    Other,
}

/// A question about the events of a frame: the kind of event that is asked
/// for.
#[derive(Clone, Copy, Debug, PartialEq, Eq, Structural)]
pub enum Query {
    /// Text was entered.
    TextEntered,
    /// The key was pressed.
    KeyPressed(Key),
    /// The key was released.
    KeyReleased(Key),
    /// The button of the mouse was pressed.
    MouseButtonPressed(Button),
    /// The button of the mouse was released.
    MouseButtonReleased(Button),
    /// The mouse moved.
    MouseMoved,
    /// The button of this number was pressed on a joystick.
    JoystickButtonPressed(u32),
    /// The button of this number was released on a joystick.
    JoystickButtonReleased(u32),
    /// A joystick was connected.
    JoystickConnected,
    /// A joystick was disconnected.
    JoystickDisconnected,
}

impl Query {
    /// Whether `event` is of the kind asked for.
    pub open spec fn asks_for(self, event: Event) -> bool {
        match self {
            Query::TextEntered => event is TextEntered,
            Query::KeyPressed(key) => event matches Event::KeyPressed { code, .. } && code == key,
            Query::KeyReleased(key) => event matches Event::KeyReleased { code, .. } && code == key,
            Query::MouseButtonPressed(mouse_button) => event matches Event::MouseButtonPressed {
                button,
                ..
            } && button == mouse_button,
            Query::MouseButtonReleased(mouse_button) => event matches Event::MouseButtonReleased {
                button,
                ..
            } && button == mouse_button,
            Query::MouseMoved => event is MouseMoved,
            Query::JoystickButtonPressed(joystick_button) => event
                matches Event::JoystickButtonPressed { button, .. } && button == joystick_button,
            Query::JoystickButtonReleased(joystick_button) => event
                matches Event::JoystickButtonReleased { button, .. } && button == joystick_button,
            Query::JoystickConnected => event is JoystickConnected,
            Query::JoystickDisconnected => event is JoystickDisconnected,
        }
    }

    fn is_asked(&self, event: &Event) -> (asked: bool)
        ensures
            asked == self.asks_for(*event),
    {
        match (*self, *event) {
            (Query::TextEntered, Event::TextEntered { .. }) => true,
            (Query::KeyPressed(key), Event::KeyPressed { code, .. }) => code == key,
            (Query::KeyReleased(key), Event::KeyReleased { code, .. }) => code == key,
            (Query::MouseButtonPressed(mouse_button), Event::MouseButtonPressed { button, .. }) => {
                button == mouse_button
            },
            (
                Query::MouseButtonReleased(mouse_button),
                Event::MouseButtonReleased { button, .. },
            ) => button == mouse_button,
            (Query::MouseMoved, Event::MouseMoved { .. }) => true,
            (
                Query::JoystickButtonPressed(joystick_button),
                Event::JoystickButtonPressed { button, .. },
            ) => button == joystick_button,
            (
                Query::JoystickButtonReleased(joystick_button),
                Event::JoystickButtonReleased { button, .. },
            ) => button == joystick_button,
            (Query::JoystickConnected, Event::JoystickConnected { .. }) => true,
            (Query::JoystickDisconnected, Event::JoystickDisconnected { .. }) => true,
            _ => false,
        }
    }
}

/// The first of `events` that `query` asks for, if there is one.
pub open spec fn first_match(events: Seq<Event>, query: Query) -> Option<Event>
    decreases events.len(),
{
    if events.len() == 0 {
        None
    } else if query.asks_for(events[0]) {
        Some(events[0])
    } else {
        first_match(events.drop_first(), query)
    }
}

/// `first_match` is the event asked for before which none is asked for, and
/// `None` where none is asked for at all.
pub proof fn lemma_first_match(events: Seq<Event>, query: Query, end: int)
    requires
        0 <= end <= events.len(),
        forall|i: int| 0 <= i < end ==> !query.asks_for(#[trigger] events[i]),
    ensures
        end < events.len() && query.asks_for(events[end]) ==> first_match(events, query) == Some(
            events[end],
        ),
        end == events.len() ==> first_match(events, query) is None,
    decreases end,
{
    if end > 0 {
        let rest = events.drop_first();
        assert forall|i: int| 0 <= i < end - 1 implies !query.asks_for(#[trigger] rest[i]) by {
            assert(rest[i] == events[i + 1]);
        }
        lemma_first_match(rest, query, end - 1);
        if end < events.len() {
            assert(rest[end - 1] == events[end]);
        }
    }
}

/// The events of one frame, in the order in which they arrived.
pub struct EventHandler {
    pub events: Vec<Event>,
}

impl View for EventHandler {
    type V = Seq<Event>;

    open spec fn view(&self) -> Seq<Event> {
        self.events@
    }
}

impl Default for EventHandler {
    fn default() -> (handler: EventHandler)
        ensures
            handler@ == Seq::<Event>::empty(),
    {
        EventHandler { events: Vec::new() }
    }
}

impl EventHandler {
    /// The index of the first event that equals `event`, or the number of
    /// events where there is none.
    fn position_of(&self, event: Event) -> (at: usize)
        ensures
            at <= self@.len(),
            at < self@.len() ==> self@[at as int] == event,
            forall|i: int| 0 <= i < at ==> self@[i] != event,
    {
        let mut at: usize = 0;
        while at < self.events.len()
            invariant
                at <= self@.len(),
                forall|i: int| 0 <= i < at ==> self@[i] != event,
            decreases self@.len() - at,
        {
            if self.events[at] == event {
                return at;
            }
            at += 1;
        }
        at
    }

    pub fn has_closed_event(&self) -> (found: bool)
        ensures
            found == self@.contains(Event::Closed),
    {
        self.position_of(Event::Closed) < self.events.len()
    }

    pub fn has_gained_focus_event(&self) -> (found: bool)
        ensures
            found == self@.contains(Event::GainedFocus),
    {
        self.position_of(Event::GainedFocus) < self.events.len()
    }

    pub fn has_lost_focus_event(&self) -> (found: bool)
        ensures
            found == self@.contains(Event::LostFocus),
    {
        self.position_of(Event::LostFocus) < self.events.len()
    }

    pub fn has_mouse_entered_event(&self) -> (found: bool)
        ensures
            found == self@.contains(Event::MouseEntered),
    {
        self.position_of(Event::MouseEntered) < self.events.len()
    }

    pub fn has_mouse_left_event(&self) -> (found: bool)
        ensures
            found == self@.contains(Event::MouseLeft),
    {
        self.position_of(Event::MouseLeft) < self.events.len()
    }

    /// The first event that `query` asks for.
    fn find(&self, query: Query) -> (found: Option<Event>)
        ensures
            found == first_match(self@, query),
    {
        let mut at: usize = 0;
        while at < self.events.len()
            invariant
                at <= self@.len(),
                forall|i: int| 0 <= i < at ==> !query.asks_for(#[trigger] self@[i]),
            decreases self@.len() - at,
        {
            if query.is_asked(&self.events[at]) {
                proof {
                    lemma_first_match(self@, query, at as int);
                }
                return Some(self.events[at]);
            }
            at += 1;
        }
        proof {
            lemma_first_match(self@, query, at as int);
        }
        None
    }

    /// The character of the first text event.
    pub fn has_text_entered(&self) -> (found: Option<char>)
        ensures
            found == match first_match(self@, Query::TextEntered) {
                Some(Event::TextEntered { unicode }) => Some(unicode),
                _ => None,
            },
    {
        match self.find(Query::TextEntered) {
            Some(Event::TextEntered { unicode }) => Some(unicode),
            _ => None,
        }
    }

    /// The first press of `key`: the key, and whether alt, ctrl, shift and
    /// system were held.
    pub fn has_key_pressed_event(&self, key: Key) -> (found: Option<(Key, bool, bool, bool, bool)>)
        ensures
            found == match first_match(self@, Query::KeyPressed(key)) {
                Some(Event::KeyPressed { code, alt, ctrl, shift, system }) => Some((code, alt, ctrl, shift, system)),
                _ => None,
            },
    {
        match self.find(Query::KeyPressed(key)) {
            Some(Event::KeyPressed { code, alt, ctrl, shift, system }) => Some((code, alt, ctrl, shift, system)),
            _ => None,
        }
    }

    /// The first release of `key`: the key, and whether alt, ctrl, shift and
    /// system were held.
    pub fn has_key_released_event(&self, key: Key) -> (found: Option<(Key, bool, bool, bool, bool)>)
        ensures
            found == match first_match(self@, Query::KeyReleased(key)) {
                Some(Event::KeyReleased { code, alt, ctrl, shift, system }) => Some((code, alt, ctrl, shift, system)),
                _ => None,
            },
    {
        match self.find(Query::KeyReleased(key)) {
            Some(Event::KeyReleased { code, alt, ctrl, shift, system }) => Some((code, alt, ctrl, shift, system)),
            _ => None,
        }
    }

    /// The first press of `mouse_button`: the button, and where the mouse was.
    pub fn has_mouse_button_pressed_event(&self, mouse_button: Button) -> (found: Option<(Button, i32, i32)>)
        ensures
            found == match first_match(self@, Query::MouseButtonPressed(mouse_button)) {
                Some(Event::MouseButtonPressed { button, x, y }) => Some((button, x, y)),
                _ => None,
            },
    {
        match self.find(Query::MouseButtonPressed(mouse_button)) {
            Some(Event::MouseButtonPressed { button, x, y }) => Some((button, x, y)),
            _ => None,
        }
    }

    /// The first release of `mouse_button`: the button, and where the mouse
    /// was.
    pub fn has_mouse_button_released_event(&self, mouse_button: Button) -> (found: Option<(Button, i32, i32)>)
        ensures
            found == match first_match(self@, Query::MouseButtonReleased(mouse_button)) {
                Some(Event::MouseButtonReleased { button, x, y }) => Some((button, x, y)),
                _ => None,
            },
    {
        match self.find(Query::MouseButtonReleased(mouse_button)) {
            Some(Event::MouseButtonReleased { button, x, y }) => Some((button, x, y)),
            _ => None,
        }
    }

    /// Where the mouse was after its first move.
    pub fn has_mouse_moved_event(&self) -> (found: Option<(i32, i32)>)
        ensures
            found == match first_match(self@, Query::MouseMoved) {
                Some(Event::MouseMoved { x, y }) => Some((x, y)),
                _ => None,
            },
    {
        match self.find(Query::MouseMoved) {
            Some(Event::MouseMoved { x, y }) => Some((x, y)),
            _ => None,
        }
    }

    /// The first press of button `joystick_button` of a joystick: the button
    /// and the joystick.
    pub fn has_joystick_button_pressed(&self, joystick_button: u32) -> (found: Option<(u32, u32)>)
        ensures
            found == match first_match(self@, Query::JoystickButtonPressed(joystick_button)) {
                Some(Event::JoystickButtonPressed { joystickid, button }) => Some((button, joystickid)),
                _ => None,
            },
    {
        match self.find(Query::JoystickButtonPressed(joystick_button)) {
            Some(Event::JoystickButtonPressed { joystickid, button }) => Some((button, joystickid)),
            _ => None,
        }
    }

    /// The first release of button `joystick_button` of a joystick: the
    /// button and the joystick.
    pub fn has_joystick_button_released(&self, joystick_button: u32) -> (found: Option<(u32, u32)>)
        ensures
            found == match first_match(self@, Query::JoystickButtonReleased(joystick_button)) {
                Some(Event::JoystickButtonReleased { joystickid, button }) => Some((button, joystickid)),
                _ => None,
            },
    {
        match self.find(Query::JoystickButtonReleased(joystick_button)) {
            Some(Event::JoystickButtonReleased { joystickid, button }) => Some((button, joystickid)),
            _ => None,
        }
    }

    /// The first joystick that was connected.
    pub fn has_joystick_connected(&self) -> (found: Option<u32>)
        ensures
            found == match first_match(self@, Query::JoystickConnected) {
                Some(Event::JoystickConnected { joystickid }) => Some(joystickid),
                _ => None,
            },
    {
        match self.find(Query::JoystickConnected) {
            Some(Event::JoystickConnected { joystickid }) => Some(joystickid),
            _ => None,
        }
    }

    /// The first joystick that was disconnected.
    pub fn has_joystick_disconnected(&self) -> (found: Option<u32>)
        ensures
            found == match first_match(self@, Query::JoystickDisconnected) {
                Some(Event::JoystickDisconnected { joystickid }) => Some(joystickid),
                _ => None,
            },
    {
        match self.find(Query::JoystickDisconnected) {
            Some(Event::JoystickDisconnected { joystickid }) => Some(joystickid),
            _ => None,
        }
    }

    /// A copy of the events.
    pub fn get_events(&self) -> (events: Vec<Event>)
        ensures
            events@ == self@,
    {
        let mut events: Vec<Event> = Vec::new();
        let mut at: usize = 0;
        while at < self.events.len()
            invariant
                at <= self@.len(),
                events@ == self@.take(at as int),
            decreases self@.len() - at,
        {
            events.push(self.events[at]);
            assert(events@ =~= self@.take(at as int + 1));
            at += 1;
        }
        assert(self@.take(at as int) =~= self@);
        events
    }

    /// Forgets the events of the last frame and takes those of this frame, in
    /// the order in which they were polled.
    pub fn update_events(&mut self, polled: Vec<Event>)
        ensures
            final(self)@ == polled@,
    {
        self.events = polled;
    }
}

} // verus!
