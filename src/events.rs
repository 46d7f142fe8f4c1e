use vstd::prelude::*;

verus! {

/// A set of event categories, one bit each.
#[derive(Debug, Clone, Copy, PartialEq, Eq, Structural)]
pub struct EventCategory {
    pub bits: u32,
}

pub const WINDOW_EVENT_BIT: u32 = 0b001;
pub const MOUSE_EVENT_BIT: u32 = 0b010;
pub const KEYBOARD_EVENT_BIT: u32 = 0b100;

impl EventCategory {
    pub fn window_event() -> (r: EventCategory)
        ensures
            r.bits == WINDOW_EVENT_BIT,
    {
        EventCategory { bits: WINDOW_EVENT_BIT }
    }

    pub fn mouse_event() -> (r: EventCategory)
        ensures
            r.bits == MOUSE_EVENT_BIT,
    {
        EventCategory { bits: MOUSE_EVENT_BIT }
    }

    pub fn keyboard_event() -> (r: EventCategory)
        ensures
            r.bits == KEYBOARD_EVENT_BIT,
    {
        EventCategory { bits: KEYBOARD_EVENT_BIT }
    }

    pub fn bits(&self) -> (r: u32)
        ensures
            r == self.bits,
    {
        self.bits
    }

    /// Whether every category of `other` is in this set.
    pub fn contains(&self, other: EventCategory) -> (r: bool)
        ensures
            r == (self.bits & other.bits == other.bits),
    {
        self.bits & other.bits == other.bits
    }

    /// The categories of both sets.
    pub fn union(&self, other: EventCategory) -> (r: EventCategory)
        ensures
            r.bits == self.bits | other.bits,
    {
        EventCategory { bits: self.bits | other.bits }
    }
}

/// What happened.
#[derive(Debug, Clone, Copy, PartialEq, Eq, Structural)]
pub enum EventType {
    ApplicationExit,
    KeyPressed { key: char, repeats: i32 },
    KeyReleased { key: char },
    MouseMoved { x_offset: i32, y_offset: i32 },
    LeftMouseButtonPressed { x: i32, y: i32 },
}

/// An engine event: what happened and the categories it belongs to.
#[derive(Debug, Clone, Copy, PartialEq, Eq, Structural)]
pub struct Event {
    pub event_type: EventType,
    pub category: EventCategory,
}

impl Event {
    pub fn new(event_type: EventType, category: EventCategory) -> (r: Self)
        ensures
            r.event_type == event_type,
            r.category == category,
    {
        Event { event_type, category }
    }

    pub fn event_type(&self) -> (r: EventType)
        ensures
            r == self.event_type,
    {
        self.event_type
    }

    pub fn event_category(&self) -> (r: EventCategory)
        ensures
            r == self.category,
    {
        self.category
    }
}

/// Key codes, as the native key-down message carries them.
pub const KC_A: char = 'A';
pub const ESCAPE: char = '\u{1B}';

/// Native window message numbers that the engine reads.
pub const WM_DESTROY: u32 = 0x0002;
pub const WM_CLOSE: u32 = 0x0010;
pub const WM_QUIT: u32 = 0x0012;
pub const WM_KEYDOWN: u32 = 0x0100;

/// What the window procedure does with a message.
#[derive(Debug, Clone, Copy, PartialEq, Eq, Structural)]
pub enum WindowProcedureAction {
    /// Ask the message loop to end, and report the message handled.
    PostQuit,
    /// Hand the message to the default procedure.
    Default,
}

/// The window procedure of the real window ends the message loop when the
/// window is asked to close; every other message takes the default path.
pub fn window_procedure_action(message: u32) -> (r: WindowProcedureAction)
    ensures
        r == (if message == WM_CLOSE {
            WindowProcedureAction::PostQuit
        } else {
            WindowProcedureAction::Default
        }),
{
    if message == WM_CLOSE {
        WindowProcedureAction::PostQuit
    } else {
        WindowProcedureAction::Default
    }
}

pub open spec fn spec_key_char(w_param: usize) -> char {
    ((w_param % 256) as u8) as char
}

/// The key that a key-down message names: the low byte of its parameter.
pub fn key_char(w_param: usize) -> (r: char)
    ensures
        r == spec_key_char(w_param),
{
    ((w_param % 256) as u8) as char
}

pub open spec fn spec_translate(message: u32, w_param: usize) -> Option<Event> {
    if message == WM_QUIT {
        Some(
            Event {
                event_type: EventType::ApplicationExit,
                category: EventCategory { bits: WINDOW_EVENT_BIT },
            },
        )
    } else if message == WM_KEYDOWN {
        Some(
            Event {
                event_type: EventType::KeyPressed { key: spec_key_char(w_param), repeats: 0 },
                category: EventCategory { bits: KEYBOARD_EVENT_BIT },
            },
        )
    } else {
        None
    }
}

/// The engine event of a native message taken off the queue: quitting ends
/// the application, a key-down presses its key; any other message has no
/// event and is to be dispatched to its window.
pub fn translate_message(message: u32, w_param: usize) -> (r: Option<Event>)
    ensures
        r == spec_translate(message, w_param),
{
    if message == WM_QUIT {
        Some(Event::new(EventType::ApplicationExit, EventCategory::window_event()))
    } else if message == WM_KEYDOWN {
        Some(
            Event::new(
                EventType::KeyPressed { key: key_char(w_param), repeats: 0 },
                EventCategory::keyboard_event(),
            ),
        )
    } else {
        None
    }
}

/// Whether an event asks the application to end: the application exit, or
/// a press of the quit key.
pub open spec fn ends_application(e: Event) -> bool {
    match e.event_type {
        EventType::ApplicationExit => true,
        EventType::KeyPressed { key, .. } => key == ESCAPE,
        _ => false,
    }
}

/// Whether any of the events of a frame asks the application to end.
pub fn exit_requested(events: &Vec<Event>) -> (r: bool)
    ensures
        r == exists|i: int| 0 <= i < events@.len() && ends_application(#[trigger] events@[i]),
{
    let mut i: usize = 0;
    while i < events.len()
        invariant
            i <= events@.len(),
            forall|j: int| 0 <= j < i ==> !ends_application(#[trigger] events@[j]),
        decreases events@.len() - i,
    {
        let ends = match events[i].event_type {
            EventType::ApplicationExit => true,
            EventType::KeyPressed { key, .. } => key == ESCAPE,
            _ => false,
        };
        if ends {
            return true;
        }
        i = i + 1;
    }
    false
}

} // verus!
