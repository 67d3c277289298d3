//! Input events and the queue that holds them between frames.

use vstd::prelude::*;
use crate::scalar::Scalar;

verus! {

/// Bit pattern of -1.0, the coordinate of an event that has no position.
pub const NO_POSITION_BITS: u32 = 0xBF80_0000;

/// What happened.
#[derive(Clone, Copy, Debug, PartialEq, Eq, Structural)]
pub enum InputEventType {
    PointerDown,
    PointerUp,
    PointerMove,
    KeyDown,
    KeyUp,
}

/// One input event. A pointer event has a position and no key code; a key
/// event has a key code and the position (-1, -1).
#[derive(Clone, Copy, Debug, PartialEq, Eq)]
pub struct GameEvent {
    pub event_type: InputEventType,
    pub x: Scalar,
    pub y: Scalar,
    pub key_code: Option<i32>,
}

impl GameEvent {
    /// A pointer event at `(x, y)`.
    pub fn new_pointer(event_type: InputEventType, x: Scalar, y: Scalar) -> (event: GameEvent)
        ensures
            event == (GameEvent { event_type, x, y, key_code: None }),
    {
        GameEvent { event_type, x, y, key_code: None }
    }

    /// A key event for `key_code`.
    pub fn new_key(event_type: InputEventType, key_code: i32) -> (event: GameEvent)
        ensures
            event == (GameEvent {
                event_type,
                x: Scalar { bits: NO_POSITION_BITS },
                y: Scalar { bits: NO_POSITION_BITS },
                key_code: Some(key_code),
            }),
    {
        GameEvent {
            event_type,
            x: Scalar::from_bits(NO_POSITION_BITS),
            y: Scalar::from_bits(NO_POSITION_BITS),
            key_code: Some(key_code),
        }
    }
}

/// The events that came in since the queue was last drained, oldest first.
#[derive(Debug)]
pub struct EventQueue {
    pub events: Vec<GameEvent>,
}

impl View for EventQueue {
    type V = Seq<GameEvent>;

    open spec fn view(&self) -> Seq<GameEvent> {
        self.events@
    }
}

impl EventQueue {
    /// An empty queue.
    pub fn new() -> (queue: EventQueue)
        ensures
            queue@ == Seq::<GameEvent>::empty(),
    {
        EventQueue { events: Vec::new() }
    }

    /// Appends an event.
    pub fn push(&mut self, event: GameEvent)
        ensures
            final(self)@ == old(self)@.push(event),
    {
        self.events.push(event);
    }

    /// Takes every event out of the queue, oldest first, and leaves the
    /// queue empty.
    pub fn drain(&mut self) -> (drained: Vec<GameEvent>)
        ensures
            drained@ == old(self)@,
            final(self)@ == Seq::<GameEvent>::empty(),
    {
        let mut drained: Vec<GameEvent> = Vec::new();
        core::mem::swap(&mut self.events, &mut drained);
        drained
    }

    /// Drops every event.
    pub fn clear(&mut self)
        ensures
            final(self)@ == Seq::<GameEvent>::empty(),
    {
        self.events.clear();
    }

    /// The number of events waiting.
    pub fn len(&self) -> (n: usize)
        ensures
            n == self@.len(),
    {
        self.events.len()
    }
}

impl Default for EventQueue {
    fn default() -> (queue: EventQueue)
        ensures
            queue@ == Seq::<GameEvent>::empty(),
    {
        EventQueue { events: Vec::new() }
    }
}

} // verus!
