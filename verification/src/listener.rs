//! Turning global input events into raw step events.
//!
//! Only clicks and key presses become steps; mouse moves are remembered so
//! that a step carries the last known pointer position.
use vstd::prelude::*;

use crate::events::{Coordinates, EventKind, KeyData, RawInputEvent};
use crate::stamps::{is_utc_rfc3339_text, utc_now_rfc3339};

verus! {

/// An input event as reported by the global input listener.
#[derive(Debug, Clone, PartialEq, Eq)]
pub enum InputEvent {
    /// The pointer moved to `(x, y)` (bit patterns of the reported `f64` values).
    MouseMove { x_bits: u64, y_bits: u64 },
    /// A mouse button was pressed.
    ButtonPress,
    /// A key was pressed: the key's name, and the character it types, if any.
    KeyPress { key: String, name: Option<String> },
    /// Any other event (releases, wheel).
    Other,
}

/// What the listener remembers between events.
#[derive(Debug, Clone, Copy, PartialEq, Eq, Structural)]
pub struct ListenerState {
    /// The last known pointer position.
    pub last_position: Coordinates,
}

/// The raw event emitted for an input of `kind` at `position`.
pub open spec fn is_raw_event(
    raw: RawInputEvent,
    kind: EventKind,
    position: Coordinates,
    key_data: Option<KeyData>,
) -> bool {
    &&& raw.kind == kind
    &&& raw.coordinates == Some(position)
    &&& raw.key_data == key_data
    &&& is_utc_rfc3339_text(raw.timestamp@)
}

impl ListenerState {
    /// The state before any pointer movement: the origin.
    pub fn new() -> (s: Self)
        ensures
            s.last_position == (Coordinates { x_bits: 0, y_bits: 0 }),
    {
        ListenerState { last_position: Coordinates { x_bits: 0, y_bits: 0 } }
    }

    /// Handles one input event. Nothing is emitted or remembered while not
    /// recording. A mouse move updates the remembered position; a button press
    /// emits a click and a key press a keypress, both at the remembered
    /// position and stamped with the current time.
    pub fn on_input(&mut self, input: InputEvent, recording: bool) -> (out: Option<RawInputEvent>)
        ensures
            !recording ==> out is None && *final(self) == *old(self),
            recording ==> match input {
                InputEvent::MouseMove { x_bits, y_bits } => {
                    &&& out is None
                    &&& final(self).last_position == (Coordinates { x_bits, y_bits })
                },
                InputEvent::ButtonPress => {
                    &&& *final(self) == *old(self)
                    &&& out matches Some(raw) && is_raw_event(
                        raw,
                        EventKind::Click,
                        old(self).last_position,
                        None,
                    )
                },
                InputEvent::KeyPress { key, name } => {
                    &&& *final(self) == *old(self)
                    &&& out matches Some(raw) && is_raw_event(
                        raw,
                        EventKind::Keypress,
                        old(self).last_position,
                        Some(KeyData { key, character: name }),
                    )
                },
                InputEvent::Other => out is None && *final(self) == *old(self),
            },
    {
        if !recording {
            return None;
        }
        let stamped: bool = match &input {
            InputEvent::ButtonPress => true,
            InputEvent::KeyPress { .. } => true,
            _ => false,
        };
        let now = if stamped {
            utc_now_rfc3339()
        } else {
            String::new()
        };
        self.on_input_at(input, recording, now)
    }

    /// Handles one input event as `on_input` does, with `now` the clock
    /// reading that stamps an emitted click or keypress.
    pub fn on_input_at(&mut self, input: InputEvent, recording: bool, now: String) -> (out:
        Option<RawInputEvent>)
        ensures
            !recording ==> out is None && *final(self) == *old(self),
            recording ==> match input {
                InputEvent::MouseMove { x_bits, y_bits } => {
                    &&& out is None
                    &&& final(self).last_position == (Coordinates { x_bits, y_bits })
                },
                InputEvent::ButtonPress => {
                    &&& *final(self) == *old(self)
                    &&& out == Some(
                        RawInputEvent {
                            timestamp: now,
                            kind: EventKind::Click,
                            coordinates: Some(old(self).last_position),
                            key_data: None,
                        },
                    )
                },
                InputEvent::KeyPress { key, name } => {
                    &&& *final(self) == *old(self)
                    &&& out == Some(
                        RawInputEvent {
                            timestamp: now,
                            kind: EventKind::Keypress,
                            coordinates: Some(old(self).last_position),
                            key_data: Some(KeyData { key, character: name }),
                        },
                    )
                },
                InputEvent::Other => out is None && *final(self) == *old(self),
            },
    {
        if !recording {
            return None;
        }
        match input {
            InputEvent::MouseMove { x_bits, y_bits } => {
                self.last_position = Coordinates { x_bits, y_bits };
                None
            },
            InputEvent::ButtonPress => Some(
                RawInputEvent {
                    timestamp: now,
                    kind: EventKind::Click,
                    coordinates: Some(self.last_position),
                    key_data: None,
                },
            ),
            InputEvent::KeyPress { key, name } => Some(
                RawInputEvent {
                    timestamp: now,
                    kind: EventKind::Keypress,
                    coordinates: Some(self.last_position),
                    key_data: Some(KeyData { key, character: name }),
                },
            ),
            InputEvent::Other => None,
        }
    }
}

} // verus!
