use vstd::prelude::*;

verus! {

/// The kind of input event that was captured.
#[derive(Debug, Clone, Copy, PartialEq, Eq, Structural)]
pub enum EventKind {
    Click,
    Keypress,
}

/// Screen coordinates of an event.
///
/// Each coordinate is kept as the IEEE-754 bit pattern of the `f64` the input
/// listener reported (`f64::to_bits`), so that the recorder carries it through
/// unchanged; the origin `(0.0, 0.0)` has the bit patterns `(0, 0)`.
#[derive(Debug, Clone, Copy, PartialEq, Eq, Structural)]
pub struct Coordinates {
    pub x_bits: u64,
    pub y_bits: u64,
}

/// Keyboard event metadata.
#[derive(Debug, Clone, PartialEq, Eq)]
pub struct KeyData {
    /// Debug representation of the key that was pressed.
    pub key: String,
    /// The printable character, if available from the OS layout.
    pub character: Option<String>,
}

/// Paths to the three screenshots captured for a step.
/// Paths are relative to the session directory.
#[derive(Debug, Clone, PartialEq, Eq)]
pub struct StepScreenshots {
    pub full_screen: String,
    pub window_crop: String,
    pub click_crop: String,
    pub window_crop_fallback: bool,
}

/// A single recorded step corresponding to one input event.
#[derive(Debug, Clone, PartialEq, Eq)]
pub struct RecordedStep {
    pub index: usize,
    pub timestamp: String,
    pub event_type: EventKind,
    pub coordinates: Option<Coordinates>,
    pub key_data: Option<KeyData>,
    pub screenshots: StepScreenshots,
}

/// A complete recording session containing all captured steps.
#[derive(Debug, Clone, PartialEq, Eq)]
pub struct RecordingSession {
    pub id: String,
    pub started_at: String,
    pub stopped_at: Option<String>,
    pub steps: Vec<RecordedStep>,
}

/// An event handed from the input listener to the step processor, before its
/// screenshots are taken.
#[derive(Debug, Clone, PartialEq, Eq)]
pub struct RawInputEvent {
    pub timestamp: String,
    pub kind: EventKind,
    pub coordinates: Option<Coordinates>,
    pub key_data: Option<KeyData>,
}

} // verus!
