use vstd::prelude::*;

verus! {

/// Errors reported by the recorder.
///
/// Where an error carries the message of an underlying failure (file system,
/// screen capture, serialization) it holds that message as text.
#[derive(Debug, Clone, PartialEq, Eq)]
pub enum AppError {
    WaylandNotSupported,
    AlreadyRecording,
    NotRecording,
    Io(String),
    Screenshot(String),
    Serialization(String),
}

/// The text shown to the user for an error.
pub open spec fn error_message(e: AppError) -> Seq<char> {
    match e {
        AppError::WaylandNotSupported =>
            "Wayland is not supported. Please run this app under an X11 session (e.g. select 'GNOME on Xorg' or 'Plasma (X11)' at login)."@,
        AppError::AlreadyRecording => "Already recording"@,
        AppError::NotRecording => "Not recording"@,
        AppError::Io(m) => "IO error: "@ + m@,
        AppError::Screenshot(m) => "Screenshot error: "@ + m@,
        AppError::Serialization(m) => "Serialization error: "@ + m@,
    }
}

impl AppError {
    /// The user-facing message of this error.
    pub fn message(&self) -> (s: String)
        ensures
            s@ == error_message(*self),
    {
        match self {
            AppError::WaylandNotSupported => String::from_str(
                "Wayland is not supported. Please run this app under an X11 session (e.g. select 'GNOME on Xorg' or 'Plasma (X11)' at login).",
            ),
            AppError::AlreadyRecording => String::from_str("Already recording"),
            AppError::NotRecording => String::from_str("Not recording"),
            AppError::Io(m) => String::from_str("IO error: ").concat(m.as_str()),
            AppError::Screenshot(m) => String::from_str("Screenshot error: ").concat(m.as_str()),
            AppError::Serialization(m) => String::from_str("Serialization error: ").concat(
                m.as_str(),
            ),
        }
    }
}

} // verus!
