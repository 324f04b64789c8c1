use step_recorder::error::AppError;
use step_recorder::events::{EventKind, RecordedStep, StepScreenshots};
use step_recorder::recorder::{new_session, RecorderInner};

fn is_v4_uuid(s: &str) -> bool {
    let chars: Vec<char> = s.chars().collect();
    if chars.len() != 36 {
        return false;
    }
    for (i, c) in chars.iter().enumerate() {
        if i == 8 || i == 13 || i == 18 || i == 23 {
            if *c != '-' {
                return false;
            }
        } else if !(c.is_ascii_digit() || ('a'..='f').contains(c)) {
            return false;
        }
    }
    chars[14] == '4' && "89ab".contains(chars[19])
}

fn sample_step(index: usize) -> RecordedStep {
    RecordedStep {
        index,
        timestamp: "2024-01-01T00:00:00+00:00".to_string(),
        event_type: EventKind::Click,
        coordinates: None,
        key_data: None,
        screenshots: StepScreenshots {
            full_screen: String::new(),
            window_crop: String::new(),
            click_crop: String::new(),
            window_crop_fallback: true,
        },
    }
}

#[test]
fn error_messages_match_their_variants() {
    assert_eq!(AppError::AlreadyRecording.message(), "Already recording");
    assert_eq!(AppError::NotRecording.message(), "Not recording");
    assert_eq!(
        AppError::WaylandNotSupported.message(),
        "Wayland is not supported. Please run this app under an X11 session (e.g. select 'GNOME on Xorg' or 'Plasma (X11)' at login)."
    );
    assert_eq!(AppError::Io("disk full".to_string()).message(), "IO error: disk full");
    assert_eq!(
        AppError::Screenshot("no monitor".to_string()).message(),
        "Screenshot error: no monitor"
    );
    assert_eq!(
        AppError::Serialization("bad".to_string()).message(),
        "Serialization error: bad"
    );
}

#[test]
fn new_recorder_is_idle() {
    let r = RecorderInner::new();
    assert!(!r.is_recording());
    assert!(!r.has_session());
    assert_eq!(r.begin_stop(), Err(AppError::NotRecording));
}

#[test]
fn wayland_refuses_start_first() {
    let r = RecorderInner::new();
    assert_eq!(r.begin_start(true), Err(AppError::WaylandNotSupported));
    let mut r = RecorderInner::new();
    let id = r.begin_start(false).unwrap();
    r.commit_start(new_session(id), "/tmp/x".to_string());
    assert_eq!(r.begin_start(true), Err(AppError::WaylandNotSupported));
}

#[test]
fn start_draws_a_v4_uuid() {
    let r = RecorderInner::new();
    let a = r.begin_start(false).unwrap();
    let b = r.begin_start(false).unwrap();
    assert!(is_v4_uuid(&a), "{a}");
    assert!(is_v4_uuid(&b), "{b}");
    assert_ne!(a, b);
}

#[test]
fn new_session_is_fresh() {
    let s = new_session("abc".to_string());
    assert_eq!(s.id, "abc");
    assert!(s.started_at.ends_with("+00:00"), "{}", s.started_at);
    assert!(s.started_at.len() >= 25);
    assert_eq!(s.started_at.as_bytes()[10], b'T');
    assert!(s.stopped_at.is_none());
    assert!(s.steps.is_empty());
}

#[test]
fn second_start_is_refused_while_recording() {
    let mut r = RecorderInner::new();
    let id = r.begin_start(false).unwrap();
    let returned = r.commit_start(new_session(id.clone()), "/data/recordings/x".to_string());
    assert_eq!(returned, id);
    assert!(r.is_recording());
    assert!(r.has_session());
    assert_eq!(r.begin_start(false), Err(AppError::AlreadyRecording));
    assert_eq!(r.begin_stop(), Ok(()));
}

#[test]
fn start_stop_cycle_returns_the_session_and_goes_idle() {
    let mut r = RecorderInner::new();
    let id = r.begin_start(false).unwrap();
    let session = new_session(id.clone());
    let started_at = session.started_at.clone();
    r.commit_start(session, "/data/recordings/s1".to_string());
    assert_eq!(r.begin_stop(), Ok(()));
    let (dir, done) = r.finish_stop(vec![sample_step(0), sample_step(1)]);
    assert_eq!(dir, "/data/recordings/s1");
    assert_eq!(done.id, id);
    assert_eq!(done.started_at, started_at);
    assert_eq!(done.steps.len(), 2);
    assert_eq!(done.steps[1].index, 1);
    assert!(done.stopped_at.as_deref().unwrap().ends_with("+00:00"));
    // Until the session is saved the recorder still counts as recording.
    assert!(r.is_recording());
    assert!(!r.has_session());
    r.mark_stopped();
    assert!(!r.is_recording());
    assert_eq!(r.begin_stop(), Err(AppError::NotRecording));
    assert!(r.begin_start(false).is_ok());
}

#[test]
fn failed_save_blocks_restart() {
    let mut r = RecorderInner::new();
    let id = r.begin_start(false).unwrap();
    r.commit_start(new_session(id), "/d".to_string());
    let _ = r.finish_stop(Vec::new());
    // Saving failed: mark_stopped is never called.
    assert_eq!(r.begin_start(false), Err(AppError::AlreadyRecording));
    assert_eq!(r.begin_stop(), Ok(()));
    assert!(!r.has_session());
}
