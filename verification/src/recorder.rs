//! The recorder's start/stop state machine.
//!
//! Starting a recording runs in two steps around the creation of the session
//! directory: `begin_start` decides whether a start is allowed and draws the
//! session identifier, `commit_start` records the started session. Stopping
//! runs in three steps around joining the processor and writing
//! `recording.json`: `begin_stop` decides, `finish_stop` hands out the
//! finalized session, `mark_stopped` returns the recorder to idle once the
//! session was saved.
use vstd::prelude::*;

use crate::error::AppError;
use crate::events::{RecordedStep, RecordingSession};
use crate::processor::numbered_in_order;
use crate::stamps::{is_utc_rfc3339_text, is_v4_uuid_text, random_uuid_v4_text, utc_now_rfc3339};

verus! {

/// What the recorder holds, as seen by contracts.
pub struct RecorderView {
    pub recording: bool,
    pub session: Option<RecordingSession>,
    pub session_dir: Option<Seq<char>>,
}

/// The recorder before any start and after a completed stop.
pub open spec fn idle_view() -> RecorderView {
    RecorderView { recording: false, session: None, session_dir: None }
}

/// The recorder while `session` is being recorded into `dir`.
pub open spec fn started_view(session: RecordingSession, dir: Seq<char>) -> RecorderView {
    RecorderView { recording: true, session: Some(session), session_dir: Some(dir) }
}

/// The recorder after the session was handed out for saving and before the save
/// succeeded. A failed save leaves it here.
pub open spec fn finalizing_view() -> RecorderView {
    RecorderView { recording: true, session: None, session_dir: None }
}

/// Why a start is refused, checked in this order: a Wayland session, then a
/// recording already in progress.
pub open spec fn start_refusal(recording: bool, wayland: bool) -> Option<AppError> {
    if wayland {
        Some(AppError::WaylandNotSupported)
    } else if recording {
        Some(AppError::AlreadyRecording)
    } else {
        None
    }
}

/// Why a stop is refused.
pub open spec fn stop_refusal(recording: bool) -> Option<AppError> {
    if recording {
        None
    } else {
        Some(AppError::NotRecording)
    }
}

/// `done` is `started` closed with the collected `steps` and a stop time.
pub open spec fn is_finalized_from(
    started: RecordingSession,
    steps: Seq<RecordedStep>,
    done: RecordingSession,
) -> bool {
    &&& done.id == started.id
    &&& done.started_at == started.started_at
    &&& done.steps@ == steps
    &&& done.stopped_at matches Some(t) && is_utc_rfc3339_text(t@)
}

/// A freshly started session with identifier `id`.
pub open spec fn is_fresh_session(session: RecordingSession, id: Seq<char>) -> bool {
    &&& session.id@ == id
    &&& is_utc_rfc3339_text(session.started_at@)
    &&& session.stopped_at is None
    &&& session.steps@ == Seq::<RecordedStep>::empty()
}

/// The recorder state shared by the start and stop commands.
pub struct RecorderInner {
    is_recording: bool,
    session: Option<RecordingSession>,
    session_dir: Option<String>,
}

impl View for RecorderInner {
    type V = RecorderView;

    closed spec fn view(&self) -> RecorderView {
        RecorderView {
            recording: self.is_recording,
            session: self.session,
            session_dir: match self.session_dir {
                Some(d) => Some(d@),
                None => None,
            },
        }
    }
}

impl RecorderInner {
    /// A session and its directory are held together, and only while recording.
    #[verifier::type_invariant]
    closed spec fn holds_together(self) -> bool {
        &&& self.session.is_some() == self.session_dir.is_some()
        &&& self.session.is_some() ==> self.is_recording
    }

    /// An idle recorder.
    pub fn new() -> (r: Self)
        ensures
            r@ == idle_view(),
    {
        RecorderInner { is_recording: false, session: None, session_dir: None }
    }

    /// Whether a recording is in progress.
    pub fn is_recording(&self) -> (b: bool)
        ensures
            b == self@.recording,
    {
        self.is_recording
    }

    /// Whether a started session is held.
    pub fn has_session(&self) -> (b: bool)
        ensures
            b == self@.session is Some,
    {
        self.session.is_some()
    }

    /// Decides a start request. A Wayland session refuses it, then a
    /// recording in progress refuses it; otherwise a fresh session identifier
    /// is drawn and returned.
    pub fn begin_start(&self, wayland: bool) -> (r: Result<String, AppError>)
        ensures
            match start_refusal(self@.recording, wayland) {
                Some(e) => r == Err::<String, AppError>(e),
                None => r matches Ok(id) && is_v4_uuid_text(id@),
            },
    {
        if wayland {
            return Err(AppError::WaylandNotSupported);
        }
        if self.is_recording {
            return Err(AppError::AlreadyRecording);
        }
        Ok(random_uuid_v4_text())
    }

    /// Records the start of `session`, whose files go to `session_dir`, and
    /// returns the session identifier.
    pub fn commit_start(&mut self, session: RecordingSession, session_dir: String) -> (id: String)
        requires
            !old(self)@.recording,
        ensures
            final(self)@ == started_view(session, session_dir@),
            id@ == session.id@,
    {
        let id = session.id.clone();
        *self = RecorderInner {
            is_recording: true,
            session: Some(session),
            session_dir: Some(session_dir),
        };
        id
    }

    /// Decides a stop request: refused unless a recording is in progress.
    pub fn begin_stop(&self) -> (r: Result<(), AppError>)
        ensures
            match stop_refusal(self@.recording) {
                Some(e) => r == Err::<(), AppError>(e),
                None => r is Ok,
            },
    {
        if !self.is_recording {
            return Err(AppError::NotRecording);
        }
        Ok(())
    }

    /// Takes the session out of the recorder, closes it with the collected
    /// `steps` and the current time, and returns it with its directory. The
    /// recorder still counts as recording until `mark_stopped`.
    pub fn finish_stop(&mut self, steps: Vec<RecordedStep>) -> (r: (String, RecordingSession))
        requires
            old(self)@.recording,
            old(self)@.session is Some,
        ensures
            final(self)@ == finalizing_view(),
            old(self)@.session_dir == Some(r.0@),
            is_finalized_from(old(self)@.session.unwrap(), steps@, r.1),
    {
        let stopped_at = utc_now_rfc3339();
        self.finish_stop_at(steps, stopped_at)
    }

    /// Takes the session out of the recorder and closes it with the collected
    /// `steps` and the stop time `stopped_at`, a clock reading; returns it with
    /// its directory. The recorder still counts as recording until `mark_stopped`.
    pub fn finish_stop_at(&mut self, steps: Vec<RecordedStep>, stopped_at: String) -> (r: (
        String,
        RecordingSession,
    ))
        requires
            old(self)@.recording,
            old(self)@.session is Some,
        ensures
            final(self)@ == finalizing_view(),
            old(self)@.session_dir == Some(r.0@),
            r.1.id == old(self)@.session.unwrap().id,
            r.1.started_at == old(self)@.session.unwrap().started_at,
            r.1.steps == steps,
            r.1.stopped_at == Some(stopped_at),
    {
        proof {
            use_type_invariant(&*self);
        }
        let mut held = RecorderInner { is_recording: true, session: None, session_dir: None };
        std::mem::swap(self, &mut held);
        proof {
            use_type_invariant(&held);
        }
        match (held.session_dir, held.session) {
            (Some(dir), Some(mut session)) => {
                session.stopped_at = Some(stopped_at);
                session.steps = steps;
                (dir, session)
            },
            _ => {
                proof {
                    assert(false);
                }
                (String::new(), RecordingSession {
                    id: String::new(),
                    started_at: String::new(),
                    stopped_at: None,
                    steps: Vec::new(),
                })
            },
        }
    }

    /// Returns the recorder to idle after the finalized session was saved.
    pub fn mark_stopped(&mut self)
        requires
            old(self)@.session is None,
        ensures
            final(self)@ == idle_view(),
    {
        proof {
            use_type_invariant(&*self);
        }
        *self = RecorderInner { is_recording: false, session: None, session_dir: None };
    }
}

/// A new session named `id`, started now, with no steps yet.
pub fn new_session(id: String) -> (s: RecordingSession)
    ensures
        is_fresh_session(s, id@),
{
    let started_at = utc_now_rfc3339();
    new_session_at(id, started_at)
}

/// A new session named `id`, started at the clock reading `started_at`, with
/// no steps yet.
pub fn new_session_at(id: String, started_at: String) -> (s: RecordingSession)
    ensures
        s.id == id,
        s.started_at == started_at,
        s.stopped_at is None,
        s.steps@ == Seq::<RecordedStep>::empty(),
{
    RecordingSession { id, started_at, stopped_at: None, steps: Vec::new() }
}

} // verus!

verus! {

/// A Wayland session refuses every start, whatever the recorder holds.
pub proof fn law_wayland_refuses_start(recording: bool)
    ensures
        start_refusal(recording, true) == Some(AppError::WaylandNotSupported),
{
}

/// Outside Wayland, a start is refused exactly while a recording is in
/// progress, and then with `AlreadyRecording`: one recording at a time.
pub proof fn law_one_recording_at_a_time(recording: bool)
    ensures
        start_refusal(recording, false) is Some <==> recording,
        recording ==> start_refusal(recording, false) == Some(AppError::AlreadyRecording),
{
}

/// A stop is refused, with `NotRecording`, exactly when no recording is in progress.
pub proof fn law_stop_needs_recording(recording: bool)
    ensures
        stop_refusal(recording) is Some <==> !recording,
        !recording ==> stop_refusal(recording) == Some(AppError::NotRecording),
{
}

/// A full cycle from idle: once a start is committed a second start is refused
/// and a stop is accepted; the stop hands back the same session (identifier and
/// start time kept, the collected steps in place, a stop time set); once it is
/// saved the recorder is idle again, so a new start is accepted and a stop refused.
pub proof fn law_start_stop_cycle(
    session: RecordingSession,
    dir: Seq<char>,
    steps: Seq<RecordedStep>,
    done: RecordingSession,
)
    requires
        is_finalized_from(session, steps, done),
    ensures
        start_refusal(idle_view().recording, false) is None,
        start_refusal(started_view(session, dir).recording, false) == Some(
            AppError::AlreadyRecording,
        ),
        stop_refusal(started_view(session, dir).recording) is None,
        started_view(session, dir).session == Some(session),
        started_view(session, dir).session_dir == Some(dir),
        done.id == session.id,
        done.started_at == session.started_at,
        done.steps@ == steps,
        done.stopped_at is Some,
        start_refusal(idle_view().recording, false) is None,
        stop_refusal(idle_view().recording) == Some(AppError::NotRecording),
{
}

/// If saving a finalized session fails, the recorder keeps counting as
/// recording with no session: every later start is refused with
/// `AlreadyRecording`, and a stop is accepted but has no session to finish.
pub proof fn law_failed_save_blocks_restart()
    ensures
        start_refusal(finalizing_view().recording, false) == Some(AppError::AlreadyRecording),
        stop_refusal(finalizing_view().recording) is None,
        finalizing_view().session is None,
{
}

} // verus!

verus! {

/// The steps a recording hands to `finish_stop` keep their numbering in the
/// saved session: step `i` of the session is step number `i`.
pub proof fn law_saved_steps_numbered_in_order(
    started: RecordingSession,
    steps: Seq<RecordedStep>,
    done: RecordingSession,
)
    requires
        numbered_in_order(steps),
        is_finalized_from(started, steps, done),
    ensures
        numbered_in_order(done.steps@),
        forall|i: int| 0 <= i < done.steps@.len() ==> (#[trigger] done.steps@[i]).index == i,
{
}

} // verus!
