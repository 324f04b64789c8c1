//! Building the steps of a session from raw events, in order of arrival.
use vstd::prelude::*;

use crate::events::{Coordinates, RawInputEvent, RecordedStep, StepScreenshots};
use crate::screenshots::placeholder_screenshots;

verus! {

/// `step` records `raw` as step number `index` with screenshots `shots`.
pub open spec fn is_step_of(
    step: RecordedStep,
    raw: RawInputEvent,
    index: int,
    shots: StepScreenshots,
) -> bool {
    &&& step.index == index
    &&& step.timestamp == raw.timestamp
    &&& step.event_type == raw.kind
    &&& step.coordinates == raw.coordinates
    &&& step.key_data == raw.key_data
    &&& step.screenshots == shots
}

/// The screenshot paths of a step whose screenshots could not be taken.
pub open spec fn is_placeholder(s: StepScreenshots) -> bool {
    &&& s.full_screen@ == Seq::<char>::empty()
    &&& s.window_crop@ == Seq::<char>::empty()
    &&& s.click_crop@ == Seq::<char>::empty()
    &&& s.window_crop_fallback
}

/// Steps are numbered by their position, from 0.
pub open spec fn numbered_in_order(steps: Seq<RecordedStep>) -> bool {
    forall|i: int| 0 <= i < steps.len() ==> (#[trigger] steps[i]).index == i
}

/// The point the screenshots of `raw` are taken around: its coordinates, or the
/// origin when it has none.
pub fn screenshot_point(raw: &RawInputEvent) -> (p: Coordinates)
    ensures
        p == (match raw.coordinates {
            Some(c) => c,
            None => Coordinates { x_bits: 0, y_bits: 0 },
        }),
{
    match raw.coordinates {
        Some(c) => c,
        None => Coordinates { x_bits: 0, y_bits: 0 },
    }
}

/// The steps recorded so far in a session.
pub struct StepLog {
    steps: Vec<RecordedStep>,
}

impl View for StepLog {
    type V = Seq<RecordedStep>;

    closed spec fn view(&self) -> Seq<RecordedStep> {
        self.steps@
    }
}

impl StepLog {
    #[verifier::type_invariant]
    closed spec fn numbered(self) -> bool {
        numbered_in_order(self.steps@)
    }

    /// An empty log.
    pub fn new() -> (log: Self)
        ensures
            log@ == Seq::<RecordedStep>::empty(),
    {
        StepLog { steps: Vec::new() }
    }

    /// The number of the next step.
    pub fn next_index(&self) -> (n: usize)
        ensures
            n == self@.len(),
    {
        self.steps.len()
    }

    /// Records `raw` as the next step, with the screenshots taken for it or,
    /// where taking them failed, placeholder paths. Returns the step's number.
    pub fn record(&mut self, raw: RawInputEvent, captured: Option<StepScreenshots>) -> (index:
        usize)
        requires
            old(self)@.len() < usize::MAX,
        ensures
            index == old(self)@.len(),
            final(self)@.len() == old(self)@.len() + 1,
            final(self)@.subrange(0, index as int) == old(self)@,
            match captured {
                Some(s) => is_step_of(final(self)@[index as int], raw, index as int, s),
                None => is_step_of(
                    final(self)@[index as int],
                    raw,
                    index as int,
                    final(self)@[index as int].screenshots,
                ) && is_placeholder(final(self)@[index as int].screenshots),
            },
    {
        proof {
            use_type_invariant(&*self);
        }
        let index: usize = self.steps.len();
        let screenshots = match captured {
            Some(s) => s,
            None => placeholder_screenshots(),
        };
        let step = RecordedStep {
            index,
            timestamp: raw.timestamp,
            event_type: raw.kind,
            coordinates: raw.coordinates,
            key_data: raw.key_data,
            screenshots,
        };
        let mut steps = Vec::new();
        std::mem::swap(&mut steps, &mut self.steps);
        steps.push(step);
        assert(numbered_in_order(steps@));
        *self = StepLog { steps };
        assert(self@.subrange(0, index as int) =~= old(self)@);
        index
    }

    /// The recorded steps, in order.
    pub fn into_steps(self) -> (steps: Vec<RecordedStep>)
        ensures
            steps@ == self@,
            numbered_in_order(steps@),
    {
        proof {
            use_type_invariant(&self);
        }
        self.steps
    }
}

/// What the step processor receives while waiting for the next raw event.
pub enum Received {
    Event(RawInputEvent),
    Timeout,
    Disconnected,
}

/// What the step processor does next.
pub enum ProcessorAction {
    /// Take the screenshots of this event and record it as a step.
    Record(RawInputEvent),
    /// Keep waiting for events.
    Wait,
    /// Recording stopped: record the events still queued, then finish.
    DrainAndFinish,
    /// Finish with the steps recorded so far.
    Finish,
}

/// Decides the processor's next action: an event is recorded; a wait that
/// timed out keeps waiting while recording and drains the queue once
/// recording stopped; a closed channel finishes.
pub fn next_action(received: Received, recording: bool) -> (a: ProcessorAction)
    ensures
        match received {
            Received::Event(raw) => a == ProcessorAction::Record(raw),
            Received::Timeout => if recording {
                a is Wait
            } else {
                a is DrainAndFinish
            },
            Received::Disconnected => a is Finish,
        },
{
    match received {
        Received::Event(raw) => ProcessorAction::Record(raw),
        Received::Timeout => if recording {
            ProcessorAction::Wait
        } else {
            ProcessorAction::DrainAndFinish
        },
        Received::Disconnected => ProcessorAction::Finish,
    }
}

} // verus!
