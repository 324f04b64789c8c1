use step_recorder::events::{Coordinates, EventKind, KeyData, RawInputEvent, StepScreenshots};
use step_recorder::listener::{InputEvent, ListenerState};
use step_recorder::processor::{next_action, screenshot_point, ProcessorAction, Received, StepLog};
use step_recorder::screenshots::step_screenshots;

fn raw(kind: EventKind, coords: Option<Coordinates>) -> RawInputEvent {
    RawInputEvent { timestamp: "t".to_string(), kind, coordinates: coords, key_data: None }
}

fn bits(x: f64, y: f64) -> Coordinates {
    Coordinates { x_bits: x.to_bits(), y_bits: y.to_bits() }
}

#[test]
fn listener_ignores_everything_while_not_recording() {
    let mut l = ListenerState::new();
    assert!(l.on_input(InputEvent::MouseMove { x_bits: 7, y_bits: 8 }, false).is_none());
    assert!(l.on_input(InputEvent::ButtonPress, false).is_none());
    assert_eq!(l.last_position, Coordinates { x_bits: 0, y_bits: 0 });
}

#[test]
fn listener_click_carries_last_pointer_position() {
    let mut l = ListenerState::new();
    let first = l.on_input(InputEvent::ButtonPress, true).unwrap();
    assert_eq!(first.coordinates, Some(bits(0.0, 0.0)));
    assert!(l.on_input(InputEvent::MouseMove { x_bits: 120.5f64.to_bits(), y_bits: 40.0f64.to_bits() }, true).is_none());
    let click = l.on_input(InputEvent::ButtonPress, true).unwrap();
    assert_eq!(click.kind, EventKind::Click);
    assert_eq!(click.coordinates, Some(bits(120.5, 40.0)));
    assert!(click.key_data.is_none());
    assert!(click.timestamp.ends_with("+00:00"));
}

#[test]
fn listener_key_press_carries_key_data() {
    let mut l = ListenerState::new();
    l.on_input(InputEvent::MouseMove { x_bits: 3, y_bits: 4 }, true);
    let key = l
        .on_input(InputEvent::KeyPress { key: "KeyA".to_string(), name: Some("a".to_string()) }, true)
        .unwrap();
    assert_eq!(key.kind, EventKind::Keypress);
    assert_eq!(key.coordinates, Some(Coordinates { x_bits: 3, y_bits: 4 }));
    assert_eq!(key.key_data, Some(KeyData { key: "KeyA".to_string(), character: Some("a".to_string()) }));
    assert!(l.on_input(InputEvent::Other, true).is_none());
}

#[test]
fn steps_are_numbered_in_arrival_order() {
    let mut log = StepLog::new();
    assert_eq!(log.next_index(), 0);
    let a = log.record(raw(EventKind::Click, Some(bits(1.0, 2.0))), Some(step_screenshots(0, false)));
    let b = log.record(raw(EventKind::Keypress, None), None);
    let c = log.record(raw(EventKind::Click, None), Some(step_screenshots(2, true)));
    assert_eq!((a, b, c), (0, 1, 2));
    let steps = log.into_steps();
    assert_eq!(steps.len(), 3);
    for (i, s) in steps.iter().enumerate() {
        assert_eq!(s.index, i);
    }
    assert_eq!(steps[0].coordinates, Some(bits(1.0, 2.0)));
    assert_eq!(steps[1].event_type, EventKind::Keypress);
    assert_eq!(
        steps[1].screenshots,
        StepScreenshots {
            full_screen: String::new(),
            window_crop: String::new(),
            click_crop: String::new(),
            window_crop_fallback: true,
        }
    );
    assert_eq!(steps[2].screenshots.window_crop, "shots/2_window.png");
}

#[test]
fn screenshot_point_defaults_to_origin() {
    assert_eq!(screenshot_point(&raw(EventKind::Click, None)), bits(0.0, 0.0));
    assert_eq!(screenshot_point(&raw(EventKind::Click, Some(bits(5.5, -1.0)))), bits(5.5, -1.0));
}

#[test]
fn processor_actions() {
    let r = raw(EventKind::Click, None);
    assert!(matches!(next_action(Received::Event(r.clone()), true), ProcessorAction::Record(e) if e == r));
    assert!(matches!(next_action(Received::Timeout, true), ProcessorAction::Wait));
    assert!(matches!(next_action(Received::Timeout, false), ProcessorAction::DrainAndFinish));
    assert!(matches!(next_action(Received::Disconnected, true), ProcessorAction::Finish));
}
