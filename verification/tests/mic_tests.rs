use darvos::mic::fold_mic_events;
use darvos::mic::EventKind;
use darvos::mic::MicEvent;

fn absolute(value: i32) -> MicEvent {
    MicEvent { kind: EventKind::Absolute, value }
}

fn other(value: i32) -> MicEvent {
    MicEvent { kind: EventKind::Other, value }
}

#[test]
fn scenario_last_absolute_wins_over_other_kinds() {
    let batch = vec![absolute(1), other(99), absolute(0)];
    assert_eq!(fold_mic_events(true, &batch), false);
    assert_eq!(fold_mic_events(false, &batch), false);
}

#[test]
fn last_absolute_event_decides() {
    let batch = vec![absolute(0), absolute(1)];
    assert_eq!(fold_mic_events(false, &batch), true);
    let batch = vec![absolute(1), absolute(0)];
    assert_eq!(fold_mic_events(true, &batch), false);
}

#[test]
fn nonzero_value_means_active() {
    let batch = vec![absolute(-7)];
    assert_eq!(fold_mic_events(false, &batch), true);
}

#[test]
fn other_events_are_ignored() {
    let batch = vec![other(1), other(0)];
    assert_eq!(fold_mic_events(true, &batch), true);
    assert_eq!(fold_mic_events(false, &batch), false);
}

#[test]
fn empty_batch_keeps_state() {
    let batch: Vec<MicEvent> = Vec::new();
    assert_eq!(fold_mic_events(true, &batch), true);
    assert_eq!(fold_mic_events(false, &batch), false);
}
