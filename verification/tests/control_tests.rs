use darvos::color::Rgb;
use darvos::control::control_step;
use darvos::control::make_initial_control_state;
use darvos::control::ControlAction;
use darvos::control::ControlEvent;
use darvos::control::ControlState;
use darvos::control::LoopPhase;
use darvos::mic::EventKind;
use darvos::mic::MicEvent;

const BLUE: Rgb = Rgb { r: 0, g: 0, b: 255 };
const GREEN: Rgb = Rgb { r: 0, g: 255, b: 0 };
const RED: Rgb = Rgb { r: 255, g: 0, b: 0 };

fn absolute(value: i32) -> MicEvent {
    MicEvent { kind: EventKind::Absolute, value }
}

#[test]
fn initial_state_assumes_mic_active() {
    let s = make_initial_control_state();
    assert_eq!(s.phase, LoopPhase::Starting);
    assert!(s.mic_enabled);
}

#[test]
fn startup_applies_default_color_whatever_the_mic_state() {
    for mic in [true, false] {
        let s = ControlState { phase: LoopPhase::Starting, mic_enabled: mic };
        let (next, action) = control_step(s, ControlEvent::StartupReady);
        assert_eq!(next.phase, LoopPhase::Running);
        assert_eq!(next.mic_enabled, mic);
        assert_eq!(action, ControlAction::ApplyColor(BLUE));
    }
}

#[test]
fn startup_failure_terminates_with_cleanup() {
    let s = make_initial_control_state();
    let (next, action) = control_step(s, ControlEvent::StartupFailed);
    assert_eq!(next.phase, LoopPhase::Terminated);
    assert_eq!(action, ControlAction::Cleanup);
}

#[test]
fn drained_batch_is_written_through_to_a_color() {
    let s = ControlState { phase: LoopPhase::Running, mic_enabled: false };
    let batch = vec![absolute(1)];
    let (next, action) = control_step(s, ControlEvent::EventsDrained(batch));
    assert_eq!(next.phase, LoopPhase::Running);
    assert!(next.mic_enabled);
    assert_eq!(action, ControlAction::ApplyColor(GREEN));

    let batch = vec![absolute(0)];
    let (next, action) = control_step(next, ControlEvent::EventsDrained(batch));
    assert!(!next.mic_enabled);
    assert_eq!(action, ControlAction::ApplyColor(RED));
}

#[test]
fn empty_batch_reapplies_the_current_color() {
    let s = ControlState { phase: LoopPhase::Running, mic_enabled: true };
    let (next, action) = control_step(s, ControlEvent::EventsDrained(Vec::new()));
    assert!(next.mic_enabled);
    assert_eq!(action, ControlAction::ApplyColor(GREEN));
}

#[test]
fn scenario_device_lost_and_recovered_keeps_mic_state() {
    // Mic was muted when the device file vanished; the loop re-resolves and
    // resumes running with the muted state intact.
    let s = ControlState { phase: LoopPhase::Running, mic_enabled: false };
    let (s, action) = control_step(s, ControlEvent::DrainFailed);
    assert_eq!(s.phase, LoopPhase::Resolving);
    assert!(!s.mic_enabled);
    assert_eq!(action, ControlAction::ResolveDevice);

    let (s, action) = control_step(s, ControlEvent::DeviceResolved);
    assert_eq!(s.phase, LoopPhase::Running);
    assert!(!s.mic_enabled);
    assert_eq!(action, ControlAction::ApplyColor(RED));
}

#[test]
fn apply_failure_terminates_the_run() {
    let s = ControlState { phase: LoopPhase::Running, mic_enabled: true };
    let (next, action) = control_step(s, ControlEvent::ApplyFailed);
    assert_eq!(next.phase, LoopPhase::Terminated);
    assert_eq!(action, ControlAction::Cleanup);
}

#[test]
fn terminated_is_absorbing() {
    let s = ControlState { phase: LoopPhase::Terminated, mic_enabled: true };
    let (next, action) = control_step(s, ControlEvent::DeviceResolved);
    assert_eq!(next, s);
    assert_eq!(action, ControlAction::Wait);
}
