//! The control loop: one state machine from startup through running,
//! device recovery, and termination.
//!
//! The loop owns the microphone state. Every drained batch of events
//! updates that state and is immediately followed by a color command for
//! the new state (write-through); a drain failure sends the loop back to
//! device resolution with the state carried along unchanged; a failed
//! color command or a failed startup terminates the run.

use vstd::prelude::*;
use crate::color::color_for_state;
use crate::color::default_color;
use crate::color::select_color;
use crate::color::Rgb;
use crate::mic::mic_state_after;
use crate::mic::fold_mic_events;
use crate::mic::MicEvent;

verus! {

/// Where the control loop stands.
#[derive(Clone, Copy, PartialEq, Eq, Structural, Debug)]
pub enum LoopPhase {
    /// Resolving the device, readying the server, acquiring the keyboard.
    Starting,
    /// Draining events and applying colors.
    Running,
    /// The device vanished; resolving it again by the original query.
    Resolving,
    /// The run is over.
    Terminated,
}

/// The whole state the loop carries: its phase and the last known
/// microphone state. The mic starts out assumed active, since no event
/// arrives until a transition occurs.
#[derive(Clone, Copy, PartialEq, Eq, Structural, Debug)]
pub struct ControlState {
    pub phase: LoopPhase,
    pub mic_enabled: bool,
}

/// What the surrounding process observed.
#[derive(Clone, Debug)]
pub enum ControlEvent {
    /// Device resolved, server ready, keyboard acquired.
    StartupReady,
    /// The keyboard could not be acquired; fatal, never retried.
    StartupFailed,
    /// One drain of the device returned this batch of events.
    EventsDrained(Vec<MicEvent>),
    /// Draining failed: the device is gone.
    DrainFailed,
    /// A new device handle was resolved after a loss.
    DeviceResolved,
    /// A color command failed; the run ends.
    ApplyFailed,
}

/// What the surrounding process must do next.
#[derive(Clone, Copy, PartialEq, Eq, Structural, Debug)]
pub enum ControlAction {
    /// Apply this color to the keyboard, then drain the next batch.
    ApplyColor(Rgb),
    /// Re-run device resolution with the original query, retrying until it
    /// succeeds.
    ResolveDevice,
    /// Best-effort cleanup, then exit.
    Cleanup,
    /// Nothing to do.
    Wait,
}

/// The state every run starts in: starting up, mic assumed active.
pub open spec fn initial_control_state() -> ControlState {
    ControlState { phase: LoopPhase::Starting, mic_enabled: true }
}

/// The exec counterpart of `initial_control_state`.
pub fn make_initial_control_state() -> (s: ControlState)
    ensures
        s == initial_control_state(),
{
    ControlState { phase: LoopPhase::Starting, mic_enabled: true }
}

/// The transition relation of the control loop.
///
/// Startup success applies the fixed default color, whatever the mic state
/// is believed to be; a drained batch folds into the mic state and is
/// answered with the color for the new state; a drain failure moves to
/// resolving with the mic state unchanged; resolution success returns to
/// running with the mic state unchanged; startup or color-command failure
/// terminates. Terminated is final. An event that a phase cannot use
/// leaves the state unchanged.
pub open spec fn control_step_spec(state: ControlState, event: ControlEvent) -> (ControlState, ControlAction) {
    match (state.phase, event) {
        (LoopPhase::Starting, ControlEvent::StartupReady) => (
            ControlState { phase: LoopPhase::Running, ..state },
            ControlAction::ApplyColor(default_color()),
        ),
        (LoopPhase::Starting, ControlEvent::StartupFailed) => (
            ControlState { phase: LoopPhase::Terminated, ..state },
            ControlAction::Cleanup,
        ),
        (LoopPhase::Running, ControlEvent::EventsDrained(batch)) => {
            let mic = mic_state_after(state.mic_enabled, batch@);
            (
                ControlState { phase: LoopPhase::Running, mic_enabled: mic },
                ControlAction::ApplyColor(color_for_state(mic)),
            )
        },
        (LoopPhase::Running, ControlEvent::DrainFailed) => (
            ControlState { phase: LoopPhase::Resolving, ..state },
            ControlAction::ResolveDevice,
        ),
        (LoopPhase::Running, ControlEvent::ApplyFailed) => (
            ControlState { phase: LoopPhase::Terminated, ..state },
            ControlAction::Cleanup,
        ),
        (LoopPhase::Resolving, ControlEvent::DeviceResolved) => (
            ControlState { phase: LoopPhase::Running, ..state },
            ControlAction::ApplyColor(color_for_state(state.mic_enabled)),
        ),
        (_, _) => (state, ControlAction::Wait),
    }
}

/// Advance the control loop by one observed event and say what to do next.
pub fn control_step(state: ControlState, event: ControlEvent) -> (r: (ControlState, ControlAction))
    ensures
        r == control_step_spec(state, event),
{
    match (state.phase, event) {
        (LoopPhase::Starting, ControlEvent::StartupReady) => {
            let c = crate::color::get_default_color();
            (ControlState { phase: LoopPhase::Running, ..state }, ControlAction::ApplyColor(c))
        },
        (LoopPhase::Starting, ControlEvent::StartupFailed) => (
            ControlState { phase: LoopPhase::Terminated, ..state },
            ControlAction::Cleanup,
        ),
        (LoopPhase::Running, ControlEvent::EventsDrained(batch)) => {
            let mic = fold_mic_events(state.mic_enabled, &batch);
            let c = select_color(mic);
            (
                ControlState { phase: LoopPhase::Running, mic_enabled: mic },
                ControlAction::ApplyColor(c),
            )
        },
        (LoopPhase::Running, ControlEvent::DrainFailed) => (
            ControlState { phase: LoopPhase::Resolving, ..state },
            ControlAction::ResolveDevice,
        ),
        (LoopPhase::Running, ControlEvent::ApplyFailed) => (
            ControlState { phase: LoopPhase::Terminated, ..state },
            ControlAction::Cleanup,
        ),
        (LoopPhase::Resolving, ControlEvent::DeviceResolved) => {
            let c = select_color(state.mic_enabled);
            (ControlState { phase: LoopPhase::Running, ..state }, ControlAction::ApplyColor(c))
        },
        (_, _) => (state, ControlAction::Wait),
    }
}

/// The color applied at startup is the fixed default, independent of what
/// the microphone state was initialized to.
pub proof fn lemma_startup_color_independent_of_mic(s1: ControlState, s2: ControlState)
    requires
        s1.phase is Starting,
        s2.phase is Starting,
    ensures
        control_step_spec(s1, ControlEvent::StartupReady).1 == control_step_spec(
            s2,
            ControlEvent::StartupReady,
        ).1,
        control_step_spec(s1, ControlEvent::StartupReady).1 == ControlAction::ApplyColor(
            default_color(),
        ),
{
}

/// Write-through: every drained batch updates the mic state by the batch
/// fold, and the very same step orders the color for that new state.
pub proof fn lemma_drain_is_write_through(state: ControlState, batch: Vec<MicEvent>)
    requires
        state.phase is Running,
    ensures
        ({
            let (next, action) = control_step_spec(state, ControlEvent::EventsDrained(batch));
            &&& next.phase is Running
            &&& next.mic_enabled == mic_state_after(state.mic_enabled, batch@)
            &&& action == ControlAction::ApplyColor(color_for_state(next.mic_enabled))
        }),
{
}

/// Device loss and recovery never touch the microphone state: the loop
/// re-enters `Running` with the last known state carried forward.
pub proof fn lemma_recovery_preserves_mic_state(state: ControlState)
    ensures
        control_step_spec(state, ControlEvent::DrainFailed).0.mic_enabled == state.mic_enabled,
        control_step_spec(state, ControlEvent::DeviceResolved).0.mic_enabled == state.mic_enabled,
        state.phase is Running ==> control_step_spec(state, ControlEvent::DrainFailed).0.phase
            is Resolving,
        state.phase is Resolving ==> control_step_spec(
            state,
            ControlEvent::DeviceResolved,
        ).0.phase is Running,
{
}

/// Terminated is final: no event leaves it.
pub proof fn lemma_terminated_is_final(state: ControlState, event: ControlEvent)
    requires
        state.phase is Terminated,
    ensures
        control_step_spec(state, event).0 == state,
{
}

} // verus!
