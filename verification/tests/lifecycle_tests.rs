use darvos::lifecycle::kill_step;
use darvos::lifecycle::server_step;
use darvos::lifecycle::ServerAction;
use darvos::lifecycle::ServerEvent;
use darvos::lifecycle::ServerPhase;
use darvos::lifecycle::RETRY_DELAY_SECS;
use darvos::lifecycle::SERVER_PORT;

#[test]
fn scenario_occupied_port_is_killed_until_free_then_spawn_and_connect() {
    // The port is occupied twice, then free; the first connection attempt
    // fails, the second succeeds.
    let p = ServerPhase::Probing;

    let (p, a) = server_step(p, ServerEvent::PortProbe { occupied: true });
    assert_eq!(p, ServerPhase::Probing);
    assert_eq!(a, ServerAction::KillThenWait);

    let (p, a) = server_step(p, ServerEvent::PortProbe { occupied: true });
    assert_eq!(p, ServerPhase::Probing);
    assert_eq!(a, ServerAction::KillThenWait);

    let (p, a) = server_step(p, ServerEvent::PortProbe { occupied: false });
    assert_eq!(p, ServerPhase::Connecting);
    assert_eq!(a, ServerAction::SpawnThenConnect);

    let (p, a) = server_step(p, ServerEvent::ConnectResult { ok: false });
    assert_eq!(p, ServerPhase::Connecting);
    assert_eq!(a, ServerAction::WaitThenConnect);

    let (p, a) = server_step(p, ServerEvent::ConnectResult { ok: true });
    assert_eq!(p, ServerPhase::Ready);
    assert_eq!(a, ServerAction::Done);
}

#[test]
fn free_port_goes_straight_to_spawn() {
    let (p, a) = server_step(ServerPhase::Probing, ServerEvent::PortProbe { occupied: false });
    assert_eq!(p, ServerPhase::Connecting);
    assert_eq!(a, ServerAction::SpawnThenConnect);
}

#[test]
fn ready_is_final() {
    let (p, a) = server_step(ServerPhase::Ready, ServerEvent::PortProbe { occupied: true });
    assert_eq!(p, ServerPhase::Ready);
    assert_eq!(a, ServerAction::Done);
}

#[test]
fn kill_loop_runs_until_port_is_free() {
    let (done, a) = kill_step(true);
    assert!(!done);
    assert_eq!(a, ServerAction::KillThenWait);
    let (done, a) = kill_step(false);
    assert!(done);
    assert_eq!(a, ServerAction::Done);
}

#[test]
fn fixed_constants() {
    assert_eq!(SERVER_PORT, 6742);
    assert_eq!(RETRY_DELAY_SECS, 2);
}
