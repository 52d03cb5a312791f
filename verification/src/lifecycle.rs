//! The server lifecycle: decisions that bring the RGB server into a known,
//! connectable state.
//!
//! The process never trusts a cached belief about the server. It probes the
//! server's port; while the port is occupied it kills the stale instance by
//! name and waits, re-probing until the port is free; then it spawns a fresh
//! server and retries the client connection until it succeeds. The probing,
//! killing, sleeping, spawning and connecting are performed by the caller;
//! this module decides, step by step, what to do next.

use vstd::prelude::*;

verus! {

/// The TCP port the RGB server listens on.
pub const SERVER_PORT: u16 = 6742;

/// The fixed delay, in seconds, between retries of any kind.
pub const RETRY_DELAY_SECS: u64 = 2;

/// Where the lifecycle stands.
#[derive(Clone, Copy, PartialEq, Eq, Structural, Debug)]
pub enum ServerPhase {
    /// Probing the port until it is free of stale instances.
    Probing,
    /// The port was free and a fresh server was spawned; connecting.
    Connecting,
    /// A client connection is open.
    Ready,
}

/// What the caller observed while carrying out the previous action.
#[derive(Clone, Copy, PartialEq, Eq, Structural, Debug)]
pub enum ServerEvent {
    /// Outcome of a port probe: whether something is bound to the port.
    PortProbe { occupied: bool },
    /// Outcome of one connection attempt.
    ConnectResult { ok: bool },
}

/// What the caller must do next.
#[derive(Clone, Copy, PartialEq, Eq, Structural, Debug)]
pub enum ServerAction {
    /// Try to bind the server port locally and report whether it is occupied.
    ProbePort,
    /// Issue a best-effort kill of the server process by name, wait the
    /// retry delay, then probe the port again.
    KillThenWait,
    /// Spawn a fresh server process detached, then attempt to connect.
    SpawnThenConnect,
    /// Wait the retry delay, then attempt to connect again.
    WaitThenConnect,
    /// Nothing is left to do.
    Done,
}

/// The phase every lifecycle run starts in.
pub open spec fn initial_server_phase() -> ServerPhase {
    ServerPhase::Probing
}

/// The action a phase is waiting on, re-issued when an event arrives that
/// the phase cannot use.
pub open spec fn pending_action(phase: ServerPhase) -> ServerAction {
    match phase {
        ServerPhase::Probing => ServerAction::ProbePort,
        ServerPhase::Connecting => ServerAction::WaitThenConnect,
        ServerPhase::Ready => ServerAction::Done,
    }
}

/// The transition relation of the lifecycle: an occupied port keeps the
/// machine probing and killing; a free port moves it to connecting via a
/// fresh spawn; a failed connection retries after the fixed delay; a
/// successful connection reaches `Ready`, which is final. An event that a
/// phase cannot use leaves the phase unchanged and re-issues its pending
/// action.
pub open spec fn server_step_spec(phase: ServerPhase, event: ServerEvent) -> (ServerPhase, ServerAction) {
    match (phase, event) {
        (ServerPhase::Probing, ServerEvent::PortProbe { occupied }) => {
            if occupied {
                (ServerPhase::Probing, ServerAction::KillThenWait)
            } else {
                (ServerPhase::Connecting, ServerAction::SpawnThenConnect)
            }
        },
        (ServerPhase::Connecting, ServerEvent::ConnectResult { ok }) => {
            if ok {
                (ServerPhase::Ready, ServerAction::Done)
            } else {
                (ServerPhase::Connecting, ServerAction::WaitThenConnect)
            }
        },
        (_, _) => (phase, pending_action(phase)),
    }
}

/// Advance the lifecycle by one observed event and say what to do next.
pub fn server_step(phase: ServerPhase, event: ServerEvent) -> (r: (ServerPhase, ServerAction))
    ensures
        r == server_step_spec(phase, event),
{
    match (phase, event) {
        (ServerPhase::Probing, ServerEvent::PortProbe { occupied }) => {
            if occupied {
                (ServerPhase::Probing, ServerAction::KillThenWait)
            } else {
                (ServerPhase::Connecting, ServerAction::SpawnThenConnect)
            }
        },
        (ServerPhase::Connecting, ServerEvent::ConnectResult { ok }) => {
            if ok {
                (ServerPhase::Ready, ServerAction::Done)
            } else {
                (ServerPhase::Connecting, ServerAction::WaitThenConnect)
            }
        },
        (_, _) => {
            let a = match phase {
                ServerPhase::Probing => ServerAction::ProbePort,
                ServerPhase::Connecting => ServerAction::WaitThenConnect,
                ServerPhase::Ready => ServerAction::Done,
            };
            (phase, a)
        },
    }
}

/// The decision of the standalone kill loop, used both inside the lifecycle
/// and for final cleanup: the loop is done exactly when the port is free;
/// while it is occupied, kill again and wait.
pub fn kill_step(port_occupied: bool) -> (r: (bool, ServerAction))
    ensures
        r.0 <==> !port_occupied,
        port_occupied ==> r.1 == ServerAction::KillThenWait,
        !port_occupied ==> r.1 == ServerAction::Done,
{
    if port_occupied {
        (false, ServerAction::KillThenWait)
    } else {
        (true, ServerAction::Done)
    }
}

/// `Ready` is reached only by a successful connection attempt, and once
/// reached it is never left: the lifecycle cannot skip the connect step.
pub proof fn lemma_ready_only_by_connect(phase: ServerPhase, event: ServerEvent)
    ensures
        (server_step_spec(phase, event).0 is Ready) <==> (phase is Ready || (phase is Connecting
            && event == (ServerEvent::ConnectResult { ok: true }))),
{
}

/// While the port stays occupied the machine keeps probing and killing:
/// it never spawns or connects over a stale instance.
pub proof fn lemma_occupied_port_keeps_killing(phase: ServerPhase)
    requires
        phase is Probing,
    ensures
        server_step_spec(phase, ServerEvent::PortProbe { occupied: true }) == (
        ServerPhase::Probing,
        ServerAction::KillThenWait,
        ),
{
}

} // verus!
