//! The decisions of the HTTPS server's accept loop, its connections and its
//! shutdown signal. The loop itself (sockets, tasks, timers) runs outside the
//! library and hands each event to these functions.
use vstd::prelude::*;

verus! {

/// How long shutdown waits for open connections to finish, in seconds.
pub const SHUTDOWN_TIMEOUT_SECS: u64 = 5;

/// Where the accept loop stands.
#[derive(Clone, Copy, Debug, PartialEq, Eq, Structural)]
pub enum ListenerState {
    /// Waiting for either a connection or the shutdown signal.
    Accepting,
    /// Accepting failed; until the loop ends only the shutdown signal is awaited.
    ShutdownOnly,
    /// Shutdown was requested; no connection is taken any more.
    Stopped,
}

/// What the accept loop observed.
#[derive(Clone, Copy, Debug, PartialEq, Eq, Structural)]
pub enum ListenerEvent {
    ShutdownRequested,
    Accepted,
    AcceptFailed,
}

/// What the accept loop does next.
#[derive(Clone, Copy, Debug, PartialEq, Eq, Structural)]
pub enum ListenerAction {
    /// Hand the new connection to a task of its own.
    SpawnConnection,
    /// Keep waiting, for the shutdown signal alone.
    WaitForShutdown,
    /// Leave the loop and wait at most this long for the connection tasks.
    DrainConnections { timeout_secs: u64 },
    /// Nothing is left to do.
    Idle,
}

/// The accept loop's transition table.
pub open spec fn listener_next(state: ListenerState, event: ListenerEvent) -> (ListenerState, ListenerAction) {
    match state {
        ListenerState::Stopped => (ListenerState::Stopped, ListenerAction::Idle),
        _ => match event {
            ListenerEvent::ShutdownRequested => (
                ListenerState::Stopped,
                ListenerAction::DrainConnections { timeout_secs: SHUTDOWN_TIMEOUT_SECS },
            ),
            ListenerEvent::Accepted => match state {
                ListenerState::Accepting => (ListenerState::Accepting, ListenerAction::SpawnConnection),
                _ => (ListenerState::ShutdownOnly, ListenerAction::WaitForShutdown),
            },
            ListenerEvent::AcceptFailed => (ListenerState::ShutdownOnly, ListenerAction::WaitForShutdown),
        },
    }
}

/// One step of the accept loop.
pub fn listener_step(state: ListenerState, event: ListenerEvent) -> (res: (ListenerState, ListenerAction))
    ensures
        res == listener_next(state, event),
{
    match state {
        ListenerState::Stopped => (ListenerState::Stopped, ListenerAction::Idle),
        _ => match event {
            ListenerEvent::ShutdownRequested => (
                ListenerState::Stopped,
                ListenerAction::DrainConnections { timeout_secs: SHUTDOWN_TIMEOUT_SECS },
            ),
            ListenerEvent::Accepted => {
                if state == ListenerState::Accepting {
                    (ListenerState::Accepting, ListenerAction::SpawnConnection)
                } else {
                    (ListenerState::ShutdownOnly, ListenerAction::WaitForShutdown)
                }
            },
            ListenerEvent::AcceptFailed => (ListenerState::ShutdownOnly, ListenerAction::WaitForShutdown),
        },
    }
}

/// The state after the loop has seen `events`, in order, starting from `state`.
pub open spec fn listener_run(state: ListenerState, events: Seq<ListenerEvent>) -> ListenerState
    decreases events.len(),
{
    if events.len() == 0 {
        state
    } else {
        listener_run(listener_next(state, events[0]).0, events.drop_first())
    }
}

/// How many connections the loop spawns while it sees `events` from `state`.
pub open spec fn listener_spawns(state: ListenerState, events: Seq<ListenerEvent>) -> nat
    decreases events.len(),
{
    if events.len() == 0 {
        0
    } else {
        let (next, action) = listener_next(state, events[0]);
        (if action is SpawnConnection { 1nat } else { 0nat }) + listener_spawns(next, events.drop_first())
    }
}

/// The number of `Accepted` events that come before the first event of any
/// other kind.
pub open spec fn accepted_prefix(events: Seq<ListenerEvent>) -> nat
    decreases events.len(),
{
    if events.len() == 0 || events[0] != ListenerEvent::Accepted {
        0
    } else {
        1 + accepted_prefix(events.drop_first())
    }
}

/// Once shutdown is requested the loop is stopped for good and spawns nothing
/// more, whatever it observes afterwards.
pub proof fn lemma_stopped_is_final(events: Seq<ListenerEvent>)
    ensures
        listener_run(ListenerState::Stopped, events) == ListenerState::Stopped,
        listener_spawns(ListenerState::Stopped, events) == 0,
    decreases events.len(),
{
    if events.len() > 0 {
        lemma_stopped_is_final(events.drop_first());
    }
}

/// After an accept failure no connection is spawned any more; the loop ends
/// exactly when shutdown is requested.
pub proof fn lemma_after_failure_only_shutdown(events: Seq<ListenerEvent>)
    ensures
        listener_spawns(ListenerState::ShutdownOnly, events) == 0,
        listener_run(ListenerState::ShutdownOnly, events) == ListenerState::Stopped
            <==> events.contains(ListenerEvent::ShutdownRequested),
    decreases events.len(),
{
    if events.len() > 0 {
        lemma_after_failure_only_shutdown(events.drop_first());
        lemma_stopped_is_final(events.drop_first());
        if events[0] != ListenerEvent::ShutdownRequested {
            assert(events.contains(ListenerEvent::ShutdownRequested) <==> events.drop_first().contains(ListenerEvent::ShutdownRequested)) by {
                if events.contains(ListenerEvent::ShutdownRequested) {
                    let i = choose|i: int| 0 <= i < events.len() && events[i] == ListenerEvent::ShutdownRequested;
                    assert(i > 0);
                    assert(events.drop_first()[i - 1] == ListenerEvent::ShutdownRequested);
                }
                if events.drop_first().contains(ListenerEvent::ShutdownRequested) {
                    let i = choose|i: int| 0 <= i < events.drop_first().len() && events.drop_first()[i] == ListenerEvent::ShutdownRequested;
                    assert(events[i + 1] == ListenerEvent::ShutdownRequested);
                }
            }
        } else {
            assert(events[0] == ListenerEvent::ShutdownRequested);
        }
    }
}

/// A serving loop spawns one task per connection it accepts before the first
/// accept failure or shutdown request, and none after.
pub proof fn lemma_spawns_count_accepted_prefix(events: Seq<ListenerEvent>)
    ensures
        listener_spawns(ListenerState::Accepting, events) == accepted_prefix(events),
    decreases events.len(),
{
    if events.len() > 0 {
        lemma_spawns_count_accepted_prefix(events.drop_first());
        lemma_stopped_is_final(events.drop_first());
        lemma_after_failure_only_shutdown(events.drop_first());
    }
}

/// What a connection task observed.
#[derive(Clone, Copy, Debug, PartialEq, Eq, Structural)]
pub enum ConnectionEvent {
    HandshakeSucceeded,
    HandshakeFailed,
    ServeSucceeded,
    ServeFailed,
}

/// What a connection task does next.
#[derive(Clone, Copy, Debug, PartialEq, Eq, Structural)]
pub enum ConnectionAction {
    /// Serve HTTP over the established TLS stream.
    Serve,
    /// Log a warning and close the connection.
    WarnAndClose,
    /// Close the connection.
    Close,
}

/// A connection is served once its TLS handshake succeeds; a failed handshake
/// or a failed exchange is logged as a warning; a finished exchange just closes.
pub fn connection_step(event: ConnectionEvent) -> (res: ConnectionAction)
    ensures
        event is HandshakeSucceeded <==> res is Serve,
        (event is HandshakeFailed || event is ServeFailed) <==> res is WarnAndClose,
        event is ServeSucceeded <==> res is Close,
{
    match event {
        ConnectionEvent::HandshakeSucceeded => ConnectionAction::Serve,
        ConnectionEvent::HandshakeFailed => ConnectionAction::WarnAndClose,
        ConnectionEvent::ServeSucceeded => ConnectionAction::Close,
        ConnectionEvent::ServeFailed => ConnectionAction::WarnAndClose,
    }
}

/// What to do once listening for Ctrl-C ends.
#[derive(Clone, Copy, Debug, PartialEq, Eq, Structural)]
pub enum SignalAction {
    /// Request shutdown of the server.
    Cancel,
    /// Log a warning and leave the server running.
    WarnAndKeepRunning,
}

/// The signal listener requests shutdown when Ctrl-C arrives, and only then;
/// if listening for the signal fails, the server keeps running.
pub fn signal_step(signal_received: bool) -> (res: SignalAction)
    ensures
        res is Cancel <==> signal_received,
{
    if signal_received {
        SignalAction::Cancel
    } else {
        SignalAction::WarnAndKeepRunning
    }
}

} // verus!
