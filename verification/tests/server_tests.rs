use weirctrl::server::{
    connection_step, listener_step, signal_step, ConnectionAction, ConnectionEvent, ListenerAction,
    ListenerEvent, ListenerState, SignalAction, SHUTDOWN_TIMEOUT_SECS,
};

fn run(events: &[ListenerEvent]) -> (ListenerState, usize) {
    let mut state = ListenerState::Accepting;
    let mut spawned = 0;
    for e in events {
        let (next, action) = listener_step(state, *e);
        if action == ListenerAction::SpawnConnection {
            spawned += 1;
        }
        state = next;
    }
    (state, spawned)
}

#[test]
fn accepted_connections_are_spawned() {
    assert_eq!(
        listener_step(ListenerState::Accepting, ListenerEvent::Accepted),
        (ListenerState::Accepting, ListenerAction::SpawnConnection)
    );
}

#[test]
fn shutdown_drains_for_five_seconds() {
    assert_eq!(SHUTDOWN_TIMEOUT_SECS, 5);
    assert_eq!(
        listener_step(ListenerState::Accepting, ListenerEvent::ShutdownRequested),
        (ListenerState::Stopped, ListenerAction::DrainConnections { timeout_secs: 5 })
    );
    assert_eq!(
        listener_step(ListenerState::ShutdownOnly, ListenerEvent::ShutdownRequested),
        (ListenerState::Stopped, ListenerAction::DrainConnections { timeout_secs: 5 })
    );
}

#[test]
fn accept_failure_leaves_only_shutdown() {
    assert_eq!(
        listener_step(ListenerState::Accepting, ListenerEvent::AcceptFailed),
        (ListenerState::ShutdownOnly, ListenerAction::WaitForShutdown)
    );
    let (state, spawned) = run(&[
        ListenerEvent::Accepted,
        ListenerEvent::Accepted,
        ListenerEvent::AcceptFailed,
        ListenerEvent::Accepted,
    ]);
    assert_eq!(state, ListenerState::ShutdownOnly);
    assert_eq!(spawned, 2);
}

#[test]
fn stopped_is_final() {
    let (state, spawned) = run(&[
        ListenerEvent::Accepted,
        ListenerEvent::ShutdownRequested,
        ListenerEvent::Accepted,
        ListenerEvent::AcceptFailed,
    ]);
    assert_eq!(state, ListenerState::Stopped);
    assert_eq!(spawned, 1);
    assert_eq!(
        listener_step(ListenerState::Stopped, ListenerEvent::Accepted),
        (ListenerState::Stopped, ListenerAction::Idle)
    );
}

#[test]
fn connection_outcomes() {
    assert_eq!(connection_step(ConnectionEvent::HandshakeSucceeded), ConnectionAction::Serve);
    assert_eq!(connection_step(ConnectionEvent::HandshakeFailed), ConnectionAction::WarnAndClose);
    assert_eq!(connection_step(ConnectionEvent::ServeFailed), ConnectionAction::WarnAndClose);
    assert_eq!(connection_step(ConnectionEvent::ServeSucceeded), ConnectionAction::Close);
}

#[test]
fn signal_outcomes() {
    assert_eq!(signal_step(true), SignalAction::Cancel);
    assert_eq!(signal_step(false), SignalAction::WarnAndKeepRunning);
}
