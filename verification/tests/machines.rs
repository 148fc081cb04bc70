use table_actuator::actuator::ActuatorState;
use table_actuator::command::Command;
use table_actuator::lifecycle::{
    conn_step, next_action, ConnAction, ConnEvent, ConnState, BUFFER_SIZE, LISTEN_PORT,
    READ_TIMEOUT_SECS,
};
use table_actuator::wifi::{AssociationManager, BringupState, JoinState, NetworkBringup};

#[test]
fn apply_is_idempotent() {
    for c in [Command::Raise, Command::Lower, Command::Stop] {
        let mut once = ActuatorState::new();
        once.apply(c);
        let mut twice = ActuatorState::new();
        twice.apply(c);
        twice.apply(c);
        assert_eq!(once, twice);
    }
}

#[test]
fn lines_never_both_asserted() {
    let commands = [
        Command::Raise,
        Command::Lower,
        Command::Raise,
        Command::Stop,
        Command::Lower,
        Command::Lower,
        Command::Stop,
    ];
    let mut act = ActuatorState::new();
    assert!(!(act.raise_line && act.lower_line));
    for c in commands {
        act.apply(c);
        assert!(!(act.raise_line && act.lower_line));
    }
}

#[test]
fn eof_read_closes_without_response() {
    let mut s = ConnState::Listening;
    s = conn_step(s, ConnEvent::AcceptOk);
    assert_eq!(s, ConnState::Accepted);
    s = conn_step(s, ConnEvent::ReadIssued);
    assert_eq!(s, ConnState::Reading);
    s = conn_step(s, ConnEvent::ReadOk(0));
    assert_eq!(s, ConnState::Closed);
    assert_eq!(next_action(s), ConnAction::Release);
    assert_ne!(next_action(s), ConnAction::Respond);
    s = conn_step(s, ConnEvent::SocketReleased);
    assert_eq!(s, ConnState::Listening);
}

#[test]
fn successful_cycle_reads_again_after_close() {
    let mut s = ConnState::Listening;
    s = conn_step(s, ConnEvent::AcceptOk);
    s = conn_step(s, ConnEvent::ReadIssued);
    s = conn_step(s, ConnEvent::ReadOk(24));
    assert_eq!(s, ConnState::Processing);
    assert_eq!(next_action(s), ConnAction::Process);
    s = conn_step(s, ConnEvent::Processed);
    assert_eq!(s, ConnState::Responding);
    s = conn_step(s, ConnEvent::ResponseSent);
    assert_eq!(s, ConnState::Reading);
    s = conn_step(s, ConnEvent::ReadErr);
    assert_eq!(s, ConnState::Closed);
    s = conn_step(s, ConnEvent::SocketReleased);
    assert_eq!(s, ConnState::Listening);
}

#[test]
fn failures_return_to_the_accept_loop() {
    assert_eq!(
        conn_step(ConnState::Listening, ConnEvent::AcceptErr),
        ConnState::Listening
    );
    assert_eq!(
        conn_step(ConnState::Reading, ConnEvent::ReadErr),
        ConnState::Closed
    );
    assert_eq!(
        conn_step(ConnState::Responding, ConnEvent::WriteErr),
        ConnState::Closed
    );
}

#[test]
fn stray_events_change_nothing() {
    assert_eq!(
        conn_step(ConnState::Listening, ConnEvent::ReadErr),
        ConnState::Listening
    );
    assert_eq!(
        conn_step(ConnState::Reading, ConnEvent::AcceptOk),
        ConnState::Reading
    );
    assert_eq!(
        conn_step(ConnState::Closed, ConnEvent::Processed),
        ConnState::Closed
    );
}

#[test]
fn association_counts_three_failures_then_succeeds() {
    let mut mgr = AssociationManager::new();
    assert_eq!(mgr.failures, 0);
    let mut logged_failures: u64 = 0;
    for _ in 0..3 {
        assert!(mgr.should_attempt());
        mgr.on_join_result(false);
        logged_failures += 1;
    }
    assert_eq!(mgr.failures, 3);
    assert_eq!(logged_failures, 3);
    assert_eq!(mgr.state, JoinState::Joining);
    assert!(mgr.should_attempt());
    mgr.on_join_result(true);
    assert_eq!(mgr.state, JoinState::Joined);
    assert_eq!(mgr.failures, 3);
    assert!(!mgr.should_attempt());
}

#[test]
fn bringup_indicator_tracks_the_wait() {
    let mut b = NetworkBringup::start();
    assert_eq!(b.state, BringupState::Waiting);
    assert!(b.indicator);
    b.on_poll(false);
    assert!(!b.is_configured());
    assert!(b.indicator);
    b.on_poll(false);
    assert!(b.indicator);
    b.on_poll(true);
    assert!(b.is_configured());
    assert!(!b.indicator);
    assert_eq!(b.state, BringupState::Configured);
}

#[test]
fn connection_constants_match_the_design() {
    assert_eq!(LISTEN_PORT, 80);
    assert_eq!(READ_TIMEOUT_SECS, 10);
    assert_eq!(BUFFER_SIZE, 4096);
}
