//! The per-connection lifecycle: a state machine over one TCP listener
//! bound to port 80, serving exactly one connection at a time.
//!
//! The machine decides; a driver performs the blocking socket operations
//! (accept, read, the two response writes, close) and feeds their outcomes
//! back as events.  Every failure path returns control to the accept state:
//! no event is fatal.
//!
//! After a completed response the socket is closed and another read is
//! attempted on the same, now-closed socket; that read fails fast and takes
//! the machine through `Closed` back to `Listening`.  The machine keeps this
//! close-then-read cycle rather than returning to accept directly.

use vstd::prelude::*;
use crate::actuator::{apply_spec, ActuatorState};
use crate::command::{command_of, contains_seq, interpret, lower_token, raise_token, Command};

verus! {

/// The TCP port the listener is bound to.
pub const LISTEN_PORT: u16 = 80;

/// The read-inactivity timeout, in seconds: the one bounded wait, which
/// forces a connection to close rather than block forever.
pub const READ_TIMEOUT_SECS: u64 = 10;

/// Size of the receive, transmit and request scratch buffers, all
/// statically sized and reused across connections.
pub const BUFFER_SIZE: usize = 4096;

/// Where one connection stands in its accept/read/process/respond/close
/// sequence.
#[derive(Clone, Copy, Debug, PartialEq, Eq, Structural)]
pub enum ConnState {
    /// Blocking accept on the listening port.
    Listening,
    /// A connection is accepted; a read is about to be issued.
    Accepted,
    /// A read with the inactivity timeout is outstanding.
    Reading,
    /// A chunk of request bytes is being interpreted and applied.
    Processing,
    /// The fixed response (header, then body) is being written.
    Responding,
    /// The connection is finished; the socket is to be released.
    Closed,
}

/// The outcome of the one blocking operation the driver performed for the
/// current state.
#[derive(Clone, Copy, Debug, PartialEq, Eq, Structural)]
pub enum ConnEvent {
    /// Accept returned a connection.
    AcceptOk,
    /// Accept failed.
    AcceptErr,
    /// A read was issued on the accepted connection.
    ReadIssued,
    /// A read returned this many bytes; zero means the peer closed cleanly.
    ReadOk(usize),
    /// A read failed, the inactivity timeout included.
    ReadErr,
    /// The chunk was interpreted and the command applied.
    Processed,
    /// Header and body were both written in full and the socket was closed.
    ResponseSent,
    /// A write failed at either step; the rest of the response is aborted.
    WriteErr,
    /// The socket resource was released.
    SocketReleased,
}

/// The transition relation of the lifecycle.  An event that does not belong
/// to the current state leaves the state unchanged.
pub open spec fn conn_step_spec(s: ConnState, e: ConnEvent) -> ConnState {
    match (s, e) {
        (ConnState::Listening, ConnEvent::AcceptOk) => ConnState::Accepted,
        (ConnState::Listening, ConnEvent::AcceptErr) => ConnState::Listening,
        (ConnState::Accepted, ConnEvent::ReadIssued) => ConnState::Reading,
        (ConnState::Reading, ConnEvent::ReadOk(n)) => if n == 0 {
            ConnState::Closed
        } else {
            ConnState::Processing
        },
        (ConnState::Reading, ConnEvent::ReadErr) => ConnState::Closed,
        (ConnState::Processing, ConnEvent::Processed) => ConnState::Responding,
        (ConnState::Responding, ConnEvent::ResponseSent) => ConnState::Reading,
        (ConnState::Responding, ConnEvent::WriteErr) => ConnState::Closed,
        (ConnState::Closed, ConnEvent::SocketReleased) => ConnState::Listening,
        (other, _) => other,
    }
}

/// Advance the lifecycle by one event.
pub fn conn_step(s: ConnState, e: ConnEvent) -> (t: ConnState)
    ensures
        t == conn_step_spec(s, e),
{
    match (s, e) {
        (ConnState::Listening, ConnEvent::AcceptOk) => ConnState::Accepted,
        (ConnState::Listening, ConnEvent::AcceptErr) => ConnState::Listening,
        (ConnState::Accepted, ConnEvent::ReadIssued) => ConnState::Reading,
        (ConnState::Reading, ConnEvent::ReadOk(n)) => if n == 0 {
            ConnState::Closed
        } else {
            ConnState::Processing
        },
        (ConnState::Reading, ConnEvent::ReadErr) => ConnState::Closed,
        (ConnState::Processing, ConnEvent::Processed) => ConnState::Responding,
        (ConnState::Responding, ConnEvent::ResponseSent) => ConnState::Reading,
        (ConnState::Responding, ConnEvent::WriteErr) => ConnState::Closed,
        (ConnState::Closed, ConnEvent::SocketReleased) => ConnState::Listening,
        (other, _) => other,
    }
}

/// The blocking operation the driver must perform next in a given state.
#[derive(Clone, Copy, Debug, PartialEq, Eq, Structural)]
pub enum ConnAction {
    /// Block in accept on the listening port.
    Accept,
    /// Issue a read with the inactivity timeout.
    IssueRead,
    /// Await the outstanding read.
    AwaitRead,
    /// Interpret the chunk and apply the command.
    Process,
    /// Write the fixed header, then the body, then close the socket.
    Respond,
    /// Release the socket and make a fresh one.
    Release,
}

/// The action a state calls for.
pub open spec fn action_of(s: ConnState) -> ConnAction {
    match s {
        ConnState::Listening => ConnAction::Accept,
        ConnState::Accepted => ConnAction::IssueRead,
        ConnState::Reading => ConnAction::AwaitRead,
        ConnState::Processing => ConnAction::Process,
        ConnState::Responding => ConnAction::Respond,
        ConnState::Closed => ConnAction::Release,
    }
}

/// What the driver must do next for a connection in state `s`.
pub fn next_action(s: ConnState) -> (a: ConnAction)
    ensures
        a == action_of(s),
{
    match s {
        ConnState::Listening => ConnAction::Accept,
        ConnState::Accepted => ConnAction::IssueRead,
        ConnState::Reading => ConnAction::AwaitRead,
        ConnState::Processing => ConnAction::Process,
        ConnState::Responding => ConnAction::Respond,
        ConnState::Closed => ConnAction::Release,
    }
}

/// The processing step of one connection cycle: interpret the request chunk
/// and apply the resulting command to the actuator.  The new actuator state
/// is a function of the chunk alone and never asserts both lines.
pub fn process_request(act: &mut ActuatorState, data: &[u8]) -> (c: Command)
    ensures
        c == command_of(data@),
        *final(act) == apply_spec(*old(act), c),
        final(act).wf(),
{
    let c = interpret(data);
    act.apply(c);
    c
}

/// A request whose bytes hold the raise token and not the lower token
/// leaves the raise line asserted and the lower line deasserted.
pub proof fn lemma_raise_request(s: ActuatorState, req: Seq<u8>)
    requires
        contains_seq(req, raise_token()),
        !contains_seq(req, lower_token()),
    ensures
        command_of(req) == Command::Raise,
        apply_spec(s, command_of(req)).raise_line,
        !apply_spec(s, command_of(req)).lower_line,
{
}

/// A request whose bytes hold the lower token and not the raise token
/// leaves the lower line asserted and the raise line deasserted.
pub proof fn lemma_lower_request(s: ActuatorState, req: Seq<u8>)
    requires
        contains_seq(req, lower_token()),
        !contains_seq(req, raise_token()),
    ensures
        command_of(req) == Command::Lower,
        apply_spec(s, command_of(req)).lower_line,
        !apply_spec(s, command_of(req)).raise_line,
{
}

/// A request whose bytes hold both tokens is a raise: the raise token has
/// priority.
pub proof fn lemma_raise_wins(s: ActuatorState, req: Seq<u8>)
    requires
        contains_seq(req, raise_token()),
        contains_seq(req, lower_token()),
    ensures
        command_of(req) == Command::Raise,
        apply_spec(s, command_of(req)).raise_line,
        !apply_spec(s, command_of(req)).lower_line,
{
}

/// A request whose bytes hold neither token, the empty request included,
/// leaves both lines deasserted.
pub proof fn lemma_no_token_request(s: ActuatorState, req: Seq<u8>)
    requires
        !contains_seq(req, raise_token()),
        !contains_seq(req, lower_token()),
    ensures
        command_of(req) == Command::Stop,
        !apply_spec(s, command_of(req)).raise_line,
        !apply_spec(s, command_of(req)).lower_line,
{
}

} // verus!
