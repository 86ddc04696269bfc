//! The server as a state machine.
//!
//! The server handles one connection at a time, and each connection in the
//! same six operations: accept it, announce it, read the request once, write
//! the reply, flush, close. Every operation blocks, and any failure is fatal.
//! The machine performs none of these operations itself. It names the next
//! one as an [`Action`]; the driver performs it and reports the outcome as an
//! [`Event`].

use vstd::prelude::*;
use vstd::string::*;
use crate::reply::{respond, response_bytes};

verus! {

/// The size of the buffer into which a request is read. A longer request is
/// read in part; what is left of it is never looked at.
pub const BUFFER_CAPACITY: usize = 1024;

/// The line that is printed when a connection has been accepted.
pub const CONNECTION_NOTICE: &'static str = "Connection established!";

/// The operation whose outcome a listening server is waiting for.
#[derive(Clone, Copy, Debug, PartialEq, Eq, Structural)]
pub enum Stage {
    /// Waiting for a client to connect.
    Accepting,
    /// Printing the notice of a new connection.
    Announcing,
    /// Reading the request.
    Reading,
    /// Writing the reply.
    Writing,
    /// Flushing the connection.
    Flushing,
    /// Closing the connection.
    Closing,
}

/// The state of the server.
#[derive(Clone, Copy, Debug, PartialEq, Eq, Structural)]
pub enum ServerState {
    /// The socket is bound and the accept loop runs.
    Listening(Stage),
    /// An operation has failed. The server performs no further operation.
    Terminated,
}

/// The outcome of the operation that the machine asked for last.
#[derive(Clone, Debug, PartialEq, Eq)]
pub enum Event {
    /// A client has connected.
    Connected,
    /// The notice has been printed.
    Announced,
    /// A read has returned these bytes, possibly none.
    Received(Vec<u8>),
    /// A write has taken this many bytes.
    Sent(usize),
    /// The connection has been flushed.
    Flushed,
    /// The connection has been closed.
    Closed,
    /// The operation has failed.
    Failed,
}

/// The operation that the driver is to perform next.
#[derive(Clone, Debug, PartialEq, Eq)]
pub enum Action {
    /// Wait for the next client to connect.
    Accept,
    /// Print this line to standard output.
    Announce(String),
    /// Read once from the connection, at most this many bytes.
    Read(usize),
    /// Write these bytes to the connection, in one write.
    Write(Vec<u8>),
    /// Flush the connection.
    Flush,
    /// Close the connection.
    Close,
    /// Give up: end the process with the failure that was met.
    Abort,
}

/// An [`Event`] as a mathematical value.
pub enum EventView {
    Connected,
    Announced,
    Received(Seq<u8>),
    Sent(usize),
    Flushed,
    Closed,
    Failed,
}

/// An [`Action`] as a mathematical value.
pub enum ActionView {
    Accept,
    Announce(Seq<char>),
    Read(usize),
    Write(Seq<u8>),
    Flush,
    Close,
    Abort,
}

impl View for Event {
    type V = EventView;

    open spec fn view(&self) -> EventView {
        match *self {
            Event::Connected => EventView::Connected,
            Event::Announced => EventView::Announced,
            Event::Received(bytes) => EventView::Received(bytes@),
            Event::Sent(count) => EventView::Sent(count),
            Event::Flushed => EventView::Flushed,
            Event::Closed => EventView::Closed,
            Event::Failed => EventView::Failed,
        }
    }
}

impl View for Action {
    type V = ActionView;

    open spec fn view(&self) -> ActionView {
        match *self {
            Action::Accept => ActionView::Accept,
            Action::Announce(line) => ActionView::Announce(line@),
            Action::Read(capacity) => ActionView::Read(capacity),
            Action::Write(bytes) => ActionView::Write(bytes@),
            Action::Flush => ActionView::Flush,
            Action::Close => ActionView::Close,
            Action::Abort => ActionView::Abort,
        }
    }
}

/// Where the server stands once the attempt to bind its address is over, and
/// what it does first: it accepts connections if the socket is bound, and
/// gives up if it is not.
pub open spec fn initial(bound: bool) -> (ServerState, ActionView) {
    if bound {
        (ServerState::Listening(Stage::Accepting), ActionView::Accept)
    } else {
        (ServerState::Terminated, ActionView::Abort)
    }
}

/// The transition table: the state that follows `state` on `event`, and the
/// operation to perform next.
///
/// A listening server moves on when the event is the success of the
/// operation it waits for. On a failure, and on an event that does not answer
/// that operation, it terminates. A terminated server stays terminated.
pub open spec fn transition(state: ServerState, event: EventView) -> (ServerState, ActionView) {
    match (state, event) {
        (ServerState::Listening(Stage::Accepting), EventView::Connected) => (
            ServerState::Listening(Stage::Announcing),
            ActionView::Announce(CONNECTION_NOTICE@),
        ),
        (ServerState::Listening(Stage::Announcing), EventView::Announced) => (
            ServerState::Listening(Stage::Reading),
            ActionView::Read(BUFFER_CAPACITY),
        ),
        (ServerState::Listening(Stage::Reading), EventView::Received(_)) => (
            ServerState::Listening(Stage::Writing),
            ActionView::Write(response_bytes()),
        ),
        (ServerState::Listening(Stage::Writing), EventView::Sent(_)) => (
            ServerState::Listening(Stage::Flushing),
            ActionView::Flush,
        ),
        (ServerState::Listening(Stage::Flushing), EventView::Flushed) => (
            ServerState::Listening(Stage::Closing),
            ActionView::Close,
        ),
        (ServerState::Listening(Stage::Closing), EventView::Closed) => (
            ServerState::Listening(Stage::Accepting),
            ActionView::Accept,
        ),
        _ => (ServerState::Terminated, ActionView::Abort),
    }
}

impl ServerState {
    /// Starts the machine from the outcome of the bind: `bound` says whether
    /// the listening socket was bound.
    pub fn start(bound: bool) -> (out: (ServerState, Action))
        ensures
            out.0 == initial(bound).0,
            out.1@ == initial(bound).1,
    {
        if bound {
            (ServerState::Listening(Stage::Accepting), Action::Accept)
        } else {
            (ServerState::Terminated, Action::Abort)
        }
    }

    /// Takes the outcome of the last operation and returns the next state
    /// with the next operation, as the transition table gives them.
    pub fn step(self, event: Event) -> (out: (ServerState, Action))
        ensures
            out.0 == transition(self, event@).0,
            out.1@ == transition(self, event@).1,
    {
        match self {
            ServerState::Listening(stage) => match (stage, event) {
                (Stage::Accepting, Event::Connected) => (
                    ServerState::Listening(Stage::Announcing),
                    Action::Announce(String::from_str(CONNECTION_NOTICE)),
                ),
                (Stage::Announcing, Event::Announced) => (
                    ServerState::Listening(Stage::Reading),
                    Action::Read(BUFFER_CAPACITY),
                ),
                (Stage::Reading, Event::Received(request)) => (
                    ServerState::Listening(Stage::Writing),
                    Action::Write(respond(request.as_slice())),
                ),
                (Stage::Writing, Event::Sent(_)) => (
                    ServerState::Listening(Stage::Flushing),
                    Action::Flush,
                ),
                (Stage::Flushing, Event::Flushed) => (
                    ServerState::Listening(Stage::Closing),
                    Action::Close,
                ),
                (Stage::Closing, Event::Closed) => (
                    ServerState::Listening(Stage::Accepting),
                    Action::Accept,
                ),
                _ => (ServerState::Terminated, Action::Abort),
            },
            ServerState::Terminated => (ServerState::Terminated, Action::Abort),
        }
    }
}

} // verus!
