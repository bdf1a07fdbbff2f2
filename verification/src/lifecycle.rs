//! The connection's lifecycle: its state, the command that closes it, and
//! the error of a protocol list that cannot be handed to the transport.

use vstd::prelude::*;
use vstd::string::StringExecFns;
use crate::message::State;
use crate::transport::Command;
use crate::transport::CommandView;
use crate::transport::CLOSED;
use crate::transport::CLOSING;
use crate::transport::CONNECTING;
use crate::transport::NO_STATUS;
use crate::transport::OPEN;
use crate::websocket::WebSocket;

verus! {

/// The connection state a ready-state code stands for.
pub open spec fn state_of(ready_state: u16) -> State
    recommends
        ready_state <= CLOSED,
{
    if ready_state == CONNECTING {
        State::Connecting
    } else if ready_state == OPEN {
        State::Open
    } else if ready_state == CLOSING {
        State::Closing
    } else {
        State::Closed
    }
}

/// The command that closes the connection with the given code and reason.
/// A reason without a code goes out with the transport's fallback code.
pub open spec fn close_command(code: Option<u16>, reason: Option<Seq<char>>) -> CommandView {
    match (code, reason) {
        (None, None) => CommandView::Close,
        (Some(code), None) => CommandView::CloseWithCode(code),
        (Some(code), Some(reason)) => CommandView::CloseWithCodeAndReason(code, reason),
        (None, Some(reason)) => CommandView::CloseWithCodeAndReason(NO_STATUS, reason),
    }
}

/// Mathematical content of an optional reason.
pub open spec fn reason_view(reason: Option<&str>) -> Option<Seq<char>> {
    match reason {
        Some(reason) => Some(reason@),
        None => None,
    }
}

/// The opening words of the error for a protocol list that could not be
/// converted.
pub open spec fn protocols_error_prefix() -> Seq<char> {
    "Failed to convert protocols to Javascript value: "@
}

/// The message of the error raised when the list of sub-protocols cannot
/// be converted for the transport; `cause` says what went wrong.
pub fn protocols_error(cause: &str) -> (message: String)
    ensures
        message@ == protocols_error_prefix() + cause@,
{
    let mut message = String::from_str("Failed to convert protocols to Javascript value: ");
    message.append(cause);
    message
}

impl<W> WebSocket<W> {
    /// The state of the connection, given the ready state the transport
    /// reports right now.
    pub fn state(&self, ready_state: u16) -> (state: State)
        requires
            ready_state <= CLOSED,
        ensures
            state == state_of(ready_state),
    {
        if ready_state == CONNECTING {
            State::Connecting
        } else if ready_state == OPEN {
            State::Open
        } else if ready_state == CLOSING {
            State::Closing
        } else {
            State::Closed
        }
    }

    /// Closes the connection on request: gives up the adapter and chooses
    /// the command that closes the transport.
    pub fn close(self, code: Option<u16>, reason: Option<&str>) -> (command: Command)
        ensures
            command@ == close_command(code, reason_view(reason)),
    {
        match (code, reason) {
            (None, None) => Command::Close,
            (Some(code), None) => Command::CloseWithCode(code),
            (Some(code), Some(reason)) => Command::CloseWithCodeAndReason(
                code,
                String::from_str(reason),
            ),
            (None, Some(reason)) => Command::CloseWithCodeAndReason(
                NO_STATUS,
                String::from_str(reason),
            ),
        }
    }

    /// Closes the connection when the adapter is given up without a
    /// request to close: the transport is closed with its defaults,
    /// whatever state it is in.
    pub fn on_drop(self) -> (command: Command)
        ensures
            command == Command::Close,
    {
        Command::Close
    }
}

} // verus!
