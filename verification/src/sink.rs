//! The outbound sink: which command sends a message, and what the
//! transport's answer becomes.

use vstd::prelude::*;
use core::task::Poll;
use crate::message::Message;
use crate::message::MessageView;
use crate::message::WebSocketError;
use crate::transport::Command;
use crate::transport::CommandView;
use crate::websocket::WebSocket;

verus! {

/// The command that sends `item`: text goes out as text, bytes as bytes,
/// the payload as it is.
pub open spec fn send_command(item: MessageView) -> CommandView {
    match item {
        MessageView::Text(text) => CommandView::SendText(text),
        MessageView::Bytes(bytes) => CommandView::SendBytes(bytes),
    }
}

/// What a send comes to, given the transport's answer: success if the
/// transport accepted the message, else a send error around the
/// transport's diagnostic.
pub open spec fn send_result<E>(outcome: Result<(), E>) -> Result<(), WebSocketError<E>> {
    match outcome {
        Ok(_) => Ok(()),
        Err(error) => Err(WebSocketError::MessageSendError(error)),
    }
}

impl<W> WebSocket<W> {
    /// Chooses the command that sends `item`. The state of the connection
    /// is not looked at: a send on a connection that is not open is for
    /// the transport to reject.
    pub fn start_send(&self, item: Message) -> (command: Command)
        ensures
            command@ == send_command(item@),
    {
        match item {
            Message::Bytes(bytes) => Command::SendBytes(bytes),
            Message::Text(text) => Command::SendText(text),
        }
    }

    /// Turns the transport's answer to a send command into the result of
    /// the send.
    pub fn finish_send<E>(&self, outcome: Result<(), E>) -> (sent: Result<(), WebSocketError<E>>)
        ensures
            sent == send_result(outcome),
    {
        match outcome {
            Ok(_) => Ok(()),
            Err(error) => Err(WebSocketError::MessageSendError(error)),
        }
    }

    /// Flushes the sink. Nothing is buffered on this side of the
    /// transport, so the flush is done at once.
    pub fn poll_flush<E>(&self) -> (flushed: Poll<Result<(), WebSocketError<E>>>)
        ensures
            flushed == Poll::Ready(Ok::<(), WebSocketError<E>>(())),
    {
        Poll::Ready(Ok(()))
    }

    /// Closes the sink, which is done at once and leaves the connection
    /// as it is.
    pub fn poll_close<E>(&self) -> (closed: Poll<Result<(), WebSocketError<E>>>)
        ensures
            closed == Poll::Ready(Ok::<(), WebSocketError<E>>(())),
    {
        Poll::Ready(Ok(()))
    }
}

} // verus!
