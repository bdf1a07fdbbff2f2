//! The boundary with the transport, as plain values: what the transport
//! reports to the adapter, and what the adapter asks of the transport.

use vstd::prelude::*;
use crate::message::CloseEvent;
use crate::message::CloseEventView;

verus! {

/// Ready-state code of a connection that is not yet established.
pub const CONNECTING: u16 = 0;

/// Ready-state code of an established connection.
pub const OPEN: u16 = 1;

/// Ready-state code of a connection in its closing handshake.
pub const CLOSING: u16 = 2;

/// Ready-state code of a closed connection.
pub const CLOSED: u16 = 3;

/// Close code the transport falls back on when a reason is given without
/// a code.
pub const NO_STATUS: u16 = 1005;

/// The data of a message event, by the shape in which the transport
/// delivered it.
#[derive(Clone, Debug, PartialEq, Eq)]
pub enum Payload {
    /// A raw byte buffer.
    Binary(Vec<u8>),
    /// A string.
    Text(String),
    /// Any other shape. A transport set up to deliver binary data as byte
    /// buffers never produces it.
    Unknown,
}

/// Mathematical content of a [`Payload`].
pub enum PayloadView {
    Binary(Seq<u8>),
    Text(Seq<char>),
    Unknown,
}

impl View for Payload {
    type V = PayloadView;

    open spec fn view(&self) -> PayloadView {
        match self {
            Payload::Binary(bytes) => PayloadView::Binary(bytes@),
            Payload::Text(text) => PayloadView::Text(text@),
            Payload::Unknown => PayloadView::Unknown,
        }
    }
}

/// An event the transport delivers to one of the adapter's four callbacks.
#[derive(Clone, Debug, PartialEq, Eq)]
pub enum TransportEvent {
    /// The connection was established.
    Open,
    /// A message arrived.
    Message(Payload),
    /// The transport reported an error.
    Error,
    /// The connection closed.
    Close(CloseEvent),
}

/// Mathematical content of a [`TransportEvent`].
pub enum TransportEventView {
    Open,
    Message(PayloadView),
    Error,
    Close(CloseEventView),
}

impl View for TransportEvent {
    type V = TransportEventView;

    open spec fn view(&self) -> TransportEventView {
        match self {
            TransportEvent::Open => TransportEventView::Open,
            TransportEvent::Message(data) => TransportEventView::Message(data@),
            TransportEvent::Error => TransportEventView::Error,
            TransportEvent::Close(event) => TransportEventView::Close(event@),
        }
    }
}

impl TransportEventView {
    /// An event the transport may deliver: every message payload has a
    /// known shape.
    pub open spec fn known(self) -> bool {
        !(self matches TransportEventView::Message(data) && data is Unknown)
    }
}

/// A call the adapter asks its owner to make on the transport.
#[derive(Clone, Debug, PartialEq, Eq)]
pub enum Command {
    /// Send a text message.
    SendText(String),
    /// Send a binary message.
    SendBytes(Vec<u8>),
    /// Close the connection with the transport's defaults.
    Close,
    /// Close the connection with a code.
    CloseWithCode(u16),
    /// Close the connection with a code and a reason.
    CloseWithCodeAndReason(u16, String),
}

/// Mathematical content of a [`Command`].
pub enum CommandView {
    SendText(Seq<char>),
    SendBytes(Seq<u8>),
    Close,
    CloseWithCode(u16),
    CloseWithCodeAndReason(u16, Seq<char>),
}

impl View for Command {
    type V = CommandView;

    open spec fn view(&self) -> CommandView {
        match self {
            Command::SendText(text) => CommandView::SendText(text@),
            Command::SendBytes(bytes) => CommandView::SendBytes(bytes@),
            Command::Close => CommandView::Close,
            Command::CloseWithCode(code) => CommandView::CloseWithCode(*code),
            Command::CloseWithCodeAndReason(code, reason) => CommandView::CloseWithCodeAndReason(
                *code,
                reason@,
            ),
        }
    }
}

/// One step of preparing a freshly opened transport for the adapter.
#[derive(Clone, Copy, Debug, PartialEq, Eq)]
pub enum SetupStep {
    /// Have binary messages delivered as raw byte buffers.
    DeliverByteBuffers,
    /// Register the callback for the open event.
    ListenForOpen,
    /// Register the callback for message events.
    ListenForMessage,
    /// Register the callback for error events.
    ListenForError,
    /// Register the callback for the close event.
    ListenForClose,
}

} // verus!
