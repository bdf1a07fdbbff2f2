//! The values that travel through the adapter: messages, close
//! information, connection states and errors, each with its mathematical
//! content.

use vstd::prelude::*;
use core::task::Poll;

verus! {

/// A message sent to or received from the peer.
#[derive(Clone, Debug, PartialEq, Eq)]
pub enum Message {
    /// A text payload.
    Text(String),
    /// A binary payload.
    Bytes(Vec<u8>),
}

/// Mathematical content of a [`Message`].
pub enum MessageView {
    Text(Seq<char>),
    Bytes(Seq<u8>),
}

impl View for Message {
    type V = MessageView;

    open spec fn view(&self) -> MessageView {
        match self {
            Message::Text(text) => MessageView::Text(text@),
            Message::Bytes(bytes) => MessageView::Bytes(bytes@),
        }
    }
}

/// What the transport reported when the connection closed.
#[derive(Clone, Debug, PartialEq, Eq)]
pub struct CloseEvent {
    /// Close code sent by the peer or chosen by the transport.
    pub code: u16,
    /// Reason the connection was closed.
    pub reason: String,
    /// Whether the closing handshake completed.
    pub was_clean: bool,
}

/// Mathematical content of a [`CloseEvent`].
pub struct CloseEventView {
    pub code: u16,
    pub reason: Seq<char>,
    pub was_clean: bool,
}

impl View for CloseEvent {
    type V = CloseEventView;

    open spec fn view(&self) -> CloseEventView {
        CloseEventView { code: self.code, reason: self.reason@, was_clean: self.was_clean }
    }
}

/// The state of the connection, as the transport reports it.
#[derive(Clone, Copy, Debug, PartialEq, Eq)]
pub enum State {
    /// The connection has not yet been established.
    Connecting,
    /// The connection is established and communication is possible.
    Open,
    /// The connection is going through the closing handshake.
    Closing,
    /// The connection has been closed or could not be opened.
    Closed,
}

/// An error of the adapter. `E` is the transport's own diagnostic, carried
/// through untouched.
#[derive(Clone, Debug, PartialEq, Eq)]
pub enum WebSocketError<E> {
    /// The transport reported an error event.
    ConnectionError,
    /// The transport reported that the connection closed.
    ConnectionClose(CloseEvent),
    /// The transport rejected a message handed to it.
    MessageSendError(E),
}

/// Mathematical content of a [`WebSocketError`].
pub enum WebSocketErrorView<E> {
    ConnectionError,
    ConnectionClose(CloseEventView),
    MessageSendError(E),
}

impl<E> View for WebSocketError<E> {
    type V = WebSocketErrorView<E>;

    open spec fn view(&self) -> WebSocketErrorView<E> {
        match self {
            WebSocketError::ConnectionError => WebSocketErrorView::ConnectionError,
            WebSocketError::ConnectionClose(event) => WebSocketErrorView::ConnectionClose(event@),
            WebSocketError::MessageSendError(error) => WebSocketErrorView::MessageSendError(*error),
        }
    }
}

/// One item of the inbound stream.
pub type StreamItem<E> = Result<Message, WebSocketError<E>>;

/// Mathematical content of a stream item.
pub type StreamItemView<E> = Result<MessageView, WebSocketErrorView<E>>;

/// Mathematical content of what one poll of the stream yields once it is
/// ready: an item, or `None` at the end of the stream.
pub open spec fn yield_view<E>(item: Option<StreamItem<E>>) -> Option<StreamItemView<E>> {
    match item {
        Some(Ok(message)) => Some(Ok(message@)),
        Some(Err(error)) => Some(Err(error@)),
        None => None,
    }
}

/// Mathematical content of the result of one poll of the stream.
pub open spec fn poll_view<E>(polled: Poll<Option<StreamItem<E>>>) -> Poll<
    Option<StreamItemView<E>>,
> {
    match polled {
        Poll::Ready(item) => Poll::Ready(yield_view(item)),
        Poll::Pending => Poll::Pending,
    }
}

} // verus!
