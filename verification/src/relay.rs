//! The event relay: what each transport event puts on the notification
//! channel, and in which order.

use vstd::prelude::*;
use vstd::pervasive::unreached;
use crate::message::CloseEvent;
use crate::message::CloseEventView;
use crate::message::Message;
use crate::message::MessageView;
use crate::transport::Payload;
use crate::transport::PayloadView;
use crate::transport::TransportEvent;
use crate::transport::TransportEventView;

verus! {

/// A notification on its way from the event relay to the inbound stream.
#[derive(Clone, Debug, PartialEq, Eq)]
pub enum StreamMessage {
    /// The transport reported an error.
    ErrorEvent,
    /// The connection closed, with what the transport reported of it.
    CloseEvent(CloseEvent),
    /// A message arrived.
    Message(Message),
    /// The stream ends here.
    ConnectionClose,
}

/// Mathematical content of a [`StreamMessage`].
pub enum StreamMessageView {
    ErrorEvent,
    CloseEvent(CloseEventView),
    Message(MessageView),
    ConnectionClose,
}

impl View for StreamMessage {
    type V = StreamMessageView;

    open spec fn view(&self) -> StreamMessageView {
        match self {
            StreamMessage::ErrorEvent => StreamMessageView::ErrorEvent,
            StreamMessage::CloseEvent(event) => StreamMessageView::CloseEvent(event@),
            StreamMessage::Message(message) => StreamMessageView::Message(message@),
            StreamMessage::ConnectionClose => StreamMessageView::ConnectionClose,
        }
    }
}

/// Mathematical content of a run of notifications, in order.
pub open spec fn views(items: Seq<StreamMessage>) -> Seq<StreamMessageView> {
    items.map_values(|item: StreamMessage| item@)
}

/// The message a payload of known shape stands for: bytes for a byte
/// buffer, text for a string.
pub open spec fn parsed(data: PayloadView) -> MessageView
    recommends
        !(data is Unknown),
{
    match data {
        PayloadView::Binary(bytes) => MessageView::Bytes(bytes),
        PayloadView::Text(text) => MessageView::Text(text),
        PayloadView::Unknown => MessageView::Bytes(Seq::empty()),
    }
}

/// The notifications one transport event gives rise to, in the order in
/// which they are pushed. An open event pushes none; a close event pushes
/// its close information and, right behind it, the end of the stream.
pub open spec fn notifications_of(event: TransportEventView) -> Seq<StreamMessageView> {
    match event {
        TransportEventView::Open => Seq::empty(),
        TransportEventView::Message(data) => seq![StreamMessageView::Message(parsed(data))],
        TransportEventView::Error => seq![StreamMessageView::ErrorEvent],
        TransportEventView::Close(event) => seq![
            StreamMessageView::CloseEvent(event),
            StreamMessageView::ConnectionClose,
        ],
    }
}

/// Turns the data of a message event into a [`Message`].
pub fn parse_message(data: Payload) -> (message: Message)
    requires
        !(data is Unknown),
    ensures
        message@ == parsed(data@),
{
    match data {
        Payload::Binary(bytes) => Message::Bytes(bytes),
        Payload::Text(text) => Message::Text(text),
        Payload::Unknown => unreached(),
    }
}

/// Computes the notifications to push for one transport event.
pub fn notifications(event: TransportEvent) -> (pending: Vec<StreamMessage>)
    requires
        event@.known(),
    ensures
        views(pending@) == notifications_of(event@),
{
    let pending = match event {
        TransportEvent::Open => Vec::new(),
        TransportEvent::Message(data) => {
            let message = parse_message(data);
            vec![StreamMessage::Message(message)]
        },
        TransportEvent::Error => vec![StreamMessage::ErrorEvent],
        TransportEvent::Close(event) => vec![
            StreamMessage::CloseEvent(event),
            StreamMessage::ConnectionClose,
        ],
    };
    assert(views(pending@) =~= notifications_of(event@));
    pending
}

} // verus!
