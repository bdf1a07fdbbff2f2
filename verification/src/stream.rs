//! The inbound stream: what each notification becomes when the stream is
//! polled.

use vstd::prelude::*;
use crate::message::yield_view;
use crate::message::StreamItem;
use crate::message::StreamItemView;
use crate::message::WebSocketError;
use crate::message::WebSocketErrorView;
use crate::relay::StreamMessage;
use crate::relay::StreamMessageView;

verus! {

/// Mathematical content of what the channel handed over: a notification,
/// or `None` once the channel is exhausted.
pub open spec fn next_view(next: Option<StreamMessage>) -> Option<StreamMessageView> {
    match next {
        Some(notification) => Some(notification@),
        None => None,
    }
}

/// What the stream yields for what the channel handed over. A message is
/// yielded as it is, an error event and the close information as errors;
/// the end-of-stream notification and an exhausted channel both end the
/// stream.
pub open spec fn item_of<E>(next: Option<StreamMessageView>) -> Option<StreamItemView<E>> {
    match next {
        Some(StreamMessageView::Message(message)) => Some(Ok(message)),
        Some(StreamMessageView::ErrorEvent) => Some(Err(WebSocketErrorView::ConnectionError)),
        Some(StreamMessageView::CloseEvent(event)) => Some(
            Err(WebSocketErrorView::ConnectionClose(event)),
        ),
        Some(StreamMessageView::ConnectionClose) => None,
        None => None,
    }
}

/// Turns what the channel handed over into what the stream yields.
pub fn stream_item<E>(next: Option<StreamMessage>) -> (item: Option<StreamItem<E>>)
    ensures
        yield_view(item) == item_of::<E>(next_view(next)),
{
    match next {
        Some(StreamMessage::Message(message)) => Some(Ok(message)),
        Some(StreamMessage::ErrorEvent) => Some(Err(WebSocketError::ConnectionError)),
        Some(StreamMessage::CloseEvent(event)) => Some(Err(WebSocketError::ConnectionClose(event))),
        Some(StreamMessage::ConnectionClose) => None,
        None => None,
    }
}

} // verus!
