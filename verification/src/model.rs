//! The adapter as a mathematical state machine: a waker slot and a queue
//! of notifications, with one transition for each thing that can happen
//! to it.

use vstd::prelude::*;
use core::task::Poll;
use crate::message::StreamItemView;
use crate::relay::notifications_of;
use crate::relay::StreamMessageView;
use crate::stream::item_of;
use crate::transport::TransportEventView;
use crate::transport::CONNECTING;

verus! {

/// The most notifications the channel holds at a time.
pub open spec fn capacity() -> nat {
    (usize::MAX / 2) as nat
}

/// Mathematical content of the adapter.
pub struct WebSocketView<W> {
    /// The waker of the task that waits for the connection to open, if
    /// one is registered.
    pub sink_waker: Option<W>,
    /// The notifications pushed and not yet yielded, oldest first.
    pub queue: Seq<StreamMessageView>,
}

impl<W> WebSocketView<W> {
    /// A new adapter: no task waits, nothing is queued.
    pub open spec fn initial() -> Self {
        WebSocketView { sink_waker: None, queue: Seq::empty() }
    }

    /// Whether the channel has room for what `event` pushes.
    pub open spec fn has_room(self, event: TransportEventView) -> bool {
        notifications_of(event).len() == 0 || self.queue.len() + notifications_of(event).len()
            <= capacity()
    }

    /// The adapter after the relay has handled `event`: an open event
    /// empties the waker slot, any other event appends its notifications
    /// to the queue.
    pub open spec fn relay(self, event: TransportEventView) -> Self {
        if event is Open {
            WebSocketView { sink_waker: None, queue: self.queue }
        } else {
            WebSocketView { sink_waker: self.sink_waker, queue: self.queue + notifications_of(event) }
        }
    }

    /// The waker the relay hands out to be woken when it handles `event`:
    /// the registered one on an open event, none otherwise.
    pub open spec fn woken(self, event: TransportEventView) -> Option<W> {
        if event is Open {
            self.sink_waker
        } else {
            None
        }
    }

    /// The adapter after the sink was asked for readiness while the
    /// transport reported `ready_state`: while connecting, `waker` takes
    /// the slot, replacing whatever was there.
    pub open spec fn poll_ready(self, ready_state: u16, waker: W) -> Self {
        if ready_state == CONNECTING {
            WebSocketView { sink_waker: Some(waker), queue: self.queue }
        } else {
            self
        }
    }

    /// What a poll of the stream yields: the item for the oldest
    /// notification, or `Pending` on an empty queue.
    pub open spec fn next_item<E>(self) -> Poll<Option<StreamItemView<E>>> {
        if self.queue.len() > 0 {
            Poll::Ready(item_of(Some(self.queue.first())))
        } else {
            Poll::Pending
        }
    }

    /// The adapter after a poll of the stream: the oldest notification, if
    /// there was one, is gone.
    pub open spec fn poll_next(self) -> Self {
        if self.queue.len() > 0 {
            WebSocketView { sink_waker: self.sink_waker, queue: self.queue.drop_first() }
        } else {
            self
        }
    }
}

} // verus!
