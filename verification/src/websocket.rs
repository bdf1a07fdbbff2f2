//! The adapter: the waker slot of the outbound sink and the two ends of
//! the notification channel, with the operations of the event relay, the
//! sink, the stream and the connection's lifecycle.

use vstd::prelude::*;
use core::task::Context;
use core::task::Poll;
use futures_channel::mpsc::UnboundedReceiver;
use futures_channel::mpsc::UnboundedSender;
use crate::channel::backlog_len;
use crate::channel::enqueue;
use crate::channel::linked;
use crate::channel::open_channel;
use crate::channel::poll_channel;
use crate::channel::queued;
use crate::message::poll_view;
use crate::message::StreamItem;
use crate::message::WebSocketError;
use crate::model::capacity;
use crate::model::WebSocketView;
use crate::relay::notifications;
use crate::relay::views;
use crate::relay::StreamMessage;
use crate::stream::stream_item;
use crate::transport::SetupStep;
use crate::transport::TransportEvent;
use crate::transport::CONNECTING;

verus! {

/// The steps that prepare a freshly opened transport, in the order in
/// which they are carried out: byte-buffer delivery is switched on before
/// any callback is registered.
pub open spec fn setup_steps() -> Seq<SetupStep> {
    seq![
        SetupStep::DeliverByteBuffers,
        SetupStep::ListenForOpen,
        SetupStep::ListenForMessage,
        SetupStep::ListenForError,
        SetupStep::ListenForClose,
    ]
}

/// The adapter's own state. `W` is the type of the wakers it holds.
pub struct WebSocket<W> {
    sink_waker: Option<W>,
    sender: UnboundedSender<StreamMessage>,
    message_receiver: UnboundedReceiver<StreamMessage>,
}

impl<W> View for WebSocket<W> {
    type V = WebSocketView<W>;

    closed spec fn view(&self) -> WebSocketView<W> {
        WebSocketView { sink_waker: self.sink_waker, queue: views(queued(self.message_receiver)) }
    }
}

/// The channel refused an event because its queue is full.
#[derive(Clone, Copy, Debug, PartialEq, Eq)]
pub struct ChannelFull;

impl<W> WebSocket<W> {
    /// The sender pushes into the channel the receiver drains.
    #[verifier::type_invariant]
    spec fn ends_linked(&self) -> bool {
        linked(self.sender, self.message_receiver)
    }

    /// Builds the adapter for a transport that was just opened, or hands
    /// back the error with which opening failed. On success the transport
    /// comes back with the adapter and the steps to carry out on it.
    pub fn setup<T, E>(ws: Result<T, E>) -> (made: Result<(T, Self, Vec<SetupStep>), E>)
        ensures
            match ws {
                Ok(transport) => made matches Ok(parts) && parts.0 == transport && parts.1@
                    == WebSocketView::<W>::initial() && parts.2@ == setup_steps(),
                Err(error) => made matches Err(same) && same == error,
            },
    {
        match ws {
            Err(error) => Err(error),
            Ok(transport) => {
                let (sender, message_receiver) = open_channel();
                let adapter = WebSocket { sink_waker: None, sender, message_receiver };
                let steps = vec![
                    SetupStep::DeliverByteBuffers,
                    SetupStep::ListenForOpen,
                    SetupStep::ListenForMessage,
                    SetupStep::ListenForError,
                    SetupStep::ListenForClose,
                ];
                assert(adapter@.queue =~= Seq::empty());
                assert(steps@ =~= setup_steps());
                Ok((transport, adapter, steps))
            },
        }
    }

    /// Pushes `pending` onto the channel, first item first.
    fn push_all(&mut self, pending: Vec<StreamMessage>)
        requires
            old(self)@.queue.len() + pending@.len() <= capacity(),
        ensures
            final(self)@.queue == old(self)@.queue + views(pending@),
            final(self)@.sink_waker == old(self)@.sink_waker,
    {
        proof {
            use_type_invariant(&*self);
        }
        let ghost before = queued(self.message_receiver);
        for item in iter: pending
            invariant
                linked(self.sender, self.message_receiver),
                self.sink_waker == old(self).sink_waker,
                before.len() + iter.seq().len() <= capacity(),
                queued(self.message_receiver) == before + iter.seq().take(iter.index() as int),
        {
            enqueue(&self.sender, &mut self.message_receiver, item);
        }
        assert(views(before + pending@) =~= views(before) + views(pending@));
    }

    /// Handles one transport event: an open event takes the registered
    /// waker out of its slot and hands it to the caller to be woken; any
    /// other event pushes its notifications onto the channel, in order.
    pub fn relay(&mut self, event: TransportEvent) -> (wake: Option<W>)
        requires
            event@.known(),
            old(self)@.has_room(event@),
        ensures
            final(self)@ == old(self)@.relay(event@),
            wake == old(self)@.woken(event@),
    {
        proof {
            use_type_invariant(&*self);
        }
        match event {
            TransportEvent::Open => {
                let mut wake: Option<W> = None;
                core::mem::swap(&mut self.sink_waker, &mut wake);
                wake
            },
            other => {
                let pending = notifications(other);
                self.push_all(pending);
                None
            },
        }
    }

    /// Handles one transport event if the channel has room for what it
    /// pushes, as [`WebSocket::relay`] does; refuses it, and changes
    /// nothing, if the channel is full.
    pub fn try_relay(&mut self, event: TransportEvent) -> (relayed: Result<Option<W>, ChannelFull>)
        requires
            event@.known(),
        ensures
            old(self)@.has_room(event@) ==> relayed == Ok::<Option<W>, ChannelFull>(
                old(self)@.woken(event@),
            ) && final(self)@ == old(self)@.relay(event@),
            !old(self)@.has_room(event@) ==> relayed is Err && final(self)@ == old(self)@,
    {
        proof {
            use_type_invariant(&*self);
        }
        let backlog = backlog_len(&self.sender, &self.message_receiver);
        let room = if backlog <= usize::MAX / 2 {
            usize::MAX / 2 - backlog
        } else {
            0
        };
        let needed: usize = match &event {
            TransportEvent::Open => 0,
            TransportEvent::Message(_) => 1,
            TransportEvent::Error => 1,
            TransportEvent::Close(_) => 2,
        };
        if needed <= room {
            Ok(self.relay(event))
        } else {
            Err(ChannelFull)
        }
    }

    /// Tells whether the sink may take a message, given the ready state
    /// the transport reports right now. While the transport is connecting
    /// the sink is not ready, and `waker` is kept, in place of any waker
    /// kept before, to be handed out when the open event arrives. In any
    /// other state the sink is ready and `waker` is dropped.
    pub fn poll_ready<E>(&mut self, ready_state: u16, waker: W) -> (ready: Poll<
        Result<(), WebSocketError<E>>,
    >)
        ensures
            final(self)@ == old(self)@.poll_ready(ready_state, waker),
            ready_state == CONNECTING ==> ready is Pending,
            ready_state != CONNECTING ==> ready == Poll::Ready(Ok::<(), WebSocketError<E>>(())),
    {
        proof {
            use_type_invariant(&*self);
        }
        if ready_state == CONNECTING {
            self.sink_waker = Some(waker);
            Poll::Pending
        } else {
            Poll::Ready(Ok(()))
        }
    }

    /// Polls the stream: takes the oldest notification off the channel and
    /// yields what it stands for, or answers `Pending` on an empty channel,
    /// after which the next push wakes the task of `cx`.
    pub fn poll_next<E>(&mut self, cx: &mut Context<'_>) -> (polled: Poll<Option<StreamItem<E>>>)
        ensures
            final(self)@ == old(self)@.poll_next(),
            poll_view(polled) == old(self)@.next_item::<E>(),
    {
        proof {
            use_type_invariant(&*self);
        }
        let ghost before = queued(self.message_receiver);
        let polled = match poll_channel(&self.sender, &mut self.message_receiver, cx) {
            Poll::Pending => Poll::Pending,
            Poll::Ready(next) => Poll::Ready(stream_item(next)),
        };
        proof {
            if before.len() > 0 {
                assert(views(before.drop_first()) =~= views(before).drop_first());
            }
        }
        polled
    }
}

} // verus!
