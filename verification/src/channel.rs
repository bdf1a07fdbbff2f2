//! The notification channel: an unbounded queue from `futures_channel`
//! that carries notifications from the event relay to the inbound stream.
//!
//! Nothing in this file is proved. It declares the channel's two ends, the
//! two std types a poll needs, gives the queue's contents a name, and
//! states for each call what the channel's source shows of it. The
//! contracts describe a channel whose two ends are held together and used
//! from one thread, which is how [`crate::websocket::WebSocket`] holds
//! them: the sender is never cloned or handed out, so nothing else can
//! push to the queue or close it between two calls.

use vstd::prelude::*;
use core::task::Context;
use core::task::Poll;
use futures_channel::mpsc::UnboundedReceiver;
use futures_channel::mpsc::UnboundedSender;
use crate::relay::StreamMessage;

verus! {

/// `futures_channel::mpsc::UnboundedSender`, the pushing end of a channel.
#[verifier::external_type_specification]
#[verifier::external_body]
#[verifier::reject_recursive_types(T)]
pub struct ExUnboundedSender<T>(UnboundedSender<T>);

/// `futures_channel::mpsc::UnboundedReceiver`, the draining end of a
/// channel.
#[verifier::external_type_specification]
#[verifier::external_body]
#[verifier::reject_recursive_types(T)]
pub struct ExUnboundedReceiver<T>(UnboundedReceiver<T>);

/// `core::task::Context`, which carries the waker of the polling task.
#[verifier::external_type_specification]
#[verifier::external_body]
pub struct ExContext<'a>(Context<'a>);

/// `core::task::Poll`, declared with its two variants `Ready` and
/// `Pending` as std defines them; nothing is assumed of it.
#[verifier::external_type_specification]
#[verifier::reject_recursive_types(T)]
pub struct ExPoll<T>(Poll<T>);

/// The notifications waiting in the channel that `rx` drains, oldest
/// first.
pub uninterp spec fn queued(rx: UnboundedReceiver<StreamMessage>) -> Seq<StreamMessage>;

/// Whether `tx` pushes into the channel that `rx` drains and that channel
/// is still open: neither end has closed it.
pub uninterp spec fn linked(
    tx: UnboundedSender<StreamMessage>,
    rx: UnboundedReceiver<StreamMessage>,
) -> bool;

/// `futures_channel::mpsc::unbounded`: makes a channel. Its source sets
/// the channel up open and with an empty queue, and hands out one sender
/// and the receiver of that channel.
#[verifier::external_body]
pub(crate) fn open_channel() -> (ends: (
    UnboundedSender<StreamMessage>,
    UnboundedReceiver<StreamMessage>,
))
    ensures
        linked(ends.0, ends.1),
        queued(ends.1) == Seq::<StreamMessage>::empty(),
{
    futures_channel::mpsc::unbounded()
}

/// `UnboundedSender::len`: the number of notifications waiting in the
/// sender's channel. The source reads the channel's message count, which
/// a push raises by one and a successful poll lowers by one. The receiver
/// is passed only for the contract to speak of its queue.
#[verifier::external_body]
pub(crate) fn backlog_len(
    tx: &UnboundedSender<StreamMessage>,
    rx: &UnboundedReceiver<StreamMessage>,
) -> (len: usize)
    requires
        linked(*tx, *rx),
    ensures
        len == queued(*rx).len(),
{
    tx.len()
}

/// `UnboundedSender::unbounded_send`: pushes `item` to the back of the
/// queue and wakes the task registered by the last pending poll. On an
/// open channel the source always accepts the item, provided the message
/// count is below half of `usize::MAX`; at that count it panics, which
/// the first `requires` clause rules out. The only foreign code the call
/// runs is the wake-up of that task, which is taken to return. The
/// receiver is passed only for the contract to speak of its queue.
#[verifier::external_body]
pub(crate) fn enqueue(
    tx: &UnboundedSender<StreamMessage>,
    rx: &mut UnboundedReceiver<StreamMessage>,
    item: StreamMessage,
)
    requires
        queued(*old(rx)).len() < usize::MAX / 2,
        linked(*tx, *old(rx)),
    ensures
        linked(*tx, *final(rx)),
        queued(*final(rx)) == queued(*old(rx)).push(item),
    no_unwind
{
    let _ = tx.unbounded_send(item);
}

/// `Stream::poll_next` of `UnboundedReceiver`: takes the oldest
/// notification off the queue if there is one. On an empty queue of an
/// open channel the source registers the waker of `cx` with the channel
/// and answers `Pending`; it answers `Ready(None)` only once the channel
/// is closed, which `linked` rules out. The only foreign code the call
/// runs is the cloning of that waker, which is taken to return. The sender
/// is passed only for the contract to speak of the link.
#[verifier::external_body]
pub(crate) fn poll_channel(
    tx: &UnboundedSender<StreamMessage>,
    rx: &mut UnboundedReceiver<StreamMessage>,
    cx: &mut Context<'_>,
) -> (polled: Poll<Option<StreamMessage>>)
    requires
        linked(*tx, *old(rx)),
    ensures
        linked(*tx, *final(rx)),
        queued(*old(rx)).len() > 0 ==> polled == Poll::Ready(Some(queued(*old(rx)).first()))
            && queued(*final(rx)) == queued(*old(rx)).drop_first(),
        queued(*old(rx)).len() == 0 ==> polled is Pending && queued(*final(rx)) == queued(
            *old(rx),
        ),
    no_unwind
{
    futures_core::Stream::poll_next(core::pin::Pin::new(rx), cx)
}

} // verus!
