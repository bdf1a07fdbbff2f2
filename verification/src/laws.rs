//! What holds of every run of the adapter: nothing pushed is lost,
//! doubled or reordered on its way through the channel, the close
//! information always comes out before the stream ends, and an open event
//! wakes the task that registered last.

use vstd::prelude::*;
use crate::message::CloseEventView;
use crate::message::MessageView;
use crate::message::WebSocketError;
use crate::message::WebSocketErrorView;
use crate::model::WebSocketView;
use crate::relay::notifications_of;
use crate::relay::StreamMessageView;
use crate::sink::send_command;
use crate::sink::send_result;
use crate::stream::item_of;
use crate::transport::CommandView;
use crate::transport::TransportEventView;
use crate::transport::CONNECTING;

verus! {

/// One thing that happens to the adapter.
pub enum Step<W> {
    /// The transport delivers an event to the relay.
    Event(TransportEventView),
    /// The sink is asked for readiness while the transport reports a
    /// ready state; the asking task brings its waker.
    PollReady(u16, W),
    /// The stream is polled.
    PollNext,
}

/// The adapter after one step.
pub open spec fn after<W>(state: WebSocketView<W>, step: Step<W>) -> WebSocketView<W> {
    match step {
        Step::Event(event) => state.relay(event),
        Step::PollReady(ready_state, waker) => state.poll_ready(ready_state, waker),
        Step::PollNext => state.poll_next(),
    }
}

/// The adapter after a run of steps, starting from `state`.
pub open spec fn run<W>(state: WebSocketView<W>, steps: Seq<Step<W>>) -> WebSocketView<W>
    decreases steps.len(),
{
    if steps.len() == 0 {
        state
    } else {
        after(run(state, steps.drop_last()), steps.last())
    }
}

/// The notification that `step` takes off the queue of `state`: the oldest
/// one if the step is a poll of the stream and the queue is not empty.
pub open spec fn taken<W>(state: WebSocketView<W>, step: Step<W>) -> Seq<StreamMessageView> {
    if step is PollNext && state.queue.len() > 0 {
        seq![state.queue.first()]
    } else {
        Seq::empty()
    }
}

/// The notifications that the polls of a run took off the queue, in the
/// order in which the stream yielded them.
pub open spec fn delivered<W>(state: WebSocketView<W>, steps: Seq<Step<W>>) -> Seq<
    StreamMessageView,
>
    decreases steps.len(),
{
    if steps.len() == 0 {
        Seq::empty()
    } else {
        delivered(state, steps.drop_last()) + taken(run(state, steps.drop_last()), steps.last())
    }
}

/// The transport events of a run, in the order in which they arrived.
pub open spec fn events_of<W>(steps: Seq<Step<W>>) -> Seq<TransportEventView>
    decreases steps.len(),
{
    if steps.len() == 0 {
        Seq::empty()
    } else {
        match steps.last() {
            Step::Event(event) => events_of(steps.drop_last()).push(event),
            _ => events_of(steps.drop_last()),
        }
    }
}

/// The notifications the relay pushes for a run of events, in order.
pub open spec fn relayed(events: Seq<TransportEventView>) -> Seq<StreamMessageView>
    decreases events.len(),
{
    if events.len() == 0 {
        Seq::empty()
    } else {
        relayed(events.drop_last()) + notifications_of(events.last())
    }
}

/// Whether one of `events` is the close event that reported `info`.
pub open spec fn closed_with(events: Seq<TransportEventView>, info: CloseEventView) -> bool {
    exists|i: int| 0 <= i < events.len() && #[trigger] events[i] == TransportEventView::Close(info)
}

/// Whether the notification at `index` of `queue` keeps the order of a
/// close: an end of stream stands right behind a close information, and a
/// close information right before an end of stream.
pub open spec fn close_in_order(queue: Seq<StreamMessageView>, index: int) -> bool {
    &&& queue[index] is ConnectionClose ==> index > 0 && queue[index - 1] is CloseEvent
    &&& queue[index] is CloseEvent ==> index + 1 < queue.len() && queue[index + 1]
        is ConnectionClose
}

/// Relaying one more event appends that event's notifications to what
/// the earlier events pushed.
pub proof fn law_relay_appends(events: Seq<TransportEventView>, event: TransportEventView)
    ensures
        relayed(events.push(event)) == relayed(events) + notifications_of(event),
{
    assert(events.push(event).drop_last() =~= events);
}

/// Through any run of events and polls, nothing is lost, doubled or
/// reordered: what the stream has taken so far, followed by what still
/// waits in the queue, is what waited at the start followed by the
/// notifications of the events, in the order in which the events arrived.
pub proof fn law_stream_keeps_event_order<W>(state: WebSocketView<W>, steps: Seq<Step<W>>)
    ensures
        delivered(state, steps) + run(state, steps).queue == state.queue + relayed(
            events_of(steps),
        ),
    decreases steps.len(),
{
    if steps.len() == 0 {
        assert(delivered(state, steps) + run(state, steps).queue =~= state.queue + relayed(
            events_of(steps),
        ));
    } else {
        let earlier = steps.drop_last();
        let before = run(state, earlier);
        law_stream_keeps_event_order(state, earlier);
        match steps.last() {
            Step::Event(event) => {
                law_relay_appends(events_of(earlier), event);
                assert(delivered(state, steps) + run(state, steps).queue =~= (delivered(
                    state,
                    earlier,
                ) + before.queue) + notifications_of(event));
                assert(state.queue + relayed(events_of(steps)) =~= (state.queue + relayed(
                    events_of(earlier),
                )) + notifications_of(event));
            },
            Step::PollReady(ready_state, waker) => {
                assert(delivered(state, steps) + run(state, steps).queue =~= delivered(
                    state,
                    earlier,
                ) + before.queue);
            },
            Step::PollNext => {
                assert(delivered(state, steps) + run(state, steps).queue =~= delivered(
                    state,
                    earlier,
                ) + before.queue);
            },
        }
    }
}

/// An adapter that starts with an empty queue yields a prefix of what the
/// relay pushed: the notification behind the `poll`-th ready poll is the
/// `poll`-th notification of the events, whatever came between the polls.
pub proof fn law_stream_yields_what_was_pushed<W>(
    state: WebSocketView<W>,
    steps: Seq<Step<W>>,
    poll: int,
)
    requires
        state.queue.len() == 0,
        0 <= poll < delivered(state, steps).len(),
    ensures
        poll < relayed(events_of(steps)).len(),
        delivered(state, steps)[poll] == relayed(events_of(steps))[poll],
{
    let pushed = relayed(events_of(steps));
    let taken_so_far = delivered(state, steps);
    law_stream_keeps_event_order(state, steps);
    assert(state.queue + pushed =~= pushed);
    assert((taken_so_far + run(state, steps).queue).len() == pushed.len());
    assert((taken_so_far + run(state, steps).queue)[poll] == taken_so_far[poll]);
}

/// The stream ends on the end-of-stream notification and on no other: a
/// notification is yielded as end of stream exactly if it is that one.
pub proof fn law_end_of_stream_marks_close<E>(notification: StreamMessageView)
    ensures
        item_of::<E>(Some(notification)) is None <==> notification is ConnectionClose,
{
}

/// An end of stream is pushed exactly if a close event arrived.
pub proof fn law_end_pushed_iff_closed(events: Seq<TransportEventView>)
    ensures
        relayed(events).contains(StreamMessageView::ConnectionClose) <==> exists|i: int|
            0 <= i < events.len() && #[trigger] events[i] is Close,
    decreases events.len(),
{
    let end = StreamMessageView::ConnectionClose;
    if events.len() > 0 {
        let earlier = events.drop_last();
        let last = events.last();
        law_end_pushed_iff_closed(earlier);
        let old_queue = relayed(earlier);
        let added = notifications_of(last);
        if relayed(events).contains(end) {
            let j = choose|j: int| 0 <= j < relayed(events).len() && relayed(events)[j] == end;
            if j < old_queue.len() {
                assert(old_queue[j] == end);
                assert(old_queue.contains(end));
                let i = choose|i: int| 0 <= i < earlier.len() && #[trigger] earlier[i] is Close;
                assert(events[i] is Close);
            } else {
                assert(added[j - old_queue.len()] == end);
                assert(events[events.len() - 1] is Close);
            }
        }
        if exists|i: int| 0 <= i < events.len() && #[trigger] events[i] is Close {
            let i = choose|i: int| 0 <= i < events.len() && #[trigger] events[i] is Close;
            if i < earlier.len() {
                assert(earlier[i] is Close);
                let j = choose|j: int| 0 <= j < old_queue.len() && old_queue[j] == end;
                assert(relayed(events)[j] == end);
            } else {
                assert(relayed(events)[old_queue.len() as int + 1] == end);
            }
        }
    }
}

/// Whatever events arrive, the relay pushes the end of the stream right
/// behind a close information and nowhere else, and each close
/// information is the one that a close event reported.
pub proof fn law_close_pushed_in_order(events: Seq<TransportEventView>, index: int)
    requires
        0 <= index < relayed(events).len(),
    ensures
        close_in_order(relayed(events), index),
        relayed(events)[index] matches StreamMessageView::CloseEvent(info) ==> closed_with(
            events,
            info,
        ),
    decreases events.len(),
{
    if events.len() > 0 {
        let earlier = events.drop_last();
        let last = events.last();
        let old_queue = relayed(earlier);
        if index < old_queue.len() {
            law_close_pushed_in_order(earlier, index);
            assert(relayed(events)[index] == old_queue[index]);
            if old_queue[index] is ConnectionClose {
                assert(relayed(events)[index - 1] == old_queue[index - 1]);
            }
            if old_queue[index] is CloseEvent {
                let info = old_queue[index]->CloseEvent_0;
                assert(relayed(events)[index + 1] == old_queue[index + 1]);
                let i = choose|i: int|
                    0 <= i < earlier.len() && #[trigger] earlier[i] == TransportEventView::Close(
                        info,
                    );
                assert(events[i] == TransportEventView::Close(info));
            }
        } else {
            let offset = index - old_queue.len();
            assert(relayed(events)[index] == notifications_of(last)[offset]);
            if relayed(events)[index] is ConnectionClose {
                assert(relayed(events)[index - 1] == notifications_of(last)[offset - 1]);
            }
            if relayed(events)[index] is CloseEvent {
                let info = relayed(events)[index]->CloseEvent_0;
                assert(relayed(events)[index + 1] == notifications_of(last)[offset + 1]);
                assert(events[events.len() - 1] == TransportEventView::Close(info));
            }
        }
    }
}

/// An adapter that starts with an empty queue never ends its stream
/// before it has yielded the close information: whenever a poll yields
/// the end of the stream, the poll that was ready just before yielded the
/// close error, with the information that a close event of the run
/// reported.
pub proof fn law_close_reason_precedes_end<W, E>(
    state: WebSocketView<W>,
    steps: Seq<Step<W>>,
    poll: int,
)
    requires
        state.queue.len() == 0,
        0 <= poll < delivered(state, steps).len(),
        item_of::<E>(Some(delivered(state, steps)[poll])) is None,
    ensures
        poll > 0,
        delivered(state, steps)[poll - 1] matches StreamMessageView::CloseEvent(info)
            && closed_with(events_of(steps), info) && item_of::<E>(
            Some(delivered(state, steps)[poll - 1]),
        ) == Some(
            Err::<MessageView, WebSocketErrorView<E>>(WebSocketErrorView::ConnectionClose(info)),
        ),
{
    let events = events_of(steps);
    law_stream_yields_what_was_pushed(state, steps, poll);
    law_close_pushed_in_order(events, poll);
    law_stream_yields_what_was_pushed(state, steps, poll - 1);
    law_close_pushed_in_order(events, poll - 1);
}

/// The sink waits only while the transport connects, and an open event
/// wakes the task that registered last, once: after a pending poll the
/// open event hands out that poll's waker and leaves the slot empty, so a
/// second open event hands out nothing. No other event and no poll of the
/// stream touches the slot.
pub proof fn law_open_wakes_last_registrant<W>(
    state: WebSocketView<W>,
    ready_state: u16,
    waker: W,
    event: TransportEventView,
)
    ensures
        ready_state == CONNECTING ==> state.poll_ready(ready_state, waker).woken(
            TransportEventView::Open,
        ) == Some(waker),
        ready_state != CONNECTING ==> state.poll_ready(ready_state, waker) == state,
        state.relay(TransportEventView::Open).sink_waker is None,
        state.relay(TransportEventView::Open).woken(TransportEventView::Open) is None,
        !(event is Open) ==> state.woken(event) is None && state.relay(event).sink_waker
            == state.sink_waker,
        state.poll_next().sink_waker == state.sink_waker,
{
}

/// Whether `step` writes the waker slot: a pending poll of the sink fills
/// it, an open event empties it.
pub open spec fn writes_slot<W>(step: Step<W>) -> bool {
    match step {
        Step::Event(event) => event is Open,
        Step::PollReady(ready_state, _) => ready_state == CONNECTING,
        Step::PollNext => false,
    }
}

/// After any run, the slot holds what the last step that wrote it left
/// there: the waker of the last pending poll of the sink if no open event
/// came after it, nothing if an open event came last. Earlier wakers are
/// gone; nothing else in the run matters.
pub proof fn law_slot_holds_last_registrant<W>(
    state: WebSocketView<W>,
    steps: Seq<Step<W>>,
    last: int,
)
    requires
        0 <= last < steps.len(),
        writes_slot(steps[last]),
        forall|later: int| last < later < steps.len() ==> !writes_slot(#[trigger] steps[later]),
    ensures
        steps[last] matches Step::PollReady(_, waker) ==> run(state, steps).sink_waker == Some(
            waker,
        ),
        steps[last] is Event ==> run(state, steps).sink_waker is None,
    decreases steps.len(),
{
    let earlier = steps.drop_last();
    if last < steps.len() - 1 {
        assert(!writes_slot(steps[steps.len() - 1]));
        assert forall|later: int| last < later < earlier.len() implies !writes_slot(
            #[trigger] earlier[later],
        ) by {
            assert(earlier[later] == steps[later]);
        }
        law_slot_holds_last_registrant(state, earlier, last);
    }
}

/// A run in which nothing writes the slot leaves it as it was.
pub proof fn law_slot_is_kept<W>(state: WebSocketView<W>, steps: Seq<Step<W>>)
    requires
        forall|at: int| 0 <= at < steps.len() ==> !writes_slot(#[trigger] steps[at]),
    ensures
        run(state, steps).sink_waker == state.sink_waker,
    decreases steps.len(),
{
    if steps.len() > 0 {
        let earlier = steps.drop_last();
        assert(!writes_slot(steps[steps.len() - 1]));
        assert forall|at: int| 0 <= at < earlier.len() implies !writes_slot(
            #[trigger] earlier[at],
        ) by {
            assert(earlier[at] == steps[at]);
        }
        law_slot_is_kept(state, earlier);
    }
}

/// The message a command hands to the transport, if it is a send.
pub open spec fn sent_message(command: CommandView) -> Option<MessageView> {
    match command {
        CommandView::SendText(text) => Some(MessageView::Text(text)),
        CommandView::SendBytes(bytes) => Some(MessageView::Bytes(bytes)),
        _ => None,
    }
}

/// A send forwards the message to the transport as it is, whatever the
/// state of the connection, and succeeds exactly if the transport accepts
/// it.
pub proof fn law_send_forwards<E>(item: MessageView, outcome: Result<(), E>)
    ensures
        sent_message(send_command(item)) == Some(item),
        send_result(outcome) is Ok <==> outcome is Ok,
        outcome matches Err(error) ==> send_result(outcome) == Err::<(), WebSocketError<E>>(
            WebSocketError::MessageSendError(error),
        ),
{
}

} // verus!
