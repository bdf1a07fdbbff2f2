use std::task::Poll;

use ws_futures::transport::{Command, TransportEvent, CLOSED, CLOSING, CONNECTING, OPEN};
use ws_futures::websocket::WebSocket;
use ws_futures::{Message, WebSocketError};

fn adapter() -> WebSocket<u32> {
    let (_, adapter, _) = WebSocket::<u32>::setup::<(), ()>(Ok(())).unwrap();
    adapter
}

#[test]
fn sink_waits_while_connecting() {
    let mut adapter = adapter();
    assert_eq!(adapter.poll_ready::<()>(CONNECTING, 1), Poll::Pending);
    assert_eq!(adapter.poll_ready::<()>(CONNECTING, 1), Poll::Pending);
}

#[test]
fn sink_is_ready_in_every_other_state() {
    let mut adapter = adapter();
    assert_eq!(adapter.poll_ready::<()>(OPEN, 1), Poll::Ready(Ok(())));
    assert_eq!(adapter.poll_ready::<()>(CLOSING, 1), Poll::Ready(Ok(())));
    assert_eq!(adapter.poll_ready::<()>(CLOSED, 1), Poll::Ready(Ok(())));
    assert_eq!(adapter.poll_ready::<()>(9, 1), Poll::Ready(Ok(())));
}

#[test]
fn ready_poll_registers_no_waker() {
    let mut adapter = adapter();
    assert_eq!(adapter.poll_ready::<()>(OPEN, 5), Poll::Ready(Ok(())));
    assert_eq!(adapter.relay(TransportEvent::Open), None);
}

#[test]
fn ready_poll_keeps_the_registered_waker() {
    let mut adapter = adapter();
    assert_eq!(adapter.poll_ready::<()>(CONNECTING, 5), Poll::Pending);
    assert_eq!(adapter.poll_ready::<()>(OPEN, 6), Poll::Ready(Ok(())));
    assert_eq!(adapter.relay(TransportEvent::Open), Some(5));
}

#[test]
fn last_registered_waker_wins() {
    let mut adapter = adapter();
    assert_eq!(adapter.poll_ready::<()>(CONNECTING, 1), Poll::Pending);
    assert_eq!(adapter.poll_ready::<()>(CONNECTING, 2), Poll::Pending);
    assert_eq!(adapter.poll_ready::<()>(CONNECTING, 3), Poll::Pending);
    assert_eq!(adapter.relay(TransportEvent::Open), Some(3));
}

#[test]
fn open_event_wakes_once() {
    let mut adapter = adapter();
    assert_eq!(adapter.poll_ready::<()>(CONNECTING, 8), Poll::Pending);
    assert_eq!(adapter.relay(TransportEvent::Open), Some(8));
    assert_eq!(adapter.relay(TransportEvent::Open), None);
}

#[test]
fn other_events_wake_nobody() {
    let mut adapter = adapter();
    assert_eq!(adapter.poll_ready::<()>(CONNECTING, 8), Poll::Pending);
    assert_eq!(adapter.relay(TransportEvent::Error), None);
    assert_eq!(adapter.relay(TransportEvent::Open), Some(8));
}

#[test]
fn text_is_sent_as_text() {
    let adapter = adapter();
    assert_eq!(
        adapter.start_send(Message::Text(String::from("ping"))),
        Command::SendText(String::from("ping"))
    );
}

#[test]
fn bytes_are_sent_as_bytes() {
    let adapter = adapter();
    assert_eq!(adapter.start_send(Message::Bytes(vec![1, 2, 3])), Command::SendBytes(vec![1, 2, 3]));
    assert_eq!(adapter.start_send(Message::Bytes(Vec::new())), Command::SendBytes(Vec::new()));
}

#[test]
fn accepted_send_succeeds() {
    let adapter = adapter();
    assert_eq!(adapter.finish_send::<String>(Ok(())), Ok(()));
}

#[test]
fn rejected_send_wraps_the_diagnostic() {
    let adapter = adapter();
    assert_eq!(
        adapter.finish_send(Err(String::from("InvalidStateError"))),
        Err(WebSocketError::MessageSendError(String::from("InvalidStateError")))
    );
}

#[test]
fn flush_and_sink_close_are_done_at_once() {
    let mut adapter = adapter();
    assert_eq!(adapter.poll_flush::<()>(), Poll::Ready(Ok(())));
    assert_eq!(adapter.poll_close::<()>(), Poll::Ready(Ok(())));
    assert_eq!(adapter.poll_ready::<()>(CONNECTING, 4), Poll::Pending);
    assert_eq!(adapter.poll_flush::<()>(), Poll::Ready(Ok(())));
    assert_eq!(adapter.poll_close::<()>(), Poll::Ready(Ok(())));
    assert_eq!(adapter.relay(TransportEvent::Open), Some(4));
}
