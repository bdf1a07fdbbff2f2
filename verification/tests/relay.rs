use std::task::{Context, Poll, Waker};

use ws_futures::relay::{notifications, parse_message, StreamMessage};
use ws_futures::transport::{Payload, TransportEvent};
use ws_futures::websocket::WebSocket;
use ws_futures::{CloseEvent, Message, WebSocketError};

fn adapter() -> WebSocket<u32> {
    let (_, adapter, _) = WebSocket::<u32>::setup::<(), ()>(Ok(())).unwrap();
    adapter
}

fn poll(adapter: &mut WebSocket<u32>) -> Poll<Option<Result<Message, WebSocketError<()>>>> {
    let mut cx = Context::from_waker(Waker::noop());
    adapter.poll_next::<()>(&mut cx)
}

#[test]
fn binary_payload_parses_to_bytes() {
    assert_eq!(parse_message(Payload::Binary(vec![1, 2, 255])), Message::Bytes(vec![1, 2, 255]));
}

#[test]
fn text_payload_parses_to_text() {
    assert_eq!(
        parse_message(Payload::Text(String::from("héllo"))),
        Message::Text(String::from("héllo"))
    );
}

#[test]
fn empty_payloads_parse_to_empty_messages() {
    assert_eq!(parse_message(Payload::Binary(Vec::new())), Message::Bytes(Vec::new()));
    assert_eq!(parse_message(Payload::Text(String::new())), Message::Text(String::new()));
}

#[test]
fn open_event_pushes_nothing() {
    assert_eq!(notifications(TransportEvent::Open), Vec::new());
}

#[test]
fn message_event_pushes_one_message() {
    assert_eq!(
        notifications(TransportEvent::Message(Payload::Binary(vec![7]))),
        vec![StreamMessage::Message(Message::Bytes(vec![7]))]
    );
    assert_eq!(
        notifications(TransportEvent::Message(Payload::Text(String::from("x")))),
        vec![StreamMessage::Message(Message::Text(String::from("x")))]
    );
}

#[test]
fn error_event_pushes_one_error() {
    assert_eq!(notifications(TransportEvent::Error), vec![StreamMessage::ErrorEvent]);
}

#[test]
fn close_event_pushes_info_then_end() {
    let info = CloseEvent { code: 1006, reason: String::new(), was_clean: false };
    assert_eq!(
        notifications(TransportEvent::Close(info.clone())),
        vec![StreamMessage::CloseEvent(info), StreamMessage::ConnectionClose]
    );
}

#[test]
fn relay_hands_events_to_the_stream_in_order() {
    let mut adapter = adapter();
    assert_eq!(adapter.relay(TransportEvent::Message(Payload::Text(String::from("one")))), None);
    assert_eq!(adapter.relay(TransportEvent::Error), None);
    assert_eq!(adapter.relay(TransportEvent::Message(Payload::Binary(vec![2]))), None);
    assert_eq!(poll(&mut adapter), Poll::Ready(Some(Ok(Message::Text(String::from("one"))))));
    assert_eq!(poll(&mut adapter), Poll::Ready(Some(Err(WebSocketError::ConnectionError))));
    assert_eq!(poll(&mut adapter), Poll::Ready(Some(Ok(Message::Bytes(vec![2])))));
    assert_eq!(poll(&mut adapter), Poll::Pending);
}

#[test]
fn polls_between_events_lose_nothing() {
    let mut adapter = adapter();
    assert_eq!(poll(&mut adapter), Poll::Pending);
    adapter.relay(TransportEvent::Message(Payload::Text(String::from("a"))));
    adapter.relay(TransportEvent::Message(Payload::Text(String::from("b"))));
    assert_eq!(poll(&mut adapter), Poll::Ready(Some(Ok(Message::Text(String::from("a"))))));
    adapter.relay(TransportEvent::Message(Payload::Text(String::from("c"))));
    assert_eq!(poll(&mut adapter), Poll::Ready(Some(Ok(Message::Text(String::from("b"))))));
    assert_eq!(poll(&mut adapter), Poll::Ready(Some(Ok(Message::Text(String::from("c"))))));
    assert_eq!(poll(&mut adapter), Poll::Pending);
    assert_eq!(poll(&mut adapter), Poll::Pending);
}

#[test]
fn open_event_leaves_the_queue_alone() {
    let mut adapter = adapter();
    adapter.relay(TransportEvent::Error);
    assert_eq!(adapter.relay(TransportEvent::Open), None);
    assert_eq!(poll(&mut adapter), Poll::Ready(Some(Err(WebSocketError::ConnectionError))));
    assert_eq!(poll(&mut adapter), Poll::Pending);
}

#[test]
fn try_relay_accepts_while_there_is_room() {
    let mut adapter = adapter();
    assert_eq!(adapter.try_relay(TransportEvent::Error), Ok(None));
    let info = CloseEvent { code: 1001, reason: String::from("going away"), was_clean: true };
    assert_eq!(adapter.try_relay(TransportEvent::Close(info.clone())), Ok(None));
    assert_eq!(adapter.try_relay(TransportEvent::Open), Ok(None));
    assert_eq!(poll(&mut adapter), Poll::Ready(Some(Err(WebSocketError::ConnectionError))));
    assert_eq!(poll(&mut adapter), Poll::Ready(Some(Err(WebSocketError::ConnectionClose(info)))));
    assert_eq!(poll(&mut adapter), Poll::Ready(None));
    assert_eq!(poll(&mut adapter), Poll::Pending);
}

#[test]
fn try_relay_hands_out_the_waker_on_open() {
    let mut adapter = adapter();
    assert_eq!(adapter.poll_ready::<()>(0, 41), Poll::Pending);
    assert_eq!(adapter.try_relay(TransportEvent::Error), Ok(None));
    assert_eq!(adapter.try_relay(TransportEvent::Open), Ok(Some(41)));
    assert_eq!(adapter.try_relay(TransportEvent::Open), Ok(None));
}

#[test]
fn a_long_backlog_comes_out_in_order() {
    let mut adapter = adapter();
    for i in 0..1000u32 {
        assert_eq!(
            adapter.try_relay(TransportEvent::Message(Payload::Binary(i.to_le_bytes().to_vec()))),
            Ok(None)
        );
    }
    for i in 0..1000u32 {
        assert_eq!(
            poll(&mut adapter),
            Poll::Ready(Some(Ok(Message::Bytes(i.to_le_bytes().to_vec()))))
        );
    }
    assert_eq!(poll(&mut adapter), Poll::Pending);
}
