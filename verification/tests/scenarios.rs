use std::sync::atomic::{AtomicUsize, Ordering};
use std::sync::Arc;
use std::task::{Context, Poll, Wake, Waker};

use ws_futures::transport::{Command, Payload, TransportEvent, CONNECTING, OPEN};
use ws_futures::websocket::WebSocket;
use ws_futures::{CloseEvent, Message, WebSocketError};

struct Task(AtomicUsize);

impl Wake for Task {
    fn wake(self: Arc<Self>) {
        self.0.fetch_add(1, Ordering::SeqCst);
    }
}

fn echo(command: Command) -> TransportEvent {
    match command {
        Command::SendText(text) => TransportEvent::Message(Payload::Text(text)),
        Command::SendBytes(bytes) => TransportEvent::Message(Payload::Binary(bytes)),
        other => panic!("not a send: {:?}", other),
    }
}

#[test]
fn echo_then_remote_close() {
    let (_, mut adapter, _) = WebSocket::<u32>::setup::<(), String>(Ok(())).unwrap();
    let mut cx = Context::from_waker(Waker::noop());
    assert_eq!(adapter.relay(TransportEvent::Open), None);

    assert_eq!(adapter.poll_ready::<String>(OPEN, 1), Poll::Ready(Ok(())));
    let first = adapter.start_send(Message::Text(String::from("a")));
    assert_eq!(first, Command::SendText(String::from("a")));
    assert_eq!(adapter.finish_send::<String>(Ok(())), Ok(()));
    assert_eq!(adapter.poll_flush::<String>(), Poll::Ready(Ok(())));

    assert_eq!(adapter.poll_ready::<String>(OPEN, 1), Poll::Ready(Ok(())));
    let second = adapter.start_send(Message::Text(String::from("b")));
    assert_eq!(second, Command::SendText(String::from("b")));
    assert_eq!(adapter.finish_send::<String>(Ok(())), Ok(()));
    assert_eq!(adapter.poll_flush::<String>(), Poll::Ready(Ok(())));

    assert_eq!(adapter.relay(echo(first)), None);
    assert_eq!(adapter.relay(echo(second)), None);
    assert_eq!(
        adapter.poll_next::<String>(&mut cx),
        Poll::Ready(Some(Ok(Message::Text(String::from("a")))))
    );
    assert_eq!(
        adapter.poll_next::<String>(&mut cx),
        Poll::Ready(Some(Ok(Message::Text(String::from("b")))))
    );
    assert_eq!(adapter.poll_next::<String>(&mut cx), Poll::Pending);

    let bye = CloseEvent { code: 1000, reason: String::from("bye"), was_clean: true };
    assert_eq!(adapter.relay(TransportEvent::Close(bye)), None);
    assert_eq!(
        adapter.poll_next::<String>(&mut cx),
        Poll::Ready(Some(Err(WebSocketError::ConnectionClose(CloseEvent {
            code: 1000,
            reason: String::from("bye"),
            was_clean: true,
        }))))
    );
    assert_eq!(adapter.poll_next::<String>(&mut cx), Poll::Ready(None));
}

#[test]
fn invalid_url_fails_construction_without_setup() {
    let made = WebSocket::<u32>::setup::<(), String>(Err(String::from(
        "SyntaxError: The URL 'nonsense' is invalid.",
    )));
    match made {
        Ok(_) => panic!("construction went through"),
        Err(error) => assert_eq!(error, "SyntaxError: The URL 'nonsense' is invalid."),
    }
}

#[test]
fn send_while_connecting_waits_for_open() {
    let (_, mut adapter, _) = WebSocket::<Waker>::setup::<(), String>(Ok(())).unwrap();
    let task = Arc::new(Task(AtomicUsize::new(0)));
    let waker = Waker::from(task.clone());

    assert_eq!(adapter.poll_ready::<String>(CONNECTING, waker.clone()), Poll::Pending);
    assert_eq!(adapter.poll_ready::<String>(CONNECTING, waker.clone()), Poll::Pending);
    assert_eq!(task.0.load(Ordering::SeqCst), 0);

    match adapter.relay(TransportEvent::Open) {
        Some(registered) => registered.wake(),
        None => panic!("nobody to wake"),
    }
    assert_eq!(task.0.load(Ordering::SeqCst), 1);
    assert!(adapter.relay(TransportEvent::Open).is_none());

    assert_eq!(adapter.poll_ready::<String>(OPEN, waker), Poll::Ready(Ok(())));
    assert!(adapter.relay(TransportEvent::Open).is_none());
    assert_eq!(
        adapter.start_send(Message::Text(String::from("late"))),
        Command::SendText(String::from("late"))
    );
}
