use websocket_web::stream::{closed_reason, Chunk, Inner, Receiver, Sender};
use websocket_web::{
    CloseCode, ClosedReason, Delivery, ErrorKind, Guard, Interface, JsFailure, Msg, Native, Progress,
    SendStep,
};

fn failure(message: &str) -> JsFailure {
    JsFailure::Error { message: Some(message.to_string()) }
}

#[test]
fn idle_sender_is_ready() {
    let mut sender = Sender::new();
    assert!(!sender.is_writing());
    assert!(matches!(sender.poll_ready(Native::Pending), SendStep::Ready));
    assert!(matches!(sender.poll_ready(Native::Failed(failure("stale"))), SendStep::Ready));
    assert!(!sender.is_writing());
}

#[test]
fn sender_is_ready_again_when_the_write_completes() {
    let mut sender = Sender::new();
    assert_eq!(sender.start_send(Msg::text("packet")), Msg::text("packet"));
    assert!(sender.is_writing());
    assert!(matches!(sender.poll_ready(Native::Pending), SendStep::AwaitWrite));
    assert!(sender.is_writing());
    assert!(matches!(sender.poll_ready(Native::Done(())), SendStep::Ready));
    assert!(!sender.is_writing());
    assert_eq!(sender.start_send(Msg::binary(&[1, 2])), Msg::binary(&[1, 2]));
    assert!(sender.is_writing());
}

#[test]
fn failed_write_is_a_connection_reset() {
    let mut sender = Sender::new();
    sender.start_send(Msg::text("packet"));
    match sender.poll_ready(Native::Failed(failure("write failed"))) {
        SendStep::Failed(e) => {
            assert_eq!(e.kind, ErrorKind::ConnectionReset);
            assert_eq!(e.message, "write failed");
        }
        other => panic!("not failed: {other:?}"),
    }
    assert!(!sender.is_writing());
}

#[test]
fn flush_is_issued_once_until_it_completes() {
    let mut sender = Sender::new();
    assert!(sender.begin_flush());
    assert!(!sender.begin_flush());
    assert!(matches!(sender.poll_flush(Native::Pending), Progress::Pending));
    assert!(!sender.begin_flush());
    assert!(matches!(sender.poll_flush(Native::Done(())), Progress::Done));
    assert!(sender.begin_flush());
    match sender.poll_flush(Native::Failed(failure("flush failed"))) {
        Progress::Failed(e) => {
            assert_eq!(e.kind, ErrorKind::ConnectionReset);
            assert_eq!(e.message, "flush failed");
        }
        other => panic!("not failed: {other:?}"),
    }
    assert!(sender.begin_flush());
}

#[test]
fn close_of_the_writer_is_issued_once_until_it_completes() {
    let mut sender = Sender::new();
    assert!(sender.begin_close());
    assert!(!sender.begin_close());
    assert!(matches!(sender.poll_close(Native::Pending), Progress::Pending));
    assert!(!sender.begin_close());
    assert!(matches!(sender.poll_close(Native::Done(())), Progress::Done));
    assert!(sender.begin_close());
    match sender.poll_close(Native::Failed(JsFailure::Other { printed: None })) {
        Progress::Failed(e) => {
            assert_eq!(e.kind, ErrorKind::ConnectionReset);
            assert_eq!(e.message, "connection reset");
        }
        other => panic!("not failed: {other:?}"),
    }
}

#[test]
fn stream_close_marks_the_guard() {
    let mut guard = Guard::new();
    let close = Sender::new().close(&mut guard, 1000, "Goodbye!");
    assert_eq!(close.code, 1000);
    assert_eq!(close.reason, "Goodbye!");
    assert!(guard.is_closed());
    assert!(!guard.release());
}

#[test]
fn one_read_is_issued_for_each_message() {
    let mut receiver = Receiver::new();
    assert!(!receiver.is_reading());
    assert!(receiver.begin_read());
    assert!(receiver.is_reading());
    assert!(!receiver.begin_read());
    assert!(matches!(receiver.poll_next(Native::Pending), Delivery::Pending));
    assert!(receiver.is_reading());
    assert!(!receiver.begin_read());
    match receiver.poll_next(Native::Done(Chunk::Text("packet".to_string()))) {
        Delivery::Message(msg) => assert_eq!(msg, Msg::text("packet")),
        other => panic!("no message: {other:?}"),
    }
    assert!(!receiver.is_reading());
    assert!(receiver.begin_read());
}

#[test]
fn chunks_become_messages() {
    let mut receiver = Receiver::new();
    receiver.begin_read();
    match receiver.poll_next(Native::Done(Chunk::Text("hi123".to_string()))) {
        Delivery::Message(msg) => assert_eq!(msg, Msg::Text("hi123".to_string())),
        other => panic!("no message: {other:?}"),
    }
    receiver.begin_read();
    match receiver.poll_next(Native::Done(Chunk::Binary(vec![1, 2, 3, 11, 12, 13]))) {
        Delivery::Message(msg) => assert_eq!(msg, Msg::Binary(vec![1, 2, 3, 11, 12, 13])),
        other => panic!("no message: {other:?}"),
    }
    receiver.begin_read();
    match receiver.poll_next(Native::Done(Chunk::Binary(Vec::new()))) {
        Delivery::Message(msg) => assert_eq!(msg, Msg::Binary(Vec::new())),
        other => panic!("no message: {other:?}"),
    }
    receiver.begin_read();
    match receiver.poll_next(Native::Done(Chunk::Text(String::new()))) {
        Delivery::Message(msg) => assert_eq!(msg, Msg::Text(String::new())),
        other => panic!("no message: {other:?}"),
    }
}

#[test]
fn end_of_the_native_stream_ends_the_stream() {
    let mut receiver = Receiver::new();
    receiver.begin_read();
    assert!(matches!(receiver.poll_next(Native::Done(Chunk::Done)), Delivery::End));
    assert!(!receiver.is_reading());
}

#[test]
fn failed_read_is_a_connection_reset() {
    let mut receiver = Receiver::new();
    receiver.begin_read();
    match receiver.poll_next(Native::Failed(failure("read failed"))) {
        Delivery::Failed(e) => {
            assert_eq!(e.kind, ErrorKind::ConnectionReset);
            assert_eq!(e.message, "read failed");
        }
        other => panic!("not failed: {other:?}"),
    }
    assert!(!receiver.is_reading());
}

#[test]
fn resolved_closure_signal_is_a_clean_closure() {
    let reason = closed_reason(Ok((1000, "Goodbye!".to_string())));
    assert_eq!(reason.code, CloseCode::NormalClosure);
    assert_eq!(reason.reason, "Goodbye!");
    assert!(reason.was_clean);
    let reason = closed_reason(Ok((3999, "CLOSE-123".to_string())));
    assert_eq!(reason.code, CloseCode::Other(3999));
    assert!(reason.was_clean);
}

#[test]
fn rejected_closure_signal_is_an_abnormal_closure() {
    let reason = closed_reason(Err(failure("connection lost")));
    assert_eq!(reason.code, CloseCode::AbnormalClosure);
    assert_eq!(reason.reason, "connection lost");
    assert!(!reason.was_clean);
    let reason = closed_reason(Err(JsFailure::Other { printed: None }));
    assert_eq!(reason.code, CloseCode::AbnormalClosure);
    assert_eq!(reason.reason, "");
    assert!(!reason.was_clean);
    let reason = closed_reason(Err(JsFailure::Event { kind: "error".to_string() }));
    assert_eq!(reason.reason, "error");
}

#[test]
fn receiver_keeps_the_first_closure() {
    let mut receiver = Receiver::new();
    assert!(receiver.closed().poll().is_none());
    receiver.on_close(ClosedReason::from_stream_closed(1000, "first".to_string()));
    receiver.on_close(ClosedReason::from_stream_closed(1001, "second".to_string()));
    receiver.on_lost();
    match receiver.closed().poll() {
        Some(reason) => {
            assert_eq!(reason.code, CloseCode::NormalClosure);
            assert_eq!(reason.reason, "first");
        }
        None => panic!("closure not known"),
    }
}

#[test]
fn stream_connection_is_made_of_its_halves() {
    let (inner, info) = Inner::new("ws://host:8765/".to_string(), String::new());
    assert_eq!(info.url(), "ws://host:8765/");
    assert_eq!(info.protocol(), "");
    assert_eq!(info.interface(), Interface::Stream);
    assert!(inner.closed().poll().is_none());
    let (sender, receiver) = inner.into_split();
    assert!(!sender.is_writing());
    assert!(!receiver.is_reading());
}
