use websocket_web::credit::MAX_CREDITS;
use websocket_web::standard::{Arrival, OPEN};
use websocket_web::{
    ErrorKind, Interface, JsFailure, Msg, Runtime, SendProbe, SendStep, WebSocket, WebSocketBuilder,
};

const BOTH: Runtime = Runtime { stream: true, standard: true };
const ONLY_STANDARD: Runtime = Runtime { stream: false, standard: true };
const ONLY_STREAM: Runtime = Runtime { stream: true, standard: false };
const NEITHER: Runtime = Runtime { stream: false, standard: false };

#[test]
fn interface_support() {
    assert!(Interface::Stream.is_supported(&BOTH));
    assert!(Interface::Standard.is_supported(&BOTH));
    assert!(!Interface::Stream.is_supported(&ONLY_STANDARD));
    assert!(Interface::Standard.is_supported(&ONLY_STANDARD));
    assert!(Interface::Stream.is_supported(&ONLY_STREAM));
    assert!(!Interface::Standard.is_supported(&ONLY_STREAM));
    assert!(!Interface::Stream.is_supported(&NEITHER));
    assert!(!Interface::Standard.is_supported(&NEITHER));
}

#[test]
fn stream_is_preferred_where_it_is_offered() {
    let connecting = WebSocketBuilder::new("ws://host").connect(&BOTH).unwrap();
    assert_eq!(connecting.interface(), Interface::Stream);
    let connecting = WebSocketBuilder::new("ws://host").connect(&ONLY_STREAM).unwrap();
    assert_eq!(connecting.interface(), Interface::Stream);
    let connecting = WebSocket::connect("ws://host", &BOTH).unwrap();
    assert_eq!(connecting.interface(), Interface::Stream);
}

#[test]
fn standard_is_the_fallback() {
    let connecting = WebSocketBuilder::new("ws://host").connect(&ONLY_STANDARD).unwrap();
    assert_eq!(connecting.interface(), Interface::Standard);
    let connecting = WebSocket::connect("ws://host", &ONLY_STANDARD).unwrap();
    assert_eq!(connecting.interface(), Interface::Standard);
}

#[test]
fn no_interface_is_unsupported() {
    let e = WebSocketBuilder::new("ws://host").connect(&NEITHER).unwrap_err();
    assert_eq!(e.kind, ErrorKind::Unsupported);
    assert_eq!(e.message, "WebSocket not supported");
    let e = WebSocket::connect("ws://host", &NEITHER).unwrap_err();
    assert_eq!(e.kind, ErrorKind::Unsupported);
}

#[test]
fn pinned_interface_is_used_where_it_is_offered() {
    let mut builder = WebSocketBuilder::new("ws://host");
    builder.set_interface(Interface::Standard);
    assert_eq!(builder.connect(&BOTH).unwrap().interface(), Interface::Standard);
    let mut builder = WebSocketBuilder::new("ws://host");
    builder.set_interface(Interface::Stream);
    assert_eq!(builder.connect(&BOTH).unwrap().interface(), Interface::Stream);
}

#[test]
fn pinned_interface_that_is_missing_is_unsupported() {
    let mut builder = WebSocketBuilder::new("ws://host");
    builder.set_interface(Interface::Stream);
    let e = builder.connect(&ONLY_STANDARD).unwrap_err();
    assert_eq!(e.kind, ErrorKind::Unsupported);
    assert_eq!(e.message, "WebSocketStream not supported");

    let mut builder = WebSocketBuilder::new("ws://host");
    builder.set_interface(Interface::Standard);
    let e = builder.connect(&ONLY_STREAM).unwrap_err();
    assert_eq!(e.kind, ErrorKind::Unsupported);
    assert_eq!(e.message, "WebSocket not supported");
}

#[test]
fn connecting_knows_the_options() {
    let mut builder = WebSocketBuilder::new("ws://127.0.0.1:8765");
    builder.set_protocols(vec!["chat".to_string(), "superchat".to_string()]);
    let connecting = builder.clone().connect(&ONLY_STANDARD).unwrap();
    assert_eq!(connecting.url(), "ws://127.0.0.1:8765");
    assert_eq!(connecting.protocols(), &vec!["chat".to_string(), "superchat".to_string()]);
    assert!(connecting.can_open());
    let connecting = builder.connect(&BOTH).unwrap();
    assert_eq!(connecting.protocols().len(), 2);
}

#[test]
fn refused_connection() {
    let connecting = WebSocket::connect("ws://127.0.0.1:8764", &BOTH).unwrap();
    let e = connecting.refused(&JsFailure::Event { kind: "error".to_string() });
    assert_eq!(e.kind, ErrorKind::ConnectionRefused);
    assert_eq!(e.message, "error");
    let connecting = WebSocket::connect("ws://127.0.0.1:8764", &BOTH).unwrap();
    let e = connecting.refused(&JsFailure::Other { printed: None });
    assert_eq!(e.kind, ErrorKind::ConnectionRefused);
    assert_eq!(e.message, "connection refused");
}

#[test]
fn rejected_options() {
    let connecting = WebSocket::connect("not a url", &ONLY_STANDARD).unwrap();
    let failure = JsFailure::Error { message: Some("The URL 'not a url' is invalid.".to_string()) };
    let e = connecting.rejected(&failure);
    assert_eq!(e.kind, ErrorKind::InvalidInput);
    assert_eq!(e.message, "The URL 'not a url' is invalid.");
}

#[test]
fn standard_connection_knows_the_url_that_was_asked_for() {
    let connecting = WebSocket::connect("ws://host:8765", &ONLY_STANDARD).unwrap();
    let socket = connecting.established("ws://host:8765/".to_string(), "chat".to_string());
    assert_eq!(socket.url(), "ws://host:8765");
    assert_eq!(socket.protocol(), "chat");
    assert_eq!(socket.interface(), Interface::Standard);
    assert!(socket.closed().poll().is_none());
}

#[test]
fn stream_connection_knows_the_url_of_the_transport() {
    let connecting = WebSocket::connect("ws://host:8765", &BOTH).unwrap();
    let socket = connecting.established("ws://host:8765/".to_string(), String::new());
    assert_eq!(socket.url(), "ws://host:8765/");
    assert_eq!(socket.protocol(), "");
    assert_eq!(socket.interface(), Interface::Stream);
    assert!(socket.closed().poll().is_none());
}

#[test]
fn buffer_sizes_are_those_of_the_options() {
    let mut builder = WebSocketBuilder::new("ws://host");
    builder.set_send_buffer_size(10);
    builder.set_receive_buffer_size(5);
    let connecting = builder.connect(&ONLY_STANDARD).unwrap();
    let mut socket = connecting.established(String::new(), String::new());
    let probe = SendProbe::Socket { ready_state: OPEN, buffered_amount: 10 };
    assert!(matches!(socket.poll_ready(probe), SendStep::Ready));
    let probe = SendProbe::Socket { ready_state: OPEN, buffered_amount: 11 };
    assert!(matches!(socket.poll_ready(probe), SendStep::Retry { after: 1 }));
    assert_eq!(socket.on_message(Msg::binary(&[0; 5])), Arrival::Queued);
    assert_eq!(socket.on_message(Msg::binary(&[0; 1])), Arrival::Overflow);
}

#[test]
fn default_buffer_sizes() {
    let connecting = WebSocket::connect("ws://host", &ONLY_STANDARD).unwrap();
    let mut socket = connecting.established(String::new(), String::new());
    let probe = SendProbe::Socket { ready_state: OPEN, buffered_amount: 4_194_304 };
    assert!(matches!(socket.poll_ready(probe), SendStep::Ready));
    let probe = SendProbe::Socket { ready_state: OPEN, buffered_amount: 4_194_305 };
    assert!(matches!(socket.poll_ready(probe), SendStep::Retry { after: 1 }));
    assert_eq!(socket.on_message(Msg::Binary(vec![0; 67_108_864])), Arrival::Queued);
    assert_eq!(socket.on_message(Msg::Binary(vec![0; 1])), Arrival::Overflow);
}

#[test]
fn receive_buffer_above_the_largest_pool_cannot_be_opened() {
    let mut builder = WebSocketBuilder::new("ws://host");
    builder.set_receive_buffer_size(MAX_CREDITS);
    assert!(builder.connect(&ONLY_STANDARD).unwrap().can_open());

    let mut builder = WebSocketBuilder::new("ws://host");
    builder.set_receive_buffer_size(MAX_CREDITS + 1);
    assert!(!builder.clone().connect(&ONLY_STANDARD).unwrap().can_open());
    // The stream-based interface has no receive buffer of its own.
    assert!(builder.connect(&BOTH).unwrap().can_open());
}

#[test]
fn halves_know_the_connection() {
    let mut builder = WebSocketBuilder::new("ws://host:1");
    builder.set_interface(Interface::Standard);
    let socket = builder.connect(&BOTH).unwrap().established(String::new(), "p".to_string());
    let (sender, receiver) = socket.into_split();
    assert_eq!(sender.url(), "ws://host:1");
    assert_eq!(receiver.url(), "ws://host:1");
    assert_eq!(sender.protocol(), "p");
    assert_eq!(receiver.protocol(), "p");
    assert_eq!(sender.interface(), Interface::Standard);
    assert_eq!(receiver.interface(), Interface::Standard);
}
