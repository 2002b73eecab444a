use tokio::io::ReadBuf;
use websocket_web::standard::{Arrival, OPEN};
use websocket_web::stream::Chunk;
use websocket_web::{
    ClosedReason, ErrorKind, Interface, JsFailure, Msg, Native, ReadStep, Runtime, SendProbe, SendStep,
    WebSocket, WebSocketBuilder, WebSocketReceiver, WriteStep,
};

const BOTH: Runtime = Runtime { stream: true, standard: true };

fn connect(interface: Interface) -> WebSocket {
    let mut builder = WebSocketBuilder::new("ws://127.0.0.1:8765");
    builder.set_interface(interface);
    builder.connect(&BOTH).unwrap().established("ws://127.0.0.1:8765/".to_string(), String::new())
}

fn idle() -> Native<Chunk> {
    Native::Pending
}

/// Reads the queue of a receiver over the standardized interface to its end,
/// with rooms of the given sizes in turn.
fn read_all(receiver: &mut WebSocketReceiver, rooms: &[usize]) -> Vec<u8> {
    let mut out = Vec::new();
    let mut turn = 0;
    loop {
        let room = rooms[turn % rooms.len()];
        turn += 1;
        let mut space = vec![0u8; room];
        let mut buf = ReadBuf::new(&mut space);
        match receiver.poll_read(idle(), &mut buf) {
            ReadStep::Filled => {
                assert!(!buf.filled().is_empty());
                out.extend_from_slice(buf.filled());
            }
            ReadStep::Again => assert!(buf.filled().is_empty()),
            ReadStep::End => {
                assert!(buf.filled().is_empty());
                return out;
            }
            other => panic!("unexpected: {other:?}"),
        }
    }
}

#[test]
fn write_sends_one_binary_message_with_the_whole_buffer() {
    let mut socket = connect(Interface::Standard);
    let probe = SendProbe::Socket { ready_state: OPEN, buffered_amount: 0 };
    match socket.poll_write(probe, &[1, 2, 3, 4, 5]) {
        WriteStep::Written(msg) => assert_eq!(msg, Msg::Binary(vec![1, 2, 3, 4, 5])),
        other => panic!("not written: {other:?}"),
    }
    let probe = SendProbe::Socket { ready_state: OPEN, buffered_amount: 0 };
    match socket.poll_write(probe, &[]) {
        WriteStep::Written(msg) => assert_eq!(msg, Msg::Binary(Vec::new())),
        other => panic!("not written: {other:?}"),
    }
}

#[test]
fn write_waits_while_the_send_buffer_is_full() {
    let mut socket = connect(Interface::Standard);
    let probe = SendProbe::Socket { ready_state: OPEN, buffered_amount: 4_194_305 };
    assert!(matches!(socket.poll_write(probe, &[1]), WriteStep::Retry { after: 1 }));
    let probe = SendProbe::Socket { ready_state: 3, buffered_amount: 0 };
    match socket.poll_write(probe, &[1]) {
        WriteStep::Failed(e) => {
            assert_eq!(e.kind, ErrorKind::ConnectionReset);
            assert_eq!(e.message, "WebSocket not open");
        }
        other => panic!("not failed: {other:?}"),
    }
}

#[test]
fn write_over_stream_waits_for_the_write_before() {
    let (mut sender, _receiver) = connect(Interface::Stream).into_split();
    match sender.poll_write(SendProbe::Write(Native::Pending), &[1, 2]) {
        WriteStep::Written(msg) => assert_eq!(msg, Msg::Binary(vec![1, 2])),
        other => panic!("not written: {other:?}"),
    }
    assert!(matches!(sender.poll_write(SendProbe::Write(Native::Pending), &[3]), WriteStep::AwaitWrite));
    match sender.poll_write(SendProbe::Write(Native::Done(())), &[3]) {
        WriteStep::Written(msg) => assert_eq!(msg, Msg::Binary(vec![3])),
        other => panic!("not written: {other:?}"),
    }
    let failed = Native::Failed(JsFailure::Error { message: Some("broken".to_string()) });
    match sender.poll_write(SendProbe::Write(failed), &[4]) {
        WriteStep::Failed(e) => {
            assert_eq!(e.kind, ErrorKind::ConnectionReset);
            assert_eq!(e.message, "broken");
        }
        other => panic!("not failed: {other:?}"),
    }
}

#[test]
fn probe_of_the_other_interface_shows_nothing() {
    let mut socket = connect(Interface::Standard);
    assert!(matches!(socket.poll_ready(SendProbe::Write(Native::Done(()))), SendStep::Retry { after: 1 }));
    let mut socket = connect(Interface::Stream);
    let probe = SendProbe::Socket { ready_state: OPEN, buffered_amount: 0 };
    assert!(matches!(socket.poll_ready(probe), SendStep::Ready));
    socket.start_send(Msg::text("x"));
    let probe = SendProbe::Socket { ready_state: OPEN, buffered_amount: 0 };
    assert!(matches!(socket.poll_ready(probe), SendStep::AwaitWrite));
}

#[test]
fn small_reads_take_a_message_apart() {
    let (_sender, mut receiver) = connect(Interface::Standard).into_split();
    assert_eq!(receiver.on_message(Msg::Binary(vec![1, 2, 3, 4, 5])), Arrival::Queued);
    assert!(!receiver.has_kept_bytes());

    let mut space = [0u8; 2];
    let mut buf = ReadBuf::new(&mut space);
    assert!(matches!(receiver.poll_read(idle(), &mut buf), ReadStep::Filled));
    assert_eq!(buf.filled(), &[1, 2]);
    assert!(receiver.has_kept_bytes());

    let mut space = [0u8; 2];
    let mut buf = ReadBuf::new(&mut space);
    assert!(matches!(receiver.poll_read(idle(), &mut buf), ReadStep::Filled));
    assert_eq!(buf.filled(), &[3, 4]);

    let mut space = [0u8; 2];
    let mut buf = ReadBuf::new(&mut space);
    assert!(matches!(receiver.poll_read(idle(), &mut buf), ReadStep::Filled));
    assert_eq!(buf.filled(), &[5]);
    assert_eq!(buf.remaining(), 1);
    assert!(!receiver.has_kept_bytes());

    let mut space = [0u8; 2];
    let mut buf = ReadBuf::new(&mut space);
    assert!(matches!(receiver.poll_read(idle(), &mut buf), ReadStep::Pending));
    assert!(buf.filled().is_empty());
}

#[test]
fn read_appends_to_what_the_buffer_holds() {
    let (_sender, mut receiver) = connect(Interface::Standard).into_split();
    receiver.on_message(Msg::text("world"));
    let mut space = [0u8; 8];
    let mut buf = ReadBuf::new(&mut space);
    buf.put_slice(b"hello ");
    assert!(matches!(receiver.poll_read(idle(), &mut buf), ReadStep::Filled));
    assert_eq!(buf.filled(), b"hello wo");
    assert_eq!(buf.capacity(), 8);
    let mut space = [0u8; 8];
    let mut buf = ReadBuf::new(&mut space);
    assert!(matches!(receiver.poll_read(idle(), &mut buf), ReadStep::Filled));
    assert_eq!(buf.filled(), b"rld");
}

#[test]
fn read_takes_one_message_at_a_time() {
    let (_sender, mut receiver) = connect(Interface::Standard).into_split();
    receiver.on_message(Msg::Binary(vec![1, 2]));
    receiver.on_message(Msg::Binary(vec![3, 4]));
    let mut space = [0u8; 16];
    let mut buf = ReadBuf::new(&mut space);
    assert!(matches!(receiver.poll_read(idle(), &mut buf), ReadStep::Filled));
    assert_eq!(buf.filled(), &[1, 2]);
    assert!(matches!(receiver.poll_read(idle(), &mut buf), ReadStep::Filled));
    assert_eq!(buf.filled(), &[1, 2, 3, 4]);
}

#[test]
fn empty_message_is_passed_over() {
    let (_sender, mut receiver) = connect(Interface::Standard).into_split();
    receiver.on_message(Msg::Binary(Vec::new()));
    receiver.on_message(Msg::text(""));
    receiver.on_message(Msg::Binary(vec![9]));
    let mut space = [0u8; 4];
    let mut buf = ReadBuf::new(&mut space);
    assert!(matches!(receiver.poll_read(idle(), &mut buf), ReadStep::Again));
    assert!(matches!(receiver.poll_read(idle(), &mut buf), ReadStep::Again));
    assert!(buf.filled().is_empty());
    assert!(matches!(receiver.poll_read(idle(), &mut buf), ReadStep::Filled));
    assert_eq!(buf.filled(), &[9]);
}

#[test]
fn read_without_room_gives_nothing_and_keeps_everything() {
    let (_sender, mut receiver) = connect(Interface::Standard).into_split();
    receiver.on_message(Msg::Binary(vec![1, 2, 3]));
    let mut space = [0u8; 0];
    let mut buf = ReadBuf::new(&mut space);
    assert!(matches!(receiver.poll_read(idle(), &mut buf), ReadStep::Filled));
    assert!(buf.filled().is_empty());
    assert!(receiver.has_kept_bytes());
    let mut space = [0u8; 3];
    let mut buf = ReadBuf::new(&mut space);
    assert!(matches!(receiver.poll_read(idle(), &mut buf), ReadStep::Filled));
    assert_eq!(buf.filled(), &[1, 2, 3]);
}

#[test]
fn end_of_stream_comes_after_all_bytes() {
    let (_sender, mut receiver) = connect(Interface::Standard).into_split();
    receiver.on_message(Msg::Binary(vec![1, 2, 3]));
    receiver.on_close(ClosedReason::from_close_event(1000, String::new(), true));
    let mut space = [0u8; 2];
    let mut buf = ReadBuf::new(&mut space);
    assert!(matches!(receiver.poll_read(idle(), &mut buf), ReadStep::Filled));
    assert_eq!(buf.filled(), &[1, 2]);
    let mut space = [0u8; 2];
    let mut buf = ReadBuf::new(&mut space);
    assert!(matches!(receiver.poll_read(idle(), &mut buf), ReadStep::Filled));
    assert_eq!(buf.filled(), &[3]);
    let mut space = [0u8; 2];
    let mut buf = ReadBuf::new(&mut space);
    assert!(matches!(receiver.poll_read(idle(), &mut buf), ReadStep::End));
    assert!(buf.filled().is_empty());
}

#[test]
fn unclean_close_fails_the_read() {
    let (_sender, mut receiver) = connect(Interface::Standard).into_split();
    receiver.on_close(ClosedReason::from_close_event(1006, "lost".to_string(), false));
    let mut space = [0u8; 2];
    let mut buf = ReadBuf::new(&mut space);
    match receiver.poll_read(idle(), &mut buf) {
        ReadStep::Failed(e) => {
            assert_eq!(e.kind, ErrorKind::ConnectionReset);
            assert_eq!(e.message, "lost");
        }
        other => panic!("not failed: {other:?}"),
    }
}

#[test]
fn kept_bytes_survive_the_split() {
    let mut socket = connect(Interface::Standard);
    socket.on_message(Msg::Binary(vec![1, 2, 3]));
    let mut space = [0u8; 1];
    let mut buf = ReadBuf::new(&mut space);
    assert!(matches!(socket.poll_read(idle(), &mut buf), ReadStep::Filled));
    assert_eq!(buf.filled(), &[1]);
    let (_sender, mut receiver) = socket.into_split();
    assert!(receiver.has_kept_bytes());
    let mut space = [0u8; 8];
    let mut buf = ReadBuf::new(&mut space);
    assert!(matches!(receiver.poll_read(idle(), &mut buf), ReadStep::Filled));
    assert_eq!(buf.filled(), &[2, 3]);
}

#[test]
fn written_buffers_are_read_back_with_rooms_of_any_size() {
    let buffers: Vec<Vec<u8>> = (0..200usize).map(|i| vec![i as u8; (i * 7) % 23]).collect();
    let expected: Vec<u8> = buffers.iter().flatten().copied().collect();
    for rooms in [&[1usize][..], &[2, 3, 5], &[7], &[64], &[1, 1000, 2], &[22, 23, 24]] {
        let mut socket = connect(Interface::Standard);
        for data in &buffers {
            let probe = SendProbe::Socket { ready_state: OPEN, buffered_amount: 0 };
            let msg = match socket.poll_write(probe, data) {
                WriteStep::Written(msg) => msg,
                other => panic!("not written: {other:?}"),
            };
            // The peer sends every message back.
            assert_eq!(socket.on_message(msg), Arrival::Queued);
        }
        socket.on_close(ClosedReason::from_close_event(1000, String::new(), true));
        let (_sender, mut receiver) = socket.into_split();
        assert_eq!(read_all(&mut receiver, rooms), expected);
    }
}

#[test]
fn stream_reads_take_the_chunks_of_the_native_reads() {
    let (_sender, mut receiver) = connect(Interface::Stream).into_split();
    // A native read is issued where no bytes are kept and none is under way.
    assert!(receiver.begin_read());
    assert!(!receiver.begin_read());
    let mut space = [0u8; 4];
    let mut buf = ReadBuf::new(&mut space);
    assert!(matches!(receiver.poll_read(Native::Pending, &mut buf), ReadStep::Pending));
    let chunk = Native::Done(Chunk::Binary(vec![1, 2, 3, 4, 5, 6]));
    assert!(matches!(receiver.poll_read(chunk, &mut buf), ReadStep::Filled));
    assert_eq!(buf.filled(), &[1, 2, 3, 4]);

    // While bytes are kept no native read is issued, and none is looked at.
    assert!(!receiver.begin_read());
    let mut space = [0u8; 4];
    let mut buf = ReadBuf::new(&mut space);
    assert!(matches!(receiver.poll_read(Native::Pending, &mut buf), ReadStep::Filled));
    assert_eq!(buf.filled(), &[5, 6]);

    assert!(receiver.begin_read());
    let chunk = Native::Done(Chunk::Text(String::new()));
    assert!(matches!(receiver.poll_read(chunk, &mut buf), ReadStep::Again));
    assert!(receiver.begin_read());
    let chunk = Native::Done(Chunk::Text("ab".to_string()));
    assert!(matches!(receiver.poll_read(chunk, &mut buf), ReadStep::Filled));
    assert_eq!(buf.filled(), &[5, 6, b'a', b'b']);

    assert!(receiver.begin_read());
    let mut space = [0u8; 4];
    let mut buf = ReadBuf::new(&mut space);
    assert!(matches!(receiver.poll_read(Native::Done(Chunk::Done), &mut buf), ReadStep::End));
    assert!(buf.filled().is_empty());
}

#[test]
fn stream_read_failure_fails_the_read() {
    let (_sender, mut receiver) = connect(Interface::Stream).into_split();
    receiver.begin_read();
    let mut space = [0u8; 4];
    let mut buf = ReadBuf::new(&mut space);
    let failed = Native::Failed(JsFailure::Error { message: Some("read failed".to_string()) });
    match receiver.poll_read(failed, &mut buf) {
        ReadStep::Failed(e) => {
            assert_eq!(e.kind, ErrorKind::ConnectionReset);
            assert_eq!(e.message, "read failed");
        }
        other => panic!("not failed: {other:?}"),
    }
}
