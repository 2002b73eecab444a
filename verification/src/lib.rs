//! The transport-independent core of a WebSocket client for JavaScript runtimes.
//!
//! Two browser interfaces can carry a connection: the stream-based one, which
//! suspends the caller on every write and read, and the standardized one, which
//! reports only how many bytes are still queued for transmission and pushes
//! received messages at the caller whether or not it is ready for them.
//! This crate holds every decision that is made around those interfaces and
//! none of the calls into them: the message and close-code model, the credit
//! pool that bounds what the standardized interface may buffer, the state of
//! the pending native operations of the stream-based interface, the byte-stream
//! view of a message stream, and the selection of an interface at connect time.
//!
//! The code that talks to the runtime hands events to the types of this crate
//! and carries out what they answer.

pub mod builder;
pub mod bytes;
pub mod closed;
pub mod credit;
pub mod guard;
pub mod info;
pub mod msg;
pub mod socket;
pub mod standard;
pub mod stream;
pub mod util;

pub use builder::{Connecting, WebSocketBuilder};
pub use closed::{CloseCode, Closed, ClosedReason};
pub use guard::{Close, Guard};
pub use info::{Info, Interface, Runtime};
pub use msg::{Delivery, Msg};
pub use socket::{ReadStep, SendProbe, WebSocket, WebSocketReceiver, WebSocketSender, WriteStep};
pub use util::{Error, ErrorKind, JsFailure, Native, Progress, SendStep};
