//! A connection, and its sending and receiving halves.
//!
//! Which interface carries a connection is settled when it is opened. From
//! then on the sending half and the receiving half each do their work over
//! that interface, and both know what was learned of the connection when it
//! was opened.

use std::rc::Rc;
use tokio::io::ReadBuf;
use vstd::prelude::*;
use vstd::string::StringExecFns;

use crate::bytes::{capacity_of, filled_of, put_part, read_pulls, read_step, room_of, ByteStream};
use crate::bytes::ReadStepView;
use crate::closed::{CloseCode, Closed, ClosedReason, ClosedReasonView, ClosedView};
use crate::guard::{Close, CloseView, Guard};
use crate::info::{Info, InfoView, Interface};
use crate::msg::{Delivery, DeliveryView, Msg, MsgView};
use crate::standard;
use crate::standard::Arrival;
use crate::stream;
use crate::stream::Chunk;
use crate::util::{js_err, native_progress, Error, ErrorKind, ErrorView, JsFailure, Native};
use crate::util::{Progress, ProgressView};
use crate::util::{SendStep, SendStepView};

verus! {

/// What the sending half is told of the transport when it is asked whether
/// a message may be sent.
#[derive(Debug)]
pub enum SendProbe {
    /// What the standardized interface shows: the state of the connection,
    /// and the number of bytes that are queued for transmission.
    Socket { ready_state: u16, buffered_amount: u32 },
    /// What the stream-based interface shows: how the write that was issued
    /// last stands.
    Write(Native<()>),
}

impl SendProbe {
    /// How the write that was issued last stands, as far as the probe shows
    /// it: a probe of the standardized interface shows nothing of it.
    pub open spec fn write(self) -> Native<()> {
        match self {
            SendProbe::Write(write) => write,
            SendProbe::Socket { .. } => Native::Pending,
        }
    }
}

/// The state of a sending half, by the interface that carries the
/// connection.
pub enum SenderState {
    /// The native operations that are under way.
    Stream(stream::SenderView),
    /// The ceiling of the send buffer, in bytes.
    Standard { ceiling: nat },
}

impl SenderState {
    /// The interface that carries the connection.
    pub open spec fn interface(self) -> Interface {
        match self {
            SenderState::Stream(_) => Interface::Stream,
            SenderState::Standard { .. } => Interface::Standard,
        }
    }

    /// Whether a message may be sent, given what the probe shows. A probe of
    /// the other interface shows nothing: the standardized interface then
    /// has to be looked at again after the check interval, and a write of
    /// the stream-based interface counts as under way still.
    pub open spec fn ready(self, probe: SendProbe) -> SendStepView {
        match self {
            SenderState::Standard { ceiling } => match probe {
                SendProbe::Socket { ready_state, buffered_amount } => standard::readiness(
                    ceiling,
                    ready_state,
                    buffered_amount,
                ),
                SendProbe::Write(_) => SendStepView::Retry {
                    after: standard::SEND_BUFFER_CHECK_INTERVAL,
                },
            },
            SenderState::Stream(sender) => if sender.writing {
                stream::write_step(probe.write())
            } else {
                SendStepView::Ready
            },
        }
    }

    /// The state after it was asked whether a message may be sent: a write
    /// that is complete or failed is over.
    pub open spec fn after_ready(self, probe: SendProbe) -> SenderState {
        match self {
            SenderState::Standard { .. } => self,
            SenderState::Stream(sender) => SenderState::Stream(
                stream::SenderView {
                    writing: sender.writing && probe.write() is Pending,
                    ..sender
                },
            ),
        }
    }

    /// Whether a message can be taken for sending: over the stream-based
    /// interface, no write may be under way.
    pub open spec fn can_send(self) -> bool {
        match self {
            SenderState::Standard { .. } => true,
            SenderState::Stream(sender) => !sender.writing,
        }
    }

    /// The state after a message was taken for sending: over the
    /// stream-based interface, the write for it is under way.
    pub open spec fn after_send(self) -> SenderState {
        match self {
            SenderState::Standard { .. } => self,
            SenderState::Stream(sender) => SenderState::Stream(
                stream::SenderView { writing: true, ..sender },
            ),
        }
    }

    /// Whether a native operation is to be issued when a flush begins: over
    /// the stream-based interface unless one is under way, never over the
    /// standardized interface.
    pub open spec fn flush_issues(self) -> bool {
        match self {
            SenderState::Standard { .. } => false,
            SenderState::Stream(sender) => !sender.flushing,
        }
    }

    /// The state after a flush began.
    pub open spec fn after_begin_flush(self) -> SenderState {
        match self {
            SenderState::Standard { .. } => self,
            SenderState::Stream(sender) => SenderState::Stream(
                stream::SenderView { flushing: true, ..sender },
            ),
        }
    }

    /// Whether the flush is complete, given how its native operation
    /// stands. Over the standardized interface it always is.
    pub open spec fn flushed(self, flush: Native<()>) -> ProgressView {
        match self {
            SenderState::Standard { .. } => ProgressView::Done,
            SenderState::Stream(_) => native_progress(ErrorKind::ConnectionReset, flush),
        }
    }

    /// The state after it was asked whether the flush is complete.
    pub open spec fn after_flush(self, flush: Native<()>) -> SenderState {
        match self {
            SenderState::Standard { .. } => self,
            SenderState::Stream(sender) => SenderState::Stream(
                stream::SenderView { flushing: sender.flushing && flush is Pending, ..sender },
            ),
        }
    }

    /// Whether a native operation is to be issued when the close of the
    /// sending side begins: over the stream-based interface unless one is
    /// under way, always over the standardized interface.
    pub open spec fn close_issues(self) -> bool {
        match self {
            SenderState::Standard { .. } => true,
            SenderState::Stream(sender) => !sender.closing,
        }
    }

    /// The state after the close of the sending side began.
    pub open spec fn after_begin_close(self) -> SenderState {
        match self {
            SenderState::Standard { .. } => self,
            SenderState::Stream(sender) => SenderState::Stream(
                stream::SenderView { closing: true, ..sender },
            ),
        }
    }

    /// The state after it was asked whether the sending side is closed.
    pub open spec fn after_close(self, close: Native<()>) -> SenderState {
        match self {
            SenderState::Standard { .. } => self,
            SenderState::Stream(sender) => SenderState::Stream(
                stream::SenderView { closing: sender.closing && close is Pending, ..sender },
            ),
        }
    }
}

/// How a write of bytes ended.
#[derive(Debug)]
pub enum WriteStep {
    /// The bytes were taken: this message, which holds all of them, is
    /// handed to the transport, and the number of bytes written is the
    /// number that the caller gave.
    Written(Msg),
    /// The connection broke down.
    Failed(Error),
    /// The write that was issued last is under way: the caller writes again
    /// when it is complete.
    AwaitWrite,
    /// Too much is queued for transmission: the caller writes again after
    /// this many milliseconds.
    Retry { after: u64 },
}

/// How a write of bytes ended, with the message and the error by their
/// views.
pub enum WriteStepView {
    Written(MsgView),
    Failed(ErrorView),
    AwaitWrite,
    Retry { after: u64 },
}

impl View for WriteStep {
    type V = WriteStepView;

    open spec fn view(&self) -> WriteStepView {
        match *self {
            WriteStep::Written(msg) => WriteStepView::Written(msg@),
            WriteStep::Failed(e) => WriteStepView::Failed(e@),
            WriteStep::AwaitWrite => WriteStepView::AwaitWrite,
            WriteStep::Retry { after } => WriteStepView::Retry { after },
        }
    }
}

impl SenderState {
    /// How a write of the given bytes ends, given what the probe shows: once
    /// a message may be sent, the bytes are sent as one binary message that
    /// holds all of them.
    pub open spec fn write(self, probe: SendProbe, bytes: Seq<u8>) -> WriteStepView {
        match self.ready(probe) {
            SendStepView::Ready => WriteStepView::Written(MsgView::Binary(bytes)),
            SendStepView::Failed(e) => WriteStepView::Failed(e),
            SendStepView::AwaitWrite => WriteStepView::AwaitWrite,
            SendStepView::Retry { after } => WriteStepView::Retry { after },
        }
    }

    /// The state after a write of bytes: where a message may be sent, the
    /// message with the bytes was taken for sending.
    pub open spec fn after_write(self, probe: SendProbe) -> SenderState {
        match self.ready(probe) {
            SendStepView::Ready => self.after_ready(probe).after_send(),
            _ => self.after_ready(probe),
        }
    }
}

/// The words with which a close code is refused.
pub open spec fn invalid_code_text(code: CloseCode) -> Seq<char> {
    "WebSocket close code "@ + code.text() + " is invalid"@
}

/// The close that is handed to the transport for the given code and reason,
/// or the error with which the code is refused: the local side closes with a
/// normal closure or with an application code, and with no other.
pub open spec fn close_request(code: CloseCode, reason: Seq<char>) -> Result<CloseView, ErrorView> {
    if code.valid() {
        Ok(CloseView { code: code.value(), reason })
    } else {
        Err(ErrorView { kind: ErrorKind::InvalidInput, message: invalid_code_text(code) })
    }
}

#[derive(Debug)]
enum SenderInner {
    Stream(stream::Sender),
    Standard(standard::Sender),
}

/// Sending part of a [`WebSocket`].
#[derive(Debug)]
pub struct WebSocketSender {
    inner: SenderInner,
    info: Rc<Info>,
}

/// The state of a sending half.
pub struct WebSocketSenderView {
    /// What is known of the connection.
    pub info: InfoView,
    /// The state by interface.
    pub state: SenderState,
}

impl View for WebSocketSender {
    type V = WebSocketSenderView;

    closed spec fn view(&self) -> WebSocketSenderView {
        WebSocketSenderView {
            info: (*self.info)@,
            state: match self.inner {
                SenderInner::Stream(sender) => SenderState::Stream(sender@),
                SenderInner::Standard(sender) => SenderState::Standard {
                    ceiling: sender.ceiling(),
                },
            },
        }
    }
}

impl WebSocketSender {
    /// What holds of every sending half: the interface that it works over
    /// is the one that is known of the connection.
    pub open spec fn wf(&self) -> bool {
        self@.state.interface() == self@.info.interface
    }

    /// The sending half of a connection over the stream-based interface.
    pub(crate) fn stream(sender: stream::Sender, info: Rc<Info>) -> (half: Self)
        ensures
            half@ == (WebSocketSenderView { info: (*info)@, state: SenderState::Stream(sender@) }),
    {
        WebSocketSender { inner: SenderInner::Stream(sender), info }
    }

    /// The sending half of a connection over the standardized interface.
    pub(crate) fn standard(sender: standard::Sender, info: Rc<Info>) -> (half: Self)
        ensures
            half@ == (WebSocketSenderView {
                info: (*info)@,
                state: SenderState::Standard { ceiling: sender.ceiling() },
            }),
    {
        WebSocketSender { inner: SenderInner::Standard(sender), info }
    }

    /// The URL of the WebSocket server.
    pub fn url(&self) -> (url: &str)
        ensures
            url@ == self@.info.url,
    {
        self.info.url()
    }

    /// A string representing the sub-protocol used to open the current
    /// WebSocket connection.
    pub fn protocol(&self) -> (protocol: &str)
        ensures
            protocol@ == self@.info.protocol,
    {
        self.info.protocol()
    }

    /// The used WebSocket browser interface.
    pub fn interface(&self) -> (interface: Interface)
        ensures
            interface == self@.info.interface,
    {
        self.info.interface()
    }

    /// Closes the WebSocket with a normal closure and no reason text:
    /// returns the close that is handed to the transport, and records with
    /// the guard that the transport was told to close.
    ///
    /// This also closes the corresponding [`WebSocketReceiver`].
    pub fn close(self, guard: &mut Guard) -> (close: Close)
        ensures
            close@ == (CloseView { code: 1000, reason: Seq::empty() }),
            final(guard).closed(),
    {
        proof {
            reveal_strlit("");
        }
        let close = match self.inner {
            SenderInner::Stream(sender) => sender.close(guard, 1000, ""),
            SenderInner::Standard(sender) => sender.close(guard, 1000, ""),
        };
        assert(close@.reason =~= Seq::empty());
        close
    }

    /// Closes the WebSocket with the specified close code and reason.
    ///
    /// A close code that is neither [`CloseCode::NormalClosure`] nor
    /// [`CloseCode::Other`] with a value between 3000 and 4999 is refused
    /// here and now: nothing is handed to the transport and the guard stays
    /// as it is. Else this returns the close that is handed to the
    /// transport, and records with the guard that the transport was told to
    /// close.
    ///
    /// This also closes the corresponding [`WebSocketReceiver`].
    pub fn close_with_reason(self, guard: &mut Guard, code: CloseCode, reason: &str) -> (close:
        Result<Close, Error>)
        ensures
            match close {
                Ok(c) => close_request(code, reason@) == Ok::<CloseView, ErrorView>(c@),
                Err(e) => close_request(code, reason@) == Err::<CloseView, ErrorView>(e@),
            },
            final(guard).closed() == (code.valid() || old(guard).closed()),
    {
        if !code.is_valid() {
            let mut message = String::from_str("WebSocket close code ");
            let text = code.to_string();
            message.append(text.as_str());
            message.append(" is invalid");
            return Err(Error { kind: ErrorKind::InvalidInput, message });
        }
        let close = match self.inner {
            SenderInner::Stream(sender) => sender.close(guard, u16::from(code), reason),
            SenderInner::Standard(sender) => sender.close(guard, u16::from(code), reason),
        };
        Ok(close)
    }

    /// Whether a message may be sent, given what the probe shows of the
    /// transport.
    pub fn poll_ready(&mut self, probe: SendProbe) -> (ready: SendStep)
        ensures
            ready@ == old(self)@.state.ready(probe),
            final(self)@ == (WebSocketSenderView {
                state: old(self)@.state.after_ready(probe),
                ..old(self)@
            }),
    {
        match &mut self.inner {
            SenderInner::Stream(sender) => {
                let write = match probe {
                    SendProbe::Write(write) => write,
                    SendProbe::Socket { .. } => Native::Pending,
                };
                sender.poll_ready(write)
            },
            SenderInner::Standard(sender) => match probe {
                SendProbe::Socket { ready_state, buffered_amount } => sender.poll_ready(
                    ready_state,
                    buffered_amount,
                ),
                SendProbe::Write(_) => SendStep::Retry {
                    after: standard::SEND_BUFFER_CHECK_INTERVAL,
                },
            },
        }
    }

    /// Whether a message can be taken for sending.
    pub fn can_send(&self) -> (ok: bool)
        ensures
            ok == self@.state.can_send(),
    {
        match &self.inner {
            SenderInner::Stream(sender) => !sender.is_writing(),
            SenderInner::Standard(_) => true,
        }
    }

    /// Takes a message for sending and returns what is handed to the
    /// transport for it: the message as it is. Over the stream-based
    /// interface no message is taken while a write is under way: the caller
    /// asks `poll_ready` first.
    pub fn start_send(&mut self, item: Msg) -> (handed: Msg)
        requires
            old(self)@.state.can_send(),
        ensures
            handed@ == item@,
            final(self)@ == (WebSocketSenderView {
                state: old(self)@.state.after_send(),
                ..old(self)@
            }),
    {
        match &mut self.inner {
            SenderInner::Stream(sender) => sender.start_send(item),
            SenderInner::Standard(sender) => sender.start_send(item),
        }
    }

    /// The error for a message that the transport did not take when it was
    /// handed over: a connection reset, with what the transport said of it.
    pub fn send_failed(&self, failure: &JsFailure) -> (e: Error)
        ensures
            e@ == failure@.error(ErrorKind::ConnectionReset),
    {
        js_err(ErrorKind::ConnectionReset, failure)
    }

    /// Begins a flush. Returns whether a native operation is to be issued
    /// for it now.
    pub fn begin_flush(&mut self) -> (issue: bool)
        ensures
            issue == old(self)@.state.flush_issues(),
            final(self)@ == (WebSocketSenderView {
                state: old(self)@.state.after_begin_flush(),
                ..old(self)@
            }),
    {
        match &mut self.inner {
            SenderInner::Stream(sender) => sender.begin_flush(),
            SenderInner::Standard(_) => false,
        }
    }

    /// Whether the flush is complete, given how its native operation
    /// stands.
    pub fn poll_flush(&mut self, flush: Native<()>) -> (flushed: Progress)
        ensures
            flushed@ == old(self)@.state.flushed(flush),
            final(self)@ == (WebSocketSenderView {
                state: old(self)@.state.after_flush(flush),
                ..old(self)@
            }),
    {
        match &mut self.inner {
            SenderInner::Stream(sender) => sender.poll_flush(flush),
            SenderInner::Standard(sender) => sender.poll_flush(),
        }
    }

    /// Begins to close the sending side. Returns whether a native operation
    /// is to be issued for it now.
    pub fn begin_close(&mut self) -> (issue: bool)
        ensures
            issue == old(self)@.state.close_issues(),
            final(self)@ == (WebSocketSenderView {
                state: old(self)@.state.after_begin_close(),
                ..old(self)@
            }),
    {
        match &mut self.inner {
            SenderInner::Stream(sender) => sender.begin_close(),
            SenderInner::Standard(_) => true,
        }
    }

    /// Whether the sending side is closed, given how the native operation
    /// for it stands. A failure of it is reported as a connection reset.
    pub fn poll_close(&mut self, close: Native<()>) -> (closed: Progress)
        ensures
            closed@ == native_progress(ErrorKind::ConnectionReset, close),
            final(self)@ == (WebSocketSenderView {
                state: old(self)@.state.after_close(close),
                ..old(self)@
            }),
    {
        match &mut self.inner {
            SenderInner::Stream(sender) => sender.poll_close(close),
            SenderInner::Standard(sender) => sender.poll_close(close),
        }
    }

    /// Writes the bytes of `buf` as one binary message that holds all of
    /// them, once a message may be sent.
    pub fn poll_write(&mut self, probe: SendProbe, buf: &[u8]) -> (written: WriteStep)
        ensures
            written@ == old(self)@.state.write(probe, buf@),
            final(self)@ == (WebSocketSenderView {
                state: old(self)@.state.after_write(probe),
                ..old(self)@
            }),
    {
        match self.poll_ready(probe) {
            SendStep::Ready => {
                let msg = self.start_send(Msg::binary(buf));
                WriteStep::Written(msg)
            },
            SendStep::Failed(e) => WriteStep::Failed(e),
            SendStep::AwaitWrite => WriteStep::AwaitWrite,
            SendStep::Retry { after } => WriteStep::Retry { after },
        }
    }
}

/// The state of a receiving half, by the interface that carries the
/// connection.
pub enum ReceiverState {
    /// Whether a native read is under way, and what is known of the
    /// closure.
    Stream(stream::ReceiverView),
    /// The queue of messages, the credit that is left for more, and what is
    /// known of the closure.
    Standard(standard::ReceiverView),
}

impl ReceiverState {
    /// The interface that carries the connection.
    pub open spec fn interface(self) -> Interface {
        match self {
            ReceiverState::Stream(_) => Interface::Stream,
            ReceiverState::Standard(_) => Interface::Standard,
        }
    }

    /// What holds of every receiving half.
    pub open spec fn wf(self) -> bool {
        match self {
            ReceiverState::Stream(_) => true,
            ReceiverState::Standard(receiver) => receiver.wf(),
        }
    }

    /// What is known of the closure.
    pub open spec fn closed(self) -> ClosedView {
        match self {
            ReceiverState::Stream(receiver) => receiver.closed,
            ReceiverState::Standard(receiver) => receiver.closed,
        }
    }

    /// What becomes of a message that the transport pushes at the receiver.
    /// The stream-based interface pushes none: one that is handed over all
    /// the same is dropped.
    pub open spec fn arrival(self, msg: MsgView) -> Arrival {
        match self {
            ReceiverState::Stream(_) => Arrival::Discarded,
            ReceiverState::Standard(receiver) => receiver.arrival(msg),
        }
    }

    /// The state after the transport pushed a message at the receiver.
    pub open spec fn arrive(self, msg: MsgView) -> ReceiverState {
        match self {
            ReceiverState::Stream(_) => self,
            ReceiverState::Standard(receiver) => ReceiverState::Standard(receiver.arrive(msg)),
        }
    }

    /// The state after the transport reported the closure.
    pub open spec fn close(self, reason: ClosedReasonView) -> ReceiverState {
        match self {
            ReceiverState::Stream(receiver) => ReceiverState::Stream(
                stream::ReceiverView { closed: receiver.closed.resolve(reason), ..receiver },
            ),
            ReceiverState::Standard(receiver) => ReceiverState::Standard(receiver.close(reason)),
        }
    }

    /// The state after the transport went away without reporting a closure.
    pub open spec fn lose(self) -> ReceiverState {
        match self {
            ReceiverState::Stream(receiver) => ReceiverState::Stream(
                stream::ReceiverView { closed: receiver.closed.lose(), ..receiver },
            ),
            ReceiverState::Standard(receiver) => ReceiverState::Standard(receiver.lose()),
        }
    }

    /// Whether a native read is to be issued when the caller begins to ask
    /// for the next message: over the stream-based interface unless one is
    /// under way, never over the standardized interface.
    pub open spec fn read_issues(self) -> bool {
        match self {
            ReceiverState::Stream(receiver) => !receiver.reading,
            ReceiverState::Standard(_) => false,
        }
    }

    /// The state after the caller began to ask for the next message.
    pub open spec fn after_begin(self) -> ReceiverState {
        match self {
            ReceiverState::Stream(receiver) => ReceiverState::Stream(
                stream::ReceiverView { reading: true, ..receiver },
            ),
            ReceiverState::Standard(_) => self,
        }
    }

    /// What the receiver has for its caller. Over the stream-based interface
    /// that is what the native read gave, which `read` shows; over the
    /// standardized interface it is what the queue holds.
    pub open spec fn next_item(self, read: Native<Chunk>) -> DeliveryView {
        match self {
            ReceiverState::Stream(_) => stream::read_delivery(read),
            ReceiverState::Standard(receiver) => receiver.next_item(),
        }
    }

    /// The state after the caller asked for the next message.
    pub open spec fn after_next(self, read: Native<Chunk>) -> ReceiverState {
        match self {
            ReceiverState::Stream(receiver) => ReceiverState::Stream(
                stream::ReceiverView { reading: receiver.reading && read is Pending, ..receiver },
            ),
            ReceiverState::Standard(receiver) => ReceiverState::Standard(receiver.after_next()),
        }
    }
}

/// How a read of bytes ended.
#[derive(Debug)]
pub enum ReadStep {
    /// No message is there yet.
    Pending,
    /// A message without bytes was taken: the read is to be made again.
    Again,
    /// The caller was given the bytes that were there, as far as it had room
    /// for them.
    Filled,
    /// The stream is at its end.
    End,
    /// The connection broke down.
    Failed(Error),
}

impl View for ReadStep {
    type V = ReadStepView;

    open spec fn view(&self) -> ReadStepView {
        match *self {
            ReadStep::Pending => ReadStepView::Pending,
            ReadStep::Again => ReadStepView::Again,
            ReadStep::Filled => ReadStepView::Filled,
            ReadStep::End => ReadStepView::End,
            ReadStep::Failed(e) => ReadStepView::Failed(e@),
        }
    }
}

#[derive(Debug)]
enum ReceiverInner {
    Stream(stream::Receiver),
    Standard(standard::Receiver),
}

/// Receiving part of a [`WebSocket`].
#[derive(Debug)]
pub struct WebSocketReceiver {
    inner: ReceiverInner,
    info: Rc<Info>,
    read_buf: Vec<u8>,
}

/// The state of a receiving half.
pub struct WebSocketReceiverView {
    /// What is known of the connection.
    pub info: InfoView,
    /// The bytes of the message that was taken last which no reader of
    /// bytes has taken yet.
    pub kept: Seq<u8>,
    /// The state by interface.
    pub state: ReceiverState,
}

impl View for WebSocketReceiver {
    type V = WebSocketReceiverView;

    closed spec fn view(&self) -> WebSocketReceiverView {
        WebSocketReceiverView {
            info: (*self.info)@,
            kept: self.read_buf@,
            state: match self.inner {
                ReceiverInner::Stream(receiver) => ReceiverState::Stream(receiver@),
                ReceiverInner::Standard(receiver) => ReceiverState::Standard(receiver@),
            },
        }
    }
}

impl WebSocketReceiver {
    /// What holds of every receiving half: its receiver is as a receiver
    /// has to be, and the interface that it works over is the one that is
    /// known of the connection.
    pub closed spec fn wf(&self) -> bool {
        &&& self@.state.wf()
        &&& self@.state.interface() == self@.info.interface
        &&& match self.inner {
            ReceiverInner::Stream(_) => true,
            ReceiverInner::Standard(receiver) => receiver.wf(),
        }
    }

    /// The receiving half of a connection over the stream-based interface.
    pub(crate) fn stream(receiver: stream::Receiver, info: Rc<Info>) -> (half: Self)
        requires
            (*info)@.interface == Interface::Stream,
        ensures
            half.wf(),
            half@ == (WebSocketReceiverView {
                info: (*info)@,
                kept: Seq::empty(),
                state: ReceiverState::Stream(receiver@),
            }),
    {
        WebSocketReceiver { inner: ReceiverInner::Stream(receiver), info, read_buf: Vec::new() }
    }

    /// The receiving half of a connection over the standardized interface.
    pub(crate) fn standard(receiver: standard::Receiver, info: Rc<Info>) -> (half: Self)
        requires
            receiver.wf(),
            (*info)@.interface == Interface::Standard,
        ensures
            half.wf(),
            half@ == (WebSocketReceiverView {
                info: (*info)@,
                kept: Seq::empty(),
                state: ReceiverState::Standard(receiver@),
            }),
    {
        proof {
            receiver.lemma_wf();
        }
        WebSocketReceiver { inner: ReceiverInner::Standard(receiver), info, read_buf: Vec::new() }
    }

    /// The URL of the WebSocket server.
    pub fn url(&self) -> (url: &str)
        ensures
            url@ == self@.info.url,
    {
        self.info.url()
    }

    /// A string representing the sub-protocol used to open the current
    /// WebSocket connection.
    pub fn protocol(&self) -> (protocol: &str)
        ensures
            protocol@ == self@.info.protocol,
    {
        self.info.protocol()
    }

    /// The used WebSocket browser interface.
    pub fn interface(&self) -> (interface: Interface)
        ensures
            interface == self@.info.interface,
    {
        self.info.interface()
    }

    /// What is known of the closure: an observer that answers as this half
    /// would.
    pub fn closed(&self) -> (closed: Closed)
        ensures
            closed@ == self@.state.closed(),
    {
        match &self.inner {
            ReceiverInner::Stream(receiver) => receiver.closed(),
            ReceiverInner::Standard(receiver) => receiver.closed(),
        }
    }

    /// Takes a message that the transport pushed. This never waits.
    pub fn on_message(&mut self, msg: Msg) -> (arrival: Arrival)
        requires
            old(self).wf(),
        ensures
            final(self).wf(),
            arrival == old(self)@.state.arrival(msg@),
            final(self)@ == (WebSocketReceiverView {
                state: old(self)@.state.arrive(msg@),
                ..old(self)@
            }),
    {
        match &mut self.inner {
            ReceiverInner::Stream(_) => Arrival::Discarded,
            ReceiverInner::Standard(receiver) => {
                let arrival = receiver.on_message(msg);
                proof {
                    receiver.lemma_wf();
                }
                arrival
            },
        }
    }

    /// Takes the news that the connection is closed, with the reason that
    /// the transport gave.
    pub fn on_close(&mut self, reason: ClosedReason)
        requires
            old(self).wf(),
        ensures
            final(self).wf(),
            final(self)@ == (WebSocketReceiverView {
                state: old(self)@.state.close(reason@),
                ..old(self)@
            }),
    {
        match &mut self.inner {
            ReceiverInner::Stream(receiver) => receiver.on_close(reason),
            ReceiverInner::Standard(receiver) => {
                receiver.on_close(reason);
                proof {
                    receiver.lemma_wf();
                }
            },
        }
    }

    /// Takes the news that the transport is gone and will report nothing
    /// more.
    pub fn on_lost(&mut self)
        requires
            old(self).wf(),
        ensures
            final(self).wf(),
            final(self)@ == (WebSocketReceiverView { state: old(self)@.state.lose(), ..old(self)@ }),
    {
        match &mut self.inner {
            ReceiverInner::Stream(receiver) => receiver.on_lost(),
            ReceiverInner::Standard(receiver) => {
                receiver.on_lost();
                proof {
                    receiver.lemma_wf();
                }
            },
        }
    }

    /// Begins to ask for the next message. Returns whether a native read is
    /// to be issued now.
    pub fn begin_next(&mut self) -> (issue: bool)
        requires
            old(self).wf(),
        ensures
            final(self).wf(),
            issue == old(self)@.state.read_issues(),
            final(self)@ == (WebSocketReceiverView {
                state: old(self)@.state.after_begin(),
                ..old(self)@
            }),
    {
        match &mut self.inner {
            ReceiverInner::Stream(receiver) => receiver.begin_read(),
            ReceiverInner::Standard(_) => false,
        }
    }

    /// Hands the next message to the caller. `read` says how the native
    /// read stands; it is looked at over the stream-based interface only.
    pub fn poll_next(&mut self, read: Native<Chunk>) -> (item: Delivery)
        requires
            old(self).wf(),
        ensures
            final(self).wf(),
            item@ == old(self)@.state.next_item(read),
            final(self)@ == (WebSocketReceiverView {
                state: old(self)@.state.after_next(read),
                ..old(self)@
            }),
    {
        match &mut self.inner {
            ReceiverInner::Stream(receiver) => receiver.poll_next(read),
            ReceiverInner::Standard(receiver) => {
                let item = receiver.poll_next();
                proof {
                    receiver.lemma_wf();
                }
                item
            },
        }
    }

    /// Whether bytes of the message that was taken last are kept for the
    /// next read of bytes.
    pub fn has_kept_bytes(&self) -> (kept: bool)
        ensures
            kept == !read_pulls(self@.kept),
    {
        self.read_buf.len() > 0
    }

    /// Begins a read of bytes. Returns whether a native read is to be issued
    /// now: never while bytes are kept from the message that was taken last,
    /// for then no message is asked for.
    pub fn begin_read(&mut self) -> (issue: bool)
        requires
            old(self).wf(),
        ensures
            final(self).wf(),
            issue == (read_pulls(old(self)@.kept) && old(self)@.state.read_issues()),
            final(self)@ == (WebSocketReceiverView {
                state: if read_pulls(old(self)@.kept) {
                    old(self)@.state.after_begin()
                } else {
                    old(self)@.state
                },
                ..old(self)@
            }),
    {
        if self.read_buf.len() > 0 {
            false
        } else {
            self.begin_next()
        }
    }

    /// One read of bytes into `buf`.
    ///
    /// Where bytes are kept from the message that was taken last, as many of
    /// them as fit are moved into `buf`. Where none are kept, the receiver is
    /// asked for one message, with `read` as in `poll_next`: as many of its
    /// bytes as fit are moved into `buf` and the others are kept. The end of
    /// the stream is reported where the receiver reports it and no bytes are
    /// kept.
    pub fn poll_read(&mut self, read: Native<Chunk>, buf: &mut ReadBuf<'_>) -> (step: ReadStep)
        requires
            old(self).wf(),
        ensures
            final(self).wf(),
            ({
                let before = old(self)@;
                let outcome = read_step(
                    before.kept,
                    before.state.next_item(read),
                    room_of(*old(buf)) as nat,
                );
                &&& step@ == outcome.step
                &&& filled_of(*final(buf)) == filled_of(*old(buf)) + outcome.put
                &&& capacity_of(*final(buf)) == capacity_of(*old(buf))
                &&& final(self)@ == (WebSocketReceiverView {
                    kept: outcome.kept,
                    state: if read_pulls(before.kept) {
                        before.state.after_next(read)
                    } else {
                        before.state
                    },
                    ..before
                })
            }),
    {
        if self.read_buf.len() == 0 {
            match self.poll_next(read) {
                Delivery::Pending => {
                    assert(filled_of(*buf) + Seq::<u8>::empty() =~= filled_of(*buf));
                    return ReadStep::Pending;
                },
                Delivery::End => {
                    assert(filled_of(*buf) + Seq::<u8>::empty() =~= filled_of(*buf));
                    return ReadStep::End;
                },
                Delivery::Failed(e) => {
                    assert(filled_of(*buf) + Seq::<u8>::empty() =~= filled_of(*buf));
                    return ReadStep::Failed(e);
                },
                Delivery::Message(msg) => {
                    if msg.is_empty() {
                        assert(filled_of(*buf) + Seq::<u8>::empty() =~= filled_of(*buf));
                        return ReadStep::Again;
                    }
                    self.read_buf = msg.to_vec();
                },
            }
        }
        put_part(&mut self.read_buf, buf);
        ReadStep::Filled
    }
}

/// A connection: a WebSocket provided by the JavaScript runtime (usually the
/// web browser).
#[derive(Debug)]
pub struct WebSocket {
    sender: WebSocketSender,
    receiver: WebSocketReceiver,
}

/// The state of a connection.
pub struct WebSocketView {
    /// The sending half.
    pub sender: WebSocketSenderView,
    /// The receiving half.
    pub receiver: WebSocketReceiverView,
}

impl View for WebSocket {
    type V = WebSocketView;

    closed spec fn view(&self) -> WebSocketView {
        WebSocketView { sender: self.sender@, receiver: self.receiver@ }
    }
}

impl WebSocket {
    /// What holds of every connection: both halves are as they have to be,
    /// and know the same of the connection.
    pub closed spec fn wf(&self) -> bool {
        &&& self.sender.wf()
        &&& self.receiver.wf()
        &&& self.sender@.info == self.receiver@.info
    }

    /// What is known of the connection.
    pub open spec fn info(&self) -> InfoView {
        self@.receiver.info
    }

    /// The connection over the stream-based interface that the transport
    /// reports as open.
    pub(crate) fn stream(inner: stream::Inner, info: Info) -> (socket: Self)
        requires
            info@.interface == Interface::Stream,
        ensures
            socket.wf(),
            socket@.sender == (WebSocketSenderView {
                info: info@,
                state: SenderState::Stream(inner.sender()),
            }),
            socket@.receiver == (WebSocketReceiverView {
                info: info@,
                kept: Seq::empty(),
                state: ReceiverState::Stream(inner.receiver()),
            }),
    {
        let info = Rc::new(info);
        let (sender, receiver) = inner.into_split();
        WebSocket {
            sender: WebSocketSender::stream(sender, info.clone()),
            receiver: WebSocketReceiver::stream(receiver, info),
        }
    }

    /// The connection over the standardized interface that the transport
    /// reports as open.
    pub(crate) fn standard(inner: standard::Inner, info: Info) -> (socket: Self)
        requires
            inner.wf(),
            info@.interface == Interface::Standard,
        ensures
            socket.wf(),
            socket@.sender == (WebSocketSenderView {
                info: info@,
                state: SenderState::Standard { ceiling: inner.send_ceiling() },
            }),
            socket@.receiver == (WebSocketReceiverView {
                info: info@,
                kept: Seq::empty(),
                state: ReceiverState::Standard(inner.receiver()),
            }),
    {
        let info = Rc::new(info);
        let (sender, receiver) = inner.into_split();
        WebSocket {
            sender: WebSocketSender::standard(sender, info.clone()),
            receiver: WebSocketReceiver::standard(receiver, info),
        }
    }

    /// The URL of the WebSocket server.
    pub fn url(&self) -> (url: &str)
        ensures
            url@ == self.info().url,
    {
        self.receiver.url()
    }

    /// A string representing the sub-protocol used to open the current
    /// WebSocket connection (chosen from the options specified in the
    /// builder).
    ///
    /// Returns an empty string if no sub-protocol has been used to open the
    /// connection.
    pub fn protocol(&self) -> (protocol: &str)
        ensures
            protocol@ == self.info().protocol,
    {
        self.receiver.protocol()
    }

    /// The used WebSocket browser interface.
    pub fn interface(&self) -> (interface: Interface)
        ensures
            interface == self.info().interface,
    {
        self.receiver.interface()
    }

    /// Splits this WebSocket into a sender and receiver. Each half is as it
    /// was in the connection: both know what is known of the connection, and
    /// the receiver keeps the bytes that no reader of bytes has taken yet.
    pub fn into_split(self) -> (halves: (WebSocketSender, WebSocketReceiver))
        requires
            self.wf(),
        ensures
            halves.0@ == self@.sender,
            halves.1@ == self@.receiver,
            halves.0.wf(),
            halves.1.wf(),
            halves.0@.info == halves.1@.info,
    {
        (self.sender, self.receiver)
    }

    /// Closes the WebSocket with a normal closure and no reason text.
    pub fn close(self, guard: &mut Guard) -> (close: Close)
        ensures
            close@ == (CloseView { code: 1000, reason: Seq::empty() }),
            final(guard).closed(),
    {
        self.sender.close(guard)
    }

    /// Closes the WebSocket with the specified close code and reason.
    ///
    /// A close code that is neither [`CloseCode::NormalClosure`] nor
    /// [`CloseCode::Other`] with a value between 3000 and 4999 is refused
    /// here and now.
    pub fn close_with_reason(self, guard: &mut Guard, code: CloseCode, reason: &str) -> (close:
        Result<Close, Error>)
        ensures
            match close {
                Ok(c) => close_request(code, reason@) == Ok::<CloseView, ErrorView>(c@),
                Err(e) => close_request(code, reason@) == Err::<CloseView, ErrorView>(e@),
            },
            final(guard).closed() == (code.valid() || old(guard).closed()),
    {
        self.sender.close_with_reason(guard, code, reason)
    }

    /// What is known of the closure: an observer that answers as this
    /// connection would.
    pub fn closed(&self) -> (closed: Closed)
        ensures
            closed@ == self@.receiver.state.closed(),
    {
        self.receiver.closed()
    }

    /// Whether a message may be sent, given what the probe shows of the
    /// transport.
    pub fn poll_ready(&mut self, probe: SendProbe) -> (ready: SendStep)
        requires
            old(self).wf(),
        ensures
            final(self).wf(),
            ready@ == old(self)@.sender.state.ready(probe),
            final(self)@.sender.state == old(self)@.sender.state.after_ready(probe),
            final(self)@.sender.info == old(self)@.sender.info,
            final(self)@.receiver == old(self)@.receiver,
    {
        self.sender.poll_ready(probe)
    }

    /// Whether a message can be taken for sending.
    pub fn can_send(&self) -> (ok: bool)
        ensures
            ok == self@.sender.state.can_send(),
    {
        self.sender.can_send()
    }

    /// Takes a message for sending and returns what is handed to the
    /// transport for it: the message as it is. Over the stream-based
    /// interface no message is taken while a write is under way: the caller
    /// asks `poll_ready` first.
    pub fn start_send(&mut self, item: Msg) -> (handed: Msg)
        requires
            old(self).wf(),
            old(self)@.sender.state.can_send(),
        ensures
            final(self).wf(),
            handed@ == item@,
            final(self)@.sender.state == old(self)@.sender.state.after_send(),
            final(self)@.sender.info == old(self)@.sender.info,
            final(self)@.receiver == old(self)@.receiver,
    {
        self.sender.start_send(item)
    }

    /// Begins a flush. Returns whether a native operation is to be issued
    /// for it now.
    pub fn begin_flush(&mut self) -> (issue: bool)
        requires
            old(self).wf(),
        ensures
            final(self).wf(),
            issue == old(self)@.sender.state.flush_issues(),
            final(self)@.sender.state == old(self)@.sender.state.after_begin_flush(),
            final(self)@.sender.info == old(self)@.sender.info,
            final(self)@.receiver == old(self)@.receiver,
    {
        self.sender.begin_flush()
    }

    /// Whether the flush is complete, given how its native operation
    /// stands.
    pub fn poll_flush(&mut self, flush: Native<()>) -> (flushed: Progress)
        requires
            old(self).wf(),
        ensures
            final(self).wf(),
            flushed@ == old(self)@.sender.state.flushed(flush),
            final(self)@.sender.state == old(self)@.sender.state.after_flush(flush),
            final(self)@.sender.info == old(self)@.sender.info,
            final(self)@.receiver == old(self)@.receiver,
    {
        self.sender.poll_flush(flush)
    }

    /// Begins to close the sending side. Returns whether a native operation
    /// is to be issued for it now.
    pub fn begin_close(&mut self) -> (issue: bool)
        requires
            old(self).wf(),
        ensures
            final(self).wf(),
            issue == old(self)@.sender.state.close_issues(),
            final(self)@.sender.state == old(self)@.sender.state.after_begin_close(),
            final(self)@.sender.info == old(self)@.sender.info,
            final(self)@.receiver == old(self)@.receiver,
    {
        self.sender.begin_close()
    }

    /// Whether the sending side is closed, given how the native operation
    /// for it stands.
    pub fn poll_close(&mut self, close: Native<()>) -> (closed: Progress)
        requires
            old(self).wf(),
        ensures
            final(self).wf(),
            closed@ == native_progress(ErrorKind::ConnectionReset, close),
            final(self)@.sender.state == old(self)@.sender.state.after_close(close),
            final(self)@.sender.info == old(self)@.sender.info,
            final(self)@.receiver == old(self)@.receiver,
    {
        self.sender.poll_close(close)
    }

    /// Writes the bytes of `buf` as one binary message that holds all of
    /// them, once a message may be sent.
    pub fn poll_write(&mut self, probe: SendProbe, buf: &[u8]) -> (written: WriteStep)
        requires
            old(self).wf(),
        ensures
            final(self).wf(),
            written@ == old(self)@.sender.state.write(probe, buf@),
            final(self)@.sender.state == old(self)@.sender.state.after_write(probe),
            final(self)@.sender.info == old(self)@.sender.info,
            final(self)@.receiver == old(self)@.receiver,
    {
        self.sender.poll_write(probe, buf)
    }

    /// Takes a message that the transport pushed. This never waits.
    pub fn on_message(&mut self, msg: Msg) -> (arrival: Arrival)
        requires
            old(self).wf(),
        ensures
            final(self).wf(),
            arrival == old(self)@.receiver.state.arrival(msg@),
            final(self)@.receiver == (WebSocketReceiverView {
                state: old(self)@.receiver.state.arrive(msg@),
                ..old(self)@.receiver
            }),
            final(self)@.sender == old(self)@.sender,
    {
        self.receiver.on_message(msg)
    }

    /// Takes the news that the connection is closed, with the reason that
    /// the transport gave.
    pub fn on_close(&mut self, reason: ClosedReason)
        requires
            old(self).wf(),
        ensures
            final(self).wf(),
            final(self)@.receiver == (WebSocketReceiverView {
                state: old(self)@.receiver.state.close(reason@),
                ..old(self)@.receiver
            }),
            final(self)@.sender == old(self)@.sender,
    {
        self.receiver.on_close(reason)
    }

    /// Takes the news that the transport is gone and will report nothing
    /// more.
    pub fn on_lost(&mut self)
        requires
            old(self).wf(),
        ensures
            final(self).wf(),
            final(self)@.receiver == (WebSocketReceiverView {
                state: old(self)@.receiver.state.lose(),
                ..old(self)@.receiver
            }),
            final(self)@.sender == old(self)@.sender,
    {
        self.receiver.on_lost()
    }

    /// Begins to ask for the next message. Returns whether a native read is
    /// to be issued now.
    pub fn begin_next(&mut self) -> (issue: bool)
        requires
            old(self).wf(),
        ensures
            final(self).wf(),
            issue == old(self)@.receiver.state.read_issues(),
            final(self)@.receiver == (WebSocketReceiverView {
                state: old(self)@.receiver.state.after_begin(),
                ..old(self)@.receiver
            }),
            final(self)@.sender == old(self)@.sender,
    {
        self.receiver.begin_next()
    }

    /// Hands the next message to the caller. `read` says how the native
    /// read stands; it is looked at over the stream-based interface only.
    pub fn poll_next(&mut self, read: Native<Chunk>) -> (item: Delivery)
        requires
            old(self).wf(),
        ensures
            final(self).wf(),
            item@ == old(self)@.receiver.state.next_item(read),
            final(self)@.receiver == (WebSocketReceiverView {
                state: old(self)@.receiver.state.after_next(read),
                ..old(self)@.receiver
            }),
            final(self)@.sender == old(self)@.sender,
    {
        self.receiver.poll_next(read)
    }

    /// Begins a read of bytes. Returns whether a native read is to be issued
    /// now: never while bytes are kept from the message that was taken last.
    pub fn begin_read(&mut self) -> (issue: bool)
        requires
            old(self).wf(),
        ensures
            final(self).wf(),
            issue == (read_pulls(old(self)@.receiver.kept)
                && old(self)@.receiver.state.read_issues()),
            final(self)@.receiver == (WebSocketReceiverView {
                state: if read_pulls(old(self)@.receiver.kept) {
                    old(self)@.receiver.state.after_begin()
                } else {
                    old(self)@.receiver.state
                },
                ..old(self)@.receiver
            }),
            final(self)@.sender == old(self)@.sender,
    {
        self.receiver.begin_read()
    }

    /// One read of bytes into `buf`: see [`WebSocketReceiver::poll_read`].
    pub fn poll_read(&mut self, read: Native<Chunk>, buf: &mut ReadBuf<'_>) -> (step: ReadStep)
        requires
            old(self).wf(),
        ensures
            final(self).wf(),
            ({
                let before = old(self)@.receiver;
                let outcome = read_step(
                    before.kept,
                    before.state.next_item(read),
                    room_of(*old(buf)) as nat,
                );
                &&& step@ == outcome.step
                &&& filled_of(*final(buf)) == filled_of(*old(buf)) + outcome.put
                &&& capacity_of(*final(buf)) == capacity_of(*old(buf))
                &&& final(self)@.receiver == (WebSocketReceiverView {
                    kept: outcome.kept,
                    state: if read_pulls(before.kept) {
                        before.state.after_next(read)
                    } else {
                        before.state
                    },
                    ..before
                })
            }),
            final(self)@.sender == old(self)@.sender,
    {
        self.receiver.poll_read(read, buf)
    }
}

/// A message that comes back from the transport is received as it was sent,
/// over either interface. The sending half hands a message to the transport
/// as it is. Where the transport brings that message to the receiving half,
/// the caller is handed it next, as it is: over the standardized interface
/// where nothing else is queued and credit is left for it, over the
/// stream-based interface where the native read completes with the chunk
/// that carries it.
pub proof fn lemma_round_trip(receiver: ReceiverState, msg: MsgView, read: Native<Chunk>)
    requires
        match receiver {
            ReceiverState::Standard(queue) => queue.open && queue.queue.len() == 0 && queue.fits(
                msg,
            ),
            ReceiverState::Stream(_) => read matches Native::Done(chunk) && chunk@
                == stream::ChunkView::of_msg(msg),
        },
    ensures
        receiver.arrive(msg).next_item(read) == DeliveryView::Message(msg),
        receiver.arrival(msg) == match receiver {
            ReceiverState::Standard(_) => Arrival::Queued,
            ReceiverState::Stream(_) => Arrival::Discarded,
        },
{
}

/// A receiver over the standardized interface whose connection was closed
/// cleanly is read as the stream of the messages that are queued: a read of
/// bytes does to it what it does to that stream, and leaves a receiver of
/// which the same holds.
pub proof fn lemma_closed_receiver_reads_as_stream(
    kept: Seq<u8>,
    receiver: standard::ReceiverView,
    room: nat,
    read: Native<Chunk>,
)
    requires
        !receiver.open,
        receiver.closed.recorded() matches Some(reason) && reason.was_clean,
    ensures
        ({
            let stream = ByteStream { kept, to_come: receiver.queue };
            let before = ReceiverState::Standard(receiver);
            let after = if read_pulls(kept) {
                before.after_next(read)
            } else {
                before
            };
            &&& read_step(kept, before.next_item(read), room) == stream.outcome(room)
            &&& after matches ReceiverState::Standard(left) && left.queue == stream.after_read(
                room,
            ).to_come && !left.open && left.closed == receiver.closed
        }),
{
}

} // verus!
