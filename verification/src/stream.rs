//! The stream-based WebSocket interface.
//!
//! The interface suspends its user on every write and on every read, so
//! nothing is buffered here. What is kept is which native operation is under
//! way: one write, one flush, one close and one read at most.

use vstd::prelude::*;
use vstd::string::StringExecFns;

use crate::closed::{Closed, ClosedReason, ClosedReasonView, ClosedView};
use crate::guard::{Close, CloseView, Guard};
use crate::info::{Info, InfoView, Interface};
use crate::msg::{Delivery, DeliveryView, Msg, MsgView};
use crate::util::{js_err, js_err_msg, js_progress, native_progress, text_view};
use crate::util::{ErrorKind, JsFailure, Native, Progress, SendStep, SendStepView};

verus! {

/// What a native read completed with.
#[derive(Debug)]
pub enum Chunk {
    /// The stream is at its end.
    Done,
    /// A chunk that is a string.
    Text(String),
    /// A chunk of bytes.
    Binary(Vec<u8>),
}

/// What a native read completed with, by the characters or bytes of the
/// chunk.
pub enum ChunkView {
    Done,
    Text(Seq<char>),
    Binary(Seq<u8>),
}

impl View for Chunk {
    type V = ChunkView;

    open spec fn view(&self) -> ChunkView {
        match *self {
            Chunk::Done => ChunkView::Done,
            Chunk::Text(text) => ChunkView::Text(text@),
            Chunk::Binary(bytes) => ChunkView::Binary(bytes@),
        }
    }
}

impl ChunkView {
    /// The chunk that carries the message.
    pub open spec fn of_msg(msg: MsgView) -> ChunkView {
        match msg {
            MsgView::Text(text) => ChunkView::Text(text),
            MsgView::Binary(bytes) => ChunkView::Binary(bytes),
        }
    }
}

/// What the caller of a receiver is handed for a native read that stands as
/// given: nothing yet while the read is under way; a string chunk as a text
/// message and a chunk of bytes as a binary message; the end of the stream
/// where the read found it; and a connection reset where the read failed.
pub open spec fn read_delivery(read: Native<Chunk>) -> DeliveryView {
    match read {
        Native::Pending => DeliveryView::Pending,
        Native::Done(chunk) => match chunk@ {
            ChunkView::Done => DeliveryView::End,
            ChunkView::Text(text) => DeliveryView::Message(MsgView::Text(text)),
            ChunkView::Binary(bytes) => DeliveryView::Message(MsgView::Binary(bytes)),
        },
        Native::Failed(failure) => DeliveryView::Failed(failure@.error(ErrorKind::ConnectionReset)),
    }
}

/// What a sender answers whose write stands as given: a message may be sent
/// once the write is complete, and a write that failed is a connection
/// reset.
pub open spec fn write_step(write: Native<()>) -> SendStepView {
    match write {
        Native::Pending => SendStepView::AwaitWrite,
        Native::Done(_) => SendStepView::Ready,
        Native::Failed(failure) => SendStepView::Failed(failure@.error(ErrorKind::ConnectionReset)),
    }
}

/// Sending part of the stream-based interface.
#[derive(Debug)]
pub struct Sender {
    writing: bool,
    flushing: bool,
    closing: bool,
}

/// The native operations of a sender that are under way.
pub struct SenderView {
    /// A write was issued and is not known to be complete.
    pub writing: bool,
    /// A flush was begun and is not known to be complete.
    pub flushing: bool,
    /// A close of the writer was begun and is not known to be complete.
    pub closing: bool,
}

impl View for Sender {
    type V = SenderView;

    closed spec fn view(&self) -> SenderView {
        SenderView { writing: self.writing, flushing: self.flushing, closing: self.closing }
    }
}

impl Sender {
    /// A sender with no native operation under way.
    pub fn new() -> (sender: Self)
        ensures
            sender@ == (SenderView { writing: false, flushing: false, closing: false }),
    {
        Sender { writing: false, flushing: false, closing: false }
    }

    /// Whether a write was issued and is not known to be complete.
    pub fn is_writing(&self) -> (writing: bool)
        ensures
            writing == self@.writing,
    {
        self.writing
    }

    /// Whether a message may be sent: at once where no write is under way,
    /// else when the write that is under way is complete. `write` says how
    /// that write stands; it is not looked at where none is under way. A
    /// write that failed is reported as a connection reset, and is over.
    pub fn poll_ready(&mut self, write: Native<()>) -> (ready: SendStep)
        ensures
            ready@ == if old(self)@.writing {
                write_step(write)
            } else {
                SendStepView::Ready
            },
            final(self)@ == (SenderView {
                writing: old(self)@.writing && write is Pending,
                ..old(self)@
            }),
    {
        if !self.writing {
            return SendStep::Ready;
        }
        match write {
            Native::Pending => SendStep::AwaitWrite,
            Native::Done(_) => {
                self.writing = false;
                SendStep::Ready
            },
            Native::Failed(failure) => {
                self.writing = false;
                SendStep::Failed(js_err(ErrorKind::ConnectionReset, &failure))
            },
        }
    }

    /// Takes a message for sending and returns the chunk for the one native
    /// write that is to be issued for it: the message as it is. That write is
    /// under way from here on. No message is taken while a write is under
    /// way: the caller asks `poll_ready` first.
    pub fn start_send(&mut self, item: Msg) -> (chunk: Msg)
        requires
            !old(self)@.writing,
        ensures
            chunk@ == item@,
            final(self)@ == (SenderView { writing: true, ..old(self)@ }),
    {
        self.writing = true;
        item
    }

    /// Begins a flush. Returns whether the native operation for it is to be
    /// issued now: that is so unless one is under way.
    pub fn begin_flush(&mut self) -> (issue: bool)
        ensures
            issue == !old(self)@.flushing,
            final(self)@ == (SenderView { flushing: true, ..old(self)@ }),
    {
        let issue = !self.flushing;
        self.flushing = true;
        issue
    }

    /// Whether the flush is complete, given how its native operation stands.
    /// A failure is reported as a connection reset. A flush that is complete
    /// or failed is over.
    pub fn poll_flush(&mut self, flush: Native<()>) -> (flushed: Progress)
        ensures
            flushed@ == native_progress(ErrorKind::ConnectionReset, flush),
            final(self)@ == (SenderView {
                flushing: old(self)@.flushing && flush is Pending,
                ..old(self)@
            }),
    {
        let flushed = js_progress(ErrorKind::ConnectionReset, flush);
        match &flushed {
            Progress::Pending => {},
            _ => {
                self.flushing = false;
            },
        }
        flushed
    }

    /// Begins to close the writer. Returns whether the native operation for
    /// it is to be issued now: that is so unless one is under way.
    pub fn begin_close(&mut self) -> (issue: bool)
        ensures
            issue == !old(self)@.closing,
            final(self)@ == (SenderView { closing: true, ..old(self)@ }),
    {
        let issue = !self.closing;
        self.closing = true;
        issue
    }

    /// Whether the writer is closed, given how the native operation for it
    /// stands. A failure is reported as a connection reset. A close that is
    /// complete or failed is over.
    pub fn poll_close(&mut self, close: Native<()>) -> (closed: Progress)
        ensures
            closed@ == native_progress(ErrorKind::ConnectionReset, close),
            final(self)@ == (SenderView {
                closing: old(self)@.closing && close is Pending,
                ..old(self)@
            }),
    {
        let closed = js_progress(ErrorKind::ConnectionReset, close);
        match &closed {
            Progress::Pending => {},
            _ => {
                self.closing = false;
            },
        }
        closed
    }

    /// Closes the connection with the given code and reason: returns the
    /// close that is handed to the transport, and records with the guard that
    /// the transport was told to close.
    pub fn close(self, guard: &mut Guard, code: u16, reason: &str) -> (close: Close)
        ensures
            close@ == (CloseView { code, reason: reason@ }),
            final(guard).closed(),
    {
        guard.mark_closed();
        Close { code, reason: String::from_str(reason) }
    }
}

/// Receiving part of the stream-based interface.
#[derive(Debug)]
pub struct Receiver {
    reading: bool,
    closed: Closed,
}

/// The state of a receiver.
pub struct ReceiverView {
    /// A native read was issued and is not known to be complete.
    pub reading: bool,
    /// What is known of the closure.
    pub closed: ClosedView,
}

impl View for Receiver {
    type V = ReceiverView;

    closed spec fn view(&self) -> ReceiverView {
        ReceiverView { reading: self.reading, closed: self.closed@ }
    }
}

impl Receiver {
    /// A receiver with no native read under way, of a connection that is
    /// open.
    pub fn new() -> (receiver: Self)
        ensures
            receiver@ == (ReceiverView { reading: false, closed: ClosedView::Pending }),
    {
        Receiver { reading: false, closed: Closed::new() }
    }

    /// Whether a native read was issued and is not known to be complete.
    pub fn is_reading(&self) -> (reading: bool)
        ensures
            reading == self@.reading,
    {
        self.reading
    }

    /// Begins to read the next message. Returns whether a native read is to
    /// be issued now: that is so unless one is under way, so that one read
    /// is issued for each message.
    pub fn begin_read(&mut self) -> (issue: bool)
        ensures
            issue == !old(self)@.reading,
            final(self)@ == (ReceiverView { reading: true, ..old(self)@ }),
    {
        let issue = !self.reading;
        self.reading = true;
        issue
    }

    /// Hands the next message to the caller, given how the native read for
    /// it stands. A read that is complete or failed is over.
    pub fn poll_next(&mut self, read: Native<Chunk>) -> (item: Delivery)
        ensures
            item@ == read_delivery(read),
            final(self)@ == (ReceiverView {
                reading: old(self)@.reading && read is Pending,
                ..old(self)@
            }),
    {
        match read {
            Native::Pending => Delivery::Pending,
            Native::Done(chunk) => {
                self.reading = false;
                match chunk {
                    Chunk::Done => Delivery::End,
                    Chunk::Text(text) => Delivery::Message(Msg::Text(text)),
                    Chunk::Binary(bytes) => Delivery::Message(Msg::Binary(bytes)),
                }
            },
            Native::Failed(failure) => {
                self.reading = false;
                Delivery::Failed(js_err(ErrorKind::ConnectionReset, &failure))
            },
        }
    }

    /// Takes the reason of the closure, as the closure signal of the
    /// connection gave it.
    pub fn on_close(&mut self, reason: ClosedReason)
        ensures
            final(self)@ == (ReceiverView {
                closed: old(self)@.closed.resolve(reason@),
                ..old(self)@
            }),
    {
        self.closed.resolve(reason);
    }

    /// Takes the news that the connection is gone and its closure signal
    /// will give no reason.
    pub fn on_lost(&mut self)
        ensures
            final(self)@ == (ReceiverView { closed: old(self)@.closed.lose(), ..old(self)@ }),
    {
        self.closed.lose();
    }

    /// What is known of the closure.
    pub fn closed(&self) -> (closed: Closed)
        ensures
            closed@ == self@.closed,
    {
        self.closed.clone()
    }
}

/// What the closure signal of the connection says. A signal that resolves
/// gives the close code and the reason text of a clean closure. A signal
/// that is rejected stands for an abnormal closure that is not clean, with
/// the message of the failure as its reason text, or none.
pub open spec fn closure_reason(signal: Result<(u16, String), JsFailure>) -> ClosedReasonView {
    match signal {
        Ok((code, reason)) => ClosedReasonView::of_stream_closed(code, reason@),
        Err(failure) => ClosedReasonView::of_failure(failure@.message()),
    }
}

/// The reason of the closure that the closure signal of the connection
/// stands for.
pub fn closed_reason(signal: Result<(u16, String), JsFailure>) -> (reason: ClosedReason)
    ensures
        reason@ == closure_reason(signal),
{
    match signal {
        Ok((code, reason)) => ClosedReason::from_stream_closed(code, reason),
        Err(failure) => {
            let message = js_err_msg(&failure);
            assert(text_view(message) == failure@.message());
            ClosedReason::from_failure(message)
        },
    }
}

/// A connection over the stream-based interface.
#[derive(Debug)]
pub struct Inner {
    pub(crate) sender: Sender,
    pub(crate) receiver: Receiver,
}

impl Inner {
    /// The sending half.
    pub closed spec fn sender(&self) -> SenderView {
        self.sender@
    }

    /// The receiving half.
    pub closed spec fn receiver(&self) -> ReceiverView {
        self.receiver@
    }

    /// The connection that the transport reports as open, and what is known
    /// of it: the URL as the transport gives it, the sub-protocol that the
    /// server selected, and the interface.
    pub fn new(url: String, protocol: String) -> (opened: (Self, Info))
        ensures
            opened.0.sender() == (SenderView { writing: false, flushing: false, closing: false }),
            opened.0.receiver() == (ReceiverView { reading: false, closed: ClosedView::Pending }),
            opened.1@ == (InfoView { url: url@, protocol: protocol@, interface: Interface::Stream }),
    {
        (
            Inner { sender: Sender::new(), receiver: Receiver::new() },
            Info::new(url, protocol, Interface::Stream),
        )
    }

    /// What is known of the closure.
    pub fn closed(&self) -> (closed: Closed)
        ensures
            closed@ == self.receiver().closed,
    {
        self.receiver.closed()
    }

    /// Splits the connection into its halves.
    pub fn into_split(self) -> (halves: (Sender, Receiver))
        ensures
            halves.0@ == self.sender(),
            halves.1@ == self.receiver(),
    {
        (self.sender, self.receiver)
    }
}

/// A native read that completes with the chunk that carries a message
/// hands that message to the caller, as it is.
pub proof fn lemma_read_hands_over_what_arrived(read: Native<Chunk>, msg: MsgView)
    requires
        read matches Native::Done(chunk) && chunk@ == ChunkView::of_msg(msg),
    ensures
        read_delivery(read) == DeliveryView::Message(msg),
{
}

} // verus!
