//! The standardized WebSocket interface.
//!
//! The interface reports how many bytes are still queued for transmission,
//! and nothing else holds a sender back: readiness to send is found by
//! looking at that number again and again. In the other direction it pushes
//! each message at its user as it arrives. The receiver here queues what
//! arrives and takes credit for it from a pool, which it gives back when the
//! message is taken from the queue; a message for which no credit is left
//! ends the connection.

use std::collections::VecDeque;
use vstd::prelude::*;
use vstd::string::StringExecFns;

use crate::closed::{Closed, ClosedReason, ClosedReasonView, ClosedView};
use crate::credit::{CreditPool, MAX_CREDITS, MAX_REQUEST};
use crate::guard::{Close, CloseView, Guard};
use crate::info::{Info, InfoView, Interface};
use crate::msg::{total_bytes, Delivery, DeliveryView, Msg, MsgView};
use crate::msg::{lemma_total_bytes_concat, lemma_total_bytes_single};
use crate::util::{js_err, js_progress, native_progress, Error, ErrorKind, ErrorView, JsFailure};
use crate::util::{Native, Progress};
use crate::util::{ProgressView, SendStep, SendStepView};

verus! {

/// The number of milliseconds to wait before the send buffer is looked at
/// again, once it was found too full.
pub const SEND_BUFFER_CHECK_INTERVAL: u64 = 1;

/// The ceiling of the send buffer where none is set, in bytes.
pub const DEFAULT_SEND_BUFFER_SIZE: usize = 4_194_304;

/// The ceiling of the receive buffer where none is set, in bytes.
pub const DEFAULT_RECEIVE_BUFFER_SIZE: usize = 67_108_864;

/// The state in which the interface reports a connection that is open.
pub const OPEN: u16 = 1;

/// What became of a message that arrived.
#[derive(Debug, Clone, Copy, PartialEq, Eq, Structural)]
pub enum Arrival {
    /// The message is queued for the caller.
    Queued,
    /// The receiver takes no more messages: the message was dropped.
    Discarded,
    /// No credit is left for the message: the connection is given up, and
    /// the transport is to be closed.
    Overflow,
}

/// The state of a receiver.
pub struct ReceiverView {
    /// The messages that arrived and were not taken yet, oldest first.
    pub queue: Seq<MsgView>,
    /// Whether messages that arrive are still queued.
    pub open: bool,
    /// What is known of the closure.
    pub closed: ClosedView,
    /// The credit that is left, in bytes.
    pub available: nat,
    /// The ceiling of the receive buffer, in bytes.
    pub ceiling: nat,
}

impl ReceiverView {
    /// The receiver of a connection that was just opened.
    pub open spec fn fresh(ceiling: nat) -> ReceiverView {
        ReceiverView {
            queue: Seq::empty(),
            open: true,
            closed: ClosedView::Pending,
            available: ceiling,
            ceiling,
        }
    }

    /// The bytes that are queued and the credit that is left add up to the
    /// ceiling.
    pub open spec fn wf(self) -> bool {
        self.available + total_bytes(self.queue) == self.ceiling
    }

    /// Whether credit is left for the message.
    pub open spec fn fits(self, msg: MsgView) -> bool {
        msg.len() <= self.available && msg.len() <= MAX_REQUEST
    }

    /// What becomes of a message that arrives now.
    pub open spec fn arrival(self, msg: MsgView) -> Arrival {
        if !self.fits(msg) {
            Arrival::Overflow
        } else if self.open {
            Arrival::Queued
        } else {
            Arrival::Discarded
        }
    }

    /// The receiver after a message arrived. With credit for it the message
    /// is queued, unless the receiver takes no more. Without, the closure is
    /// settled as a receive buffer overflow, unless it was settled before, and
    /// the receiver takes no more.
    pub open spec fn arrive(self, msg: MsgView) -> ReceiverView {
        match self.arrival(msg) {
            Arrival::Queued => ReceiverView {
                queue: self.queue.push(msg),
                available: (self.available - msg.len()) as nat,
                ..self
            },
            Arrival::Discarded => self,
            Arrival::Overflow => ReceiverView {
                open: false,
                closed: self.closed.resolve(ClosedReasonView::overflow()),
                ..self
            },
        }
    }

    /// The receiver after the transport reported the closure.
    pub open spec fn close(self, reason: ClosedReasonView) -> ReceiverView {
        ReceiverView { open: false, closed: self.closed.resolve(reason), ..self }
    }

    /// The receiver after the transport went away without reporting a
    /// closure.
    pub open spec fn lose(self) -> ReceiverView {
        ReceiverView { open: false, closed: self.closed.lose(), ..self }
    }

    /// What the receiver has for its caller: the oldest message in the queue;
    /// with an empty queue nothing yet while messages can still arrive, and
    /// after that the end of the stream where the closure was clean, else a
    /// failure that carries the reason of the closure.
    pub open spec fn next_item(self) -> DeliveryView {
        if self.queue.len() > 0 {
            DeliveryView::Message(self.queue[0])
        } else if self.open {
            DeliveryView::Pending
        } else {
            match self.closed.recorded() {
                Some(reason) => if reason.was_clean {
                    DeliveryView::End
                } else {
                    DeliveryView::Failed(
                        ErrorView { kind: ErrorKind::ConnectionReset, message: reason.reason },
                    )
                },
                None => DeliveryView::Failed(
                    ErrorView { kind: ErrorKind::ConnectionReset, message: "WebSocket closed"@ },
                ),
            }
        }
    }

    /// The receiver after its caller asked for the next message: the oldest
    /// message has left the queue and its credit is back in the pool.
    pub open spec fn after_next(self) -> ReceiverView {
        if self.queue.len() > 0 {
            ReceiverView {
                queue: self.queue.skip(1),
                available: self.available + self.queue[0].len(),
                ..self
            }
        } else {
            self
        }
    }
}

/// Receiving part of the standardized interface.
#[derive(Debug)]
pub struct Receiver {
    queue: VecDeque<Msg>,
    open: bool,
    closed: Closed,
    buffered: CreditPool,
}

impl View for Receiver {
    type V = ReceiverView;

    closed spec fn view(&self) -> ReceiverView {
        ReceiverView {
            queue: self.queue@.map_values(|m: Msg| m@),
            open: self.open,
            closed: self.closed@,
            available: self.buffered.available(),
            ceiling: self.buffered.ceiling(),
        }
    }
}

impl Receiver {
    /// What holds of every receiver: the bytes that are queued and the credit
    /// that is left add up to the ceiling.
    pub closed spec fn wf(&self) -> bool {
        &&& self.buffered.wf()
        &&& self@.wf()
    }

    /// In the state of every receiver, the bytes that are queued and the
    /// credit that is left add up to the ceiling.
    pub proof fn lemma_wf(&self)
        requires
            self.wf(),
        ensures
            self@.wf(),
    {
    }

    /// The receiver of a connection that was just opened, with the given
    /// ceiling of the receive buffer, or the default where none is given.
    pub fn new(receive_buffer_size: Option<usize>) -> (receiver: Self)
        requires
            receive_buffer_size.is_some() ==> receive_buffer_size.unwrap() <= MAX_CREDITS,
        ensures
            receiver.wf(),
            receiver@ == ReceiverView::fresh(
                match receive_buffer_size {
                    Some(size) => size as nat,
                    None => DEFAULT_RECEIVE_BUFFER_SIZE as nat,
                },
            ),
    {
        let ceiling = match receive_buffer_size {
            Some(size) => size,
            None => DEFAULT_RECEIVE_BUFFER_SIZE,
        };
        let receiver = Receiver {
            queue: VecDeque::new(),
            open: true,
            closed: Closed::new(),
            buffered: CreditPool::new(ceiling),
        };
        assert(receiver@.queue =~= Seq::empty());
        receiver
    }

    /// Takes a message that the transport delivered. This never waits.
    pub fn on_message(&mut self, msg: Msg) -> (arrival: Arrival)
        requires
            old(self).wf(),
        ensures
            final(self).wf(),
            arrival == old(self)@.arrival(msg@),
            final(self)@ == old(self)@.arrive(msg@),
    {
        let bytes = msg.len();
        if self.buffered.try_acquire(bytes) {
            if self.open {
                proof {
                    let before = self.queue@.map_values(|m: Msg| m@);
                    assert(self.queue@.push(msg).map_values(|m: Msg| m@) =~= before.push(msg@));
                    assert(before.push(msg@).drop_last() =~= before);
                }
                self.queue.push_back(msg);
                Arrival::Queued
            } else {
                self.buffered.release(bytes);
                Arrival::Discarded
            }
        } else {
            self.closed.resolve(ClosedReason::overflow());
            self.open = false;
            Arrival::Overflow
        }
    }

    /// Takes the news that the transport closed the connection, with the
    /// reason that its close event gave.
    pub fn on_close(&mut self, reason: ClosedReason)
        requires
            old(self).wf(),
        ensures
            final(self).wf(),
            final(self)@ == old(self)@.close(reason@),
    {
        self.closed.resolve(reason);
        self.open = false;
    }

    /// Takes the news that the transport is gone and will report nothing
    /// more.
    pub fn on_lost(&mut self)
        requires
            old(self).wf(),
        ensures
            final(self).wf(),
            final(self)@ == old(self)@.lose(),
    {
        self.closed.lose();
        self.open = false;
    }

    /// What is known of the closure.
    pub fn closed(&self) -> (closed: Closed)
        ensures
            closed@ == self@.closed,
    {
        self.closed.clone()
    }

    /// The number of bytes that are queued for the caller.
    pub fn buffered_bytes(&self) -> (bytes: usize)
        requires
            self.wf(),
        ensures
            bytes == total_bytes(self@.queue),
            bytes <= self@.ceiling,
    {
        self.buffered.limit() - self.buffered.remaining()
    }

    /// Hands the next message to the caller, and its credit back to the
    /// pool.
    pub fn poll_next(&mut self) -> (item: Delivery)
        requires
            old(self).wf(),
        ensures
            final(self).wf(),
            item@ == old(self)@.next_item(),
            final(self)@ == old(self)@.after_next(),
    {
        match self.queue.pop_front() {
            Some(msg) => {
                proof {
                    let before = old(self)@.queue;
                    assert(before[0] == msg@);
                    assert(self.queue@.map_values(|m: Msg| m@) =~= before.skip(1));
                    assert(before =~= seq![msg@] + before.skip(1));
                    lemma_total_bytes_concat(seq![msg@], before.skip(1));
                    lemma_total_bytes_single(msg@);
                }
                self.buffered.release(msg.len());
                Delivery::Message(msg)
            },
            None => {
                assert(self@ == old(self)@);
                if self.open {
                    Delivery::Pending
                } else {
                    match self.closed.recorded() {
                        Some(reason) => if reason.was_clean {
                            Delivery::End
                        } else {
                            Delivery::Failed(
                                Error {
                                    kind: ErrorKind::ConnectionReset,
                                    message: reason.reason.clone(),
                                },
                            )
                        },
                        None => Delivery::Failed(
                            Error::new(ErrorKind::ConnectionReset, "WebSocket closed"),
                        ),
                    }
                }
            },
        }
    }
}

/// What a sender answers that looks at the connection and finds it in the
/// given state, with the given number of bytes queued for transmission: it
/// fails where the connection is not open, it may send where no more bytes
/// are queued than the ceiling allows, and else it has to look again after
/// the check interval.
pub open spec fn readiness(ceiling: nat, ready_state: u16, buffered_amount: u32) -> SendStepView {
    if ready_state != OPEN {
        SendStepView::Failed(
            ErrorView { kind: ErrorKind::ConnectionReset, message: "WebSocket not open"@ },
        )
    } else if buffered_amount <= ceiling {
        SendStepView::Ready
    } else {
        SendStepView::Retry { after: SEND_BUFFER_CHECK_INTERVAL }
    }
}

/// Sending part of the standardized interface.
#[derive(Debug)]
pub struct Sender {
    send_buffer_size: usize,
}

impl Sender {
    /// The ceiling of the send buffer, in bytes.
    pub closed spec fn ceiling(&self) -> nat {
        self.send_buffer_size as nat
    }

    /// A sender with the given ceiling of the send buffer, or the default
    /// where none is given.
    pub fn new(send_buffer_size: Option<usize>) -> (sender: Self)
        ensures
            sender.ceiling() == match send_buffer_size {
                Some(size) => size as nat,
                None => DEFAULT_SEND_BUFFER_SIZE as nat,
            },
    {
        let send_buffer_size = match send_buffer_size {
            Some(size) => size,
            None => DEFAULT_SEND_BUFFER_SIZE,
        };
        Sender { send_buffer_size }
    }

    /// The ceiling of the send buffer, in bytes.
    pub fn send_buffer_size(&self) -> (size: usize)
        ensures
            size == self.ceiling(),
    {
        self.send_buffer_size
    }

    /// Whether a message may be sent, given the state that the connection is
    /// in and the number of bytes that are queued for transmission. Where too
    /// much is queued, the caller looks at both again after the check
    /// interval and asks again, as often as it takes.
    pub fn poll_ready(&self, ready_state: u16, buffered_amount: u32) -> (ready: SendStep)
        ensures
            ready@ == readiness(self.ceiling(), ready_state, buffered_amount),
    {
        if ready_state != OPEN {
            SendStep::Failed(Error::new(ErrorKind::ConnectionReset, "WebSocket not open"))
        } else if buffered_amount as usize <= self.send_buffer_size {
            SendStep::Ready
        } else {
            SendStep::Retry { after: SEND_BUFFER_CHECK_INTERVAL }
        }
    }

    /// Takes a message for sending and returns what is handed to the
    /// transport at once: the message as it is.
    pub fn start_send(&self, item: Msg) -> (handed: Msg)
        ensures
            handed@ == item@,
    {
        item
    }

    /// The error for a message that the transport did not take: a connection
    /// reset, with what the transport said of it.
    pub fn send_failed(&self, failure: &JsFailure) -> (e: Error)
        ensures
            e@ == failure@.error(ErrorKind::ConnectionReset),
    {
        js_err(ErrorKind::ConnectionReset, failure)
    }

    /// Whether everything that was sent has left this sender: always, for
    /// the transport does the buffering.
    pub fn poll_flush(&self) -> (flushed: Progress)
        ensures
            flushed@ == ProgressView::Done,
    {
        Progress::Done
    }

    /// Closes the sending side, given how the close of the transport went:
    /// a failure of it is reported as a connection reset.
    pub fn poll_close(&self, closing: Native<()>) -> (closed: Progress)
        ensures
            closed@ == native_progress(ErrorKind::ConnectionReset, closing),
    {
        js_progress(ErrorKind::ConnectionReset, closing)
    }

    /// Closes the connection with the given code and reason: returns the
    /// close that is handed to the transport, and records with the guard that
    /// the transport was told to close.
    pub fn close(self, guard: &mut Guard, code: u16, reason: &str) -> (close: Close)
        ensures
            close@ == (CloseView { code, reason: reason@ }),
            final(guard).closed(),
    {
        guard.mark_closed();
        Close { code, reason: String::from_str(reason) }
    }
}

/// A connection over the standardized interface.
#[derive(Debug)]
pub struct Inner {
    pub(crate) sender: Sender,
    pub(crate) receiver: Receiver,
}

impl Inner {
    /// The ceiling of the send buffer, in bytes.
    pub closed spec fn send_ceiling(&self) -> nat {
        self.sender.ceiling()
    }

    /// The receiving half.
    pub closed spec fn receiver(&self) -> ReceiverView {
        self.receiver@
    }

    /// What holds of every connection: its receiver is as a receiver has to
    /// be.
    pub closed spec fn wf(&self) -> bool {
        self.receiver.wf()
    }

    /// The connection that the transport reports as open, and what is known
    /// of it: the URL that was asked for, the sub-protocol that the server
    /// selected, and the interface. The buffers have the given ceilings, or
    /// the defaults where none is given.
    pub fn new(
        url: String,
        protocol: String,
        send_buffer_size: Option<usize>,
        receive_buffer_size: Option<usize>,
    ) -> (opened: (Self, Info))
        requires
            receive_buffer_size.is_some() ==> receive_buffer_size.unwrap() <= MAX_CREDITS,
        ensures
            opened.0.wf(),
            opened.0.send_ceiling() == match send_buffer_size {
                Some(size) => size as nat,
                None => DEFAULT_SEND_BUFFER_SIZE as nat,
            },
            opened.0.receiver() == ReceiverView::fresh(
                match receive_buffer_size {
                    Some(size) => size as nat,
                    None => DEFAULT_RECEIVE_BUFFER_SIZE as nat,
                },
            ),
            opened.1@ == (InfoView { url: url@, protocol: protocol@, interface: Interface::Standard }),
    {
        (
            Inner {
                sender: Sender::new(send_buffer_size),
                receiver: Receiver::new(receive_buffer_size),
            },
            Info::new(url, protocol, Interface::Standard),
        )
    }

    /// What is known of the closure.
    pub fn closed(&self) -> (closed: Closed)
        ensures
            closed@ == self.receiver().closed,
    {
        self.receiver.closed()
    }

    /// Splits the connection into its halves.
    pub fn into_split(self) -> (halves: (Sender, Receiver))
        ensures
            halves.0.ceiling() == self.send_ceiling(),
            halves.1@ == self.receiver(),
            halves.1.wf() == self.wf(),
    {
        (self.sender, self.receiver)
    }
}

/// A message that arrives at an open receiver with an empty queue and credit
/// for it is the next one that the caller is handed, as it arrived; and once
/// it is handed over, the receiver is as it was before.
pub proof fn lemma_receiver_hands_over_what_arrived(receiver: ReceiverView, msg: MsgView)
    requires
        receiver.open,
        receiver.queue.len() == 0,
        receiver.fits(msg),
    ensures
        receiver.arrive(msg).next_item() == DeliveryView::Message(msg),
        receiver.arrive(msg).after_next() == receiver,
{
    assert(receiver.arrive(msg).queue.skip(1) =~= receiver.queue);
}

/// What happens at a receiver.
pub enum ReceiverEvent {
    /// The transport delivers a message.
    Arrive(MsgView),
    /// The caller asks for the next message.
    Take,
}

impl ReceiverView {
    /// The receiver after the event.
    pub open spec fn step(self, event: ReceiverEvent) -> ReceiverView {
        match event {
            ReceiverEvent::Arrive(msg) => self.arrive(msg),
            ReceiverEvent::Take => self.after_next(),
        }
    }

    /// The receiver after the events, in their order.
    pub open spec fn run(self, events: Seq<ReceiverEvent>) -> ReceiverView
        decreases events.len(),
    {
        if events.len() == 0 {
            self
        } else {
            self.run(events.drop_last()).step(events.last())
        }
    }

    /// The messages that the caller is handed in the course of the events,
    /// in the order in which it is handed them.
    pub open spec fn taken(self, events: Seq<ReceiverEvent>) -> Seq<MsgView>
        decreases events.len(),
    {
        if events.len() == 0 {
            Seq::empty()
        } else {
            let so_far = self.taken(events.drop_last());
            match (events.last(), self.run(events.drop_last()).next_item()) {
                (ReceiverEvent::Take, DeliveryView::Message(msg)) => so_far.push(msg),
                _ => so_far,
            }
        }
    }
}

/// The messages that the transport delivers in the course of the events, in
/// the order in which it delivers them.
pub open spec fn arrivals(events: Seq<ReceiverEvent>) -> Seq<MsgView>
    decreases events.len(),
{
    if events.len() == 0 {
        Seq::empty()
    } else {
        match events.last() {
            ReceiverEvent::Arrive(msg) => arrivals(events.drop_last()).push(msg),
            ReceiverEvent::Take => arrivals(events.drop_last()),
        }
    }
}

/// The caller asking `n` times for the next message.
pub open spec fn takes(n: nat) -> Seq<ReceiverEvent> {
    Seq::new(n, |i: int| ReceiverEvent::Take)
}

proof fn lemma_total_bytes_push(msgs: Seq<MsgView>, msg: MsgView)
    ensures
        total_bytes(msgs.push(msg)) == total_bytes(msgs) + msg.len(),
{
    assert(msgs.push(msg).drop_last() =~= msgs);
}

proof fn lemma_total_bytes_skip(msgs: Seq<MsgView>)
    requires
        msgs.len() > 0,
    ensures
        total_bytes(msgs) == msgs[0].len() + total_bytes(msgs.skip(1)),
{
    assert(msgs =~= seq![msgs[0]] + msgs.skip(1));
    lemma_total_bytes_concat(seq![msgs[0]], msgs.skip(1));
    lemma_total_bytes_single(msgs[0]);
}

/// Whatever happens at a receiver, the bytes that are queued and the credit
/// that is left add up to the ceiling: no more bytes are ever queued than
/// the ceiling allows.
pub proof fn lemma_receiver_within_ceiling(receiver: ReceiverView, events: Seq<ReceiverEvent>)
    requires
        receiver.wf(),
    ensures
        receiver.run(events).wf(),
        receiver.run(events).ceiling == receiver.ceiling,
        total_bytes(receiver.run(events).queue) <= receiver.ceiling,
    decreases events.len(),
{
    if events.len() > 0 {
        lemma_receiver_within_ceiling(receiver, events.drop_last());
        let before = receiver.run(events.drop_last());
        match events.last() {
            ReceiverEvent::Arrive(msg) => {
                lemma_total_bytes_push(before.queue, msg);
            },
            ReceiverEvent::Take => {
                if before.queue.len() > 0 {
                    lemma_total_bytes_skip(before.queue);
                }
            },
        }
    }
}

/// A message overflows the receive buffer exactly where its bytes and the
/// bytes that are queued would together exceed the ceiling, or where it is
/// longer than what can be asked of the pool at once. The closure is then
/// settled as a receive buffer overflow, with the code for a message that is
/// too big, unless it was settled before; the message is not queued, and the
/// receiver takes no more.
pub proof fn lemma_receiver_overflow(receiver: ReceiverView, msg: MsgView)
    requires
        receiver.wf(),
    ensures
        receiver.arrival(msg) is Overflow <==> (total_bytes(receiver.queue) + msg.len()
            > receiver.ceiling || msg.len() > MAX_REQUEST),
        receiver.arrival(msg) is Overflow ==> {
            &&& !receiver.arrive(msg).open
            &&& receiver.arrive(msg).queue == receiver.queue
            &&& receiver.closed is Pending ==> receiver.arrive(msg).closed == ClosedView::Known(
                ClosedReasonView::overflow(),
            )
            &&& ClosedReasonView::overflow().code == crate::closed::CloseCode::MessageTooBig
        },
{
}

/// Once a receiver takes no more, nothing that arrives is ever handed to the
/// caller: the caller is handed what was queued at that point, in its order,
/// and nothing else.
pub proof fn lemma_receiver_takes_no_more(receiver: ReceiverView, events: Seq<ReceiverEvent>)
    requires
        !receiver.open,
    ensures
        !receiver.run(events).open,
        receiver.taken(events) + receiver.run(events).queue == receiver.queue,
    decreases events.len(),
{
    if events.len() == 0 {
        assert(receiver.taken(events) + receiver.run(events).queue =~= receiver.queue);
    } else {
        lemma_receiver_takes_no_more(receiver, events.drop_last());
        let before = receiver.run(events.drop_last());
        let so_far = receiver.taken(events.drop_last());
        match events.last() {
            ReceiverEvent::Arrive(msg) => {},
            ReceiverEvent::Take => {
                if before.queue.len() > 0 {
                    assert(so_far.push(before.queue[0]) + before.queue.skip(1) =~= so_far
                        + before.queue);
                }
            },
        }
    }
}

/// With a ceiling that the whole workload fits under, every message is
/// handed to the caller in the order in which it arrived, however slowly the
/// caller asks: at every point the messages that it was handed, followed by
/// those that are queued, are the messages that arrived.
pub proof fn lemma_receiver_keeps_order(ceiling: nat, events: Seq<ReceiverEvent>)
    requires
        total_bytes(arrivals(events)) <= ceiling,
        forall|i: int|
            0 <= i < events.len() ==> (#[trigger] events[i] matches ReceiverEvent::Arrive(msg)
                ==> msg.len() <= MAX_REQUEST),
    ensures
        ({
            let start = ReceiverView::fresh(ceiling);
            let end = start.run(events);
            &&& end.wf()
            &&& end.open
            &&& end.closed is Pending
            &&& end.ceiling == ceiling
            &&& start.taken(events) + end.queue == arrivals(events)
        }),
    decreases events.len(),
{
    let start = ReceiverView::fresh(ceiling);
    if events.len() == 0 {
        assert(start.taken(events) + start.run(events).queue =~= arrivals(events));
    } else {
        let prefix = events.drop_last();
        match events.last() {
            ReceiverEvent::Arrive(msg) => {
                lemma_total_bytes_push(arrivals(prefix), msg);
            },
            ReceiverEvent::Take => {},
        }
        assert forall|i: int| 0 <= i < prefix.len() implies (#[trigger] prefix[i] matches ReceiverEvent::Arrive(
            msg,
        ) ==> msg.len() <= MAX_REQUEST) by {
            assert(prefix[i] == events[i]);
        }
        lemma_receiver_keeps_order(ceiling, prefix);
        let before = start.run(prefix);
        let so_far = start.taken(prefix);
        lemma_total_bytes_concat(so_far, before.queue);
        match events.last() {
            ReceiverEvent::Arrive(msg) => {
                assert(events[events.len() - 1] == events.last());
                assert(before.fits(msg));
                lemma_total_bytes_push(before.queue, msg);
                assert(so_far + before.queue.push(msg) =~= (so_far + before.queue).push(msg));
            },
            ReceiverEvent::Take => {
                if before.queue.len() > 0 {
                    lemma_total_bytes_skip(before.queue);
                    assert(so_far.push(before.queue[0]) + before.queue.skip(1) =~= so_far
                        + before.queue);
                }
            },
        }
    }
}

/// A caller that asks as often as messages are queued is handed all of them,
/// in their order, and leaves the queue empty.
pub proof fn lemma_receiver_drains(receiver: ReceiverView, n: nat)
    requires
        n <= receiver.queue.len(),
    ensures
        receiver.taken(takes(n)) == receiver.queue.take(n as int),
        receiver.run(takes(n)).queue == receiver.queue.skip(n as int),
        receiver.run(takes(n)).open == receiver.open,
        receiver.run(takes(n)).closed == receiver.closed,
    decreases n,
{
    if n == 0 {
        assert(receiver.queue.take(0) =~= Seq::empty());
        assert(receiver.queue.skip(0) =~= receiver.queue);
    } else {
        let shorter = (n - 1) as nat;
        lemma_receiver_drains(receiver, shorter);
        assert(takes(n).drop_last() =~= takes(shorter));
        assert(takes(n).last() == ReceiverEvent::Take);
        let before = receiver.run(takes(shorter));
        assert(before.queue[0] == receiver.queue[n - 1]);
        assert(receiver.queue.take(shorter as int).push(receiver.queue[n - 1])
            =~= receiver.queue.take(n as int));
        assert(before.queue.skip(1) =~= receiver.queue.skip(n as int));
    }
}

} // verus!
