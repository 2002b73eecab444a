//! Close codes, the reason a connection was closed with, and the record that
//! hands that reason to everyone who waits for it.

use vstd::prelude::*;
use vstd::std_specs::convert::FromSpecImpl;
use vstd::string::StringExecFns;

verus! {

/// A close code indicating why a WebSocket connection was closed.
#[derive(Debug, Clone, Copy, PartialEq, Eq, Structural, PartialOrd, Ord, Hash)]
pub enum CloseCode {
    /// The connection successfully completed the purpose for which it was created.
    NormalClosure,
    /// The endpoint is going away, either because of a server failure or a navigation away.
    GoingAway,
    /// The endpoint is terminating the connection due to a protocol error.
    ProtocolError,
    /// The connection is being terminated because the endpoint received data of a type it cannot accept.
    UnsupportedData,
    /// Reserved: indicates that no status code was provided although one was expected.
    NoStatusRcvd,
    /// Reserved: indicates that a connection was closed abnormally when a status code was expected.
    AbnormalClosure,
    /// The endpoint is terminating the connection because a message has inconsistent data.
    InvalidFramePayloadData,
    /// The endpoint is terminating the connection because it received a message that violates its policy.
    PolicyViolation,
    /// The endpoint is terminating the connection because a data frame was received that is too large.
    MessageTooBig,
    /// The client is terminating the connection because it expected a server extension negotiation.
    MandatoryExt,
    /// The server is terminating the connection because it encountered an unexpected condition.
    InternalError,
    /// The server is terminating the connection because it is restarting.
    ServiceRestart,
    /// The server is terminating the connection due to a temporary condition (e.g., overloaded).
    TryAgainLater,
    /// The server was acting as a gateway or proxy and received an invalid response from upstream.
    BadGateway,
    /// Reserved: the connection was closed due to a failure in the TLS handshake.
    TlsHandshake,
    /// Other close code.
    Other(u16),
}

/// The lowest close code that an application may choose for itself.
pub const APPLICATION_CODE_MIN: u16 = 3000;

/// The highest close code that an application may choose for itself.
pub const APPLICATION_CODE_MAX: u16 = 4999;

impl CloseCode {
    /// The number that stands for this close code on the wire.
    pub open spec fn value(self) -> u16 {
        match self {
            CloseCode::NormalClosure => 1000,
            CloseCode::GoingAway => 1001,
            CloseCode::ProtocolError => 1002,
            CloseCode::UnsupportedData => 1003,
            CloseCode::NoStatusRcvd => 1005,
            CloseCode::AbnormalClosure => 1006,
            CloseCode::InvalidFramePayloadData => 1007,
            CloseCode::PolicyViolation => 1008,
            CloseCode::MessageTooBig => 1009,
            CloseCode::MandatoryExt => 1010,
            CloseCode::InternalError => 1011,
            CloseCode::ServiceRestart => 1012,
            CloseCode::TryAgainLater => 1013,
            CloseCode::BadGateway => 1014,
            CloseCode::TlsHandshake => 1015,
            CloseCode::Other(code) => code,
        }
    }

    /// The close code that a number read from the wire stands for: the named
    /// one where there is one, `Other` for every other number.
    pub open spec fn of(value: u16) -> CloseCode {
        if value == 1000 {
            CloseCode::NormalClosure
        } else if value == 1001 {
            CloseCode::GoingAway
        } else if value == 1002 {
            CloseCode::ProtocolError
        } else if value == 1003 {
            CloseCode::UnsupportedData
        } else if value == 1005 {
            CloseCode::NoStatusRcvd
        } else if value == 1006 {
            CloseCode::AbnormalClosure
        } else if value == 1007 {
            CloseCode::InvalidFramePayloadData
        } else if value == 1008 {
            CloseCode::PolicyViolation
        } else if value == 1009 {
            CloseCode::MessageTooBig
        } else if value == 1010 {
            CloseCode::MandatoryExt
        } else if value == 1011 {
            CloseCode::InternalError
        } else if value == 1012 {
            CloseCode::ServiceRestart
        } else if value == 1013 {
            CloseCode::TryAgainLater
        } else if value == 1014 {
            CloseCode::BadGateway
        } else if value == 1015 {
            CloseCode::TlsHandshake
        } else {
            CloseCode::Other(value)
        }
    }

    /// Whether `of` can produce this value: an `Other` never carries a number
    /// that has a name.
    pub open spec fn is_canonical(self) -> bool {
        match self {
            CloseCode::Other(code) => !(1000 <= code <= 1003 || 1005 <= code <= 1015),
            _ => true,
        }
    }

    /// Whether the local side may close a connection with this code: a normal
    /// closure, or an application code between 3000 and 4999. Every other code
    /// is reserved for closes that the protocol or the server produces.
    pub open spec fn valid(self) -> bool {
        match self {
            CloseCode::NormalClosure => true,
            CloseCode::Other(code) => APPLICATION_CODE_MIN <= code <= APPLICATION_CODE_MAX,
            _ => false,
        }
    }

    /// The words that describe this close code to a reader: its name in lower
    /// case, or the decimal number of an `Other`.
    pub open spec fn text(self) -> Seq<char> {
        match self {
            CloseCode::NormalClosure => "normal closure"@,
            CloseCode::GoingAway => "going away"@,
            CloseCode::ProtocolError => "protocol error"@,
            CloseCode::UnsupportedData => "unsupported data"@,
            CloseCode::NoStatusRcvd => "no status rcvd"@,
            CloseCode::AbnormalClosure => "abnormal closure"@,
            CloseCode::InvalidFramePayloadData => "invalid frame payload data"@,
            CloseCode::PolicyViolation => "policy violation"@,
            CloseCode::MessageTooBig => "message too big"@,
            CloseCode::MandatoryExt => "mandatory ext"@,
            CloseCode::InternalError => "internal error"@,
            CloseCode::ServiceRestart => "service restart"@,
            CloseCode::TryAgainLater => "try again later"@,
            CloseCode::BadGateway => "bad gateway"@,
            CloseCode::TlsHandshake => "TLS handshake"@,
            CloseCode::Other(code) => decimal(code as nat),
        }
    }

    /// Whether the local side may close a connection with this code.
    pub fn is_valid(&self) -> (ok: bool)
        ensures
            ok == self.valid(),
    {
        match self {
            CloseCode::NormalClosure => true,
            CloseCode::Other(code) => APPLICATION_CODE_MIN <= *code && *code <= APPLICATION_CODE_MAX,
            _ => false,
        }
    }

    /// The words that describe this close code.
    pub fn to_string(&self) -> (s: String)
        ensures
            s@ == self.text(),
    {
        match self {
            CloseCode::NormalClosure => String::from_str("normal closure"),
            CloseCode::GoingAway => String::from_str("going away"),
            CloseCode::ProtocolError => String::from_str("protocol error"),
            CloseCode::UnsupportedData => String::from_str("unsupported data"),
            CloseCode::NoStatusRcvd => String::from_str("no status rcvd"),
            CloseCode::AbnormalClosure => String::from_str("abnormal closure"),
            CloseCode::InvalidFramePayloadData => String::from_str("invalid frame payload data"),
            CloseCode::PolicyViolation => String::from_str("policy violation"),
            CloseCode::MessageTooBig => String::from_str("message too big"),
            CloseCode::MandatoryExt => String::from_str("mandatory ext"),
            CloseCode::InternalError => String::from_str("internal error"),
            CloseCode::ServiceRestart => String::from_str("service restart"),
            CloseCode::TryAgainLater => String::from_str("try again later"),
            CloseCode::BadGateway => String::from_str("bad gateway"),
            CloseCode::TlsHandshake => String::from_str("TLS handshake"),
            CloseCode::Other(code) => {
                let mut s = String::new();
                append_decimal(&mut s, *code);
                s
            },
        }
    }
}

/// The character that stands for one decimal digit.
pub open spec fn digit(d: nat) -> char {
    if d == 0 {
        '0'
    } else if d == 1 {
        '1'
    } else if d == 2 {
        '2'
    } else if d == 3 {
        '3'
    } else if d == 4 {
        '4'
    } else if d == 5 {
        '5'
    } else if d == 6 {
        '6'
    } else if d == 7 {
        '7'
    } else if d == 8 {
        '8'
    } else {
        '9'
    }
}

/// A number written in decimal, most significant digit first, without
/// leading zeros.
pub open spec fn decimal(n: nat) -> Seq<char>
    decreases n,
{
    if n < 10 {
        seq![digit(n)]
    } else {
        decimal(n / 10).push(digit(n % 10))
    }
}

fn digit_str(d: u16) -> (s: &'static str)
    requires
        d < 10,
    ensures
        s@ == seq![digit(d as nat)],
{
    proof {
        reveal_strlit("0");
        reveal_strlit("1");
        reveal_strlit("2");
        reveal_strlit("3");
        reveal_strlit("4");
        reveal_strlit("5");
        reveal_strlit("6");
        reveal_strlit("7");
        reveal_strlit("8");
        reveal_strlit("9");
    }
    let s = if d == 0 {
        "0"
    } else if d == 1 {
        "1"
    } else if d == 2 {
        "2"
    } else if d == 3 {
        "3"
    } else if d == 4 {
        "4"
    } else if d == 5 {
        "5"
    } else if d == 6 {
        "6"
    } else if d == 7 {
        "7"
    } else if d == 8 {
        "8"
    } else {
        "9"
    };
    assert(s@ =~= seq![digit(d as nat)]);
    s
}

fn append_decimal(s: &mut String, n: u16)
    ensures
        final(s)@ == old(s)@ + decimal(n as nat),
    decreases n,
{
    if n >= 10 {
        append_decimal(s, n / 10);
    }
    s.append(digit_str(n % 10));
    assert(s@ =~= old(s)@ + decimal(n as nat));
}

impl From<CloseCode> for u16 {
    fn from(code: CloseCode) -> (value: u16) {
        match code {
            CloseCode::NormalClosure => 1000,
            CloseCode::GoingAway => 1001,
            CloseCode::ProtocolError => 1002,
            CloseCode::UnsupportedData => 1003,
            CloseCode::NoStatusRcvd => 1005,
            CloseCode::AbnormalClosure => 1006,
            CloseCode::InvalidFramePayloadData => 1007,
            CloseCode::PolicyViolation => 1008,
            CloseCode::MessageTooBig => 1009,
            CloseCode::MandatoryExt => 1010,
            CloseCode::InternalError => 1011,
            CloseCode::ServiceRestart => 1012,
            CloseCode::TryAgainLater => 1013,
            CloseCode::BadGateway => 1014,
            CloseCode::TlsHandshake => 1015,
            CloseCode::Other(code) => code,
        }
    }
}

impl FromSpecImpl<CloseCode> for u16 {
    open spec fn obeys_from_spec() -> bool {
        true
    }

    open spec fn from_spec(code: CloseCode) -> u16 {
        code.value()
    }
}

impl From<u16> for CloseCode {
    fn from(value: u16) -> (code: CloseCode) {
        match value {
            1000 => CloseCode::NormalClosure,
            1001 => CloseCode::GoingAway,
            1002 => CloseCode::ProtocolError,
            1003 => CloseCode::UnsupportedData,
            1005 => CloseCode::NoStatusRcvd,
            1006 => CloseCode::AbnormalClosure,
            1007 => CloseCode::InvalidFramePayloadData,
            1008 => CloseCode::PolicyViolation,
            1009 => CloseCode::MessageTooBig,
            1010 => CloseCode::MandatoryExt,
            1011 => CloseCode::InternalError,
            1012 => CloseCode::ServiceRestart,
            1013 => CloseCode::TryAgainLater,
            1014 => CloseCode::BadGateway,
            1015 => CloseCode::TlsHandshake,
            other => CloseCode::Other(other),
        }
    }
}

impl FromSpecImpl<u16> for CloseCode {
    open spec fn obeys_from_spec() -> bool {
        true
    }

    open spec fn from_spec(value: u16) -> CloseCode {
        CloseCode::of(value)
    }
}

/// Every number stands for a close code that stands for that number again,
/// and the close code of a number is never an `Other` that hides a name.
pub proof fn lemma_close_code_of_value(value: u16)
    ensures
        CloseCode::of(value).value() == value,
        CloseCode::of(value).is_canonical(),
{
}

/// A close code is the one that its number stands for, unless it is an `Other`
/// that carries a number with a name of its own.
pub proof fn lemma_close_code_value_of(code: CloseCode)
    ensures
        code.is_canonical() <==> CloseCode::of(code.value()) == code,
{
}

/// The codes that the local side may close with are the normal closure and
/// the application range, by their numbers.
pub proof fn lemma_close_code_valid_by_value(code: CloseCode)
    requires
        code.is_canonical(),
    ensures
        code.valid() <==> (code.value() == 1000 || 3000 <= code.value() <= 4999),
{
}

/// Reason for why a WebSocket connection is closed.
#[derive(Debug)]
pub struct ClosedReason {
    /// A number representing the closing code.
    pub code: CloseCode,
    /// A string representing a human-readable description of
    /// the reason why the socket connection was closed.
    pub reason: String,
    /// Whether the connection was closed cleanly: both ends completed the
    /// close exchange.
    pub was_clean: bool,
}

/// What a `ClosedReason` holds, with its text as a sequence of characters.
pub struct ClosedReasonView {
    pub code: CloseCode,
    pub reason: Seq<char>,
    pub was_clean: bool,
}

impl View for ClosedReason {
    type V = ClosedReasonView;

    open spec fn view(&self) -> ClosedReasonView {
        ClosedReasonView { code: self.code, reason: self.reason@, was_clean: self.was_clean }
    }
}

impl Clone for ClosedReason {
    fn clone(&self) -> (copy: Self)
        ensures
            copy@ == self@,
    {
        ClosedReason { code: self.code, reason: self.reason.clone(), was_clean: self.was_clean }
    }
}

impl ClosedReasonView {
    /// The reason as a close event of the standardized interface reports it.
    pub open spec fn of_close_event(code: u16, reason: Seq<char>, was_clean: bool) -> Self {
        ClosedReasonView { code: CloseCode::of(code), reason, was_clean }
    }

    /// The reason that the stream-based interface reports when its closure
    /// signal resolves: such a closure is always clean.
    pub open spec fn of_stream_closed(code: u16, reason: Seq<char>) -> Self {
        ClosedReasonView { code: CloseCode::of(code), reason, was_clean: true }
    }

    /// The reason for a connection that was lost: an abnormal closure that is
    /// not clean, described by `message` where there is one.
    pub open spec fn of_failure(message: Option<Seq<char>>) -> Self {
        ClosedReasonView {
            code: CloseCode::AbnormalClosure,
            reason: match message {
                Some(text) => text,
                None => Seq::empty(),
            },
            was_clean: false,
        }
    }

    /// The reason for a connection that is given up because the receive
    /// buffer cannot take a message that arrived.
    pub open spec fn overflow() -> Self {
        ClosedReasonView {
            code: CloseCode::MessageTooBig,
            reason: "receive buffer overflow"@,
            was_clean: false,
        }
    }

    /// The words that describe the reason: the code alone where no reason
    /// text was given, else the text followed by the code in parentheses.
    pub open spec fn text(self) -> Seq<char> {
        if self.reason.len() == 0 {
            self.code.text()
        } else {
            self.reason + " ("@ + self.code.text() + ")"@
        }
    }
}

impl ClosedReason {
    /// The reason that a close event of the standardized interface reports.
    pub fn from_close_event(code: u16, reason: String, was_clean: bool) -> (r: Self)
        ensures
            r@ == ClosedReasonView::of_close_event(code, reason@, was_clean),
    {
        ClosedReason { code: CloseCode::from(code), reason, was_clean }
    }

    /// The reason that the stream-based interface reports when its closure
    /// signal resolves with a close code and a reason text.
    pub fn from_stream_closed(code: u16, reason: String) -> (r: Self)
        ensures
            r@ == ClosedReasonView::of_stream_closed(code, reason@),
    {
        ClosedReason { code: CloseCode::from(code), reason, was_clean: true }
    }

    /// The reason for a connection that was lost without a close exchange.
    /// `message` is what the runtime said of the failure, if anything.
    pub fn from_failure(message: Option<String>) -> (r: Self)
        ensures
            r@ == ClosedReasonView::of_failure(
                match message {
                    Some(text) => Some(text@),
                    None => None,
                },
            ),
    {
        let reason = match message {
            Some(text) => text,
            None => String::new(),
        };
        ClosedReason { code: CloseCode::AbnormalClosure, reason, was_clean: false }
    }

    /// The reason for a connection that is given up because the receive
    /// buffer overflowed.
    pub fn overflow() -> (r: Self)
        ensures
            r@ == ClosedReasonView::overflow(),
    {
        ClosedReason {
            code: CloseCode::MessageTooBig,
            reason: String::from_str("receive buffer overflow"),
            was_clean: false,
        }
    }

    /// The words that describe the reason.
    pub fn to_string(&self) -> (s: String)
        ensures
            s@ == self@.text(),
    {
        if self.reason.as_str().is_empty() {
            self.code.to_string()
        } else {
            let mut s = self.reason.clone();
            s.append(" (");
            let code = self.code.to_string();
            s.append(code.as_str());
            s.append(")");
            s
        }
    }
}

/// The closure signal of one connection: pending until the connection is
/// closed, then settled for good.
///
/// It is settled by the first signal that reaches it, either a reason or the
/// news that the connection is gone without one. Nothing that arrives later
/// changes what it answers, so everyone who asks, before the closure or after
/// it, is told the same reason.
#[derive(Debug)]
pub struct Closed {
    outcome: Option<ClosedReason>,
    lost: bool,
}

/// What a closure signal knows.
pub enum ClosedView {
    /// The connection is not known to be closed.
    Pending,
    /// The connection was closed with this reason.
    Known(ClosedReasonView),
    /// The connection is gone and no reason was recorded.
    Lost,
}

impl ClosedView {
    /// The signal after a reason arrives: a pending signal takes it, a
    /// settled one keeps what it has.
    pub open spec fn resolve(self, reason: ClosedReasonView) -> ClosedView {
        match self {
            ClosedView::Pending => ClosedView::Known(reason),
            _ => self,
        }
    }

    /// The signal after the connection is found gone without a reason.
    pub open spec fn lose(self) -> ClosedView {
        match self {
            ClosedView::Pending => ClosedView::Lost,
            _ => self,
        }
    }

    /// What someone who waits for the closure is told: nothing yet while the
    /// signal is pending, the recorded reason once there is one, and an
    /// abnormal closure without text where the connection is gone without one.
    pub open spec fn answer(self) -> Option<ClosedReasonView> {
        match self {
            ClosedView::Pending => None,
            ClosedView::Known(reason) => Some(reason),
            ClosedView::Lost => Some(ClosedReasonView::of_failure(None)),
        }
    }

    /// The reason that was recorded, if one was.
    pub open spec fn recorded(self) -> Option<ClosedReasonView> {
        match self {
            ClosedView::Known(reason) => Some(reason),
            _ => None,
        }
    }

    /// The signal after the event.
    pub open spec fn on(self, event: ClosedEvent) -> ClosedView {
        match event {
            ClosedEvent::Reason(reason) => self.resolve(reason),
            ClosedEvent::Lost => self.lose(),
        }
    }

    /// The signal after the events, in their order.
    pub open spec fn after(self, events: Seq<ClosedEvent>) -> ClosedView
        decreases events.len(),
    {
        if events.len() == 0 {
            self
        } else {
            self.after(events.drop_last()).on(events.last())
        }
    }
}

/// What a closure signal is told.
pub enum ClosedEvent {
    /// The connection was closed with this reason.
    Reason(ClosedReasonView),
    /// The connection is gone and gives no reason.
    Lost,
}

impl View for Closed {
    type V = ClosedView;

    closed spec fn view(&self) -> ClosedView {
        match self.outcome {
            Some(reason) => ClosedView::Known(reason@),
            None => if self.lost {
                ClosedView::Lost
            } else {
                ClosedView::Pending
            },
        }
    }
}

impl Closed {
    /// The signal of a connection that is open.
    pub fn new() -> (c: Self)
        ensures
            c@ == ClosedView::Pending,
    {
        Closed { outcome: None, lost: false }
    }

    /// Records the reason of the closure. The first signal settles the
    /// answer: on a settled signal this changes nothing.
    /// Returns whether this call settled it.
    pub fn resolve(&mut self, reason: ClosedReason) -> (settled: bool)
        ensures
            final(self)@ == old(self)@.resolve(reason@),
            settled == (old(self)@ == ClosedView::Pending),
    {
        if self.outcome.is_none() && !self.lost {
            self.outcome = Some(reason);
            true
        } else {
            false
        }
    }

    /// Records that the connection is gone without a reason. On a settled
    /// signal this changes nothing. Returns whether this call settled it.
    pub fn lose(&mut self) -> (settled: bool)
        ensures
            final(self)@ == old(self)@.lose(),
            settled == (old(self)@ == ClosedView::Pending),
    {
        if self.outcome.is_none() && !self.lost {
            self.lost = true;
            true
        } else {
            false
        }
    }

    /// Whether the closure is known.
    pub fn is_settled(&self) -> (settled: bool)
        ensures
            settled == (self@ != ClosedView::Pending),
    {
        self.outcome.is_some() || self.lost
    }

    /// The reason that was recorded, if one was.
    pub fn recorded(&self) -> (r: Option<&ClosedReason>)
        ensures
            match r {
                Some(reason) => self@.recorded() == Some(reason@),
                None => self@.recorded().is_none(),
            },
    {
        self.outcome.as_ref()
    }

    /// Asks for the reason of the closure: there is none while the
    /// connection is not known to be closed, and the one reason from then on.
    pub fn poll(&self) -> (answer: Option<ClosedReason>)
        ensures
            match answer {
                Some(reason) => self@.answer() == Some(reason@),
                None => self@.answer().is_none(),
            },
    {
        match &self.outcome {
            Some(reason) => Some(reason.clone()),
            None => if self.lost {
                Some(ClosedReason::from_failure(None))
            } else {
                None
            },
        }
    }
}

impl Clone for Closed {
    /// Another observer of the same closure, which knows what this one knows.
    fn clone(&self) -> (copy: Self)
        ensures
            copy@ == self@,
    {
        let outcome = match &self.outcome {
            Some(reason) => Some(reason.clone()),
            None => None,
        };
        Closed { outcome, lost: self.lost }
    }
}

/// A settled closure signal stays as it is, whatever it is told later.
pub proof fn lemma_closed_settled_is_final(signal: ClosedView, later: Seq<ClosedEvent>)
    requires
        !(signal is Pending),
    ensures
        signal.after(later) == signal,
    decreases later.len(),
{
    if later.len() > 0 {
        lemma_closed_settled_is_final(signal, later.drop_last());
    }
}

/// The first thing that a closure signal is told settles it.
pub proof fn lemma_closed_first_event_settles(events: Seq<ClosedEvent>)
    requires
        events.len() > 0,
    ensures
        ClosedView::Pending.after(events) == ClosedView::Pending.on(events[0]),
        ClosedView::Pending.after(events).answer() is Some,
    decreases events.len(),
{
    if events.len() > 1 {
        lemma_closed_first_event_settles(events.drop_last());
        assert(events.drop_last()[0] == events[0]);
    } else {
        assert(ClosedView::Pending.after(events.drop_last()) == ClosedView::Pending);
        assert(events.last() == events[0]);
    }
}

/// A signal that is told some events and then others is as one that is told
/// all of them in turn.
pub proof fn lemma_closed_after_concat(signal: ClosedView, first: Seq<ClosedEvent>, then: Seq<ClosedEvent>)
    ensures
        signal.after(first + then) == signal.after(first).after(then),
    decreases then.len(),
{
    if then.len() == 0 {
        assert(first + then =~= first);
    } else {
        lemma_closed_after_concat(signal, first, then.drop_last());
        assert((first + then).drop_last() =~= first + then.drop_last());
        assert((first + then).last() == then.last());
    }
}

/// Everyone who waits for the closure is told the same reason. An observer
/// may begin to watch the connection at any point, before its closure or
/// after it: it then knows what the connection was told until then, and is
/// told what the connection is told from then on. Whenever it began, once
/// the connection is told anything it answers with the reason that the first
/// event stands for, and nothing that it is told later changes its answer.
pub proof fn lemma_closed_fan_out(events: Seq<ClosedEvent>, begin: int, later: Seq<ClosedEvent>)
    requires
        events.len() > 0,
        0 <= begin <= events.len(),
    ensures
        ({
            let observer = ClosedView::Pending.after(events.take(begin)).after(events.skip(begin));
            &&& observer == ClosedView::Pending.on(events[0])
            &&& observer.answer() is Some
            &&& observer.after(later) == observer
        }),
{
    lemma_closed_after_concat(ClosedView::Pending, events.take(begin), events.skip(begin));
    assert(events.take(begin) + events.skip(begin) =~= events);
    lemma_closed_first_event_settles(events);
    lemma_closed_settled_is_final(ClosedView::Pending.on(events[0]), later);
}

} // verus!
