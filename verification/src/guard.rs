//! The guard of a connection: closes the transport once and no more.

use vstd::prelude::*;

verus! {

/// The close that is handed to the transport: a code and a reason.
#[derive(Debug)]
pub struct Close {
    /// The close code, as a number.
    pub code: u16,
    /// The reason, for a reader.
    pub reason: String,
}

/// What a `Close` holds, with its reason as a sequence of characters.
pub struct CloseView {
    pub code: u16,
    pub reason: Seq<char>,
}

impl View for Close {
    type V = CloseView;

    open spec fn view(&self) -> CloseView {
        CloseView { code: self.code, reason: self.reason@ }
    }
}

/// Records whether the transport of a connection was told to close.
///
/// The sending half, the receiving half and whoever waits for the closure
/// share one transport. It is told to close once: by an explicit close, or
/// else when the last of them lets go of it.
#[derive(Debug)]
pub struct Guard {
    closed: bool,
}

impl Guard {
    /// Whether the transport was told to close.
    pub closed spec fn closed(&self) -> bool {
        self.closed
    }

    /// The guard of a transport that was just opened.
    pub fn new() -> (guard: Self)
        ensures
            !guard.closed(),
    {
        Guard { closed: false }
    }

    /// Whether the transport was told to close.
    pub fn is_closed(&self) -> (closed: bool)
        ensures
            closed == self.closed(),
    {
        self.closed
    }

    /// Records an explicit close, for which the transport is told to close
    /// by the caller.
    pub fn mark_closed(&mut self)
        ensures
            final(self).closed(),
    {
        self.closed = true;
    }

    /// Lets go of the transport for the last time. Returns whether the
    /// transport must now be told to close, with the default close: that is
    /// so unless it was told to close before. Either way the transport counts
    /// as closed from here on.
    pub fn release(&mut self) -> (close_now: bool)
        ensures
            close_now == tells_to_close(old(self).closed(), GuardEvent::Release),
            final(self).closed(),
    {
        let close_now = !self.closed;
        self.closed = true;
        close_now
    }
}

/// What happens to the guard of a connection.
pub enum GuardEvent {
    /// The connection is closed explicitly: the transport is told to close
    /// with the code and reason that were given.
    Close,
    /// A half lets go of the transport as the last one: the transport is
    /// told to close with the default close, unless it was told before.
    Release,
}

/// Whether the transport is told to close at the event, for a guard of which
/// `closed` says whether the transport was told before.
pub open spec fn tells_to_close(closed: bool, event: GuardEvent) -> bool {
    match event {
        GuardEvent::Close => true,
        GuardEvent::Release => !closed,
    }
}

/// How often the transport is told to close in the course of the events,
/// for a guard of which `closed` says whether the transport was told before.
pub open spec fn times_told_to_close(closed: bool, events: Seq<GuardEvent>) -> nat
    decreases events.len(),
{
    if events.len() == 0 {
        0
    } else {
        let now: nat = if tells_to_close(closed, events[0]) {
            1
        } else {
            0
        };
        now + times_told_to_close(true, events.skip(1))
    }
}

proof fn lemma_closed_guard_stays_silent(events: Seq<GuardEvent>)
    requires
        forall|i: int| 0 <= i < events.len() ==> events[i] is Release,
    ensures
        times_told_to_close(true, events) == 0,
    decreases events.len(),
{
    if events.len() > 0 {
        assert forall|i: int| 0 <= i < events.skip(1).len() implies events.skip(1)[i]
            is Release by {
            assert(events.skip(1)[i] == events[i + 1]);
        }
        lemma_closed_guard_stays_silent(events.skip(1));
    }
}

/// The transport is told to close exactly once, by whichever comes first:
/// the explicit close, or the last half letting go. An explicit close can
/// only come first, for it takes the sending half, and once it has come or
/// the transport was let go of, letting go tells the transport nothing.
pub proof fn lemma_guard_closes_once(events: Seq<GuardEvent>)
    requires
        events.len() > 0,
        forall|i: int| 0 < i < events.len() ==> events[i] is Release,
    ensures
        times_told_to_close(false, events) == 1,
{
    assert forall|i: int| 0 <= i < events.skip(1).len() implies events.skip(1)[i] is Release by {
        assert(events.skip(1)[i] == events[i + 1]);
    }
    lemma_closed_guard_stays_silent(events.skip(1));
}

} // verus!
