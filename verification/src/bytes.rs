//! A stream of messages read as a stream of bytes.
//!
//! A reader of bytes may ask for fewer bytes than the next message holds. The
//! bytes of a message that it did not take are kept for its next read.

use tokio::io::ReadBuf;
use vstd::prelude::*;

use crate::msg::{all_bytes, lemma_all_bytes_concat, lemma_total_bytes_single, DeliveryView, MsgView};
use crate::util::ErrorView;

verus! {

/// `tokio::io::ReadBuf`.
#[verifier::external_type_specification]
#[verifier::external_body]
pub struct ExReadBuf<'a>(ReadBuf<'a>);

/// The bytes that a read buffer is filled with.
pub uninterp spec fn filled_of(buf: ReadBuf<'_>) -> Seq<u8>;

/// The number of bytes that a read buffer can hold in all.
pub uninterp spec fn capacity_of(buf: ReadBuf<'_>) -> nat;

/// The number of bytes that still fit into a read buffer.
pub open spec fn room_of(buf: ReadBuf<'_>) -> int {
    capacity_of(buf) - filled_of(buf).len()
}

/// `ReadBuf::remaining` returns the number of bytes that still fit into the
/// buffer: its capacity less what it is filled with.
pub assume_specification<'a>[ ReadBuf::<'a>::remaining ](buf: &ReadBuf<'a>) -> (room: usize)
    ensures
        room == room_of(*buf),
;

/// `ReadBuf::put_slice` appends the given bytes to what the buffer is filled
/// with and leaves its capacity as it is. It panics where they do not fit.
pub assume_specification<'a>[ ReadBuf::<'a>::put_slice ](buf: &mut ReadBuf<'a>, data: &[u8])
    requires
        data@.len() <= room_of(*old(buf)),
    ensures
        filled_of(*final(buf)) == filled_of(*old(buf)) + data@,
        capacity_of(*final(buf)) == capacity_of(*old(buf)),
;

/// How a read of bytes ended.
pub enum ReadStepView {
    /// No message is there yet.
    Pending,
    /// A message without bytes was taken: the read is to be made again.
    Again,
    /// The caller was given the bytes that were there, as far as it had room
    /// for them.
    Filled,
    /// The stream is at its end.
    End,
    /// The connection broke down.
    Failed(ErrorView),
}

/// What a read of bytes does.
pub struct ReadOutcome {
    /// How the read ended.
    pub step: ReadStepView,
    /// The bytes that the caller is given.
    pub put: Seq<u8>,
    /// The bytes that are kept for the next read.
    pub kept: Seq<u8>,
}

/// The number of bytes that a caller with the given room is given of the
/// bytes that are there.
pub open spec fn part_len(bytes: Seq<u8>, room: nat) -> nat {
    if room < bytes.len() {
        room
    } else {
        bytes.len()
    }
}

/// Gives the caller as many of the bytes as it has room for, and keeps the
/// others.
pub open spec fn hand_out(bytes: Seq<u8>, room: nat) -> ReadOutcome {
    ReadOutcome {
        step: ReadStepView::Filled,
        put: bytes.take(part_len(bytes, room) as int),
        kept: bytes.skip(part_len(bytes, room) as int),
    }
}

/// Whether a read of bytes asks the receiver for a message: it does so
/// where no bytes are kept from an earlier message.
pub open spec fn read_pulls(kept: Seq<u8>) -> bool {
    kept.len() == 0
}

/// One read of bytes, for a caller with the given room. `kept` are the
/// bytes that are kept from an earlier message, and `next` is what the
/// receiver has, which is looked at only where no bytes are kept.
///
/// With bytes kept, the caller is given of them what it has room for. With
/// none, one message is taken from the receiver and the caller is given of
/// its bytes what it has room for; a message without bytes gives it nothing,
/// and the read is to be made again. The end of the stream is reported where
/// the receiver reports it with no bytes kept.
pub open spec fn read_step(kept: Seq<u8>, next: DeliveryView, room: nat) -> ReadOutcome {
    if read_pulls(kept) {
        match next {
            DeliveryView::Pending => ReadOutcome { step: ReadStepView::Pending, put: Seq::empty(), kept },
            DeliveryView::End => ReadOutcome { step: ReadStepView::End, put: Seq::empty(), kept },
            DeliveryView::Failed(e) => ReadOutcome {
                step: ReadStepView::Failed(e),
                put: Seq::empty(),
                kept,
            },
            DeliveryView::Message(msg) => if msg.len() == 0 {
                ReadOutcome { step: ReadStepView::Again, put: Seq::empty(), kept }
            } else {
                hand_out(msg.bytes(), room)
            },
        }
    } else {
        hand_out(kept, room)
    }
}

/// Moves as many of the kept bytes as fit into the read buffer, and keeps
/// the others.
pub fn put_part(kept: &mut Vec<u8>, buf: &mut ReadBuf<'_>)
    ensures
        filled_of(*final(buf)) == filled_of(*old(buf)) + hand_out(
            old(kept)@,
            room_of(*old(buf)) as nat,
        ).put,
        capacity_of(*final(buf)) == capacity_of(*old(buf)),
        final(kept)@ == hand_out(old(kept)@, room_of(*old(buf)) as nat).kept,
{
    let room = buf.remaining();
    let part = if room < kept.len() {
        let mut rest = kept.split_off(room);
        std::mem::swap(kept, &mut rest);
        rest
    } else {
        let mut all = Vec::new();
        std::mem::swap(kept, &mut all);
        all
    };
    proof {
        let n = part_len(old(kept)@, room as nat) as int;
        assert(part@ =~= old(kept)@.take(n));
        assert(kept@ =~= old(kept)@.skip(n));
    }
    buf.put_slice(part.as_slice());
}

/// A stream of messages that is read as bytes: the bytes that are kept from
/// the message that was taken last, and the messages that are still to come
/// before the stream ends.
pub struct ByteStream {
    pub kept: Seq<u8>,
    pub to_come: Seq<MsgView>,
}

impl ByteStream {
    /// The bytes that are still to be read.
    pub open spec fn rest(self) -> Seq<u8> {
        self.kept + all_bytes(self.to_come)
    }

    /// What the receiver has: the next message, or the end of the stream.
    pub open spec fn next(self) -> DeliveryView {
        if self.to_come.len() > 0 {
            DeliveryView::Message(self.to_come[0])
        } else {
            DeliveryView::End
        }
    }

    /// What one read does, for a caller with the given room.
    pub open spec fn outcome(self, room: nat) -> ReadOutcome {
        read_step(self.kept, self.next(), room)
    }

    /// The stream after one read.
    pub open spec fn after_read(self, room: nat) -> ByteStream {
        ByteStream {
            kept: self.outcome(room).kept,
            to_come: if read_pulls(self.kept) && self.to_come.len() > 0 {
                self.to_come.skip(1)
            } else {
                self.to_come
            },
        }
    }

    /// The stream after one read for each of the given rooms.
    pub open spec fn after_reads(self, rooms: Seq<nat>) -> ByteStream
        decreases rooms.len(),
    {
        if rooms.len() == 0 {
            self
        } else {
            self.after_reads(rooms.drop_last()).after_read(rooms.last())
        }
    }

    /// The bytes that the caller is given by one read for each of the given
    /// rooms, one after the other.
    pub open spec fn read_out(self, rooms: Seq<nat>) -> Seq<u8>
        decreases rooms.len(),
    {
        if rooms.len() == 0 {
            Seq::empty()
        } else {
            self.read_out(rooms.drop_last()) + self.after_reads(rooms.drop_last()).outcome(
                rooms.last(),
            ).put
        }
    }
}

/// One read gives the caller the first of the bytes that are still to be
/// read and leaves the others, whatever room the caller has. It reports the
/// end of the stream only where no bytes are left. A caller with room is
/// either given a byte at least or rid of a message without bytes, so that
/// less is left to do after every read: reading on, it is given every byte
/// and then told of the end.
pub proof fn lemma_read_gives_next_bytes(stream: ByteStream, room: nat)
    ensures
        stream.outcome(room).put + stream.after_read(room).rest() == stream.rest(),
        stream.outcome(room).step is End ==> stream.rest().len() == 0,
        stream.outcome(room).step is End <==> stream.kept.len() == 0 && stream.to_come.len() == 0,
        !(stream.outcome(room).step is Pending),
        !(stream.outcome(room).step is Failed),
        stream.outcome(room).step is Filled && room > 0 ==> stream.outcome(room).put.len() > 0,
        stream.outcome(room).step is Again ==> stream.after_read(room).to_come.len()
            < stream.to_come.len(),
        room > 0 && !(stream.outcome(room).step is End) ==> stream.after_read(room).rest().len()
            + stream.after_read(room).to_come.len() < stream.rest().len()
            + stream.to_come.len(),
{
    let outcome = stream.outcome(room);
    let after = stream.after_read(room);
    if stream.kept.len() == 0 {
        if stream.to_come.len() > 0 {
            let first = stream.to_come[0];
            assert(stream.to_come =~= seq![first] + stream.to_come.skip(1));
            lemma_all_bytes_concat(seq![first], stream.to_come.skip(1));
            lemma_total_bytes_single(first);
            if first.len() == 0 {
                assert(first.bytes() =~= Seq::<u8>::empty());
                assert(outcome.put + after.rest() =~= stream.rest());
            } else {
                let n = part_len(first.bytes(), room) as int;
                assert(first.bytes() =~= first.bytes().take(n) + first.bytes().skip(n));
                assert(outcome.put + after.rest() =~= stream.rest());
            }
        } else {
            assert(all_bytes(stream.to_come) =~= Seq::<u8>::empty());
            assert(outcome.put + after.rest() =~= stream.rest());
        }
    } else {
        let n = part_len(stream.kept, room) as int;
        assert(stream.kept =~= stream.kept.take(n) + stream.kept.skip(n));
        assert(outcome.put + after.rest() =~= stream.rest());
    }
}

/// Reading a stream with rooms of any sizes, each chosen freely, gives the
/// caller the bytes of the messages in their order, with nothing left out,
/// added or moved: what it was given so far, followed by what is still to be
/// read, is the stream.
pub proof fn lemma_reads_reconstruct_stream(stream: ByteStream, rooms: Seq<nat>)
    ensures
        stream.read_out(rooms) + stream.after_reads(rooms).rest() == stream.rest(),
    decreases rooms.len(),
{
    if rooms.len() == 0 {
        assert(stream.read_out(rooms) + stream.after_reads(rooms).rest() =~= stream.rest());
    } else {
        lemma_reads_reconstruct_stream(stream, rooms.drop_last());
        let before = stream.after_reads(rooms.drop_last());
        lemma_read_gives_next_bytes(before, rooms.last());
        assert(stream.read_out(rooms) + stream.after_reads(rooms).rest() =~= stream.read_out(
            rooms.drop_last(),
        ) + (before.outcome(rooms.last()).put + before.after_read(rooms.last()).rest()));
    }
}

} // verus!
