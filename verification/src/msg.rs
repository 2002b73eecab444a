//! WebSocket messages.

use vstd::prelude::*;
use vstd::slice::slice_to_vec;
use vstd::std_specs::convert::FromSpecImpl;
use vstd::string::StrSliceExecFns;
use vstd::string::StringExecFns;
use vstd::utf8::{decode_utf8, encode_utf8, valid_utf8};

use crate::util::{Error, ErrorView};

verus! {

/// A WebSocket message.
#[derive(Debug, PartialEq, Eq)]
pub enum Msg {
    /// Text message.
    Text(String),
    /// Binary message.
    Binary(Vec<u8>),
}

/// What a message holds: the characters of a text, or the bytes of a binary
/// message.
pub enum MsgView {
    Text(Seq<char>),
    Binary(Seq<u8>),
}

impl MsgView {
    /// The payload as bytes: a text in UTF-8, a binary message as it is.
    pub open spec fn bytes(self) -> Seq<u8> {
        match self {
            MsgView::Text(text) => encode_utf8(text),
            MsgView::Binary(bytes) => bytes,
        }
    }

    /// The length of the payload in bytes.
    pub open spec fn len(self) -> nat {
        self.bytes().len()
    }

    /// The payload as text: a text as it is, a binary message decoded as
    /// UTF-8 with a replacement character for what is not.
    pub open spec fn text(self) -> Seq<char> {
        match self {
            MsgView::Text(text) => text,
            MsgView::Binary(bytes) => text_of_bytes(bytes),
        }
    }
}

impl View for Msg {
    type V = MsgView;

    open spec fn view(&self) -> MsgView {
        match *self {
            Msg::Text(text) => MsgView::Text(text@),
            Msg::Binary(bytes) => MsgView::Binary(bytes@),
        }
    }
}

/// What a receiver has for its caller.
#[derive(Debug)]
pub enum Delivery {
    /// Nothing yet.
    Pending,
    /// The next message.
    Message(Msg),
    /// The end of the stream: the connection was closed cleanly.
    End,
    /// A failure: the connection broke down.
    Failed(Error),
}

/// What a receiver has for its caller, with the message and the error by
/// their views.
pub enum DeliveryView {
    Pending,
    Message(MsgView),
    End,
    Failed(ErrorView),
}

impl View for Delivery {
    type V = DeliveryView;

    open spec fn view(&self) -> DeliveryView {
        match *self {
            Delivery::Pending => DeliveryView::Pending,
            Delivery::Message(msg) => DeliveryView::Message(msg@),
            Delivery::End => DeliveryView::End,
            Delivery::Failed(e) => DeliveryView::Failed(e@),
        }
    }
}

/// The number of bytes in all of the given messages together.
pub open spec fn total_bytes(msgs: Seq<MsgView>) -> nat
    decreases msgs.len(),
{
    if msgs.len() == 0 {
        0
    } else {
        total_bytes(msgs.drop_last()) + msgs.last().len()
    }
}

/// The bytes of all of the given messages, one after the other.
pub open spec fn all_bytes(msgs: Seq<MsgView>) -> Seq<u8>
    decreases msgs.len(),
{
    if msgs.len() == 0 {
        Seq::empty()
    } else {
        all_bytes(msgs.drop_last()) + msgs.last().bytes()
    }
}

/// The bytes of two runs of messages add up.
pub proof fn lemma_total_bytes_concat(a: Seq<MsgView>, b: Seq<MsgView>)
    ensures
        total_bytes(a + b) == total_bytes(a) + total_bytes(b),
    decreases b.len(),
{
    if b.len() == 0 {
        assert(a + b =~= a);
    } else {
        lemma_total_bytes_concat(a, b.drop_last());
        assert((a + b).drop_last() =~= a + b.drop_last());
        assert((a + b).last() == b.last());
    }
}

/// The bytes of two runs of messages follow one another.
pub proof fn lemma_all_bytes_concat(a: Seq<MsgView>, b: Seq<MsgView>)
    ensures
        all_bytes(a + b) == all_bytes(a) + all_bytes(b),
    decreases b.len(),
{
    if b.len() == 0 {
        assert(a + b =~= a);
        assert(all_bytes(a) + all_bytes(b) =~= all_bytes(a));
    } else {
        lemma_all_bytes_concat(a, b.drop_last());
        assert((a + b).drop_last() =~= a + b.drop_last());
        assert((a + b).last() == b.last());
        assert(all_bytes(a + b) =~= all_bytes(a) + all_bytes(b));
    }
}

/// The bytes of a single message.
pub proof fn lemma_total_bytes_single(msg: MsgView)
    ensures
        total_bytes(seq![msg]) == msg.len(),
        all_bytes(seq![msg]) == msg.bytes(),
{
    let one = seq![msg];
    assert(one.drop_last() =~= Seq::<MsgView>::empty());
    assert(one.last() == msg);
    assert(total_bytes(one.drop_last()) == 0);
    assert(all_bytes(one.drop_last()) =~= Seq::<u8>::empty());
    assert(all_bytes(one) =~= msg.bytes());
}

/// The text that `String::from_utf8_lossy` reads from the given bytes.
pub uninterp spec fn utf8_lossy(bytes: Seq<u8>) -> Seq<char>;

/// `String::from_utf8_lossy`, with the result as an owned string: the bytes
/// decoded as UTF-8, with the replacement character in place of each
/// sequence that is not valid. Valid UTF-8 is decoded as it is.
#[verifier::external_body]
fn lossy_text(bytes: &[u8]) -> (text: String)
    ensures
        text@ == utf8_lossy(bytes@),
        valid_utf8(bytes@) ==> text@ == decode_utf8(bytes@),
{
    String::from_utf8_lossy(bytes).into_owned()
}

/// The text that is read from the given bytes: what they encode where they
/// are valid UTF-8, else what a lossy reading gives.
pub open spec fn text_of_bytes(bytes: Seq<u8>) -> Seq<char> {
    if valid_utf8(bytes) {
        decode_utf8(bytes)
    } else {
        utf8_lossy(bytes)
    }
}

impl Clone for Msg {
    fn clone(&self) -> (copy: Self)
        ensures
            copy@ == self@,
    {
        match self {
            Msg::Text(text) => Msg::Text(text.clone()),
            Msg::Binary(bytes) => Msg::Binary(bytes.clone()),
        }
    }
}

impl Msg {
    /// The text message with the given text.
    pub fn text(text: &str) -> (msg: Msg)
        ensures
            msg@ == MsgView::Text(text@),
    {
        Msg::Text(String::from_str(text))
    }

    /// The binary message with the given bytes.
    pub fn binary(bytes: &[u8]) -> (msg: Msg)
        ensures
            msg@ == MsgView::Binary(bytes@),
    {
        Msg::Binary(slice_to_vec(bytes))
    }

    /// Whether this is a text message.
    pub fn is_text(&self) -> (b: bool)
        ensures
            b == (self@ is Text),
    {
        match self {
            Msg::Text(_) => true,
            Msg::Binary(_) => false,
        }
    }

    /// Whether this is a binary message.
    pub fn is_binary(&self) -> (b: bool)
        ensures
            b == (self@ is Binary),
    {
        match self {
            Msg::Text(_) => false,
            Msg::Binary(_) => true,
        }
    }

    /// Convert to binary message.
    pub fn to_vec(self) -> (bytes: Vec<u8>)
        ensures
            bytes@ == self@.bytes(),
    {
        match self {
            Msg::Text(text) => text.as_str().as_bytes_vec(),
            Msg::Binary(vec) => vec,
        }
    }

    /// The payload as bytes.
    pub fn as_bytes(&self) -> (bytes: &[u8])
        ensures
            bytes@ == self@.bytes(),
    {
        match self {
            Msg::Text(text) => text.as_str().as_bytes(),
            Msg::Binary(vec) => vec.as_slice(),
        }
    }

    /// Length of message in bytes.
    pub fn len(&self) -> (n: usize)
        ensures
            n == self@.len(),
    {
        match self {
            Msg::Text(text) => text.as_str().as_bytes().len(),
            Msg::Binary(vec) => vec.len(),
        }
    }

    /// Whether the length of this message is zero.
    pub fn is_empty(&self) -> (b: bool)
        ensures
            b == (self@.len() == 0),
    {
        self.len() == 0
    }

    /// The message as text. A binary message is decoded as UTF-8, with the
    /// replacement character in place of what is not valid.
    pub fn to_string(&self) -> (text: String)
        ensures
            text@ == self@.text(),
    {
        match self {
            Msg::Text(text) => text.clone(),
            Msg::Binary(binary) => lossy_text(binary.as_slice()),
        }
    }
}

impl From<String> for Msg {
    fn from(text: String) -> (msg: Msg) {
        Msg::Text(text)
    }
}

impl FromSpecImpl<String> for Msg {
    open spec fn obeys_from_spec() -> bool {
        true
    }

    open spec fn from_spec(text: String) -> Msg {
        Msg::Text(text)
    }
}

impl From<Vec<u8>> for Msg {
    fn from(bytes: Vec<u8>) -> (msg: Msg) {
        Msg::Binary(bytes)
    }
}

impl FromSpecImpl<Vec<u8>> for Msg {
    open spec fn obeys_from_spec() -> bool {
        true
    }

    open spec fn from_spec(bytes: Vec<u8>) -> Msg {
        Msg::Binary(bytes)
    }
}

/// The bytes of a text message are valid UTF-8. A text message and the
/// binary message of its bytes read as the same text, and have the same
/// length.
pub proof fn lemma_text_survives_as_bytes(text: Seq<char>)
    ensures
        valid_utf8(MsgView::Text(text).bytes()),
        MsgView::Binary(MsgView::Text(text).bytes()).text() == text,
        MsgView::Binary(MsgView::Text(text).bytes()).len() == MsgView::Text(text).len(),
{
    broadcast use vstd::utf8::encode_utf8_valid_utf8, vstd::utf8::encode_utf8_decode_utf8;

}

} // verus!
