//! The identity of a message and its sealed form, the message id.
//!
//! A topic message is identified by its topic, so that a later message on the
//! same topic takes the place of the earlier one. Any other message is
//! identified by the millisecond at which it was made, which orders the
//! messages of one channel.

use vstd::prelude::*;
use vstd::utf8::{decode_utf8, encode_utf8, valid_utf8};
use crate::codec::{first_opening, opens_from, url_safe, TokenCodec, MAX_CLOCK_SKEW};
use crate::error::ApiErrorKind;

verus! {

/// The tag that begins the plaintext of a topic message's identity.
pub const TOPIC_TAG: u8 = 1;

/// The tag that begins the plaintext of any other message's identity.
pub const STANDARD_TAG: u8 = 2;

/// The most bytes that a topic may take in UTF-8, which bounds a message id's
/// length.
pub const MAX_TOPIC_LEN: usize = 32;

/// The bytes before the topic or the timestamp: the tag and two identifiers.
pub const PREFIX_LEN: usize = 33;

/// The most characters that a message id has: the length of the token that
/// seals an identity with a topic of the greatest length.
pub const MAX_MESSAGE_ID_LEN: usize = 184;

/// What identifies a message: whose it is, and its topic or the millisecond of
/// its making.
#[derive(Clone, Debug, PartialEq, Eq)]
pub enum MessageId {
    WithTopic { uaid: [u8; 16], channel_id: [u8; 16], topic: String },
    WithoutTopic { uaid: [u8; 16], channel_id: [u8; 16], timestamp: u64 },
}

/// A message's identity as mathematical values.
pub ghost enum MessageIdView {
    WithTopic { uaid: Seq<u8>, channel_id: Seq<u8>, topic: Seq<char> },
    WithoutTopic { uaid: Seq<u8>, channel_id: Seq<u8>, timestamp: u64 },
}

impl View for MessageId {
    type V = MessageIdView;

    open spec fn view(&self) -> MessageIdView {
        match self {
            MessageId::WithTopic { uaid, channel_id, topic } => MessageIdView::WithTopic {
                uaid: uaid@,
                channel_id: channel_id@,
                topic: topic@,
            },
            MessageId::WithoutTopic { uaid, channel_id, timestamp } => MessageIdView::WithoutTopic {
                uaid: uaid@,
                channel_id: channel_id@,
                timestamp: *timestamp,
            },
        }
    }
}

/// The eight bytes of `x`, the most significant first.
pub open spec fn be_bytes(x: u64) -> Seq<u8> {
    seq![
        (x >> 56) as u8,
        ((x >> 48) & 0xff) as u8,
        ((x >> 40) & 0xff) as u8,
        ((x >> 32) & 0xff) as u8,
        ((x >> 24) & 0xff) as u8,
        ((x >> 16) & 0xff) as u8,
        ((x >> 8) & 0xff) as u8,
        (x & 0xff) as u8,
    ]
}

/// The number whose eight bytes, the most significant first, are `bytes`.
pub open spec fn from_be_bytes(bytes: Seq<u8>) -> u64 {
    (bytes[0] as u64) << 56 | (bytes[1] as u64) << 48 | (bytes[2] as u64) << 40 | (bytes[3] as u64)
        << 32 | (bytes[4] as u64) << 24 | (bytes[5] as u64) << 16 | (bytes[6] as u64) << 8 | (
    bytes[7] as u64)
}

impl MessageIdView {
    /// Whether both identifiers have their sixteen bytes.
    pub open spec fn well_formed(self) -> bool {
        match self {
            MessageIdView::WithTopic { uaid, channel_id, .. } => uaid.len() == 16
                && channel_id.len() == 16,
            MessageIdView::WithoutTopic { uaid, channel_id, .. } => uaid.len() == 16
                && channel_id.len() == 16,
        }
    }

    /// Whether the identity can be sealed: a topic must fit the bound.
    pub open spec fn valid(self) -> bool {
        match self {
            MessageIdView::WithTopic { topic, .. } => encode_utf8(topic).len() <= MAX_TOPIC_LEN,
            MessageIdView::WithoutTopic { .. } => true,
        }
    }

    /// The plaintext of the identity: the tag, the user's identifier, the
    /// channel's identifier, then the topic in UTF-8 or the timestamp in eight
    /// bytes, the most significant first.
    pub open spec fn encoding(self) -> Seq<u8> {
        match self {
            MessageIdView::WithTopic { uaid, channel_id, topic } => seq![TOPIC_TAG] + uaid
                + channel_id + encode_utf8(topic),
            MessageIdView::WithoutTopic { uaid, channel_id, timestamp } => seq![STANDARD_TAG]
                + uaid + channel_id + be_bytes(timestamp),
        }
    }
}

/// The identity that `bytes` are the plaintext of, if any. There is none
/// where the tag is unknown, where an identifier is cut short, where a topic
/// is not UTF-8 or is longer than the bound, or where a timestamp has not
/// exactly eight bytes.
pub open spec fn decoding(bytes: Seq<u8>) -> Option<MessageIdView> {
    if bytes.len() < PREFIX_LEN {
        None
    } else if bytes[0] == TOPIC_TAG {
        let rest = bytes.skip(PREFIX_LEN as int);
        if rest.len() <= MAX_TOPIC_LEN && valid_utf8(rest) {
            Some(
                MessageIdView::WithTopic {
                    uaid: bytes.subrange(1, 17),
                    channel_id: bytes.subrange(17, 33),
                    topic: decode_utf8(rest),
                },
            )
        } else {
            None
        }
    } else if bytes[0] == STANDARD_TAG {
        if bytes.len() == PREFIX_LEN + 8 {
            Some(
                MessageIdView::WithoutTopic {
                    uaid: bytes.subrange(1, 17),
                    channel_id: bytes.subrange(17, 33),
                    timestamp: from_be_bytes(bytes.skip(PREFIX_LEN as int)),
                },
            )
        } else {
            None
        }
    } else {
        None
    }
}

/// What a token identifies under `keys` at the time `now`: a token that no
/// key opens is invalid; one that opens to bytes that are no identity is an
/// invalid message id.
pub open spec fn identified(keys: Seq<Seq<char>>, token: Seq<char>, now: u64) -> Result<
    MessageIdView,
    ApiErrorKind,
> {
    match first_opening(keys, token, now) {
        None => Err(ApiErrorKind::InvalidToken),
        Some(plaintext) => match decoding(plaintext) {
            Some(id) => Ok(id),
            None => Err(ApiErrorKind::InvalidMessageId),
        },
    }
}

/// `String::from_utf8` of std: the string that the bytes spell in UTF-8, and
/// none where they are not UTF-8.
#[verifier::external_body]
fn string_from_utf8(bytes: Vec<u8>) -> (text: Option<String>)
    ensures
        text is Some <==> valid_utf8(bytes@),
        text matches Some(s) ==> s@ == decode_utf8(bytes@),
{
    String::from_utf8(bytes).ok()
}

proof fn lemma_be_bytes_round_trip(x: u64)
    ensures
        from_be_bytes(be_bytes(x)) == x,
{
    let b0 = (x >> 56) as u8;
    let b1 = ((x >> 48) & 0xff) as u8;
    let b2 = ((x >> 40) & 0xff) as u8;
    let b3 = ((x >> 32) & 0xff) as u8;
    let b4 = ((x >> 24) & 0xff) as u8;
    let b5 = ((x >> 16) & 0xff) as u8;
    let b6 = ((x >> 8) & 0xff) as u8;
    let b7 = (x & 0xff) as u8;
    assert((b0 as u64) << 56 | (b1 as u64) << 48 | (b2 as u64) << 40 | (b3 as u64) << 32 | (
    b4 as u64) << 24 | (b5 as u64) << 16 | (b6 as u64) << 8 | (b7 as u64) == x) by (bit_vector)
        requires
            b0 == (x >> 56) as u8,
            b1 == ((x >> 48) & 0xff) as u8,
            b2 == ((x >> 40) & 0xff) as u8,
            b3 == ((x >> 32) & 0xff) as u8,
            b4 == ((x >> 24) & 0xff) as u8,
            b5 == ((x >> 16) & 0xff) as u8,
            b6 == ((x >> 8) & 0xff) as u8,
            b7 == (x & 0xff) as u8,
    ;
}

proof fn lemma_from_be_bytes_round_trip(bytes: Seq<u8>)
    requires
        bytes.len() == 8,
    ensures
        be_bytes(from_be_bytes(bytes)) == bytes,
{
    let b0 = bytes[0];
    let b1 = bytes[1];
    let b2 = bytes[2];
    let b3 = bytes[3];
    let b4 = bytes[4];
    let b5 = bytes[5];
    let b6 = bytes[6];
    let b7 = bytes[7];
    let x = from_be_bytes(bytes);
    assert((x >> 56) as u8 == b0 && ((x >> 48) & 0xff) as u8 == b1 && ((x >> 40) & 0xff) as u8 == b2
        && ((x >> 32) & 0xff) as u8 == b3 && ((x >> 24) & 0xff) as u8 == b4 && ((x >> 16)
        & 0xff) as u8 == b5 && ((x >> 8) & 0xff) as u8 == b6 && (x & 0xff) as u8 == b7)
        by (bit_vector)
        requires
            x == (b0 as u64) << 56 | (b1 as u64) << 48 | (b2 as u64) << 40 | (b3 as u64) << 32 | (
            b4 as u64) << 24 | (b5 as u64) << 16 | (b6 as u64) << 8 | (b7 as u64),
    ;
    assert(be_bytes(x) =~= bytes);
}

/// Appends the sixteen bytes of an identifier.
fn push_id(out: &mut Vec<u8>, id: &[u8; 16])
    ensures
        final(out)@ == old(out)@ + id@,
{
    let mut i: usize = 0;
    while i < 16
        invariant
            i <= 16,
            out@ == old(out)@ + id@.subrange(0, i as int),
        decreases 16 - i,
    {
        out.push(id[i]);
        i += 1;
    }
}

/// The sixteen bytes of `bytes` from `at` on, as an identifier.
fn read_id(bytes: &[u8], at: usize) -> (id: [u8; 16])
    requires
        at + 16 <= bytes.len(),
    ensures
        id@ == bytes@.subrange(at as int, at + 16),
{
    let mut id = [0u8; 16];
    let mut i: usize = 0;
    while i < 16
        invariant
            i <= 16,
            at + 16 <= bytes.len(),
            forall|j: int| 0 <= j < i ==> id@[j] == bytes@[at + j],
        decreases 16 - i,
    {
        id[i] = bytes[at + i];
        i += 1;
    }
    id
}

/// The bytes of `bytes` from `at` on.
fn tail(bytes: &[u8], at: usize) -> (rest: Vec<u8>)
    requires
        at <= bytes@.len(),
    ensures
        rest@ == bytes@.skip(at as int),
{
    let mut rest: Vec<u8> = Vec::new();
    let mut i: usize = at;
    while i < bytes.len()
        invariant
            at <= i <= bytes@.len(),
            rest@ == bytes@.subrange(at as int, i as int),
        decreases bytes@.len() - i,
    {
        rest.push(bytes[i]);
        assert(bytes@.subrange(at as int, i + 1) == bytes@.subrange(at as int, i as int).push(
            bytes@[i as int],
        ));
        i += 1;
    }
    rest
}

impl MessageId {
    /// Whether the identity can be sealed.
    pub fn is_valid(&self) -> (valid: bool)
        ensures
            valid == self@.valid(),
    {
        match self {
            MessageId::WithTopic { topic, .. } => topic.as_str().as_bytes().len() <= MAX_TOPIC_LEN,
            MessageId::WithoutTopic { .. } => true,
        }
    }

    /// The plaintext of the identity. An identity whose topic is longer than
    /// the bound has none.
    pub fn encode(&self) -> (bytes: Result<Vec<u8>, ApiErrorKind>)
        ensures
            self@.valid() ==> (bytes matches Ok(b) && b@ == self@.encoding()),
            !self@.valid() ==> bytes == Err::<Vec<u8>, ApiErrorKind>(ApiErrorKind::InvalidMessageId),
    {
        if !self.is_valid() {
            return Err(ApiErrorKind::InvalidMessageId);
        }
        let mut out: Vec<u8> = Vec::new();
        match self {
            MessageId::WithTopic { uaid, channel_id, topic } => {
                out.push(TOPIC_TAG);
                push_id(&mut out, uaid);
                push_id(&mut out, channel_id);
                let text = topic.as_str().as_bytes();
                let mut i: usize = 0;
                while i < text.len()
                    invariant
                        i <= text@.len(),
                        text@ == encode_utf8(topic@),
                        out@ == seq![TOPIC_TAG] + uaid@ + channel_id@ + text@.subrange(0, i as int),
                    decreases text@.len() - i,
                {
                    out.push(text[i]);
                    assert(text@.subrange(0, i + 1) == text@.subrange(0, i as int).push(
                        text@[i as int],
                    ));
                    i += 1;
                }
            },
            MessageId::WithoutTopic { uaid, channel_id, timestamp } => {
                let x: u64 = *timestamp;
                out.push(STANDARD_TAG);
                push_id(&mut out, uaid);
                push_id(&mut out, channel_id);
                out.push((x >> 56) as u8);
                out.push(((x >> 48) & 0xff) as u8);
                out.push(((x >> 40) & 0xff) as u8);
                out.push(((x >> 32) & 0xff) as u8);
                out.push(((x >> 24) & 0xff) as u8);
                out.push(((x >> 16) & 0xff) as u8);
                out.push(((x >> 8) & 0xff) as u8);
                out.push((x & 0xff) as u8);
            },
        }
        Ok(out)
    }

    /// Reads an identity from its plaintext.
    pub fn decode(bytes: &[u8]) -> (id: Result<MessageId, ApiErrorKind>)
        ensures
            match decoding(bytes@) {
                Some(v) => id matches Ok(m) && m@ == v,
                None => id == Err::<MessageId, ApiErrorKind>(ApiErrorKind::InvalidMessageId),
            },
    {
        if bytes.len() < PREFIX_LEN {
            return Err(ApiErrorKind::InvalidMessageId);
        }
        let tag: u8 = bytes[0];
        if tag == TOPIC_TAG {
            if bytes.len() - PREFIX_LEN > MAX_TOPIC_LEN {
                return Err(ApiErrorKind::InvalidMessageId);
            }
            let uaid = read_id(bytes, 1);
            let channel_id = read_id(bytes, 17);
            match string_from_utf8(tail(bytes, PREFIX_LEN)) {
                Some(topic) => Ok(MessageId::WithTopic { uaid, channel_id, topic }),
                None => Err(ApiErrorKind::InvalidMessageId),
            }
        } else if tag == STANDARD_TAG {
            if bytes.len() != PREFIX_LEN + 8 {
                return Err(ApiErrorKind::InvalidMessageId);
            }
            let uaid = read_id(bytes, 1);
            let channel_id = read_id(bytes, 17);
            let timestamp: u64 = (bytes[33] as u64) << 56 | (bytes[34] as u64) << 48 | (
            bytes[35] as u64) << 40 | (bytes[36] as u64) << 32 | (bytes[37] as u64) << 24 | (
            bytes[38] as u64) << 16 | (bytes[39] as u64) << 8 | (bytes[40] as u64);
            Ok(MessageId::WithoutTopic { uaid, channel_id, timestamp })
        } else {
            Err(ApiErrorKind::InvalidMessageId)
        }
    }

    /// Seals the identity under the codec's active key, dated `now`: the
    /// message id. The seal takes a fresh random value, so one identity has
    /// many message ids; every one of them is safe in a URL, no longer than
    /// the bound, and opens to the plaintext of this identity.
    pub fn encrypt(&self, codec: &TokenCodec, now: u64) -> (token: Result<String, ApiErrorKind>)
        ensures
            self@.valid() ==> (token matches Ok(t) && url_safe(t@) && t@.len()
                <= MAX_MESSAGE_ID_LEN && codec@.len() > 0 && opens_from(
                codec@[0],
                t@,
                self@.encoding(),
                now,
            )),
            !self@.valid() ==> token == Err::<String, ApiErrorKind>(ApiErrorKind::InvalidMessageId),
    {
        match self.encode() {
            Ok(plaintext) => Ok(codec.encrypt(plaintext.as_slice(), now)),
            Err(e) => Err(e),
        }
    }

    /// Opens a message id at the time `now` and reads the identity in it.
    pub fn decrypt(codec: &TokenCodec, token: &str, now: u64) -> (id: Result<MessageId, ApiErrorKind>)
        requires
            now + MAX_CLOCK_SKEW <= u64::MAX,
        ensures
            match identified(codec@, token@, now) {
                Ok(v) => id matches Ok(m) && m@ == v,
                Err(e) => id == Err::<MessageId, ApiErrorKind>(e),
            },
    {
        match codec.decrypt(token, now) {
            Ok(plaintext) => MessageId::decode(plaintext.as_slice()),
            Err(e) => Err(e),
        }
    }
}

/// Reading the plaintext of an identity gives the identity back: the same
/// user, the same channel, and the same topic or timestamp.
pub proof fn lemma_decode_encode(id: MessageIdView)
    requires
        id.well_formed(),
        id.valid(),
    ensures
        decoding(id.encoding()) == Some(id),
{
    let bytes = id.encoding();
    match id {
        MessageIdView::WithTopic { uaid, channel_id, topic } => {
            vstd::utf8::encode_utf8_valid_utf8(topic);
            vstd::utf8::encode_utf8_decode_utf8(topic);
            assert(bytes.skip(PREFIX_LEN as int) == encode_utf8(topic));
            assert(bytes.subrange(1, 17) == uaid);
            assert(bytes.subrange(17, 33) == channel_id);
        },
        MessageIdView::WithoutTopic { uaid, channel_id, timestamp } => {
            lemma_be_bytes_round_trip(timestamp);
            assert(bytes.subrange(1, 17) == uaid);
            assert(bytes.subrange(17, 33) == channel_id);
        },
    }
}

/// Only the plaintext of an identity reads as that identity: bytes that read
/// as an identity are its plaintext, byte for byte, and the identity is one
/// that can be sealed.
pub proof fn lemma_encode_decode(bytes: Seq<u8>, id: MessageIdView)
    requires
        decoding(bytes) == Some(id),
    ensures
        id.well_formed(),
        id.valid(),
        id.encoding() == bytes,
{
    let rest = bytes.skip(PREFIX_LEN as int);
    match id {
        MessageIdView::WithTopic { uaid, channel_id, topic } => {
            vstd::utf8::decode_utf8_encode_utf8(rest);
            assert(id.encoding() =~= bytes);
        },
        MessageIdView::WithoutTopic { uaid, channel_id, timestamp } => {
            lemma_from_be_bytes_round_trip(rest);
            assert(id.encoding() =~= bytes);
        },
    }
}

/// Two identities with the same plaintext are the same identity.
pub proof fn lemma_encoding_injective(a: MessageIdView, b: MessageIdView)
    requires
        a.well_formed(),
        a.valid(),
        b.well_formed(),
        b.valid(),
        a.encoding() == b.encoding(),
    ensures
        a == b,
{
    lemma_decode_encode(a);
    lemma_decode_encode(b);
}

/// A message id identifies what was sealed in it: a token that opens to the
/// plaintext of `id` under the active key from `sealed_at` on identifies `id`,
/// at every time that is not more than the allowed skew before `sealed_at`.
pub proof fn lemma_round_trip(
    keys: Seq<Seq<char>>,
    id: MessageIdView,
    token: Seq<char>,
    sealed_at: u64,
    now: u64,
)
    requires
        id.well_formed(),
        id.valid(),
        keys.len() > 0,
        opens_from(keys[0], token, id.encoding(), sealed_at),
        sealed_at <= now + MAX_CLOCK_SKEW <= u64::MAX,
    ensures
        identified(keys, token, now) == Ok::<MessageIdView, ApiErrorKind>(id),
{
    crate::codec::lemma_sealed_opens(keys, token, id.encoding(), sealed_at, now);
    lemma_decode_encode(id);
}

/// Two message ids made for the same identity, whenever and however they
/// differ as strings, identify the same user, channel and topic or timestamp.
pub proof fn lemma_same_identity(
    keys: Seq<Seq<char>>,
    id: MessageIdView,
    first: Seq<char>,
    first_sealed_at: u64,
    second: Seq<char>,
    second_sealed_at: u64,
    now: u64,
)
    requires
        id.well_formed(),
        id.valid(),
        keys.len() > 0,
        opens_from(keys[0], first, id.encoding(), first_sealed_at),
        opens_from(keys[0], second, id.encoding(), second_sealed_at),
        first_sealed_at <= now + MAX_CLOCK_SKEW <= u64::MAX,
        second_sealed_at <= now + MAX_CLOCK_SKEW,
    ensures
        identified(keys, first, now) == Ok::<MessageIdView, ApiErrorKind>(id),
        identified(keys, second, now) == identified(keys, first, now),
{
    lemma_round_trip(keys, id, first, first_sealed_at, now);
    lemma_round_trip(keys, id, second, second_sealed_at, now);
}

} // verus!
