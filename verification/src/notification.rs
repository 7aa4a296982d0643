//! The record of one notification, from its making to its two views: the one
//! that is stored and the one that is delivered to the user agent.

use vstd::prelude::*;
use vstd::string::StringExecFns;
use crate::codec::{opens_from, url_safe, TokenCodec, MAX_CLOCK_SKEW};
use crate::error::ApiErrorKind;
use crate::keyed::KeyedList;
use crate::message_id::{identified, MessageId, MessageIdView, MAX_MESSAGE_ID_LEN};
use crate::util::{b64_encode_url, encoded_len, url_encoded, InsertOpt};

verus! {

/// The subscription that a notification is for.
#[derive(Clone, Copy, Debug, PartialEq, Eq)]
pub struct Subscription {
    /// The user agent's identifier.
    pub uaid: [u8; 16],
    /// The channel's identifier.
    pub channel_id: [u8; 16],
}

/// What the request's headers say of a notification.
#[derive(Clone, Debug, PartialEq, Eq)]
pub struct NotificationHeaders {
    /// The time to live, in seconds.
    pub ttl: u64,
    /// The topic, where the notification takes the place of an earlier one.
    pub topic: Option<String>,
    /// The content encoding of the body.
    pub encoding: Option<String>,
    pub encryption: Option<String>,
    pub encryption_key: Option<String>,
    pub crypto_key: Option<String>,
}

/// One notification. Everything in it is fixed when it is made.
#[derive(Clone, Debug, PartialEq, Eq)]
pub struct Notification {
    /// The message id: the identity of the notification, sealed.
    pub message_id: String,
    /// The subscription information block.
    pub subscription: Subscription,
    /// The headers, with the encryption headers among them.
    pub headers: NotificationHeaders,
    /// When the notification was made, in seconds since the epoch.
    pub timestamp: u64,
    /// When the notification was made, in milliseconds since the epoch.
    pub sort_key_timestamp: u64,
    /// The body in URL-safe base64, where there is one.
    pub data: Option<String>,
}

/// A notification as it is stored.
#[derive(Debug)]
pub struct StoredNotification {
    pub channel_id: [u8; 16],
    pub version: String,
    pub ttl: u64,
    pub topic: Option<String>,
    pub timestamp: u64,
    pub data: Option<String>,
    pub sortkey_timestamp: Option<u64>,
    /// The encryption headers, where there is any.
    pub headers: Option<KeyedList<String>>,
}

/// A value in the delivery view.
#[derive(Debug)]
pub enum DeliveryValue {
    Null,
    Number(u64),
    Text(String),
    Table(KeyedList<String>),
}

/// A value in the delivery view, as a mathematical value.
pub ghost enum DeliveryValueView {
    Null,
    Number(u64),
    Text(Seq<char>),
    Table(Map<Seq<char>, Seq<char>>),
}

/// A map of strings with each value as its sequence of characters.
pub open spec fn text_views(map: Map<Seq<char>, String>) -> Map<Seq<char>, Seq<char>> {
    map.map_values(|text: String| text@)
}

impl View for DeliveryValue {
    type V = DeliveryValueView;

    open spec fn view(&self) -> DeliveryValueView {
        match self {
            DeliveryValue::Null => DeliveryValueView::Null,
            DeliveryValue::Number(n) => DeliveryValueView::Number(*n),
            DeliveryValue::Text(text) => DeliveryValueView::Text(text@),
            DeliveryValue::Table(table) => DeliveryValueView::Table(text_views(table@)),
        }
    }
}

/// A delivery view with each value as a mathematical value.
pub open spec fn value_views(map: Map<Seq<char>, DeliveryValue>) -> Map<
    Seq<char>,
    DeliveryValueView,
> {
    map.map_values(|value: DeliveryValue| value@)
}

/// The lower-case hexadecimal digit of a number below sixteen.
pub open spec fn hex_digit(nibble: int) -> char {
    if nibble < 10 {
        ('0' as int + nibble) as char
    } else {
        ('a' as int + nibble - 10) as char
    }
}

/// The bytes in lower-case hexadecimal digits, two for each byte.
pub open spec fn hex(bytes: Seq<u8>) -> Seq<char>
    decreases bytes.len(),
{
    if bytes.len() == 0 {
        Seq::empty()
    } else {
        hex(bytes.drop_last()).push(hex_digit(bytes.last() as int / 16)).push(
            hex_digit(bytes.last() as int % 16),
        )
    }
}

/// The textual form of an identifier: its sixteen bytes in hexadecimal
/// digits, in groups of four, two, two, two and six bytes with a hyphen
/// between them.
pub open spec fn hyphenated_text(id: Seq<u8>) -> Seq<char> {
    hex(id.subrange(0, 4)).push('-') + hex(id.subrange(4, 6)).push('-') + hex(
        id.subrange(6, 8),
    ).push('-') + hex(id.subrange(8, 10)).push('-') + hex(id.subrange(10, 16))
}

/// `Uuid::hyphenated` of uuid, as text: the lower-case hyphenated form of the
/// identifier made of the sixteen bytes.
#[verifier::external_body]
fn hyphenated(id: &[u8; 16]) -> (text: String)
    ensures
        text@ == hyphenated_text(id@),
{
    uuid::Uuid::from_bytes(*id).hyphenated().to_string()
}

/// The identity of a notification for `subscription`: by its topic where it
/// has one, by the millisecond of its making where it has none.
pub open spec fn identity(
    subscription: Subscription,
    topic: Option<String>,
    sort_key_timestamp: u64,
) -> MessageIdView {
    match topic {
        Some(t) => MessageIdView::WithTopic {
            uaid: subscription.uaid@,
            channel_id: subscription.channel_id@,
            topic: t@,
        },
        None => MessageIdView::WithoutTopic {
            uaid: subscription.uaid@,
            channel_id: subscription.channel_id@,
            timestamp: sort_key_timestamp,
        },
    }
}

/// The stored form of a request body: none for an empty body, else its
/// URL-safe base64 form.
pub open spec fn payload(raw_body: Seq<u8>) -> Option<Seq<char>> {
    if raw_body.len() == 0 {
        None
    } else {
        Some(url_encoded(raw_body))
    }
}

/// An optional string as an optional sequence of characters.
pub open spec fn text_view(text: Option<String>) -> Option<Seq<char>> {
    match text {
        Some(t) => Some(t@),
        None => None,
    }
}

/// `map` with `value` at `key`, where there is a value.
pub open spec fn with_opt(map: Map<Seq<char>, String>, key: Seq<char>, value: Option<String>) -> Map<
    Seq<char>,
    String,
> {
    match value {
        Some(v) => map.insert(key, v),
        None => map,
    }
}

impl NotificationHeaders {
    /// The encryption headers that are present, by name.
    pub open spec fn spec_map(&self) -> Map<Seq<char>, String> {
        with_opt(
            with_opt(
                with_opt(
                    with_opt(Map::empty(), "encoding"@, self.encoding),
                    "encryption"@,
                    self.encryption,
                ),
                "encryption_key"@,
                self.encryption_key,
            ),
            "crypto_key"@,
            self.crypto_key,
        )
    }

    /// The encryption headers that are present, by name.
    pub fn to_map(&self) -> (map: KeyedList<String>)
        ensures
            map@ == self.spec_map(),
    {
        let mut map: KeyedList<String> = KeyedList::new();
        map.insert_opt(String::from_str("encoding"), self.encoding.clone());
        map.insert_opt(String::from_str("encryption"), self.encryption.clone());
        map.insert_opt(String::from_str("encryption_key"), self.encryption_key.clone());
        map.insert_opt(String::from_str("crypto_key"), self.crypto_key.clone());
        map
    }
}

impl Notification {
    /// The identity that the message id seals.
    pub open spec fn identity(&self) -> MessageIdView {
        identity(self.subscription, self.headers.topic, self.sort_key_timestamp)
    }

    /// Whether the message id is as `build` makes it under `keys`: safe in a
    /// URL, no longer than the bound, and sealed from the identity under the
    /// active key at the time of making.
    pub open spec fn sealed_under(&self, keys: Seq<Seq<char>>) -> bool {
        &&& keys.len() > 0
        &&& self.identity().valid()
        &&& url_safe(self.message_id@)
        &&& self.message_id@.len() <= MAX_MESSAGE_ID_LEN
        &&& opens_from(keys[0], self.message_id@, self.identity().encoding(), self.timestamp)
    }

    /// The delivery view: the channel, the message id under the name
    /// `version`, the time to live, the topic and the time of making, always;
    /// the body and the encryption headers only where there is a body.
    pub open spec fn delivery(&self) -> Map<Seq<char>, DeliveryValueView> {
        let always = Map::<Seq<char>, DeliveryValueView>::empty().insert(
            "channelID"@,
            DeliveryValueView::Text(hyphenated_text(self.subscription.channel_id@)),
        ).insert("version"@, DeliveryValueView::Text(self.message_id@)).insert(
            "ttl"@,
            DeliveryValueView::Number(self.headers.ttl),
        ).insert(
            "topic"@,
            match self.headers.topic {
                Some(t) => DeliveryValueView::Text(t@),
                None => DeliveryValueView::Null,
            },
        ).insert("timestamp"@, DeliveryValueView::Number(self.timestamp));
        match self.data {
            Some(d) => always.insert("data"@, DeliveryValueView::Text(d@)).insert(
                "headers"@,
                DeliveryValueView::Table(text_views(self.headers.spec_map())),
            ),
            None => always,
        }
    }

    /// Generate a message id suitable for accessing the message: the sealed
    /// identity, which holds the topic for a topic message and the timestamp
    /// for any other.
    fn generate_message_id(
        codec: &TokenCodec,
        uaid: [u8; 16],
        channel_id: [u8; 16],
        topic: Option<&str>,
        timestamp: u64,
        now: u64,
    ) -> (message_id: Result<String, ApiErrorKind>)
        ensures
            ({
                let id = match topic {
                    Some(t) => MessageIdView::WithTopic {
                        uaid: uaid@,
                        channel_id: channel_id@,
                        topic: t@,
                    },
                    None => MessageIdView::WithoutTopic {
                        uaid: uaid@,
                        channel_id: channel_id@,
                        timestamp,
                    },
                };
                &&& id.valid() ==> (message_id matches Ok(token) && url_safe(token@) && token@.len()
                    <= MAX_MESSAGE_ID_LEN && codec@.len() > 0 && opens_from(
                    codec@[0],
                    token@,
                    id.encoding(),
                    now,
                ))
                &&& !id.valid() ==> message_id == Err::<String, ApiErrorKind>(
                    ApiErrorKind::InvalidMessageId,
                )
            }),
    {
        let message_id = if let Some(topic) = topic {
            MessageId::WithTopic { uaid, channel_id, topic: topic.to_owned() }
        } else {
            MessageId::WithoutTopic { uaid, channel_id, timestamp }
        };
        message_id.encrypt(codec, now)
    }

    /// Makes the record of a notification that was submitted at `now_secs`
    /// seconds and `now_millis` milliseconds since the epoch. Both times are
    /// kept as they are. An empty body is kept as no body, any other in
    /// URL-safe base64. The message id seals the identity: the topic where
    /// the headers have one, else the time in milliseconds. A topic that is
    /// longer than the bound is refused.
    pub fn build(
        subscription: Subscription,
        headers: NotificationHeaders,
        raw_body: &Vec<u8>,
        codec: &TokenCodec,
        now_secs: u64,
        now_millis: u64,
    ) -> (record: Result<Notification, ApiErrorKind>)
        requires
            encoded_len(raw_body@.len()) <= usize::MAX,
        ensures
            identity(subscription, headers.topic, now_millis).valid() ==> (record matches Ok(n)
                && n.subscription == subscription && n.headers == headers && n.timestamp
                == now_secs && n.sort_key_timestamp == now_millis && text_view(n.data) == payload(
                raw_body@,
            ) && n.sealed_under(codec@)),
            !identity(subscription, headers.topic, now_millis).valid() ==> record == Err::<
                Notification,
                ApiErrorKind,
            >(ApiErrorKind::InvalidMessageId),
    {
        let data = if raw_body.len() == 0 {
            None
        } else {
            Some(b64_encode_url(raw_body))
        };
        let timestamp = now_secs;
        let sort_key_timestamp = now_millis;
        let topic: Option<&str> = match &headers.topic {
            Some(t) => Some(t.as_str()),
            None => None,
        };
        let generated = Self::generate_message_id(
            codec,
            subscription.uaid,
            subscription.channel_id,
            topic,
            sort_key_timestamp,
            now_secs,
        );
        match generated {
            Ok(message_id) => Ok(
                Notification { message_id, subscription, headers, timestamp, sort_key_timestamp, data },
            ),
            Err(e) => Err(e),
        }
    }

    /// The notification as it is stored: every field but the user, with the
    /// encryption headers only where there is one.
    pub fn into_stored(self) -> (stored: StoredNotification)
        ensures
            stored.channel_id == self.subscription.channel_id,
            stored.version == self.message_id,
            stored.ttl == self.headers.ttl,
            stored.topic == self.headers.topic,
            stored.timestamp == self.timestamp,
            stored.data == self.data,
            stored.sortkey_timestamp == Some(self.sort_key_timestamp),
            match stored.headers {
                Some(map) => map@ == self.headers.spec_map() && map@ != Map::<
                    Seq<char>,
                    String,
                >::empty(),
                None => self.headers.spec_map() == Map::<Seq<char>, String>::empty(),
            },
    {
        let map = self.headers.to_map();
        let headers = if map.is_empty() {
            None
        } else {
            Some(map)
        };
        StoredNotification {
            channel_id: self.subscription.channel_id,
            version: self.message_id,
            ttl: self.headers.ttl,
            topic: self.headers.topic,
            timestamp: self.timestamp,
            data: self.data,
            sortkey_timestamp: Some(self.sort_key_timestamp),
            headers,
        }
    }

    /// Serialize the notification for delivery to the connection server. The
    /// body and the encryption headers are there only where there is a body:
    /// a notification without one must not show headers that the user agent
    /// would try to decrypt against.
    pub fn serialize_for_delivery(&self) -> (map: KeyedList<DeliveryValue>)
        ensures
            value_views(map@) == self.delivery(),
    {
        let mut map: KeyedList<DeliveryValue> = KeyedList::new();
        map.insert(
            String::from_str("channelID"),
            DeliveryValue::Text(hyphenated(&self.subscription.channel_id)),
        );
        map.insert(String::from_str("version"), DeliveryValue::Text(self.message_id.clone()));
        map.insert(String::from_str("ttl"), DeliveryValue::Number(self.headers.ttl));
        let topic = match &self.headers.topic {
            Some(t) => DeliveryValue::Text(t.clone()),
            None => DeliveryValue::Null,
        };
        map.insert(String::from_str("topic"), topic);
        map.insert(String::from_str("timestamp"), DeliveryValue::Number(self.timestamp));
        if let Some(data) = &self.data {
            map.insert(String::from_str("data"), DeliveryValue::Text(data.clone()));
            map.insert(String::from_str("headers"), DeliveryValue::Table(self.headers.to_map()));
        }
        map
    }
}

/// The encryption headers by name: each name is there exactly where its
/// header is, with the header's value; where no header is there, the map is
/// empty.
pub proof fn lemma_headers_map(h: NotificationHeaders)
    ensures
        h.spec_map().contains_key("encoding"@) <==> h.encoding is Some,
        h.encoding matches Some(v) ==> h.spec_map()["encoding"@] == v,
        h.spec_map().contains_key("encryption"@) <==> h.encryption is Some,
        h.encryption matches Some(v) ==> h.spec_map()["encryption"@] == v,
        h.spec_map().contains_key("encryption_key"@) <==> h.encryption_key is Some,
        h.encryption_key matches Some(v) ==> h.spec_map()["encryption_key"@] == v,
        h.spec_map().contains_key("crypto_key"@) <==> h.crypto_key is Some,
        h.crypto_key matches Some(v) ==> h.spec_map()["crypto_key"@] == v,
        h.spec_map() == Map::<Seq<char>, String>::empty() <==> h.encoding is None
            && h.encryption is None && h.encryption_key is None && h.crypto_key is None,
{
    reveal_strlit("encoding");
    reveal_strlit("encryption");
    reveal_strlit("encryption_key");
    reveal_strlit("crypto_key");
    assert("encoding"@.len() == 8);
    assert("encryption"@.len() == 10);
    assert("encryption_key"@.len() == 14);
    assert("crypto_key"@[0] == 'c' && "encryption"@[0] == 'e');
    let map = h.spec_map();
    if h.encoding is None && h.encryption is None && h.encryption_key is None
        && h.crypto_key is None {
        assert(map =~= Map::<Seq<char>, String>::empty());
    } else {
        assert(map.contains_key("encoding"@) || map.contains_key("encryption"@)
            || map.contains_key("encryption_key"@) || map.contains_key("crypto_key"@));
    }
}

/// The names of the delivery view are seven different names.
proof fn lemma_names_differ()
    ensures
        "channelID"@ != "version"@,
        "channelID"@ != "ttl"@,
        "channelID"@ != "topic"@,
        "channelID"@ != "timestamp"@,
        "channelID"@ != "data"@,
        "channelID"@ != "headers"@,
        "version"@ != "ttl"@,
        "version"@ != "topic"@,
        "version"@ != "timestamp"@,
        "version"@ != "data"@,
        "version"@ != "headers"@,
        "ttl"@ != "topic"@,
        "ttl"@ != "timestamp"@,
        "ttl"@ != "data"@,
        "ttl"@ != "headers"@,
        "topic"@ != "timestamp"@,
        "topic"@ != "data"@,
        "topic"@ != "headers"@,
        "timestamp"@ != "data"@,
        "timestamp"@ != "headers"@,
        "data"@ != "headers"@,
{
    reveal_strlit("channelID");
    reveal_strlit("version");
    reveal_strlit("ttl");
    reveal_strlit("topic");
    reveal_strlit("timestamp");
    reveal_strlit("data");
    reveal_strlit("headers");
    assert("channelID"@[0] == 'c');
    assert("version"@[0] == 'v');
    assert("ttl"@[0] == 't' && "ttl"@[1] == 't');
    assert("topic"@[0] == 't' && "topic"@[1] == 'o');
    assert("timestamp"@[0] == 't' && "timestamp"@[1] == 'i');
    assert("data"@[0] == 'd');
    assert("headers"@[0] == 'h');
}

/// The delivery view of every notification holds the channel in its
/// hyphenated form, the message id under the name `version`, the time to
/// live, the topic or null, and the time of making. It holds the body and the
/// encryption headers where the notification has a body, and neither name
/// where it has none.
pub proof fn lemma_delivery_view(n: Notification)
    ensures
        n.delivery().contains_key("channelID"@) && n.delivery()["channelID"@]
            == DeliveryValueView::Text(hyphenated_text(n.subscription.channel_id@)),
        n.delivery().contains_key("version"@) && n.delivery()["version"@]
            == DeliveryValueView::Text(n.message_id@),
        n.delivery().contains_key("ttl"@) && n.delivery()["ttl"@] == DeliveryValueView::Number(
            n.headers.ttl,
        ),
        n.delivery().contains_key("topic"@) && n.delivery()["topic"@] == (match n.headers.topic {
            Some(t) => DeliveryValueView::Text(t@),
            None => DeliveryValueView::Null,
        }),
        n.delivery().contains_key("timestamp"@) && n.delivery()["timestamp"@]
            == DeliveryValueView::Number(n.timestamp),
        n.data matches Some(d) ==> n.delivery().contains_key("data"@) && n.delivery()["data"@]
            == DeliveryValueView::Text(d@) && n.delivery().contains_key("headers"@)
            && n.delivery()["headers"@] == DeliveryValueView::Table(
            text_views(n.headers.spec_map()),
        ),
        n.data is None ==> !n.delivery().contains_key("data"@) && !n.delivery().contains_key(
            "headers"@,
        ),
        forall|name: Seq<char>| #[trigger]
            n.delivery().contains_key(name) ==> name == "channelID"@ || name == "version"@ || name
                == "ttl"@ || name == "topic"@ || name == "timestamp"@ || name == "data"@ || name
                == "headers"@,
{
    lemma_names_differ();
}

/// A notification on a topic is identified by user, channel and topic alone:
/// two notifications made for the same subscription and the same topic, at
/// whatever times and with whatever bodies, have message ids that identify
/// the same message, so that the later notification takes the place of the
/// earlier one in storage.
pub proof fn lemma_topic_overwrite(
    keys: Seq<Seq<char>>,
    first: Notification,
    second: Notification,
    now: u64,
)
    requires
        first.sealed_under(keys),
        second.sealed_under(keys),
        first.subscription == second.subscription,
        first.headers.topic is Some,
        text_view(first.headers.topic) == text_view(second.headers.topic),
        first.timestamp <= now + MAX_CLOCK_SKEW <= u64::MAX,
        second.timestamp <= now + MAX_CLOCK_SKEW,
    ensures
        first.identity() == second.identity(),
        identified(keys, first.message_id@, now) == Ok::<MessageIdView, ApiErrorKind>(
            first.identity(),
        ),
        identified(keys, second.message_id@, now) == identified(keys, first.message_id@, now),
{
    crate::message_id::lemma_same_identity(
        keys,
        first.identity(),
        first.message_id@,
        first.timestamp,
        second.message_id@,
        second.timestamp,
        now,
    );
}

/// A notification that was made by `build` is identified by its message id:
/// whose it is, and its topic or the millisecond of its making.
pub proof fn lemma_message_id_identifies(keys: Seq<Seq<char>>, n: Notification, now: u64)
    requires
        n.sealed_under(keys),
        n.timestamp <= now + MAX_CLOCK_SKEW <= u64::MAX,
    ensures
        identified(keys, n.message_id@, now) == Ok::<MessageIdView, ApiErrorKind>(n.identity()),
{
    crate::message_id::lemma_round_trip(keys, n.identity(), n.message_id@, n.timestamp, now);
}

} // verus!
