//! Sealing and opening of opaque tokens under a rotating set of keys.
//!
//! A codec holds one active key, under which new tokens are sealed, and any
//! number of retired keys, which still open the tokens sealed under them.

use vstd::prelude::*;
use crate::error::ApiErrorKind;
use crate::util::alphanumeric;

verus! {

/// The seconds by which a token may be dated ahead of the clock that opens it.
pub const MAX_CLOCK_SKEW: u64 = 60;

/// `fernet::DecryptionError`: a token did not open. It says no more.
#[verifier::external_type_specification]
#[verifier::external_body]
pub struct ExDecryptionError(fernet::DecryptionError);

/// Whether `fernet::Fernet::new` takes `key` for a key.
pub uninterp spec fn key_accepted(key: Seq<char>) -> bool;

/// What `fernet::Fernet::decrypt_at_time` yields for `token` under `key` at
/// the time `now`, with no time-to-live: the plaintext, or nothing where the
/// token is malformed, is not authentic under the key, or is dated too far
/// ahead of `now`.
pub uninterp spec fn opened(key: Seq<char>, token: Seq<char>, now: u64) -> Option<Seq<u8>>;

/// Whether `token` opens to `plaintext` under `key` at every time that is not
/// more than the allowed skew before `sealed_at`.
pub open spec fn opens_from(key: Seq<char>, token: Seq<char>, plaintext: Seq<u8>, sealed_at: u64) -> bool {
    forall|now: u64|
        sealed_at <= now + MAX_CLOCK_SKEW <= u64::MAX ==> #[trigger] opened(key, token, now)
            == Some(plaintext)
}

/// Whether `text` can stand in the path of a URL as it is: it holds only
/// letters, digits, hyphens, underscores and equals signs.
pub open spec fn url_safe(text: Seq<char>) -> bool {
    forall|i: int|
        0 <= i < text.len() ==> alphanumeric(#[trigger] text[i]) || text[i] == '-' || text[i]
            == '_' || text[i] == '='
}

/// The length of the token that seals `len` bytes. A token is the padded
/// base64 form of a version byte, eight bytes of time, sixteen bytes of the
/// random value, the plaintext filled up to the next whole block of sixteen
/// bytes, and thirty-two bytes of the seal.
pub open spec fn token_len(len: nat) -> nat {
    (57 + 16 * (len / 16 + 1) + 2) / 3 * 4
}

/// `fernet::Fernet::new`, asked only whether it takes the key, which it does
/// where the key is the URL-safe base64 form of 32 bytes. The contract names
/// the answer: the same text is taken, or refused, every time.
#[verifier::external_body]
fn accepts_key(key: &str) -> (accepted: bool)
    ensures
        accepted == key_accepted(key@),
{
    fernet::Fernet::new(key).is_some()
}

/// `fernet::Fernet::encrypt_at_time` under `key`. The token is sealed with a
/// fresh random value, so nothing is said of which token comes back;
/// whichever does is padded URL-safe base64 of the length that the layout
/// gives, carries the time `now`, and opens to `data` under the same key at
/// every time from the allowed skew before `now` on.
#[verifier::external_body]
fn seal_with(key: &str, data: &[u8], now: u64) -> (token: String)
    requires
        key_accepted(key@),
    ensures
        url_safe(token@),
        token@.len() == token_len(data@.len()),
        opens_from(key@, token@, data@, now),
{
    fernet::Fernet::new(key).unwrap().encrypt_at_time(data, now)
}

/// `fernet::Fernet::decrypt_at_time` under `key` with no time-to-live. The
/// outcome is a function of key, token and time; the call adds the skew to
/// `now`, hence the bound.
#[verifier::external_body]
fn open_with(key: &str, token: &str, now: u64) -> (plain: Result<Vec<u8>, fernet::DecryptionError>)
    requires
        key_accepted(key@),
        now + MAX_CLOCK_SKEW <= u64::MAX,
    ensures
        match plain {
            Ok(bytes) => opened(key@, token@, now) == Some(bytes@),
            Err(_) => opened(key@, token@, now) is None,
        },
{
    fernet::Fernet::new(key).unwrap().decrypt_at_time(token, None, now)
}

/// Whether `keys` can make a codec: there is an active key, and every key is
/// well formed.
pub open spec fn valid_keys(keys: Seq<Seq<char>>) -> bool {
    &&& keys.len() > 0
    &&& forall|i: int| 0 <= i < keys.len() ==> key_accepted(#[trigger] keys[i])
}

/// What opening `token` under `keys` yields at the time `now`: the plaintext
/// under the first key, in order, that opens it.
pub open spec fn first_opening(keys: Seq<Seq<char>>, token: Seq<char>, now: u64) -> Option<Seq<u8>>
    decreases keys.len(),
{
    if keys.len() == 0 {
        None
    } else {
        match opened(keys[0], token, now) {
            Some(plaintext) => Some(plaintext),
            None => first_opening(keys.drop_first(), token, now),
        }
    }
}

/// The keys of a codec as sequences of characters.
pub open spec fn key_views(keys: Seq<String>) -> Seq<Seq<char>> {
    Seq::new(keys.len(), |i: int| keys[i]@)
}

/// A set of keys in order of priority: the active key first, then the retired
/// keys, the oldest last.
pub struct TokenCodec {
    keys: Vec<String>,
}

impl View for TokenCodec {
    type V = Seq<Seq<char>>;

    closed spec fn view(&self) -> Seq<Seq<char>> {
        key_views(self.keys@)
    }
}

impl TokenCodec {
    #[verifier::type_invariant]
    spec fn well_formed(self) -> bool {
        valid_keys(key_views(self.keys@))
    }

    /// A codec over `keys`, the active key first. There is none where `keys`
    /// is empty or holds a key that is not well formed.
    pub fn new(keys: Vec<String>) -> (codec: Option<TokenCodec>)
        ensures
            codec is Some <==> valid_keys(key_views(keys@)),
            codec matches Some(c) ==> c@ == key_views(keys@),
    {
        if keys.len() == 0 {
            return None;
        }
        let ghost views = key_views(keys@);
        let mut i: usize = 0;
        while i < keys.len()
            invariant
                i <= keys.len(),
                views == key_views(keys@),
                forall|j: int| 0 <= j < i ==> key_accepted(#[trigger] views[j]),
            decreases keys.len() - i,
        {
            if !accepts_key(keys[i].as_str()) {
                assert(!key_accepted(views[i as int]));
                return None;
            }
            i += 1;
        }
        Some(TokenCodec { keys })
    }

    /// Seals `plaintext` under the active key, dated `now`. The seal takes a
    /// fresh random value, so one plaintext has many tokens; every one of
    /// them is safe in a URL, as long as the layout says, and opens to
    /// `plaintext` under this codec's active key from the allowed skew before
    /// `now` on.
    pub fn encrypt(&self, plaintext: &[u8], now: u64) -> (token: String)
        ensures
            valid_keys(self@),
            url_safe(token@),
            token@.len() == token_len(plaintext@.len()),
            opens_from(self@[0], token@, plaintext@, now),
    {
        proof {
            use_type_invariant(self);
            assert(key_views(self.keys@)[0] == self.keys@[0]@);
        }
        seal_with(self.keys[0].as_str(), plaintext, now)
    }

    /// Opens `token` at the time `now`: tries the keys in order and returns
    /// the plaintext under the first that opens it. Where none does, the token
    /// is invalid.
    pub fn decrypt(&self, token: &str, now: u64) -> (plain: Result<Vec<u8>, ApiErrorKind>)
        requires
            now + MAX_CLOCK_SKEW <= u64::MAX,
        ensures
            match first_opening(self@, token@, now) {
                Some(plaintext) => plain matches Ok(bytes) && bytes@ == plaintext,
                None => plain == Err::<Vec<u8>, ApiErrorKind>(ApiErrorKind::InvalidToken),
            },
    {
        proof {
            use_type_invariant(self);
        }
        let ghost views = key_views(self.keys@);
        assert(views.skip(0) == views);
        let mut i: usize = 0;
        while i < self.keys.len()
            invariant
                i <= self.keys.len(),
                views == key_views(self.keys@),
                valid_keys(views),
                now + MAX_CLOCK_SKEW <= u64::MAX,
                first_opening(views, token@, now) == first_opening(views.skip(i as int), token@, now),
            decreases self.keys.len() - i,
        {
            let ghost rest = views.skip(i as int);
            assert(rest[0] == views[i as int]);
            assert(rest.drop_first() == views.skip(i + 1));
            match open_with(self.keys[i].as_str(), token, now) {
                Ok(bytes) => {
                    return Ok(bytes);
                },
                Err(_) => {},
            }
            i += 1;
        }
        Err(ApiErrorKind::InvalidToken)
    }
}

/// Opening under a list of keys fails exactly where every key fails, and
/// otherwise yields what the first key that opens the token yields.
pub proof fn lemma_first_opening(keys: Seq<Seq<char>>, token: Seq<char>, now: u64)
    ensures
        first_opening(keys, token, now) is None <==> forall|i: int|
            0 <= i < keys.len() ==> #[trigger] opened(keys[i], token, now) is None,
        first_opening(keys, token, now) is Some ==> exists|i: int|
            {
                &&& 0 <= i < keys.len()
                &&& #[trigger] opened(keys[i], token, now) == first_opening(keys, token, now)
                &&& forall|j: int| 0 <= j < i ==> #[trigger] opened(keys[j], token, now) is None
            },
    decreases keys.len(),
{
    if keys.len() > 0 {
        let rest = keys.drop_first();
        lemma_first_opening(rest, token, now);
        assert(forall|i: int| 0 <= i < rest.len() ==> rest[i] == keys[i + 1]);
        if opened(keys[0], token, now) is None {
            if first_opening(rest, token, now) is None {
                assert forall|i: int| 0 <= i < keys.len() implies #[trigger] opened(
                    keys[i],
                    token,
                    now,
                ) is None by {
                    if i > 0 {
                        assert(opened(rest[i - 1], token, now) is None);
                    }
                }
            } else {
                let k = choose|i: int|
                    {
                        &&& 0 <= i < rest.len()
                        &&& #[trigger] opened(rest[i], token, now) == first_opening(rest, token, now)
                        &&& forall|j: int|
                            0 <= j < i ==> #[trigger] opened(rest[j], token, now) is None
                    };
                assert(opened(keys[k + 1], token, now) == first_opening(keys, token, now));
                assert forall|j: int| 0 <= j < k + 1 implies #[trigger] opened(
                    keys[j],
                    token,
                    now,
                ) is None by {
                    if j > 0 {
                        assert(opened(rest[j - 1], token, now) is None);
                    }
                }
            }
        } else {
            assert(opened(keys[0], token, now) == first_opening(keys, token, now));
        }
    }
}

/// What a codec sealed it opens again: a token sealed under the active key
/// opens to the plaintext that went in, at every time that is not more than
/// the allowed skew before the time of sealing.
pub proof fn lemma_sealed_opens(
    keys: Seq<Seq<char>>,
    token: Seq<char>,
    plaintext: Seq<u8>,
    sealed_at: u64,
    now: u64,
)
    requires
        keys.len() > 0,
        opens_from(keys[0], token, plaintext, sealed_at),
        sealed_at <= now + MAX_CLOCK_SKEW <= u64::MAX,
    ensures
        first_opening(keys, token, now) == Some(plaintext),
{
    assert(opened(keys[0], token, now) == Some(plaintext));
}

/// Key rotation: a token sealed under `key` still opens under any set of keys
/// that holds `key`, wherever it stands in the order; and it opens to the
/// plaintext that went in unless a key of higher priority opens the token too.
pub proof fn lemma_rotation(
    key: Seq<char>,
    rotated: Seq<Seq<char>>,
    at: int,
    token: Seq<char>,
    plaintext: Seq<u8>,
    sealed_at: u64,
    now: u64,
)
    requires
        opens_from(key, token, plaintext, sealed_at),
        0 <= at < rotated.len(),
        rotated[at] == key,
        sealed_at <= now + MAX_CLOCK_SKEW <= u64::MAX,
    ensures
        first_opening(rotated, token, now) is Some,
        (forall|j: int| 0 <= j < at ==> #[trigger] opened(rotated[j], token, now) is None)
            ==> first_opening(rotated, token, now) == Some(plaintext),
{
    lemma_first_opening(rotated, token, now);
    assert(opened(rotated[at], token, now) == Some(plaintext));
    if forall|j: int| 0 <= j < at ==> #[trigger] opened(rotated[j], token, now) is None {
        let i = choose|i: int|
            {
                &&& 0 <= i < rotated.len()
                &&& #[trigger] opened(rotated[i], token, now) == first_opening(rotated, token, now)
                &&& forall|j: int| 0 <= j < i ==> #[trigger] opened(rotated[j], token, now) is None
            };
        if i < at {
            assert(opened(rotated[i], token, now) is None);
        } else if at < i {
            assert(opened(rotated[at], token, now) is None);
        }
    }
}

/// Once the key that sealed a token is gone from the set, and no key that is
/// left opens the token, the token is invalid.
pub proof fn lemma_removed(remaining: Seq<Seq<char>>, token: Seq<char>, now: u64)
    requires
        forall|i: int| 0 <= i < remaining.len() ==> #[trigger] opened(remaining[i], token, now) is None,
    ensures
        first_opening(remaining, token, now) is None,
{
    lemma_first_opening(remaining, token, now);
}

} // verus!
