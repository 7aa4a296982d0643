//! Small utilities: optional insertion into a map, and base64 in the two
//! alphabets that the service speaks, both without padding.

use vstd::prelude::*;
use base64::Engine;

verus! {

/// Maps that take a value only if there is one.
pub trait InsertOpt<K: View, V> {
    /// What the map holds.
    spec fn contents(&self) -> Map<K::V, V>;

    /// Insert an item only if it exists.
    fn insert_opt(&mut self, key: K, value: Option<V>)
        ensures
            final(self).contents() == (match value {
                Some(v) => old(self).contents().insert(key@, v),
                None => old(self).contents(),
            }),
    ;
}

/// `base64::DecodeError`: why a text is no base64. Nothing inside it is read.
#[verifier::external_type_specification]
#[verifier::external_body]
pub struct ExDecodeError(base64::DecodeError);

/// What `Engine::encode` makes of `input` in the URL-safe alphabet.
pub uninterp spec fn url_encoded(input: Seq<u8>) -> Seq<char>;

/// What `Engine::encode` makes of `input` in the standard alphabet.
pub uninterp spec fn std_encoded(input: Seq<u8>) -> Seq<char>;

/// What `Engine::decode` reads from `input` in the URL-safe alphabet, and
/// nothing where it refuses the text.
pub uninterp spec fn url_decoded(input: Seq<char>) -> Option<Seq<u8>>;

/// What `Engine::decode` reads from `input` in the standard alphabet, and
/// nothing where it refuses the text.
pub uninterp spec fn std_decoded(input: Seq<char>) -> Option<Seq<u8>>;

/// Whether `c` is a letter or a digit of ASCII.
pub open spec fn alphanumeric(c: char) -> bool {
    ('A' <= c <= 'Z') || ('a' <= c <= 'z') || ('0' <= c <= '9')
}

/// Whether every character of `text` belongs to the URL-safe alphabet of
/// base64: letters, digits, hyphen and underscore.
pub open spec fn in_url_alphabet(text: Seq<char>) -> bool {
    forall|i: int|
        0 <= i < text.len() ==> alphanumeric(#[trigger] text[i]) || text[i] == '-' || text[i]
            == '_'
}

/// Whether every character of `text` belongs to the standard alphabet of
/// base64: letters, digits, plus and slash.
pub open spec fn in_std_alphabet(text: Seq<char>) -> bool {
    forall|i: int|
        0 <= i < text.len() ==> alphanumeric(#[trigger] text[i]) || text[i] == '+' || text[i]
            == '/'
}

/// The length of the unpadded base64 form of `len` bytes.
pub open spec fn encoded_len(len: nat) -> nat {
    len / 3 * 4 + if len % 3 == 0 {
        0nat
    } else if len % 3 == 1 {
        2nat
    } else {
        3nat
    }
}

/// Whether the base64 form of `len` bytes has a length that fits a machine
/// word, so that the bytes can be encoded.
pub fn can_encode(len: usize) -> (fits: bool)
    ensures
        fits == (encoded_len(len as nat) <= usize::MAX),
{
    let tail: usize = if len % 3 == 0 {
        0
    } else if len % 3 == 1 {
        2
    } else {
        3
    };
    len / 3 <= (usize::MAX - tail) / 4
}

/// `text` without the characters `pad` at its end.
pub open spec fn without_trailing(text: Seq<char>, pad: char) -> Seq<char>
    decreases text.len(),
{
    if text.len() > 0 && text.last() == pad {
        without_trailing(text.drop_last(), pad)
    } else {
        text
    }
}

/// `str::trim_end_matches` of std with one character for the pattern: the
/// text with every trailing occurrence of the character removed.
#[verifier::external_body]
fn trim_end<'a>(text: &'a str, pad: char) -> (trimmed: &'a str)
    ensures
        trimmed@ == without_trailing(text@, pad),
{
    text.trim_end_matches(pad)
}

/// `URL_SAFE_NO_PAD.decode` of base64. The contract names the outcome.
#[verifier::external_body]
fn url_decode(input: &str) -> (decoded: Result<Vec<u8>, base64::DecodeError>)
    ensures
        match decoded {
            Ok(bytes) => url_decoded(input@) == Some(bytes@),
            Err(_) => url_decoded(input@) is None,
        },
{
    base64::engine::general_purpose::URL_SAFE_NO_PAD.decode(input)
}

/// `STANDARD_NO_PAD.decode` of base64. The contract names the outcome.
#[verifier::external_body]
fn std_decode(input: &str) -> (decoded: Result<Vec<u8>, base64::DecodeError>)
    ensures
        match decoded {
            Ok(bytes) => std_decoded(input@) == Some(bytes@),
            Err(_) => std_decoded(input@) is None,
        },
{
    base64::engine::general_purpose::STANDARD_NO_PAD.decode(input)
}

/// Reads URL-safe base64, with or without padding at its end.
pub fn b64_decode_url(input: &str) -> (decoded: Result<Vec<u8>, base64::DecodeError>)
    ensures
        match decoded {
            Ok(bytes) => url_decoded(without_trailing(input@, '=')) == Some(bytes@),
            Err(_) => url_decoded(without_trailing(input@, '=')) is None,
        },
{
    url_decode(trim_end(input, '='))
}

/// `URL_SAFE_NO_PAD.encode` of base64: the URL-safe base64 form of the
/// bytes, without padding. The contract names the text and states its length
/// and its alphabet; the call panics where the text's length does not fit,
/// which the bound rules out.
#[verifier::external_body]
pub fn b64_encode_url(input: &Vec<u8>) -> (encoded: String)
    requires
        encoded_len(input@.len()) <= usize::MAX,
    ensures
        encoded@ == url_encoded(input@),
        encoded@.len() == encoded_len(input@.len()),
        in_url_alphabet(encoded@),
{
    base64::engine::general_purpose::URL_SAFE_NO_PAD.encode(input)
}

/// Reads standard base64, with or without padding at its end.
pub fn b64_decode_std(input: &str) -> (decoded: Result<Vec<u8>, base64::DecodeError>)
    ensures
        match decoded {
            Ok(bytes) => std_decoded(without_trailing(input@, '=')) == Some(bytes@),
            Err(_) => std_decoded(without_trailing(input@, '=')) is None,
        },
{
    std_decode(trim_end(input, '='))
}

/// `STANDARD_NO_PAD.encode` of base64: the standard base64 form of the
/// bytes, without padding. The contract names the text and states its length
/// and its alphabet; the call panics where the text's length does not fit,
/// which the bound rules out.
#[verifier::external_body]
pub fn b64_encode_std(input: &Vec<u8>) -> (encoded: String)
    requires
        encoded_len(input@.len()) <= usize::MAX,
    ensures
        encoded@ == std_encoded(input@),
        encoded@.len() == encoded_len(input@.len()),
        in_std_alphabet(encoded@),
{
    base64::engine::general_purpose::STANDARD_NO_PAD.encode(input)
}

} // verus!
