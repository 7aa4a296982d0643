use autopush_core::codec::{TokenCodec, MAX_CLOCK_SKEW};
use autopush_core::error::ApiErrorKind;

const NOW: u64 = 1_700_000_000;

fn key(byte: u8) -> String {
    autopush_core::util::b64_encode_url(&vec![byte; 32])
}

fn codec(keys: &[String]) -> TokenCodec {
    TokenCodec::new(keys.to_vec()).unwrap()
}

#[test]
fn no_codec_without_keys() {
    assert!(TokenCodec::new(vec![]).is_none());
}

#[test]
fn no_codec_with_a_malformed_key() {
    assert!(TokenCodec::new(vec!["axxx".to_string()]).is_none());
    assert!(TokenCodec::new(vec![key(1), "not a key".to_string()]).is_none());
    let short = autopush_core::util::b64_encode_url(&vec![0u8; 31]);
    assert!(TokenCodec::new(vec![short]).is_none());
    let long = autopush_core::util::b64_encode_url(&vec![0u8; 33]);
    assert!(TokenCodec::new(vec![long]).is_none());
}

#[test]
fn codec_takes_generated_keys() {
    assert!(TokenCodec::new(vec![fernet::Fernet::generate_key()]).is_some());
    assert!(TokenCodec::new(vec![key(1), key(2), key(3)]).is_some());
}

#[test]
fn token_round_trip() {
    let c = codec(&[key(7)]);
    for plaintext in [&b""[..], &b"Abc"[..], &b"\x00\xff\x00\x00"[..]] {
        let token = c.encrypt(plaintext, NOW);
        assert_eq!(c.decrypt(&token, NOW), Ok(plaintext.to_vec()));
        assert_eq!(c.decrypt(&token, NOW + 86_400), Ok(plaintext.to_vec()));
    }
}

#[test]
fn token_is_not_the_plaintext() {
    let c = codec(&[key(7)]);
    let token = c.encrypt(b"my top secret message!", NOW);
    assert_ne!(token.as_bytes(), b"my top secret message!");
    assert!(!token.contains("secret"));
    assert!(token.chars().all(|ch| ch.is_ascii_alphanumeric() || ch == '-' || ch == '_' || ch == '='));
}

#[test]
fn token_is_read_by_the_outside_crate() {
    let c = codec(&[key(7)]);
    let token = c.encrypt(b"abc", NOW);
    let f = fernet::Fernet::new(&key(7)).unwrap();
    assert_eq!(f.decrypt_at_time(&token, None, NOW), Ok(b"abc".to_vec()));
    let theirs = f.encrypt_at_time(b"xyz", NOW);
    assert_eq!(c.decrypt(&theirs, NOW), Ok(b"xyz".to_vec()));
}

#[test]
fn two_tokens_for_one_plaintext_differ() {
    let c = codec(&[key(7)]);
    let first = c.encrypt(b"same", NOW);
    let second = c.encrypt(b"same", NOW);
    assert_ne!(first, second);
    assert_eq!(c.decrypt(&first, NOW), Ok(b"same".to_vec()));
    assert_eq!(c.decrypt(&second, NOW), Ok(b"same".to_vec()));
}

#[test]
fn key_rotation_keeps_old_tokens_valid() {
    let k1 = key(1);
    let k2 = key(2);
    let before = codec(&[k1.clone()]);
    let token = before.encrypt(b"issued under k1", NOW);

    let rotated = codec(&[k2.clone(), k1.clone()]);
    assert_eq!(rotated.decrypt(&token, NOW + 10), Ok(b"issued under k1".to_vec()));

    let fresh = rotated.encrypt(b"issued under k2", NOW + 10);
    assert_eq!(rotated.decrypt(&fresh, NOW + 10), Ok(b"issued under k2".to_vec()));
    assert_eq!(before.decrypt(&fresh, NOW + 10), Err(ApiErrorKind::InvalidToken));

    let removed = codec(&[k2]);
    assert_eq!(removed.decrypt(&token, NOW + 10), Err(ApiErrorKind::InvalidToken));
}

#[test]
fn retired_key_may_stand_anywhere() {
    let token = codec(&[key(1)]).encrypt(b"old", NOW);
    let c = codec(&[key(4), key(3), key(1), key(2)]);
    assert_eq!(c.decrypt(&token, NOW), Ok(b"old".to_vec()));
}

#[test]
fn encrypt_uses_the_active_key_only() {
    let c = codec(&[key(1), key(2)]);
    let token = c.encrypt(b"abc", NOW);
    assert_eq!(codec(&[key(1)]).decrypt(&token, NOW), Ok(b"abc".to_vec()));
    assert_eq!(codec(&[key(2)]).decrypt(&token, NOW), Err(ApiErrorKind::InvalidToken));
}

#[test]
fn malformed_tokens_are_invalid() {
    let c = codec(&[key(7)]);
    assert_eq!(c.decrypt("", NOW), Err(ApiErrorKind::InvalidToken));
    assert_eq!(c.decrypt("\x00", NOW), Err(ApiErrorKind::InvalidToken));
    assert_eq!(c.decrypt("not a token", NOW), Err(ApiErrorKind::InvalidToken));
    let wrong_version = autopush_core::util::b64_encode_url(&b"\x81".to_vec());
    assert_eq!(c.decrypt(&wrong_version, NOW), Err(ApiErrorKind::InvalidToken));
}

#[test]
fn tampered_token_is_invalid() {
    let c = codec(&[key(7)]);
    let token = c.encrypt(b"abc", NOW);
    let mut bytes = token.into_bytes();
    let at = bytes.len() / 2;
    bytes[at] = if bytes[at] == b'A' { b'B' } else { b'A' };
    let tampered = String::from_utf8(bytes).unwrap();
    assert_eq!(c.decrypt(&tampered, NOW), Err(ApiErrorKind::InvalidToken));
}

#[test]
fn token_dated_ahead_opens_within_the_skew_only() {
    assert_eq!(MAX_CLOCK_SKEW, 60);
    let c = codec(&[key(7)]);
    let token = c.encrypt(b"abc", NOW);
    assert_eq!(c.decrypt(&token, NOW - 60), Ok(b"abc".to_vec()));
    assert_eq!(c.decrypt(&token, NOW - 61), Err(ApiErrorKind::InvalidToken));
}

#[test]
fn token_length_follows_the_layout() {
    let c = codec(&[key(7)]);
    for len in 0..=80usize {
        let token = c.encrypt(&vec![0xabu8; len], NOW);
        let sealed = 57 + 16 * (len / 16 + 1);
        assert_eq!(token.len(), (sealed + 2) / 3 * 4, "for {} bytes", len);
    }
}
