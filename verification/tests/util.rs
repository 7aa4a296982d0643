use autopush_core::keyed::KeyedList;
use autopush_core::util::{
    b64_decode_std, b64_decode_url, b64_encode_std, b64_encode_url, can_encode, InsertOpt,
};

#[test]
fn encode_url_exact() {
    assert_eq!(b64_encode_url(&vec![]), "");
    assert_eq!(b64_encode_url(&b"f".to_vec()), "Zg");
    assert_eq!(b64_encode_url(&b"fo".to_vec()), "Zm8");
    assert_eq!(b64_encode_url(&b"foo".to_vec()), "Zm9v");
    assert_eq!(b64_encode_url(&vec![0xfb, 0xff]), "-_8");
}

#[test]
fn encode_std_exact() {
    assert_eq!(b64_encode_std(&vec![]), "");
    assert_eq!(b64_encode_std(&b"f".to_vec()), "Zg");
    assert_eq!(b64_encode_std(&b"foob".to_vec()), "Zm9vYg");
    assert_eq!(b64_encode_std(&vec![0xfb, 0xff]), "+/8");
}

#[test]
fn decode_url_with_and_without_padding() {
    assert_eq!(b64_decode_url("Zg").unwrap(), b"f".to_vec());
    assert_eq!(b64_decode_url("Zg==").unwrap(), b"f".to_vec());
    assert_eq!(b64_decode_url("Zm8=").unwrap(), b"fo".to_vec());
    assert_eq!(b64_decode_url("-_8").unwrap(), vec![0xfb, 0xff]);
    assert_eq!(b64_decode_url("").unwrap(), Vec::<u8>::new());
    assert_eq!(b64_decode_url("====").unwrap(), Vec::<u8>::new());
}

#[test]
fn decode_std_with_and_without_padding() {
    assert_eq!(b64_decode_std("Zm9vYg").unwrap(), b"foob".to_vec());
    assert_eq!(b64_decode_std("Zm9vYg==").unwrap(), b"foob".to_vec());
    assert_eq!(b64_decode_std("+/8").unwrap(), vec![0xfb, 0xff]);
}

#[test]
fn decode_refuses_the_other_alphabet() {
    assert!(b64_decode_url("+/8").is_err());
    assert!(b64_decode_std("-_8").is_err());
}

#[test]
fn decode_refuses_padding_inside_and_stray_characters() {
    assert!(b64_decode_url("Zg==Zg").is_err());
    assert!(b64_decode_url("Z g").is_err());
    assert!(b64_decode_url("Z").is_err());
    assert!(b64_decode_std("*").is_err());
}

#[test]
fn base64_decode_is_the_inverse_of_encode() {
    let bytes: Vec<u8> = (0..=255).collect();
    assert_eq!(b64_decode_url(&b64_encode_url(&bytes)).unwrap(), bytes);
    assert_eq!(b64_decode_std(&b64_encode_std(&bytes)).unwrap(), bytes);
}

#[test]
fn insert_opt_takes_a_value_that_is_there() {
    let mut map: KeyedList<String> = KeyedList::new();
    assert!(map.is_empty());
    map.insert_opt("encoding".to_string(), Some("aes128gcm".to_string()));
    assert!(!map.is_empty());
    assert_eq!(map.get("encoding"), Some(&"aes128gcm".to_string()));
    assert!(map.contains_key("encoding"));
}

#[test]
fn insert_opt_leaves_the_map_alone_without_a_value() {
    let mut map: KeyedList<String> = KeyedList::new();
    map.insert_opt("encoding".to_string(), None);
    assert!(map.is_empty());
    assert_eq!(map.get("encoding"), None);
    map.insert_opt("a".to_string(), Some("1".to_string()));
    map.insert_opt("a".to_string(), None);
    assert_eq!(map.get("a"), Some(&"1".to_string()));
}

#[test]
fn insert_replaces_the_value_at_a_key() {
    let mut map: KeyedList<u32> = KeyedList::new();
    map.insert("a".to_string(), 1);
    map.insert("b".to_string(), 2);
    map.insert("a".to_string(), 3);
    assert_eq!(map.get("a"), Some(&3));
    assert_eq!(map.get("b"), Some(&2));
    assert_eq!(map.get("c"), None);
    assert!(!map.contains_key("c"));
    assert_eq!(map.into_entries(), vec![("a".to_string(), 3), ("b".to_string(), 2)]);
}

#[test]
fn can_encode_what_fits() {
    assert!(can_encode(0));
    assert!(can_encode(1));
    assert!(can_encode(4096));
    assert!(can_encode(usize::MAX / 4 * 3));
    assert!(can_encode(usize::MAX / 4 * 3 + 2));
    assert!(!can_encode(usize::MAX / 4 * 3 + 3));
    assert!(!can_encode(usize::MAX));
}

#[test]
fn encoded_length_and_alphabet() {
    for len in 0..64usize {
        let bytes: Vec<u8> = (0..len).map(|i| (i * 37 % 256) as u8).collect();
        let expected = len / 3 * 4 + [0, 2, 3][len % 3];
        let url = b64_encode_url(&bytes);
        assert_eq!(url.len(), expected);
        assert!(url.chars().all(|c| c.is_ascii_alphanumeric() || c == '-' || c == '_'));
        let std = b64_encode_std(&bytes);
        assert_eq!(std.len(), expected);
        assert!(std.chars().all(|c| c.is_ascii_alphanumeric() || c == '+' || c == '/'));
    }
}
