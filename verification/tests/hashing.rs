use centaureissi::hash::{content_hash, to_hex};

#[test]
fn hex_of_bytes_is_lowercase_high_half_first() {
    assert_eq!(to_hex(&[10, 20, 30]), "0a141e");
    assert_eq!(to_hex(&[0x00, 0xff, 0x9a, 0xbc]), "00ff9abc");
}

#[test]
fn hex_of_nothing_is_empty() {
    assert_eq!(to_hex(&[]), "");
}

#[test]
fn content_hash_of_empty_input() {
    assert_eq!(
        content_hash(b""),
        "786a02f742015903c6c6fd852552d272912f4740e15847618a86e217f71f5419\
         d25e1031afee585313896444934eb04b903a685b1448b755d56f701afe9be2ce"
    );
}

#[test]
fn content_hash_of_abc() {
    assert_eq!(
        content_hash(b"abc"),
        "ba80a53f981c4d0d6a2797b69f12f6e94c212f14685ac4b74b12bb6fdbffa2d1\
         7d87c5392aab792dc252d5de4533cc9518d38aa8dbf1925ab92386edd4009923"
    );
}

#[test]
fn content_hash_has_128_lowercase_hex_digits() {
    let hash = content_hash(b"Subject: x\r\n\r\nbody");
    assert_eq!(hash.len(), 128);
    assert!(hash.chars().all(|c| c.is_ascii_digit() || ('a'..='f').contains(&c)));
}

#[test]
fn equal_bytes_give_equal_hashes_and_other_bytes_another() {
    let first = content_hash(b"one message");
    let again = content_hash(b"one message");
    let other = content_hash(b"another message");
    assert_eq!(first, again);
    assert_ne!(first, other);
    assert_ne!(first, "one message");
}
