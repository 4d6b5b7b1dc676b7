use centaureissi::codec::{decode, encode, is_compressed, DecodeResult};

#[test]
fn encoded_bytes_decode_to_the_input() {
    let data = b"From: a@example.org\r\nSubject: round trip\r\n\r\nhello hello hello hello".to_vec();
    let stored = encode(&data).expect("the compressor works");
    assert_ne!(stored, data);
    assert_eq!(decode(stored), DecodeResult::Decoded(data));
}

#[test]
fn encoded_empty_input_decodes_to_empty() {
    let stored = encode(&[]).expect("the compressor works");
    assert!(!stored.is_empty());
    assert_eq!(decode(stored).into_bytes(), Vec::<u8>::new());
}

#[test]
fn legacy_bytes_are_returned_as_they_are() {
    let legacy = b"Subject: stored before compression\r\n\r\nplain".to_vec();
    let result = decode(legacy.clone());
    assert_eq!(result, DecodeResult::Raw(legacy.clone()));
    assert!(!result.is_compressed());
    assert_eq!(result.into_bytes(), legacy);
}

#[test]
fn compressed_payloads_are_recognised() {
    let data = b"some bytes to store".to_vec();
    let stored = encode(&data).expect("the compressor works");
    assert!(is_compressed(&stored));
    assert!(!is_compressed(&data));
    assert!(decode(stored).is_compressed());
}

#[test]
fn truncated_frame_counts_as_legacy() {
    let data = vec![7u8; 4096];
    let mut stored = encode(&data).expect("the compressor works");
    stored.truncate(stored.len() - 3);
    assert_eq!(decode(stored.clone()), DecodeResult::Raw(stored));
}
