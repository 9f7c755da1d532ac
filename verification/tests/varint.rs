//! Varint length-delimiter behaviour, cross-checked against prost.

use flipper_rpc::frame::{decode_length_delimiter, encode_length_delimiter, varint_length};

#[test]
fn varint_length_boundaries() {
    let cases: Vec<(usize, usize)> = vec![
        (0, 1),
        (1, 1),
        (127, 1),
        (128, 2),
        (16383, 2),
        (16384, 3),
        (2097151, 3),
        (2097152, 4),
        (268435455, 4),
        (268435456, 5),
    ];
    for (value, expected) in cases {
        assert_eq!(varint_length(value), expected, "length of {}", value);
    }
}

#[test]
fn varint_length_agrees_with_prost() {
    let values: Vec<usize> = vec![0, 1, 127, 128, 137, 138, 139, 300, 10000, 16384, usize::MAX];
    for v in values {
        assert_eq!(varint_length(v), prost::length_delimiter_len(v));
    }
}

#[test]
fn encode_agrees_with_prost() {
    let values: Vec<usize> = vec![0, 1, 127, 128, 300, 10000, 2097152];
    for v in values {
        let ours = encode_length_delimiter(v);
        let mut theirs: Vec<u8> = Vec::new();
        prost::encode_length_delimiter(v, &mut theirs).unwrap();
        assert_eq!(ours, theirs, "encoding of {}", v);
    }
}

#[test]
fn decode_agrees_with_prost() {
    let values: Vec<usize> = vec![0, 1, 127, 128, 300, 10000, 2097152];
    for v in values {
        let encoded = encode_length_delimiter(v);
        let (value, consumed) = decode_length_delimiter(encoded.as_slice()).unwrap();
        assert_eq!(value, v);
        assert_eq!(consumed, encoded.len());
        assert_eq!(prost::decode_length_delimiter(encoded.as_slice()).unwrap(), v);
    }
}

#[test]
fn decode_rejects_unterminated() {
    // Ten continuation bytes: no terminator within the varint maximum.
    let buf = vec![0x80u8; 10];
    assert_eq!(decode_length_delimiter(buf.as_slice()), None);
    assert!(prost::decode_length_delimiter(buf.as_slice()).is_err());
}

#[test]
fn decode_empty_is_none() {
    let buf: Vec<u8> = Vec::new();
    assert_eq!(decode_length_delimiter(buf.as_slice()), None);
}

#[test]
fn decode_ignores_trailing_bytes() {
    let mut buf = encode_length_delimiter(300);
    buf.extend_from_slice(&[1, 2, 3]);
    let (value, consumed) = decode_length_delimiter(buf.as_slice()).unwrap();
    assert_eq!(value, 300);
    assert_eq!(consumed, 2);
}
