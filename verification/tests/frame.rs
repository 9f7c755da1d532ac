//! Frame round trips under both decode strategies, and the two-read
//! guarantee of the two-stage plan.

use flipper_rpc::error::Error;
use flipper_rpc::frame::{
    begin_decode, encode_frame, finish_decode, BytewiseReader, BytewiseStep, FirstRead,
    FIRST_READ_LIMIT,
};

fn payload_of_len(len: usize) -> Vec<u8> {
    (0..len).map(|i| (i % 251) as u8).collect()
}

/// Decodes a frame the way the two-stage driver would: plan on the first
/// bytes, then at most one more exact read.  Returns the payload and how
/// many physical reads were used.
fn two_stage(frame: &[u8]) -> (Vec<u8>, usize) {
    let first = frame.len().min(FIRST_READ_LIMIT);
    match begin_decode(&frame[..first]).unwrap() {
        FirstRead::Complete { payload } => (payload, 1),
        FirstRead::NeedMore { prefix, remaining } => {
            let rest = &frame[first..first + remaining];
            (finish_decode(prefix.as_slice(), rest), 2)
        }
    }
}

/// Decodes a frame the way the byte-wise driver would: one byte at a
/// time for the prefix, then one exact payload read.
fn bytewise(frame: &[u8]) -> Vec<u8> {
    let mut reader = BytewiseReader::new();
    let mut pos = 0usize;
    loop {
        let step = reader.push_byte(frame[pos]);
        pos += 1;
        match step {
            BytewiseStep::NeedByte => continue,
            BytewiseStep::Payload(len) => {
                return frame[pos..pos + len].to_vec();
            }
            BytewiseStep::Malformed => panic!("unexpected malformed prefix"),
        }
    }
}

#[test]
fn round_trip_both_strategies() {
    for len in [0usize, 1, 127, 128, 137, 138, 139, 10000] {
        let payload = payload_of_len(len);
        let frame = encode_frame(payload.as_slice());
        let (decoded, reads) = two_stage(frame.as_slice());
        assert_eq!(decoded, payload, "two-stage at length {}", len);
        assert!(reads <= 2, "more than two reads at length {}", len);
        let decoded = bytewise(frame.as_slice());
        assert_eq!(decoded, payload, "byte-wise at length {}", len);
    }
}

#[test]
fn short_first_read_still_two_reads() {
    // The initial read returns only part of the frame: one more exact
    // read completes it.
    let payload = payload_of_len(500);
    let frame = encode_frame(payload.as_slice());
    match begin_decode(&frame[..10]).unwrap() {
        FirstRead::Complete { .. } => panic!("payload cannot be complete"),
        FirstRead::NeedMore { prefix, remaining } => {
            assert_eq!(prefix.len() + remaining, payload.len());
            let rest = &frame[10..10 + remaining];
            assert_eq!(finish_decode(prefix.as_slice(), rest), payload);
        }
    }
}

#[test]
fn empty_read_is_no_data() {
    let buf: Vec<u8> = Vec::new();
    assert_eq!(begin_decode(buf.as_slice()), Err(Error::NoData));
}

#[test]
fn unterminated_prefix_is_malformed() {
    let buf = vec![0x80u8; 12];
    assert_eq!(begin_decode(buf.as_slice()), Err(Error::MalformedVarint));
}

#[test]
fn bytewise_rejects_overlong_prefix() {
    let mut reader = BytewiseReader::new();
    let mut last = BytewiseStep::NeedByte;
    for _ in 0..10 {
        last = reader.push_byte(0x80);
    }
    assert!(matches!(last, BytewiseStep::Malformed));
}
