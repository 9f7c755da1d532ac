//! Chunking: exactly `ceil(N / 512)` chunks, minimum one, and the chunks
//! concatenate back to the input.

use flipper_rpc::fs::write::chunks_or_empty;
use flipper_rpc::CHUNK_SIZE;

#[test]
fn chunk_counts() {
    let cases: Vec<(usize, usize)> = vec![
        (0, 1),
        (1, 1),
        (511, 1),
        (512, 1),
        (513, 2),
        (1024, 2),
        (1025, 3),
        (5120, 10),
    ];
    for (len, expected) in cases {
        let data: Vec<u8> = vec![7u8; len];
        let chunks = chunks_or_empty(data.as_slice(), CHUNK_SIZE);
        assert_eq!(chunks.len(), expected, "chunk count for {} bytes", len);
    }
}

#[test]
fn chunks_concatenate_to_input() {
    let data: Vec<u8> = (0..1300).map(|i| (i % 256) as u8).collect();
    let chunks = chunks_or_empty(data.as_slice(), CHUNK_SIZE);
    let mut joined: Vec<u8> = Vec::new();
    for c in &chunks {
        joined.extend_from_slice(c.as_slice());
    }
    assert_eq!(joined, data);
    assert_eq!(chunks[0].len(), 512);
    assert_eq!(chunks[1].len(), 512);
    assert_eq!(chunks[2].len(), 276);
}

#[test]
fn empty_input_is_one_empty_chunk() {
    let data: Vec<u8> = Vec::new();
    let chunks = chunks_or_empty(data.as_slice(), CHUNK_SIZE);
    assert_eq!(chunks.len(), 1);
    assert!(chunks[0].is_empty());
}
