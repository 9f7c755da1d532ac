//! The chunked write engine against a scripted device.

use flipper_rpc::error::Error;
use flipper_rpc::fs::write::VecProgress;
use flipper_rpc::fs::FsWrite;
use flipper_rpc::proto::{CommandStatus, Content, Main};
use flipper_rpc::rpc::error::{Error as RpcError, StorageError};
use flipper_rpc::transport::mock::MockTransport;
use flipper_rpc::transport::CommandIndex;

fn ack() -> Main {
    Main { command_id: 0, command_status: 0, has_next: false, content: Some(Content::Empty) }
}

fn acks(n: usize) -> Vec<Main> {
    (0..n).map(|_| ack()).collect()
}

#[test]
fn write_5120_bytes_is_ten_chunks_one_id() {
    let data: Vec<u8> = (0..5120).map(|i| (i / 512) as u8).collect();
    let mut t = MockTransport::new(acks(10));
    let path = "/ext/file2.txt".to_string();
    t.fs_write(&path, &data).unwrap();

    let sent = t.sent_messages();
    assert_eq!(sent.len(), 10);
    for (i, m) in sent.iter().enumerate() {
        assert_eq!(m.command_id, 0, "chunk {} shares the chain id", i);
        assert_eq!(m.command_status, 0);
        assert_eq!(m.has_next, i != 9, "continuation flag of chunk {}", i);
        match &m.content {
            Some(Content::StorageWriteRequest(wr)) => {
                assert_eq!(wr.path, path);
                let f = wr.file.as_ref().unwrap();
                assert!(!f.is_dir);
                assert_eq!(f.name, "file2.txt");
                assert_eq!(f.size, 512);
                assert_eq!(f.data, vec![i as u8; 512]);
                let expected = format!("{:x}", md5::compute(&f.data));
                assert_eq!(f.md5sum, expected);
            }
            other => panic!("chunk {} is not a write request: {:?}", i, other),
        }
    }
    // The chain closed: the counter advanced by exactly one (no pings).
    assert_eq!(t.command_index(), 1);
}

#[test]
fn empty_write_is_one_empty_chunk() {
    let data: Vec<u8> = Vec::new();
    let mut t = MockTransport::new(acks(1));
    t.fs_write(&"/ext/empty.bin".to_string(), &data).unwrap();
    let sent = t.sent_messages();
    assert_eq!(sent.len(), 1);
    let m = &sent[0];
    assert!(!m.has_next);
    match &m.content {
        Some(Content::StorageWriteRequest(wr)) => {
            let f = wr.file.as_ref().unwrap();
            assert_eq!(f.size, 0);
            assert!(f.data.is_empty());
            assert_eq!(f.md5sum, "d41d8cd98f00b204e9800998ecf8427e");
        }
        other => panic!("not a write request: {:?}", other),
    }
    assert_eq!(t.command_index(), 1);
}

#[test]
fn progress_reports_run_from_zero_to_total() {
    let data: Vec<u8> = vec![9u8; 1300];
    let mut t = MockTransport::new(acks(3));
    let mut sink = VecProgress::new();
    t.fs_write_with_progress(&"/ext/p.bin".to_string(), &data, &mut sink).unwrap();
    let entries = sink.entries();
    assert_eq!(
        entries,
        &vec![(0usize, 1300usize), (512, 1300), (1024, 1300), (1300, 1300)],
    );
}

#[test]
fn long_write_interleaves_keepalive_pings() {
    // 1002 chunks: a ping is due before every positive multiple of the
    // ping interval, so before chunk 500 and before chunk 1000.
    let n_chunks = 1002usize;
    let data: Vec<u8> = vec![3u8; n_chunks * 512];
    let mut t = MockTransport::new(acks(n_chunks + 2));
    t.fs_write(&"/ext/big.bin".to_string(), &data).unwrap();

    let sent = t.sent_messages();
    assert_eq!(sent.len(), n_chunks + 2);
    // Each ping sits immediately before its chunk and carries the
    // throwaway id one past the chain's.
    for ping_pos in [500usize, 1001] {
        let ping = &sent[ping_pos];
        assert_eq!(ping.command_id, 1);
        assert!(!ping.has_next);
        assert_eq!(ping.content, Some(Content::SystemPingRequest(vec![0u8])));
    }
    for (pos, m) in sent.iter().enumerate() {
        if pos != 500 && pos != 1001 {
            assert_eq!(m.command_id, 0);
            assert!(matches!(m.content, Some(Content::StorageWriteRequest(_))));
        }
    }
    assert!(sent[499].has_next);
    assert!(sent[501].has_next);
    assert!(sent[1002].has_next);
    assert!(!sent[n_chunks + 1].has_next);
    // The chain closed: one step for the chain, one per ping.
    assert_eq!(t.command_index(), 3);
}

#[test]
fn the_counter_wraps_instead_of_failing() {
    let mut t = MockTransport::new(Vec::new());
    assert_eq!(t.increment_command_index(u32::MAX), u32::MAX);
    assert_eq!(t.increment_command_index(1), 0);
    assert_eq!(t.command_index(), 0);
}

#[test]
fn device_error_aborts_the_chain() {
    let denied = Main {
        command_id: 0,
        command_status: CommandStatus::ErrorStorageDenied.to_code(),
        has_next: false,
        content: Some(Content::Empty),
    };
    let mut t = MockTransport::new(vec![ack(), denied]);
    let data: Vec<u8> = vec![1u8; 1024];
    let r = t.fs_write(&"/ext/f.bin".to_string(), &data);
    assert_eq!(
        r,
        Err(Error::Rpc(RpcError::StorageError(StorageError::PermissionDenied))),
    );
    // The chain never closed: the counter did not advance, and only the
    // two answered chunks were sent.
    assert_eq!(t.command_index(), 0);
    assert_eq!(t.sent_count(), 2);
}

#[test]
fn bare_file_name_is_its_own_name() {
    let mut t = MockTransport::new(acks(1));
    let data: Vec<u8> = vec![1u8; 4];
    t.fs_write(&"file.txt".to_string(), &data).unwrap();
    match &t.sent_messages()[0].content {
        Some(Content::StorageWriteRequest(wr)) => {
            assert_eq!(wr.file.as_ref().unwrap().name, "file.txt");
        }
        other => panic!("not a write request: {:?}", other),
    }
}

#[test]
fn path_without_file_name_is_rejected() {
    let mut t = MockTransport::new(Vec::new());
    let data: Vec<u8> = vec![1u8; 8];
    assert_eq!(t.fs_write(&"/ext/dir/".to_string(), &data), Err(Error::InvalidInput));
    assert_eq!(t.sent_count(), 0);
}
