//! The chunked read engine, directory listing, and the end-to-end
//! write-then-read scenario against a scripted device.

use flipper_rpc::error::Error;
use flipper_rpc::fs::{FsCreateDir, FsMd5, FsMetadata, FsRead, FsReadDir, FsRemove, FsWrite};
use flipper_rpc::proto::{Content, Main, StorageFile};
use flipper_rpc::rpc::res::ReadDirItem;
use flipper_rpc::transport::mock::MockTransport;
use flipper_rpc::transport::CommandIndex;

fn ack() -> Main {
    Main { command_id: 0, command_status: 0, has_next: false, content: Some(Content::Empty) }
}

fn read_frame(data: Vec<u8>, has_next: bool) -> Main {
    Main {
        command_id: 0,
        command_status: 0,
        has_next,
        content: Some(Content::StorageReadResponse(Some(StorageFile {
            is_dir: false,
            name: String::new(),
            size: data.len() as u32,
            md5sum: String::new(),
            data,
        }))),
    }
}

#[test]
fn read_accumulates_until_has_next_clears() {
    let frames = vec![
        read_frame(vec![1, 2, 3], true),
        read_frame(vec![4], true),
        read_frame(Vec::new(), true),
        read_frame(vec![5, 6], false),
    ];
    let mut t = MockTransport::new(frames);
    let out = t.fs_read(&"/ext/f.bin".to_string()).unwrap();
    // The accumulated length is the sum of the per-frame payloads.
    assert_eq!(out, vec![1, 2, 3, 4, 5, 6]);
    assert_eq!(t.command_index(), 1);
}

#[test]
fn read_without_file_data_fails() {
    let frame = Main {
        command_id: 0,
        command_status: 0,
        has_next: false,
        content: Some(Content::StorageReadResponse(None)),
    };
    let mut t = MockTransport::new(vec![frame]);
    assert_eq!(t.fs_read(&"/ext/d".to_string()), Err(Error::ReadFailed));
}

#[test]
fn read_to_string_decodes_utf8() {
    let mut t = MockTransport::new(vec![read_frame(b"hello".to_vec(), false)]);
    let s = t.fs_read_to_string(&"/ext/hello.txt".to_string()).unwrap();
    assert_eq!(s, "hello");

    let mut t = MockTransport::new(vec![read_frame(vec![0xff, 0xfe], false)]);
    assert_eq!(t.fs_read_to_string(&"/ext/bad.bin".to_string()), Err(Error::Decode));

    let mut t = MockTransport::new(vec![read_frame(vec![0xff, 0x61], false)]);
    let s = t.fs_read_to_string_lossy(&"/ext/bad.bin".to_string()).unwrap();
    assert_eq!(s, "\u{fffd}a");
}

#[test]
fn read_dir_accumulates_entries() {
    let entry = |name: &str, is_dir: bool, size: u32, md5: &str| StorageFile {
        is_dir,
        name: name.to_string(),
        size,
        md5sum: md5.to_string(),
        data: Vec::new(),
    };
    let frame = |files: Vec<StorageFile>, has_next: bool| Main {
        command_id: 0,
        command_status: 0,
        has_next,
        content: Some(Content::StorageListResponse(files)),
    };
    let frames = vec![
        frame(vec![entry("sub", true, 0, ""), entry("a.txt", false, 12, "")], true),
        frame(vec![entry("b.bin", false, 34, "00112233445566778899aabbccddeeff")], false),
    ];
    let mut t = MockTransport::new(frames);
    let items = t.fs_read_dir(&"/ext".to_string(), true).unwrap();
    assert_eq!(
        items,
        vec![
            ReadDirItem::Dir("sub".to_string()),
            ReadDirItem::File("a.txt".to_string(), 12, None),
            ReadDirItem::File(
                "b.bin".to_string(),
                34,
                Some("00112233445566778899aabbccddeeff".to_string()),
            ),
        ],
    );
}

#[test]
fn simple_operations_round_trip() {
    // Directory creation reports whether the directory existed.
    let mut t = MockTransport::new(vec![ack()]);
    assert_eq!(t.fs_create_dir(&"/ext/new".to_string()), Ok(false));
    let exists = Main { command_status: 6, ..ack() };
    let mut t = MockTransport::new(vec![exists]);
    assert_eq!(t.fs_create_dir(&"/ext/new".to_string()), Ok(true));

    // Removal succeeds on a success status.
    let mut t = MockTransport::new(vec![ack()]);
    assert_eq!(t.fs_remove(&"/ext/old".to_string(), true), Ok(()));

    // The device-side digest is handed through.
    let digest = Main {
        content: Some(Content::StorageMd5sumResponse("abc123".to_string())),
        ..ack()
    };
    let mut t = MockTransport::new(vec![digest]);
    assert_eq!(t.fs_md5(&"/ext/f".to_string()), Ok("abc123".to_string()));

    // Metadata is the size; a missing file record is a distinct failure.
    let stat = Main { content: Some(Content::StorageStatResponse(Some(123))), ..ack() };
    let mut t = MockTransport::new(vec![stat]);
    assert_eq!(t.fs_metadata(&"/ext/f".to_string()), Ok(123));
    let stat_none = Main { content: Some(Content::StorageStatResponse(None)), ..ack() };
    let mut t = MockTransport::new(vec![stat_none]);
    assert_eq!(t.fs_metadata(&"/ext/f".to_string()), Err(Error::ReadFailed));

    // A success answer without the expected content is invalid.
    let mut t = MockTransport::new(vec![ack()]);
    assert_eq!(t.fs_md5(&"/ext/f".to_string()), Err(Error::InvalidResponse));

    // An unrecognized status code is its own error.
    let odd = Main { command_status: 999, ..ack() };
    let mut t = MockTransport::new(vec![odd]);
    assert_eq!(t.fs_remove(&"/ext/x".to_string(), false), Err(Error::UnknownStatus(999)));

    // A silent channel is "no data".
    let mut t = MockTransport::new(Vec::new());
    assert_eq!(t.fs_remove(&"/ext/x".to_string(), false), Err(Error::NoData));
}

#[test]
fn write_then_read_back_5120_bytes() {
    // End to end: ten chunks out, one shared id, then a chained read
    // reproduces the bytes.
    let data: Vec<u8> = (0..5120).map(|i| (i % 251) as u8).collect();
    let mut replies: Vec<Main> = (0..10).map(|_| ack()).collect();
    for (i, chunk) in data.chunks(512).enumerate() {
        replies.push(read_frame(chunk.to_vec(), i != 9));
    }
    let mut t = MockTransport::new(replies);

    let path = "/ext/file.bin".to_string();
    t.fs_write(&path, &data).unwrap();
    assert_eq!(t.sent_count(), 10);
    let first_id = t.sent_messages()[0].command_id;
    assert!(t.sent_messages().iter().all(|m| m.command_id == first_id));

    let back = t.fs_read(&path).unwrap();
    assert_eq!(back, data);
    // One counter step for the chain, one for the standalone read.
    assert_eq!(t.command_index(), 2);
}
