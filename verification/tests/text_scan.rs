//! Text helpers, stream scanning, digests, and response extraction.

use flipper_rpc::digest::chunk_md5;
use flipper_rpc::proto::{Content, Main, StorageFile};
use flipper_rpc::rpc::req::Request;
use flipper_rpc::rpc::res::{ReadDirItem, Response};
use flipper_rpc::scan::MarkerScanner;

#[test]
fn digests_match_the_md5_crate() {
    assert_eq!(chunk_md5(b""), "d41d8cd98f00b204e9800998ecf8427e");
    let data = b"abcdefghijklmnopqrstuvwxyz";
    assert_eq!(chunk_md5(data), format!("{:x}", md5::compute(data)));
}

#[test]
fn scanner_finds_markers_across_chunk_boundaries() {
    let mut s = MarkerScanner::new(b"MARK".to_vec());
    assert!(!s.feed(b"xxMA"));
    assert!(s.feed(b"RKyy"));
    let mut s = MarkerScanner::new(b"MARK".to_vec());
    assert!(!s.feed(b"no match here"));
    assert!(!s.feed(b"none here either"));
}

#[test]
fn requests_become_messages_under_the_given_id() {
    let m = Request::Ping(vec![1, 2, 3]).into_rpc(7);
    assert_eq!(m.command_id, 7);
    assert_eq!(m.command_status, 0);
    assert!(!m.has_next);
    assert_eq!(m.content, Some(Content::SystemPingRequest(vec![1, 2, 3])));

    let m = Request::StorageMkdir("/ext/d".to_string()).into_rpc(9).with_has_next(true);
    assert_eq!(m.command_id, 9);
    assert!(m.has_next);
    assert_eq!(m.content, Some(Content::StorageMkdirRequest("/ext/d".to_string())));

    let m = Request::StopSession.into_rpc(1).with_command_id(3);
    assert_eq!(m.command_id, 3);
}

#[test]
fn responses_extract_their_payloads() {
    let m = Main {
        command_id: 0,
        command_status: 0,
        has_next: false,
        content: Some(Content::SystemPingResponse(vec![4, 5])),
    };
    assert_eq!(m.into_response(), Response::Ping(vec![4, 5]));

    let m = Main {
        command_id: 0,
        command_status: 0,
        has_next: false,
        content: Some(Content::StorageListResponse(vec![
            StorageFile {
                is_dir: true,
                name: "sub".to_string(),
                size: 0,
                md5sum: String::new(),
                data: Vec::new(),
            },
            StorageFile {
                is_dir: false,
                name: "f".to_string(),
                size: 3,
                md5sum: "aa".to_string(),
                data: Vec::new(),
            },
        ])),
    };
    assert_eq!(
        m.into_response(),
        Response::StorageList(vec![
            ReadDirItem::Dir("sub".to_string()),
            ReadDirItem::File("f".to_string(), 3, Some("aa".to_string())),
        ]),
    );

    let m = Main { command_id: 0, command_status: 0, has_next: false, content: None };
    assert_eq!(m.into_response(), Response::Empty);
}
