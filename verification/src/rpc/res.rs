//! Response type: the payloads a device answers with, extracted from raw
//! messages by [`Main::into_response`].

use vstd::prelude::*;

use crate::proto::{Content, Main, StorageFile};

verus! {

/// An entry of a directory listing.
#[derive(Debug, Clone, PartialEq)]
pub enum ReadDirItem {
    /// A directory and its name.
    Dir(String),
    /// A file: name, size in bytes, and its MD5 digest when reported.
    File(String, u32, Option<String>),
}

/// A response tailored for callers, extracted from a raw message.
/// Extraction reads the content only; status codes are judged separately
/// by [`crate::proto::CommandStatus::into_result`].
#[derive(Debug, Clone, PartialEq)]
pub enum Response {
    /// The message carried no content this crate extracts.
    Empty,
    /// Echoed ping bytes.
    Ping(Vec<u8>),
    /// File size from a metadata request, or nothing for a directory.
    StorageStat(Option<u32>),
    /// Entries of one directory-listing chunk.
    StorageList(Vec<ReadDirItem>),
    /// One chunk of file data, or nothing when no file was produced.
    StorageRead(Option<Vec<u8>>),
    /// MD5 digest computed by the device.
    StorageMd5sum(String),
}

/// The directory-listing entry denoted by a file record: directories keep
/// only their name; files keep name, size, and their digest when one was
/// reported (an empty digest string means none).
pub open spec fn spec_dir_item(f: StorageFile) -> ReadDirItem {
    if f.is_dir {
        ReadDirItem::Dir(f.name)
    } else {
        ReadDirItem::File(
            f.name,
            f.size,
            if f.md5sum@.len() == 0 {
                None
            } else {
                Some(f.md5sum)
            },
        )
    }
}

/// How a raw message and its extracted response correspond: ping, stat,
/// list, read and digest contents map to their payloads; every other
/// content (including requests) extracts as `Empty`.
pub open spec fn spec_response_matches(m: Main, r: Response) -> bool {
    match m.content {
        None => r == Response::Empty,
        Some(c) => match c {
            Content::SystemPingResponse(d) => r == Response::Ping(d),
            Content::StorageStatResponse(sz) => r == Response::StorageStat(sz),
            Content::StorageListResponse(files) => match r {
                Response::StorageList(items) => items@ == files@.map_values(
                    |f: StorageFile| spec_dir_item(f),
                ),
                _ => false,
            },
            Content::StorageReadResponse(file) => match file {
                None => r == Response::StorageRead(None),
                Some(f) => r == Response::StorageRead(Some(f.data)),
            },
            Content::StorageMd5sumResponse(digest) => r == Response::StorageMd5sum(digest),
            _ => r == Response::Empty,
        },
    }
}

/// Converts a file record into its directory-listing entry.
fn dir_item_of(f: &StorageFile) -> (r: ReadDirItem)
    ensures
        r == spec_dir_item(*f),
{
    if f.is_dir {
        ReadDirItem::Dir(f.name.clone())
    } else {
        let md5 = if f.md5sum.as_str().is_empty() {
            None
        } else {
            Some(f.md5sum.clone())
        };
        ReadDirItem::File(f.name.clone(), f.size, md5)
    }
}

impl Main {
    /// Extracts the response payload of this message.  The content alone
    /// decides the result; the status code is judged separately.
    pub fn into_response(self) -> (r: Response)
        ensures
            spec_response_matches(self, r),
    {
        match self.content {
            None => Response::Empty,
            Some(c) => match c {
                Content::SystemPingResponse(d) => Response::Ping(d),
                Content::StorageStatResponse(sz) => Response::StorageStat(sz),
                Content::StorageListResponse(files) => {
                    let mut items: Vec<ReadDirItem> = Vec::new();
                    let mut i: usize = 0;
                    while i < files.len()
                        invariant
                            i <= files.len(),
                            items@ =~= files@.take(i as int).map_values(
                                |f: StorageFile| spec_dir_item(f),
                            ),
                        decreases files.len() - i,
                    {
                        let item = dir_item_of(&files[i]);
                        items.push(item);
                        i = i + 1;
                        proof {
                            assert(files@.take(i as int) =~= files@.take(i - 1).push(
                                files@[i - 1],
                            ));
                        }
                    }
                    proof {
                        assert(files@.take(files@.len() as int) =~= files@);
                    }
                    Response::StorageList(items)
                },
                Content::StorageReadResponse(file) => match file {
                    None => Response::StorageRead(None),
                    Some(f) => Response::StorageRead(Some(f.data)),
                },
                Content::StorageMd5sumResponse(digest) => Response::StorageMd5sum(digest),
                _ => Response::Empty,
            },
        }
    }
}

} // verus!
