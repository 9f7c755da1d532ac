//! Request type: the operations a caller can ask of the device, turned
//! into raw messages by [`Request::into_rpc`].

use vstd::prelude::*;

use crate::proto::{
    CommandStatus, Content, DeleteRequest, ListRequest, Main, WriteRequest, spec_status_code,
};

verus! {

/// A request tailored for callers; turned into a raw message by
/// [`Request::into_rpc`].
#[derive(Debug, Clone, PartialEq)]
pub enum Request {
    /// Stops the current RPC session, returning to the text shell.
    StopSession,
    /// Sends a ping that the device echoes back.
    Ping(Vec<u8>),
    /// Requests detailed device info.
    SystemDeviceInfo,
    /// Factory-resets the device.
    SystemFactoryReset,
    /// Plays the audiovisual alert.
    PlayAvAlert,
    /// Requests the device's protobuf version.
    SystemProtobufVersion,
    /// Requests storage medium info for a path.
    StorageInfo(String),
    /// Requests the timestamp of a path.
    StorageTimestamp(String),
    /// Requests metadata (the size) of a file.
    StorageMetadata(String),
    /// Lists the entries of a directory.
    StorageList(ListRequest),
    /// Reads a file; fails with a storage error when the path is a directory.
    StorageRead(String),
    /// Writes one chunk to a file.
    StorageWrite(WriteRequest),
    /// Deletes a file or directory.
    StorageDelete(DeleteRequest),
    /// Creates a directory.
    StorageMkdir(String),
    /// Asks the device to compute the MD5 digest of a file.
    StorageMd5sum(String),
    /// Renames or moves a file or directory (from, to).
    StorageRename(String, String),
    /// Creates a device-side backup archive.
    StorageBackupCreate(String),
    /// Restores a device-side backup archive.
    StorageBackupRestore(String),
    /// Extracts a tar archive on the device (archive path, output path).
    StorageTarExtract(String, String),
}

/// The content a request carries on the wire.
pub open spec fn spec_request_content(req: Request) -> Content {
    match req {
        Request::StopSession => Content::StopSession,
        Request::Ping(data) => Content::SystemPingRequest(data),
        Request::SystemDeviceInfo => Content::SystemDeviceInfoRequest,
        Request::SystemFactoryReset => Content::SystemFactoryResetRequest,
        Request::PlayAvAlert => Content::SystemPlayAudiovisualAlertRequest,
        Request::SystemProtobufVersion => Content::SystemProtobufVersionRequest,
        Request::StorageInfo(path) => Content::StorageInfoRequest(path),
        Request::StorageTimestamp(path) => Content::StorageTimestampRequest(path),
        Request::StorageMetadata(path) => Content::StorageStatRequest(path),
        Request::StorageList(req) => Content::StorageListRequest(req),
        Request::StorageRead(path) => Content::StorageReadRequest(path),
        Request::StorageWrite(req) => Content::StorageWriteRequest(req),
        Request::StorageDelete(req) => Content::StorageDeleteRequest(req),
        Request::StorageMkdir(path) => Content::StorageMkdirRequest(path),
        Request::StorageMd5sum(path) => Content::StorageMd5sumRequest(path),
        Request::StorageRename(from, to) => Content::StorageRenameRequest(from, to),
        Request::StorageBackupCreate(path) => Content::StorageBackupCreateRequest(path),
        Request::StorageBackupRestore(path) => Content::StorageBackupRestoreRequest(path),
        Request::StorageTarExtract(tar, out) => Content::StorageTarExtractRequest(tar, out),
    }
}

/// The raw message a request becomes under a given sequence id: success
/// status, no continuation, and the request's own content.
pub open spec fn spec_request_main(req: Request, command_id: u32) -> Main {
    Main {
        command_id,
        command_status: spec_status_code(CommandStatus::Success),
        has_next: false,
        content: Some(spec_request_content(req)),
    }
}

impl Request {
    /// Builds the raw message for this request under the given sequence
    /// id.  Chains of chunked frames must all carry the same id; the
    /// caller reserves it and advances the counter when the chain closes.
    pub fn into_rpc(self, command_id: u32) -> (r: Main)
        ensures
            r == spec_request_main(self, command_id),
    {
        let content = match self {
            Request::StopSession => Content::StopSession,
            Request::Ping(data) => Content::SystemPingRequest(data),
            Request::SystemDeviceInfo => Content::SystemDeviceInfoRequest,
            Request::SystemFactoryReset => Content::SystemFactoryResetRequest,
            Request::PlayAvAlert => Content::SystemPlayAudiovisualAlertRequest,
            Request::SystemProtobufVersion => Content::SystemProtobufVersionRequest,
            Request::StorageInfo(path) => Content::StorageInfoRequest(path),
            Request::StorageTimestamp(path) => Content::StorageTimestampRequest(path),
            Request::StorageMetadata(path) => Content::StorageStatRequest(path),
            Request::StorageList(req) => Content::StorageListRequest(req),
            Request::StorageRead(path) => Content::StorageReadRequest(path),
            Request::StorageWrite(req) => Content::StorageWriteRequest(req),
            Request::StorageDelete(req) => Content::StorageDeleteRequest(req),
            Request::StorageMkdir(path) => Content::StorageMkdirRequest(path),
            Request::StorageMd5sum(path) => Content::StorageMd5sumRequest(path),
            Request::StorageRename(from, to) => Content::StorageRenameRequest(from, to),
            Request::StorageBackupCreate(path) => Content::StorageBackupCreateRequest(path),
            Request::StorageBackupRestore(path) => Content::StorageBackupRestoreRequest(path),
            Request::StorageTarExtract(tar, out) => Content::StorageTarExtractRequest(tar, out),
        };
        Main {
            command_id,
            command_status: 0,
            has_next: false,
            content: Some(content),
        }
    }
}

} // verus!
