//! The structured message exchanged per frame, modelled as plain values.
//!
//! A `Main` carries the per-operation sequence id (`command_id`), the
//! device-reported status code, the continuation flag used by chunked
//! chains, and a tagged content union.  The byte-level encoding of this
//! structure is an external collaborator; everything here is plain data
//! that the engines of this crate inspect and construct.

use vstd::prelude::*;

verus! {

/// A file entry as carried by storage requests and responses.
#[derive(Debug, Clone, PartialEq)]
pub struct StorageFile {
    /// True when the entry denotes a directory.
    pub is_dir: bool,
    /// Entry name (the final path component).
    pub name: String,
    /// Size in bytes of the data this entry describes.
    pub size: u32,
    /// Lowercase hexadecimal MD5 digest of the data, or empty when absent.
    pub md5sum: String,
    /// Raw content bytes (one chunk's worth for chunked transfers).
    pub data: Vec<u8>,
}

/// Payload of a storage write request: destination path plus one chunk.
#[derive(Debug, Clone, PartialEq)]
pub struct WriteRequest {
    /// Destination path on the device.
    pub path: String,
    /// The chunk being written, if any.
    pub file: Option<StorageFile>,
}

/// Payload of a storage delete request.
#[derive(Debug, Clone, PartialEq)]
pub struct DeleteRequest {
    /// Path to remove.
    pub path: String,
    /// Whether to remove directories recursively.
    pub recursive: bool,
}

/// Payload of a storage list request.
#[derive(Debug, Clone, PartialEq)]
pub struct ListRequest {
    /// Directory path to list.
    pub path: String,
    /// Whether the device should include MD5 digests in the listing.
    pub include_md5: bool,
    /// When nonzero, only entries up to this size are listed.
    pub filter_max_size: u32,
}

/// The tagged content union of a message: either empty or one of the
/// request/response payloads this crate models.
#[derive(Debug, Clone, PartialEq)]
pub enum Content {
    /// No content.
    Empty,
    /// Ends the RPC session, returning the device to its text shell.
    StopSession,
    /// Ping request carrying echo bytes.
    SystemPingRequest(Vec<u8>),
    /// Ping response echoing the request bytes.
    SystemPingResponse(Vec<u8>),
    /// Requests detailed device information.
    SystemDeviceInfoRequest,
    /// Factory-resets the device.
    SystemFactoryResetRequest,
    /// Plays the audiovisual alert on the device.
    SystemPlayAudiovisualAlertRequest,
    /// Requests the device's protobuf version.
    SystemProtobufVersionRequest,
    /// Requests storage medium information for a path.
    StorageInfoRequest(String),
    /// Requests the timestamp of a path.
    StorageTimestampRequest(String),
    /// Requests metadata (size) of a file.
    StorageStatRequest(String),
    /// Metadata response: the file size, or nothing for a directory.
    StorageStatResponse(Option<u32>),
    /// Requests a directory listing.
    StorageListRequest(ListRequest),
    /// One chunk of a directory listing.
    StorageListResponse(Vec<StorageFile>),
    /// Requests a file read.
    StorageReadRequest(String),
    /// One chunk of file data, or nothing when the read produced no file.
    StorageReadResponse(Option<StorageFile>),
    /// Writes one chunk of a file.
    StorageWriteRequest(WriteRequest),
    /// Deletes a file or directory.
    StorageDeleteRequest(DeleteRequest),
    /// Creates a directory.
    StorageMkdirRequest(String),
    /// Asks the device to compute the MD5 digest of a file.
    StorageMd5sumRequest(String),
    /// The MD5 digest computed by the device.
    StorageMd5sumResponse(String),
    /// Renames or moves a file or directory (from, to).
    StorageRenameRequest(String, String),
    /// Creates a device-side backup archive at the given path.
    StorageBackupCreateRequest(String),
    /// Restores a device-side backup archive from the given path.
    StorageBackupRestoreRequest(String),
    /// Extracts a tar archive on the device (archive path, output path).
    StorageTarExtractRequest(String, String),
}

/// The structured unit exchanged per frame.
#[derive(Debug, Clone, PartialEq)]
pub struct Main {
    /// Sequence id correlating requests and responses; one chained
    /// operation shares a single id across all its frames.
    pub command_id: u32,
    /// Device-reported status code; see [`CommandStatus`].
    pub command_status: i32,
    /// Continuation flag: true on every frame of a chain except the last.
    pub has_next: bool,
    /// The tagged payload, or `None` for an empty message.
    pub content: Option<Content>,
}

impl Main {
    /// Returns the message with its sequence id replaced.
    pub fn with_command_id(self, command_id: u32) -> (r: Main)
        ensures
            r == (Main { command_id, ..self }),
    {
        Main { command_id, ..self }
    }

    /// Returns the message with its continuation flag replaced.
    pub fn with_has_next(self, has_next: bool) -> (r: Main)
        ensures
            r == (Main { has_next, ..self }),
    {
        Main { has_next, ..self }
    }
}

/// The closed set of status codes a device reports with every response.
/// `Success` is the only non-error value; each other variant corresponds
/// to one categorized error.
#[derive(Debug, Clone, Copy, PartialEq, Eq, Structural)]
pub enum CommandStatus {
    /// Success.
    Success,
    /// Unknown command error.
    Error,
    /// The command could not be decoded.
    ErrorDecode,
    /// The command was decoded but is not implemented.
    ErrorNotImplemented,
    /// The global lock is taken; not all commands are available.
    ErrorBusy,
    /// A continuation chain ended without `has_next == false`.
    ErrorContinuousCommandInterrupted,
    /// Required parameters were missing or invalid.
    ErrorInvalidParameters,
    /// The filesystem is not ready.
    ErrorStorageNotReady,
    /// The file or directory already exists.
    ErrorStorageExist,
    /// The file or directory does not exist.
    ErrorStorageNotExist,
    /// Invalid storage API parameter.
    ErrorStorageInvalidParameter,
    /// Access denied.
    ErrorStorageDenied,
    /// Invalid name or path.
    ErrorStorageInvalidName,
    /// Internal storage error.
    ErrorStorageInternal,
    /// Storage function not implemented.
    ErrorStorageNotImplemented,
    /// The file or directory is already open.
    ErrorStorageAlreadyOpen,
    /// The directory to remove is not empty.
    ErrorStorageDirNotEmpty,
    /// An application could not be started.
    ErrorAppCantStart,
    /// Another application is already running.
    ErrorAppSystemLocked,
    /// The application is not running or does not accept RPC commands.
    ErrorAppNotRunning,
    /// Application command execution error.
    ErrorAppCmdError,
    /// A virtual display session is already started.
    ErrorVirtualDisplayAlreadyStarted,
    /// No virtual display session is started.
    ErrorVirtualDisplayNotStarted,
    /// Incorrect GPIO pin mode.
    ErrorGpioModeIncorrect,
    /// Unknown GPIO pin mode.
    ErrorGpioUnknownPinMode,
}

/// The wire code of each status, as the device reports it.
pub open spec fn spec_status_code(s: CommandStatus) -> i32 {
    match s {
        CommandStatus::Success => 0,
        CommandStatus::Error => 1,
        CommandStatus::ErrorDecode => 2,
        CommandStatus::ErrorNotImplemented => 3,
        CommandStatus::ErrorBusy => 4,
        CommandStatus::ErrorStorageNotReady => 5,
        CommandStatus::ErrorStorageExist => 6,
        CommandStatus::ErrorStorageNotExist => 7,
        CommandStatus::ErrorStorageInvalidParameter => 8,
        CommandStatus::ErrorStorageDenied => 9,
        CommandStatus::ErrorStorageInvalidName => 10,
        CommandStatus::ErrorStorageInternal => 11,
        CommandStatus::ErrorStorageNotImplemented => 12,
        CommandStatus::ErrorStorageAlreadyOpen => 13,
        CommandStatus::ErrorContinuousCommandInterrupted => 14,
        CommandStatus::ErrorInvalidParameters => 15,
        CommandStatus::ErrorAppCantStart => 16,
        CommandStatus::ErrorAppSystemLocked => 17,
        CommandStatus::ErrorStorageDirNotEmpty => 18,
        CommandStatus::ErrorVirtualDisplayAlreadyStarted => 19,
        CommandStatus::ErrorVirtualDisplayNotStarted => 20,
        CommandStatus::ErrorAppNotRunning => 21,
        CommandStatus::ErrorAppCmdError => 22,
        CommandStatus::ErrorGpioModeIncorrect => 58,
        CommandStatus::ErrorGpioUnknownPinMode => 59,
    }
}

/// The status denoted by a wire code, or `None` for an unrecognized code.
pub open spec fn spec_status_from_code(code: i32) -> Option<CommandStatus> {
    match code {
        0 => Some(CommandStatus::Success),
        1 => Some(CommandStatus::Error),
        2 => Some(CommandStatus::ErrorDecode),
        3 => Some(CommandStatus::ErrorNotImplemented),
        4 => Some(CommandStatus::ErrorBusy),
        5 => Some(CommandStatus::ErrorStorageNotReady),
        6 => Some(CommandStatus::ErrorStorageExist),
        7 => Some(CommandStatus::ErrorStorageNotExist),
        8 => Some(CommandStatus::ErrorStorageInvalidParameter),
        9 => Some(CommandStatus::ErrorStorageDenied),
        10 => Some(CommandStatus::ErrorStorageInvalidName),
        11 => Some(CommandStatus::ErrorStorageInternal),
        12 => Some(CommandStatus::ErrorStorageNotImplemented),
        13 => Some(CommandStatus::ErrorStorageAlreadyOpen),
        14 => Some(CommandStatus::ErrorContinuousCommandInterrupted),
        15 => Some(CommandStatus::ErrorInvalidParameters),
        16 => Some(CommandStatus::ErrorAppCantStart),
        17 => Some(CommandStatus::ErrorAppSystemLocked),
        18 => Some(CommandStatus::ErrorStorageDirNotEmpty),
        19 => Some(CommandStatus::ErrorVirtualDisplayAlreadyStarted),
        20 => Some(CommandStatus::ErrorVirtualDisplayNotStarted),
        21 => Some(CommandStatus::ErrorAppNotRunning),
        22 => Some(CommandStatus::ErrorAppCmdError),
        58 => Some(CommandStatus::ErrorGpioModeIncorrect),
        59 => Some(CommandStatus::ErrorGpioUnknownPinMode),
        _ => None,
    }
}

impl CommandStatus {
    /// The wire code of this status.
    pub fn to_code(self) -> (r: i32)
        ensures
            r == spec_status_code(self),
    {
        match self {
            CommandStatus::Success => 0,
            CommandStatus::Error => 1,
            CommandStatus::ErrorDecode => 2,
            CommandStatus::ErrorNotImplemented => 3,
            CommandStatus::ErrorBusy => 4,
            CommandStatus::ErrorStorageNotReady => 5,
            CommandStatus::ErrorStorageExist => 6,
            CommandStatus::ErrorStorageNotExist => 7,
            CommandStatus::ErrorStorageInvalidParameter => 8,
            CommandStatus::ErrorStorageDenied => 9,
            CommandStatus::ErrorStorageInvalidName => 10,
            CommandStatus::ErrorStorageInternal => 11,
            CommandStatus::ErrorStorageNotImplemented => 12,
            CommandStatus::ErrorStorageAlreadyOpen => 13,
            CommandStatus::ErrorContinuousCommandInterrupted => 14,
            CommandStatus::ErrorInvalidParameters => 15,
            CommandStatus::ErrorAppCantStart => 16,
            CommandStatus::ErrorAppSystemLocked => 17,
            CommandStatus::ErrorStorageDirNotEmpty => 18,
            CommandStatus::ErrorVirtualDisplayAlreadyStarted => 19,
            CommandStatus::ErrorVirtualDisplayNotStarted => 20,
            CommandStatus::ErrorAppNotRunning => 21,
            CommandStatus::ErrorAppCmdError => 22,
            CommandStatus::ErrorGpioModeIncorrect => 58,
            CommandStatus::ErrorGpioUnknownPinMode => 59,
        }
    }

    /// Parses a wire code; unrecognized codes yield `None`.
    pub fn from_code(code: i32) -> (r: Option<CommandStatus>)
        ensures
            r == spec_status_from_code(code),
    {
        match code {
            0 => Some(CommandStatus::Success),
            1 => Some(CommandStatus::Error),
            2 => Some(CommandStatus::ErrorDecode),
            3 => Some(CommandStatus::ErrorNotImplemented),
            4 => Some(CommandStatus::ErrorBusy),
            5 => Some(CommandStatus::ErrorStorageNotReady),
            6 => Some(CommandStatus::ErrorStorageExist),
            7 => Some(CommandStatus::ErrorStorageNotExist),
            8 => Some(CommandStatus::ErrorStorageInvalidParameter),
            9 => Some(CommandStatus::ErrorStorageDenied),
            10 => Some(CommandStatus::ErrorStorageInvalidName),
            11 => Some(CommandStatus::ErrorStorageInternal),
            12 => Some(CommandStatus::ErrorStorageNotImplemented),
            13 => Some(CommandStatus::ErrorStorageAlreadyOpen),
            14 => Some(CommandStatus::ErrorContinuousCommandInterrupted),
            15 => Some(CommandStatus::ErrorInvalidParameters),
            16 => Some(CommandStatus::ErrorAppCantStart),
            17 => Some(CommandStatus::ErrorAppSystemLocked),
            18 => Some(CommandStatus::ErrorStorageDirNotEmpty),
            19 => Some(CommandStatus::ErrorVirtualDisplayAlreadyStarted),
            20 => Some(CommandStatus::ErrorVirtualDisplayNotStarted),
            21 => Some(CommandStatus::ErrorAppNotRunning),
            22 => Some(CommandStatus::ErrorAppCmdError),
            58 => Some(CommandStatus::ErrorGpioModeIncorrect),
            59 => Some(CommandStatus::ErrorGpioUnknownPinMode),
            _ => None,
        }
    }
}

/// Decoding a status's own wire code always gives back that status: the
/// code assignment is injective, so the mapping of codes to statuses is
/// deterministic.
pub proof fn lemma_status_code_round_trip(s: CommandStatus)
    ensures
        spec_status_from_code(spec_status_code(s)) == Some(s),
{
}

/// Every recognized wire code maps to exactly one status, and that
/// status's code is the code itself: recognized codes and statuses are in
/// one-to-one correspondence.
pub proof fn lemma_status_code_unique(code: i32, s: CommandStatus)
    ensures
        spec_status_from_code(code) == Some(s) ==> spec_status_code(s) == code,
{
}

} // verus!
