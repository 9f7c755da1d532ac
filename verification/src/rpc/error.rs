//! Device status codes mapped into a categorized error taxonomy.
//!
//! Every non-success [`CommandStatus`] maps one-to-one into a
//! (category, reason) pair drawn from a fixed closed set; `Success` always
//! produces a success value instead.

use vstd::prelude::*;

use crate::proto::CommandStatus;

verus! {

/// Generic error type for all device-reported RPC errors.
#[derive(Debug, Clone, Copy, PartialEq, Eq, Structural)]
pub enum Error {
    /// Command-layer error.
    CommandError(CommandError),
    /// Storage error.
    StorageError(StorageError),
    /// Application error.
    ApplicationError(ApplicationError),
    /// Virtual display error.
    VirtualDisplayError(VirtualDisplayError),
    /// GPIO error.
    GPIOError(GPIOError),
}

/// Command-layer errors.
#[derive(Debug, Clone, Copy, PartialEq, Eq, Structural)]
pub enum CommandError {
    /// Unknown error.
    Unknown,
    /// The command could not be decoded; the sequence id of the response
    /// may be wrong.
    Decode,
    /// The command was decoded but is not implemented.
    NotImplemented,
    /// Somebody took the global lock, so not all commands are available.
    Busy,
    /// A chain ended without `has_next == false`.
    ContinuousCommandInterrupted,
    /// Crucial parameters were not provided or were invalid.
    InvalidParameters,
}

/// Storage errors.
#[derive(Debug, Clone, Copy, PartialEq, Eq, Structural)]
pub enum StorageError {
    /// The filesystem is not ready for use.
    NotReady,
    /// The file or directory already exists.
    AlreadyExists,
    /// The file or directory does not exist.
    NotFound,
    /// Invalid storage API parameter.
    InvalidParameter,
    /// Access denied.
    PermissionDenied,
    /// Invalid name or path.
    InvalidName,
    /// Internal error.
    Internal,
    /// The function is not implemented.
    NotImplemented,
    /// The file or directory is already open.
    AlreadyOpen,
    /// The directory to remove is not empty.
    DirectoryNotEmpty,
}

/// Application errors.
#[derive(Debug, Clone, Copy, PartialEq, Eq, Structural)]
pub enum ApplicationError {
    /// The app cannot start; internal error.
    CannotStart,
    /// Another app is already running.
    SystemLocked,
    /// The app is not running or does not support RPC commands.
    RpcUnavailable,
    /// Command execution error.
    CommandExecution,
}

/// Virtual display errors.
#[derive(Debug, Clone, Copy, PartialEq, Eq, Structural)]
pub enum VirtualDisplayError {
    /// A virtual display session cannot be started twice.
    AlreadyStarted,
    /// A virtual display session cannot be stopped before it starts.
    NotStarted,
}

/// GPIO errors.
#[derive(Debug, Clone, Copy, PartialEq, Eq, Structural)]
pub enum GPIOError {
    /// Incorrect pin mode.
    IncorrectMode,
    /// Unknown pin mode.
    UnknownMode,
}

/// The (category, reason) pair denoted by each non-success status.
/// `CommandStatus::Success` is mapped arbitrarily; no contract consults
/// this function for it.
pub open spec fn spec_status_error(s: CommandStatus) -> Error {
    match s {
        CommandStatus::Success => Error::CommandError(CommandError::Unknown),
        CommandStatus::Error => Error::CommandError(CommandError::Unknown),
        CommandStatus::ErrorDecode => Error::CommandError(CommandError::Decode),
        CommandStatus::ErrorNotImplemented => Error::CommandError(CommandError::NotImplemented),
        CommandStatus::ErrorBusy => Error::CommandError(CommandError::Busy),
        CommandStatus::ErrorContinuousCommandInterrupted => Error::CommandError(
            CommandError::ContinuousCommandInterrupted,
        ),
        CommandStatus::ErrorInvalidParameters => Error::CommandError(
            CommandError::InvalidParameters,
        ),
        CommandStatus::ErrorStorageNotReady => Error::StorageError(StorageError::NotReady),
        CommandStatus::ErrorStorageExist => Error::StorageError(StorageError::AlreadyExists),
        CommandStatus::ErrorStorageNotExist => Error::StorageError(StorageError::NotFound),
        CommandStatus::ErrorStorageInvalidParameter => Error::StorageError(
            StorageError::InvalidParameter,
        ),
        CommandStatus::ErrorStorageDenied => Error::StorageError(StorageError::PermissionDenied),
        CommandStatus::ErrorStorageInvalidName => Error::StorageError(StorageError::InvalidName),
        CommandStatus::ErrorStorageInternal => Error::StorageError(StorageError::Internal),
        CommandStatus::ErrorStorageNotImplemented => Error::StorageError(
            StorageError::NotImplemented,
        ),
        CommandStatus::ErrorStorageAlreadyOpen => Error::StorageError(StorageError::AlreadyOpen),
        CommandStatus::ErrorStorageDirNotEmpty => Error::StorageError(
            StorageError::DirectoryNotEmpty,
        ),
        CommandStatus::ErrorAppCantStart => Error::ApplicationError(ApplicationError::CannotStart),
        CommandStatus::ErrorAppSystemLocked => Error::ApplicationError(
            ApplicationError::SystemLocked,
        ),
        CommandStatus::ErrorAppNotRunning => Error::ApplicationError(
            ApplicationError::RpcUnavailable,
        ),
        CommandStatus::ErrorAppCmdError => Error::ApplicationError(
            ApplicationError::CommandExecution,
        ),
        CommandStatus::ErrorVirtualDisplayAlreadyStarted => Error::VirtualDisplayError(
            VirtualDisplayError::AlreadyStarted,
        ),
        CommandStatus::ErrorVirtualDisplayNotStarted => Error::VirtualDisplayError(
            VirtualDisplayError::NotStarted,
        ),
        CommandStatus::ErrorGpioModeIncorrect => Error::GPIOError(GPIOError::IncorrectMode),
        CommandStatus::ErrorGpioUnknownPinMode => Error::GPIOError(GPIOError::UnknownMode),
    }
}

impl CommandStatus {
    /// Converts this status and a value into a `Result`: `Success` yields
    /// the value, and every other status yields its categorized error.
    pub fn into_result<T>(self, value: T) -> (r: crate::error::Result<T>)
        ensures
            self == CommandStatus::Success ==> r == crate::error::Result::<T>::Ok(value),
            self != CommandStatus::Success ==> r == crate::error::Result::<T>::Err(
                crate::error::Error::Rpc(spec_status_error(self)),
            ),
    {
        match self {
            CommandStatus::Success => Ok(value),
            CommandStatus::Error => Err(crate::error::Error::Rpc(
                Error::CommandError(CommandError::Unknown),
            )),
            CommandStatus::ErrorDecode => Err(crate::error::Error::Rpc(
                Error::CommandError(CommandError::Decode),
            )),
            CommandStatus::ErrorNotImplemented => Err(crate::error::Error::Rpc(
                Error::CommandError(CommandError::NotImplemented),
            )),
            CommandStatus::ErrorBusy => Err(crate::error::Error::Rpc(
                Error::CommandError(CommandError::Busy),
            )),
            CommandStatus::ErrorContinuousCommandInterrupted => Err(crate::error::Error::Rpc(
                Error::CommandError(CommandError::ContinuousCommandInterrupted),
            )),
            CommandStatus::ErrorInvalidParameters => Err(crate::error::Error::Rpc(
                Error::CommandError(CommandError::InvalidParameters),
            )),
            CommandStatus::ErrorStorageNotReady => Err(crate::error::Error::Rpc(
                Error::StorageError(StorageError::NotReady),
            )),
            CommandStatus::ErrorStorageExist => Err(crate::error::Error::Rpc(
                Error::StorageError(StorageError::AlreadyExists),
            )),
            CommandStatus::ErrorStorageNotExist => Err(crate::error::Error::Rpc(
                Error::StorageError(StorageError::NotFound),
            )),
            CommandStatus::ErrorStorageInvalidParameter => Err(crate::error::Error::Rpc(
                Error::StorageError(StorageError::InvalidParameter),
            )),
            CommandStatus::ErrorStorageDenied => Err(crate::error::Error::Rpc(
                Error::StorageError(StorageError::PermissionDenied),
            )),
            CommandStatus::ErrorStorageInvalidName => Err(crate::error::Error::Rpc(
                Error::StorageError(StorageError::InvalidName),
            )),
            CommandStatus::ErrorStorageInternal => Err(crate::error::Error::Rpc(
                Error::StorageError(StorageError::Internal),
            )),
            CommandStatus::ErrorStorageNotImplemented => Err(crate::error::Error::Rpc(
                Error::StorageError(StorageError::NotImplemented),
            )),
            CommandStatus::ErrorStorageAlreadyOpen => Err(crate::error::Error::Rpc(
                Error::StorageError(StorageError::AlreadyOpen),
            )),
            CommandStatus::ErrorStorageDirNotEmpty => Err(crate::error::Error::Rpc(
                Error::StorageError(StorageError::DirectoryNotEmpty),
            )),
            CommandStatus::ErrorAppCantStart => Err(crate::error::Error::Rpc(
                Error::ApplicationError(ApplicationError::CannotStart),
            )),
            CommandStatus::ErrorAppSystemLocked => Err(crate::error::Error::Rpc(
                Error::ApplicationError(ApplicationError::SystemLocked),
            )),
            CommandStatus::ErrorAppNotRunning => Err(crate::error::Error::Rpc(
                Error::ApplicationError(ApplicationError::RpcUnavailable),
            )),
            CommandStatus::ErrorAppCmdError => Err(crate::error::Error::Rpc(
                Error::ApplicationError(ApplicationError::CommandExecution),
            )),
            CommandStatus::ErrorVirtualDisplayAlreadyStarted => Err(crate::error::Error::Rpc(
                Error::VirtualDisplayError(VirtualDisplayError::AlreadyStarted),
            )),
            CommandStatus::ErrorVirtualDisplayNotStarted => Err(crate::error::Error::Rpc(
                Error::VirtualDisplayError(VirtualDisplayError::NotStarted),
            )),
            CommandStatus::ErrorGpioModeIncorrect => Err(crate::error::Error::Rpc(
                Error::GPIOError(GPIOError::IncorrectMode),
            )),
            CommandStatus::ErrorGpioUnknownPinMode => Err(crate::error::Error::Rpc(
                Error::GPIOError(GPIOError::UnknownMode),
            )),
        }
    }
}

/// The status mapping is deterministic and one-to-one: two distinct
/// non-success statuses never map to the same (category, reason) pair.
pub proof fn lemma_status_error_one_to_one(a: CommandStatus, b: CommandStatus)
    requires
        a != CommandStatus::Success,
        b != CommandStatus::Success,
        spec_status_error(a) == spec_status_error(b),
    ensures
        a == b,
{
}

} // verus!
