//! Status mapping: total over the recognized code set, deterministic,
//! and one (category, reason) pair per code.

use flipper_rpc::error::Error;
use flipper_rpc::proto::CommandStatus;
use flipper_rpc::rpc::error::{
    ApplicationError, CommandError, Error as RpcError, GPIOError, StorageError,
    VirtualDisplayError,
};

fn all_statuses() -> Vec<CommandStatus> {
    vec![
        CommandStatus::Success,
        CommandStatus::Error,
        CommandStatus::ErrorDecode,
        CommandStatus::ErrorNotImplemented,
        CommandStatus::ErrorBusy,
        CommandStatus::ErrorContinuousCommandInterrupted,
        CommandStatus::ErrorInvalidParameters,
        CommandStatus::ErrorStorageNotReady,
        CommandStatus::ErrorStorageExist,
        CommandStatus::ErrorStorageNotExist,
        CommandStatus::ErrorStorageInvalidParameter,
        CommandStatus::ErrorStorageDenied,
        CommandStatus::ErrorStorageInvalidName,
        CommandStatus::ErrorStorageInternal,
        CommandStatus::ErrorStorageNotImplemented,
        CommandStatus::ErrorStorageAlreadyOpen,
        CommandStatus::ErrorStorageDirNotEmpty,
        CommandStatus::ErrorAppCantStart,
        CommandStatus::ErrorAppSystemLocked,
        CommandStatus::ErrorAppNotRunning,
        CommandStatus::ErrorAppCmdError,
        CommandStatus::ErrorVirtualDisplayAlreadyStarted,
        CommandStatus::ErrorVirtualDisplayNotStarted,
        CommandStatus::ErrorGpioModeIncorrect,
        CommandStatus::ErrorGpioUnknownPinMode,
    ]
}

#[test]
fn codes_round_trip() {
    for s in all_statuses() {
        let code = s.to_code();
        assert_eq!(CommandStatus::from_code(code), Some(s));
    }
}

#[test]
fn codes_are_distinct() {
    let statuses = all_statuses();
    for (i, a) in statuses.iter().enumerate() {
        for (j, b) in statuses.iter().enumerate() {
            if i != j {
                assert_ne!(a.to_code(), b.to_code());
            }
        }
    }
}

#[test]
fn unknown_codes_are_rejected() {
    for code in [-1, 23, 24, 57, 60, 1000] {
        assert_eq!(CommandStatus::from_code(code), None);
    }
}

#[test]
fn success_never_maps_to_an_error() {
    assert_eq!(CommandStatus::Success.into_result(41u32), Ok(41u32));
}

#[test]
fn every_error_status_maps_to_its_pair() {
    let cases: Vec<(CommandStatus, RpcError)> = vec![
        (CommandStatus::Error, RpcError::CommandError(CommandError::Unknown)),
        (CommandStatus::ErrorDecode, RpcError::CommandError(CommandError::Decode)),
        (
            CommandStatus::ErrorNotImplemented,
            RpcError::CommandError(CommandError::NotImplemented),
        ),
        (CommandStatus::ErrorBusy, RpcError::CommandError(CommandError::Busy)),
        (
            CommandStatus::ErrorContinuousCommandInterrupted,
            RpcError::CommandError(CommandError::ContinuousCommandInterrupted),
        ),
        (
            CommandStatus::ErrorInvalidParameters,
            RpcError::CommandError(CommandError::InvalidParameters),
        ),
        (CommandStatus::ErrorStorageNotReady, RpcError::StorageError(StorageError::NotReady)),
        (
            CommandStatus::ErrorStorageExist,
            RpcError::StorageError(StorageError::AlreadyExists),
        ),
        (CommandStatus::ErrorStorageNotExist, RpcError::StorageError(StorageError::NotFound)),
        (
            CommandStatus::ErrorStorageInvalidParameter,
            RpcError::StorageError(StorageError::InvalidParameter),
        ),
        (
            CommandStatus::ErrorStorageDenied,
            RpcError::StorageError(StorageError::PermissionDenied),
        ),
        (
            CommandStatus::ErrorStorageInvalidName,
            RpcError::StorageError(StorageError::InvalidName),
        ),
        (CommandStatus::ErrorStorageInternal, RpcError::StorageError(StorageError::Internal)),
        (
            CommandStatus::ErrorStorageNotImplemented,
            RpcError::StorageError(StorageError::NotImplemented),
        ),
        (
            CommandStatus::ErrorStorageAlreadyOpen,
            RpcError::StorageError(StorageError::AlreadyOpen),
        ),
        (
            CommandStatus::ErrorStorageDirNotEmpty,
            RpcError::StorageError(StorageError::DirectoryNotEmpty),
        ),
        (
            CommandStatus::ErrorAppCantStart,
            RpcError::ApplicationError(ApplicationError::CannotStart),
        ),
        (
            CommandStatus::ErrorAppSystemLocked,
            RpcError::ApplicationError(ApplicationError::SystemLocked),
        ),
        (
            CommandStatus::ErrorAppNotRunning,
            RpcError::ApplicationError(ApplicationError::RpcUnavailable),
        ),
        (
            CommandStatus::ErrorAppCmdError,
            RpcError::ApplicationError(ApplicationError::CommandExecution),
        ),
        (
            CommandStatus::ErrorVirtualDisplayAlreadyStarted,
            RpcError::VirtualDisplayError(VirtualDisplayError::AlreadyStarted),
        ),
        (
            CommandStatus::ErrorVirtualDisplayNotStarted,
            RpcError::VirtualDisplayError(VirtualDisplayError::NotStarted),
        ),
        (CommandStatus::ErrorGpioModeIncorrect, RpcError::GPIOError(GPIOError::IncorrectMode)),
        (
            CommandStatus::ErrorGpioUnknownPinMode,
            RpcError::GPIOError(GPIOError::UnknownMode),
        ),
    ];
    assert_eq!(cases.len(), 24);
    for (status, expected) in cases {
        assert_eq!(status.into_result(()), Err(Error::Rpc(expected)));
    }
}
