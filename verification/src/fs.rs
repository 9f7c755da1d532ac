//! Filesystem operations over an RPC transport: directory creation and
//! listing, removal, metadata, device-side digests and tar extraction,
//! and the chunked read and write engines.
//!
//! Every operation sends requests under the session's sequence counter
//! and judges each response by its status code.  The contracts are stated
//! over the transport's transcript views: what was sent, what was
//! received, and how the counter moved.

use vstd::prelude::*;

use crate::error::Error;
use crate::proto::{CommandStatus, Main, spec_status_from_code};
use crate::rpc::error::spec_status_error;

pub mod create_dir;
pub mod md5;
pub mod metadata;
pub mod read;
pub mod read_dir;
pub mod remove;
pub mod tar;
pub mod write;

pub use create_dir::FsCreateDir;
pub use md5::FsMd5;
pub use metadata::FsMetadata;
pub use read::FsRead;
pub use read_dir::FsReadDir;
pub use remove::FsRemove;
pub use tar::FsTarExtract;
pub use write::FsWrite;

verus! {

/// The status of a received message is the success code.
pub open spec fn spec_is_success(m: Main) -> bool {
    spec_status_from_code(m.command_status) == Some(CommandStatus::Success)
}

/// How an operation that only awaits acknowledgement judges its response
/// `m`: success yields `Ok`, a recognized error status its categorized
/// error, and an unrecognized status code an error of its own.
pub open spec fn spec_unit_outcome(m: Main, r: Result<(), Error>) -> bool {
    match spec_status_from_code(m.command_status) {
        None => r == Result::<(), Error>::Err(Error::UnknownStatus(m.command_status)),
        Some(st) => if st == CommandStatus::Success {
            r is Ok
        } else {
            r == Result::<(), Error>::Err(Error::Rpc(spec_status_error(st)))
        },
    }
}

/// Judges one received message by its status code: success passes the
/// message through, everything else is the corresponding error.
pub fn check_status(m: Main) -> (r: Result<Main, Error>)
    ensures
        spec_is_success(m) <==> r == Result::<Main, Error>::Ok(m),
        !spec_is_success(m) ==> match spec_status_from_code(m.command_status) {
            None => r == Result::<Main, Error>::Err(Error::UnknownStatus(m.command_status)),
            Some(st) => r == Result::<Main, Error>::Err(Error::Rpc(spec_status_error(st))),
        },
{
    match CommandStatus::from_code(m.command_status) {
        None => Err(Error::UnknownStatus(m.command_status)),
        Some(st) => st.into_result(m),
    }
}

} // verus!
