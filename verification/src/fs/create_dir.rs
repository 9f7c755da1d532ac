//! Directory creation.

use vstd::prelude::*;

use crate::error::Error;
use crate::proto::{CommandStatus, Main, spec_status_from_code};
use crate::rpc::error::spec_status_error;
use crate::rpc::req::{Request, spec_request_main};
use crate::transport::{Transport, TransportRaw};

verus! {

/// How directory creation judges its response `m`: plain success means
/// the directory did not exist and was created (`Ok(false)`); an
/// already-exists status is not an error but reports `Ok(true)`; every
/// other status is its categorized error, and an unrecognized code an
/// error of its own.
pub open spec fn spec_mkdir_outcome(m: Main, r: Result<bool, Error>) -> bool {
    match spec_status_from_code(m.command_status) {
        None => r == Result::<bool, Error>::Err(Error::UnknownStatus(m.command_status)),
        Some(st) => if st == CommandStatus::Success {
            r == Result::<bool, Error>::Ok(false)
        } else if st == CommandStatus::ErrorStorageExist {
            r == Result::<bool, Error>::Ok(true)
        } else {
            r == Result::<bool, Error>::Err(Error::Rpc(spec_status_error(st)))
        },
    }
}

/// Directory creation over an RPC transport.
pub trait FsCreateDir: TransportRaw {
    /// Creates a directory at `path` and reports whether it already
    /// existed: `Ok(false)` when it was created, `Ok(true)` when the
    /// device answered that it exists.  Sends one request under the
    /// current counter value, advancing the counter by one.
    fn fs_create_dir(&mut self, path: &String) -> (r: Result<bool, Error>)
        ensures
            final(self).index_view() == old(self).index_view().wrapping_add(1),
            r is Ok ==> final(self).sent_view() == old(self).sent_view().push(
                spec_request_main(Request::StorageMkdir(*path), old(self).index_view()),
            ),
            final(self).recv_view() == old(self).recv_view() || final(self).recv_view() == old(
                self,
            ).recv_view().push(final(self).recv_view().last()),
            final(self).recv_view() != old(self).recv_view() ==> spec_mkdir_outcome(
                final(self).recv_view().last(),
                r,
            ),
            final(self).recv_view() == old(self).recv_view() ==> r is Err,
    ;
}

impl<T: TransportRaw> FsCreateDir for T {
    fn fs_create_dir(&mut self, path: &String) -> (r: Result<bool, Error>) {
        self.send(Request::StorageMkdir(path.clone()))?;
        let m = self.receive_raw()?;
        match CommandStatus::from_code(m.command_status) {
            None => Err(Error::UnknownStatus(m.command_status)),
            Some(CommandStatus::Success) => Ok(false),
            Some(CommandStatus::ErrorStorageExist) => Ok(true),
            Some(st) => match st.into_result(()) {
                Ok(_u) => Ok(false),
                Err(e) => Err(e),
            },
        }
    }
}

} // verus!
