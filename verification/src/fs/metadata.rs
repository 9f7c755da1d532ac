//! File metadata: the device reports only the size of a file, and
//! answers a directory with an invalid-name error.

use vstd::prelude::*;

use crate::error::Error;
use crate::proto::{Content, Main, spec_status_from_code};
use crate::rpc::error::spec_status_error;
use crate::rpc::req::{Request, spec_request_main};
use crate::transport::{Transport, TransportRaw};
use crate::fs::{check_status, spec_is_success};

verus! {

/// How a metadata request judges its response `m`: on success the size
/// carried in the response is the result, a success response without one
/// fails, and every other status is its categorized error.
pub open spec fn spec_metadata_outcome(m: Main, r: Result<u32, Error>) -> bool {
    match spec_status_from_code(m.command_status) {
        None => r == Result::<u32, Error>::Err(Error::UnknownStatus(m.command_status)),
        Some(st) => if spec_is_success(m) {
            match m.content {
                Some(Content::StorageStatResponse(Some(size))) => r == Result::<u32, Error>::Ok(
                    size,
                ),
                Some(Content::StorageStatResponse(None)) => r == Result::<u32, Error>::Err(
                    Error::ReadFailed,
                ),
                _ => r == Result::<u32, Error>::Err(Error::InvalidResponse),
            }
        } else {
            r == Result::<u32, Error>::Err(Error::Rpc(spec_status_error(st)))
        },
    }
}

/// File metadata over an RPC transport.
pub trait FsMetadata: TransportRaw {
    /// Returns the size in bytes of the file at `path`.  Sends one
    /// request under the current counter value, advancing the counter by
    /// one.
    fn fs_metadata(&mut self, path: &String) -> (r: Result<u32, Error>)
        ensures
            final(self).index_view() == old(self).index_view().wrapping_add(1),
            r is Ok ==> final(self).sent_view() == old(self).sent_view().push(
                spec_request_main(Request::StorageMetadata(*path), old(self).index_view()),
            ),
            final(self).recv_view() == old(self).recv_view() || final(self).recv_view() == old(
                self,
            ).recv_view().push(final(self).recv_view().last()),
            final(self).recv_view() != old(self).recv_view() ==> spec_metadata_outcome(
                final(self).recv_view().last(),
                r,
            ),
            final(self).recv_view() == old(self).recv_view() ==> r is Err,
    ;
}

impl<T: TransportRaw> FsMetadata for T {
    fn fs_metadata(&mut self, path: &String) -> (r: Result<u32, Error>) {
        self.send(Request::StorageMetadata(path.clone()))?;
        let m = self.receive_raw()?;
        let m = check_status(m)?;
        match m.content {
            Some(Content::StorageStatResponse(Some(size))) => Ok(size),
            Some(Content::StorageStatResponse(None)) => Err(Error::ReadFailed),
            _ => Err(Error::InvalidResponse),
        }
    }
}

} // verus!
