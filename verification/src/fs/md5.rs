//! Device-side MD5 digests: the device computes the digest of one of its
//! own files and reports it.

use vstd::prelude::*;

use crate::error::Error;
use crate::proto::{Content, Main, spec_status_from_code};
use crate::rpc::error::spec_status_error;
use crate::rpc::req::{Request, spec_request_main};
use crate::transport::{Transport, TransportRaw};
use crate::fs::{check_status, spec_is_success};

verus! {

/// How a digest request judges its response `m`: on success the digest
/// carried in the response is the result; a success response without a
/// digest is invalid; every other status is its categorized error.
pub open spec fn spec_md5_outcome(m: Main, r: Result<String, Error>) -> bool {
    match spec_status_from_code(m.command_status) {
        None => r == Result::<String, Error>::Err(Error::UnknownStatus(m.command_status)),
        Some(st) => if spec_is_success(m) {
            match m.content {
                Some(Content::StorageMd5sumResponse(digest)) => r == Result::<String, Error>::Ok(
                    digest,
                ),
                _ => r == Result::<String, Error>::Err(Error::InvalidResponse),
            }
        } else {
            r == Result::<String, Error>::Err(Error::Rpc(spec_status_error(st)))
        },
    }
}

/// Device-side MD5 digests over an RPC transport.
pub trait FsMd5: TransportRaw {
    /// Asks the device to compute the MD5 digest of the file at `path`.
    /// Nothing is hashed locally.  Sends one request under the current
    /// counter value, advancing the counter by one.
    fn fs_md5(&mut self, path: &String) -> (r: Result<String, Error>)
        ensures
            final(self).index_view() == old(self).index_view().wrapping_add(1),
            r is Ok ==> final(self).sent_view() == old(self).sent_view().push(
                spec_request_main(Request::StorageMd5sum(*path), old(self).index_view()),
            ),
            final(self).recv_view() == old(self).recv_view() || final(self).recv_view() == old(
                self,
            ).recv_view().push(final(self).recv_view().last()),
            final(self).recv_view() != old(self).recv_view() ==> spec_md5_outcome(
                final(self).recv_view().last(),
                r,
            ),
            final(self).recv_view() == old(self).recv_view() ==> r is Err,
    ;
}

impl<T: TransportRaw> FsMd5 for T {
    fn fs_md5(&mut self, path: &String) -> (r: Result<String, Error>) {
        self.send(Request::StorageMd5sum(path.clone()))?;
        let m = self.receive_raw()?;
        let m = check_status(m)?;
        match m.content {
            Some(Content::StorageMd5sumResponse(digest)) => Ok(digest),
            _ => Err(Error::InvalidResponse),
        }
    }
}

} // verus!
