//! Removal of files and directories.

use vstd::prelude::*;

use crate::error::Error;
use crate::fs::{check_status, spec_unit_outcome};
use crate::proto::DeleteRequest;
use crate::rpc::req::{Request, spec_request_main};
use crate::transport::{Transport, TransportRaw};

verus! {

/// Removal of a file or directory over an RPC transport.
pub trait FsRemove: TransportRaw {
    /// Removes the file or directory at `path`, recursing into
    /// directories when `recursive` holds.  Sends one delete request
    /// under the current counter value, advancing the counter by one, and
    /// succeeds exactly when the device acknowledges with a success
    /// status.
    fn fs_remove(&mut self, path: &String, recursive: bool) -> (r: Result<(), Error>)
        ensures
            final(self).index_view() == old(self).index_view().wrapping_add(1),
            r is Ok ==> final(self).sent_view() == old(self).sent_view().push(
                spec_request_main(
                    Request::StorageDelete(DeleteRequest { path: *path, recursive }),
                    old(self).index_view(),
                ),
            ),
            final(self).recv_view() == old(self).recv_view() || final(self).recv_view() == old(
                self,
            ).recv_view().push(final(self).recv_view().last()),
            final(self).recv_view() != old(self).recv_view() ==> spec_unit_outcome(
                final(self).recv_view().last(),
                r,
            ),
            final(self).recv_view() == old(self).recv_view() ==> r is Err,
    ;
}

impl<T: TransportRaw> FsRemove for T {
    fn fs_remove(&mut self, path: &String, recursive: bool) -> (r: Result<(), Error>) {
        let req = Request::StorageDelete(DeleteRequest { path: path.clone(), recursive });
        self.send(req)?;
        let m = self.receive_raw()?;
        match check_status(m) {
            Ok(_m) => Ok(()),
            Err(e) => Err(e),
        }
    }
}

} // verus!
