//! Device-side tar extraction.

use vstd::prelude::*;

use crate::error::Error;
use crate::fs::{check_status, spec_unit_outcome};
use crate::rpc::req::{Request, spec_request_main};
use crate::transport::{Transport, TransportRaw};

verus! {

/// Device-side extraction of a tar archive over an RPC transport.
pub trait FsTarExtract: TransportRaw {
    /// Extracts the archive at `path` into `out`, both on the device.
    /// Sends one request under the current counter value, advancing the
    /// counter by one, and succeeds exactly when the device acknowledges
    /// with a success status.
    fn fs_extract_tgz(&mut self, path: &String, out: &String) -> (r: Result<(), Error>)
        ensures
            final(self).index_view() == old(self).index_view().wrapping_add(1),
            r is Ok ==> final(self).sent_view() == old(self).sent_view().push(
                spec_request_main(
                    Request::StorageTarExtract(*path, *out),
                    old(self).index_view(),
                ),
            ),
            final(self).recv_view() == old(self).recv_view() || final(self).recv_view() == old(
                self,
            ).recv_view().push(final(self).recv_view().last()),
            final(self).recv_view() != old(self).recv_view() ==> spec_unit_outcome(
                final(self).recv_view().last(),
                r,
            ),
            final(self).recv_view() == old(self).recv_view() ==> r is Err,
    ;
}

impl<T: TransportRaw> FsTarExtract for T {
    fn fs_extract_tgz(&mut self, path: &String, out: &String) -> (r: Result<(), Error>) {
        self.send(Request::StorageTarExtract(path.clone(), out.clone()))?;
        let m = self.receive_raw()?;
        match check_status(m) {
            Ok(_m) => Ok(()),
            Err(e) => Err(e),
        }
    }
}

} // verus!
