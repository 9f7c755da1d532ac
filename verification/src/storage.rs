//! A single facade over the filesystem operations, for callers that want
//! one trait instead of several.

use vstd::prelude::*;

use crate::error::Error;
use crate::fs::read::{FsRead, spec_read_abort, spec_read_chain};
use crate::fs::read_dir::{FsReadDir, spec_list_abort, spec_list_chain};
use crate::fs::remove::FsRemove;
use crate::fs::write::{
    FsWrite, spec_chunks, spec_pings_wrapped, spec_write_chain, spec_write_chain_upto,
};
use crate::fs::{check_status, spec_unit_outcome};
use crate::proto::{DeleteRequest, ListRequest};
use crate::rpc::req::{Request, spec_request_main};
use crate::rpc::res::ReadDirItem;
use crate::text::file_name_chars;
use crate::transport::{Transport, TransportRaw};
use crate::CHUNK_SIZE;

verus! {

/// Filesystem interaction over an RPC transport, as one facade: listing,
/// directory creation, removal, and the chunked read and write engines.
pub trait FlipperFs: FsRead + FsWrite + FsReadDir + FsRemove {
    /// Lists the entries of the directory at `path`, without digests.
    fn fs_readdir(&mut self, path: &String) -> (r: Result<Vec<ReadDirItem>, Error>)
        ensures
            final(self).index_view() == old(self).index_view().wrapping_add(1),
            r matches Ok(items) ==> {
                &&& final(self).sent_view() == old(self).sent_view().push(
                    spec_request_main(
                        Request::StorageList(
                            ListRequest { path: *path, include_md5: false, filter_max_size: 0 },
                        ),
                        old(self).index_view(),
                    ),
                )
                &&& spec_list_chain(
                    final(self).recv_view().skip(old(self).recv_view().len() as int),
                    items@,
                )
            },
            r matches Err(e) ==> spec_list_abort(
                final(self).recv_view().skip(old(self).recv_view().len() as int),
                e,
            ),
    ;

    /// Creates a directory at `path`; any non-success status, including
    /// an already-existing directory, is an error.
    fn fs_mkdir(&mut self, path: &String) -> (r: Result<(), Error>)
        ensures
            final(self).index_view() == old(self).index_view().wrapping_add(1),
            r is Ok ==> final(self).sent_view() == old(self).sent_view().push(
                spec_request_main(Request::StorageMkdir(*path), old(self).index_view()),
            ),
            final(self).recv_view() != old(self).recv_view() ==> spec_unit_outcome(
                final(self).recv_view().last(),
                r,
            ) && final(self).recv_view() == old(self).recv_view().push(
                final(self).recv_view().last(),
            ),
            final(self).recv_view() == old(self).recv_view() ==> r is Err,
    ;

    /// Removes the file or directory at `path`, recursively.
    fn fs_rm(&mut self, path: &String) -> (r: Result<(), Error>)
        ensures
            final(self).index_view() == old(self).index_view().wrapping_add(1),
            r is Ok ==> final(self).sent_view() == old(self).sent_view().push(
                spec_request_main(
                    Request::StorageDelete(DeleteRequest { path: *path, recursive: true }),
                    old(self).index_view(),
                ),
            ),
            final(self).recv_view() == old(self).recv_view() || final(self).recv_view() == old(
                self,
            ).recv_view().push(final(self).recv_view().last()),
            final(self).recv_view() != old(self).recv_view() ==> spec_unit_outcome(
                final(self).recv_view().last(),
                r,
            ),
            final(self).recv_view() == old(self).recv_view() ==> r is Err,
    ;

    /// Reads the whole file at `path` through the chunked read engine.
    fn fs_read_file(&mut self, path: &String) -> (r: Result<Vec<u8>, Error>)
        ensures
            final(self).index_view() == old(self).index_view().wrapping_add(1),
            r matches Ok(out) ==> {
                &&& final(self).sent_view() == old(self).sent_view().push(
                    spec_request_main(Request::StorageRead(*path), old(self).index_view()),
                )
                &&& spec_read_chain(
                    final(self).recv_view().skip(old(self).recv_view().len() as int),
                    out@,
                )
            },
            r matches Err(e) ==> spec_read_abort(
                final(self).recv_view().skip(old(self).recv_view().len() as int),
                e,
            ),
    ;

    /// Writes `data` to the file at `path` through the chunked write
    /// engine.
    fn fs_write_file(&mut self, path: &String, data: &Vec<u8>) -> (r: Result<(), Error>)
        ensures
            r is Ok ==> {
                let chunks = spec_chunks(data@, CHUNK_SIZE as nat);
                &&& spec_write_chain(
                    final(self).sent_view().skip(old(self).sent_view().len() as int),
                    path@,
                    file_name_chars(path@),
                    chunks,
                    old(self).index_view(),
                )
                &&& final(self).index_view() == old(self).index_view().wrapping_add(
                    spec_pings_wrapped(chunks.len() as nat).wrapping_add(1),
                )
            },
            r is Err ==> {
                let chunks = spec_chunks(data@, CHUNK_SIZE as nat);
                &&& final(self).index_view() == old(self).index_view()
                &&& exists|k: int, ping_done: bool|
                    spec_write_chain_upto(
                        final(self).sent_view().skip(old(self).sent_view().len() as int),
                        path@,
                        file_name_chars(path@),
                        chunks,
                        old(self).index_view(),
                        k,
                        ping_done,
                    )
            },
            r == Result::<(), Error>::Err(Error::InvalidInput) <==> file_name_chars(
                path@,
            ).len() == 0,
            file_name_chars(path@).len() == 0 ==> final(self).sent_view() == old(
                self,
            ).sent_view(),
    ;
}

impl<T: TransportRaw> FlipperFs for T {
    fn fs_readdir(&mut self, path: &String) -> (r: Result<Vec<ReadDirItem>, Error>) {
        self.fs_read_dir(path, false)
    }

    fn fs_mkdir(&mut self, path: &String) -> (r: Result<(), Error>) {
        self.send(Request::StorageMkdir(path.clone()))?;
        let m = self.receive_raw()?;
        match check_status(m) {
            Ok(_m) => Ok(()),
            Err(e) => Err(e),
        }
    }

    fn fs_rm(&mut self, path: &String) -> (r: Result<(), Error>) {
        self.fs_remove(path, true)
    }

    fn fs_read_file(&mut self, path: &String) -> (r: Result<Vec<u8>, Error>) {
        self.fs_read(path)
    }

    fn fs_write_file(&mut self, path: &String, data: &Vec<u8>) -> (r: Result<(), Error>) {
        self.fs_write(path, data)
    }
}

} // verus!
