//! Directory listing: a chained operation that accumulates structured
//! entry records instead of raw bytes, with the same `has_next` pattern
//! as the chunked read.

use vstd::prelude::*;

use crate::error::Error;
use crate::fs::{check_status, spec_is_success};
use crate::proto::{Content, ListRequest, Main, StorageFile};
use crate::rpc::req::{Request, spec_request_main};
use crate::rpc::res::{ReadDirItem, spec_dir_item};
use crate::transport::{Transport, TransportRaw};

verus! {

/// The entry records a frame of a listing chain carries: present exactly
/// when the frame has a success status and a listing.
pub open spec fn spec_list_frame_files(m: Main) -> Option<Seq<StorageFile>> {
    if spec_is_success(m) {
        match m.content {
            Some(Content::StorageListResponse(files)) => Some(files@),
            _ => None,
        }
    } else {
        None
    }
}

/// The entries of a listing frame, converted, or empty when it carries
/// none.
pub open spec fn spec_list_frame_items(m: Main) -> Seq<ReadDirItem> {
    match spec_list_frame_files(m) {
        Some(files) => files.map_values(|f: StorageFile| spec_dir_item(f)),
        None => Seq::empty(),
    }
}

/// The converted entries of a chain's frames, per frame, in order.
pub open spec fn spec_frames_items(frames: Seq<Main>) -> Seq<Seq<ReadDirItem>> {
    frames.map_values(|m: Main| spec_list_frame_items(m))
}

/// The first `upto` frames are continuation frames: successful, carrying
/// a listing, with `has_next` set.
pub open spec fn spec_list_frames_good(frames: Seq<Main>, upto: int) -> bool {
    forall|j: int|
        0 <= j < upto ==> spec_list_frame_files(#[trigger] frames[j]) is Some
            && frames[j].has_next
}

/// How a frame of a listing chain fails the listing with error `e`: an
/// unrecognized status code is its own error, a recognized non-success
/// status its categorized error, and a success frame fails exactly when
/// its content is not a listing.
pub open spec fn spec_list_frame_error(m: Main, e: Error) -> bool {
    match crate::proto::spec_status_from_code(m.command_status) {
        None => e == Error::UnknownStatus(m.command_status),
        Some(st) => if st == crate::proto::CommandStatus::Success {
            match m.content {
                Some(Content::StorageListResponse(_)) => false,
                _ => e == Error::InvalidResponse,
            }
        } else {
            e == Error::Rpc(crate::rpc::error::spec_status_error(st))
        },
    }
}

/// A failed listing left the received frames in one of two shapes:
/// either every frame received was a continuation frame (the failure
/// came from the channel), or the last frame received is the one that
/// failed the listing with exactly this error.
pub open spec fn spec_list_abort(frames: Seq<Main>, e: Error) -> bool {
    ||| spec_list_frames_good(frames, frames.len() as int)
    ||| (frames.len() >= 1 && spec_list_frames_good(frames, frames.len() - 1)
        && spec_list_frame_error(frames.last(), e))
}

/// A completed listing chain: at least one frame, every frame successful
/// and carrying a listing, every frame but the last with `has_next` set,
/// the last with it clear, and the output exactly the converted entries
/// in order.
pub open spec fn spec_list_chain(frames: Seq<Main>, items: Seq<ReadDirItem>) -> bool {
    &&& frames.len() >= 1
    &&& (forall|j: int|
        0 <= j < frames.len() ==> spec_list_frame_files(#[trigger] frames[j]) is Some)
    &&& (forall|j: int| 0 <= j < frames.len() - 1 ==> (#[trigger] frames[j]).has_next)
    &&& !frames.last().has_next
    &&& items == spec_frames_items(frames).flatten()
}

/// Directory listing over an RPC transport.
pub trait FsReadDir: TransportRaw {
    /// Lists the entries of the directory at `path`, asking the device to
    /// include MD5 digests when `include_md5` holds.  Sends one listing
    /// request under the current counter value (advancing the counter by
    /// one), then accumulates continuation frames until the first with
    /// `has_next` clear.
    fn fs_read_dir(&mut self, path: &String, include_md5: bool) -> (r: Result<
        Vec<ReadDirItem>,
        Error,
    >)
        ensures
            final(self).index_view() == old(self).index_view().wrapping_add(1),
            r matches Ok(items) ==> {
                &&& final(self).sent_view() == old(self).sent_view().push(
                    spec_request_main(
                        Request::StorageList(
                            ListRequest { path: *path, include_md5, filter_max_size: 0 },
                        ),
                        old(self).index_view(),
                    ),
                )
                &&& spec_list_chain(
                    final(self).recv_view().skip(old(self).recv_view().len() as int),
                    items@,
                )
            },
            r matches Err(e) ==> spec_list_abort(
                final(self).recv_view().skip(old(self).recv_view().len() as int),
                e,
            ),
    ;
}

impl<T: TransportRaw> FsReadDir for T {
    fn fs_read_dir(&mut self, path: &String, include_md5: bool) -> (r: Result<
        Vec<ReadDirItem>,
        Error,
    >) {
        let req = Request::StorageList(
            ListRequest { path: path.clone(), include_md5, filter_max_size: 0 },
        );
        match self.send(req) {
            Ok(_u) => (),
            Err(e) => {
                proof {
                    assert(self.recv_view().skip(old(self).recv_view().len() as int)
                        =~= Seq::<Main>::empty());
                    assert(spec_list_frames_good(
                        self.recv_view().skip(old(self).recv_view().len() as int),
                        0,
                    ));
                }
                return Err(e);
            },
        }
        let ghost recv0 = self.recv_view();
        let ghost sent1 = self.sent_view();
        let ghost index1 = self.index_view();
        proof {
            assert(recv0.take(recv0.len() as int) =~= recv0);
            assert(recv0.skip(recv0.len() as int) =~= Seq::<Main>::empty());
            assert(spec_frames_items(Seq::<Main>::empty()).flatten()
                =~= Seq::<ReadDirItem>::empty());
        }
        let mut items: Vec<ReadDirItem> = Vec::new();
        // A chain longer than the machine's address space cannot arise; a
        // bound is still needed so that the loop provably terminates.
        let mut fuel: usize = usize::MAX;
        loop
            invariant
                index1 == old(self).index_view().wrapping_add(1),
                sent1 == old(self).sent_view().push(
                    spec_request_main(
                        Request::StorageList(
                            ListRequest { path: *path, include_md5, filter_max_size: 0 },
                        ),
                        old(self).index_view(),
                    ),
                ),
                recv0 == old(self).recv_view(),
                self.index_view() == index1,
                self.sent_view() == sent1,
                recv0.len() <= self.recv_view().len(),
                recv0 == self.recv_view().take(recv0.len() as int),
                forall|j: int|
                    recv0.len() <= j < self.recv_view().len() ==> spec_list_frame_files(
                        #[trigger] self.recv_view()[j],
                    ) is Some && self.recv_view()[j].has_next,
                items@ == spec_frames_items(self.recv_view().skip(recv0.len() as int)).flatten(),
            decreases fuel,
        {
            if fuel == 0 {
                proof {
                    let suffix = self.recv_view().skip(recv0.len() as int);
                    assert forall|j: int| 0 <= j < suffix.len() implies spec_list_frame_files(
                        #[trigger] suffix[j],
                    ) is Some && suffix[j].has_next by {
                        assert(suffix[j] == self.recv_view()[recv0.len() + j]);
                    }
                    assert(spec_list_frames_good(suffix, suffix.len() as int));
                }
                return Err(Error::InvalidResponse);
            }
            fuel = fuel - 1;
            let ghost recv_before = self.recv_view();
            let m = match self.receive_raw() {
                Ok(m) => m,
                Err(e) => {
                    proof {
                        let suffix = self.recv_view().skip(recv0.len() as int);
                        assert forall|j: int| 0 <= j
                            < suffix.len() implies spec_list_frame_files(
                            #[trigger] suffix[j],
                        ) is Some && suffix[j].has_next by {
                            assert(suffix[j] == self.recv_view()[recv0.len() + j]);
                        }
                        assert(spec_list_frames_good(suffix, suffix.len() as int));
                    }
                    return Err(e);
                },
            };
            let ghost mm = m;
            proof {
                let suffix = self.recv_view().skip(recv0.len() as int);
                assert(suffix.len() >= 1);
                assert(suffix.last() == mm);
                assert forall|j: int| 0 <= j < suffix.len() - 1 implies spec_list_frame_files(
                    #[trigger] suffix[j],
                ) is Some && suffix[j].has_next by {
                    assert(suffix[j] == self.recv_view()[recv0.len() + j]);
                    assert(self.recv_view()[recv0.len() + j] == recv_before[recv0.len() + j]);
                }
                assert(spec_list_frames_good(suffix, suffix.len() - 1));
            }
            let m = match check_status(m) {
                Ok(m) => m,
                Err(e) => {
                    proof {
                        assert(spec_list_frame_error(mm, e));
                    }
                    return Err(e);
                },
            };
            let has_next = m.has_next;
            match m.into_response() {
                crate::rpc::res::Response::StorageList(chunk) => {
                    let ghost items_before = items@;
                    let mut chunk = chunk;
                    items.append(&mut chunk);
                    proof {
                        assert(items@ =~= items_before + spec_list_frame_items(mm));
                        let consumed = recv_before.skip(recv0.len() as int);
                        let per = spec_frames_items(consumed);
                        let consumed2 = self.recv_view().skip(recv0.len() as int);
                        assert(consumed2 =~= consumed.push(mm));
                        let per2 = per.push(spec_list_frame_items(mm));
                        assert(spec_frames_items(consumed2) =~= per2);
                        per.lemma_flatten_and_flatten_alt_are_equivalent();
                        per2.lemma_flatten_and_flatten_alt_are_equivalent();
                        assert(per2.drop_last() =~= per);
                        assert(per2.flatten_alt() == per.flatten_alt() + spec_list_frame_items(
                            mm,
                        ));
                        assert(spec_frames_items(consumed2) == per2);
                        assert(items@ == spec_frames_items(consumed2).flatten());
                    }
                },
                _ => {
                    proof {
                        assert(spec_list_frame_error(mm, Error::InvalidResponse));
                    }
                    return Err(Error::InvalidResponse);
                },
            }
            if !has_next {
                proof {
                    let chain = self.recv_view().skip(recv0.len() as int);
                    assert(chain.last() == mm);
                }
                return Ok(items);
            }
        }
    }
}

} // verus!
