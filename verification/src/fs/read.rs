//! The chunked read engine.
//!
//! A read chain starts with a single request; the device then sends
//! continuation frames on its own, linked only by the `has_next` flag.
//! The engine accumulates every frame's payload and stops exactly on the
//! first frame whose flag is clear.  No sequence id is needed to continue
//! a read chain — the protocol is asymmetric in this respect: only write
//! chains carry one id on every chunk.

use vstd::prelude::*;
use vstd::utf8::{decode_utf8, valid_utf8};

use crate::error::Error;
use crate::fs::{check_status, spec_is_success};
use crate::proto::{Content, Main};
use crate::rpc::req::{Request, spec_request_main};
use crate::text::{lossy_utf8, string_from_utf8, string_from_utf8_lossy};
use crate::transport::{Transport, TransportRaw};

verus! {

/// The payload bytes a frame of a read chain carries: present exactly
/// when the frame has a success status and file data.
pub open spec fn spec_read_frame_data(m: Main) -> Option<Seq<u8>> {
    if spec_is_success(m) {
        match m.content {
            Some(Content::StorageReadResponse(Some(f))) => Some(f.data@),
            _ => None,
        }
    } else {
        None
    }
}

/// The payload of a frame, or empty when it carries none.
pub open spec fn spec_frame_data_or_empty(m: Main) -> Seq<u8> {
    match spec_read_frame_data(m) {
        Some(d) => d,
        None => Seq::empty(),
    }
}

/// The payloads of a chain's frames, in order.
pub open spec fn spec_frames_datas(frames: Seq<Main>) -> Seq<Seq<u8>> {
    frames.map_values(|m: Main| spec_frame_data_or_empty(m))
}

/// The first `upto` frames are continuation frames: successful, carrying
/// file data, with `has_next` set.
pub open spec fn spec_read_frames_good(frames: Seq<Main>, upto: int) -> bool {
    forall|j: int|
        0 <= j < upto ==> spec_read_frame_data(#[trigger] frames[j]) is Some
            && frames[j].has_next
}

/// How a frame of a read chain fails the read with error `e`: an
/// unrecognized status code is its own error, a recognized non-success
/// status its categorized error, and a success frame fails exactly when
/// it carries no file data (a missing file record) or content of the
/// wrong shape.
pub open spec fn spec_read_frame_error(m: Main, e: Error) -> bool {
    match crate::proto::spec_status_from_code(m.command_status) {
        None => e == Error::UnknownStatus(m.command_status),
        Some(st) => if st == crate::proto::CommandStatus::Success {
            match m.content {
                Some(Content::StorageReadResponse(Some(_))) => false,
                Some(Content::StorageReadResponse(None)) => e == Error::ReadFailed,
                _ => e == Error::InvalidResponse,
            }
        } else {
            e == Error::Rpc(crate::rpc::error::spec_status_error(st))
        },
    }
}

/// A failed read left the received frames in one of two shapes: either
/// every frame received was a continuation frame (the failure came from
/// the channel), or the last frame received is the one that failed the
/// read with exactly this error.
pub open spec fn spec_read_abort(frames: Seq<Main>, e: Error) -> bool {
    ||| spec_read_frames_good(frames, frames.len() as int)
    ||| (frames.len() >= 1 && spec_read_frames_good(frames, frames.len() - 1)
        && spec_read_frame_error(frames.last(), e))
}

/// A completed read chain: at least one frame, every frame successful and
/// carrying file data, every frame but the last with `has_next` set, the
/// last with it clear, and the output exactly the frame payloads in
/// order.
pub open spec fn spec_read_chain(frames: Seq<Main>, out: Seq<u8>) -> bool {
    &&& frames.len() >= 1
    &&& (forall|j: int| 0 <= j < frames.len() ==> spec_read_frame_data(#[trigger] frames[j]) is Some)
    &&& (forall|j: int| 0 <= j < frames.len() - 1 ==> (#[trigger] frames[j]).has_next)
    &&& !frames.last().has_next
    &&& out == spec_frames_datas(frames).flatten()
}

/// Sum of the payload lengths of a chain's frames.
pub open spec fn spec_frames_data_len(frames: Seq<Main>) -> nat
    decreases frames.len(),
{
    if frames.len() == 0 {
        0
    } else {
        spec_frame_data_or_empty(frames.first()).len() + spec_frames_data_len(frames.drop_first())
    }
}

/// Sum of the lengths of a sequence of sequences, front to back.
pub open spec fn spec_seq_lens_sum<A>(s: Seq<Seq<A>>) -> nat
    decreases s.len(),
{
    if s.len() == 0 {
        0
    } else {
        s.first().len() + spec_seq_lens_sum(s.drop_first())
    }
}

/// Flattening a sequence of sequences yields exactly the sum of their
/// lengths.
proof fn lemma_flatten_len<A>(s: Seq<Seq<A>>)
    ensures
        s.flatten().len() == spec_seq_lens_sum(s),
    decreases s.len(),
{
    if s.len() != 0 {
        lemma_flatten_len(s.drop_first());
    }
}

/// The accumulated output of a read chain is exactly as long as the sum
/// of the per-frame payload lengths.
pub proof fn lemma_read_chain_len(frames: Seq<Main>, out: Seq<u8>)
    requires
        spec_read_chain(frames, out),
    ensures
        out.len() == spec_frames_data_len(frames),
{
    let datas = spec_frames_datas(frames);
    lemma_flatten_len(datas);
    lemma_frames_data_len_alt(frames);
}

/// The recursive per-frame length sum agrees with the generic sum over
/// the mapped payloads.
proof fn lemma_frames_data_len_alt(frames: Seq<Main>)
    ensures
        spec_frames_data_len(frames) == spec_seq_lens_sum(spec_frames_datas(frames)),
    decreases frames.len(),
{
    let datas = spec_frames_datas(frames);
    if frames.len() != 0 {
        lemma_frames_data_len_alt(frames.drop_first());
        assert(datas.drop_first() =~= spec_frames_datas(frames.drop_first()));
    }
}

/// The chunked read engine over an RPC transport.
pub trait FsRead: TransportRaw {
    /// Reads the file at `path`: sends one read request under the current
    /// counter value (advancing the counter by one), then accumulates
    /// continuation frames until the first with `has_next` clear.  On
    /// success the received frames since the call began form a read chain
    /// producing exactly the returned bytes.
    fn fs_read(&mut self, path: &String) -> (r: Result<Vec<u8>, Error>)
        ensures
            final(self).index_view() == old(self).index_view().wrapping_add(1),
            r matches Ok(out) ==> {
                &&& final(self).sent_view() == old(self).sent_view().push(
                    spec_request_main(Request::StorageRead(*path), old(self).index_view()),
                )
                &&& spec_read_chain(
                    final(self).recv_view().skip(old(self).recv_view().len() as int),
                    out@,
                )
            },
            r matches Err(e) ==> spec_read_abort(
                final(self).recv_view().skip(old(self).recv_view().len() as int),
                e,
            ),
    ;

    /// Reads the file at `path` and decodes it as UTF-8; bytes that are
    /// not valid UTF-8 are a decode error.
    fn fs_read_to_string(&mut self, path: &String) -> (r: Result<String, Error>)
        ensures
            final(self).index_view() == old(self).index_view().wrapping_add(1),
            r matches Ok(s) ==> {
                &&& final(self).sent_view() == old(self).sent_view().push(
                    spec_request_main(Request::StorageRead(*path), old(self).index_view()),
                )
                &&& exists|bytes: Seq<u8>|
                    {
                        &&& #[trigger] spec_read_chain(
                            final(self).recv_view().skip(old(self).recv_view().len() as int),
                            bytes,
                        )
                        &&& valid_utf8(bytes)
                        &&& s@ == decode_utf8(bytes)
                    }
            },
    ;

    /// Like `fs_read_to_string`, but replaces invalid UTF-8 sequences
    /// with the replacement character instead of failing.
    fn fs_read_to_string_lossy(&mut self, path: &String) -> (r: Result<String, Error>)
        ensures
            final(self).index_view() == old(self).index_view().wrapping_add(1),
            r matches Ok(s) ==> {
                &&& final(self).sent_view() == old(self).sent_view().push(
                    spec_request_main(Request::StorageRead(*path), old(self).index_view()),
                )
                &&& exists|bytes: Seq<u8>|
                    {
                        &&& #[trigger] spec_read_chain(
                            final(self).recv_view().skip(old(self).recv_view().len() as int),
                            bytes,
                        )
                        &&& s@ == lossy_utf8(bytes)
                        &&& (valid_utf8(bytes) ==> s@ == decode_utf8(bytes))
                    }
            },
    ;
}

impl<T: TransportRaw> FsRead for T {
    fn fs_read(&mut self, path: &String) -> (r: Result<Vec<u8>, Error>) {
        match self.send(Request::StorageRead(path.clone())) {
            Ok(_u) => (),
            Err(e) => {
                proof {
                    assert(self.recv_view().skip(old(self).recv_view().len() as int)
                        =~= Seq::<Main>::empty());
                    assert(spec_read_frames_good(
                        self.recv_view().skip(old(self).recv_view().len() as int),
                        0,
                    ));
                }
                return Err(e);
            },
        }
        let ghost recv0 = self.recv_view();
        let ghost sent1 = self.sent_view();
        let ghost index1 = self.index_view();
        proof {
            assert(recv0.take(recv0.len() as int) =~= recv0);
            assert(recv0.skip(recv0.len() as int) =~= Seq::<Main>::empty());
            assert(spec_frames_datas(Seq::<Main>::empty()).flatten() =~= Seq::<u8>::empty());
        }
        let mut buf: Vec<u8> = Vec::new();
        // A chain longer than the machine's address space cannot arise; a
        // bound is still needed so that the loop provably terminates.
        let mut fuel: usize = usize::MAX;
        loop
            invariant
                index1 == old(self).index_view().wrapping_add(1),
                sent1 == old(self).sent_view().push(
                    spec_request_main(Request::StorageRead(*path), old(self).index_view()),
                ),
                recv0 == old(self).recv_view(),
                self.index_view() == index1,
                self.sent_view() == sent1,
                recv0.len() <= self.recv_view().len(),
                recv0 == self.recv_view().take(recv0.len() as int),
                forall|j: int|
                    recv0.len() <= j < self.recv_view().len() ==> spec_read_frame_data(
                        #[trigger] self.recv_view()[j],
                    ) is Some && self.recv_view()[j].has_next,
                buf@ == spec_frames_datas(self.recv_view().skip(recv0.len() as int)).flatten(),
            decreases fuel,
        {
            if fuel == 0 {
                proof {
                    let suffix = self.recv_view().skip(recv0.len() as int);
                    assert forall|j: int| 0 <= j < suffix.len() implies spec_read_frame_data(
                        #[trigger] suffix[j],
                    ) is Some && suffix[j].has_next by {
                        assert(suffix[j] == self.recv_view()[recv0.len() + j]);
                    }
                    assert(spec_read_frames_good(suffix, suffix.len() as int));
                }
                return Err(Error::InvalidResponse);
            }
            fuel = fuel - 1;
            let ghost recv_before = self.recv_view();
            let m = match self.receive_raw() {
                Ok(m) => m,
                Err(e) => {
                    proof {
                        let suffix = self.recv_view().skip(recv0.len() as int);
                        assert forall|j: int| 0 <= j
                            < suffix.len() implies spec_read_frame_data(
                            #[trigger] suffix[j],
                        ) is Some && suffix[j].has_next by {
                            assert(suffix[j] == self.recv_view()[recv0.len() + j]);
                        }
                        assert(spec_read_frames_good(suffix, suffix.len() as int));
                    }
                    return Err(e);
                },
            };
            let ghost mm = m;
            proof {
                let suffix = self.recv_view().skip(recv0.len() as int);
                assert(suffix.len() >= 1);
                assert(suffix.last() == mm);
                assert forall|j: int| 0 <= j < suffix.len() - 1 implies spec_read_frame_data(
                    #[trigger] suffix[j],
                ) is Some && suffix[j].has_next by {
                    assert(suffix[j] == self.recv_view()[recv0.len() + j]);
                    assert(self.recv_view()[recv0.len() + j] == recv_before[recv0.len() + j]);
                }
                assert(spec_read_frames_good(suffix, suffix.len() - 1));
            }
            let m = match check_status(m) {
                Ok(m) => m,
                Err(e) => {
                    proof {
                        assert(spec_read_frame_error(mm, e));
                    }
                    return Err(e);
                },
            };
            let has_next = m.has_next;
            match m.content {
                Some(Content::StorageReadResponse(file)) => match file {
                    Some(f) => {
                        buf.extend_from_slice(f.data.as_slice());
                        proof {
                            let consumed = recv_before.skip(recv0.len() as int);
                            let datas = spec_frames_datas(consumed);
                            let consumed2 = self.recv_view().skip(recv0.len() as int);
                            assert(consumed2 =~= consumed.push(mm));
                            assert(spec_frames_datas(consumed2)
                                =~= datas.push(spec_frame_data_or_empty(mm)));
                            datas.lemma_flatten_and_flatten_alt_are_equivalent();
                            let datas2 = datas.push(spec_frame_data_or_empty(mm));
                            datas2.lemma_flatten_and_flatten_alt_are_equivalent();
                            assert(datas2.drop_last() =~= datas);
                            assert(datas2.flatten_alt() == datas.flatten_alt()
                                + spec_frame_data_or_empty(mm));
                            assert(spec_frame_data_or_empty(mm) == f.data@);
                            assert(spec_frames_datas(consumed2) == datas2);
                            assert(buf@ == spec_frames_datas(consumed2).flatten());
                        }
                    },
                    None => {
                        proof {
                            assert(spec_read_frame_error(mm, Error::ReadFailed));
                        }
                        return Err(Error::ReadFailed);
                    },
                },
                _ => {
                    proof {
                        assert(spec_read_frame_error(mm, Error::InvalidResponse));
                    }
                    return Err(Error::InvalidResponse);
                },
            }
            if !has_next {
                proof {
                    let chain = self.recv_view().skip(recv0.len() as int);
                    assert(chain.last() == mm);
                    assert(!chain.last().has_next);
                }
                return Ok(buf);
            }
        }
    }

    fn fs_read_to_string(&mut self, path: &String) -> (r: Result<String, Error>) {
        let bytes = self.fs_read(path)?;
        let ghost bs = bytes@;
        match string_from_utf8(bytes) {
            Some(s) => {
                proof {
                    assert(spec_read_chain(
                        self.recv_view().skip(old(self).recv_view().len() as int),
                        bs,
                    ));
                }
                Ok(s)
            },
            None => Err(Error::Decode),
        }
    }

    fn fs_read_to_string_lossy(&mut self, path: &String) -> (r: Result<String, Error>) {
        let bytes = self.fs_read(path)?;
        let ghost bs = bytes@;
        let s = string_from_utf8_lossy(bytes.as_slice());
        proof {
            assert(spec_read_chain(
                self.recv_view().skip(old(self).recv_view().len() as int),
                bs,
            ));
        }
        Ok(s)
    }
}

} // verus!
