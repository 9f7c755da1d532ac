//! The chunked write engine.
//!
//! A write splits its data into fixed-size chunks — an empty input is one
//! zero-length chunk, so that creating an empty file is representable —
//! and sends every chunk under one shared sequence id, each carrying the
//! destination path, the chunk bytes and their MD5 digest, with
//! `has_next` set on all but the last.  During very long writes a
//! lightweight ping under a throwaway id is interleaved at a fixed chunk
//! interval so the device does not time out the connection.  The sequence
//! counter advances only once the chain closes: by one, plus one per
//! interleaved ping.  Progress is reported to a caller-supplied sink
//! before the first chunk and after every chunk; a failed delivery aborts
//! the write.

use vstd::prelude::*;
use vstd::seq_lib::lemma_flatten_concat;
use vstd::slice::slice_to_vec;

use crate::CHUNK_SIZE;
use crate::digest::{chunk_md5, hex_of, md5_of};
use crate::error::Error;
use crate::fs::check_status;
use crate::proto::{Content, Main, StorageFile, WriteRequest};
use crate::rpc::req::Request;
use crate::text::{file_name_chars, name_after_last_slash};
use crate::transport::{Transport, TransportRaw};

verus! {

/// Sustained transfer rate assumed for keepalive scheduling, in KiB/s.
pub const THROUGHPUT_KIB: usize = 50;

/// Chunks transferred per second at the assumed rate.
pub const CHUNKS_PER_SECOND: usize = (THROUGHPUT_KIB * 1024) / CHUNK_SIZE;

/// Target interval between keepalive pings, in seconds.
pub const PING_INTERVAL_SECONDS: usize = 5;

/// Number of chunks between keepalive pings.
pub const CHUNKS_PER_PING: usize = PING_INTERVAL_SECONDS * CHUNKS_PER_SECOND;

/// The fixed-size chunks of a byte sequence: every chunk holds `size`
/// bytes except the last, which holds the remainder; an empty input is a
/// single empty chunk.
pub open spec fn spec_chunks(data: Seq<u8>, size: nat) -> Seq<Seq<u8>>
    decreases data.len(),
    when size > 0
{
    if data.len() <= size {
        seq![data]
    } else {
        seq![data.take(size as int)] + spec_chunks(data.skip(size as int), size)
    }
}

/// There are exactly `ceil(len / size)` chunks, and at least one.
pub proof fn lemma_chunks_count(data: Seq<u8>, size: nat)
    requires
        size > 0,
    ensures
        spec_chunks(data, size).len() == if data.len() == 0 {
            1 as nat
        } else {
            ((data.len() + size - 1) / (size as int)) as nat
        },
    decreases data.len(),
{
    if data.len() == 0 {
    } else if data.len() <= size {
        assert((data.len() + size - 1) / (size as int) == 1) by (nonlinear_arith)
            requires
                0 < data.len() <= size,
        ;
    } else {
        lemma_chunks_count(data.skip(size as int), size);
        assert((data.len() - size + size - 1) / (size as int) + 1 == (data.len() + size - 1) / (
        size as int)) by (nonlinear_arith)
            requires
                size > 0,
                data.len() > size,
        ;
    }
}

/// The chunks concatenate back to exactly the input.
pub proof fn lemma_chunks_flatten(data: Seq<u8>, size: nat)
    requires
        size > 0,
    ensures
        spec_chunks(data, size).flatten() == data,
    decreases data.len(),
{
    if data.len() <= size {
        assert(spec_chunks(data, size) =~= seq![data]);
        spec_chunks(data, size).lemma_flatten_one_element();
    } else {
        lemma_chunks_flatten(data.skip(size as int), size);
        let rest = spec_chunks(data.skip(size as int), size);
        let whole = seq![data.take(size as int)] + rest;
        assert(whole.first() == data.take(size as int));
        assert(whole.drop_first() =~= rest);
        assert(whole.flatten() == data.take(size as int) + rest.flatten());
        assert(data.take(size as int) + data.skip(size as int) =~= data);
    }
}

/// No chunk exceeds the chunk size, and every chunk of a nonempty input
/// is itself nonempty.
pub proof fn lemma_chunks_sizes(data: Seq<u8>, size: nat)
    requires
        size > 0,
    ensures
        forall|i: int|
            0 <= i < spec_chunks(data, size).len() ==> (#[trigger] spec_chunks(data, size)[i]).len()
                <= size,
        data.len() > 0 ==> forall|i: int|
            0 <= i < spec_chunks(data, size).len() ==> (#[trigger] spec_chunks(data, size)[i]).len()
                > 0,
    decreases data.len(),
{
    let whole = spec_chunks(data, size);
    if data.len() <= size {
        assert(whole =~= seq![data]);
    } else {
        lemma_chunks_sizes(data.skip(size as int), size);
        let rest = spec_chunks(data.skip(size as int), size);
        assert(whole == seq![data.take(size as int)] + rest);
        assert forall|i: int| 0 <= i < whole.len() implies (#[trigger] whole[i]).len()
            <= size by {
            if i > 0 {
                assert(whole[i] == rest[i - 1]);
            }
        }
        assert forall|i: int| 0 <= i < whole.len() implies (#[trigger] whole[i]).len() > 0 by {
            if i > 0 {
                assert(whole[i] == rest[i - 1]);
                assert(data.skip(size as int).len() > 0);
            }
        }
    }
}

/// Splits `data` into `chunk_size`-byte chunks; an empty input yields one
/// empty chunk.
pub fn chunks_or_empty(data: &[u8], chunk_size: usize) -> (r: Vec<Vec<u8>>)
    requires
        chunk_size >= 1,
    ensures
        r@.map_values(|c: Vec<u8>| c@) == spec_chunks(data@, chunk_size as nat),
{
    let n = data.len();
    if n == 0 {
        let mut r: Vec<Vec<u8>> = Vec::new();
        r.push(Vec::new());
        proof {
            assert(r@.map_values(|c: Vec<u8>| c@) =~~= spec_chunks(data@, chunk_size as nat));
        }
        return r;
    }
    let mut r: Vec<Vec<u8>> = Vec::new();
    let mut pos: usize = 0;
    proof {
        assert(data@.skip(0) =~= data@);
        assert(r@.map_values(|c: Vec<u8>| c@) =~= Seq::<Seq<u8>>::empty());
        assert(Seq::<Seq<u8>>::empty() + spec_chunks(data@, chunk_size as nat) =~= spec_chunks(
            data@,
            chunk_size as nat,
        ));
    }
    while pos < n
        invariant
            chunk_size >= 1,
            n == data@.len(),
            pos <= n,
            pos < n ==> spec_chunks(data@, chunk_size as nat) =~= r@.map_values(
                |c: Vec<u8>| c@,
            ) + spec_chunks(data@.skip(pos as int), chunk_size as nat),
            pos == n ==> spec_chunks(data@, chunk_size as nat) =~= r@.map_values(
                |c: Vec<u8>| c@,
            ),
        decreases n - pos,
    {
        let ghost done = r@.map_values(|c: Vec<u8>| c@);
        let ghost rest = spec_chunks(data@.skip(pos as int), chunk_size as nat);
        let end = if n - pos > chunk_size {
            pos + chunk_size
        } else {
            n
        };
        let chunk = slice_to_vec(&data[pos..end]);
        r.push(chunk);
        proof {
            assert(r@.map_values(|c: Vec<u8>| c@) =~= done.push(
                data@.subrange(pos as int, end as int),
            ));
            if end == n {
                assert(data@.skip(pos as int).len() <= chunk_size);
                assert(rest =~= seq![data@.skip(pos as int)]);
                assert(data@.subrange(pos as int, end as int) =~= data@.skip(pos as int));
                assert(done.push(data@.skip(pos as int)) =~= done + rest);
            } else {
                assert(data@.skip(pos as int).len() > chunk_size);
                assert(data@.subrange(pos as int, end as int) =~= data@.skip(pos as int).take(
                    chunk_size as int,
                ));
                assert(data@.skip(pos as int).skip(chunk_size as int) =~= data@.skip(end as int));
                assert(rest == seq![data@.skip(pos as int).take(chunk_size as int)] + spec_chunks(
                    data@.skip(end as int),
                    chunk_size as nat,
                ));
                assert(done.push(data@.subrange(pos as int, end as int)) + spec_chunks(
                    data@.skip(end as int),
                    chunk_size as nat,
                ) =~= done + rest);
            }
        }
        pos = end;
    }
    r
}

/// After the last chunk, the running byte count reaches exactly the
/// input's length: the final progress report is `(total, total)`.
pub proof fn lemma_progress_total(data: Seq<u8>, size: nat)
    requires
        size > 0,
    ensures
        spec_prefix_len(spec_chunks(data, size), spec_chunks(data, size).len() as int)
            == data.len(),
{
    let chunks = spec_chunks(data, size);
    assert(chunks.take(chunks.len() as int) =~= chunks);
    lemma_chunks_flatten(data, size);
}

/// Whether a keepalive ping is due before sending chunk `i`: one before
/// every positive multiple of [`CHUNKS_PER_PING`], so no stretch of the
/// chain runs longer than the ping interval without one.
pub open spec fn spec_ping_due(i: int) -> bool {
    i > 0 && i % (CHUNKS_PER_PING as int) == 0
}

/// Number of keepalive pings interleaved before chunk `i`.
pub open spec fn spec_pings_upto(i: nat) -> nat
    decreases i,
{
    if i == 0 {
        0
    } else {
        spec_pings_upto((i - 1) as nat) + if spec_ping_due(i - 1) {
            1 as nat
        } else {
            0 as nat
        }
    }
}

/// The ping counter as the engine tracks it: a 32-bit value that wraps.
/// It equals [`spec_pings_upto`] whenever that count fits in 32 bits.
pub open spec fn spec_pings_wrapped(i: nat) -> u32
    decreases i,
{
    if i == 0 {
        0
    } else {
        spec_pings_wrapped((i - 1) as nat).wrapping_add(
            if spec_ping_due(i - 1) {
                1
            } else {
                0
            },
        )
    }
}

/// The throwaway sequence id every keepalive ping of a chain is sent
/// under: one past the chain's own id, never used by the chain itself.
pub open spec fn spec_ping_id(cid: u32) -> u32 {
    cid.wrapping_add(1)
}

/// The wrapped ping counter tracks the true count while it fits.
pub proof fn lemma_pings_wrapped_small(i: nat)
    requires
        spec_pings_upto(i) < 0x1_0000_0000,
    ensures
        spec_pings_wrapped(i) == spec_pings_upto(i),
    decreases i,
{
    if i > 0 {
        lemma_pings_wrapped_small((i - 1) as nat);
    }
}

/// More chunks never mean fewer interleaved pings.
pub proof fn lemma_pings_upto_monotone(a: nat, b: nat)
    requires
        a <= b,
    ensures
        spec_pings_upto(a) <= spec_pings_upto(b),
    decreases b,
{
    if a < b {
        lemma_pings_upto_monotone(a, (b - 1) as nat);
    }
}

/// Message `m` is chunk `i` of a write chain: the shared sequence id, a
/// success status, `has_next` on every chunk but the last, and a write
/// request carrying the destination path and the chunk's name, bytes,
/// length and MD5 digest.
pub open spec fn spec_is_write_chunk(
    m: Main,
    path: Seq<char>,
    name: Seq<char>,
    chunks: Seq<Seq<u8>>,
    i: int,
    cid: u32,
) -> bool {
    &&& m.command_id == cid
    &&& m.command_status == 0
    &&& m.has_next == (i + 1 < chunks.len())
    &&& match m.content {
        Some(Content::StorageWriteRequest(wr)) => {
            &&& wr.path@ == path
            &&& match wr.file {
                Some(f) => {
                    &&& !f.is_dir
                    &&& f.name@ == name
                    &&& f.data@ == chunks[i]
                    &&& f.size == chunks[i].len()
                    &&& f.md5sum@ == hex_of(md5_of(chunks[i]))
                },
                None => false,
            }
        },
        _ => false,
    }
}

/// Message `m` is a keepalive ping under throwaway id `id`.
pub open spec fn spec_is_ping(m: Main, id: u32) -> bool {
    &&& m.command_id == id
    &&& m.command_status == 0
    &&& !m.has_next
    &&& match m.content {
        Some(Content::SystemPingRequest(d)) => d@ =~= seq![0u8],
        _ => false,
    }
}

/// The transcript of a write chain after its first `k` chunks: chunk `i`
/// stands at position `i + spec_pings_upto(i + 1)`, each due keepalive
/// immediately before its chunk under the throwaway id, and — when
/// `ping_done` — the keepalive due before chunk `k` is already the last
/// message.  A complete chain is the state `(chunks.len(), false)`.
/// Every abort of the write engine leaves the sent transcript in one of
/// these states: nothing is sent beyond the failed step, and nothing is
/// retried.
pub open spec fn spec_write_chain_upto(
    msgs: Seq<Main>,
    path: Seq<char>,
    name: Seq<char>,
    chunks: Seq<Seq<u8>>,
    cid: u32,
    k: int,
    ping_done: bool,
) -> bool {
    &&& 0 <= k <= chunks.len()
    &&& (ping_done ==> spec_ping_due(k) && k < chunks.len())
    &&& msgs.len() == k + spec_pings_upto(k as nat) + (if ping_done {
        1 as int
    } else {
        0 as int
    })
    &&& (forall|i: int|
        0 <= i < k ==> #[trigger] spec_is_write_chunk(
            msgs[i + spec_pings_upto((i + 1) as nat)],
            path,
            name,
            chunks,
            i,
            cid,
        ))
    &&& (forall|i: int|
        0 <= i < k && spec_ping_due(i) ==> #[trigger] spec_is_ping(
            msgs[i + spec_pings_upto((i + 1) as nat) - 1],
            spec_ping_id(cid),
        ))
    &&& (ping_done ==> spec_is_ping(msgs[msgs.len() - 1], spec_ping_id(cid)))
}

/// The messages of a complete write chain for `chunks` under chain id
/// `cid`: every chunk at its position, every due keepalive immediately
/// before its chunk.
pub open spec fn spec_write_chain(
    msgs: Seq<Main>,
    path: Seq<char>,
    name: Seq<char>,
    chunks: Seq<Seq<u8>>,
    cid: u32,
) -> bool {
    spec_write_chain_upto(msgs, path, name, chunks, cid, chunks.len() as int, false)
}

/// Whether a message is a chunk write request.
pub open spec fn spec_is_write_message(m: Main) -> bool {
    m.content matches Some(Content::StorageWriteRequest(_))
}

/// Whether a message is a keepalive ping request.
pub open spec fn spec_is_ping_message(m: Main) -> bool {
    m.content matches Some(Content::SystemPingRequest(_))
}

/// Number of chunk write requests among the messages.
pub open spec fn spec_count_writes(msgs: Seq<Main>) -> nat
    decreases msgs.len(),
{
    if msgs.len() == 0 {
        0
    } else {
        spec_count_writes(msgs.drop_last()) + if spec_is_write_message(msgs.last()) {
            1 as nat
        } else {
            0 as nat
        }
    }
}

/// Number of keepalive pings among the messages.
pub open spec fn spec_count_pings(msgs: Seq<Main>) -> nat
    decreases msgs.len(),
{
    if msgs.len() == 0 {
        0
    } else {
        spec_count_pings(msgs.drop_last()) + if spec_is_ping_message(msgs.last()) {
            1 as nat
        } else {
            0 as nat
        }
    }
}

/// A chain state after `k` chunks holds exactly `k` write requests and
/// exactly its interleaved keepalives, whatever the chain's length.
pub proof fn lemma_chain_counts_upto(
    msgs: Seq<Main>,
    path: Seq<char>,
    name: Seq<char>,
    chunks: Seq<Seq<u8>>,
    cid: u32,
    k: int,
    ping_done: bool,
)
    requires
        spec_write_chain_upto(msgs, path, name, chunks, cid, k, ping_done),
    ensures
        spec_count_writes(msgs) == k,
        spec_count_pings(msgs) == spec_pings_upto(k as nat) + (if ping_done {
            1 as int
        } else {
            0 as int
        }),
    decreases msgs.len(),
{
    let prior = msgs.drop_last();
    if ping_done {
        assert(spec_is_ping(msgs[msgs.len() - 1], spec_ping_id(cid)));
        assert(spec_is_ping_message(msgs.last()));
        assert(!spec_is_write_message(msgs.last()));
        assert forall|j: int|
            0 <= j < k implies #[trigger] spec_is_write_chunk(
            prior[j + spec_pings_upto((j + 1) as nat)],
            path,
            name,
            chunks,
            j,
            cid,
        ) by {
            lemma_pings_upto_monotone((j + 1) as nat, k as nat);
            let idx = j + spec_pings_upto((j + 1) as nat);
            assert(idx < msgs.len() - 1);
            assert(prior[idx] == msgs[idx]);
        }
        assert forall|j: int|
            0 <= j < k && spec_ping_due(j) implies #[trigger] spec_is_ping(
            prior[j + spec_pings_upto((j + 1) as nat) - 1],
            spec_ping_id(cid),
        ) by {
            lemma_pings_upto_monotone((j + 1) as nat, k as nat);
            assert(spec_pings_upto((j + 1) as nat) >= 1);
            let idx = j + spec_pings_upto((j + 1) as nat) - 1;
            assert(idx < msgs.len() - 1);
            assert(prior[idx] == msgs[idx]);
        }
        assert(spec_write_chain_upto(prior, path, name, chunks, cid, k, false));
        lemma_chain_counts_upto(prior, path, name, chunks, cid, k, false);
    } else if k > 0 {
        assert(spec_pings_upto(k as nat) == spec_pings_upto((k - 1) as nat) + (
        if spec_ping_due(k - 1) {
            1 as nat
        } else {
            0 as nat
        }));
        assert(spec_pings_upto(((k - 1) + 1) as nat) == spec_pings_upto(k as nat));
        assert(spec_is_write_chunk(
            msgs[(k - 1) + spec_pings_upto(((k - 1) + 1) as nat)],
            path,
            name,
            chunks,
            k - 1,
            cid,
        ));
        assert(k - 1 + spec_pings_upto(k as nat) == msgs.len() - 1);
        assert(spec_is_write_message(msgs.last()));
        assert(!spec_is_ping_message(msgs.last()));
        assert forall|j: int|
            0 <= j < k - 1 implies #[trigger] spec_is_write_chunk(
            prior[j + spec_pings_upto((j + 1) as nat)],
            path,
            name,
            chunks,
            j,
            cid,
        ) by {
            lemma_pings_upto_monotone((j + 1) as nat, (k - 1) as nat);
            let idx = j + spec_pings_upto((j + 1) as nat);
            assert(idx < msgs.len() - 1);
            assert(prior[idx] == msgs[idx]);
        }
        assert forall|j: int|
            0 <= j < k - 1 && spec_ping_due(j) implies #[trigger] spec_is_ping(
            prior[j + spec_pings_upto((j + 1) as nat) - 1],
            spec_ping_id(cid),
        ) by {
            lemma_pings_upto_monotone((j + 1) as nat, (k - 1) as nat);
            assert(spec_pings_upto((j + 1) as nat) >= 1);
            let idx = j + spec_pings_upto((j + 1) as nat) - 1;
            assert(idx < msgs.len() - 1);
            assert(prior[idx] == msgs[idx]);
        }
        if spec_ping_due(k - 1) {
            assert(spec_is_ping(
                msgs[(k - 1) + spec_pings_upto(((k - 1) + 1) as nat) - 1],
                spec_ping_id(cid),
            ));
            assert(prior[prior.len() - 1] == msgs[msgs.len() - 2]);
            assert(spec_is_ping(prior[prior.len() - 1], spec_ping_id(cid)));
            assert(spec_write_chain_upto(prior, path, name, chunks, cid, k - 1, true));
            lemma_chain_counts_upto(prior, path, name, chunks, cid, k - 1, true);
        } else {
            assert(spec_write_chain_upto(prior, path, name, chunks, cid, k - 1, false));
            lemma_chain_counts_upto(prior, path, name, chunks, cid, k - 1, false);
        }
    } else {
        assert(msgs.len() == 0);
    }
}

/// A complete write chain contains exactly one write request per chunk —
/// `max(1, ceil(data.len() / CHUNK_SIZE))` of them, by
/// [`lemma_chunks_count`] — and exactly its interleaved keepalives,
/// whatever the chain's length.
pub proof fn lemma_chain_write_request_count(
    msgs: Seq<Main>,
    path: Seq<char>,
    name: Seq<char>,
    chunks: Seq<Seq<u8>>,
    cid: u32,
)
    requires
        spec_write_chain(msgs, path, name, chunks, cid),
    ensures
        spec_count_writes(msgs) == chunks.len(),
        spec_count_pings(msgs) == spec_pings_upto(chunks.len()),
{
    lemma_chain_counts_upto(msgs, path, name, chunks, cid, chunks.len() as int, false);
}

/// Position facts indexed into the whole transcript give the chain state
/// of the suffix after `s0`.
proof fn lemma_upto_from_indexed(
    sent: Seq<Main>,
    s0: int,
    path: Seq<char>,
    name: Seq<char>,
    chunks: Seq<Seq<u8>>,
    cid: u32,
    k: int,
    ping_done: bool,
)
    requires
        0 <= s0 <= sent.len(),
        0 <= k <= chunks.len(),
        ping_done ==> spec_ping_due(k) && k < chunks.len(),
        sent.len() - s0 == k + spec_pings_upto(k as nat) + (if ping_done {
            1 as int
        } else {
            0 as int
        }),
        forall|j: int|
            0 <= j < k ==> #[trigger] spec_is_write_chunk(
                sent[s0 + j + spec_pings_upto((j + 1) as nat)],
                path,
                name,
                chunks,
                j,
                cid,
            ),
        forall|j: int|
            0 <= j < k && spec_ping_due(j) ==> #[trigger] spec_is_ping(
                sent[s0 + j + spec_pings_upto((j + 1) as nat) - 1],
                spec_ping_id(cid),
            ),
        ping_done ==> spec_is_ping(sent[sent.len() - 1], spec_ping_id(cid)),
    ensures
        spec_write_chain_upto(sent.skip(s0), path, name, chunks, cid, k, ping_done),
{
    let msgs = sent.skip(s0);
    assert forall|j: int| #![trigger spec_pings_upto((j + 1) as nat)] 0 <= j
        < k implies spec_is_write_chunk(
        msgs[j + spec_pings_upto((j + 1) as nat)],
        path,
        name,
        chunks,
        j,
        cid,
    ) by {
        lemma_pings_upto_monotone((j + 1) as nat, k as nat);
        assert(j + spec_pings_upto((j + 1) as nat) < msgs.len());
        assert(msgs[j + spec_pings_upto((j + 1) as nat)] == sent[s0 + j + spec_pings_upto(
            (j + 1) as nat,
        )]);
        assert(spec_is_write_chunk(
            sent[s0 + j + spec_pings_upto((j + 1) as nat)],
            path,
            name,
            chunks,
            j,
            cid,
        ));
    }
    assert forall|j: int| #![trigger spec_pings_upto((j + 1) as nat)] 0 <= j < k
        && spec_ping_due(j) implies spec_is_ping(
        msgs[j + spec_pings_upto((j + 1) as nat) - 1],
        spec_ping_id(cid),
    ) by {
        lemma_pings_upto_monotone((j + 1) as nat, k as nat);
        assert(spec_pings_upto((j + 1) as nat) >= 1);
        assert(j + spec_pings_upto((j + 1) as nat) - 1 < msgs.len());
        assert(msgs[j + spec_pings_upto((j + 1) as nat) - 1] == sent[s0 + j + spec_pings_upto(
            (j + 1) as nat,
        ) - 1]);
        assert(spec_is_ping(
            sent[s0 + j + spec_pings_upto((j + 1) as nat) - 1],
            spec_ping_id(cid),
        ));
    }
    if ping_done {
        assert(msgs[msgs.len() - 1] == sent[sent.len() - 1]);
    }
}

/// Appending one message to the transcript keeps every established
/// position fact.
proof fn lemma_indexed_facts_push(
    sent: Seq<Main>,
    m: Main,
    s0: int,
    path: Seq<char>,
    name: Seq<char>,
    chunks: Seq<Seq<u8>>,
    cid: u32,
    k: int,
)
    requires
        0 <= s0,
        0 <= k <= chunks.len(),
        s0 + k + spec_pings_upto(k as nat) <= sent.len(),
        forall|j: int|
            0 <= j < k ==> #[trigger] spec_is_write_chunk(
                sent[s0 + j + spec_pings_upto((j + 1) as nat)],
                path,
                name,
                chunks,
                j,
                cid,
            ),
        forall|j: int|
            0 <= j < k && spec_ping_due(j) ==> #[trigger] spec_is_ping(
                sent[s0 + j + spec_pings_upto((j + 1) as nat) - 1],
                spec_ping_id(cid),
            ),
    ensures
        forall|j: int|
            0 <= j < k ==> #[trigger] spec_is_write_chunk(
                sent.push(m)[s0 + j + spec_pings_upto((j + 1) as nat)],
                path,
                name,
                chunks,
                j,
                cid,
            ),
        forall|j: int|
            0 <= j < k && spec_ping_due(j) ==> #[trigger] spec_is_ping(
                sent.push(m)[s0 + j + spec_pings_upto((j + 1) as nat) - 1],
                spec_ping_id(cid),
            ),
{
    assert forall|j: int| #![trigger spec_pings_upto((j + 1) as nat)] 0 <= j
        < k implies spec_is_write_chunk(
        sent.push(m)[s0 + j + spec_pings_upto((j + 1) as nat)],
        path,
        name,
        chunks,
        j,
        cid,
    ) by {
        lemma_pings_upto_monotone((j + 1) as nat, k as nat);
        let idx = s0 + j + spec_pings_upto((j + 1) as nat);
        assert(idx < sent.len());
        assert(sent.push(m)[idx] == sent[idx]);
        assert(spec_is_write_chunk(sent[idx], path, name, chunks, j, cid));
    }
    assert forall|j: int| #![trigger spec_pings_upto((j + 1) as nat)] 0 <= j < k
        && spec_ping_due(j) implies spec_is_ping(
        sent.push(m)[s0 + j + spec_pings_upto((j + 1) as nat) - 1],
        spec_ping_id(cid),
    ) by {
        lemma_pings_upto_monotone((j + 1) as nat, k as nat);
        assert(spec_pings_upto((j + 1) as nat) >= 1);
        let idx = s0 + j + spec_pings_upto((j + 1) as nat) - 1;
        assert(idx < sent.len());
        assert(sent.push(m)[idx] == sent[idx]);
        assert(spec_is_ping(sent[idx], spec_ping_id(cid)));
    }
}

/// Bytes of the first `i` chunks, as reported after chunk `i` is sent.
pub open spec fn spec_prefix_len(chunks: Seq<Seq<u8>>, i: int) -> nat {
    chunks.take(i).flatten().len()
}

/// The progress reports of a complete write: `(0, total)` before any
/// chunk, then the running byte count after each chunk.
pub open spec fn spec_progress_reports(chunks: Seq<Seq<u8>>, total: usize) -> Seq<(usize, usize)> {
    Seq::new(
        chunks.len() + 1,
        |k: int| (spec_prefix_len(chunks, k) as usize, total),
    )
}

/// A sink for write progress.  Each report carries the bytes sent so far
/// and the total; a failed delivery is a failure of the write, not a
/// silently dropped message.
pub trait ProgressSink: Sized {
    /// The reports delivered so far.
    open spec fn reports(&self) -> Seq<(usize, usize)> {
        Seq::empty()
    }

    /// Delivers one report.
    fn report(&mut self, sent: usize, total: usize) -> (r: Result<(), Error>)
        ensures
            r is Ok ==> final(self).reports() == old(self).reports().push((sent, total)),
            r is Err ==> final(self).reports() == old(self).reports(),
    ;
}

/// A progress sink that records every report and never fails.
pub struct VecProgress {
    entries: Vec<(usize, usize)>,
}

impl VecProgress {
    /// A fresh recorder with no reports.
    pub fn new() -> (r: VecProgress)
        ensures
            r.reports() == Seq::<(usize, usize)>::empty(),
    {
        VecProgress { entries: Vec::new() }
    }

    /// The reports recorded so far, in order.
    pub fn entries(&self) -> (r: &Vec<(usize, usize)>)
        ensures
            r@ == self.reports(),
    {
        &self.entries
    }
}

impl ProgressSink for VecProgress {
    closed spec fn reports(&self) -> Seq<(usize, usize)> {
        self.entries@
    }

    fn report(&mut self, sent: usize, total: usize) -> (r: Result<(), Error>) {
        self.entries.push((sent, total));
        Ok(())
    }
}

/// The chunked write engine over an RPC transport.
pub trait FsWrite: TransportRaw {
    /// Writes `data` to the file at `path` as a chain of fixed-size
    /// chunks under one shared sequence id, reporting progress to `sink`.
    /// On success, the messages sent since the call began are exactly the
    /// write chain of the data's chunks under the counter value current
    /// at the call, the counter has advanced by one plus one per
    /// interleaved ping, and the sink received `(0, total)` followed by
    /// the running byte count after each chunk.  On failure the write
    /// aborts: the counter is untouched and the messages sent are a
    /// chain state — nothing past the failed step, nothing retried.  A
    /// path without a final name component is the one input rejected by
    /// the engine itself, without sending anything.
    fn fs_write_with_progress<P: ProgressSink>(
        &mut self,
        path: &String,
        data: &Vec<u8>,
        sink: &mut P,
    ) -> (r: Result<(), Error>)
        ensures
            r is Ok ==> {
                let chunks = spec_chunks(data@, CHUNK_SIZE as nat);
                let n = chunks.len() as int;
                &&& spec_write_chain(
                    final(self).sent_view().skip(old(self).sent_view().len() as int),
                    path@,
                    file_name_chars(path@),
                    chunks,
                    old(self).index_view(),
                )
                &&& final(self).index_view() == old(self).index_view().wrapping_add(
                    spec_pings_wrapped(n as nat).wrapping_add(1),
                )
                &&& final(sink).reports() == old(sink).reports() + spec_progress_reports(
                    chunks,
                    data@.len() as usize,
                )
            },
            r is Err ==> {
                let chunks = spec_chunks(data@, CHUNK_SIZE as nat);
                &&& final(self).index_view() == old(self).index_view()
                &&& exists|k: int, ping_done: bool|
                    spec_write_chain_upto(
                        final(self).sent_view().skip(old(self).sent_view().len() as int),
                        path@,
                        file_name_chars(path@),
                        chunks,
                        old(self).index_view(),
                        k,
                        ping_done,
                    )
            },
            r == Result::<(), Error>::Err(Error::InvalidInput) <==> file_name_chars(
                path@,
            ).len() == 0,
            file_name_chars(path@).len() == 0 ==> final(self).sent_view() == old(
                self,
            ).sent_view(),
    ;

    /// Writes `data` to the file at `path`, discarding progress reports.
    fn fs_write(&mut self, path: &String, data: &Vec<u8>) -> (r: Result<(), Error>)
        ensures
            r is Ok ==> {
                let chunks = spec_chunks(data@, CHUNK_SIZE as nat);
                let n = chunks.len() as int;
                &&& spec_write_chain(
                    final(self).sent_view().skip(old(self).sent_view().len() as int),
                    path@,
                    file_name_chars(path@),
                    chunks,
                    old(self).index_view(),
                )
                &&& final(self).index_view() == old(self).index_view().wrapping_add(
                    spec_pings_wrapped(n as nat).wrapping_add(1),
                )
            },
            r is Err ==> {
                let chunks = spec_chunks(data@, CHUNK_SIZE as nat);
                &&& final(self).index_view() == old(self).index_view()
                &&& exists|k: int, ping_done: bool|
                    spec_write_chain_upto(
                        final(self).sent_view().skip(old(self).sent_view().len() as int),
                        path@,
                        file_name_chars(path@),
                        chunks,
                        old(self).index_view(),
                        k,
                        ping_done,
                    )
            },
            r == Result::<(), Error>::Err(Error::InvalidInput) <==> file_name_chars(
                path@,
            ).len() == 0,
            file_name_chars(path@).len() == 0 ==> final(self).sent_view() == old(
                self,
            ).sent_view(),
    ;
}

impl<T: TransportRaw> FsWrite for T {
    fn fs_write_with_progress<P: ProgressSink>(
        &mut self,
        path: &String,
        data: &Vec<u8>,
        sink: &mut P,
    ) -> (r: Result<(), Error>) {
        let ghost chunks_spec = spec_chunks(data@, CHUNK_SIZE as nat);
        let name = name_after_last_slash(path.as_str());
        if name.as_str().is_empty() {
            proof {
                assert(self.sent_view().skip(old(self).sent_view().len() as int)
                    =~= Seq::<Main>::empty());
                assert(spec_write_chain_upto(
                    self.sent_view().skip(old(self).sent_view().len() as int),
                    path@,
                    file_name_chars(path@),
                    chunks_spec,
                    old(self).index_view(),
                    0,
                    false,
                ));
            }
            return Err(Error::InvalidInput);
        }
        let mut chunks = chunks_or_empty(data.as_slice(), CHUNK_SIZE);
        let total_chunks = chunks.len();
        let total = data.len();
        let ghost sink0 = sink.reports();
        match sink.report(0, total) {
            Ok(_u) => (),
            Err(_e) => {
                proof {
                    assert(self.sent_view().skip(old(self).sent_view().len() as int)
                        =~= Seq::<Main>::empty());
                    assert(spec_write_chain_upto(
                        self.sent_view().skip(old(self).sent_view().len() as int),
                        path@,
                        file_name_chars(path@),
                        chunks_spec,
                        old(self).index_view(),
                        0,
                        false,
                    ));
                }
                return Err(Error::ProgressSink);
            },
        }
        proof {
            assert(spec_prefix_len(chunks_spec, 0) == 0) by {
                assert(chunks_spec.take(0) =~= Seq::<Seq<u8>>::empty());
            }
            assert(sink.reports() =~= sink0 + spec_progress_reports(chunks_spec, total).take(1));
            lemma_chunks_flatten(data@, CHUNK_SIZE as nat);
            lemma_chunks_sizes(data@, CHUNK_SIZE as nat);
        }
        let command_id = self.command_index();
        let ghost sent0 = self.sent_view();
        let mut pings: u32 = 0;
        let mut sent_bytes: usize = 0;
        let mut i: usize = 0;
        proof {
            assert(sent0.take(sent0.len() as int) =~= sent0);
            assert(chunks_spec.skip(0) =~= chunks_spec);
        }
        while i < total_chunks
            invariant
                command_id == old(self).index_view(),
                sent0 == old(self).sent_view(),
                sink0 == old(sink).reports(),
                name@.len() > 0,
                self.index_view() == command_id,
                total_chunks == chunks_spec.len(),
                total == data@.len(),
                i <= total_chunks,
                chunks@.map_values(|c: Vec<u8>| c@) =~= chunks_spec.skip(i as int),
                name@ == file_name_chars(path@),
                chunks_spec == spec_chunks(data@, CHUNK_SIZE as nat),
                chunks_spec.flatten() == data@,
                forall|k: int|
                    0 <= k < chunks_spec.len() ==> (#[trigger] chunks_spec[k]).len()
                        <= CHUNK_SIZE,
                pings == spec_pings_wrapped(i as nat),
                sent_bytes == spec_prefix_len(chunks_spec, i as int),
                sink.reports() =~= sink0 + spec_progress_reports(chunks_spec, total).take(
                    i + 1,
                ),
                sent0.len() <= self.sent_view().len(),
                sent0 == self.sent_view().take(sent0.len() as int),
                self.sent_view().len() - sent0.len() == i + spec_pings_upto(i as nat),
                forall|j: int|
                    0 <= j < i ==> #[trigger] spec_is_write_chunk(
                        self.sent_view()[sent0.len() + j + spec_pings_upto((j + 1) as nat)],
                        path@,
                        name@,
                        chunks_spec,
                        j,
                        command_id,
                    ),
                forall|j: int|
                    0 <= j < i && spec_ping_due(j) ==> #[trigger] spec_is_ping(
                        self.sent_view()[sent0.len() + j + spec_pings_upto((j + 1) as nat) - 1],
                        spec_ping_id(command_id),
                    ),
            decreases total_chunks - i,
        {
            let ghost head_sent = self.sent_view();
            if i > 0 && i % CHUNKS_PER_PING == 0 {
                let ping_id = command_id.wrapping_add(1);
                let mut ping_payload: Vec<u8> = Vec::new();
                ping_payload.push(0);
                let ping = Request::Ping(ping_payload).into_rpc(ping_id);
                let ghost pingm = ping;
                let send_result = self.send_and_receive_raw(ping);
                proof {
                    assert(spec_is_ping(pingm, spec_ping_id(command_id)));
                    if self.sent_view() != head_sent {
                        assert(self.sent_view() == head_sent.push(pingm));
                        lemma_indexed_facts_push(
                            head_sent,
                            pingm,
                            sent0.len() as int,
                            path@,
                            name@,
                            chunks_spec,
                            command_id,
                            i as int,
                        );
                        assert(self.sent_view()[self.sent_view().len() - 1] == pingm);
                        assert(self.sent_view().take(sent0.len() as int) =~= sent0);
                    }
                }
                let reply = match send_result {
                    Ok(m) => m,
                    Err(e) => {
                        proof {
                            if self.sent_view() == head_sent {
                                lemma_upto_from_indexed(
                                    self.sent_view(),
                                    sent0.len() as int,
                                    path@,
                                    name@,
                                    chunks_spec,
                                    command_id,
                                    i as int,
                                    false,
                                );
                            } else {
                                lemma_upto_from_indexed(
                                    self.sent_view(),
                                    sent0.len() as int,
                                    path@,
                                    name@,
                                    chunks_spec,
                                    command_id,
                                    i as int,
                                    true,
                                );
                            }
                        }
                        return Err(e);
                    },
                };
                let _ok = match check_status(reply) {
                    Ok(m) => m,
                    Err(e) => {
                        proof {
                            lemma_upto_from_indexed(
                                self.sent_view(),
                                sent0.len() as int,
                                path@,
                                name@,
                                chunks_spec,
                                command_id,
                                i as int,
                                true,
                            );
                        }
                        return Err(e);
                    },
                };
                pings = pings.wrapping_add(1);
            }
            let ghost pre_chunk_sent = self.sent_view();
            proof {
                if spec_ping_due(i as int) {
                    assert(pre_chunk_sent.len() == head_sent.len() + 1);
                    assert(spec_is_ping(pre_chunk_sent.last(), spec_ping_id(command_id)));
                } else {
                    assert(pre_chunk_sent == head_sent);
                }
                assert(forall|k: int|
                    0 <= k < head_sent.len() ==> pre_chunk_sent[k] == head_sent[k]);
            }
            let ghost chunks_pre = chunks@;
            proof {
                assert(chunks_pre.map_values(|c: Vec<u8>| c@).len() == chunks_pre.len());
                assert(chunks_spec.skip(i as int).len() == chunks_spec.len() - i);
            }
            let chunk = chunks.remove(0);
            proof {
                assert(chunk == chunks_pre[0]);
                assert(chunks_pre.map_values(|c: Vec<u8>| c@)[0] == chunk@);
                assert(chunks_spec.skip(i as int)[0] == chunks_spec[i as int]);
                assert(chunk@ == chunks_spec[i as int]);
                assert(chunks@ =~= chunks_pre.skip(1));
                assert forall|k: int| #![trigger chunks_spec.skip(i + 1)[k]] 0 <= k
                    < chunks@.len() implies chunks@.map_values(
                    |c: Vec<u8>| c@,
                )[k] == chunks_spec.skip(i + 1)[k] by {
                    assert(chunks@[k] == chunks_pre[k + 1]);
                    assert(chunks_pre.map_values(|c: Vec<u8>| c@)[k + 1] == chunks_pre[k + 1]@);
                    assert(chunks_pre.map_values(|c: Vec<u8>| c@)[k + 1] == chunks_spec.skip(
                        i as int,
                    )[k + 1]);
                    assert(chunks_spec.skip(i as int)[k + 1] == chunks_spec[i + 1 + k]);
                }
                assert(chunks@.map_values(|c: Vec<u8>| c@) =~= chunks_spec.skip(i + 1));
            }
            let chunk_len = chunk.len();
            let digest = chunk_md5(chunk.as_slice());
            let file = StorageFile {
                is_dir: false,
                name: name.clone(),
                size: chunk_len as u32,
                md5sum: digest,
                data: chunk,
            };
            let has_next = i + 1 < total_chunks;
            let msg = Request::StorageWrite(
                WriteRequest { path: path.clone(), file: Some(file) },
            ).into_rpc(command_id).with_has_next(has_next);
            let ghost msgm = msg;
            let send_result = self.send_and_receive_raw(msg);
            proof {
                assert(spec_is_write_chunk(
                    msgm,
                    path@,
                    name@,
                    chunks_spec,
                    i as int,
                    command_id,
                ));
                assert(spec_pings_upto((i + 1) as nat) == spec_pings_upto(i as nat) + (
                if spec_ping_due(i as int) {
                    1 as nat
                } else {
                    0 as nat
                }));
                if self.sent_view() != pre_chunk_sent {
                    assert(self.sent_view() == pre_chunk_sent.push(msgm));
                    assert(self.sent_view().take(sent0.len() as int) =~= sent0);
                    assert(self.sent_view().len() - sent0.len() == (i + 1) + spec_pings_upto(
                        (i + 1) as nat,
                    ));
                    assert forall|j: int| #![trigger spec_pings_upto((j + 1) as nat)] 0 <= j < i
                        + 1 implies spec_is_write_chunk(
                        self.sent_view()[sent0.len() + j + spec_pings_upto((j + 1) as nat)],
                        path@,
                        name@,
                        chunks_spec,
                        j,
                        command_id,
                    ) by {
                        if j < i {
                            lemma_pings_upto_monotone((j + 1) as nat, i as nat);
                            let idx = sent0.len() + j + spec_pings_upto((j + 1) as nat);
                            assert(idx < head_sent.len());
                            assert(self.sent_view()[idx] == pre_chunk_sent[idx]);
                            assert(pre_chunk_sent[idx] == head_sent[idx]);
                            assert(spec_is_write_chunk(
                                head_sent[idx],
                                path@,
                                name@,
                                chunks_spec,
                                j,
                                command_id,
                            ));
                        } else {
                            let idx = sent0.len() + i + spec_pings_upto((i + 1) as nat);
                            assert(idx == pre_chunk_sent.len());
                            assert(self.sent_view()[idx] == msgm);
                        }
                    }
                    assert forall|j: int| #![trigger spec_pings_upto((j + 1) as nat)] 0 <= j < i
                        + 1 && spec_ping_due(j) implies spec_is_ping(
                        self.sent_view()[sent0.len() + j + spec_pings_upto((j + 1) as nat) - 1],
                        spec_ping_id(command_id),
                    ) by {
                        if j < i {
                            lemma_pings_upto_monotone((j + 1) as nat, i as nat);
                            let idx = sent0.len() + j + spec_pings_upto((j + 1) as nat) - 1;
                            assert(spec_pings_upto((j + 1) as nat) >= 1);
                            assert(idx < head_sent.len());
                            assert(self.sent_view()[idx] == pre_chunk_sent[idx]);
                            assert(pre_chunk_sent[idx] == head_sent[idx]);
                            assert(spec_is_ping(head_sent[idx], spec_ping_id(command_id)));
                        } else {
                            let idx = sent0.len() + i + spec_pings_upto((i + 1) as nat) - 1;
                            assert(idx == pre_chunk_sent.len() - 1);
                            assert(self.sent_view()[idx] == pre_chunk_sent[idx]);
                            assert(pre_chunk_sent[idx] == pre_chunk_sent.last());
                        }
                    }
                }
            }
            let reply = match send_result {
                Ok(m) => m,
                Err(e) => {
                    proof {
                        if self.sent_view() == pre_chunk_sent {
                            if spec_ping_due(i as int) {
                                lemma_upto_from_indexed(
                                    self.sent_view(),
                                    sent0.len() as int,
                                    path@,
                                    name@,
                                    chunks_spec,
                                    command_id,
                                    i as int,
                                    true,
                                );
                            } else {
                                lemma_upto_from_indexed(
                                    self.sent_view(),
                                    sent0.len() as int,
                                    path@,
                                    name@,
                                    chunks_spec,
                                    command_id,
                                    i as int,
                                    false,
                                );
                            }
                        } else {
                            lemma_upto_from_indexed(
                                self.sent_view(),
                                sent0.len() as int,
                                path@,
                                name@,
                                chunks_spec,
                                command_id,
                                i as int + 1,
                                false,
                            );
                        }
                    }
                    return Err(e);
                },
            };
            let _ok = match check_status(reply) {
                Ok(m) => m,
                Err(e) => {
                    proof {
                        lemma_upto_from_indexed(
                            self.sent_view(),
                            sent0.len() as int,
                            path@,
                            name@,
                            chunks_spec,
                            command_id,
                            i as int + 1,
                            false,
                        );
                    }
                    return Err(e);
                },
            };
            proof {
                lemma_flatten_concat(chunks_spec.take(i as int), seq![chunks_spec[i as int]]);
                assert(chunks_spec.take(i as int) + seq![chunks_spec[i as int]] =~= chunks_spec
                    .take(i + 1));
                seq![chunks_spec[i as int]].lemma_flatten_one_element();
                assert(spec_prefix_len(chunks_spec, i + 1) == spec_prefix_len(
                    chunks_spec,
                    i as int,
                ) + chunks_spec[i as int].len());
                lemma_flatten_concat(chunks_spec.take(i + 1), chunks_spec.skip(i + 1));
                assert(chunks_spec.take(i + 1) + chunks_spec.skip(i + 1) =~= chunks_spec);
                assert(spec_prefix_len(chunks_spec, i + 1) <= data@.len());
            }
            sent_bytes = sent_bytes + chunk_len;
            match sink.report(sent_bytes, total) {
                Ok(_u) => (),
                Err(_e) => {
                    proof {
                        lemma_upto_from_indexed(
                            self.sent_view(),
                            sent0.len() as int,
                            path@,
                            name@,
                            chunks_spec,
                            command_id,
                            i as int + 1,
                            false,
                        );
                    }
                    return Err(Error::ProgressSink);
                },
            }
            proof {
                let reports = spec_progress_reports(chunks_spec, total);
                assert(reports[i + 1] == (spec_prefix_len(chunks_spec, i + 1) as usize, total));
                assert(reports.take(i + 2) =~= reports.take(i + 1).push(reports[i + 1]));
                assert(sink.reports() =~= sink0 + reports.take(i + 2));
            }
            i = i + 1;
        }
        proof {
            assert(spec_progress_reports(chunks_spec, total).take(total_chunks + 1)
                =~= spec_progress_reports(chunks_spec, total));
        }
        self.increment_command_index(pings.wrapping_add(1));
        proof {
            lemma_upto_from_indexed(
                self.sent_view(),
                sent0.len() as int,
                path@,
                name@,
                chunks_spec,
                command_id,
                total_chunks as int,
                false,
            );
            assert(spec_write_chain(
                self.sent_view().skip(sent0.len() as int),
                path@,
                name@,
                chunks_spec,
                command_id,
            ));
        }
        Ok(())
    }

    fn fs_write(&mut self, path: &String, data: &Vec<u8>) -> (r: Result<(), Error>) {
        let mut sink = VecProgress::new();
        self.fs_write_with_progress(path, data, &mut sink)
    }
}

} // verus!
