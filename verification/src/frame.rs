//! Message framing: each frame on the wire is a varint length prefix
//! followed by exactly that many payload bytes.
//!
//! The varint is the standard 7-bits-per-byte encoding with the high bit
//! as continuation flag, at most [`MAX_VARINT_LEN`] bytes for a 64-bit
//! length.  Decoding supports two strategies with identical external
//! behaviour: a two-stage buffered plan that needs at most two physical
//! reads for any payload ([`begin_decode`] / [`finish_decode`]), and a
//! byte-wise fallback that consumes the prefix one byte at a time
//! ([`BytewiseReader`]).  The driver performs the reads; every decision
//! about how many bytes to read next is made and specified here.

use vstd::prelude::*;
use vstd::slice::slice_to_vec;

use crate::error::Error;

verus! {

/// Maximum number of bytes a varint length prefix occupies.
pub const MAX_VARINT_LEN: usize = 10;

/// Largest payload that still fits in the initial fixed read buffer.
pub const SMALL_PAYLOAD_LIMIT: usize = 128;

/// Size of the initial read: varint headroom plus a small payload.
pub const FIRST_READ_LIMIT: usize = MAX_VARINT_LEN + SMALL_PAYLOAD_LIMIT;

/// Number of bytes the varint encoding of `v` occupies.
pub open spec fn varint_len(v: nat) -> nat
    decreases v,
{
    if v < 128 {
        1
    } else {
        1 + varint_len(v / 128)
    }
}

/// The varint encoding of `v`: seven low bits per byte, least significant
/// group first, high bit set on every byte except the last.
pub open spec fn varint_bytes(v: nat) -> Seq<u8>
    decreases v,
{
    if v < 128 {
        seq![v as u8]
    } else {
        seq![(128 + v % 128) as u8] + varint_bytes(v / 128)
    }
}

/// Scans a varint at the start of `s`: the decoded value and the number
/// of bytes it occupies, or `None` when no terminating byte is reached.
pub open spec fn varint_scan(s: Seq<u8>) -> Option<(nat, nat)>
    decreases s.len(),
{
    if s.len() == 0 {
        None
    } else if s[0] < 128 {
        Some((s[0] as nat, 1 as nat))
    } else {
        match varint_scan(s.drop_first()) {
            None => None,
            Some((v, n)) => Some((((s[0] - 128) + 128 * v) as nat, (n + 1) as nat)),
        }
    }
}

/// The encoding of `v` occupies exactly `varint_len(v)` bytes.
pub proof fn lemma_varint_bytes_len(v: nat)
    ensures
        varint_bytes(v).len() == varint_len(v),
    decreases v,
{
    if v >= 128 {
        lemma_varint_bytes_len(v / 128);
    }
}

/// Scanning a buffer that starts with the encoding of `v` finds exactly
/// `v`, consuming exactly the encoding, whatever follows it.
pub proof fn lemma_varint_scan_encode(v: nat, rest: Seq<u8>)
    ensures
        varint_scan(varint_bytes(v) + rest) == Some((v, varint_len(v))),
    decreases v,
{
    let s = varint_bytes(v) + rest;
    if v < 128 {
        assert(s[0] == v as u8);
    } else {
        lemma_varint_scan_encode(v / 128, rest);
        assert(s.drop_first() =~= varint_bytes(v / 128) + rest);
        assert(s[0] == (128 + v % 128) as u8);
        assert((s[0] - 128) + 128 * (v / 128) == v % 128 + 128 * (v / 128));
        assert(v % 128 + 128 * (v / 128) == v) by (nonlinear_arith);
    }
}

/// A successful scan consumes at least one and at most all bytes.
pub proof fn lemma_varint_scan_len(s: Seq<u8>)
    ensures
        varint_scan(s) matches Some((v, n)) ==> 1 <= n <= s.len(),
    decreases s.len(),
{
    if s.len() > 0 && s[0] >= 128 {
        lemma_varint_scan_len(s.drop_first());
    }
}

/// A scan that succeeds within `k` bytes gives the same result on the
/// `k`-byte prefix: trailing bytes beyond the varint do not matter.
pub proof fn lemma_varint_scan_prefix(s: Seq<u8>, k: int)
    requires
        varint_scan(s) matches Some((v, n)) && n <= k,
        k <= s.len(),
    ensures
        varint_scan(s.take(k)) == varint_scan(s),
    decreases s.len(),
{
    if s.len() > 0 && s[0] >= 128 {
        lemma_varint_scan_len(s.drop_first());
        lemma_varint_scan_prefix(s.drop_first(), k - 1);
        assert(s.take(k).drop_first() =~= s.drop_first().take(k - 1));
    }
}

/// Values below `2^(7k)` encode in at most `k` bytes.
proof fn lemma_varint_len_pow_bound(v: nat, k: nat)
    requires
        k >= 1,
        v < pow128(k),
    ensures
        varint_len(v) <= k,
    decreases k,
{
    if v >= 128 {
        assert(pow128(k) == 128 * pow128((k - 1) as nat));
        assert(v / 128 < pow128((k - 1) as nat)) by (nonlinear_arith)
            requires
                v < 128 * pow128((k - 1) as nat),
        ;
        lemma_varint_len_pow_bound(v / 128, (k - 1) as nat);
    }
}

/// `128^k`, the number of values expressible in `k` varint bytes.
pub open spec fn pow128(k: nat) -> nat
    decreases k,
{
    if k == 0 {
        1
    } else {
        128 * pow128((k - 1) as nat)
    }
}

/// Every length that fits in a 64-bit machine word encodes in at most
/// [`MAX_VARINT_LEN`] bytes.
pub proof fn lemma_varint_len_max(v: nat)
    requires
        v <= usize::MAX,
    ensures
        varint_len(v) <= 10,
{
    assert(pow128(0) == 1);
    assert(pow128(1) == 128);
    assert(pow128(2) == 0x4000);
    assert(pow128(3) == 0x200000);
    assert(pow128(4) == 0x10000000);
    assert(pow128(5) == 0x800000000);
    assert(pow128(6) == 0x40000000000);
    assert(pow128(7) == 0x2000000000000);
    assert(pow128(8) == 0x100000000000000);
    assert(pow128(9) == 0x8000000000000000);
    assert(pow128(10) == 0x400000000000000000);
    lemma_varint_len_pow_bound(v, 10);
}

/// Returns the number of bytes the varint encoding of `value` occupies.
/// Computes the length only; nothing is allocated or written.
pub fn varint_length(value: usize) -> (r: usize)
    ensures
        r == varint_len(value as nat),
{
    proof {
        lemma_varint_len_max(value as nat);
    }
    let mut v = value;
    let mut len: usize = 1;
    while v >= 128
        invariant
            len >= 1,
            varint_len(value as nat) == len - 1 + varint_len(v as nat),
            varint_len(value as nat) <= 10,
            varint_len(v as nat) >= 1,
        decreases v,
    {
        v = v / 128;
        len = len + 1;
    }
    len
}

/// Encodes `value` as a varint length delimiter.
pub fn encode_length_delimiter(value: usize) -> (r: Vec<u8>)
    ensures
        r@ == varint_bytes(value as nat),
{
    let mut out: Vec<u8> = Vec::new();
    let mut v = value;
    while v >= 128
        invariant
            varint_bytes(value as nat) =~= out@ + varint_bytes(v as nat),
        decreases v,
    {
        out.push((128 + v % 128) as u8);
        v = v / 128;
        proof {
            assert(varint_bytes(value as nat) =~= out@ + varint_bytes(v as nat));
        }
    }
    out.push(v as u8);
    proof {
        assert(varint_bytes(value as nat) =~= out@);
    }
    out
}

/// Decodes the varint starting at `pos`, returning its value and byte
/// count; `None` when unterminated or when the value exceeds the machine
/// word.
fn decode_varint_from(bytes: &[u8], pos: usize) -> (r: Option<(usize, usize)>)
    requires
        pos <= bytes@.len(),
    ensures
        match varint_scan(bytes@.skip(pos as int)) {
            None => r is None,
            Some((v, n)) => if v <= usize::MAX {
                r == Some((v as usize, n as usize))
            } else {
                r is None
            },
        },
    decreases bytes@.len() - pos,
{
    let ghost s = bytes@.skip(pos as int);
    if pos == bytes.len() {
        return None;
    }
    let b = bytes[pos];
    assert(b == s[0]);
    if b < 128 {
        Some((b as usize, 1))
    } else {
        proof {
            assert(bytes@.skip(pos + 1) =~= s.drop_first());
        }
        match decode_varint_from(bytes, pos + 1) {
            None => None,
            Some((v, n)) => {
                proof {
                    lemma_varint_scan_len(s.drop_first());
                }
                let low = (b - 128) as usize;
                if v > (usize::MAX - low) / 128 {
                    proof {
                        let inner = varint_scan(s.drop_first()).unwrap().0;
                        assert(inner == v);
                        assert(128 * inner + low > usize::MAX) by (nonlinear_arith)
                            requires
                                inner > (usize::MAX - low) / 128,
                                low <= usize::MAX,
                        ;
                    }
                    None
                } else {
                    proof {
                        assert(128 * (v as nat) + low <= usize::MAX) by (nonlinear_arith)
                            requires
                                v <= (usize::MAX - low) / 128,
                                low <= usize::MAX,
                        ;
                    }
                    let value = low + 128 * v;
                    Some((value, n + 1))
                }
            },
        }
    }
}

/// Decodes the varint length delimiter at the start of `bytes`: its value
/// and the number of bytes it occupies.  `None` when the varint is
/// unterminated, longer than [`MAX_VARINT_LEN`] bytes, or too large for
/// the machine word.
pub fn decode_length_delimiter(bytes: &[u8]) -> (r: Option<(usize, usize)>)
    ensures
        match varint_scan(bytes@) {
            None => r is None,
            Some((v, n)) => if v <= usize::MAX && n <= MAX_VARINT_LEN {
                r == Some((v as usize, n as usize))
            } else {
                r is None
            },
        },
{
    let buf_len = bytes.len();
    proof {
        assert(bytes@.skip(0) =~= bytes@);
        lemma_varint_scan_len(bytes@);
        assert(bytes@.len() == buf_len);
    }
    match decode_varint_from(bytes, 0) {
        None => None,
        Some((v, n)) => {
            if n <= MAX_VARINT_LEN {
                Some((v, n))
            } else {
                None
            }
        },
    }
}

/// The bytes of one frame: the varint encoding of the payload length,
/// then the payload itself.
pub open spec fn spec_frame_bytes(payload: Seq<u8>) -> Seq<u8> {
    varint_bytes(payload.len()) + payload
}

/// Encodes one frame: length prefix followed by the payload.
pub fn encode_frame(payload: &[u8]) -> (r: Vec<u8>)
    ensures
        r@ == spec_frame_bytes(payload@),
{
    let mut out = encode_length_delimiter(payload.len());
    out.extend_from_slice(payload);
    out
}

/// Outcome of planning a frame decode on the bytes of the initial read.
#[derive(Debug, PartialEq)]
pub enum FirstRead {
    /// The whole payload was contained in the initial read.
    Complete {
        /// The payload, exactly as declared by the length prefix.
        payload: Vec<u8>,
    },
    /// Only a prefix of the payload was read; exactly `remaining` more
    /// bytes complete it.
    NeedMore {
        /// The payload bytes already read.
        prefix: Vec<u8>,
        /// How many payload bytes must be read next — no more, no fewer.
        remaining: usize,
    },
}

/// How the initial read's bytes determine the decode plan: an empty read
/// is "no data"; an unterminated or oversized prefix is malformed; a
/// declared length within the bytes in hand completes immediately with
/// exactly the declared payload; otherwise the rest of the bytes are the
/// payload prefix and exactly the missing count must be read next.
pub open spec fn spec_plan_matches(buf: Seq<u8>, r: Result<FirstRead, Error>) -> bool {
    if buf.len() == 0 {
        r == Result::<FirstRead, Error>::Err(Error::NoData)
    } else {
        match varint_scan(buf) {
            None => r == Result::<FirstRead, Error>::Err(Error::MalformedVarint),
            Some((len, n)) => if len > usize::MAX || n > MAX_VARINT_LEN {
                r == Result::<FirstRead, Error>::Err(Error::MalformedVarint)
            } else if len <= buf.len() - n {
                match r {
                    Ok(FirstRead::Complete { payload }) => payload@ == buf.subrange(
                        n as int,
                        n as int + len,
                    ),
                    _ => false,
                }
            } else {
                match r {
                    Ok(FirstRead::NeedMore { prefix, remaining }) => {
                        &&& prefix@ == buf.skip(n as int)
                        &&& remaining == len - (buf.len() - n)
                    },
                    _ => false,
                }
            },
        }
    }
}

/// Plans the decode of one frame from the bytes the initial read
/// produced.  At most one further read is ever required, whatever the
/// declared payload length: see [`lemma_two_stage_reads`].
pub fn begin_decode(buf: &[u8]) -> (r: Result<FirstRead, Error>)
    ensures
        spec_plan_matches(buf@, r),
{
    if buf.len() == 0 {
        return Err(Error::NoData);
    }
    match decode_length_delimiter(buf) {
        None => Err(Error::MalformedVarint),
        Some((len, n)) => {
            proof {
                lemma_varint_scan_len(buf@);
            }
            let avail = buf.len() - n;
            if len <= avail {
                let payload = slice_to_vec(&buf[n..n + len]);
                Ok(FirstRead::Complete { payload })
            } else {
                let prefix = slice_to_vec(&buf[n..buf.len()]);
                proof {
                    assert(buf@.subrange(n as int, buf@.len() as int) =~= buf@.skip(n as int));
                }
                Ok(FirstRead::NeedMore { prefix, remaining: len - avail })
            }
        },
    }
}

/// Completes a two-stage decode: the payload is the prefix from the
/// initial read followed by the bytes of the second read.
pub fn finish_decode(prefix: &[u8], rest: &[u8]) -> (r: Vec<u8>)
    ensures
        r@ == prefix@ + rest@,
{
    let mut out = slice_to_vec(prefix);
    out.extend_from_slice(rest);
    out
}

/// A sequence of prefix bytes that reaches its terminator scans
/// successfully, consuming every byte.
pub proof fn lemma_varint_scan_terminated(s: Seq<u8>)
    requires
        s.len() >= 1,
        forall|i: int| 0 <= i < s.len() - 1 ==> s[i] >= 128,
        s.last() < 128,
    ensures
        varint_scan(s) matches Some((v, n)) && n == s.len(),
    decreases s.len(),
{
    if s.len() > 1 {
        lemma_varint_scan_terminated(s.drop_first());
    }
}

/// Incremental byte-wise varint reader: the fallback decode strategy.
///
/// The driver reads the length prefix one byte at a time, feeding each
/// byte to [`BytewiseReader::push_byte`] until it answers with the
/// declared payload length, then reads exactly that many payload bytes.
/// Up to [`MAX_VARINT_LEN`] single-byte reads plus one payload read are
/// issued; the external behaviour is identical to the two-stage strategy.
pub struct BytewiseReader {
    buf: Vec<u8>,
}

/// What the byte-wise reader asks of the driver after each prefix byte.
#[derive(Debug, Clone, Copy, PartialEq, Eq, Structural)]
pub enum BytewiseStep {
    /// The prefix is not finished: read exactly one more byte.
    NeedByte,
    /// The prefix is complete and declares this payload length: read
    /// exactly that many payload bytes next.
    Payload(usize),
    /// The prefix is malformed: unterminated within the maximum varint
    /// length, or too large for the machine word.
    Malformed,
}

impl BytewiseReader {
    /// The prefix bytes consumed so far are all continuation bytes, fewer
    /// than the maximum varint length.
    pub closed spec fn wf(&self) -> bool {
        &&& self.buf@.len() < MAX_VARINT_LEN
        &&& forall|i: int| 0 <= i < self.buf@.len() ==> self.buf@[i] >= 128
    }

    /// The prefix bytes consumed so far.
    pub closed spec fn prefix_view(&self) -> Seq<u8> {
        self.buf@
    }

    /// A fresh reader that has consumed nothing.
    pub fn new() -> (r: BytewiseReader)
        ensures
            r.wf(),
            r.prefix_view() == Seq::<u8>::empty(),
    {
        BytewiseReader { buf: Vec::new() }
    }

    /// Feeds the next byte of the length prefix.  A byte with the high
    /// bit continues the prefix; the first byte without it terminates the
    /// prefix and yields the declared payload length, which is exactly
    /// the varint scanned over all bytes fed so far.
    pub fn push_byte(&mut self, byte: u8) -> (r: BytewiseStep)
        requires
            old(self).wf(),
        ensures
            final(self).prefix_view() == old(self).prefix_view().push(byte),
            match r {
                BytewiseStep::NeedByte => byte >= 128 && final(self).wf(),
                BytewiseStep::Payload(len) => byte < 128 && varint_scan(final(self).prefix_view())
                    == Some((len as nat, final(self).prefix_view().len())),
                BytewiseStep::Malformed => (byte >= 128 && final(self).prefix_view().len()
                    == MAX_VARINT_LEN) || (byte < 128 && (varint_scan(final(self).prefix_view())
                    matches Some((v, n)) && v > usize::MAX)),
            },
    {
        self.buf.push(byte);
        if byte >= 128 {
            if self.buf.len() < MAX_VARINT_LEN {
                BytewiseStep::NeedByte
            } else {
                BytewiseStep::Malformed
            }
        } else {
            proof {
                lemma_varint_scan_terminated(self.buf@);
            }
            match decode_length_delimiter(self.buf.as_slice()) {
                Some((len, _n)) => BytewiseStep::Payload(len),
                None => BytewiseStep::Malformed,
            }
        }
    }
}

/// Byte-wise round trip: feeding the reader the prefix bytes of a frame
/// terminates exactly at the end of the prefix with the payload's length,
/// and the rest of the frame is exactly the payload.  Together with
/// [`lemma_frame_round_trip`] this shows the two strategies reproduce the
/// same payload from the same frame.
pub proof fn lemma_bytewise_round_trip(payload: Seq<u8>)
    requires
        payload.len() <= usize::MAX,
    ensures
        varint_scan(varint_bytes(payload.len())) == Some((payload.len(), varint_len(
            payload.len(),
        ))),
        varint_len(payload.len()) <= MAX_VARINT_LEN,
        spec_frame_bytes(payload).skip(varint_len(payload.len()) as int) == payload,
{
    lemma_varint_scan_encode(payload.len(), Seq::<u8>::empty());
    assert(varint_bytes(payload.len()) + Seq::<u8>::empty() =~= varint_bytes(payload.len()));
    lemma_varint_len_max(payload.len());
    lemma_varint_bytes_len(payload.len());
    assert(spec_frame_bytes(payload).skip(varint_len(payload.len()) as int) =~= payload);
}

/// Number of physical reads a plan still requires after the initial read.
pub open spec fn spec_extra_reads(plan: FirstRead) -> nat {
    match plan {
        FirstRead::Complete { .. } => 0,
        FirstRead::NeedMore { .. } => 1,
    }
}

/// The two-stage strategy never issues more than two physical reads for
/// any payload length: one initial read, and at most one more as the plan
/// demands.
pub proof fn lemma_two_stage_reads(buf: Seq<u8>, plan: FirstRead)
    requires
        spec_plan_matches(buf, Ok(plan)),
    ensures
        1 + spec_extra_reads(plan) <= 2,
{
}

/// Frame round trip, complete initial read: when the initial read
/// returned the whole frame of any payload, the plan completes at once
/// with exactly that payload.
pub proof fn lemma_frame_round_trip(payload: Seq<u8>, r: Result<FirstRead, Error>)
    requires
        payload.len() <= usize::MAX,
        spec_plan_matches(spec_frame_bytes(payload), r),
    ensures
        r matches Ok(FirstRead::Complete { payload: p }) && p@ == payload,
{
    let frame = spec_frame_bytes(payload);
    lemma_varint_scan_encode(payload.len(), payload);
    lemma_varint_bytes_len(payload.len());
    lemma_varint_len_max(payload.len());
    let n = varint_len(payload.len());
    assert(frame.subrange(n as int, n as int + payload.len()) =~= payload);
}

/// Frame round trip, partial initial read: when the initial read returned
/// only the first `k` bytes of a frame (at least the whole length
/// prefix), the plan demands exactly the missing bytes, and completing it
/// with them reproduces the payload.
pub proof fn lemma_frame_round_trip_partial(payload: Seq<u8>, k: int, r: Result<FirstRead, Error>)
    requires
        payload.len() <= usize::MAX,
        varint_len(payload.len()) <= k < spec_frame_bytes(payload).len(),
        spec_plan_matches(spec_frame_bytes(payload).take(k), r),
    ensures
        r matches Ok(FirstRead::NeedMore { prefix, remaining }) && {
            let frame = spec_frame_bytes(payload);
            &&& remaining == frame.len() - k
            &&& prefix@ + frame.skip(k) == payload
        },
{
    let frame = spec_frame_bytes(payload);
    let n = varint_len(payload.len());
    lemma_varint_scan_encode(payload.len(), payload);
    lemma_varint_bytes_len(payload.len());
    lemma_varint_len_max(payload.len());
    lemma_varint_scan_prefix(frame, k);
    assert(varint_scan(frame.take(k)) == Some((payload.len(), n)));
    assert(frame.take(k).len() - n < payload.len());
    match r {
        Ok(FirstRead::NeedMore { prefix, remaining }) => {
            assert(prefix@ == frame.take(k).skip(n as int));
            assert(prefix@ + frame.skip(k) =~= payload);
        },
        _ => {
            assert(false);
        },
    }
}

} // verus!
