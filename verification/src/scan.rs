//! Byte-stream scanning for the handshake drains: find a marker in a
//! stream that arrives in chunks, keeping a bounded window so that a
//! marker spanning a chunk boundary is still found.

use vstd::prelude::*;
use vstd::slice::slice_to_vec;

verus! {

/// How many trailing stream bytes the scanner keeps between chunks.
pub const SCAN_WINDOW: usize = 512;

/// The needle occurs in the haystack at position `i`.
pub open spec fn spec_occurs_at(h: Seq<u8>, n: Seq<u8>, i: int) -> bool {
    0 <= i && i + n.len() <= h.len() && h.subrange(i, i + n.len()) == n
}

/// The needle occurs somewhere in the haystack.
pub open spec fn spec_occurs(h: Seq<u8>, n: Seq<u8>) -> bool {
    exists|i: int| spec_occurs_at(h, n, i)
}

/// The last `w` bytes of a sequence, or all of it when shorter.
pub open spec fn spec_tail(s: Seq<u8>, w: int) -> Seq<u8> {
    if s.len() <= w {
        s
    } else {
        s.skip(s.len() - w)
    }
}

/// Relies on memchr::memmem::find: the index of the first occurrence of
/// the needle in the haystack, or `None` when it does not occur.
#[verifier::external_body]
pub(crate) fn find_subslice(haystack: &[u8], needle: &[u8]) -> (r: Option<usize>)
    ensures
        match r {
            Some(i) => spec_occurs_at(haystack@, needle@, i as int) && forall|j: int|
                0 <= j < i ==> !spec_occurs_at(haystack@, needle@, j),
            None => !spec_occurs(haystack@, needle@),
        },
{
    memchr::memmem::find(haystack, needle)
}

/// Scans a stream for a marker, chunk by chunk.  Between chunks only the
/// last [`SCAN_WINDOW`] bytes are kept, so a marker is found exactly when
/// it occurs within the kept window plus the newest chunk.
pub struct MarkerScanner {
    marker: Vec<u8>,
    window: Vec<u8>,
}

impl MarkerScanner {
    /// The marker being searched for.
    pub closed spec fn marker_view(&self) -> Seq<u8> {
        self.marker@
    }

    /// The trailing stream bytes kept from earlier chunks.
    pub closed spec fn window_view(&self) -> Seq<u8> {
        self.window@
    }

    /// The marker is nonempty and the kept window is bounded.
    pub closed spec fn wf(&self) -> bool {
        &&& self.marker@.len() >= 1
        &&& self.window@.len() <= SCAN_WINDOW
    }

    /// A scanner for `marker` that has seen nothing yet.
    pub fn new(marker: Vec<u8>) -> (r: MarkerScanner)
        requires
            marker@.len() >= 1,
        ensures
            r.wf(),
            r.marker_view() == marker@,
            r.window_view() == Seq::<u8>::empty(),
    {
        MarkerScanner { marker, window: Vec::new() }
    }

    /// Feeds the next chunk read from the stream.  Returns true exactly
    /// when the marker occurs in the kept window followed by this chunk;
    /// afterwards the kept window is the last [`SCAN_WINDOW`] bytes of
    /// that concatenation.
    pub fn feed(&mut self, chunk: &[u8]) -> (r: bool)
        requires
            old(self).wf(),
        ensures
            final(self).wf(),
            final(self).marker_view() == old(self).marker_view(),
            r == spec_occurs(old(self).window_view() + chunk@, old(self).marker_view()),
            final(self).window_view() == spec_tail(
                old(self).window_view() + chunk@,
                SCAN_WINDOW as int,
            ),
    {
        self.window.extend_from_slice(chunk);
        proof {
            assert(self.window@ == old(self).window_view() + chunk@);
        }
        let found = find_subslice(self.window.as_slice(), self.marker.as_slice());
        proof {
            assert(found is Some ==> spec_occurs(
                old(self).window_view() + chunk@,
                old(self).marker_view(),
            ));
            assert(found is None ==> !spec_occurs(
                old(self).window_view() + chunk@,
                old(self).marker_view(),
            ));
        }
        if self.window.len() > SCAN_WINDOW {
            let excess = self.window.len() - SCAN_WINDOW;
            let tail = slice_to_vec(&self.window.as_slice()[excess..self.window.len()]);
            self.window = tail;
            proof {
                assert(self.window@ =~= spec_tail(
                    old(self).window_view() + chunk@,
                    SCAN_WINDOW as int,
                ));
            }
        }
        found.is_some()
    }
}

} // verus!
