//! An in-memory transport: answers from a scripted list of replies and
//! records every message sent.
//!
//! It stands in for a device during tests and exercises the same engine
//! code paths as a physical channel, with every trait contract proved.

use vstd::prelude::*;

use crate::error::Error;
use crate::proto::Main;
use crate::transport::{CommandIndex, TransportRaw};

verus! {

/// A scripted in-memory transport.  `receive_raw` hands out the scripted
/// replies in order and fails once they are exhausted; `send_raw` records
/// the message and always succeeds.
pub struct MockTransport {
    index: u32,
    sent: Vec<Main>,
    replies: Vec<Main>,
    received: Ghost<Seq<Main>>,
}

impl MockTransport {
    /// A fresh transport that will answer with `replies`, in order.
    pub fn new(replies: Vec<Main>) -> (r: MockTransport)
        ensures
            r.index_view() == 0,
            r.sent_view() == Seq::<Main>::empty(),
            r.recv_view() == Seq::<Main>::empty(),
            r.pending_view() == replies@,
    {
        MockTransport { index: 0, sent: Vec::new(), replies, received: Ghost(Seq::empty()) }
    }

    /// The scripted replies not yet handed out.
    pub closed spec fn pending_view(&self) -> Seq<Main> {
        self.replies@
    }

    /// The messages sent so far, in order.
    pub fn sent_messages(&self) -> (r: &Vec<Main>)
        ensures
            r@ == self.sent_view(),
    {
        &self.sent
    }

    /// How many messages have been sent so far.
    pub fn sent_count(&self) -> (r: usize)
        ensures
            r == self.sent_view().len(),
    {
        self.sent.len()
    }
}

impl CommandIndex for MockTransport {
    closed spec fn index_view(&self) -> u32 {
        self.index
    }

    closed spec fn sent_view(&self) -> Seq<Main> {
        self.sent@
    }

    closed spec fn recv_view(&self) -> Seq<Main> {
        self.received@
    }

    fn increment_command_index(&mut self, by: u32) -> (r: u32) {
        self.index = self.index.wrapping_add(by);
        self.index
    }

    fn command_index(&mut self) -> (r: u32) {
        self.index
    }
}

impl TransportRaw for MockTransport {
    fn send_raw(&mut self, value: Main) -> (r: Result<(), Error>) {
        self.sent.push(value);
        Ok(())
    }

    fn receive_raw(&mut self) -> (r: Result<Main, Error>) {
        if self.replies.len() == 0 {
            Err(Error::NoData)
        } else {
            let m = self.replies.remove(0);
            proof {
                self.received@ = self.received@.push(m);
            }
            Ok(m)
        }
    }
}

} // verus!
