//! Generic transport traits.
//!
//! A transport is anything that can carry one structured message at a
//! time in each direction.  The traits record, as specification-level
//! state, the session's sequence counter and the transcript of messages
//! sent and received; every engine contract in this crate is stated over
//! those views.  The crate's own [`mock::MockTransport`] implements them
//! with its proofs; a serial-port implementation lives with the driver,
//! outside the verified library.

use vstd::prelude::*;

use crate::error::Error;
use crate::proto::{CommandStatus, Main, spec_status_from_code};
use crate::rpc::error::spec_status_error;
use crate::rpc::req::{Request, spec_request_main};
use crate::rpc::res::{Response, spec_response_matches};

pub mod mock;

verus! {

/// A device found during port discovery: the serial port it answers on
/// and the product name it reports.  Discovery itself is I/O and lives
/// with the driver; this is the plain record it hands back.
#[derive(Debug, Clone, PartialEq)]
pub struct FlipperDevice {
    /// Port name, such as a tty path or a COM port.
    pub port_name: String,
    /// Product name the device reports.
    pub device_name: String,
}

/// Access to a session's state: the sequence counter that correlates
/// requests with responses, and the transcript of raw messages moved so
/// far (the transcript is specification-level only; nothing stores it at
/// run time).  Transports implement this so that the chunk engines can
/// both manage the counter and state exactly what they send.
pub trait CommandIndex: Sized {
    /// The current sequence counter.
    open spec fn index_view(&self) -> u32 {
        0
    }

    /// Every raw message sent so far, in order.
    open spec fn sent_view(&self) -> Seq<Main> {
        Seq::empty()
    }

    /// Every raw message received so far, in order.
    open spec fn recv_view(&self) -> Seq<Main> {
        Seq::empty()
    }

    /// Advances the sequence counter, wrapping on overflow, and returns
    /// the new value.  The transcript is untouched.
    fn increment_command_index(&mut self, by: u32) -> (r: u32)
        ensures
            final(self).index_view() == old(self).index_view().wrapping_add(by),
            r == final(self).index_view(),
            final(self).sent_view() == old(self).sent_view(),
            final(self).recv_view() == old(self).recv_view(),
    ;

    /// Returns the current sequence counter.  Nothing changes.
    fn command_index(&mut self) -> (r: u32)
        ensures
            r == old(self).index_view(),
            final(self).index_view() == old(self).index_view(),
            final(self).sent_view() == old(self).sent_view(),
            final(self).recv_view() == old(self).recv_view(),
    ;
}

/// Moves raw messages over the channel, one at a time.  Sending appends
/// to the sent transcript and receiving appends to the received
/// transcript; neither touches the sequence counter.  Nothing is promised
/// about success — the channel and the device decide that — nor about
/// what a received message holds: callers judge each received message
/// themselves.  A transport never reports `Error::InvalidInput`: that
/// error is reserved for argument rejection by the engines, so their
/// callers can tell the two apart.
pub trait TransportRaw: CommandIndex {
    /// Sends one raw message.  Does not change the sequence counter.
    fn send_raw(&mut self, value: Main) -> (r: Result<(), Error>)
        ensures
            final(self).index_view() == old(self).index_view(),
            final(self).recv_view() == old(self).recv_view(),
            r is Ok ==> final(self).sent_view() == old(self).sent_view().push(value),
            r is Err ==> final(self).sent_view() == old(self).sent_view(),
            r != Result::<(), Error>::Err(Error::InvalidInput),
    ;

    /// Receives one raw message.  Does not change the sequence counter.
    fn receive_raw(&mut self) -> (r: Result<Main, Error>)
        ensures
            final(self).index_view() == old(self).index_view(),
            final(self).sent_view() == old(self).sent_view(),
            r matches Ok(m) ==> final(self).recv_view() == old(self).recv_view().push(m),
            r is Err ==> final(self).recv_view() == old(self).recv_view(),
            r != Result::<Main, Error>::Err(Error::InvalidInput),
    ;

    /// Sends one raw message, then immediately receives one.
    fn send_and_receive_raw(&mut self, value: Main) -> (r: Result<Main, Error>)
        ensures
            final(self).index_view() == old(self).index_view(),
            r matches Ok(m) ==> {
                &&& final(self).sent_view() == old(self).sent_view().push(value)
                &&& final(self).recv_view() == old(self).recv_view().push(m)
            },
            r is Err ==> {
                &&& (final(self).sent_view() == old(self).sent_view() || final(self).sent_view()
                    == old(self).sent_view().push(value))
                &&& final(self).recv_view() == old(self).recv_view()
            },
            r != Result::<Main, Error>::Err(Error::InvalidInput),
    {
        self.send_raw(value)?;
        self.receive_raw()
    }
}

/// The outcome [`Transport::receive`] reports for a received message
/// `m`: an unrecognized status code is its own error, a recognized
/// non-success status is its categorized error, and a success status
/// yields the extracted response.
pub open spec fn spec_receive_outcome(m: Main, r: Result<Response, Error>) -> bool {
    match spec_status_from_code(m.command_status) {
        None => r == Result::<Response, Error>::Err(Error::UnknownStatus(m.command_status)),
        Some(st) => if st == CommandStatus::Success {
            r matches Ok(resp) && spec_response_matches(m, resp)
        } else {
            r == Result::<Response, Error>::Err(Error::Rpc(spec_status_error(st)))
        },
    }
}

/// The request/response layer over a raw transport: requests consume the
/// current sequence counter value and advance it by one, and received
/// messages are judged by their status code before their content is
/// handed out.
pub trait Transport: TransportRaw {
    /// Sends a request under the current counter value, advancing the
    /// counter by one whether or not the channel accepted the message.
    fn send(&mut self, req: Request) -> (r: Result<(), Error>)
        ensures
            final(self).index_view() == old(self).index_view().wrapping_add(1),
            final(self).recv_view() == old(self).recv_view(),
            r is Ok ==> final(self).sent_view() == old(self).sent_view().push(
                spec_request_main(req, old(self).index_view()),
            ),
            r is Err ==> final(self).sent_view() == old(self).sent_view(),
    ;

    /// Receives one message and judges it: a non-success status becomes
    /// its categorized error, an unrecognized status code is an error of
    /// its own, and a success status yields the extracted response.
    fn receive(&mut self) -> (r: Result<Response, Error>)
        ensures
            final(self).index_view() == old(self).index_view(),
            final(self).sent_view() == old(self).sent_view(),
            final(self).recv_view() == old(self).recv_view() || final(self).recv_view() == old(
                self,
            ).recv_view().push(final(self).recv_view().last()),
            final(self).recv_view() != old(self).recv_view() ==> spec_receive_outcome(
                final(self).recv_view().last(),
                r,
            ),
            final(self).recv_view() == old(self).recv_view() ==> r is Err,
    ;

    /// Sends a request, then waits for and judges its response.
    fn send_and_receive(&mut self, req: Request) -> (r: Result<Response, Error>)
        ensures
            final(self).index_view() == old(self).index_view().wrapping_add(1),
            r is Ok ==> final(self).sent_view() == old(self).sent_view().push(
                spec_request_main(req, old(self).index_view()),
            ),
            final(self).recv_view() == old(self).recv_view() || final(self).recv_view() == old(
                self,
            ).recv_view().push(final(self).recv_view().last()),
            final(self).recv_view() != old(self).recv_view() ==> spec_receive_outcome(
                final(self).recv_view().last(),
                r,
            ),
    ;
}

impl<T: TransportRaw> Transport for T {
    fn send(&mut self, req: Request) -> (r: Result<(), Error>) {
        let command_id = self.command_index();
        let proto = req.into_rpc(command_id);
        self.increment_command_index(1);
        self.send_raw(proto)?;
        Ok(())
    }

    fn receive(&mut self) -> (r: Result<Response, Error>) {
        let m = self.receive_raw()?;
        match CommandStatus::from_code(m.command_status) {
            None => Err(Error::UnknownStatus(m.command_status)),
            Some(st) => {
                let m = st.into_result(m)?;
                Ok(m.into_response())
            },
        }
    }

    fn send_and_receive(&mut self, req: Request) -> (r: Result<Response, Error>) {
        self.send(req)?;
        self.receive()
    }
}

} // verus!
