//! Error taxonomy for every operation of this crate.
//!
//! Callers receive a typed error identifying which layer failed: channel
//! I/O, framing, payload decoding, a device-reported status, a handshake
//! timeout, or progress delivery.  No operation retries internally; every
//! failure is surfaced to the immediate caller.

use vstd::prelude::*;

verus! {

/// Global error type for all RPC and I/O failures.
#[derive(Debug, Clone, PartialEq)]
pub enum Error {
    /// A channel-level I/O failure, with the driver's message.
    Io(String),
    /// A frame was expected but not a single byte could be read.
    NoData,
    /// The length prefix of a frame is not a valid varint.
    MalformedVarint,
    /// The payload bytes of a frame do not parse as a structured message.
    Decode,
    /// The device reported a non-success status; see [`crate::rpc::error::Error`].
    Rpc(crate::rpc::error::Error),
    /// The device reported a status code outside the recognized set.
    UnknownStatus(i32),
    /// A handshake drain step timed out; carries the marker that was not found.
    Timeout(String),
    /// An argument was rejected, such as a destination path without a file name.
    InvalidInput,
    /// A response did not carry the content the operation requires.
    InvalidResponse,
    /// The device answered a read without file data.
    ReadFailed,
    /// A progress report could not be delivered to its sink.
    ProgressSink,
}

/// Result type of every fallible operation in this crate.
pub type Result<T> = core::result::Result<T, Error>;

} // verus!
