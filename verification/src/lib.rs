//! Client-side protocol engine for exchanging length-delimited binary
//! messages with an embedded device over a byte-oriented serial channel.
//!
//! The crate covers message framing (varint length prefix with a two-stage
//! buffered or byte-wise decode strategy), the handshake that switches the
//! device into RPC mode, command-sequence synchronization, the chunked read
//! and write engines (with keepalive injection), and the mapping of
//! device-reported status codes into a structured error taxonomy.
//!
//! Physical I/O is left to the caller: the engines here are written against
//! narrow transport traits, and every decision they make is specified and
//! verified.

pub mod digest;
pub mod error;
pub mod frame;
pub mod fs;
pub mod proto;
pub mod rpc;
pub mod scan;
pub mod session;
pub mod storage;
pub mod text;
pub mod transport;

use vstd::prelude::*;

verus! {

/// Number of payload bytes carried per chunk of a chunked write.
pub const CHUNK_SIZE: usize = 512;

} // verus!
