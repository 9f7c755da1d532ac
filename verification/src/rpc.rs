//! User-facing request/response layer: maps the raw message structure into
//! `Request` and `Response` values and a device status into a `Result`.

pub mod error;
pub mod req;
pub mod res;
