//! Client-side codec for the FastCGI wire protocol: record framing,
//! name-value parameter encoding, begin-request bodies, assembly of a
//! complete outbound request, and a streaming reader that demultiplexes
//! the response records an application server sends back.
//!
//! The crate works on plain byte buffers; the transport (a socket or any
//! other duplex byte stream) is the caller's business.

pub mod assemble;
pub mod begin;
pub mod bytes;
pub mod errors;
pub mod params;
pub mod record;
pub mod response;

pub use errors::FcgiError;
