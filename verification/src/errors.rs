//! The error taxonomy shared by every fallible operation of the crate.

use vstd::prelude::*;

verus! {

/// Everything that can go wrong while encoding or decoding FastCGI data.
///
/// Encoding errors (`ContentTooLarge`, `PaddingTooLarge`,
/// `NameOrValueTooLarge`) are caller-correctable input errors. Decoding
/// errors (`TruncatedNameValue`, `UnknownRole`, `UnexpectedEof`) mean the
/// byte stream did not hold what its framing declared.
/// `UnexpectedRecordType` is soft: the response reader stops cleanly and
/// the partial response is still handed back. The two transport variants
/// are never produced here; the code that owns the actual byte stream maps
/// its I/O failures onto them so that callers see one taxonomy.
#[derive(Clone, Copy, Debug, PartialEq, Eq, Structural)]
pub enum FcgiError {
    /// Record content would exceed the 16-bit content-length field.
    ContentTooLarge,
    /// Record padding would exceed the 8-bit padding-length field.
    PaddingTooLarge,
    /// A parameter name or value would exceed the 31-bit length encoding.
    NameOrValueTooLarge,
    /// A name-value block ended before the declared lengths were satisfied.
    TruncatedNameValue,
    /// A begin-request body carried a role code outside the defined set.
    UnknownRole,
    /// The stream closed in the middle of a frame.
    UnexpectedEof,
    /// A record type arrived that the response reader does not handle;
    /// the raw wire code is kept for diagnostics.
    UnexpectedRecordType(u8),
    /// A read deadline on the underlying stream expired.
    TransportTimeout,
    /// The underlying stream failed.
    TransportError,
}

} // verus!
