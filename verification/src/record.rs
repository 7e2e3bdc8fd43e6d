//! Record framing: the 8-byte header, content and padding, with
//! byte-exact encode and decode and the round-trip proof between them.

use vstd::prelude::*;
use crate::bytes::{push_all, sub_vec, zero_bytes, zero_vec};
use crate::errors::FcgiError;

verus! {

/// The record types of the protocol, wire codes 1 through 11.
#[derive(Clone, Copy, Debug, PartialEq, Eq, Structural)]
pub enum RecordType {
    BeginRequest,
    AbortRequest,
    EndRequest,
    Params,
    Stdin,
    Stdout,
    Stderr,
    Data,
    GetValues,
    GetValuesResult,
    UnknownType,
}

impl RecordType {
    /// The 1-byte wire code of this record type.
    pub open spec fn spec_code(self) -> u8 {
        match self {
            RecordType::BeginRequest => 1,
            RecordType::AbortRequest => 2,
            RecordType::EndRequest => 3,
            RecordType::Params => 4,
            RecordType::Stdin => 5,
            RecordType::Stdout => 6,
            RecordType::Stderr => 7,
            RecordType::Data => 8,
            RecordType::GetValues => 9,
            RecordType::GetValuesResult => 10,
            RecordType::UnknownType => 11,
        }
    }

    pub fn code(self) -> (c: u8)
        ensures
            c == self.spec_code(),
    {
        match self {
            RecordType::BeginRequest => 1,
            RecordType::AbortRequest => 2,
            RecordType::EndRequest => 3,
            RecordType::Params => 4,
            RecordType::Stdin => 5,
            RecordType::Stdout => 6,
            RecordType::Stderr => 7,
            RecordType::Data => 8,
            RecordType::GetValues => 9,
            RecordType::GetValuesResult => 10,
            RecordType::UnknownType => 11,
        }
    }

    /// The record type a wire code stands for. Codes outside 1..=11 fall
    /// back to `UnknownType` so that a decoder stays forward-compatible;
    /// the raw code itself is kept in the decoded header.
    pub open spec fn spec_from_code(c: u8) -> RecordType {
        match c {
            1u8 => RecordType::BeginRequest,
            2u8 => RecordType::AbortRequest,
            3u8 => RecordType::EndRequest,
            4u8 => RecordType::Params,
            5u8 => RecordType::Stdin,
            6u8 => RecordType::Stdout,
            7u8 => RecordType::Stderr,
            8u8 => RecordType::Data,
            9u8 => RecordType::GetValues,
            10u8 => RecordType::GetValuesResult,
            _ => RecordType::UnknownType,
        }
    }

    pub fn from_code(c: u8) -> (t: RecordType)
        ensures
            t == RecordType::spec_from_code(c),
    {
        match c {
            1u8 => RecordType::BeginRequest,
            2u8 => RecordType::AbortRequest,
            3u8 => RecordType::EndRequest,
            4u8 => RecordType::Params,
            5u8 => RecordType::Stdin,
            6u8 => RecordType::Stdout,
            7u8 => RecordType::Stderr,
            8u8 => RecordType::Data,
            9u8 => RecordType::GetValues,
            10u8 => RecordType::GetValuesResult,
            _ => RecordType::UnknownType,
        }
    }
}

/// High byte of a 16-bit big-endian field.
pub open spec fn u16_hi(x: u16) -> u8 {
    (x as int / 256) as u8
}

/// Low byte of a 16-bit big-endian field.
pub open spec fn u16_lo(x: u16) -> u8 {
    (x as int % 256) as u8
}

/// The 16-bit value a big-endian byte pair stands for.
pub open spec fn u16_of(hi: u8, lo: u8) -> u16 {
    (hi as int * 256 + lo as int) as u16
}

/// Splitting a 16-bit value into bytes and reading them back is the identity.
pub proof fn lemma_u16_split_join(x: u16)
    ensures
        u16_of(u16_hi(x), u16_lo(x)) == x,
{
    assert(x as int == 256 * (x as int / 256) + x as int % 256) by {
        vstd::arithmetic::div_mod::lemma_fundamental_div_mod(x as int, 256);
    }
}

/// The fixed-size record header. Request identifier and content length
/// are stored split into big-endian byte pairs, exactly as on the wire.
#[derive(Clone, Copy, Debug, PartialEq, Eq, Structural)]
pub struct Header {
    pub version: u8,
    pub type_code: u8,
    pub request_id_hi: u8,
    pub request_id_lo: u8,
    pub content_length_hi: u8,
    pub content_length_lo: u8,
    pub padding_length: u8,
    pub reserved: u8,
}

impl Header {
    pub open spec fn spec_request_id(self) -> u16 {
        u16_of(self.request_id_hi, self.request_id_lo)
    }

    pub open spec fn spec_content_length(self) -> u16 {
        u16_of(self.content_length_hi, self.content_length_lo)
    }

    /// The record type this header declares.
    pub open spec fn spec_record_type(self) -> RecordType {
        RecordType::spec_from_code(self.type_code)
    }

    pub fn record_type(&self) -> (t: RecordType)
        ensures
            t == self.spec_record_type(),
    {
        RecordType::from_code(self.type_code)
    }

    pub fn request_id(&self) -> (id: u16)
        ensures
            id == self.spec_request_id(),
    {
        self.request_id_hi as u16 * 256 + self.request_id_lo as u16
    }

    pub fn content_length(&self) -> (n: u16)
        ensures
            n == self.spec_content_length(),
    {
        self.content_length_hi as u16 * 256 + self.content_length_lo as u16
    }

    /// Reads a header out of exactly 8 bytes.
    pub fn from_bytes(bytes: &Vec<u8>) -> (h: Header)
        requires
            bytes@.len() == 8,
        ensures
            h == spec_header_from_bytes(bytes@),
    {
        Header {
            version: bytes[0],
            type_code: bytes[1],
            request_id_hi: bytes[2],
            request_id_lo: bytes[3],
            content_length_hi: bytes[4],
            content_length_lo: bytes[5],
            padding_length: bytes[6],
            reserved: bytes[7],
        }
    }

    /// The 8 bytes of the header in wire order.
    pub open spec fn wire_bytes(self) -> Seq<u8> {
        seq![
            self.version,
            self.type_code,
            self.request_id_hi,
            self.request_id_lo,
            self.content_length_hi,
            self.content_length_lo,
            self.padding_length,
            self.reserved,
        ]
    }
}

/// The header whose fields stand at the front of `bytes`, in wire
/// order. Meaningful for `bytes.len() >= 8`.
pub open spec fn spec_header_from_bytes(bytes: Seq<u8>) -> Header {
    Header {
        version: bytes[0],
        type_code: bytes[1],
        request_id_hi: bytes[2],
        request_id_lo: bytes[3],
        content_length_hi: bytes[4],
        content_length_lo: bytes[5],
        padding_length: bytes[6],
        reserved: bytes[7],
    }
}

/// The header that encoding builds: version 1, reserved byte 0, the
/// given type, request identifier and lengths split big-endian.
pub open spec fn spec_header(t: RecordType, request_id: u16, content_length: u16, padding_length: u8) -> Header {
    Header {
        version: 1,
        type_code: t.spec_code(),
        request_id_hi: u16_hi(request_id),
        request_id_lo: u16_lo(request_id),
        content_length_hi: u16_hi(content_length),
        content_length_lo: u16_lo(content_length),
        padding_length: padding_length,
        reserved: 0,
    }
}

/// The full wire image of an encoded record: header, content, then
/// all-zero padding. Meaningful for `content.len() <= 65535` and
/// `padding <= 255`, which is what encoding enforces.
pub open spec fn spec_record_bytes(t: RecordType, request_id: u16, content: Seq<u8>, padding: nat) -> Seq<u8> {
    spec_header(t, request_id, content.len() as u16, padding as u8).wire_bytes() + content + zero_bytes(padding)
}

/// One protocol record: a header plus the content and padding bytes it
/// frames.
#[derive(Clone, Debug, PartialEq, Eq)]
pub struct Record {
    pub header: Header,
    pub content_data: Vec<u8>,
    pub padding_data: Vec<u8>,
}

impl Record {
    /// The header's length fields frame exactly the bytes the record holds.
    pub open spec fn wf(self) -> bool {
        &&& self.content_data@.len() == self.header.spec_content_length()
        &&& self.padding_data@.len() == self.header.padding_length
    }

    /// The serialized image of this record.
    pub open spec fn wire_bytes(self) -> Seq<u8> {
        self.header.wire_bytes() + self.content_data@ + self.padding_data@
    }

    /// Builds a record from its parts, validating both size limits.
    /// Succeeds exactly when the content fits the 16-bit length field and
    /// the padding fits the 8-bit one; the padding bytes are zeros.
    pub fn record_from_data(
        record_type: RecordType,
        request_id: u16,
        content_data: Vec<u8>,
        padding_length: usize,
    ) -> (r: Result<Record, FcgiError>)
        ensures
            match r {
                Ok(rec) => {
                    &&& content_data@.len() <= 0xFFFF
                    &&& padding_length <= 0xFF
                    &&& rec.header == spec_header(record_type, request_id, content_data@.len() as u16, padding_length as u8)
                    &&& rec.content_data@ == content_data@
                    &&& rec.padding_data@ == zero_bytes(padding_length as nat)
                    &&& rec.wf()
                    &&& rec.wire_bytes() == spec_record_bytes(record_type, request_id, content_data@, padding_length as nat)
                },
                Err(FcgiError::ContentTooLarge) => content_data@.len() > 0xFFFF,
                Err(FcgiError::PaddingTooLarge) => content_data@.len() <= 0xFFFF && padding_length > 0xFF,
                Err(_) => false,
            },
    {
        let content_length: usize = content_data.len();
        if content_length > 0xFFFF {
            return Err(FcgiError::ContentTooLarge);
        }
        if padding_length > 0xFF {
            return Err(FcgiError::PaddingTooLarge);
        }

        let header = Header {
            version: 1,
            type_code: record_type.code(),
            request_id_hi: (request_id / 256) as u8,
            request_id_lo: (request_id % 256) as u8,
            content_length_hi: (content_length / 256) as u8,
            content_length_lo: (content_length % 256) as u8,
            padding_length: padding_length as u8,
            reserved: 0,
        };

        let padding_data: Vec<u8> = zero_vec(padding_length);

        let rec = Record { header, content_data, padding_data };
        proof {
            assert(rec.wire_bytes() =~= spec_record_bytes(record_type, request_id, rec.content_data@, padding_length as nat));
        }
        Ok(rec)
    }

    /// Serializes the record: 8 header bytes, then content, then padding.
    pub fn to_vec_u8(&self) -> (out: Vec<u8>)
        ensures
            out@ == self.wire_bytes(),
    {
        let mut output: Vec<u8> = Vec::new();

        output.push(self.header.version);
        output.push(self.header.type_code);
        output.push(self.header.request_id_hi);
        output.push(self.header.request_id_lo);
        output.push(self.header.content_length_hi);
        output.push(self.header.content_length_lo);
        output.push(self.header.padding_length);
        output.push(self.header.reserved);
        push_all(&mut output, &self.content_data);
        push_all(&mut output, &self.padding_data);

        proof {
            assert(output@ =~= self.wire_bytes());
        }
        output
    }

    /// Decodes one record starting at `offset`: the parts of the record
    /// and the offset of the first byte after it. Fails with
    /// `UnexpectedEof` exactly when the buffer ends before the header, or
    /// before the content and padding the header declares.
    pub fn parse(bytes: &Vec<u8>, offset: usize) -> (r: Result<(Record, usize), FcgiError>)
        ensures
            match r {
                Ok((rec, next)) => {
                    &&& spec_parse_record(bytes@, offset as int)
                        == Some((rec.header, rec.content_data@, rec.padding_data@, next as int))
                    &&& rec.wf()
                    &&& offset < next <= bytes@.len()
                },
                Err(e) => {
                    &&& e == FcgiError::UnexpectedEof
                    &&& spec_parse_record(bytes@, offset as int) is None
                },
            },
    {
        if bytes.len() < offset || bytes.len() - offset < 8 {
            return Err(FcgiError::UnexpectedEof);
        }

        let header = Header {
            version: bytes[offset],
            type_code: bytes[offset + 1],
            request_id_hi: bytes[offset + 2],
            request_id_lo: bytes[offset + 3],
            content_length_hi: bytes[offset + 4],
            content_length_lo: bytes[offset + 5],
            padding_length: bytes[offset + 6],
            reserved: bytes[offset + 7],
        };

        let content_length: usize = header.content_length() as usize;
        let padding_length: usize = header.padding_length as usize;

        if bytes.len() - offset - 8 < content_length + padding_length {
            return Err(FcgiError::UnexpectedEof);
        }

        let content_start: usize = offset + 8;
        let padding_start: usize = content_start + content_length;
        let next: usize = padding_start + padding_length;

        let content_data = sub_vec(bytes, content_start, padding_start);
        let padding_data = sub_vec(bytes, padding_start, next);

        let rec = Record { header, content_data, padding_data };
        Ok((rec, next))
    }
}

/// Spec-level record decoding: the header read field-by-field from the
/// first 8 bytes after `offset`, then the content and padding slices its
/// length fields declare, and the offset just past them. `None` exactly
/// when the buffer is too short for any of the three parts.
pub open spec fn spec_parse_record(bytes: Seq<u8>, offset: int) -> Option<(Header, Seq<u8>, Seq<u8>, int)> {
    if offset < 0 || offset + 8 > bytes.len() {
        None
    } else {
        let h = spec_header_from_bytes(bytes.skip(offset));
        let clen = h.spec_content_length() as int;
        let plen = h.padding_length as int;
        if offset + 8 + clen + plen > bytes.len() {
            None
        } else {
            Some((
                h,
                bytes.subrange(offset + 8, offset + 8 + clen),
                bytes.subrange(offset + 8 + clen, offset + 8 + clen + plen),
                offset + 8 + clen + plen,
            ))
        }
    }
}

/// Round trip of record framing: decoding an encoded record yields the
/// same header, the same content, the zero padding, and consumes exactly
/// the encoding, for every type, request identifier, content up to 65535
/// bytes and padding up to 255.
pub proof fn lemma_record_round_trip(t: RecordType, request_id: u16, content: Seq<u8>, padding: nat)
    requires
        content.len() <= 0xFFFF,
        padding <= 0xFF,
    ensures
        spec_parse_record(spec_record_bytes(t, request_id, content, padding), 0)
            == Some((
                spec_header(t, request_id, content.len() as u16, padding as u8),
                content,
                zero_bytes(padding),
                spec_record_bytes(t, request_id, content, padding).len() as int,
            )),
{
    let h = spec_header(t, request_id, content.len() as u16, padding as u8);
    let bytes = spec_record_bytes(t, request_id, content, padding);
    assert(bytes.len() == 8 + content.len() + padding);
    assert(bytes.skip(0) =~= bytes);
    assert(spec_header_from_bytes(bytes) == h);
    lemma_u16_split_join(content.len() as u16);
    assert(h.spec_content_length() == content.len());
    assert(bytes.subrange(8, 8 + content.len() as int) =~= content);
    assert(bytes.subrange(8 + content.len() as int, bytes.len() as int) =~= zero_bytes(padding));
}

/// The stream terminators (empty params, empty stdin) encode as a bare
/// 8-byte header that declares content length 0 and padding length 0,
/// whatever the record type and request identifier.
pub proof fn lemma_terminator_is_bare_header(t: RecordType, request_id: u16)
    ensures
        spec_record_bytes(t, request_id, Seq::<u8>::empty(), 0) == spec_header(t, request_id, 0, 0).wire_bytes(),
        spec_record_bytes(t, request_id, Seq::<u8>::empty(), 0).len() == 8,
        spec_header(t, request_id, 0, 0).spec_content_length() == 0,
{
    assert(spec_record_bytes(t, request_id, Seq::<u8>::empty(), 0)
        =~= spec_header(t, request_id, 0, 0).wire_bytes());
}

} // verus!
