//! The begin-request body: the role that opens a logical request, its
//! flag byte, and five reserved bytes.

use vstd::prelude::*;
use crate::errors::FcgiError;
use crate::record::{lemma_u16_split_join, u16_hi, u16_lo, u16_of};

verus! {

/// The kinds of work a request can ask for, wire codes 1 through 3.
#[derive(Clone, Copy, Debug, PartialEq, Eq, Structural)]
pub enum RoleType {
    Responder,
    Authorizer,
    Filter,
}

impl RoleType {
    /// The 16-bit wire code of this role.
    pub open spec fn spec_code(self) -> u16 {
        match self {
            RoleType::Responder => 1,
            RoleType::Authorizer => 2,
            RoleType::Filter => 3,
        }
    }

    pub fn code(self) -> (c: u16)
        ensures
            c == self.spec_code(),
    {
        match self {
            RoleType::Responder => 1,
            RoleType::Authorizer => 2,
            RoleType::Filter => 3,
        }
    }

    /// The role a wire code stands for; `None` outside the defined set.
    pub open spec fn spec_from_code(c: u16) -> Option<RoleType> {
        match c {
            1u16 => Some(RoleType::Responder),
            2u16 => Some(RoleType::Authorizer),
            3u16 => Some(RoleType::Filter),
            _ => None,
        }
    }

    pub fn from_code(c: u16) -> (t: Option<RoleType>)
        ensures
            t == RoleType::spec_from_code(c),
    {
        match c {
            1u16 => Some(RoleType::Responder),
            2u16 => Some(RoleType::Authorizer),
            3u16 => Some(RoleType::Filter),
            _ => None,
        }
    }
}

/// The 8-byte begin-request body: role split big-endian, the flag byte
/// (bit 0 asks the server to keep the connection open), then the
/// reserved bytes, which a conforming encoder leaves at zero.
pub open spec fn spec_begin_body(role: RoleType, flags: u8, reserved: Seq<u8>) -> Seq<u8> {
    seq![u16_hi(role.spec_code()), u16_lo(role.spec_code()), flags] + reserved
}

/// The body that opens a logical request.
#[derive(Clone, Copy, Debug, PartialEq, Eq)]
pub struct BeginRequest {
    pub role: RoleType,
    pub flags: u8,
    pub reserved: [u8; 5],
}

impl BeginRequest {
    pub fn new(role: RoleType, flags: u8, reserved: [u8; 5]) -> (b: BeginRequest)
        ensures
            b.role == role,
            b.flags == flags,
            b.reserved == reserved,
    {
        BeginRequest { role, flags, reserved }
    }

    /// Serializes the body: always 8 bytes. The role check against the
    /// 16-bit field is kept as an explicit validated path, but the closed
    /// role set makes it unreachable, so the result is always `Ok`.
    pub fn to_vec_u8(&self) -> (r: Result<Vec<u8>, FcgiError>)
        ensures
            match r {
                Ok(out) => {
                    &&& out@ == spec_begin_body(self.role, self.flags, self.reserved@)
                    &&& out@.len() == 8
                },
                Err(_) => false,
            },
    {
        let role_code: u16 = self.role.code();
        let mut output: Vec<u8> = Vec::new();
        output.push((role_code / 256) as u8);
        output.push((role_code % 256) as u8);
        output.push(self.flags);
        output.push(self.reserved[0]);
        output.push(self.reserved[1]);
        output.push(self.reserved[2]);
        output.push(self.reserved[3]);
        output.push(self.reserved[4]);
        proof {
            assert(output@ =~= spec_begin_body(self.role, self.flags, self.reserved@));
        }
        Ok(output)
    }

    /// Decodes a begin-request body. Fails with `UnexpectedEof` when
    /// fewer than 8 bytes are given, and with `UnknownRole` when the role
    /// code is outside the defined set; the reserved bytes are carried
    /// through unexamined.
    pub fn decode(bytes: &Vec<u8>) -> (r: Result<BeginRequest, FcgiError>)
        ensures
            match r {
                Ok(b) => {
                    &&& bytes@.len() >= 8
                    &&& RoleType::spec_from_code(u16_of(bytes@[0], bytes@[1])) == Some(b.role)
                    &&& b.flags == bytes@[2]
                    &&& b.reserved@ == bytes@.subrange(3, 8)
                },
                Err(FcgiError::UnexpectedEof) => bytes@.len() < 8,
                Err(FcgiError::UnknownRole) => {
                    &&& bytes@.len() >= 8
                    &&& RoleType::spec_from_code(u16_of(bytes@[0], bytes@[1])) is None
                },
                Err(_) => false,
            },
    {
        if bytes.len() < 8 {
            return Err(FcgiError::UnexpectedEof);
        }
        let role_code: u16 = bytes[0] as u16 * 256 + bytes[1] as u16;
        let role = match RoleType::from_code(role_code) {
            Some(role) => role,
            None => { return Err(FcgiError::UnknownRole); },
        };
        let reserved: [u8; 5] = [bytes[3], bytes[4], bytes[5], bytes[6], bytes[7]];
        proof {
            assert(reserved@ =~= bytes@.subrange(3, 8));
        }
        Ok(BeginRequest { role, flags: bytes[2], reserved })
    }
}

/// Round trip of the begin-request body: an encoded body is 8 bytes
/// whose role code reads back as the role it was built from, with the
/// flag and reserved bytes in their places, for every role, flag byte
/// and 5-byte reserved block.
pub proof fn lemma_begin_round_trip(role: RoleType, flags: u8, reserved: Seq<u8>)
    requires
        reserved.len() == 5,
    ensures
        ({
            let b = spec_begin_body(role, flags, reserved);
            &&& b.len() == 8
            &&& RoleType::spec_from_code(u16_of(b[0], b[1])) == Some(role)
            &&& b[2] == flags
            &&& b.subrange(3, 8) == reserved
        }),
{
    let b = spec_begin_body(role, flags, reserved);
    lemma_u16_split_join(role.spec_code());
    assert(u16_of(b[0], b[1]) == role.spec_code());
    assert(b.subrange(3, 8) =~= reserved);
}

} // verus!
