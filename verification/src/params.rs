//! Name-value parameter pairs and their variable-length size prefixes:
//! one byte when a length is at most 127 (top bit clear), else four bytes
//! big-endian with the top bit of the first byte set over a 31-bit length.

use vstd::prelude::*;
use vstd::utf8::encode_utf8;
use vstd::slice::slice_to_vec;
use crate::errors::FcgiError;
use crate::bytes::{push_all, sub_vec};

verus! {

/// Largest length the 4-byte prefix can carry: 2^31 - 1.
pub const MAX_NAME_VALUE_LEN: usize = 0x7FFF_FFFF;

/// The size prefix for a length: `[n]` when `n <= 127`, else the four
/// big-endian bytes of `n` with the top bit of the first byte set.
/// Meaningful for `n <= 0x7FFF_FFFF`, which is what encoding enforces.
pub open spec fn spec_len_prefix(n: nat) -> Seq<u8> {
    if n <= 127 {
        seq![n as u8]
    } else {
        seq![
            (n / 0x1000000 + 128) as u8,
            ((n / 0x10000) % 256) as u8,
            ((n / 256) % 256) as u8,
            (n % 256) as u8,
        ]
    }
}

/// The encoding of one pair: both size prefixes, then the raw name
/// bytes, then the raw value bytes.
pub open spec fn spec_pair_bytes(name: Seq<u8>, value: Seq<u8>) -> Seq<u8> {
    spec_len_prefix(name.len()) + spec_len_prefix(value.len()) + name + value
}

/// One request parameter: a name and a value.
#[derive(Clone, Debug, PartialEq, Eq)]
pub struct KeyValuePair {
    pub name: String,
    pub value: String,
}

impl KeyValuePair {
    pub fn new(name: String, value: String) -> (p: KeyValuePair)
        ensures
            p.name == name,
            p.value == value,
    {
        KeyValuePair { name, value }
    }

    /// The UTF-8 bytes of the name.
    pub open spec fn spec_name_bytes(self) -> Seq<u8> {
        encode_utf8(self.name@)
    }

    /// The UTF-8 bytes of the value.
    pub open spec fn spec_value_bytes(self) -> Seq<u8> {
        encode_utf8(self.value@)
    }

    /// Both byte lengths fit the 31-bit length encoding.
    pub open spec fn encodable(self) -> bool {
        &&& self.spec_name_bytes().len() <= 0x7FFF_FFFF
        &&& self.spec_value_bytes().len() <= 0x7FFF_FFFF
    }

    /// The wire encoding of this pair.
    pub open spec fn spec_encoding(self) -> Seq<u8> {
        spec_pair_bytes(self.spec_name_bytes(), self.spec_value_bytes())
    }

    /// Encodes the pair. Succeeds exactly when both byte lengths fit the
    /// 31-bit length encoding.
    pub fn to_vec_u8(&self) -> (r: Result<Vec<u8>, FcgiError>)
        ensures
            match r {
                Ok(out) => self.encodable() && out@ == self.spec_encoding(),
                Err(e) => e == FcgiError::NameOrValueTooLarge && !self.encodable(),
            },
    {
        let name_bytes: Vec<u8> = slice_to_vec(self.name.as_str().as_bytes());
        let value_bytes: Vec<u8> = slice_to_vec(self.value.as_str().as_bytes());

        if name_bytes.len() > MAX_NAME_VALUE_LEN || value_bytes.len() > MAX_NAME_VALUE_LEN {
            return Err(FcgiError::NameOrValueTooLarge);
        }

        let mut output: Vec<u8> = Vec::new();
        push_len_prefix(&mut output, name_bytes.len());
        push_len_prefix(&mut output, value_bytes.len());
        push_all(&mut output, &name_bytes);
        push_all(&mut output, &value_bytes);

        proof {
            assert(output@ =~= self.spec_encoding());
        }
        Ok(output)
    }

    /// Decodes one pair starting at `offset`: the raw name and value
    /// bytes and the offset of the first byte after them. Fails with
    /// `TruncatedNameValue` exactly when the buffer ends before the
    /// prefixes, or before the lengths they declare.
    pub fn decode(bytes: &Vec<u8>, offset: usize) -> (r: Result<((Vec<u8>, Vec<u8>), usize), FcgiError>)
        ensures
            match r {
                Ok(((name, value), next)) => {
                    &&& spec_parse_pair(bytes@, offset as int) == Some(((name@, value@), next as int))
                    &&& offset < next <= bytes@.len()
                },
                Err(e) => {
                    &&& e == FcgiError::TruncatedNameValue
                    &&& spec_parse_pair(bytes@, offset as int) is None
                },
            },
    {
        let (name_len, after_name_len) = match parse_len(bytes, offset) {
            Ok(p) => p,
            Err(e) => { return Err(e); },
        };
        let (value_len, after_value_len) = match parse_len(bytes, after_name_len) {
            Ok(p) => p,
            Err(e) => { return Err(e); },
        };

        let avail: usize = bytes.len() - after_value_len;
        if avail < name_len || avail - name_len < value_len {
            return Err(FcgiError::TruncatedNameValue);
        }

        let name_end: usize = after_value_len + name_len;
        let next: usize = name_end + value_len;
        let name = sub_vec(bytes, after_value_len, name_end);
        let value = sub_vec(bytes, name_end, next);
        Ok(((name, value), next))
    }
}

/// Wraps a list of plain name/value tuples as parameter pairs, keeping
/// their order.
pub fn pairs_from_tuples(raw: &Vec<(String, String)>) -> (pairs: Vec<KeyValuePair>)
    ensures
        pairs@.len() == raw@.len(),
        forall|i: int|
            0 <= i < raw@.len() ==> #[trigger] pairs@[i].name == raw@[i].0 && pairs@[i].value
                == raw@[i].1,
{
    let mut pairs: Vec<KeyValuePair> = Vec::new();
    let mut i: usize = 0;
    while i < raw.len()
        invariant
            i <= raw@.len(),
            pairs@.len() == i,
            forall|j: int|
                0 <= j < i ==> #[trigger] pairs@[j].name == raw@[j].0 && pairs@[j].value
                    == raw@[j].1,
        decreases raw@.len() - i,
    {
        let tuple = &raw[i];
        pairs.push(KeyValuePair::new(tuple.0.clone(), tuple.1.clone()));
        i = i + 1;
    }
    pairs
}

/// Spec-level decoding of one size prefix: the length it declares and
/// the offset after it. `None` exactly when the buffer ends before the
/// prefix (one byte, or four when the first byte has its top bit set).
pub open spec fn spec_parse_len(bytes: Seq<u8>, offset: int) -> Option<(int, int)> {
    if offset < 0 || offset + 1 > bytes.len() {
        None
    } else if bytes[offset] < 128 {
        Some((bytes[offset] as int, offset + 1))
    } else if offset + 4 > bytes.len() {
        None
    } else {
        Some((
            (bytes[offset] as int - 128) * 0x1000000
                + bytes[offset + 1] as int * 0x10000
                + bytes[offset + 2] as int * 256
                + bytes[offset + 3] as int,
            offset + 4,
        ))
    }
}

/// Spec-level decoding of one pair: both prefixes, then the name and
/// value slices they declare, and the offset just past them.
pub open spec fn spec_parse_pair(bytes: Seq<u8>, offset: int) -> Option<((Seq<u8>, Seq<u8>), int)> {
    match spec_parse_len(bytes, offset) {
        None => None,
        Some((name_len, o1)) => match spec_parse_len(bytes, o1) {
            None => None,
            Some((value_len, o2)) => {
                if o2 + name_len + value_len > bytes.len() {
                    None
                } else {
                    Some((
                        (
                            bytes.subrange(o2, o2 + name_len),
                            bytes.subrange(o2 + name_len, o2 + name_len + value_len),
                        ),
                        o2 + name_len + value_len,
                    ))
                }
            },
        },
    }
}

/// Appends the size prefix for `n` to `dst`.
fn push_len_prefix(dst: &mut Vec<u8>, n: usize)
    requires
        n <= 0x7FFF_FFFF,
    ensures
        final(dst)@ == old(dst)@ + spec_len_prefix(n as nat),
{
    if n <= 127 {
        dst.push(n as u8);
    } else {
        proof {
            vstd::arithmetic::div_mod::lemma_div_is_ordered(n as int, 0x7FFF_FFFF, 0x1000000);
        }
        dst.push((n / 0x1000000 + 128) as u8);
        dst.push(((n / 0x10000) % 256) as u8);
        dst.push(((n / 256) % 256) as u8);
        dst.push((n % 256) as u8);
    }
    proof {
        assert(dst@ =~= old(dst)@ + spec_len_prefix(n as nat));
    }
}

/// Reads one size prefix at `offset`: the length and the offset after
/// it. Fails with `TruncatedNameValue` exactly when the buffer ends
/// before the prefix.
fn parse_len(bytes: &Vec<u8>, offset: usize) -> (r: Result<(usize, usize), FcgiError>)
    ensures
        match r {
            Ok((n, next)) => {
                &&& spec_parse_len(bytes@, offset as int) == Some((n as int, next as int))
                &&& n <= 0x7FFF_FFFF
                &&& offset < next <= bytes@.len()
            },
            Err(e) => {
                &&& e == FcgiError::TruncatedNameValue
                &&& spec_parse_len(bytes@, offset as int) is None
            },
        },
{
    if bytes.len() < offset || bytes.len() - offset < 1 {
        return Err(FcgiError::TruncatedNameValue);
    }
    let first: u8 = bytes[offset];
    if first < 128 {
        Ok((first as usize, offset + 1))
    } else {
        if bytes.len() - offset < 4 {
            return Err(FcgiError::TruncatedNameValue);
        }
        let n: usize = (first - 128) as usize * 0x1000000
            + bytes[offset + 1] as usize * 0x10000
            + bytes[offset + 2] as usize * 256
            + bytes[offset + 3] as usize;
        Ok((n, offset + 4))
    }
}

/// The value `n < 2^32` is the weighted sum of its four base-256 digits.
proof fn lemma_base256_digits(n: int)
    requires
        0 <= n < 0x100000000,
    ensures
        (n / 0x1000000) * 0x1000000 + ((n / 0x10000) % 256) * 0x10000 + ((n / 256) % 256) * 256
            + n % 256 == n,
{
    vstd::arithmetic::div_mod::lemma_fundamental_div_mod(n, 256);
    vstd::arithmetic::div_mod::lemma_fundamental_div_mod(n / 256, 256);
    vstd::arithmetic::div_mod::lemma_fundamental_div_mod(n / 0x10000, 256);
    vstd::arithmetic::div_mod::lemma_div_denominator(n, 256, 256);
    vstd::arithmetic::div_mod::lemma_div_denominator(n, 0x10000, 256);
}

/// A size prefix placed at `offset` in a larger buffer reads back as the
/// length it was built from.
pub proof fn lemma_parse_len_at(bytes: Seq<u8>, offset: int, n: nat)
    requires
        n <= 0x7FFF_FFFF,
        0 <= offset,
        offset + spec_len_prefix(n).len() <= bytes.len(),
        bytes.subrange(offset, offset + spec_len_prefix(n).len()) == spec_len_prefix(n),
    ensures
        spec_parse_len(bytes, offset) == Some((n as int, offset + spec_len_prefix(n).len())),
{
    let p = spec_len_prefix(n);
    let sub = bytes.subrange(offset, offset + p.len());
    if n <= 127 {
        assert(bytes[offset] == sub[0]);
    } else {
        assert(bytes[offset] == sub[0]);
        assert(bytes[offset + 1] == sub[1]);
        assert(bytes[offset + 2] == sub[2]);
        assert(bytes[offset + 3] == sub[3]);
        assert(n / 0x1000000 <= 127) by {
            vstd::arithmetic::div_mod::lemma_div_is_ordered(n as int, 0x7FFF_FFFF, 0x1000000);
        }
        lemma_base256_digits(n as int);
    }
}

/// The 1-byte prefix form is used exactly for lengths up to 127, with
/// the top bit of its single byte clear; every longer length uses the
/// 4-byte form, with the top bit of its first byte set.
pub proof fn lemma_len_prefix_form(n: nat)
    requires
        n <= 0x7FFF_FFFF,
    ensures
        n <= 127 ==> spec_len_prefix(n).len() == 1 && spec_len_prefix(n)[0] == n && spec_len_prefix(n)[0] < 128,
        n > 127 ==> spec_len_prefix(n).len() == 4 && spec_len_prefix(n)[0] >= 128,
{
}

/// Round trip of pair encoding: decoding an encoded pair at its start
/// yields the same name bytes and value bytes and consumes exactly the
/// encoding, for every pair of byte lengths up to 2^31 - 1.
pub proof fn lemma_pair_round_trip(name: Seq<u8>, value: Seq<u8>)
    requires
        name.len() <= 0x7FFF_FFFF,
        value.len() <= 0x7FFF_FFFF,
    ensures
        spec_parse_pair(spec_pair_bytes(name, value), 0)
            == Some(((name, value), spec_pair_bytes(name, value).len() as int)),
{
    let p1 = spec_len_prefix(name.len());
    let p2 = spec_len_prefix(value.len());
    let bytes = spec_pair_bytes(name, value);
    assert(bytes.subrange(0, p1.len() as int) =~= p1);
    lemma_parse_len_at(bytes, 0, name.len());
    let o1 = p1.len() as int;
    assert(bytes.subrange(o1, o1 + p2.len()) =~= p2);
    lemma_parse_len_at(bytes, o1, value.len());
    let o2 = o1 + p2.len();
    assert(bytes.subrange(o2, o2 + name.len()) =~= name);
    assert(bytes.subrange(o2 + name.len(), o2 + name.len() + value.len()) =~= value);
    assert(o2 + name.len() + value.len() == bytes.len());
}

} // verus!
