//! Assembly of a complete outbound request: one begin-request record,
//! the parameter pairs packed into params records of at most 65535
//! content bytes each and closed by an empty params record, then the
//! input body chunked into stdin records and closed by an empty stdin
//! record.

use vstd::prelude::*;
use crate::begin::{spec_begin_body, BeginRequest, RoleType};
use crate::errors::FcgiError;
use crate::params::KeyValuePair;
use crate::bytes::{push_all, sub_vec, zero_bytes};
use crate::record::{spec_record_bytes, Record, RecordType};

verus! {

/// Largest content a single record can carry.
pub const MAX_RECORD_CONTENT: usize = 0xFFFF;

/// The data records a payload is packed into: full 65535-byte chunks,
/// then one record with whatever remains, and nothing for an empty
/// payload. The closing empty record is not included here.
pub open spec fn spec_chunk_records(t: RecordType, request_id: u16, payload: Seq<u8>) -> Seq<u8>
    decreases payload.len(),
{
    if payload.len() == 0 {
        Seq::empty()
    } else if payload.len() <= 0xFFFF {
        spec_record_bytes(t, request_id, payload, 0)
    } else {
        spec_record_bytes(t, request_id, payload.take(0xFFFF), 0)
            + spec_chunk_records(t, request_id, payload.skip(0xFFFF))
    }
}

/// A whole stream of one record type: the packed data records followed
/// by the mandatory empty terminator record.
pub open spec fn spec_stream_bytes(t: RecordType, request_id: u16, payload: Seq<u8>) -> Seq<u8> {
    spec_chunk_records(t, request_id, payload) + spec_record_bytes(t, request_id, Seq::empty(), 0)
}

/// The concatenated encodings of a parameter list, in order.
pub open spec fn spec_params_payload(pairs: Seq<KeyValuePair>) -> Seq<u8>
    decreases pairs.len(),
{
    if pairs.len() == 0 {
        Seq::empty()
    } else {
        pairs[0].spec_encoding() + spec_params_payload(pairs.drop_first())
    }
}

/// Every pair of the list fits the 31-bit length encoding.
pub open spec fn all_encodable(pairs: Seq<KeyValuePair>) -> bool {
    forall|i: int| 0 <= i < pairs.len() ==> #[trigger] pairs[i].encodable()
}

/// The full outbound byte sequence of one request: begin-request record,
/// params stream, stdin stream, in that order. The begin-request body
/// carries zeroed reserved bytes.
pub open spec fn spec_request_bytes(
    role: RoleType,
    flags: u8,
    pairs: Seq<KeyValuePair>,
    stdin: Seq<u8>,
    request_id: u16,
) -> Seq<u8> {
    spec_record_bytes(
        RecordType::BeginRequest,
        request_id,
        spec_begin_body(role, flags, zero_bytes(5)),
        0,
    ) + spec_stream_bytes(RecordType::Params, request_id, spec_params_payload(pairs))
        + spec_stream_bytes(RecordType::Stdin, request_id, stdin)
}

/// Appending one pair to a list appends its encoding to the payload.
proof fn lemma_params_payload_push(pairs: Seq<KeyValuePair>, pair: KeyValuePair)
    ensures
        spec_params_payload(pairs.push(pair)) == spec_params_payload(pairs) + pair.spec_encoding(),
    decreases pairs.len(),
{
    let s = pairs.push(pair);
    assert(s.len() == pairs.len() + 1);
    if pairs.len() == 0 {
        assert(s[0] == pair);
        assert(s.drop_first() =~= Seq::<KeyValuePair>::empty());
        assert(spec_params_payload(s.drop_first()).len() == 0);
        assert(spec_params_payload(s) == s[0].spec_encoding() + spec_params_payload(s.drop_first()));
        assert(spec_params_payload(s) =~= spec_params_payload(pairs) + pair.spec_encoding());
    } else {
        assert(s[0] == pairs[0]);
        assert(s.drop_first() =~= pairs.drop_first().push(pair));
        lemma_params_payload_push(pairs.drop_first(), pair);
        assert(spec_params_payload(s) == s[0].spec_encoding() + spec_params_payload(s.drop_first()));
        assert(spec_params_payload(s) =~= spec_params_payload(pairs) + pair.spec_encoding());
    }
}

/// Packs a payload into records of one type, each of at most 65535
/// content bytes, and closes the stream with the empty terminator
/// record.
pub fn encode_stream(t: RecordType, request_id: u16, payload: &Vec<u8>) -> (out: Vec<u8>)
    ensures
        out@ == spec_stream_bytes(t, request_id, payload@),
{
    let mut out: Vec<u8> = Vec::new();
    let mut offset: usize = 0;
    proof {
        assert(payload@.skip(0) =~= payload@);
        assert(out@ + spec_chunk_records(t, request_id, payload@.skip(0))
            =~= spec_chunk_records(t, request_id, payload@));
    }

    while payload.len() - offset > 0
        invariant
            offset <= payload@.len(),
            out@ + spec_chunk_records(t, request_id, payload@.skip(offset as int))
                == spec_chunk_records(t, request_id, payload@),
        decreases payload@.len() - offset,
    {
        let ghost rest = payload@.skip(offset as int);
        let remaining: usize = payload.len() - offset;
        let take: usize = if remaining > MAX_RECORD_CONTENT { MAX_RECORD_CONTENT } else { remaining };
        let chunk = sub_vec(payload, offset, offset + take);
        proof {
            if rest.len() <= 0xFFFF {
                assert(chunk@ =~= rest);
            } else {
                assert(chunk@ =~= rest.take(0xFFFF));
            }
        }
        match Record::record_from_data(t, request_id, chunk, 0) {
            Ok(rec) => {
                let rec_bytes = rec.to_vec_u8();
                push_all(&mut out, &rec_bytes);
            },
            Err(_) => {
                // The chunk is at most 65535 bytes, so this arm cannot be
                // reached.
                proof { assert(false); }
            },
        }
        offset = offset + take;
        proof {
            assert(payload@.skip(offset as int) =~= rest.skip(take as int));
            if rest.len() <= 0xFFFF {
                assert(rest.skip(take as int) =~= Seq::<u8>::empty());
                assert(out@ + spec_chunk_records(t, request_id, payload@.skip(offset as int))
                    =~= spec_chunk_records(t, request_id, payload@));
            } else {
                assert(out@ + spec_chunk_records(t, request_id, payload@.skip(offset as int))
                    =~= spec_chunk_records(t, request_id, payload@));
            }
        }
    }

    proof {
        assert(payload@.skip(offset as int) =~= Seq::<u8>::empty());
        assert(out@ =~= spec_chunk_records(t, request_id, payload@));
    }

    let terminator_content: Vec<u8> = Vec::new();
    match Record::record_from_data(t, request_id, terminator_content, 0) {
        Ok(rec) => {
            let rec_bytes = rec.to_vec_u8();
            push_all(&mut out, &rec_bytes);
        },
        Err(_) => {
            // An empty terminator record cannot exceed any size limit.
            proof { assert(false); }
        },
    }
    proof {
        assert(out@ =~= spec_stream_bytes(t, request_id, payload@));
    }
    out
}

/// Encodes every parameter pair and packs the concatenation into a
/// params stream, terminator included. Succeeds exactly when every pair
/// fits the 31-bit length encoding.
pub fn serialize_params(params: &Vec<KeyValuePair>, request_id: u16) -> (r: Result<Vec<u8>, FcgiError>)
    ensures
        match r {
            Ok(out) => {
                &&& all_encodable(params@)
                &&& out@ == spec_stream_bytes(
                    RecordType::Params,
                    request_id,
                    spec_params_payload(params@),
                )
            },
            Err(e) => e == FcgiError::NameOrValueTooLarge && !all_encodable(params@),
        },
{
    let mut payload: Vec<u8> = Vec::new();
    let mut i: usize = 0;
    while i < params.len()
        invariant
            i <= params@.len(),
            forall|j: int| 0 <= j < i ==> #[trigger] params@[j].encodable(),
            payload@ == spec_params_payload(params@.take(i as int)),
        decreases params@.len() - i,
    {
        match params[i].to_vec_u8() {
            Ok(pair_bytes) => {
                push_all(&mut payload, &pair_bytes);
            },
            Err(e) => {
                return Err(e);
            },
        }
        proof {
            assert(params@.take(i + 1) =~= params@.take(i as int).push(params@[i as int]));
            lemma_params_payload_push(params@.take(i as int), params@[i as int]);
        }
        i = i + 1;
    }
    proof {
        assert(params@.take(params@.len() as int) =~= params@);
    }
    Ok(encode_stream(RecordType::Params, request_id, &payload))
}

/// Builds the complete outbound byte sequence for one request. Succeeds
/// exactly when every parameter pair fits the 31-bit length encoding; an
/// empty input body still gets its empty stdin terminator.
pub fn assemble_request(
    role: RoleType,
    flags: u8,
    params: &Vec<KeyValuePair>,
    stdin: &Vec<u8>,
    request_id: u16,
) -> (r: Result<Vec<u8>, FcgiError>)
    ensures
        match r {
            Ok(out) => {
                &&& all_encodable(params@)
                &&& out@ == spec_request_bytes(role, flags, params@, stdin@, request_id)
            },
            Err(e) => e == FcgiError::NameOrValueTooLarge && !all_encodable(params@),
        },
{
    let reserved: [u8; 5] = [0, 0, 0, 0, 0];
    proof {
        assert(reserved@ =~= zero_bytes(5));
    }
    let begin = BeginRequest::new(role, flags, reserved);
    let body = match begin.to_vec_u8() {
        Ok(body) => body,
        Err(_) => {
            // Serializing a begin-request body cannot fail.
            proof { assert(false); }
            Vec::new()
        },
    };

    let mut out: Vec<u8>;
    match Record::record_from_data(RecordType::BeginRequest, request_id, body, 0) {
        Ok(rec) => {
            out = rec.to_vec_u8();
        },
        Err(_) => {
            // The 8-byte begin-request body fits every size limit.
            proof { assert(false); }
            out = Vec::new();
        },
    }

    let params_stream = match serialize_params(params, request_id) {
        Ok(stream) => stream,
        Err(e) => {
            return Err(e);
        },
    };
    push_all(&mut out, &params_stream);

    let stdin_stream = encode_stream(RecordType::Stdin, request_id, stdin);
    push_all(&mut out, &stdin_stream);

    proof {
        assert(out@ =~= spec_request_bytes(role, flags, params@, stdin@, request_id));
    }
    Ok(out)
}

} // verus!
