//! Begin-request body encoding and decoding on concrete values.

use fcgi_codec::begin::{BeginRequest, RoleType};
use fcgi_codec::errors::FcgiError;

#[test]
fn begin_encode_responder() {
    let body = BeginRequest::new(RoleType::Responder, 0, [0; 5]);
    let bytes = body.to_vec_u8().unwrap();
    assert_eq!(bytes, vec![0, 1, 0, 0, 0, 0, 0, 0]);
}

#[test]
fn begin_encode_all_roles() {
    for (role, code) in [
        (RoleType::Responder, 1u8),
        (RoleType::Authorizer, 2u8),
        (RoleType::Filter, 3u8),
    ] {
        let bytes = BeginRequest::new(role, 0, [0; 5]).to_vec_u8().unwrap();
        assert_eq!(bytes[0], 0);
        assert_eq!(bytes[1], code);
    }
}

#[test]
fn begin_encode_keeps_flags() {
    let body = BeginRequest::new(RoleType::Responder, 1, [0; 5]);
    let bytes = body.to_vec_u8().unwrap();
    assert_eq!(bytes, vec![0, 1, 1, 0, 0, 0, 0, 0]);
}

#[test]
fn begin_decode_round_trip() {
    let body = BeginRequest::new(RoleType::Filter, 1, [0; 5]);
    let bytes = body.to_vec_u8().unwrap();
    let back = BeginRequest::decode(&bytes).unwrap();
    assert!(matches!(back.role, RoleType::Filter));
    assert_eq!(back.flags, 1);
    assert_eq!(back.reserved, [0; 5]);
}

#[test]
fn begin_decode_ignores_reserved_bytes() {
    let bytes = vec![0, 2, 0, 9, 9, 9, 9, 9];
    let back = BeginRequest::decode(&bytes).unwrap();
    assert!(matches!(back.role, RoleType::Authorizer));
    assert_eq!(back.reserved, [9; 5]);
}

#[test]
fn begin_decode_unknown_role() {
    let bytes = vec![0, 9, 0, 0, 0, 0, 0, 0];
    assert_eq!(BeginRequest::decode(&bytes).unwrap_err(), FcgiError::UnknownRole);
    let bytes = vec![1, 1, 0, 0, 0, 0, 0, 0];
    assert_eq!(BeginRequest::decode(&bytes).unwrap_err(), FcgiError::UnknownRole);
}

#[test]
fn begin_decode_short_body() {
    let bytes = vec![0, 1, 0, 0, 0];
    assert_eq!(BeginRequest::decode(&bytes).unwrap_err(), FcgiError::UnexpectedEof);
}
