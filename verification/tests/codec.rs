//! Record and name-value codec behaviour on concrete values.

use fcgi_codec::errors::FcgiError;
use fcgi_codec::params::KeyValuePair;
use fcgi_codec::record::{Record, RecordType};

#[test]
fn record_round_trip_basic() {
    let content = vec![1u8, 2, 3];
    let rec = Record::record_from_data(RecordType::Stdout, 7, content.clone(), 5).unwrap();
    let bytes = rec.to_vec_u8();
    assert_eq!(bytes.len(), 8 + 3 + 5);

    let (back, next) = Record::parse(&bytes, 0).unwrap();
    assert_eq!(next, bytes.len());
    assert_eq!(back.header.version, 1);
    assert_eq!(back.header.type_code, 6);
    assert!(matches!(back.header.record_type(), RecordType::Stdout));
    assert_eq!(back.header.request_id(), 7);
    assert_eq!(back.header.content_length(), 3);
    assert_eq!(back.header.padding_length, 5);
    assert_eq!(back.content_data, content);
    assert_eq!(back.padding_data, vec![0u8; 5]);
    assert_eq!(back, rec);
}

#[test]
fn record_header_layout_exact() {
    let rec = Record::record_from_data(RecordType::BeginRequest, 0x0102, vec![0xAA; 3], 2).unwrap();
    let bytes = rec.to_vec_u8();
    assert_eq!(
        bytes,
        vec![1, 1, 0x01, 0x02, 0, 3, 2, 0, 0xAA, 0xAA, 0xAA, 0, 0]
    );
}

#[test]
fn record_request_id_split_big_endian() {
    let rec = Record::record_from_data(RecordType::Params, 0xABCD, Vec::new(), 0).unwrap();
    assert_eq!(rec.header.request_id_hi, 0xAB);
    assert_eq!(rec.header.request_id_lo, 0xCD);
    assert_eq!(rec.header.request_id(), 0xABCD);
}

#[test]
fn record_content_at_limit_is_accepted() {
    let rec = Record::record_from_data(RecordType::Stdin, 1, vec![9u8; 65535], 255).unwrap();
    let bytes = rec.to_vec_u8();
    assert_eq!(bytes.len(), 8 + 65535 + 255);
    assert_eq!(rec.header.content_length(), 65535);
}

#[test]
fn record_content_too_large() {
    let r = Record::record_from_data(RecordType::Stdin, 1, vec![0u8; 65536], 0);
    assert_eq!(r.unwrap_err(), FcgiError::ContentTooLarge);
}

#[test]
fn record_padding_too_large() {
    let r = Record::record_from_data(RecordType::Stdin, 1, Vec::new(), 256);
    assert_eq!(r.unwrap_err(), FcgiError::PaddingTooLarge);
}

#[test]
fn empty_record_is_bare_header() {
    let params_end = Record::record_from_data(RecordType::Params, 1, Vec::new(), 0).unwrap();
    assert_eq!(params_end.to_vec_u8(), vec![1, 4, 0, 1, 0, 0, 0, 0]);
    let stdin_end = Record::record_from_data(RecordType::Stdin, 1, Vec::new(), 0).unwrap();
    assert_eq!(stdin_end.to_vec_u8(), vec![1, 5, 0, 1, 0, 0, 0, 0]);
}

#[test]
fn parse_fails_on_short_header() {
    let r = Record::parse(&vec![1, 6, 0], 0);
    assert_eq!(r.unwrap_err(), FcgiError::UnexpectedEof);
}

#[test]
fn parse_fails_on_truncated_content() {
    // header declares 10 content bytes, only 4 follow
    let bytes = vec![1, 6, 0, 1, 0, 10, 0, 0, 0xDE, 0xAD, 0xBE, 0xEF];
    let r = Record::parse(&bytes, 0);
    assert_eq!(r.unwrap_err(), FcgiError::UnexpectedEof);
}

#[test]
fn parse_keeps_unknown_type_code() {
    let bytes = vec![1, 200, 0, 1, 0, 1, 0, 0, 0x42];
    let (rec, next) = Record::parse(&bytes, 0).unwrap();
    assert_eq!(next, 9);
    assert!(matches!(rec.header.record_type(), RecordType::UnknownType));
    assert_eq!(rec.header.type_code, 200);
    assert_eq!(rec.content_data, vec![0x42]);
}

#[test]
fn parse_at_offset() {
    let mut bytes = vec![0xFFu8; 3];
    bytes.extend_from_slice(&[1, 7, 0, 1, 0, 2, 1, 0, b'o', b'k', 0]);
    let (rec, next) = Record::parse(&bytes, 3).unwrap();
    assert_eq!(next, bytes.len());
    assert!(matches!(rec.header.record_type(), RecordType::Stderr));
    assert_eq!(rec.content_data, b"ok".to_vec());
    assert_eq!(rec.padding_data, vec![0]);
}

fn pair_round_trip(name_len: usize, value_len: usize) {
    let name = "n".repeat(name_len);
    let value = "v".repeat(value_len);
    let pair = KeyValuePair::new(name.clone(), value.clone());
    let bytes = pair.to_vec_u8().unwrap();
    let ((name_back, value_back), next) = KeyValuePair::decode(&bytes, 0).unwrap();
    assert_eq!(next, bytes.len());
    assert_eq!(name_back, name.as_bytes().to_vec());
    assert_eq!(value_back, value.as_bytes().to_vec());
}

#[test]
fn pair_round_trip_boundary_lengths() {
    for &n in &[0usize, 1, 126, 127, 128, 65535] {
        for &v in &[0usize, 1, 127, 128] {
            pair_round_trip(n, v);
        }
    }
    pair_round_trip(127, 65535);
    pair_round_trip(65535, 65535);
}

#[test]
fn pair_length_127_uses_one_byte_form() {
    let pair = KeyValuePair::new("a".repeat(127), String::new());
    let bytes = pair.to_vec_u8().unwrap();
    // one byte for each length prefix, then the name bytes
    assert_eq!(bytes.len(), 1 + 1 + 127);
    assert_eq!(bytes[0], 127);
    assert_eq!(bytes[0] & 0x80, 0);
    assert_eq!(bytes[1], 0);
}

#[test]
fn pair_length_128_uses_four_byte_form() {
    let pair = KeyValuePair::new("a".repeat(128), String::new());
    let bytes = pair.to_vec_u8().unwrap();
    assert_eq!(bytes.len(), 4 + 1 + 128);
    assert_eq!(&bytes[0..4], &[0x80, 0, 0, 128]);
    assert_eq!(bytes[4], 0);
}

#[test]
fn pair_value_prefix_follows_name_prefix() {
    let pair = KeyValuePair::new("k".to_string(), "b".repeat(300));
    let bytes = pair.to_vec_u8().unwrap();
    assert_eq!(bytes[0], 1);
    assert_eq!(&bytes[1..5], &[0x80, 0, 0x01, 0x2C]);
    assert_eq!(bytes[5], b'k');
    assert_eq!(bytes.len(), 1 + 4 + 1 + 300);
}

#[test]
fn pair_decode_rejects_truncation() {
    // name length 5 declared, only 3 bytes follow
    let bytes = vec![5, 0, b'a', b'b', b'c'];
    let r = KeyValuePair::decode(&bytes, 0);
    assert_eq!(r.unwrap_err(), FcgiError::TruncatedNameValue);

    // 4-byte prefix cut short
    let r = KeyValuePair::decode(&vec![0x80, 0, 0], 0);
    assert_eq!(r.unwrap_err(), FcgiError::TruncatedNameValue);

    // nothing at all
    let r = KeyValuePair::decode(&Vec::new(), 0);
    assert_eq!(r.unwrap_err(), FcgiError::TruncatedNameValue);
}

#[test]
fn pair_decode_top_bit_is_not_a_direct_length() {
    // first prefix byte 0x80 must start a 4-byte form, here declaring
    // length 1, followed by value length 0 and the single name byte
    let bytes = vec![0x80, 0, 0, 1, 0, b'x'];
    let ((name, value), next) = KeyValuePair::decode(&bytes, 0).unwrap();
    assert_eq!(name, vec![b'x']);
    assert_eq!(value, Vec::<u8>::new());
    assert_eq!(next, 6);
}

#[test]
fn pair_utf8_name_value_uses_byte_lengths() {
    let pair = KeyValuePair::new("héllo".to_string(), "wörld".to_string());
    let bytes = pair.to_vec_u8().unwrap();
    // "héllo" is 6 bytes, "wörld" is 6 bytes
    assert_eq!(bytes[0], 6);
    assert_eq!(bytes[1], 6);
    let ((name, value), _) = KeyValuePair::decode(&bytes, 0).unwrap();
    assert_eq!(name, "héllo".as_bytes().to_vec());
    assert_eq!(value, "wörld".as_bytes().to_vec());
}
