//! The response reader: routing, termination, truncation and anomalies.

use fcgi_codec::errors::FcgiError;
use fcgi_codec::record::{Record, RecordType};
use fcgi_codec::response::{read_response, ProtocolStatus, ResponseReader};

fn record_bytes(t: RecordType, request_id: u16, content: &[u8], padding: usize) -> Vec<u8> {
    Record::record_from_data(t, request_id, content.to_vec(), padding)
        .unwrap()
        .to_vec_u8()
}

fn end_request_content(app_status: u32, protocol_status: u8) -> Vec<u8> {
    let b = app_status.to_be_bytes();
    vec![b[0], b[1], b[2], b[3], protocol_status, 0, 0, 0]
}

#[test]
fn stdout_records_accumulate_until_end_request() {
    let mut stream = record_bytes(RecordType::Stdout, 1, b"Hello", 0);
    stream.extend(record_bytes(RecordType::Stdout, 1, b" World", 0));
    stream.extend(record_bytes(
        RecordType::EndRequest,
        1,
        &end_request_content(0, 1),
        0,
    ));

    let (resp, err) = read_response(&stream);
    assert_eq!(err, None);
    assert_eq!(resp.stdout, b"Hello World".to_vec());
    assert_eq!(resp.stderr, Vec::<u8>::new());
    assert_eq!(resp.app_status, 0);
    assert_eq!(resp.protocol_status, 1);
    assert!(resp.complete);
    assert_eq!(resp.protocol_status_kind(), Some(ProtocolStatus::RequestComplete));
}

#[test]
fn truncated_content_keeps_partial_bytes() {
    // header declares 10 content bytes, the stream delivers 4 and closes
    let mut stream = vec![1, 6, 0, 1, 0, 10, 0, 0];
    stream.extend_from_slice(b"plop");

    let (resp, err) = read_response(&stream);
    assert_eq!(err, Some(FcgiError::UnexpectedEof));
    assert_eq!(resp.stdout, b"plop".to_vec());
    assert!(!resp.complete);
}

#[test]
fn data_record_stops_reading_softly() {
    let mut stream = record_bytes(RecordType::Stdout, 1, b"Hi", 0);
    stream.extend(record_bytes(RecordType::Data, 1, b"nope", 0));
    stream.extend(record_bytes(
        RecordType::EndRequest,
        1,
        &end_request_content(0, 1),
        0,
    ));

    let (resp, err) = read_response(&stream);
    assert_eq!(err, Some(FcgiError::UnexpectedRecordType(8)));
    assert_eq!(resp.stdout, b"Hi".to_vec());
    assert_eq!(resp.stderr, Vec::<u8>::new());
    assert!(!resp.complete);
}

#[test]
fn stderr_routed_separately() {
    let mut stream = record_bytes(RecordType::Stderr, 1, b"warning", 0);
    stream.extend(record_bytes(RecordType::Stdout, 1, b"body", 0));
    stream.extend(record_bytes(
        RecordType::EndRequest,
        1,
        &end_request_content(0, 1),
        0,
    ));

    let (resp, err) = read_response(&stream);
    assert_eq!(err, None);
    assert_eq!(resp.stdout, b"body".to_vec());
    assert_eq!(resp.stderr, b"warning".to_vec());
}

#[test]
fn padding_is_read_and_discarded() {
    let mut stream = record_bytes(RecordType::Stdout, 1, b"padded", 7);
    stream.extend(record_bytes(
        RecordType::EndRequest,
        1,
        &end_request_content(0, 1),
        0,
    ));

    let (resp, err) = read_response(&stream);
    assert_eq!(err, None);
    assert_eq!(resp.stdout, b"padded".to_vec());
    assert!(resp.complete);
}

#[test]
fn app_status_read_big_endian() {
    let stream = record_bytes(
        RecordType::EndRequest,
        1,
        &end_request_content(0x0102_0304, 3),
        0,
    );
    let (resp, err) = read_response(&stream);
    assert_eq!(err, None);
    assert_eq!(resp.app_status, 0x0102_0304);
    assert_eq!(resp.protocol_status, 3);
    assert_eq!(resp.protocol_status_kind(), Some(ProtocolStatus::Overloaded));
    assert!(resp.complete);
}

#[test]
fn protocol_status_codes() {
    for (code, expected) in [
        (1u8, Some(ProtocolStatus::RequestComplete)),
        (2, Some(ProtocolStatus::CantMultiplexConnection)),
        (3, Some(ProtocolStatus::Overloaded)),
        (4, Some(ProtocolStatus::UnknownRole)),
        (9, None),
    ] {
        let stream = record_bytes(RecordType::EndRequest, 1, &end_request_content(0, code), 0);
        let (resp, _) = read_response(&stream);
        assert_eq!(resp.protocol_status_kind(), expected);
    }
}

#[test]
fn empty_stream_is_eof() {
    let (resp, err) = read_response(&Vec::new());
    assert_eq!(err, Some(FcgiError::UnexpectedEof));
    assert!(resp.stdout.is_empty());
    assert!(resp.stderr.is_empty());
    assert!(!resp.complete);
}

#[test]
fn stream_ending_between_records_is_eof() {
    let stream = record_bytes(RecordType::Stdout, 1, b"half", 0);
    let (resp, err) = read_response(&stream);
    assert_eq!(err, Some(FcgiError::UnexpectedEof));
    assert_eq!(resp.stdout, b"half".to_vec());
}

#[test]
fn truncated_end_request_body_is_eof() {
    // an end-request record whose header declares only 4 content bytes
    let stream = record_bytes(RecordType::EndRequest, 1, &[0, 0, 0, 0], 0);
    let (resp, err) = read_response(&stream);
    assert_eq!(err, Some(FcgiError::UnexpectedEof));
    assert!(!resp.complete);
}

#[test]
fn incremental_reader_matches_buffered_reading() {
    let mut stream = record_bytes(RecordType::Stdout, 1, b"step by step", 3);
    stream.extend(record_bytes(
        RecordType::EndRequest,
        1,
        &end_request_content(7, 1),
        0,
    ));

    // drive the machine the way a transport loop would
    let mut reader = ResponseReader::new();
    let mut offset = 0;
    while !reader.is_finished() {
        let n = reader.wants();
        let take = n.min(stream.len() - offset);
        let chunk = stream[offset..offset + take].to_vec();
        reader.feed(&chunk);
        offset += take;
    }
    assert_eq!(reader.response.stdout, b"step by step".to_vec());
    assert_eq!(reader.response.app_status, 7);
    assert!(reader.response.complete);

    let (resp, err) = read_response(&stream);
    assert_eq!(err, None);
    assert_eq!(resp, reader.response);
}
