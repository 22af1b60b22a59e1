use nym_ethtx::envelope::{
    parse_response, serialize_request, serialize_response, ClientRequest, ParseError,
    ServerResponse,
};

#[test]
fn test_serialize_self_address_request_is_one_byte() {
    assert_eq!(serialize_request(&ClientRequest::SelfAddress), vec![1]);
}

#[test]
fn test_serialize_send_exact_bytes() {
    let request = ClientRequest::Send {
        recipient: vec![7, 8],
        message: vec![9],
        with_reply_surb: false,
    };
    let expected = vec![
        0, // send tag
        0, // no reply surb requested
        2, 0, 0, 0, 0, 0, 0, 0, // recipient length, little-endian
        7, 8, // recipient
        1, 0, 0, 0, 0, 0, 0, 0, // message length, little-endian
        9, // message
    ];
    assert_eq!(serialize_request(&request), expected);
}

#[test]
fn test_serialize_send_with_reply_surb_flag() {
    let request = ClientRequest::Send {
        recipient: vec![7],
        message: vec![9],
        with_reply_surb: true,
    };
    assert_eq!(serialize_request(&request)[1], 1);
}

#[test]
fn test_response_round_trip_received_without_surb() {
    let response = ServerResponse::Received {
        message: vec![255, 0xde, 0xad],
        reply_surb: None,
    };
    let bytes = serialize_response(&response);
    assert_eq!(parse_response(&bytes), Ok(response));
}

#[test]
fn test_response_round_trip_received_with_surb() {
    let response = ServerResponse::Received {
        message: vec![1, 2, 3],
        reply_surb: Some(vec![9, 9, 9, 9]),
    };
    let bytes = serialize_response(&response);
    assert_eq!(parse_response(&bytes), Ok(response));
}

#[test]
fn test_response_round_trip_self_address() {
    let response = ServerResponse::SelfAddress {
        address: b"relay-address".to_vec(),
    };
    let bytes = serialize_response(&response);
    assert_eq!(parse_response(&bytes), Ok(response));
}

#[test]
fn test_response_round_trip_error() {
    let response = ServerResponse::Error {
        message: b"gateway unreachable".to_vec(),
    };
    let bytes = serialize_response(&response);
    assert_eq!(parse_response(&bytes), Ok(response));
}

#[test]
fn test_parse_empty_frame_is_malformed() {
    assert_eq!(parse_response(&[]), Err(ParseError::MalformedEnvelope));
}

#[test]
fn test_parse_unknown_kind_is_malformed() {
    assert_eq!(parse_response(&[77]), Err(ParseError::MalformedEnvelope));
}

#[test]
fn test_parse_truncated_block_is_malformed() {
    // error frame that claims three content bytes but carries two
    let bytes = vec![2, 3, 0, 0, 0, 0, 0, 0, 0, 65, 66];
    assert_eq!(parse_response(&bytes), Err(ParseError::MalformedEnvelope));
    // length prefix itself cut short
    assert_eq!(
        parse_response(&[2, 3, 0]),
        Err(ParseError::MalformedEnvelope)
    );
}

#[test]
fn test_parse_trailing_bytes_are_malformed() {
    let mut bytes = serialize_response(&ServerResponse::Error {
        message: vec![65],
    });
    bytes.push(0);
    assert_eq!(parse_response(&bytes), Err(ParseError::MalformedEnvelope));
}

#[test]
fn test_parse_bad_surb_flag_is_malformed() {
    let bytes = vec![0, 9, 1, 0, 0, 0, 0, 0, 0, 0, 5];
    assert_eq!(parse_response(&bytes), Err(ParseError::MalformedEnvelope));
}
