use nym_ethtx::codec::encode_message_data;
use nym_ethtx::envelope::{serialize_response, ParseError, ServerResponse};
use nym_ethtx::server::{
    dispatch_frame, dispatch_frames, finish_submission, parse_nym_message, DropReason,
    ServerAction, SubmitError, TransportFrame,
};
use nym_ethtx::Network;

fn received_frame(payload: Vec<u8>) -> TransportFrame {
    TransportFrame::Binary(serialize_response(&ServerResponse::Received {
        message: payload,
        reply_surb: None,
    }))
}

#[test]
fn test_dispatch_received_submits_to_decoded_network() {
    let payload = encode_message_data(&[0xde, 0xad], Network::Goerli);
    let action = dispatch_frame(&received_frame(payload));
    assert_eq!(
        action,
        ServerAction::Submit {
            transaction: vec![0xde, 0xad],
            network: Network::Goerli,
        }
    );
}

#[test]
fn test_dispatch_self_address_announces() {
    let frame = TransportFrame::Binary(serialize_response(&ServerResponse::SelfAddress {
        address: b"relay-address".to_vec(),
    }));
    assert_eq!(
        dispatch_frame(&frame),
        ServerAction::AnnounceAddress {
            address: b"relay-address".to_vec(),
        }
    );
}

#[test]
fn test_dispatch_peer_error_reports() {
    let frame = TransportFrame::Binary(serialize_response(&ServerResponse::Error {
        message: b"no route".to_vec(),
    }));
    assert_eq!(
        dispatch_frame(&frame),
        ServerAction::ReportError {
            message: b"no route".to_vec(),
        }
    );
}

#[test]
fn test_dispatch_unparseable_frame_is_dropped() {
    let frame = TransportFrame::Binary(vec![77, 1, 2]);
    assert_eq!(
        dispatch_frame(&frame),
        ServerAction::Drop {
            reason: DropReason::MalformedEnvelope,
        }
    );
}

#[test]
fn test_dispatch_unsupported_frame_kind_is_dropped() {
    assert_eq!(
        dispatch_frame(&TransportFrame::Other),
        ServerAction::Drop {
            reason: DropReason::UnsupportedFrame,
        }
    );
}

#[test]
fn test_dispatch_short_payload_is_dropped() {
    // a received envelope whose relay payload is a tag byte with no
    // transaction behind it
    let action = dispatch_frame(&received_frame(vec![255]));
    assert_eq!(
        action,
        ServerAction::Drop {
            reason: DropReason::MalformedPayload,
        }
    );
}

#[test]
fn test_dispatch_text_frame_carries_the_same_envelope() {
    let bytes = serialize_response(&ServerResponse::Error {
        message: b"bad".to_vec(),
    });
    let text = String::from_utf8(bytes).unwrap();
    assert_eq!(
        dispatch_frame(&TransportFrame::Text(text)),
        ServerAction::ReportError {
            message: b"bad".to_vec(),
        }
    );
}

#[test]
fn test_malformed_frame_does_not_block_later_frames() {
    let first = received_frame(encode_message_data(&[0x11], Network::Mainnet));
    let second = TransportFrame::Binary(vec![9, 9, 9]);
    let third = received_frame(encode_message_data(&[0x33], Network::Development));
    let actions = dispatch_frames(&vec![first, second, third]);
    assert_eq!(actions.len(), 3);
    assert_eq!(
        actions[0],
        ServerAction::Submit {
            transaction: vec![0x11],
            network: Network::Mainnet,
        }
    );
    assert_eq!(
        actions[1],
        ServerAction::Drop {
            reason: DropReason::MalformedEnvelope,
        }
    );
    assert_eq!(
        actions[2],
        ServerAction::Submit {
            transaction: vec![0x33],
            network: Network::Development,
        }
    );
}

#[test]
fn test_parse_nym_message_reads_binary_and_text_alike() {
    let bytes = serialize_response(&ServerResponse::Error {
        message: b"late".to_vec(),
    });
    let as_text = TransportFrame::Text(String::from_utf8(bytes.clone()).unwrap());
    let as_binary = TransportFrame::Binary(bytes);
    assert_eq!(
        parse_nym_message(&as_text),
        parse_nym_message(&as_binary)
    );
}

#[test]
fn test_parse_nym_message_error_kinds() {
    assert_eq!(
        parse_nym_message(&TransportFrame::Other),
        Err(ParseError::UnsupportedFrame)
    );
    assert_eq!(
        parse_nym_message(&TransportFrame::Binary(vec![])),
        Err(ParseError::MalformedEnvelope)
    );
}

#[test]
fn test_finish_submission_returns_the_receipt() {
    let outcome: Result<Option<u32>, &str> = Ok(Some(5));
    assert_eq!(finish_submission(outcome), Ok(5u32));
}

#[test]
fn test_finish_submission_missing_receipt_is_its_own_error() {
    let outcome: Result<Option<u32>, &str> = Ok(None);
    assert_eq!(finish_submission(outcome), Err(SubmitError::NoReceipt));
}

#[test]
fn test_finish_submission_rpc_failure_keeps_its_cause() {
    let outcome: Result<Option<u32>, &str> = Err("node rejected the transaction");
    assert_eq!(
        finish_submission(outcome),
        Err(SubmitError::Submission("node rejected the transaction"))
    );
}
