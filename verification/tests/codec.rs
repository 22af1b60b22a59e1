use nym_ethtx::codec::{encode_message_data, parse_message_data, CodecError};
use nym_ethtx::Network;

#[test]
fn test_encode_prepends_the_wire_tag() {
    assert_eq!(
        encode_message_data(&[0xaa, 0xbb], Network::Development),
        vec![255, 0xaa, 0xbb]
    );
    assert_eq!(
        encode_message_data(&[0x01], Network::Mainnet),
        vec![1, 0x01]
    );
    assert_eq!(
        encode_message_data(&[0x99, 0x98, 0x97], Network::Goerli),
        vec![5, 0x99, 0x98, 0x97]
    );
}

#[test]
fn test_codec_round_trip() {
    let transactions: Vec<Vec<u8>> = vec![
        vec![0x00],
        vec![0xde, 0xad, 0xbe, 0xef],
        (0..200u8).collect(),
    ];
    for network in [Network::Mainnet, Network::Goerli, Network::Development] {
        for tx in &transactions {
            let encoded = encode_message_data(tx, network);
            let (decoded_tx, decoded_network) = parse_message_data(&encoded).unwrap();
            assert_eq!(&decoded_tx, tx);
            assert_eq!(decoded_network, network);
        }
    }
}

#[test]
fn test_decode_empty_is_malformed() {
    assert_eq!(
        parse_message_data(&[]),
        Err(CodecError::MalformedPayload)
    );
}

#[test]
fn test_decode_tag_alone_is_malformed() {
    assert_eq!(
        parse_message_data(&[1]),
        Err(CodecError::MalformedPayload)
    );
    assert_eq!(
        parse_message_data(&[255]),
        Err(CodecError::MalformedPayload)
    );
}

#[test]
fn test_decode_unknown_tag_defaults_to_development() {
    let (tx, network) = parse_message_data(&[9, 0x42]).unwrap();
    assert_eq!(tx, vec![0x42]);
    assert_eq!(network, Network::Development);
}
