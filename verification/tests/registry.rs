use nym_ethtx::{Network, RegistryError};

#[test]
fn test_from_str_recognises_names() {
    assert_eq!(Network::from_str("mainnet"), Ok(Network::Mainnet));
    assert_eq!(Network::from_str("goerli"), Ok(Network::Goerli));
    assert_eq!(Network::from_str("development"), Ok(Network::Development));
}

#[test]
fn test_from_str_is_case_insensitive() {
    assert_eq!(Network::from_str("Mainnet"), Ok(Network::Mainnet));
    assert_eq!(Network::from_str("MAINNET"), Ok(Network::Mainnet));
    assert_eq!(Network::from_str("GoErLi"), Ok(Network::Goerli));
    assert_eq!(Network::from_str("DEVELOPMENT"), Ok(Network::Development));
}

#[test]
fn test_from_str_rejects_unknown_names() {
    assert_eq!(
        Network::from_str("ropsten"),
        Err(RegistryError::UnknownNetwork)
    );
    assert_eq!(Network::from_str(""), Err(RegistryError::UnknownNetwork));
    assert_eq!(
        Network::from_str("mainnet "),
        Err(RegistryError::UnknownNetwork)
    );
    assert_eq!(
        Network::from_str("main"),
        Err(RegistryError::UnknownNetwork)
    );
}

#[test]
fn test_wire_tags_are_exact() {
    assert_eq!(Network::Mainnet.wire_tag(), 1);
    assert_eq!(Network::Goerli.wire_tag(), 5);
    assert_eq!(Network::Development.wire_tag(), 255);
    assert_eq!(Network::Mainnet.to_vec(), vec![1]);
    assert_eq!(Network::Goerli.to_vec(), vec![5]);
    assert_eq!(Network::Development.to_vec(), vec![255]);
}

#[test]
fn test_wire_tag_round_trips_through_byte() {
    for network in [Network::Mainnet, Network::Goerli, Network::Development] {
        let tag = network.to_vec()[0];
        assert_eq!(Network::from(tag), network);
    }
}

#[test]
fn test_unknown_bytes_default_to_development() {
    for byte in [0u8, 2, 3, 4, 6, 7, 42, 100, 200, 254] {
        assert_eq!(Network::from(byte), Network::Development);
    }
    assert_eq!(Network::from(255), Network::Development);
}

#[test]
fn test_endpoints_are_exact() {
    assert_eq!(
        Network::Mainnet.get_endpoint(),
        "https://mainnet.infura.io/v3/c60b0bb42f8a4c6481ecd229eddaca27"
    );
    assert_eq!(
        Network::Goerli.get_endpoint(),
        "https://goerli.infura.io/v3/c60b0bb42f8a4c6481ecd229eddaca27"
    );
    assert_eq!(Network::Development.get_endpoint(), "http://localhost:8545");
}
