use xlm_ns::bridge::{BridgeContract, BridgeError};
use xlm_ns::registry::Address;

fn setup_env() -> BridgeContract {
    let mut bridge = BridgeContract::new();
    bridge.initialize(Address(10)).unwrap();
    bridge
}

#[test]
fn test_route_registration_and_message_generation() {
    let mut bridge = setup_env();
    bridge.add_supported_chain(b"ethereum", b"0xethResolver").unwrap();
    bridge.register_chain(b"ethereum").unwrap();
    let payload = bridge.build_message(b"alice.xlm", b"ethereum").unwrap();
    assert_eq!(
        payload,
        r#"{"type":"xlm-ns-resolution","name":"alice.xlm","destination_chain":"ethereum","resolver":"0xethResolver"}"#
    );
}

#[test]
fn test_invalid_chain_registration_rejected() {
    let mut bridge = setup_env();
    assert_eq!(bridge.register_chain(b"solana"), Err(BridgeError::UnsupportedChain));
}

#[test]
fn test_malformed_route_data_rejected() {
    let mut bridge = setup_env();
    bridge.add_supported_chain(b"base", b"0xbaseResolver").unwrap();
    bridge.register_chain(b"base").unwrap();
    assert_eq!(bridge.build_message(b"malformed-name", b"base"), Err(BridgeError::Validation));
}

#[test]
fn test_supported_chain_management() {
    let mut bridge = setup_env();
    bridge.add_supported_chain(b"base", b"0xbaseResolver").unwrap();
    bridge.add_supported_chain(b"ethereum", b"0xethResolver").unwrap();
    assert_eq!(bridge.get_supported_chains().len(), 2);
    bridge.remove_supported_chain(b"base").unwrap();
    assert_eq!(bridge.get_supported_chains().len(), 1);
}
