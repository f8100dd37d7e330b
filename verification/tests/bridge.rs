use xlm_ns::bridge::{build_forward_gmp_message, build_reverse_gmp_message, decode_target_version, BridgeContract, BridgeError};
use xlm_ns::registry::Address;

fn setup_initialized() -> (BridgeContract, Address) {
    let mut bridge = BridgeContract::new();
    let admin = Address(1);
    bridge.initialize(admin).unwrap();
    (bridge, admin)
}

fn add_default_chain(bridge: &mut BridgeContract, chain: &str, resolver: &str) {
    bridge.add_supported_chain(chain.as_bytes(), resolver.as_bytes()).unwrap();
}

fn register_default_chains(bridge: &mut BridgeContract) {
    add_default_chain(bridge, "base", "0xbaseResolver");
    add_default_chain(bridge, "ethereum", "0xethResolver");
    add_default_chain(bridge, "arbitrum", "0xarbResolver");
}

#[test]
fn stores_bridge_routes_in_contract_storage() {
    let (mut bridge, _) = setup_initialized();
    add_default_chain(&mut bridge, "base", "0xbaseResolver");
    bridge.register_chain(b"base").unwrap();
    let route = bridge.route(b"base").unwrap();
    let payload = bridge.build_message(b"timmy.xlm", b"base").unwrap();

    assert_eq!(route.destination_resolver, b"0xbaseResolver".to_vec());
    assert!(payload.contains("timmy.xlm"));
    assert!(bridge.route(b"base").is_some());
}

#[test]
fn build_message_exact_payload_base_chain() {
    let (mut bridge, _) = setup_initialized();
    add_default_chain(&mut bridge, "base", "0xbaseResolver");
    bridge.register_chain(b"base").unwrap();
    let payload = bridge.build_message(b"alice.xlm", b"base").unwrap();
    assert_eq!(
        payload,
        r#"{"type":"xlm-ns-resolution","name":"alice.xlm","destination_chain":"base","resolver":"0xbaseResolver"}"#
    );
}

#[test]
fn build_message_exact_payload_ethereum_chain() {
    let (mut bridge, _) = setup_initialized();
    add_default_chain(&mut bridge, "ethereum", "0xethResolver");
    bridge.register_chain(b"ethereum").unwrap();
    let payload = bridge.build_message(b"bob.xlm", b"ethereum").unwrap();
    assert_eq!(
        payload,
        r#"{"type":"xlm-ns-resolution","name":"bob.xlm","destination_chain":"ethereum","resolver":"0xethResolver"}"#
    );
}

#[test]
fn build_message_exact_payload_arbitrum_chain() {
    let (mut bridge, _) = setup_initialized();
    add_default_chain(&mut bridge, "arbitrum", "0xarbResolver");
    bridge.register_chain(b"arbitrum").unwrap();
    let payload = bridge.build_message(b"charlie.xlm", b"arbitrum").unwrap();
    assert_eq!(
        payload,
        r#"{"type":"xlm-ns-resolution","name":"charlie.xlm","destination_chain":"arbitrum","resolver":"0xarbResolver"}"#
    );
}

#[test]
fn build_message_payload_with_long_name() {
    let (mut bridge, _) = setup_initialized();
    add_default_chain(&mut bridge, "base", "0xbaseResolver");
    bridge.register_chain(b"base").unwrap();
    let payload = bridge.build_message(b"very-long-domain-name.xlm", b"base").unwrap();
    assert_eq!(
        payload,
        r#"{"type":"xlm-ns-resolution","name":"very-long-domain-name.xlm","destination_chain":"base","resolver":"0xbaseResolver"}"#
    );
}

#[test]
fn build_message_payload_special_characters() {
    let (mut bridge, _) = setup_initialized();
    add_default_chain(&mut bridge, "ethereum", "0xethResolver");
    bridge.register_chain(b"ethereum").unwrap();
    let payload = bridge.build_message(b"test-name.xlm", b"ethereum").unwrap();
    assert_eq!(
        payload,
        r#"{"type":"xlm-ns-resolution","name":"test-name.xlm","destination_chain":"ethereum","resolver":"0xethResolver"}"#
    );
}

#[test]
fn build_message_payload_version_locked() {
    let (mut bridge, _) = setup_initialized();
    add_default_chain(&mut bridge, "base", "0xbaseResolver");
    bridge.register_chain(b"base").unwrap();
    let payload = bridge.build_message(b"version.xlm", b"base").unwrap();
    assert!(payload.starts_with(r#"{"type":"xlm-ns-resolution""#));
    assert_eq!(
        payload,
        r#"{"type":"xlm-ns-resolution","name":"version.xlm","destination_chain":"base","resolver":"0xbaseResolver"}"#
    );
}

#[test]
fn build_message_fails_for_unregistered_chain() {
    let (bridge, _) = setup_initialized();
    assert_eq!(bridge.build_message(b"test.xlm", b"polygon"), Err(BridgeError::UnsupportedChain));
    assert_eq!(BridgeError::UnsupportedChain.code(), 2);
}

#[test]
fn build_message_fails_for_invalid_name() {
    let (mut bridge, _) = setup_initialized();
    add_default_chain(&mut bridge, "base", "0xbaseResolver");
    bridge.register_chain(b"base").unwrap();
    assert_eq!(bridge.build_message(b"invalid", b"base"), Err(BridgeError::Validation));
    assert_eq!(BridgeError::Validation.code(), 1);
}

#[test]
fn register_chain_rejects_unsupported_destination() {
    let (mut bridge, _) = setup_initialized();
    assert_eq!(bridge.register_chain(b"base"), Err(BridgeError::UnsupportedChain));
}

#[test]
fn version_is_exposed() {
    assert_eq!(BridgeContract::version(), 1);
}

#[test]
fn add_supported_chain_registers_chain_with_resolver() {
    let (mut bridge, _) = setup_initialized();
    bridge.add_supported_chain(b"base", b"0xbaseResolver").unwrap();
    let supported = bridge.supported_chain(b"base").unwrap();
    assert_eq!(supported.chain_id, b"base".to_vec());
    assert_eq!(supported.resolver_address, b"0xbaseResolver".to_vec());
}

#[test]
fn get_supported_chains_returns_registered_chains() {
    let (mut bridge, _) = setup_initialized();
    register_default_chains(&mut bridge);
    let chains = bridge.get_supported_chains();
    assert_eq!(chains.len(), 3);
}

#[test]
fn add_supported_chain_rejects_duplicate() {
    let (mut bridge, _) = setup_initialized();
    bridge.add_supported_chain(b"ethereum", b"0xethResolver").unwrap();
    assert_eq!(bridge.add_supported_chain(b"ethereum", b"0xethResolver"), Err(BridgeError::AlreadyExists));
}

#[test]
fn remove_supported_chain_deregisters_chain() {
    let (mut bridge, _) = setup_initialized();
    bridge.add_supported_chain(b"base", b"0xbaseResolver").unwrap();
    bridge.remove_supported_chain(b"base").unwrap();
    assert!(bridge.supported_chain(b"base").is_none());
    assert_eq!(bridge.get_supported_chains().len(), 0);
}

#[test]
fn remove_supported_chain_rejects_unknown_chain() {
    let (mut bridge, _) = setup_initialized();
    assert_eq!(bridge.remove_supported_chain(b"polygon"), Err(BridgeError::NotFound));
}

#[test]
fn remove_supported_chain_clears_cached_route() {
    let (mut bridge, _) = setup_initialized();
    add_default_chain(&mut bridge, "ethereum", "0xethResolver");
    bridge.register_chain(b"ethereum").unwrap();
    assert!(bridge.route(b"ethereum").is_some());
    bridge.remove_supported_chain(b"ethereum").unwrap();
    assert!(bridge.route(b"ethereum").is_none());
}

#[test]
fn register_chain_succeeds_for_supported_chain() {
    let (mut bridge, _) = setup_initialized();
    add_default_chain(&mut bridge, "arbitrum", "0xarbResolver");
    bridge.register_chain(b"arbitrum").unwrap();
    let route = bridge.route(b"arbitrum").unwrap();
    assert_eq!(route.destination_resolver, b"0xarbResolver".to_vec());
}

#[test]
fn add_supported_chain_rejects_empty_resolver() {
    let (mut bridge, _) = setup_initialized();
    assert_eq!(bridge.add_supported_chain(b"base", b""), Err(BridgeError::Validation));
}

#[test]
fn uninitialized_bridge_refuses_admin_actions() {
    let mut bridge = BridgeContract::new();
    assert_eq!(bridge.add_supported_chain(b"base", b"r"), Err(BridgeError::Validation));
    assert_eq!(bridge.upgrade(&[0u8; 32], &[0, 0, 0, 5]), Err(BridgeError::UpgradeFailed));
    assert_eq!(bridge.get_version(), 1);
    bridge.initialize(Address(3)).unwrap();
    assert_eq!(bridge.initialize(Address(4)), Err(BridgeError::Validation));
}

#[test]
fn upgrade_reads_the_target_version() {
    let (mut bridge, _) = setup_initialized();
    assert_eq!(decode_target_version(&[0, 0, 1, 2]), 258);
    assert_eq!(decode_target_version(&[7]), 2);
    bridge.upgrade(&[1u8; 32], &[0, 0, 0, 9]).unwrap();
    assert_eq!(bridge.get_version(), 9);
}

#[test]
fn supported_chains_keep_insertion_order_after_removal() {
    let (mut bridge, _) = setup_initialized();
    register_default_chains(&mut bridge);
    bridge.remove_supported_chain(b"ethereum").unwrap();
    let ids: Vec<Vec<u8>> = bridge.get_supported_chains().into_iter().map(|c| c.chain_id).collect();
    assert_eq!(ids, vec![b"base".to_vec(), b"arbitrum".to_vec()]);
}

#[test]
fn reverse_message_is_exact() {
    let (mut bridge, _) = setup_initialized();
    add_default_chain(&mut bridge, "base", "0xbaseResolver");
    bridge.register_chain(b"base").unwrap();
    let payload = bridge.build_reverse_message(b"GABC", b"alice.xlm", b"base").unwrap();
    assert_eq!(
        payload,
        r#"{"type":"xlm-ns-reverse-resolution","address":"GABC","primary_name":"alice.xlm","destination_chain":"base","resolver":"0xbaseResolver"}"#
    );
    assert_eq!(bridge.build_reverse_message(b"", b"alice.xlm", b"base"), Err(BridgeError::Validation));
    assert_eq!(build_forward_gmp_message(&[0xff], b"c", b"r"), r#"{"type":"xlm-ns-resolution","name":"","destination_chain":"c","resolver":"r"}"#);
    assert!(build_reverse_gmp_message(b"a", b"b", b"c", b"d").contains("\"address\":\"a\""));
}
