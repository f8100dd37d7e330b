use xlm_ns::registry::{Address, RegistryContract, RegistryError};

const DEFAULT_TTL: u64 = 365 * 24 * 3600;
const DEFAULT_GRACE_PERIOD: u64 = 30 * 24 * 3600;
const LEDGER_NOW: u64 = 0;

fn register_domain(registry: &mut RegistryContract, name: &str, owner: Address) -> u64 {
    let now = LEDGER_NOW;
    registry
        .register(name.as_bytes(), owner, None, None, now, now + DEFAULT_TTL, now + DEFAULT_TTL + DEFAULT_GRACE_PERIOD)
        .unwrap();
    now
}

#[test]
fn test_register_fails_if_already_registered() {
    let mut registry = RegistryContract::new();
    let owner = Address(1);
    let now = register_domain(&mut registry, "test.xlm", owner);
    let res = registry.register(b"test.xlm", owner, None, None, now, now + DEFAULT_TTL, now + DEFAULT_TTL + DEFAULT_GRACE_PERIOD);
    assert_eq!(res, Err(RegistryError::AlreadyRegistered));
}

#[test]
fn test_transfer_fails_if_not_found() {
    let mut registry = RegistryContract::new();
    let res = registry.transfer(b"nonexistent.xlm", Address(1), Address(2), LEDGER_NOW);
    assert_eq!(res, Err(RegistryError::NotFound));
}

#[test]
fn test_transfer_fails_if_in_grace_period() {
    let mut registry = RegistryContract::new();
    let owner = Address(1);
    let now = register_domain(&mut registry, "test.xlm", owner);
    let future_time = now + DEFAULT_TTL + 1;
    let res = registry.transfer(b"test.xlm", owner, Address(2), future_time);
    assert_eq!(res, Err(RegistryError::NotActive));
}

#[test]
fn test_transfer_fails_if_unauthorized() {
    let mut registry = RegistryContract::new();
    register_domain(&mut registry, "test.xlm", Address(1));
    let res = registry.transfer(b"test.xlm", Address(9), Address(2), LEDGER_NOW);
    assert_eq!(res, Err(RegistryError::Unauthorized));
}

#[test]
fn test_register_fails_if_metadata_too_long() {
    let mut registry = RegistryContract::new();
    let now = LEDGER_NOW;
    let long_metadata = "a".repeat(1025);
    let res = registry.register(
        b"test2.xlm",
        Address(1),
        None,
        Some(long_metadata.into_bytes()),
        now,
        now + DEFAULT_TTL,
        now + DEFAULT_TTL + DEFAULT_GRACE_PERIOD,
    );
    assert_eq!(res, Err(RegistryError::MetadataTooLong));
}
