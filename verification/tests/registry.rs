use xlm_ns::registry::{Address, NameState, RegistryContract, RegistryError};

struct TimeHelper {
    now: u64,
}

impl TimeHelper {
    fn new() -> Self {
        Self { now: 100_000 }
    }
    fn future(&self, seconds: u64) -> u64 {
        self.now + seconds
    }
    fn past(&self, seconds: u64) -> u64 {
        self.now.saturating_sub(seconds)
    }
}

fn register(reg: &mut RegistryContract, name: &str, owner: Address, now: u64, expires_at: u64, grace: u64) -> Result<(), RegistryError> {
    reg.register(name.as_bytes(), owner, None, None, now, expires_at, grace)
}

#[test]
fn stores_registry_entries_in_persistent_storage() {
    let mut reg = RegistryContract::new();
    let owner = Address(1);
    let next_owner = Address(2);
    let time = TimeHelper::new();
    let expires_at = time.future(1_000);
    let grace_period_ends_at = time.future(2_000);

    reg.register(b"timmy.xlm", owner, Some(b"GABC".to_vec()), None, time.now, expires_at, grace_period_ends_at).unwrap();

    let transfer_time = time.future(10);
    reg.transfer(b"timmy.xlm", owner, next_owner, transfer_time).unwrap();

    let resolved = reg.resolve(b"timmy.xlm", transfer_time).unwrap();
    assert_eq!(resolved.owner, next_owner);
    assert_eq!(reg.names_for_owner(next_owner).len(), 1);
}

#[test]
fn name_state_distinguishes_lifecycle_phases() {
    let mut reg = RegistryContract::new();
    let owner = Address(1);
    let time = TimeHelper::new();
    let expires_at = time.future(1_000);
    let grace_period_ends_at = time.future(2_000);

    assert_eq!(reg.name_state(b"phase.xlm", time.now), NameState::Missing);
    register(&mut reg, "phase.xlm", owner, time.now, expires_at, grace_period_ends_at).unwrap();

    assert_eq!(reg.name_state(b"phase.xlm", time.future(500)), NameState::Active);
    assert_eq!(reg.name_state(b"phase.xlm", expires_at), NameState::Active);
    assert_eq!(reg.name_state(b"phase.xlm", time.future(1_500)), NameState::GracePeriod);
    assert_eq!(reg.name_state(b"phase.xlm", grace_period_ends_at), NameState::GracePeriod);
    assert_eq!(reg.name_state(b"phase.xlm", grace_period_ends_at + 1), NameState::Claimable);
}

#[test]
fn rejects_registration_with_expiry_before_now() {
    let mut reg = RegistryContract::new();
    let time = TimeHelper::new();
    let result = register(&mut reg, "timmy.xlm", Address(1), time.now, time.past(1), time.future(100));
    assert_eq!(result, Err(RegistryError::InvalidExpiry));
}

#[test]
fn rejects_registration_with_grace_period_before_expiry() {
    let mut reg = RegistryContract::new();
    let time = TimeHelper::new();
    let expires_at = time.future(100);
    let result = register(&mut reg, "timmy.xlm", Address(1), time.now, expires_at, time.future(99));
    assert_eq!(result, Err(RegistryError::InvalidGracePeriod));
}

#[test]
fn rejects_renewal_with_malformed_lifecycle_timestamps() {
    let mut reg = RegistryContract::new();
    let owner = Address(1);
    let time = TimeHelper::new();
    let expires_at = time.future(100);
    let grace_ends_at = time.future(200);
    register(&mut reg, "timmy.xlm", owner, time.now, expires_at, grace_ends_at).unwrap();

    let invalid_expiry = reg.renew(b"timmy.xlm", owner, time.past(1), grace_ends_at, time.now);
    assert_eq!(invalid_expiry, Err(RegistryError::InvalidExpiry));

    let invalid_grace_period = reg.renew(b"timmy.xlm", owner, time.future(150), time.future(149), time.now);
    assert_eq!(invalid_grace_period, Err(RegistryError::InvalidGracePeriod));
}

#[test]
fn rejects_renewal_that_reduces_expiry_or_grace_period() {
    let mut reg = RegistryContract::new();
    let owner = Address(1);
    let time = TimeHelper::new();
    let expires_at = time.future(100);
    let grace_ends_at = time.future(200);
    register(&mut reg, "timmy.xlm", owner, time.now, expires_at, grace_ends_at).unwrap();

    let reduced_expiry = reg.renew(b"timmy.xlm", owner, time.future(50), grace_ends_at, time.now);
    assert_eq!(reduced_expiry, Err(RegistryError::InvalidExpiry));

    let reduced_grace = reg.renew(b"timmy.xlm", owner, expires_at, time.future(150), time.now);
    assert_eq!(reduced_grace, Err(RegistryError::InvalidGracePeriod));

    let new_expires_at = time.future(200);
    let new_grace_ends_at = time.future(300);
    reg.renew(b"timmy.xlm", owner, new_expires_at, new_grace_ends_at, time.now).unwrap();
    let entry = reg.resolve(b"timmy.xlm", time.now).unwrap();
    assert_eq!(entry.expires_at, new_expires_at);
    assert_eq!(entry.grace_period_ends_at, new_grace_ends_at);
}

#[test]
fn threat_actor_cannot_transfer_unowned_name() {
    let mut reg = RegistryContract::new();
    let (owner, attacker, next_owner) = (Address(1), Address(2), Address(3));
    let time = TimeHelper::new();
    register(&mut reg, "timmy.xlm", owner, time.now, time.future(1_000), time.future(2_000)).unwrap();
    let result = reg.transfer(b"timmy.xlm", attacker, next_owner, time.future(10));
    assert_eq!(result, Err(RegistryError::Unauthorized));
}

#[test]
fn threat_actor_cannot_set_resolver_for_unowned_name() {
    let mut reg = RegistryContract::new();
    let (owner, attacker) = (Address(1), Address(2));
    let time = TimeHelper::new();
    register(&mut reg, "timmy.xlm", owner, time.now, time.future(1_000), time.future(2_000)).unwrap();
    let result = reg.set_resolver(b"timmy.xlm", attacker, Some(b"resolver_address".to_vec()), time.future(10));
    assert_eq!(result, Err(RegistryError::Unauthorized));
}

#[test]
fn threat_actor_cannot_set_target_address_for_unowned_name() {
    let mut reg = RegistryContract::new();
    let (owner, attacker) = (Address(1), Address(2));
    let time = TimeHelper::new();
    register(&mut reg, "timmy.xlm", owner, time.now, time.future(1_000), time.future(2_000)).unwrap();
    let result = reg.set_target_address(b"timmy.xlm", attacker, Some(b"target_address".to_vec()), time.future(10));
    assert_eq!(result, Err(RegistryError::Unauthorized));
}

#[test]
fn threat_actor_cannot_set_metadata_for_unowned_name() {
    let mut reg = RegistryContract::new();
    let (owner, attacker) = (Address(1), Address(2));
    let time = TimeHelper::new();
    register(&mut reg, "timmy.xlm", owner, time.now, time.future(1_000), time.future(2_000)).unwrap();
    let result = reg.set_metadata(b"timmy.xlm", attacker, Some(b"ipfs://hash".to_vec()), time.future(10));
    assert_eq!(result, Err(RegistryError::Unauthorized));
}

#[test]
fn threat_actor_cannot_renew_unowned_name() {
    let mut reg = RegistryContract::new();
    let (owner, attacker) = (Address(1), Address(2));
    let time = TimeHelper::new();
    register(&mut reg, "timmy.xlm", owner, time.now, time.future(1_000), time.future(2_000)).unwrap();
    let result = reg.renew(b"timmy.xlm", attacker, time.future(1500), time.future(2500), time.future(10));
    assert_eq!(result, Err(RegistryError::Unauthorized));
}

#[test]
fn declares_that_admin_recovery_is_not_supported() {
    let reg = RegistryContract::new();
    assert!(!reg.supports_admin_recovery());
}

#[test]
fn burn_and_audit_keep_the_owner_index_clean() {
    let mut reg = RegistryContract::new();
    let owner = Address(1);
    let time = TimeHelper::new();
    register(&mut reg, "timmy.xlm", owner, time.now, time.future(10), time.future(20)).unwrap();
    assert_eq!(reg.burn(b"timmy.xlm", Address(2), time.now), Err(RegistryError::Unauthorized));
    assert!(reg.audit_owner_index(owner).is_empty());
    reg.burn(b"timmy.xlm", owner, time.now).unwrap();
    assert_eq!(reg.names_for_owner(owner).len(), 0);
    assert_eq!(reg.resolve(b"timmy.xlm", time.future(21)), Err(RegistryError::NotFound));
    assert_eq!(RegistryError::NotYetClaimable.code(), 3);
    assert_eq!(reg.storage_schema_version(), 1);
}

#[test]
fn anyone_may_burn_a_claimable_name() {
    let mut reg = RegistryContract::new();
    let owner = Address(1);
    let time = TimeHelper::new();
    register(&mut reg, "timmy.xlm", owner, time.now, time.future(10), time.future(20)).unwrap();
    assert_eq!(reg.burn(b"timmy.xlm", Address(2), time.future(15)), Err(RegistryError::Unauthorized));
    reg.burn(b"timmy.xlm", Address(2), time.future(21)).unwrap();
    assert_eq!(reg.names_for_owner(owner).len(), 0);
    assert_eq!(reg.burn(b"timmy.xlm", owner, time.future(21)), Err(RegistryError::NotFound));
}
