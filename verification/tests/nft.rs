use xlm_ns::nft::{NameRecord, NftContract, NftError};
use xlm_ns::registry::{Address, RegistryContract, RegistryEntry};

fn contract() -> NftContract {
    let mut nft = NftContract::new();
    nft.initialize(Address(1000)).unwrap();
    nft
}

fn mint(nft: &mut NftContract, id: &str, owner: Address, uri: Option<&str>) -> Result<(), NftError> {
    nft.mint(id.as_bytes(), owner, uri.map(|u| u.as_bytes().to_vec()), 0, None)
}

fn id(s: &str) -> Option<Vec<u8>> {
    Some(s.as_bytes().to_vec())
}

#[test]
fn stores_metadata_and_query_methods_after_mint() {
    let mut nft = contract();
    let owner = Address(1);
    mint(&mut nft, "timmy.xlm", owner, Some("ipfs://timmy")).unwrap();

    assert_eq!(nft.owner_of(b"timmy.xlm"), Some(owner));
    assert_eq!(nft.total_supply(), 1);
    assert_eq!(nft.balance_of(owner), 1);
    assert_eq!(nft.token_by_index(0), id("timmy.xlm"));
    assert_eq!(nft.token_of_owner_by_index(owner, 0), id("timmy.xlm"));
    assert_eq!(nft.token_uri(b"timmy.xlm"), id("ipfs://timmy"));

    let token = nft.token(b"timmy.xlm").unwrap();
    assert_eq!(token.owner, owner);
    assert_eq!(token.approved, None);
    assert_eq!(token.metadata_uri, id("ipfs://timmy"));
}

#[test]
fn rejects_duplicate_mint_for_existing_token_id() {
    let mut nft = contract();
    let owner = Address(1);
    let other_owner = Address(2);
    mint(&mut nft, "timmy.xlm", owner, None).unwrap();

    let duplicate_mint = mint(&mut nft, "timmy.xlm", other_owner, Some("ipfs://other"));
    assert_eq!(duplicate_mint, Err(NftError::AlreadyMinted));
    let token = nft.token(b"timmy.xlm").unwrap();
    assert_eq!(token.owner, owner);
    assert_eq!(token.metadata_uri, None);
}

#[test]
fn stores_approval_and_allows_approved_transfer() {
    let mut nft = contract();
    let (owner, approved, new_owner) = (Address(1), Address(2), Address(3));
    mint(&mut nft, "timmy.xlm", owner, Some("ipfs://timmy")).unwrap();
    nft.approve(b"timmy.xlm", owner, approved).unwrap();

    let approved_token = nft.token(b"timmy.xlm").unwrap();
    assert_eq!(approved_token.owner, owner);
    assert_eq!(approved_token.approved, Some(approved));

    nft.transfer(b"timmy.xlm", approved, new_owner).unwrap();
    assert_eq!(nft.owner_of(b"timmy.xlm"), Some(new_owner));

    let transferred_token = nft.token(b"timmy.xlm").unwrap();
    assert_eq!(transferred_token.owner, new_owner);
    assert_eq!(transferred_token.approved, None);
    assert_eq!(transferred_token.metadata_uri, id("ipfs://timmy"));
}

#[test]
fn rejects_transfer_from_unauthorized_caller() {
    let mut nft = contract();
    let (owner, intruder, new_owner) = (Address(1), Address(2), Address(3));
    mint(&mut nft, "timmy.xlm", owner, None).unwrap();

    let unauthorized_transfer = nft.transfer(b"timmy.xlm", intruder, new_owner);
    assert_eq!(unauthorized_transfer, Err(NftError::Unauthorized));
    assert_eq!(nft.owner_of(b"timmy.xlm"), Some(owner));

    let token = nft.token(b"timmy.xlm").unwrap();
    assert_eq!(token.owner, owner);
    assert_eq!(token.approved, None);
}

#[test]
fn updates_query_methods_after_owner_transfer() {
    let mut nft = contract();
    let (owner, new_owner, approved) = (Address(1), Address(2), Address(3));
    mint(&mut nft, "timmy.xlm", owner, Some("ipfs://timmy")).unwrap();
    nft.approve(b"timmy.xlm", owner, approved).unwrap();
    nft.transfer(b"timmy.xlm", owner, new_owner).unwrap();

    assert_eq!(nft.owner_of(b"timmy.xlm"), Some(new_owner));
    assert_eq!(nft.total_supply(), 1);
    assert_eq!(nft.balance_of(owner), 0);
    assert_eq!(nft.balance_of(new_owner), 1);
    assert_eq!(nft.token_by_index(0), id("timmy.xlm"));
    assert_eq!(nft.token_of_owner_by_index(owner, 0), None);
    assert_eq!(nft.token_of_owner_by_index(new_owner, 0), id("timmy.xlm"));
    assert_eq!(nft.token_uri(b"timmy.xlm"), id("ipfs://timmy"));

    let token = nft.token(b"timmy.xlm").unwrap();
    assert_eq!(token.owner, new_owner);
    assert_eq!(token.approved, None);
    assert_eq!(token.metadata_uri, id("ipfs://timmy"));
}

#[test]
fn enumerates_global_and_owner_tokens_across_multiple_mints() {
    let mut nft = contract();
    let (owner, other_owner) = (Address(1), Address(2));
    mint(&mut nft, "alpha.xlm", owner, Some("ipfs://alpha")).unwrap();
    mint(&mut nft, "beta.xlm", owner, None).unwrap();
    mint(&mut nft, "gamma.xlm", other_owner, Some("ipfs://gamma")).unwrap();

    assert_eq!(nft.total_supply(), 3);
    assert_eq!(nft.balance_of(owner), 2);
    assert_eq!(nft.balance_of(other_owner), 1);

    assert_eq!(nft.token_by_index(0), id("alpha.xlm"));
    assert_eq!(nft.token_by_index(1), id("beta.xlm"));
    assert_eq!(nft.token_by_index(2), id("gamma.xlm"));
    assert_eq!(nft.token_by_index(3), None);

    assert_eq!(nft.token_of_owner_by_index(owner, 0), id("alpha.xlm"));
    assert_eq!(nft.token_of_owner_by_index(owner, 1), id("beta.xlm"));
    assert_eq!(nft.token_of_owner_by_index(owner, 2), None);
    assert_eq!(nft.token_of_owner_by_index(other_owner, 0), id("gamma.xlm"));
    assert_eq!(nft.token_uri(b"gamma.xlm"), id("ipfs://gamma"));
}

fn assert_enumeration_consistent(nft: &NftContract, owners: &[Address]) {
    let total = nft.total_supply();
    let mut global_tokens: Vec<Vec<u8>> = Vec::new();
    for i in 0..total {
        let token = nft
            .token_by_index(i)
            .unwrap_or_else(|| panic!("token_by_index({}) missing inside total_supply", i));
        global_tokens.push(token);
    }
    assert!(nft.token_by_index(total).is_none());
    for token in &global_tokens {
        assert!(nft.owner_of(token).is_some(), "globally-enumerated token has no owner");
    }
    for owner in owners {
        let balance = nft.balance_of(*owner);
        let mut per_owner: Vec<Vec<u8>> = Vec::new();
        for i in 0..balance {
            let token = nft
                .token_of_owner_by_index(*owner, i)
                .unwrap_or_else(|| panic!("token_of_owner_by_index({}) missing inside balance_of", i));
            per_owner.push(token);
        }
        assert!(nft.token_of_owner_by_index(*owner, balance).is_none());
        for token in &per_owner {
            assert_eq!(nft.owner_of(token).as_ref(), Some(owner), "owner list contains a token whose owner_of disagrees");
        }
        let owned_via_global: Vec<&Vec<u8>> =
            global_tokens.iter().filter(|t| nft.owner_of(t).as_ref() == Some(owner)).collect();
        assert_eq!(owned_via_global.len() as u32, balance, "balance_of disagrees with the count of tokens whose owner_of points here");
        let mut seen: Vec<&Vec<u8>> = Vec::new();
        for token in &per_owner {
            assert!(!seen.contains(&token), "duplicate owner-token entry detected");
            seen.push(token);
        }
    }
}

#[test]
fn invariants_hold_after_mint_approve_transfer_sequence() {
    let mut nft = contract();
    let (alice, bob, carol) = (Address(1), Address(2), Address(3));
    let owners = [alice, bob, carol];
    mint(&mut nft, "alpha.xlm", alice, None).unwrap();
    mint(&mut nft, "beta.xlm", alice, None).unwrap();
    mint(&mut nft, "gamma.xlm", bob, None).unwrap();
    assert_enumeration_consistent(&nft, &owners);

    nft.transfer(b"alpha.xlm", alice, bob).unwrap();
    assert_enumeration_consistent(&nft, &owners);

    nft.approve(b"beta.xlm", alice, carol).unwrap();
    nft.transfer(b"beta.xlm", carol, carol).unwrap();
    assert_enumeration_consistent(&nft, &owners);

    mint(&mut nft, "delta.xlm", alice, Some("ipfs://delta")).unwrap();
    assert_enumeration_consistent(&nft, &owners);

    nft.transfer(b"alpha.xlm", bob, alice).unwrap();
    assert_enumeration_consistent(&nft, &owners);
}

#[test]
fn no_op_transfer_to_same_owner_is_idempotent_and_keeps_invariants() {
    let mut nft = contract();
    let (alice, bob) = (Address(1), Address(2));
    let owners = [alice, bob];
    mint(&mut nft, "alpha.xlm", alice, None).unwrap();
    mint(&mut nft, "beta.xlm", bob, None).unwrap();

    let alice_balance_before = nft.balance_of(alice);
    let supply_before = nft.total_supply();
    let token_before = nft.token(b"alpha.xlm").unwrap();

    let carol = Address(3);
    nft.approve(b"alpha.xlm", alice, carol).unwrap();
    nft.transfer(b"alpha.xlm", alice, alice).unwrap();

    assert_eq!(nft.owner_of(b"alpha.xlm"), Some(alice));
    assert_eq!(nft.balance_of(alice), alice_balance_before);
    assert_eq!(nft.total_supply(), supply_before);

    let token_after = nft.token(b"alpha.xlm").unwrap();
    assert_eq!(token_after.owner, token_before.owner);
    assert_eq!(token_after.approved, None);
    assert_enumeration_consistent(&nft, &owners);
}

#[test]
fn approval_changes_do_not_change_enumeration_queries() {
    let mut nft = contract();
    let (owner, approved) = (Address(1), Address(2));
    mint(&mut nft, "timmy.xlm", owner, Some("ipfs://timmy")).unwrap();
    nft.approve(b"timmy.xlm", owner, approved).unwrap();

    assert_eq!(nft.total_supply(), 1);
    assert_eq!(nft.balance_of(owner), 1);
    assert_eq!(nft.token_by_index(0), id("timmy.xlm"));
    assert_eq!(nft.token_of_owner_by_index(owner, 0), id("timmy.xlm"));
    assert_eq!(nft.token_uri(b"timmy.xlm"), id("ipfs://timmy"));
    let token = nft.token(b"timmy.xlm").unwrap();
    assert_eq!(token.approved, Some(approved));
}

fn assert_owner_enumeration_consistent(nft: &NftContract, owner: Address) {
    let balance = nft.balance_of(owner);
    let mut seen: Vec<Vec<u8>> = Vec::new();
    for i in 0..balance {
        let token_id = nft
            .token_of_owner_by_index(owner, i)
            .expect("every index below balance_of must resolve to a token");
        assert!(!seen.contains(&token_id), "duplicate owner-token entry detected in enumeration");
        assert_eq!(nft.owner_of(&token_id), Some(owner), "owner_of must agree with the owner token list");
        seen.push(token_id);
    }
    assert_eq!(nft.token_of_owner_by_index(owner, balance), None);
}

#[test]
fn enumeration_consistent_after_owner_transfer() {
    let mut nft = contract();
    let (alice, bob) = (Address(1), Address(2));
    mint(&mut nft, "a.xlm", alice, None).unwrap();
    mint(&mut nft, "b.xlm", alice, None).unwrap();
    nft.transfer(b"a.xlm", alice, bob).unwrap();

    assert_eq!(nft.owner_of(b"a.xlm"), Some(bob));
    assert_eq!(nft.balance_of(alice), 1);
    assert_eq!(nft.balance_of(bob), 1);
    assert_eq!(nft.total_supply(), 2);
    assert_owner_enumeration_consistent(&nft, alice);
    assert_owner_enumeration_consistent(&nft, bob);
}

#[test]
fn enumeration_consistent_after_approved_transfer() {
    let mut nft = contract();
    let (alice, bob, operator) = (Address(1), Address(2), Address(3));
    mint(&mut nft, "a.xlm", alice, None).unwrap();
    nft.approve(b"a.xlm", alice, operator).unwrap();
    nft.transfer(b"a.xlm", operator, bob).unwrap();

    assert_eq!(nft.owner_of(b"a.xlm"), Some(bob));
    assert_eq!(nft.balance_of(alice), 0);
    assert_eq!(nft.balance_of(bob), 1);
    assert_eq!(nft.token(b"a.xlm").unwrap().approved, None);
    assert_owner_enumeration_consistent(&nft, alice);
    assert_owner_enumeration_consistent(&nft, bob);
}

#[test]
fn no_op_self_transfer_does_not_duplicate_owner_token() {
    let mut nft = contract();
    let alice = Address(1);
    mint(&mut nft, "a.xlm", alice, None).unwrap();
    nft.transfer(b"a.xlm", alice, alice).unwrap();
    assert_eq!(nft.owner_of(b"a.xlm"), Some(alice));
    assert_eq!(nft.balance_of(alice), 1);
    assert_owner_enumeration_consistent(&nft, alice);
}

#[test]
fn test_version_is_exposed() {
    assert_eq!(NftContract::version(), 1);
}

fn name_record(entry: &RegistryEntry) -> NameRecord {
    NameRecord {
        registration_date: entry.registered_at,
        expiry_date: entry.expires_at,
        target_address: entry.target_address.clone(),
    }
}

fn setup() -> (NftContract, RegistryContract, Address) {
    let admin = Address(500);
    let mut nft = NftContract::new();
    nft.initialize(admin).unwrap();
    let registry = RegistryContract::new();
    nft.set_registry(admin, Address(600)).unwrap();
    (nft, registry, admin)
}

fn register_and_mint(nft: &mut NftContract, registry: &mut RegistryContract, owner: Address, now: u64, expires_at: u64, grace_ends: u64) {
    registry.register(b"timmy.xlm", owner, None, None, now, expires_at, grace_ends).unwrap();
    let entry = registry.resolve(b"timmy.xlm", now).unwrap();
    nft.mint(b"timmy.xlm", owner, None, 0, Some(name_record(&entry))).unwrap();
}

#[test]
fn metadata_returns_correct_registration_and_expiry_from_registry() {
    let (mut nft, mut registry, _admin) = setup();
    let owner = Address(1);
    let now: u64 = 1_000_000;
    let expires_at: u64 = now + 31_536_000;
    let grace_ends: u64 = expires_at + 2_592_000;
    register_and_mint(&mut nft, &mut registry, owner, now, expires_at, grace_ends);

    let meta = nft.metadata(b"timmy.xlm", now).unwrap();
    assert_eq!(meta.registration_date, now);
    assert_eq!(meta.expiry_date, expires_at);
    assert_eq!(meta.owner, owner);
    assert!(!meta.is_expired);
}

#[test]
fn metadata_is_expired_true_when_past_expiry() {
    let (mut nft, mut registry, _admin) = setup();
    let now: u64 = 1_000_000;
    let expires_at: u64 = now + 31_536_000;
    let grace_ends: u64 = expires_at + 2_592_000;
    register_and_mint(&mut nft, &mut registry, Address(1), now, expires_at, grace_ends);
    let meta = nft.metadata(b"timmy.xlm", expires_at + 1).unwrap();
    assert!(meta.is_expired);
}

#[test]
fn metadata_is_expired_false_when_before_expiry() {
    let (mut nft, mut registry, _admin) = setup();
    let now: u64 = 1_000_000;
    let expires_at: u64 = now + 31_536_000;
    let grace_ends: u64 = expires_at + 2_592_000;
    register_and_mint(&mut nft, &mut registry, Address(1), now, expires_at, grace_ends);
    let meta = nft.metadata(b"timmy.xlm", expires_at - 1).unwrap();
    assert!(!meta.is_expired);
}

#[test]
fn metadata_returns_none_when_registry_not_configured() {
    let mut nft = NftContract::new();
    nft.initialize(Address(500)).unwrap();
    nft.mint(b"timmy.xlm", Address(1), None, 0, None).unwrap();
    assert_eq!(nft.metadata(b"timmy.xlm", 1_000_000), None);
}

#[test]
fn metadata_returns_none_for_nonexistent_token() {
    let (nft, _registry, _admin) = setup();
    assert_eq!(nft.metadata(b"unknown.xlm", 1_000_000), None);
}

#[test]
fn refresh_name_data_updates_cache_after_renewal() {
    let (mut nft, mut registry, _admin) = setup();
    let owner = Address(1);
    let now: u64 = 1_000_000;
    let expires_at: u64 = now + 31_536_000;
    let grace_ends: u64 = expires_at + 2_592_000;
    register_and_mint(&mut nft, &mut registry, owner, now, expires_at, grace_ends);

    let initial_meta = nft.metadata(b"timmy.xlm", now).unwrap();
    assert_eq!(initial_meta.expiry_date, expires_at);

    let new_expires_at: u64 = expires_at + 31_536_000;
    let new_grace_ends: u64 = new_expires_at + 2_592_000;
    registry.renew(b"timmy.xlm", owner, new_expires_at, new_grace_ends, now).unwrap();
    let entry = registry.resolve(b"timmy.xlm", now).unwrap();
    nft.refresh_name_data(b"timmy.xlm", name_record(&entry)).unwrap();

    let refreshed_meta = nft.metadata(b"timmy.xlm", now).unwrap();
    assert_eq!(refreshed_meta.expiry_date, new_expires_at);
}

#[test]
fn admin_paths_and_burn() {
    let mut nft = NftContract::new();
    assert_eq!(nft.mint(b"a.xlm", Address(1), None, 0, None), Err(NftError::Unauthorized));
    assert_eq!(nft.set_registry(Address(9), Address(8)), Err(NftError::NotInitialized));
    nft.initialize(Address(9)).unwrap();
    assert_eq!(nft.initialize(Address(9)), Err(NftError::AlreadyMinted));
    assert_eq!(nft.set_registry(Address(7), Address(8)), Err(NftError::Unauthorized));
    mint(&mut nft, "a.xlm", Address(1), None).unwrap();
    mint(&mut nft, "b.xlm", Address(1), None).unwrap();
    nft.burn(b"a.xlm").unwrap();
    assert_eq!(nft.total_supply(), 1);
    assert_eq!(nft.balance_of(Address(1)), 1);
    assert_eq!(nft.token_by_index(0), id("b.xlm"));
    assert_eq!(nft.burn(b"a.xlm"), Err(NftError::NotFound));
    nft.sync_expiry(b"b.xlm", 77).unwrap();
    assert_eq!(nft.token(b"b.xlm").unwrap().expires_at, 77);
    nft.approve(b"b.xlm", Address(1), Address(3)).unwrap();
    nft.sync_owner(b"b.xlm", Address(2)).unwrap();
    assert_eq!(nft.token(b"b.xlm").unwrap().approved, Some(Address(3)));
    assert_eq!(nft.balance_of(Address(2)), 1);
    nft.transfer_from(Address(3), Address(2), Address(4), b"b.xlm").unwrap();
    assert_eq!(nft.owner_of(b"b.xlm"), Some(Address(4)));
    assert_eq!(nft.transfer_from(Address(3), Address(4), Address(5), b"b.xlm"), Err(NftError::Unauthorized));
    nft.approve_clear(b"b.xlm", Address(4)).unwrap();
    assert_eq!(NftError::NotInitialized.code(), 5);
}
