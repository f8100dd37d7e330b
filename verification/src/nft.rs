//! The name NFT: one token per name, with owners, single-address approvals,
//! an owner index, and name data mirrored from the registry.
use vstd::prelude::*;
use crate::bridge::{decode_target_version, target_version};
use crate::bytes::{bytes_eq, bytes_seq_view, copy_bytes, copy_opt_bytes, opt_bytes_view};
use crate::keyed::{distinct_keys, has_key, keyed_map, lemma_keyed_index, lemma_keyed_push, lemma_keyed_remove, lemma_keyed_update};
use crate::owner_index::{
    add_pair, index_add, index_names, index_pairs, index_remove, lemma_add_pair_contains, lemma_names_of_contains,
    lemma_remove_pair_contains, names_of, remove_pair, OwnerName,
};
use crate::registry::Address;

verus! {

/// Version of the NFT contract code.
pub const CONTRACT_VERSION: u32 = 1;

/// A token: its owner, the one address approved to move it, its metadata URI
/// and its expiry.
#[derive(Clone, Debug, PartialEq, Eq)]
pub struct TokenRecord {
    pub owner: Address,
    pub approved: Option<Address>,
    pub metadata_uri: Option<Vec<u8>>,
    pub expires_at: u64,
}

/// A token as values.
pub struct TokenView {
    pub owner: Address,
    pub approved: Option<Address>,
    pub metadata_uri: Option<Seq<u8>>,
    pub expires_at: u64,
}

impl View for TokenRecord {
    type V = TokenView;

    open spec fn view(&self) -> TokenView {
        TokenView {
            owner: self.owner,
            approved: self.approved,
            metadata_uri: opt_bytes_view(self.metadata_uri),
            expires_at: self.expires_at,
        }
    }
}

/// Name data mirrored from the registry.
#[derive(Clone, Debug, PartialEq, Eq)]
pub struct NameRecord {
    pub registration_date: u64,
    pub expiry_date: u64,
    pub target_address: Option<Vec<u8>>,
}

/// Name data as values.
pub struct NameView {
    pub registration_date: u64,
    pub expiry_date: u64,
    pub target_address: Option<Seq<u8>>,
}

impl View for NameRecord {
    type V = NameView;

    open spec fn view(&self) -> NameView {
        NameView {
            registration_date: self.registration_date,
            expiry_date: self.expiry_date,
            target_address: opt_bytes_view(self.target_address),
        }
    }
}

/// What the contract tells about a token and its name.
#[derive(Clone, Debug, PartialEq, Eq)]
pub struct TokenMetadata {
    pub token_id: Vec<u8>,
    pub owner: Address,
    pub registration_date: u64,
    pub expiry_date: u64,
    pub is_expired: bool,
    pub target_address: Option<Vec<u8>>,
}

/// Errors of the NFT contract.
#[derive(Copy, Clone, Debug, PartialEq, Eq, Structural)]
pub enum NftError {
    AlreadyMinted,
    NotFound,
    Unauthorized,
    UpgradeFailed,
    NotInitialized,
}

/// Numeric codes of the NFT errors.
pub open spec fn nft_error_code(e: NftError) -> u32 {
    match e {
        NftError::AlreadyMinted => 1,
        NftError::NotFound => 2,
        NftError::Unauthorized => 3,
        NftError::UpgradeFailed => 4,
        NftError::NotInitialized => 5,
    }
}

impl NftError {
    /// The numeric code the contract reports for this error.
    pub fn code(&self) -> (r: u32)
        ensures
            r == nft_error_code(*self),
    {
        match self {
            NftError::AlreadyMinted => 1,
            NftError::NotFound => 2,
            NftError::Unauthorized => 3,
            NftError::UpgradeFailed => 4,
            NftError::NotInitialized => 5,
        }
    }
}

struct TokenSlot {
    id: Vec<u8>,
    record: TokenRecord,
}

struct NameSlot {
    id: Vec<u8>,
    record: NameRecord,
}

/// The NFT contract's storage.
pub struct NftContract {
    admin: Option<Address>,
    version: Option<u32>,
    wasm_hash: Option<Vec<u8>>,
    registry: Option<Address>,
    tokens: Vec<TokenSlot>,
    token_ids: Vec<Vec<u8>>,
    owner_index: Vec<OwnerName>,
    name_data: Vec<NameSlot>,
}

/// The storage as values: admin, stored version and code hash, the registry to
/// mirror from, tokens by id, the list of token ids in mint order, the owner
/// index, and name data by token id.
pub struct NftView {
    pub admin: Option<Address>,
    pub version: Option<u32>,
    pub wasm_hash: Option<Seq<u8>>,
    pub registry: Option<Address>,
    pub tokens: Map<Seq<u8>, TokenView>,
    pub token_ids: Seq<Seq<u8>>,
    pub owner_index: Seq<(Address, Seq<u8>)>,
    pub name_data: Map<Seq<u8>, NameView>,
}

spec fn token_pairs(s: Seq<TokenSlot>) -> Seq<(Seq<u8>, TokenView)> {
    s.map_values(|t: TokenSlot| (t.id@, t.record@))
}

spec fn name_pairs(s: Seq<NameSlot>) -> Seq<(Seq<u8>, NameView)> {
    s.map_values(|t: NameSlot| (t.id@, t.record@))
}

impl View for NftContract {
    type V = NftView;

    closed spec fn view(&self) -> NftView {
        NftView {
            admin: self.admin,
            version: self.version,
            wasm_hash: opt_bytes_view(self.wasm_hash),
            registry: self.registry,
            tokens: keyed_map(token_pairs(self.tokens@)),
            token_ids: bytes_seq_view(self.token_ids@),
            owner_index: index_pairs(self.owner_index@),
            name_data: keyed_map(name_pairs(self.name_data@)),
        }
    }
}

/// The owner index after a token moves from `from` to `to`.
pub open spec fn reindexed(idx: Seq<(Address, Seq<u8>)>, from: Address, to: Address, id: Seq<u8>) -> Seq<(Address, Seq<u8>)> {
    if from == to { idx } else { add_pair(remove_pair(idx, (from, id)), (to, id)) }
}

/// The token ids without the first copy of `id`.
pub open spec fn without_first(ids: Seq<Seq<u8>>, id: Seq<u8>) -> Seq<Seq<u8>> {
    match ids.index_of_first(id) {
        Some(k) => ids.remove(k),
        None => ids,
    }
}

impl NftContract {
    /// Tokens and name data are each keyed by distinct ids.
    pub closed spec fn wf(&self) -> bool {
        &&& distinct_keys(token_pairs(self.tokens@))
        &&& distinct_keys(name_pairs(self.name_data@))
    }

    /// An empty contract.
    pub fn new() -> (r: NftContract)
        ensures
            r.wf(),
            r@.admin is None,
            r@.version is None,
            r@.wasm_hash is None,
            r@.registry is None,
            r@.tokens == Map::<Seq<u8>, TokenView>::empty(),
            r@.token_ids == Seq::<Seq<u8>>::empty(),
            r@.owner_index == Seq::<(Address, Seq<u8>)>::empty(),
            r@.name_data == Map::<Seq<u8>, NameView>::empty(),
    {
        let r = NftContract {
            admin: None,
            version: None,
            wasm_hash: None,
            registry: None,
            tokens: Vec::new(),
            token_ids: Vec::new(),
            owner_index: Vec::new(),
            name_data: Vec::new(),
        };
        assert(r@.tokens =~= Map::<Seq<u8>, TokenView>::empty());
        assert(r@.token_ids =~= Seq::<Seq<u8>>::empty());
        assert(r@.owner_index =~= Seq::<(Address, Seq<u8>)>::empty());
        assert(r@.name_data =~= Map::<Seq<u8>, NameView>::empty());
        r
    }

    /// The version of this contract's code.
    pub fn version() -> (r: u32)
        ensures
            r == CONTRACT_VERSION,
    {
        CONTRACT_VERSION
    }

    /// Sets the admin once; a second call fails (with `AlreadyMinted`).
    pub fn initialize(&mut self, admin: Address) -> (r: Result<(), NftError>)
        requires
            old(self).wf(),
        ensures
            final(self).wf(),
            old(self)@.admin is Some ==> r == Err::<(), NftError>(NftError::AlreadyMinted) && final(self)@ == old(self)@,
            old(self)@.admin is None ==> r is Ok && final(self)@ == (NftView {
                admin: Some(admin),
                version: Some(CONTRACT_VERSION),
                ..old(self)@
            }),
    {
        if self.admin.is_some() {
            return Err(NftError::AlreadyMinted);
        }
        self.admin = Some(admin);
        self.version = Some(CONTRACT_VERSION);
        Ok(())
    }

    /// The stored code version, or this code's version when none is stored.
    pub fn get_version(&self) -> (r: u32)
        ensures
            r == match self@.version {
                Some(v) => v,
                None => CONTRACT_VERSION,
            },
    {
        match self.version {
            Some(v) => v,
            None => CONTRACT_VERSION,
        }
    }

    /// Replaces the code and stores the version that `migration_data` asks for;
    /// fails with `UpgradeFailed` before initialization.
    pub fn upgrade(&mut self, new_wasm_hash: &[u8], migration_data: &[u8]) -> (r: Result<(), NftError>)
        requires
            old(self).wf(),
        ensures
            final(self).wf(),
            old(self)@.admin is None ==> r == Err::<(), NftError>(NftError::UpgradeFailed) && final(self)@ == old(self)@,
            old(self)@.admin is Some ==> r is Ok && final(self)@ == (NftView {
                version: Some(target_version(migration_data@)),
                wasm_hash: Some(new_wasm_hash@),
                ..old(self)@
            }),
    {
        if self.admin.is_none() {
            return Err(NftError::UpgradeFailed);
        }
        self.version = Some(decode_target_version(migration_data));
        self.wasm_hash = Some(copy_bytes(new_wasm_hash));
        Ok(())
    }

    /// Points the contract at the registry whose name data it mirrors; only the
    /// stored admin may, and only after initialization.
    pub fn set_registry(&mut self, admin: Address, registry: Address) -> (r: Result<(), NftError>)
        requires
            old(self).wf(),
        ensures
            final(self).wf(),
            old(self)@.admin is None ==> r == Err::<(), NftError>(NftError::NotInitialized) && final(self)@ == old(self)@,
            old(self)@.admin matches Some(a) && a != admin ==> r == Err::<(), NftError>(NftError::Unauthorized) && final(self)@ == old(self)@,
            old(self)@.admin == Some(admin) ==> r is Ok && final(self)@ == (NftView { registry: Some(registry), ..old(self)@ }),
    {
        match self.admin {
            None => Err(NftError::NotInitialized),
            Some(a) => {
                if a != admin {
                    return Err(NftError::Unauthorized);
                }
                self.registry = Some(registry);
                Ok(())
            },
        }
    }

    fn find_token(&self, id: &[u8]) -> (r: Option<usize>)
        ensures
            match r {
                Some(i) => i < self.tokens@.len() && token_pairs(self.tokens@)[i as int].0 == id@,
                None => !has_key(token_pairs(self.tokens@), id@),
            },
    {
        let mut i: usize = 0;
        while i < self.tokens.len()
            invariant
                i <= self.tokens@.len(),
                forall|j: int| 0 <= j < i ==> (#[trigger] token_pairs(self.tokens@)[j]).0 != id@,
            decreases self.tokens@.len() - i,
        {
            if bytes_eq(self.tokens[i].id.as_slice(), id) {
                return Some(i);
            }
            i += 1;
        }
        None
    }

    fn find_name_data(&self, id: &[u8]) -> (r: Option<usize>)
        ensures
            match r {
                Some(i) => i < self.name_data@.len() && name_pairs(self.name_data@)[i as int].0 == id@,
                None => !has_key(name_pairs(self.name_data@), id@),
            },
    {
        let mut i: usize = 0;
        while i < self.name_data.len()
            invariant
                i <= self.name_data@.len(),
                forall|j: int| 0 <= j < i ==> (#[trigger] name_pairs(self.name_data@)[j]).0 != id@,
            decreases self.name_data@.len() - i,
        {
            if bytes_eq(self.name_data[i].id.as_slice(), id) {
                return Some(i);
            }
            i += 1;
        }
        None
    }

    /// Stores `record` as the name data of `id`.
    fn put_name_data(&mut self, id: &[u8], record: NameRecord)
        requires
            old(self).wf(),
        ensures
            final(self).wf(),
            final(self)@ == (NftView { name_data: old(self)@.name_data.insert(id@, record@), ..old(self)@ }),
    {
        let ghost old_pairs = name_pairs(self.name_data@);
        let ghost rv = record@;
        match self.find_name_data(id) {
            Some(i) => {
                self.name_data.set(i, NameSlot { id: copy_bytes(id), record });
                proof {
                    assert(name_pairs(self.name_data@) =~= old_pairs.update(i as int, (old_pairs[i as int].0, rv)));
                    lemma_keyed_update(old_pairs, i as int, rv);
                }
            },
            None => {
                self.name_data.push(NameSlot { id: copy_bytes(id), record });
                proof {
                    assert(name_pairs(self.name_data@) =~= old_pairs.push((id@, rv)));
                    lemma_keyed_push(old_pairs, id@, rv);
                }
            },
        }
    }

    /// Replaces the record of the token at `i`.
    fn put_token_at(&mut self, i: usize, record: TokenRecord)
        requires
            old(self).wf(),
            i < old(self).tokens@.len(),
        ensures
            final(self).wf(),
            final(self)@ == (NftView {
                tokens: old(self)@.tokens.insert(token_pairs(old(self).tokens@)[i as int].0, record@),
                ..old(self)@
            }),
            final(self).tokens@.len() == old(self).tokens@.len(),
            token_pairs(final(self).tokens@)[i as int].0 == token_pairs(old(self).tokens@)[i as int].0,
    {
        let ghost old_pairs = token_pairs(self.tokens@);
        let ghost rv = record@;
        let id = copy_bytes(self.tokens[i].id.as_slice());
        self.tokens.set(i, TokenSlot { id, record });
        proof {
            assert(token_pairs(self.tokens@) =~= old_pairs.update(i as int, (old_pairs[i as int].0, rv)));
            lemma_keyed_update(old_pairs, i as int, rv);
        }
    }
}


/// What minting `id` for `owner` gives. With a registry configured, the name
/// data it returned for `id` (`registry_entry`) is stored too.
pub open spec fn mint_result(
    v: NftView,
    id: Seq<u8>,
    owner: Address,
    metadata_uri: Option<Seq<u8>>,
    expires_at: u64,
    registry_entry: Option<NameView>,
) -> Result<NftView, NftError> {
    if v.admin is None {
        Err(NftError::Unauthorized)
    } else if v.tokens.contains_key(id) {
        Err(NftError::AlreadyMinted)
    } else {
        let minted = NftView {
            tokens: v.tokens.insert(id, TokenView { owner, approved: None, metadata_uri, expires_at }),
            token_ids: v.token_ids.push(id),
            owner_index: add_pair(v.owner_index, (owner, id)),
            ..v
        };
        Ok(match (v.registry, registry_entry) {
            (Some(_), Some(e)) => NftView { name_data: v.name_data.insert(id, e), ..minted },
            _ => minted,
        })
    }
}

/// What approving `approved` for `id` by `caller` gives.
pub open spec fn approve_result(v: NftView, id: Seq<u8>, caller: Address, approved: Option<Address>) -> Result<NftView, NftError> {
    if !v.tokens.contains_key(id) {
        Err(NftError::NotFound)
    } else if v.tokens[id].owner != caller {
        Err(NftError::Unauthorized)
    } else {
        Ok(NftView { tokens: v.tokens.insert(id, TokenView { approved, ..v.tokens[id] }), ..v })
    }
}

/// The storage after `id` moves to `new_owner`, its approval cleared.
pub open spec fn moved(v: NftView, id: Seq<u8>, new_owner: Address) -> NftView {
    NftView {
        tokens: v.tokens.insert(id, TokenView { owner: new_owner, approved: None, ..v.tokens[id] }),
        owner_index: reindexed(v.owner_index, v.tokens[id].owner, new_owner, id),
        ..v
    }
}

/// What a transfer of `id` by `caller` (its owner or its approved address) gives.
pub open spec fn transfer_result(v: NftView, id: Seq<u8>, caller: Address, new_owner: Address) -> Result<NftView, NftError> {
    if !v.tokens.contains_key(id) {
        Err(NftError::NotFound)
    } else if v.tokens[id].owner != caller && v.tokens[id].approved != Some(caller) {
        Err(NftError::Unauthorized)
    } else {
        Ok(moved(v, id, new_owner))
    }
}

/// What a transfer of `id` from `owner` by its approved `spender` gives.
pub open spec fn transfer_from_result(
    v: NftView,
    spender: Address,
    owner: Address,
    recipient: Address,
    id: Seq<u8>,
) -> Result<NftView, NftError> {
    if !v.tokens.contains_key(id) {
        Err(NftError::NotFound)
    } else if v.tokens[id].owner != owner || v.tokens[id].approved != Some(spender) {
        Err(NftError::Unauthorized)
    } else {
        Ok(moved(v, id, recipient))
    }
}

/// What burning `id` gives: the token, its owner-index pair and its first id go.
pub open spec fn burn_result(v: NftView, id: Seq<u8>) -> Result<NftView, NftError> {
    if v.admin is None {
        Err(NftError::Unauthorized)
    } else if !v.tokens.contains_key(id) {
        Err(NftError::NotFound)
    } else {
        Ok(NftView {
            tokens: v.tokens.remove(id),
            owner_index: remove_pair(v.owner_index, (v.tokens[id].owner, id)),
            token_ids: without_first(v.token_ids, id),
            ..v
        })
    }
}

/// What setting the expiry of `id` gives.
pub open spec fn sync_expiry_result(v: NftView, id: Seq<u8>, new_expiry: u64) -> Result<NftView, NftError> {
    if v.admin is None {
        Err(NftError::Unauthorized)
    } else if !v.tokens.contains_key(id) {
        Err(NftError::NotFound)
    } else {
        Ok(NftView { tokens: v.tokens.insert(id, TokenView { expires_at: new_expiry, ..v.tokens[id] }), ..v })
    }
}

/// What setting the owner of `id` gives (its approval stays).
pub open spec fn sync_owner_result(v: NftView, id: Seq<u8>, new_owner: Address) -> Result<NftView, NftError> {
    if v.admin is None {
        Err(NftError::Unauthorized)
    } else if !v.tokens.contains_key(id) {
        Err(NftError::NotFound)
    } else {
        Ok(NftView {
            tokens: v.tokens.insert(id, TokenView { owner: new_owner, ..v.tokens[id] }),
            owner_index: reindexed(v.owner_index, v.tokens[id].owner, new_owner, id),
            ..v
        })
    }
}

/// What refreshing the name data of `id` with what the registry returned gives.
pub open spec fn refresh_result(v: NftView, id: Seq<u8>, entry: NameView) -> Result<NftView, NftError> {
    if v.registry is None {
        Err(NftError::NotInitialized)
    } else if !v.tokens.contains_key(id) {
        Err(NftError::NotFound)
    } else {
        Ok(NftView { name_data: v.name_data.insert(id, entry), ..v })
    }
}

/// The view of an optional name record.
pub open spec fn opt_name_view(e: Option<NameRecord>) -> Option<NameView> {
    match e {
        Some(r) => Some(r@),
        None => None,
    }
}

/// How a mutation's result and the storage after it follow a spec result.
pub open spec fn follows(r: Result<(), NftError>, spec: Result<NftView, NftError>, before: NftView, after: NftView) -> bool {
    match spec {
        Ok(v) => r is Ok && after == v,
        Err(e) => r == Err::<(), NftError>(e) && after == before,
    }
}

impl NftContract {
    fn reindex(&mut self, from: Address, to: Address, id: &[u8])
        ensures
            final(self).tokens@ == old(self).tokens@,
            final(self).name_data@ == old(self).name_data@,
            final(self).token_ids@ == old(self).token_ids@,
            final(self).admin == old(self).admin,
            final(self).version == old(self).version,
            final(self).wasm_hash == old(self).wasm_hash,
            final(self).registry == old(self).registry,
            index_pairs(final(self).owner_index@) == reindexed(index_pairs(old(self).owner_index@), from, to, id@),
    {
        if from == to {
            return;
        }
        index_remove(&mut self.owner_index, from, id);
        index_add(&mut self.owner_index, to, id);
    }

    /// Mints `token_id` for `owner`; admin only. `registry_entry` is the name
    /// data that the configured registry returned for the token, if any.
    pub fn mint(
        &mut self,
        token_id: &[u8],
        owner: Address,
        metadata_uri: Option<Vec<u8>>,
        expires_at: u64,
        registry_entry: Option<NameRecord>,
    ) -> (r: Result<(), NftError>)
        requires
            old(self).wf(),
        ensures
            final(self).wf(),
            follows(r, mint_result(old(self)@, token_id@, owner, opt_bytes_view(metadata_uri), expires_at,
                opt_name_view(registry_entry)), old(self)@, final(self)@),
    {
        if self.admin.is_none() {
            return Err(NftError::Unauthorized);
        }
        match self.find_token(token_id) {
            Some(i) => {
                proof {
                    lemma_keyed_index(token_pairs(self.tokens@), i as int);
                }
                return Err(NftError::AlreadyMinted);
            },
            None => {},
        }
        let ghost old_pairs = token_pairs(self.tokens@);
        let record = TokenRecord { owner, approved: None, metadata_uri, expires_at };
        let ghost rv = record@;
        self.tokens.push(TokenSlot { id: copy_bytes(token_id), record });
        proof {
            assert(token_pairs(self.tokens@) =~= old_pairs.push((token_id@, rv)));
            lemma_keyed_push(old_pairs, token_id@, rv);
        }
        let ghost old_ids = self.token_ids@;
        self.token_ids.push(copy_bytes(token_id));
        assert(bytes_seq_view(self.token_ids@) =~= bytes_seq_view(old_ids).push(token_id@));
        index_add(&mut self.owner_index, owner, token_id);
        if self.registry.is_some() {
            match registry_entry {
                Some(e) => self.put_name_data(token_id, e),
                None => {},
            }
        }
        Ok(())
    }

    /// The token's metadata with its name data; `None` without either.
    pub fn metadata(&self, token_id: &[u8], now_unix: u64) -> (r: Option<TokenMetadata>)
        requires
            self.wf(),
        ensures
            match r {
                Some(m) => self@.tokens.contains_key(token_id@) && self@.name_data.contains_key(token_id@)
                    && m.token_id@ == token_id@
                    && m.owner == self@.tokens[token_id@].owner
                    && m.registration_date == self@.name_data[token_id@].registration_date
                    && m.expiry_date == self@.name_data[token_id@].expiry_date
                    && m.is_expired == (now_unix > self@.name_data[token_id@].expiry_date)
                    && opt_bytes_view(m.target_address) == self@.name_data[token_id@].target_address,
                None => !self@.tokens.contains_key(token_id@) || !self@.name_data.contains_key(token_id@),
            },
    {
        let i = match self.find_token(token_id) {
            Some(i) => i,
            None => return None,
        };
        let j = match self.find_name_data(token_id) {
            Some(j) => j,
            None => return None,
        };
        proof {
            lemma_keyed_index(token_pairs(self.tokens@), i as int);
            lemma_keyed_index(name_pairs(self.name_data@), j as int);
        }
        let name = &self.name_data[j].record;
        Some(TokenMetadata {
            token_id: copy_bytes(token_id),
            owner: self.tokens[i].record.owner,
            registration_date: name.registration_date,
            expiry_date: name.expiry_date,
            is_expired: now_unix > name.expiry_date,
            target_address: copy_opt_bytes(&name.target_address),
        })
    }

    /// Replaces the name data of `token_id` with what the registry returned.
    pub fn refresh_name_data(&mut self, token_id: &[u8], registry_entry: NameRecord) -> (r: Result<(), NftError>)
        requires
            old(self).wf(),
        ensures
            final(self).wf(),
            follows(r, refresh_result(old(self)@, token_id@, registry_entry@), old(self)@, final(self)@),
    {
        if self.registry.is_none() {
            return Err(NftError::NotInitialized);
        }
        match self.find_token(token_id) {
            None => return Err(NftError::NotFound),
            Some(i) => {
                proof {
                    lemma_keyed_index(token_pairs(self.tokens@), i as int);
                }
            },
        }
        self.put_name_data(token_id, registry_entry);
        Ok(())
    }

    fn set_approval(&mut self, token_id: &[u8], caller: Address, approved: Option<Address>) -> (r: Result<(), NftError>)
        requires
            old(self).wf(),
        ensures
            final(self).wf(),
            follows(r, approve_result(old(self)@, token_id@, caller, approved), old(self)@, final(self)@),
    {
        let i = match self.find_token(token_id) {
            None => return Err(NftError::NotFound),
            Some(i) => i,
        };
        proof {
            lemma_keyed_index(token_pairs(self.tokens@), i as int);
        }
        if self.tokens[i].record.owner != caller {
            return Err(NftError::Unauthorized);
        }
        let old_record = &self.tokens[i].record;
        let record = TokenRecord {
            owner: old_record.owner,
            approved,
            metadata_uri: copy_opt_bytes(&old_record.metadata_uri),
            expires_at: old_record.expires_at,
        };
        self.put_token_at(i, record);
        Ok(())
    }

    /// Lets `approved` move the token; only its owner may.
    pub fn approve(&mut self, token_id: &[u8], caller: Address, approved: Address) -> (r: Result<(), NftError>)
        requires
            old(self).wf(),
        ensures
            final(self).wf(),
            follows(r, approve_result(old(self)@, token_id@, caller, Some(approved)), old(self)@, final(self)@),
    {
        self.set_approval(token_id, caller, Some(approved))
    }

    /// Clears the token's approval; only its owner may.
    pub fn approve_clear(&mut self, token_id: &[u8], caller: Address) -> (r: Result<(), NftError>)
        requires
            old(self).wf(),
        ensures
            final(self).wf(),
            follows(r, approve_result(old(self)@, token_id@, caller, None), old(self)@, final(self)@),
    {
        self.set_approval(token_id, caller, None)
    }

    fn move_token(&mut self, i: usize, token_id: &[u8], new_owner: Address)
        requires
            old(self).wf(),
            i < old(self).tokens@.len(),
            token_pairs(old(self).tokens@)[i as int].0 == token_id@,
        ensures
            final(self).wf(),
            final(self)@ == moved(old(self)@, token_id@, new_owner),
    {
        proof {
            lemma_keyed_index(token_pairs(self.tokens@), i as int);
        }
        let previous = self.tokens[i].record.owner;
        let old_record = &self.tokens[i].record;
        let record = TokenRecord {
            owner: new_owner,
            approved: None,
            metadata_uri: copy_opt_bytes(&old_record.metadata_uri),
            expires_at: old_record.expires_at,
        };
        self.put_token_at(i, record);
        self.reindex(previous, new_owner, token_id);
    }

    /// Moves the token to `new_owner`; its owner or its approved address may.
    pub fn transfer(&mut self, token_id: &[u8], caller: Address, new_owner: Address) -> (r: Result<(), NftError>)
        requires
            old(self).wf(),
        ensures
            final(self).wf(),
            follows(r, transfer_result(old(self)@, token_id@, caller, new_owner), old(self)@, final(self)@),
    {
        let i = match self.find_token(token_id) {
            None => return Err(NftError::NotFound),
            Some(i) => i,
        };
        proof {
            lemma_keyed_index(token_pairs(self.tokens@), i as int);
        }
        let record = &self.tokens[i].record;
        let approved_caller = match record.approved {
            Some(a) => a == caller,
            None => false,
        };
        if record.owner != caller && !approved_caller {
            return Err(NftError::Unauthorized);
        }
        self.move_token(i, token_id, new_owner);
        Ok(())
    }

    /// Moves the token from `owner` to `recipient`; only its approved `spender` may.
    pub fn transfer_from(&mut self, spender: Address, owner: Address, recipient: Address, token_id: &[u8]) -> (r: Result<(), NftError>)
        requires
            old(self).wf(),
        ensures
            final(self).wf(),
            follows(r, transfer_from_result(old(self)@, spender, owner, recipient, token_id@), old(self)@, final(self)@),
    {
        let i = match self.find_token(token_id) {
            None => return Err(NftError::NotFound),
            Some(i) => i,
        };
        proof {
            lemma_keyed_index(token_pairs(self.tokens@), i as int);
        }
        let record = &self.tokens[i].record;
        let approved_spender = match record.approved {
            Some(a) => a == spender,
            None => false,
        };
        if record.owner != owner || !approved_spender {
            return Err(NftError::Unauthorized);
        }
        self.move_token(i, token_id, recipient);
        Ok(())
    }
}


impl NftContract {
    /// The owner of the token.
    pub fn owner_of(&self, token_id: &[u8]) -> (r: Option<Address>)
        requires
            self.wf(),
        ensures
            match r {
                Some(o) => self@.tokens.contains_key(token_id@) && o == self@.tokens[token_id@].owner,
                None => !self@.tokens.contains_key(token_id@),
            },
    {
        match self.find_token(token_id) {
            Some(i) => {
                proof {
                    lemma_keyed_index(token_pairs(self.tokens@), i as int);
                }
                Some(self.tokens[i].record.owner)
            },
            None => None,
        }
    }

    /// The token's record.
    pub fn token(&self, token_id: &[u8]) -> (r: Option<TokenRecord>)
        requires
            self.wf(),
        ensures
            match r {
                Some(t) => self@.tokens.contains_key(token_id@) && t@ == self@.tokens[token_id@],
                None => !self@.tokens.contains_key(token_id@),
            },
    {
        match self.find_token(token_id) {
            Some(i) => {
                proof {
                    lemma_keyed_index(token_pairs(self.tokens@), i as int);
                }
                let t = &self.tokens[i].record;
                Some(TokenRecord {
                    owner: t.owner,
                    approved: t.approved,
                    metadata_uri: copy_opt_bytes(&t.metadata_uri),
                    expires_at: t.expires_at,
                })
            },
            None => None,
        }
    }

    /// The token's metadata URI, if it has one.
    pub fn token_uri(&self, token_id: &[u8]) -> (r: Option<Vec<u8>>)
        requires
            self.wf(),
        ensures
            opt_bytes_view(r) == if self@.tokens.contains_key(token_id@) { self@.tokens[token_id@].metadata_uri } else { None },
    {
        match self.find_token(token_id) {
            Some(i) => {
                proof {
                    lemma_keyed_index(token_pairs(self.tokens@), i as int);
                }
                copy_opt_bytes(&self.tokens[i].record.metadata_uri)
            },
            None => None,
        }
    }

    /// How many tokens the owner index lists for `owner`.
    pub fn balance_of(&self, owner: Address) -> (r: u32)
        ensures
            r == names_of(self@.owner_index, owner).len() as u32,
    {
        let names = index_names(&self.owner_index, owner);
        names.len() as u32
    }

    /// How many token ids are listed.
    pub fn total_supply(&self) -> (r: u32)
        ensures
            r == self@.token_ids.len() as u32,
    {
        self.token_ids.len() as u32
    }

    /// The token id at `index` of the mint-ordered list.
    pub fn token_by_index(&self, index: u32) -> (r: Option<Vec<u8>>)
        ensures
            opt_bytes_view(r) == if (index as int) < self@.token_ids.len() { Some(self@.token_ids[index as int]) } else { None },
    {
        if (index as usize) < self.token_ids.len() {
            Some(copy_bytes(self.token_ids[index as usize].as_slice()))
        } else {
            None
        }
    }

    /// The token id at `index` of the ones the owner index lists for `owner`.
    pub fn token_of_owner_by_index(&self, owner: Address, index: u32) -> (r: Option<Vec<u8>>)
        ensures
            opt_bytes_view(r) == if (index as int) < names_of(self@.owner_index, owner).len() {
                Some(names_of(self@.owner_index, owner)[index as int])
            } else {
                None
            },
    {
        let names = index_names(&self.owner_index, owner);
        if (index as usize) < names.len() {
            Some(copy_bytes(names[index as usize].as_slice()))
        } else {
            None
        }
    }

    /// Burns the token; admin only.
    pub fn burn(&mut self, token_id: &[u8]) -> (r: Result<(), NftError>)
        requires
            old(self).wf(),
        ensures
            final(self).wf(),
            follows(r, burn_result(old(self)@, token_id@), old(self)@, final(self)@),
    {
        if self.admin.is_none() {
            return Err(NftError::Unauthorized);
        }
        let i = match self.find_token(token_id) {
            None => return Err(NftError::NotFound),
            Some(i) => i,
        };
        let ghost old_pairs = token_pairs(self.tokens@);
        proof {
            lemma_keyed_index(old_pairs, i as int);
        }
        let owner = self.tokens[i].record.owner;
        let _gone = self.tokens.remove(i);
        proof {
            assert(token_pairs(self.tokens@) =~= old_pairs.remove(i as int));
            lemma_keyed_remove(old_pairs, i as int);
        }
        index_remove(&mut self.owner_index, owner, token_id);
        let ghost ids = bytes_seq_view(self.token_ids@);
        let mut k: usize = 0;
        while k < self.token_ids.len()
            invariant
                k <= self.token_ids@.len(),
                ids == bytes_seq_view(self.token_ids@),
                forall|j: int| 0 <= j < k ==> ids[j] != token_id@,
            ensures
                k <= self.token_ids@.len(),
                ids == bytes_seq_view(self.token_ids@),
                forall|j: int| 0 <= j < k ==> ids[j] != token_id@,
                k < self.token_ids@.len() ==> ids[k as int] == token_id@,
            decreases self.token_ids@.len() - k,
        {
            if bytes_eq(self.token_ids[k].as_slice(), token_id) {
                break;
            }
            k += 1;
        }
        proof {
            ids.index_of_first_ensures(token_id@);
        }
        if k < self.token_ids.len() {
            proof {
                assert(ids[k as int] == token_id@);
                assert(ids.contains(token_id@));
                let f = ids.index_of_first(token_id@).unwrap();
                assert(f == k as int);
            }
            let _id = self.token_ids.remove(k);
            assert(bytes_seq_view(self.token_ids@) =~= ids.remove(k as int));
        } else {
            proof {
                if ids.contains(token_id@) {
                    let j = choose|j: int| 0 <= j < ids.len() && ids[j] == token_id@;
                    assert(ids[j] != token_id@);
                }
            }
        }
        Ok(())
    }

    /// Sets the token's expiry; admin only.
    pub fn sync_expiry(&mut self, token_id: &[u8], new_expiry: u64) -> (r: Result<(), NftError>)
        requires
            old(self).wf(),
        ensures
            final(self).wf(),
            follows(r, sync_expiry_result(old(self)@, token_id@, new_expiry), old(self)@, final(self)@),
    {
        if self.admin.is_none() {
            return Err(NftError::Unauthorized);
        }
        let i = match self.find_token(token_id) {
            None => return Err(NftError::NotFound),
            Some(i) => i,
        };
        proof {
            lemma_keyed_index(token_pairs(self.tokens@), i as int);
        }
        let old_record = &self.tokens[i].record;
        let record = TokenRecord {
            owner: old_record.owner,
            approved: old_record.approved,
            metadata_uri: copy_opt_bytes(&old_record.metadata_uri),
            expires_at: new_expiry,
        };
        self.put_token_at(i, record);
        Ok(())
    }

    /// Sets the token's owner, keeping its approval; admin only.
    pub fn sync_owner(&mut self, token_id: &[u8], new_owner: Address) -> (r: Result<(), NftError>)
        requires
            old(self).wf(),
        ensures
            final(self).wf(),
            follows(r, sync_owner_result(old(self)@, token_id@, new_owner), old(self)@, final(self)@),
    {
        if self.admin.is_none() {
            return Err(NftError::Unauthorized);
        }
        let i = match self.find_token(token_id) {
            None => return Err(NftError::NotFound),
            Some(i) => i,
        };
        proof {
            lemma_keyed_index(token_pairs(self.tokens@), i as int);
        }
        let old_owner = self.tokens[i].record.owner;
        let old_record = &self.tokens[i].record;
        let record = TokenRecord {
            owner: new_owner,
            approved: old_record.approved,
            metadata_uri: copy_opt_bytes(&old_record.metadata_uri),
            expires_at: old_record.expires_at,
        };
        self.put_token_at(i, record);
        self.reindex(old_owner, new_owner, token_id);
        Ok(())
    }
}


/// The owner index and the list of token ids agree with the tokens: each
/// index pair names a token held by that owner, each token is listed under
/// its owner, and the id list holds each token exactly once.
pub open spec fn nft_consistent(v: NftView) -> bool {
    &&& forall|q: (Address, Seq<u8>)| #[trigger] v.owner_index.contains(q)
        ==> v.tokens.contains_key(q.1) && v.tokens[q.1].owner == q.0
    &&& forall|id: Seq<u8>| #[trigger] v.tokens.contains_key(id) ==> v.owner_index.contains((v.tokens[id].owner, id))
    &&& forall|id: Seq<u8>| #[trigger] v.token_ids.contains(id) <==> v.tokens.contains_key(id)
    &&& v.token_ids.no_duplicates()
}

proof fn lemma_reindexed_contains(idx: Seq<(Address, Seq<u8>)>, from: Address, to: Address, id: Seq<u8>, q: (Address, Seq<u8>))
    ensures
        reindexed(idx, from, to, id).contains(q) <==> (from == to && idx.contains(q))
            || (from != to && ((idx.contains(q) && q != (from, id)) || q == (to, id))),
{
    if from != to {
        lemma_remove_pair_contains(idx, (from, id), q);
        lemma_add_pair_contains(remove_pair(idx, (from, id)), (to, id), q);
    }
}

proof fn lemma_moved_owner_consistent(v: NftView, id: Seq<u8>, to: Address, w: NftView)
    requires
        nft_consistent(v),
        v.tokens.contains_key(id),
        w.tokens == v.tokens.insert(id, TokenView { owner: to, ..w.tokens[id] }),
        w.owner_index == reindexed(v.owner_index, v.tokens[id].owner, to, id),
        w.token_ids == v.token_ids,
    ensures
        nft_consistent(w),
{
    let from = v.tokens[id].owner;
    assert forall|q: (Address, Seq<u8>)| #[trigger] w.owner_index.contains(q)
        implies w.tokens.contains_key(q.1) && w.tokens[q.1].owner == q.0 by {
        lemma_reindexed_contains(v.owner_index, from, to, id, q);
        if q.1 == id && q != (to, id) {
            assert(v.owner_index.contains(q));
        }
    }
    assert forall|n: Seq<u8>| #[trigger] w.tokens.contains_key(n) implies w.owner_index.contains((w.tokens[n].owner, n)) by {
        lemma_reindexed_contains(v.owner_index, from, to, id, (w.tokens[n].owner, n));
        if n != id {
            assert(v.tokens.contains_key(n));
        }
    }
    assert forall|n: Seq<u8>| #[trigger] w.token_ids.contains(n) <==> w.tokens.contains_key(n) by {
        assert(v.token_ids.contains(n) <==> v.tokens.contains_key(n));
    }
}

/// Transfers keep the owner index and the id list in agreement with the tokens.
pub proof fn lemma_transfer_keeps_consistency(v: NftView, id: Seq<u8>, caller: Address, new_owner: Address)
    requires
        nft_consistent(v),
        transfer_result(v, id, caller, new_owner) is Ok,
    ensures
        nft_consistent(transfer_result(v, id, caller, new_owner).unwrap()),
{
    lemma_moved_owner_consistent(v, id, new_owner, moved(v, id, new_owner));
}

/// Approved transfers keep the owner index and the id list in agreement with the tokens.
pub proof fn lemma_transfer_from_keeps_consistency(v: NftView, spender: Address, owner: Address, recipient: Address, id: Seq<u8>)
    requires
        nft_consistent(v),
        transfer_from_result(v, spender, owner, recipient, id) is Ok,
    ensures
        nft_consistent(transfer_from_result(v, spender, owner, recipient, id).unwrap()),
{
    lemma_moved_owner_consistent(v, id, recipient, moved(v, id, recipient));
}

/// Admin owner changes keep the owner index and the id list in agreement with the tokens.
pub proof fn lemma_sync_owner_keeps_consistency(v: NftView, id: Seq<u8>, new_owner: Address)
    requires
        nft_consistent(v),
        sync_owner_result(v, id, new_owner) is Ok,
    ensures
        nft_consistent(sync_owner_result(v, id, new_owner).unwrap()),
{
    lemma_moved_owner_consistent(v, id, new_owner, sync_owner_result(v, id, new_owner).unwrap());
}

/// Minting keeps the owner index and the id list in agreement with the tokens.
pub proof fn lemma_mint_keeps_consistency(
    v: NftView,
    id: Seq<u8>,
    owner: Address,
    metadata_uri: Option<Seq<u8>>,
    expires_at: u64,
    registry_entry: Option<NameView>,
)
    requires
        nft_consistent(v),
        mint_result(v, id, owner, metadata_uri, expires_at, registry_entry) is Ok,
    ensures
        nft_consistent(mint_result(v, id, owner, metadata_uri, expires_at, registry_entry).unwrap()),
{
    let w = mint_result(v, id, owner, metadata_uri, expires_at, registry_entry).unwrap();
    assert forall|q: (Address, Seq<u8>)| #[trigger] w.owner_index.contains(q)
        implies w.tokens.contains_key(q.1) && w.tokens[q.1].owner == q.0 by {
        lemma_add_pair_contains(v.owner_index, (owner, id), q);
    }
    assert forall|n: Seq<u8>| #[trigger] w.tokens.contains_key(n) implies w.owner_index.contains((w.tokens[n].owner, n)) by {
        lemma_add_pair_contains(v.owner_index, (owner, id), (w.tokens[n].owner, n));
    }
    assert forall|n: Seq<u8>| #[trigger] w.token_ids.contains(n) <==> w.tokens.contains_key(n) by {
        assert(v.token_ids.contains(n) <==> v.tokens.contains_key(n));
        if w.token_ids.contains(n) && n != id {
            let j = choose|j: int| 0 <= j < w.token_ids.len() && w.token_ids[j] == n;
            assert(v.token_ids[j] == n);
        }
        if n == id {
            assert(w.token_ids[v.token_ids.len() as int] == id);
        } else if v.token_ids.contains(n) {
            let j = choose|j: int| 0 <= j < v.token_ids.len() && v.token_ids[j] == n;
            assert(w.token_ids[j] == n);
        }
    }
    assert(!v.token_ids.contains(id));
    assert forall|a: int, b: int| 0 <= a < w.token_ids.len() && 0 <= b < w.token_ids.len() && a != b
        implies w.token_ids[a] != w.token_ids[b] by {
        if a < v.token_ids.len() && b < v.token_ids.len() {
        } else if a < v.token_ids.len() {
            assert(v.token_ids.contains(w.token_ids[a]));
        } else if b < v.token_ids.len() {
            assert(v.token_ids.contains(w.token_ids[b]));
        }
    }
}

/// Burning keeps the owner index and the id list in agreement with the tokens.
pub proof fn lemma_burn_keeps_consistency(v: NftView, id: Seq<u8>)
    requires
        nft_consistent(v),
        burn_result(v, id) is Ok,
    ensures
        nft_consistent(burn_result(v, id).unwrap()),
{
    let w = burn_result(v, id).unwrap();
    let owner = v.tokens[id].owner;
    assert forall|q: (Address, Seq<u8>)| #[trigger] w.owner_index.contains(q)
        implies w.tokens.contains_key(q.1) && w.tokens[q.1].owner == q.0 by {
        lemma_remove_pair_contains(v.owner_index, (owner, id), q);
    }
    assert forall|n: Seq<u8>| #[trigger] w.tokens.contains_key(n) implies w.owner_index.contains((w.tokens[n].owner, n)) by {
        lemma_remove_pair_contains(v.owner_index, (owner, id), (w.tokens[n].owner, n));
    }
    let ids = v.token_ids;
    ids.index_of_first_ensures(id);
    assert(ids.contains(id));
    let k = ids.index_of_first(id).unwrap();
    assert(w.token_ids == ids.remove(k));
    assert forall|n: Seq<u8>| #[trigger] w.token_ids.contains(n) <==> w.tokens.contains_key(n) by {
        assert(ids.contains(n) <==> v.tokens.contains_key(n));
        if w.token_ids.contains(n) {
            let j = choose|j: int| 0 <= j < w.token_ids.len() && w.token_ids[j] == n;
            let j2 = if j < k { j } else { j + 1 };
            assert(ids[j2] == n);
            assert(j2 != k);
        }
        if ids.contains(n) && n != id {
            let j = choose|j: int| 0 <= j < ids.len() && ids[j] == n;
            assert(j != k);
            let j1 = if j < k { j } else { j - 1 };
            assert(w.token_ids[j1] == n);
        }
    }
    assert forall|a: int, b: int| 0 <= a < w.token_ids.len() && 0 <= b < w.token_ids.len() && a != b
        implies w.token_ids[a] != w.token_ids[b] by {
        let a2 = if a < k { a } else { a + 1 };
        let b2 = if b < k { b } else { b + 1 };
        assert(w.token_ids[a] == ids[a2]);
        assert(w.token_ids[b] == ids[b2]);
    }
}

/// Changing approvals, expiries or name data keeps the agreement.
pub proof fn lemma_record_updates_keep_consistency(v: NftView, id: Seq<u8>, caller: Address, approved: Option<Address>, new_expiry: u64, entry: NameView)
    requires
        nft_consistent(v),
    ensures
        approve_result(v, id, caller, approved) is Ok ==> nft_consistent(approve_result(v, id, caller, approved).unwrap()),
        sync_expiry_result(v, id, new_expiry) is Ok ==> nft_consistent(sync_expiry_result(v, id, new_expiry).unwrap()),
        refresh_result(v, id, entry) is Ok ==> nft_consistent(refresh_result(v, id, entry).unwrap()),
{
    if approve_result(v, id, caller, approved) is Ok {
        let w = approve_result(v, id, caller, approved).unwrap();
        assert forall|n: Seq<u8>| #[trigger] w.tokens.contains_key(n) implies w.owner_index.contains((w.tokens[n].owner, n)) by {
            assert(v.tokens.contains_key(n));
        }
        assert forall|n: Seq<u8>| #[trigger] w.token_ids.contains(n) <==> w.tokens.contains_key(n) by {
            assert(v.token_ids.contains(n) <==> v.tokens.contains_key(n));
        }
    }
    if sync_expiry_result(v, id, new_expiry) is Ok {
        let w = sync_expiry_result(v, id, new_expiry).unwrap();
        assert forall|n: Seq<u8>| #[trigger] w.tokens.contains_key(n) implies w.owner_index.contains((w.tokens[n].owner, n)) by {
            assert(v.tokens.contains_key(n));
        }
        assert forall|n: Seq<u8>| #[trigger] w.token_ids.contains(n) <==> w.tokens.contains_key(n) by {
            assert(v.token_ids.contains(n) <==> v.tokens.contains_key(n));
        }
    }
}

/// With the agreement in place, the owner index lists a token under exactly
/// its owner: what `balance_of` and `token_of_owner_by_index` read.
pub proof fn lemma_owner_tokens_are_owned(v: NftView, owner: Address, id: Seq<u8>)
    requires
        nft_consistent(v),
    ensures
        names_of(v.owner_index, owner).contains(id) <==> (v.tokens.contains_key(id) && v.tokens[id].owner == owner),
{
    lemma_names_of_contains(v.owner_index, owner, id);
}

/// A freshly minted token belongs to its owner, carries no approval, and is
/// the last listed id.
pub proof fn lemma_mint_then_owner(
    v: NftView,
    id: Seq<u8>,
    owner: Address,
    metadata_uri: Option<Seq<u8>>,
    expires_at: u64,
    registry_entry: Option<NameView>,
)
    requires
        mint_result(v, id, owner, metadata_uri, expires_at, registry_entry) is Ok,
    ensures
        ({
            let w = mint_result(v, id, owner, metadata_uri, expires_at, registry_entry).unwrap();
            &&& w.tokens.contains_key(id)
            &&& w.tokens[id].owner == owner
            &&& w.tokens[id].approved is None
            &&& w.token_ids.last() == id
            &&& w.owner_index.contains((owner, id))
        }),
{
    lemma_add_pair_contains(v.owner_index, (owner, id), (owner, id));
}

/// A transfer hands the token over and clears its approval, so a previously
/// approved address cannot move it again.
pub proof fn lemma_transfer_clears_approval(v: NftView, id: Seq<u8>, caller: Address, new_owner: Address)
    requires
        transfer_result(v, id, caller, new_owner) is Ok,
    ensures
        transfer_result(v, id, caller, new_owner).unwrap().tokens[id].owner == new_owner,
        transfer_result(v, id, caller, new_owner).unwrap().tokens[id].approved is None,
{
}

} // verus!
