//! The name registry: entries with owners and lifecycle timestamps, plus an
//! index from owners to the names they hold.
use vstd::prelude::*;
use crate::bytes::{bytes_eq, bytes_seq_view, copy_bytes, copy_opt_bytes, opt_bytes_view};
use crate::constants::{DEFAULT_TTL_SECONDS, MAX_METADATA_URI_LENGTH};
use crate::label::{fqdn_result, validate_fqdn_soroban};
use crate::time::{is_active_at, is_claimable_at, spec_is_active_at, spec_is_claimable_at};
use crate::owner_index::{
    add_pair, index_add, index_names, index_pairs, index_remove, lemma_add_pair_contains, lemma_names_of_contains,
    lemma_push_contains, lemma_remove_pair_contains, names_of, remove_pair, OwnerName,
};

verus! {

/// Admin recovery (forced reassignment of names) is not part of this registry.
pub const ADMIN_RECOVERY_SUPPORTED: bool = false;

/// Version of the persistent-storage layout.
pub const STORAGE_SCHEMA_VERSION: u32 = 1;

/// An account identity.
#[derive(Debug, Clone, Copy, PartialEq, Eq, Structural)]
pub struct Address(pub u64);

/// A registered name and its lifecycle data.
#[derive(Debug, Clone, PartialEq, Eq)]
pub struct RegistryEntry {
    pub name: Vec<u8>,
    pub owner: Address,
    pub resolver: Option<Vec<u8>>,
    pub target_address: Option<Vec<u8>>,
    pub metadata_uri: Option<Vec<u8>>,
    pub ttl_seconds: u64,
    pub registered_at: u64,
    pub expires_at: u64,
    pub grace_period_ends_at: u64,
    pub transfer_count: u32,
}

/// A registry entry with its texts as byte sequences.
pub struct EntryView {
    pub name: Seq<u8>,
    pub owner: Address,
    pub resolver: Option<Seq<u8>>,
    pub target_address: Option<Seq<u8>>,
    pub metadata_uri: Option<Seq<u8>>,
    pub ttl_seconds: u64,
    pub registered_at: u64,
    pub expires_at: u64,
    pub grace_period_ends_at: u64,
    pub transfer_count: u32,
}

impl View for RegistryEntry {
    type V = EntryView;

    open spec fn view(&self) -> EntryView {
        EntryView {
            name: self.name@,
            owner: self.owner,
            resolver: opt_bytes_view(self.resolver),
            target_address: opt_bytes_view(self.target_address),
            metadata_uri: opt_bytes_view(self.metadata_uri),
            ttl_seconds: self.ttl_seconds,
            registered_at: self.registered_at,
            expires_at: self.expires_at,
            grace_period_ends_at: self.grace_period_ends_at,
            transfer_count: self.transfer_count,
        }
    }
}

impl RegistryEntry {
    /// A fresh copy of the entry.
    pub fn duplicate(&self) -> (r: RegistryEntry)
        ensures
            r@ == self@,
    {
        RegistryEntry {
            name: copy_bytes(self.name.as_slice()),
            owner: self.owner,
            resolver: copy_opt_bytes(&self.resolver),
            target_address: copy_opt_bytes(&self.target_address),
            metadata_uri: copy_opt_bytes(&self.metadata_uri),
            ttl_seconds: self.ttl_seconds,
            registered_at: self.registered_at,
            expires_at: self.expires_at,
            grace_period_ends_at: self.grace_period_ends_at,
            transfer_count: self.transfer_count,
        }
    }
}

/// Lifecycle state of a name.
#[derive(Debug, Clone, Copy, PartialEq, Eq, Structural)]
pub enum NameState {
    /// No entry exists for this name.
    Missing,
    /// Registered and not yet expired.
    Active,
    /// Expired but still within the grace period (only the owner may renew).
    GracePeriod,
    /// Past the grace period; anyone may claim/register it.
    Claimable,
}

/// Errors of the registry operations.
#[derive(Debug, Clone, Copy, PartialEq, Eq, Structural)]
pub enum RegistryError {
    AlreadyRegistered,
    NotFound,
    NotYetClaimable,
    NotActive,
    Unauthorized,
    MetadataTooLong,
    Validation,
    InvalidExpiry,
    InvalidGracePeriod,
}

impl RegistryError {
    /// The numeric code the contract reports for this error.
    pub fn code(&self) -> (r: u32)
        ensures
            r == registry_error_code(*self),
    {
        match self {
            RegistryError::AlreadyRegistered => 1,
            RegistryError::NotFound => 2,
            RegistryError::NotYetClaimable => 3,
            RegistryError::NotActive => 4,
            RegistryError::Unauthorized => 5,
            RegistryError::MetadataTooLong => 6,
            RegistryError::Validation => 7,
            RegistryError::InvalidExpiry => 8,
            RegistryError::InvalidGracePeriod => 9,
        }
    }
}

/// Numeric codes of the registry errors.
pub open spec fn registry_error_code(e: RegistryError) -> u32 {
    match e {
        RegistryError::AlreadyRegistered => 1,
        RegistryError::NotFound => 2,
        RegistryError::NotYetClaimable => 3,
        RegistryError::NotActive => 4,
        RegistryError::Unauthorized => 5,
        RegistryError::MetadataTooLong => 6,
        RegistryError::Validation => 7,
        RegistryError::InvalidExpiry => 8,
        RegistryError::InvalidGracePeriod => 9,
    }
}

/// The registry: its entries and its owner index.
pub struct RegistryContract {
    entries: Vec<RegistryEntry>,
    index: Vec<OwnerName>,
}

/// The registry's contents: entries by name, and the owner index in insertion order.
pub struct RegistryView {
    pub entries: Map<Seq<u8>, EntryView>,
    pub index: Seq<(Address, Seq<u8>)>,
}

/// Entries by name, for a sequence of entries with distinct names.
pub open spec fn entries_map(s: Seq<EntryView>) -> Map<Seq<u8>, EntryView> {
    Map::new(
        |n: Seq<u8>| exists|i: int| 0 <= i < s.len() && (#[trigger] s[i]).name == n,
        |n: Seq<u8>| s[choose|i: int| 0 <= i < s.len() && (#[trigger] s[i]).name == n],
    )
}

/// No two entries share a name.
pub open spec fn unique_names(s: Seq<EntryView>) -> bool {
    forall|i: int, j: int|
        0 <= i < s.len() && 0 <= j < s.len() && (#[trigger] s[i]).name == (#[trigger] s[j]).name ==> i == j
}

/// The names the index lists for `owner` that have no entry, or an entry with another owner.
pub open spec fn stale_names(
    idx: Seq<(Address, Seq<u8>)>,
    entries: Map<Seq<u8>, EntryView>,
    owner: Address,
) -> Seq<Seq<u8>>
    decreases idx.len(),
{
    if idx.len() == 0 {
        Seq::empty()
    } else {
        let r = stale_names(idx.drop_last(), entries, owner);
        let (o, n) = idx.last();
        if o == owner && !(entries.contains_key(n) && entries[n].owner == owner) {
            r.push(n)
        } else {
            r
        }
    }
}

/// The entry a fresh registration stores.
pub open spec fn new_entry_view(
    name: Seq<u8>,
    owner: Address,
    target_address: Option<Seq<u8>>,
    metadata_uri: Option<Seq<u8>>,
    now_unix: u64,
    expires_at: u64,
    grace_period_ends_at: u64,
) -> EntryView {
    EntryView {
        name,
        owner,
        resolver: None,
        target_address,
        metadata_uri,
        ttl_seconds: DEFAULT_TTL_SECONDS,
        registered_at: now_unix,
        expires_at,
        grace_period_ends_at,
        transfer_count: 0,
    }
}

/// Metadata URIs may be at most the maximum metadata length.
pub open spec fn metadata_ok(m: Option<Seq<u8>>) -> bool {
    match m {
        Some(v) => v.len() <= MAX_METADATA_URI_LENGTH,
        None => true,
    }
}

/// The lifecycle check for new expiry and grace-period end timestamps.
pub open spec fn lifecycle_result(now_unix: u64, expires_at: u64, grace_period_ends_at: u64) -> Result<(), RegistryError> {
    if !spec_is_active_at(expires_at, now_unix) {
        Err(RegistryError::InvalidExpiry)
    } else if grace_period_ends_at < expires_at {
        Err(RegistryError::InvalidGracePeriod)
    } else {
        Ok(())
    }
}

/// The ownership check for mutating an entry.
pub open spec fn owner_result(e: EntryView, caller: Address, now_unix: u64) -> Result<(), RegistryError> {
    if !spec_is_active_at(e.expires_at, now_unix) {
        Err(RegistryError::NotActive)
    } else if e.owner != caller {
        Err(RegistryError::Unauthorized)
    } else {
        Ok(())
    }
}

/// Lifecycle state of a name at `now_unix`.
pub open spec fn spec_name_state(v: RegistryView, name: Seq<u8>, now_unix: u64) -> NameState {
    if !v.entries.contains_key(name) {
        NameState::Missing
    } else if spec_is_active_at(v.entries[name].expires_at, now_unix) {
        NameState::Active
    } else if spec_is_claimable_at(v.entries[name].grace_period_ends_at, now_unix) {
        NameState::Claimable
    } else {
        NameState::GracePeriod
    }
}

/// What `register` gives (`Ok` carries the view of the registry afterwards).
pub open spec fn register_result(
    v: RegistryView,
    name: Seq<u8>,
    owner: Address,
    target_address: Option<Seq<u8>>,
    metadata_uri: Option<Seq<u8>>,
    now_unix: u64,
    expires_at: u64,
    grace_period_ends_at: u64,
) -> Result<RegistryView, RegistryError> {
    if fqdn_result(name) is Err {
        Err(RegistryError::Validation)
    } else if !metadata_ok(metadata_uri) {
        Err(RegistryError::MetadataTooLong)
    } else if lifecycle_result(now_unix, expires_at, grace_period_ends_at) is Err {
        Err(lifecycle_result(now_unix, expires_at, grace_period_ends_at)->Err_0)
    } else {
        let e = new_entry_view(name, owner, target_address, metadata_uri, now_unix, expires_at, grace_period_ends_at);
        if v.entries.contains_key(name) {
            let old = v.entries[name];
            if spec_is_active_at(old.expires_at, now_unix) {
                Err(RegistryError::AlreadyRegistered)
            } else if !spec_is_claimable_at(old.grace_period_ends_at, now_unix) {
                Err(RegistryError::NotYetClaimable)
            } else {
                Ok(RegistryView {
                    entries: v.entries.insert(name, e),
                    index: add_pair(remove_pair(v.index, (old.owner, name)), (owner, name)),
                })
            }
        } else {
            Ok(RegistryView { entries: v.entries.insert(name, e), index: add_pair(v.index, (owner, name)) })
        }
    }
}

/// Every index pair names an entry held by that owner, and every entry is
/// listed in the index under its owner.
pub open spec fn index_consistent(m: Map<Seq<u8>, EntryView>, idx: Seq<(Address, Seq<u8>)>) -> bool {
    &&& forall|k: int| 0 <= k < idx.len() ==> m.contains_key((#[trigger] idx[k]).1) && m[idx[k].1].owner == idx[k].0
    &&& forall|n: Seq<u8>| #[trigger] m.contains_key(n) ==> idx.contains((m[n].owner, n))
}

impl View for RegistryContract {
    type V = RegistryView;

    /// The registry's contents.
    closed spec fn view(&self) -> RegistryView {
        RegistryView { entries: entries_map(self.entry_views()), index: self.index_view() }
    }
}

impl RegistryContract {
    closed spec fn entry_views(&self) -> Seq<EntryView> {
        self.entries@.map_values(|e: RegistryEntry| e@)
    }

    closed spec fn index_view(&self) -> Seq<(Address, Seq<u8>)> {
        self.index@.map_values(|p: OwnerName| (p.owner, p.name@))
    }

    /// Entries have distinct names, every index pair names an entry held by
    /// that owner, and every entry appears in the index under its owner.
    pub closed spec fn wf(&self) -> bool {
        &&& unique_names(self.entry_views())
        &&& index_consistent(self@.entries, self@.index)
    }
}

proof fn lemma_map_index(s: Seq<EntryView>, i: int)
    requires
        unique_names(s),
        0 <= i < s.len(),
    ensures
        entries_map(s).contains_key(s[i].name),
        entries_map(s)[s[i].name] == s[i],
{
    let n = s[i].name;
    assert(0 <= i < s.len() && s[i].name == n);
    let j = choose|j: int| 0 <= j < s.len() && (#[trigger] s[j]).name == n;
    assert(s[j].name == s[i].name);
}

proof fn lemma_map_update(s: Seq<EntryView>, i: int, e: EntryView)
    requires
        unique_names(s),
        0 <= i < s.len(),
        e.name == s[i].name,
    ensures
        unique_names(s.update(i, e)),
        entries_map(s.update(i, e)) == entries_map(s).insert(e.name, e),
{
    let t = s.update(i, e);
    assert forall|a: int, b: int|
        0 <= a < t.len() && 0 <= b < t.len() && (#[trigger] t[a]).name == (#[trigger] t[b]).name implies a == b by {
        assert(t[a].name == s[a].name);
        assert(t[b].name == s[b].name);
        assert(s[a].name == s[b].name);
    }
    let m1 = entries_map(t);
    let m2 = entries_map(s).insert(e.name, e);
    assert forall|n: Seq<u8>| m1.contains_key(n) <==> m2.contains_key(n) by {
        if m1.contains_key(n) {
            let j = choose|j: int| 0 <= j < t.len() && (#[trigger] t[j]).name == n;
            assert(s[j].name == n);
        }
        if entries_map(s).contains_key(n) {
            let j = choose|j: int| 0 <= j < s.len() && (#[trigger] s[j]).name == n;
            assert(t[j].name == n);
        }
        if n == e.name {
            assert(t[i].name == n);
        }
    }
    assert forall|n: Seq<u8>| m1.contains_key(n) implies m1[n] == m2[n] by {
        let j = choose|j: int| 0 <= j < t.len() && (#[trigger] t[j]).name == n;
        if n == e.name {
            assert(t[i].name == n);
        } else {
            assert(j != i);
            assert(s[j].name == n);
            lemma_map_index(s, j);
        }
    }
    assert(m1 =~= m2);
}

proof fn lemma_map_push(s: Seq<EntryView>, e: EntryView)
    requires
        unique_names(s),
        !entries_map(s).contains_key(e.name),
    ensures
        unique_names(s.push(e)),
        entries_map(s.push(e)) == entries_map(s).insert(e.name, e),
{
    let t = s.push(e);
    assert forall|a: int, b: int|
        0 <= a < t.len() && 0 <= b < t.len() && (#[trigger] t[a]).name == (#[trigger] t[b]).name implies a == b by {
        if a < s.len() && b == s.len() {
            assert(s[a].name == e.name);
        } else if b < s.len() && a == s.len() {
            assert(s[b].name == e.name);
        } else if a < s.len() && b < s.len() {
            assert(s[a].name == s[b].name);
        }
    }
    let m1 = entries_map(t);
    let m2 = entries_map(s).insert(e.name, e);
    assert forall|n: Seq<u8>| m1.contains_key(n) <==> m2.contains_key(n) by {
        if m1.contains_key(n) {
            let j = choose|j: int| 0 <= j < t.len() && (#[trigger] t[j]).name == n;
            if j < s.len() {
                assert(s[j].name == n);
            }
        }
        if entries_map(s).contains_key(n) {
            let j = choose|j: int| 0 <= j < s.len() && (#[trigger] s[j]).name == n;
            assert(t[j].name == n);
        }
        if n == e.name {
            assert(t[s.len() as int].name == n);
        }
    }
    assert forall|n: Seq<u8>| m1.contains_key(n) implies m1[n] == m2[n] by {
        let j = choose|j: int| 0 <= j < t.len() && (#[trigger] t[j]).name == n;
        if n == e.name {
            assert(t[s.len() as int].name == n);
        } else {
            assert(j < s.len());
            assert(s[j].name == n);
            lemma_map_index(s, j);
        }
    }
    assert(m1 =~= m2);
}

proof fn lemma_map_remove(s: Seq<EntryView>, i: int)
    requires
        unique_names(s),
        0 <= i < s.len(),
    ensures
        unique_names(s.remove(i)),
        entries_map(s.remove(i)) == entries_map(s).remove(s[i].name),
{
    let t = s.remove(i);
    let name = s[i].name;
    assert forall|k: int| 0 <= k < t.len() implies #[trigger] t[k] == (if k < i { s[k] } else { s[k + 1] }) by {}
    assert forall|a: int, b: int|
        0 <= a < t.len() && 0 <= b < t.len() && (#[trigger] t[a]).name == (#[trigger] t[b]).name implies a == b by {
        let a1 = if a < i { a } else { a + 1 };
        let b1 = if b < i { b } else { b + 1 };
        assert(s[a1].name == s[b1].name);
    }
    let m1 = entries_map(t);
    let m2 = entries_map(s).remove(name);
    assert forall|n: Seq<u8>| m1.contains_key(n) <==> m2.contains_key(n) by {
        if m1.contains_key(n) {
            let j = choose|j: int| 0 <= j < t.len() && (#[trigger] t[j]).name == n;
            let j1 = if j < i { j } else { j + 1 };
            assert(s[j1].name == n);
            if n == name {
                assert(s[j1].name == s[i].name);
            }
        }
        if m2.contains_key(n) {
            let j = choose|j: int| 0 <= j < s.len() && (#[trigger] s[j]).name == n;
            assert(j != i);
            let j1 = if j < i { j } else { j - 1 };
            assert(t[j1].name == n);
        }
    }
    assert forall|n: Seq<u8>| m1.contains_key(n) implies m1[n] == m2[n] by {
        let j = choose|j: int| 0 <= j < t.len() && (#[trigger] t[j]).name == n;
        let j1 = if j < i { j } else { j + 1 };
        assert(s[j1].name == n);
        lemma_map_index(s, j1);
    }
    assert(m1 =~= m2);
}

/// `index_consistent`, phrased over membership.
proof fn lemma_consistent_by_contains(m: Map<Seq<u8>, EntryView>, idx: Seq<(Address, Seq<u8>)>)
    requires
        forall|q: (Address, Seq<u8>)| #[trigger] idx.contains(q) ==> m.contains_key(q.1) && m[q.1].owner == q.0,
        forall|n: Seq<u8>| #[trigger] m.contains_key(n) ==> idx.contains((m[n].owner, n)),
    ensures
        index_consistent(m, idx),
{
    assert forall|k: int| 0 <= k < idx.len() implies m.contains_key((#[trigger] idx[k]).1) && m[idx[k].1].owner == idx[k].0 by {
        assert(idx.contains(idx[k]));
    }
}

proof fn lemma_consistent_contains(m: Map<Seq<u8>, EntryView>, idx: Seq<(Address, Seq<u8>)>, q: (Address, Seq<u8>))
    requires
        index_consistent(m, idx),
        idx.contains(q),
    ensures
        m.contains_key(q.1) && m[q.1].owner == q.0,
{
    let k = choose|k: int| 0 <= k < idx.len() && idx[k] == q;
    assert(m.contains_key(idx[k].1));
}

/// Re-pointing `name` from its old owner to the owner of `e` keeps the index consistent.
proof fn lemma_reindex_consistent(
    m: Map<Seq<u8>, EntryView>,
    idx: Seq<(Address, Seq<u8>)>,
    name: Seq<u8>,
    e: EntryView,
)
    requires
        index_consistent(m, idx),
        m.contains_key(name),
        e.name == name,
    ensures
        index_consistent(
            m.insert(name, e),
            add_pair(remove_pair(idx, (m[name].owner, name)), (e.owner, name)),
        ),
{
    let old_owner = m[name].owner;
    let m2 = m.insert(name, e);
    let mid = remove_pair(idx, (old_owner, name));
    let idx2 = add_pair(mid, (e.owner, name));
    assert forall|q: (Address, Seq<u8>)| #[trigger] idx2.contains(q) implies m2.contains_key(q.1) && m2[q.1].owner == q.0 by {
        lemma_add_pair_contains(mid, (e.owner, name), q);
        if q != (e.owner, name) {
            lemma_remove_pair_contains(idx, (old_owner, name), q);
            lemma_consistent_contains(m, idx, q);
        }
    }
    assert forall|n: Seq<u8>| #[trigger] m2.contains_key(n) implies idx2.contains((m2[n].owner, n)) by {
        lemma_add_pair_contains(mid, (e.owner, name), (m2[n].owner, n));
        if n != name {
            lemma_remove_pair_contains(idx, (old_owner, name), (m[n].owner, n));
        }
    }
    lemma_consistent_by_contains(m2, idx2);
}

/// Adding a fresh name together with its index pair keeps the index consistent.
proof fn lemma_insert_fresh_consistent(
    m: Map<Seq<u8>, EntryView>,
    idx: Seq<(Address, Seq<u8>)>,
    name: Seq<u8>,
    e: EntryView,
)
    requires
        index_consistent(m, idx),
        !m.contains_key(name),
        e.name == name,
    ensures
        index_consistent(m.insert(name, e), add_pair(idx, (e.owner, name))),
{
    let m2 = m.insert(name, e);
    let idx2 = add_pair(idx, (e.owner, name));
    assert forall|q: (Address, Seq<u8>)| #[trigger] idx2.contains(q) implies m2.contains_key(q.1) && m2[q.1].owner == q.0 by {
        lemma_add_pair_contains(idx, (e.owner, name), q);
        if q != (e.owner, name) {
            lemma_consistent_contains(m, idx, q);
        }
    }
    assert forall|n: Seq<u8>| #[trigger] m2.contains_key(n) implies idx2.contains((m2[n].owner, n)) by {
        lemma_add_pair_contains(idx, (e.owner, name), (m2[n].owner, n));
    }
    lemma_consistent_by_contains(m2, idx2);
}

/// Replacing an entry by one with the same owner keeps the index consistent.
proof fn lemma_same_owner_consistent(
    m: Map<Seq<u8>, EntryView>,
    idx: Seq<(Address, Seq<u8>)>,
    name: Seq<u8>,
    e: EntryView,
)
    requires
        index_consistent(m, idx),
        m.contains_key(name),
        e.owner == m[name].owner,
    ensures
        index_consistent(m.insert(name, e), idx),
{
    let m2 = m.insert(name, e);
    assert forall|q: (Address, Seq<u8>)| #[trigger] idx.contains(q) implies m2.contains_key(q.1) && m2[q.1].owner == q.0 by {
        lemma_consistent_contains(m, idx, q);
    }
    lemma_consistent_by_contains(m2, idx);
}

/// Removing a name together with its index pair keeps the index consistent.
proof fn lemma_remove_consistent(m: Map<Seq<u8>, EntryView>, idx: Seq<(Address, Seq<u8>)>, name: Seq<u8>)
    requires
        index_consistent(m, idx),
        m.contains_key(name),
    ensures
        index_consistent(m.remove(name), remove_pair(idx, (m[name].owner, name))),
{
    let m2 = m.remove(name);
    let idx2 = remove_pair(idx, (m[name].owner, name));
    assert forall|q: (Address, Seq<u8>)| #[trigger] idx2.contains(q) implies m2.contains_key(q.1) && m2[q.1].owner == q.0 by {
        lemma_remove_pair_contains(idx, (m[name].owner, name), q);
        lemma_consistent_contains(m, idx, q);
    }
    assert forall|n: Seq<u8>| #[trigger] m2.contains_key(n) implies idx2.contains((m2[n].owner, n)) by {
        lemma_remove_pair_contains(idx, (m[name].owner, name), (m[n].owner, n));
    }
    lemma_consistent_by_contains(m2, idx2);
}

proof fn lemma_stale_empty(idx: Seq<(Address, Seq<u8>)>, m: Map<Seq<u8>, EntryView>, owner: Address)
    requires
        forall|k: int| 0 <= k < idx.len() ==> m.contains_key((#[trigger] idx[k]).1) && m[idx[k].1].owner == idx[k].0,
    ensures
        stale_names(idx, m, owner) == Seq::<Seq<u8>>::empty(),
    decreases idx.len(),
{
    if idx.len() > 0 {
        let pre = idx.drop_last();
        assert forall|k: int| 0 <= k < pre.len() implies m.contains_key((#[trigger] pre[k]).1) && m[pre[k].1].owner == pre[k].0 by {
            assert(pre[k] == idx[k]);
        }
        lemma_stale_empty(pre, m, owner);
        assert(m.contains_key(idx[idx.len() - 1].1));
    }
}

impl RegistryContract {

    /// An empty registry.
    pub fn new() -> (r: RegistryContract)
        ensures
            r.wf(),
            r@.entries == Map::<Seq<u8>, EntryView>::empty(),
            r@.index == Seq::<(Address, Seq<u8>)>::empty(),
    {
        let r = RegistryContract { entries: Vec::new(), index: Vec::new() };
        assert(r@.entries =~= Map::<Seq<u8>, EntryView>::empty());
        assert(r@.index =~= Seq::<(Address, Seq<u8>)>::empty());
        r
    }

    /// Position of the entry named `name`.
    fn find(&self, name: &[u8]) -> (r: Option<usize>)
        requires
            self.wf(),
        ensures
            match r {
                Some(i) => i < self.entries@.len() && self.entries@[i as int]@.name == name@
                    && self@.entries.contains_key(name@)
                    && self@.entries[name@] == self.entries@[i as int]@,
                None => !self@.entries.contains_key(name@),
            },
    {
        let mut i: usize = 0;
        while i < self.entries.len()
            invariant
                self.wf(),
                i <= self.entries@.len(),
                forall|j: int| 0 <= j < i ==> (#[trigger] self.entries@[j])@.name != name@,
            decreases self.entries@.len() - i,
        {
            if bytes_eq(self.entries[i].name.as_slice(), name) {
                proof {
                    assert(self.entry_views()[i as int] == self.entries@[i as int]@);
                    lemma_map_index(self.entry_views(), i as int);
                }
                return Some(i);
            }
            i += 1;
        }
        proof {
            if self@.entries.contains_key(name@) {
                let j = choose|j: int| 0 <= j < self.entry_views().len() && (#[trigger] self.entry_views()[j]).name == name@;
                assert(self.entries@[j]@.name == name@);
            }
        }
        None
    }

}

/// The existence-and-ownership check that guards updates of `name` by `caller`.
pub open spec fn mutation_check(v: RegistryView, name: Seq<u8>, caller: Address, now_unix: u64) -> Result<(), RegistryError> {
    if !v.entries.contains_key(name) {
        Err(RegistryError::NotFound)
    } else {
        owner_result(v.entries[name], caller, now_unix)
    }
}

/// What `resolve` gives.
pub open spec fn resolve_result(v: RegistryView, name: Seq<u8>, now_unix: u64) -> Result<EntryView, RegistryError> {
    if fqdn_result(name) is Err {
        Err(RegistryError::Validation)
    } else if !v.entries.contains_key(name) {
        Err(RegistryError::NotFound)
    } else if !spec_is_active_at(v.entries[name].expires_at, now_unix) {
        Err(RegistryError::NotActive)
    } else {
        Ok(v.entries[name])
    }
}

/// The checks that guard a renewal of `name` by `caller`.
pub open spec fn renew_check(
    v: RegistryView,
    name: Seq<u8>,
    caller: Address,
    expires_at: u64,
    grace_period_ends_at: u64,
    now_unix: u64,
) -> Result<(), RegistryError> {
    if !v.entries.contains_key(name) {
        Err(RegistryError::NotFound)
    } else if spec_is_claimable_at(v.entries[name].grace_period_ends_at, now_unix) {
        Err(RegistryError::NotActive)
    } else if v.entries[name].owner != caller {
        Err(RegistryError::Unauthorized)
    } else if expires_at < v.entries[name].expires_at {
        Err(RegistryError::InvalidExpiry)
    } else if grace_period_ends_at < v.entries[name].grace_period_ends_at {
        Err(RegistryError::InvalidGracePeriod)
    } else {
        lifecycle_result(now_unix, expires_at, grace_period_ends_at)
    }
}

/// The checks that guard burning `name` on behalf of `caller`.
pub open spec fn burn_check(v: RegistryView, name: Seq<u8>, caller: Address, now_unix: u64) -> Result<(), RegistryError> {
    if !v.entries.contains_key(name) {
        Err(RegistryError::NotFound)
    } else if v.entries[name].owner != caller && !spec_is_claimable_at(v.entries[name].grace_period_ends_at, now_unix) {
        Err(RegistryError::Unauthorized)
    } else {
        Ok(())
    }
}

/// The checks on new expiry and grace-period end timestamps.
fn validate_lifecycle_timestamps(now_unix: u64, expires_at: u64, grace_period_ends_at: u64) -> (r: Result<(), RegistryError>)
    ensures
        r == lifecycle_result(now_unix, expires_at, grace_period_ends_at),
{
    if !is_active_at(expires_at, now_unix) {
        return Err(RegistryError::InvalidExpiry);
    }
    if grace_period_ends_at < expires_at {
        return Err(RegistryError::InvalidGracePeriod);
    }
    Ok(())
}

/// The metadata length check.
fn validate_metadata(metadata_uri: &Option<Vec<u8>>) -> (r: Result<(), RegistryError>)
    ensures
        r is Ok <==> metadata_ok(opt_bytes_view(*metadata_uri)),
        r is Err ==> r == Err::<(), RegistryError>(RegistryError::MetadataTooLong),
{
    match metadata_uri {
        Some(v) => if v.len() > MAX_METADATA_URI_LENGTH {
            Err(RegistryError::MetadataTooLong)
        } else {
            Ok(())
        },
        None => Ok(()),
    }
}

impl RegistryContract {
    proof fn lemma_views_update(&self, old_views: Seq<EntryView>, old_entries: Seq<RegistryEntry>, i: int, e: RegistryEntry)
        requires
            old_views == old_entries.map_values(|x: RegistryEntry| x@),
            0 <= i < old_entries.len(),
            self.entries@ == old_entries.update(i, e),
        ensures
            self.entry_views() == old_views.update(i, e@),
    {
        assert(self.entry_views() =~= old_views.update(i, e@));
    }

    /// Registers `name` for `owner`, replacing an entry whose grace period has ended.
    pub fn register(
        &mut self,
        name: &[u8],
        owner: Address,
        target_address: Option<Vec<u8>>,
        metadata_uri: Option<Vec<u8>>,
        now_unix: u64,
        expires_at: u64,
        grace_period_ends_at: u64,
    ) -> (r: Result<(), RegistryError>)
        requires
            old(self).wf(),
        ensures
            final(self).wf(),
            match register_result(
                old(self)@, name@, owner, opt_bytes_view(target_address), opt_bytes_view(metadata_uri),
                now_unix, expires_at, grace_period_ends_at,
            ) {
                Ok(v) => r is Ok && final(self)@ == v,
                Err(e) => r == Err::<(), RegistryError>(e) && final(self)@ == old(self)@,
            },
    {
        if validate_fqdn_soroban(name).is_err() {
            return Err(RegistryError::Validation);
        }
        match validate_metadata(&metadata_uri) {
            Err(e) => return Err(e),
            Ok(()) => {},
        }
        match validate_lifecycle_timestamps(now_unix, expires_at, grace_period_ends_at) {
            Err(e) => return Err(e),
            Ok(()) => {},
        }
        let ghost tv = opt_bytes_view(target_address);
        let ghost mv = opt_bytes_view(metadata_uri);
        let entry = RegistryEntry {
            name: copy_bytes(name),
            owner,
            resolver: None,
            target_address,
            metadata_uri,
            ttl_seconds: DEFAULT_TTL_SECONDS,
            registered_at: now_unix,
            expires_at,
            grace_period_ends_at,
            transfer_count: 0,
        };
        assert(entry@ == new_entry_view(name@, owner, tv, mv, now_unix, expires_at, grace_period_ends_at));
        let ghost old_views = self.entry_views();
        let ghost old_entries = self.entries@;
        let ghost old_m = self@.entries;
        let ghost old_idx = self@.index;
        match self.find(name) {
            Some(i) => {
                if is_active_at(self.entries[i].expires_at, now_unix) {
                    return Err(RegistryError::AlreadyRegistered);
                }
                if !is_claimable_at(self.entries[i].grace_period_ends_at, now_unix) {
                    return Err(RegistryError::NotYetClaimable);
                }
                let old_owner = self.entries[i].owner;
                let ghost e = entry@;
                self.entries[i] = entry;
                proof {
                    self.lemma_views_update(old_views, old_entries, i as int, self.entries@[i as int]);
                    lemma_map_update(old_views, i as int, e);
                    lemma_reindex_consistent(old_m, old_idx, name@, e);
                }
                index_remove(&mut self.index, old_owner, name);
                index_add(&mut self.index, owner, name);
            },
            None => {
                let ghost e = entry@;
                self.entries.push(entry);
                proof {
                    assert(self.entry_views() =~= old_views.push(e));
                    lemma_map_push(old_views, e);
                    lemma_insert_fresh_consistent(old_m, old_idx, name@, e);
                }
                index_add(&mut self.index, owner, name);
            },
        }
        Ok(())
    }

    /// The active entry of `name`.
    pub fn resolve(&self, name: &[u8], now_unix: u64) -> (r: Result<RegistryEntry, RegistryError>)
        requires
            self.wf(),
        ensures
            match resolve_result(self@, name@, now_unix) {
                Ok(e) => r is Ok && r->Ok_0@ == e,
                Err(e) => r == Err::<RegistryEntry, RegistryError>(e),
            },
    {
        if validate_fqdn_soroban(name).is_err() {
            return Err(RegistryError::Validation);
        }
        match self.find(name) {
            None => Err(RegistryError::NotFound),
            Some(i) => {
                if !is_active_at(self.entries[i].expires_at, now_unix) {
                    return Err(RegistryError::NotActive);
                }
                Ok(self.entries[i].duplicate())
            },
        }
    }

    /// Lifecycle state of `name` at `now_unix`; unknown names are `Missing`.
    pub fn name_state(&self, name: &[u8], now_unix: u64) -> (r: NameState)
        requires
            self.wf(),
        ensures
            r == spec_name_state(self@, name@, now_unix),
    {
        match self.find(name) {
            None => NameState::Missing,
            Some(i) => {
                if is_active_at(self.entries[i].expires_at, now_unix) {
                    NameState::Active
                } else if is_claimable_at(self.entries[i].grace_period_ends_at, now_unix) {
                    NameState::Claimable
                } else {
                    NameState::GracePeriod
                }
            },
        }
    }

    /// Whether `caller` currently owns the active name `name`.
    pub fn check_owner(&self, name: &[u8], caller: Address, now_unix: u64) -> (r: Result<(), RegistryError>)
        requires
            self.wf(),
        ensures
            r == mutation_check(self@, name@, caller, now_unix),
    {
        match self.find(name) {
            None => Err(RegistryError::NotFound),
            Some(i) => Self::ensure_owner(&self.entries[i], caller, now_unix),
        }
    }

    fn ensure_owner(entry: &RegistryEntry, caller: Address, now_unix: u64) -> (r: Result<(), RegistryError>)
        ensures
            r == owner_result(entry@, caller, now_unix),
    {
        if !is_active_at(entry.expires_at, now_unix) {
            return Err(RegistryError::NotActive);
        }
        if entry.owner != caller {
            return Err(RegistryError::Unauthorized);
        }
        Ok(())
    }

    /// Transfers the active name `name` from its owner `caller` to `new_owner`.
    pub fn transfer(&mut self, name: &[u8], caller: Address, new_owner: Address, now_unix: u64) -> (r: Result<(), RegistryError>)
        requires
            old(self).wf(),
        ensures
            final(self).wf(),
            r == mutation_check(old(self)@, name@, caller, now_unix),
            r is Ok ==> final(self)@ == (RegistryView {
                entries: old(self)@.entries.insert(name@, EntryView {
                    owner: new_owner,
                    transfer_count: if old(self)@.entries[name@].transfer_count == u32::MAX {
                        u32::MAX
                    } else {
                        (old(self)@.entries[name@].transfer_count + 1) as u32
                    },
                    ..old(self)@.entries[name@]
                }),
                index: add_pair(remove_pair(old(self)@.index, (caller, name@)), (new_owner, name@)),
            }),
            r is Err ==> final(self)@ == old(self)@,
    {
        let i = match self.find(name) {
            None => return Err(RegistryError::NotFound),
            Some(i) => i,
        };
        match Self::ensure_owner(&self.entries[i], caller, now_unix) {
            Err(e) => return Err(e),
            Ok(()) => {},
        }
        let ghost old_views = self.entry_views();
        let ghost old_entries = self.entries@;
        let ghost old_m = self@.entries;
        let ghost old_idx = self@.index;
        let mut entry = self.entries[i].duplicate();
        let old_owner = entry.owner;
        entry.owner = new_owner;
        entry.transfer_count = entry.transfer_count.saturating_add(1);
        let ghost e = entry@;
        self.entries[i] = entry;
        proof {
            self.lemma_views_update(old_views, old_entries, i as int, self.entries@[i as int]);
            lemma_map_update(old_views, i as int, e);
            lemma_reindex_consistent(old_m, old_idx, name@, e);
        }
        index_remove(&mut self.index, old_owner, name);
        index_add(&mut self.index, new_owner, name);
        Ok(())
    }

    /// Replaces the entry at `i` by `entry`, which keeps its name and owner.
    fn replace_same_owner(&mut self, i: usize, entry: RegistryEntry)
        requires
            old(self).wf(),
            i < old(self).entries@.len(),
            entry@.name == old(self).entries@[i as int]@.name,
            entry@.owner == old(self).entries@[i as int]@.owner,
        ensures
            final(self).wf(),
            final(self)@ == (RegistryView {
                entries: old(self)@.entries.insert(entry@.name, entry@),
                index: old(self)@.index,
            }),
    {
        let ghost old_views = self.entry_views();
        let ghost old_entries = self.entries@;
        let ghost old_m = self@.entries;
        let ghost e = entry@;
        proof {
            lemma_map_index(old_views, i as int);
        }
        self.entries[i] = entry;
        proof {
            self.lemma_views_update(old_views, old_entries, i as int, self.entries@[i as int]);
            lemma_map_update(old_views, i as int, e);
            lemma_same_owner_consistent(old_m, self@.index, e.name, e);
        }
    }

    /// Sets the resolver of the active name `name`, owned by `caller`.
    pub fn set_resolver(&mut self, name: &[u8], caller: Address, resolver: Option<Vec<u8>>, now_unix: u64) -> (r: Result<(), RegistryError>)
        requires
            old(self).wf(),
        ensures
            final(self).wf(),
            r == mutation_check(old(self)@, name@, caller, now_unix),
            r is Ok ==> final(self)@ == (RegistryView {
                entries: old(self)@.entries.insert(name@, EntryView { resolver: opt_bytes_view(resolver), ..old(self)@.entries[name@] }),
                index: old(self)@.index,
            }),
            r is Err ==> final(self)@ == old(self)@,
    {
        let i = match self.find(name) {
            None => return Err(RegistryError::NotFound),
            Some(i) => i,
        };
        match Self::ensure_owner(&self.entries[i], caller, now_unix) {
            Err(e) => return Err(e),
            Ok(()) => {},
        }
        let mut entry = self.entries[i].duplicate();
        entry.resolver = resolver;
        self.replace_same_owner(i, entry);
        Ok(())
    }

    /// Sets the target address of the active name `name`, owned by `caller`.
    pub fn set_target_address(&mut self, name: &[u8], caller: Address, target_address: Option<Vec<u8>>, now_unix: u64) -> (r: Result<(), RegistryError>)
        requires
            old(self).wf(),
        ensures
            final(self).wf(),
            r == mutation_check(old(self)@, name@, caller, now_unix),
            r is Ok ==> final(self)@ == (RegistryView {
                entries: old(self)@.entries.insert(name@, EntryView { target_address: opt_bytes_view(target_address), ..old(self)@.entries[name@] }),
                index: old(self)@.index,
            }),
            r is Err ==> final(self)@ == old(self)@,
    {
        let i = match self.find(name) {
            None => return Err(RegistryError::NotFound),
            Some(i) => i,
        };
        match Self::ensure_owner(&self.entries[i], caller, now_unix) {
            Err(e) => return Err(e),
            Ok(()) => {},
        }
        let mut entry = self.entries[i].duplicate();
        entry.target_address = target_address;
        self.replace_same_owner(i, entry);
        Ok(())
    }

    /// Sets the metadata URI of the active name `name`, owned by `caller`.
    pub fn set_metadata(&mut self, name: &[u8], caller: Address, metadata_uri: Option<Vec<u8>>, now_unix: u64) -> (r: Result<(), RegistryError>)
        requires
            old(self).wf(),
        ensures
            final(self).wf(),
            r == (if !metadata_ok(opt_bytes_view(metadata_uri)) {
                Err(RegistryError::MetadataTooLong)
            } else {
                mutation_check(old(self)@, name@, caller, now_unix)
            }),
            r is Ok ==> final(self)@ == (RegistryView {
                entries: old(self)@.entries.insert(name@, EntryView { metadata_uri: opt_bytes_view(metadata_uri), ..old(self)@.entries[name@] }),
                index: old(self)@.index,
            }),
            r is Err ==> final(self)@ == old(self)@,
    {
        match validate_metadata(&metadata_uri) {
            Err(e) => return Err(e),
            Ok(()) => {},
        }
        let i = match self.find(name) {
            None => return Err(RegistryError::NotFound),
            Some(i) => i,
        };
        match Self::ensure_owner(&self.entries[i], caller, now_unix) {
            Err(e) => return Err(e),
            Ok(()) => {},
        }
        let mut entry = self.entries[i].duplicate();
        entry.metadata_uri = metadata_uri;
        self.replace_same_owner(i, entry);
        Ok(())
    }

    /// Extends the expiry and grace-period end of `name`, owned by `caller`,
    /// as long as the name has not become claimable.
    pub fn renew(&mut self, name: &[u8], caller: Address, expires_at: u64, grace_period_ends_at: u64, now_unix: u64) -> (r: Result<(), RegistryError>)
        requires
            old(self).wf(),
        ensures
            final(self).wf(),
            r == renew_check(old(self)@, name@, caller, expires_at, grace_period_ends_at, now_unix),
            r is Ok ==> final(self)@ == (RegistryView {
                entries: old(self)@.entries.insert(name@, EntryView { expires_at, grace_period_ends_at, ..old(self)@.entries[name@] }),
                index: old(self)@.index,
            }),
            r is Err ==> final(self)@ == old(self)@,
    {
        let i = match self.find(name) {
            None => return Err(RegistryError::NotFound),
            Some(i) => i,
        };
        if is_claimable_at(self.entries[i].grace_period_ends_at, now_unix) {
            return Err(RegistryError::NotActive);
        }
        if self.entries[i].owner != caller {
            return Err(RegistryError::Unauthorized);
        }
        if expires_at < self.entries[i].expires_at {
            return Err(RegistryError::InvalidExpiry);
        }
        if grace_period_ends_at < self.entries[i].grace_period_ends_at {
            return Err(RegistryError::InvalidGracePeriod);
        }
        match validate_lifecycle_timestamps(now_unix, expires_at, grace_period_ends_at) {
            Err(e) => return Err(e),
            Ok(()) => {},
        }
        let mut entry = self.entries[i].duplicate();
        entry.expires_at = expires_at;
        entry.grace_period_ends_at = grace_period_ends_at;
        self.replace_same_owner(i, entry);
        Ok(())
    }

    /// The names held by `owner`, in the order they were acquired.
    pub fn names_for_owner(&self, owner: Address) -> (r: Vec<Vec<u8>>)
        ensures
            bytes_seq_view(r@) == names_of(self@.index, owner),
    {
        index_names(&self.index, owner)
    }

    /// Names the owner index lists for `owner` that are missing from storage or
    /// held by someone else. A well-formed registry always answers empty.
    pub fn audit_owner_index(&self, owner: Address) -> (r: Vec<Vec<u8>>)
        requires
            self.wf(),
        ensures
            bytes_seq_view(r@) == stale_names(self@.index, self@.entries, owner),
            r@.len() == 0,
    {
        let ghost v = self@.index;
        let ghost m = self@.entries;
        let mut out: Vec<Vec<u8>> = Vec::new();
        let mut i: usize = 0;
        assert(v.take(0) =~= Seq::<(Address, Seq<u8>)>::empty());
        while i < self.index.len()
            invariant
                self.wf(),
                i <= self.index@.len(),
                v == self@.index,
                m == self@.entries,
                v == index_pairs(self.index@),
                bytes_seq_view(out@) == stale_names(v.take(i as int), m, owner),
            decreases self.index@.len() - i,
        {
            assert(v.take(i as int + 1).drop_last() =~= v.take(i as int));
            assert(v.take(i as int + 1).last() == v[i as int]);
            if self.index[i].owner == owner {
                let stale = match self.find(self.index[i].name.as_slice()) {
                    None => true,
                    Some(j) => self.entries[j].owner != owner,
                };
                if stale {
                    let ghost before = out@;
                    out.push(copy_bytes(self.index[i].name.as_slice()));
                    assert(bytes_seq_view(out@) =~= bytes_seq_view(before).push(v[i as int].1));
                }
            }
            i += 1;
        }
        assert(v.take(self.index@.len() as int) =~= v);
        proof {
            lemma_stale_empty(v, m, owner);
        }
        out
    }

    /// Removes `name`. Its owner may burn it at any time; anyone may once it is claimable.
    pub fn burn(&mut self, name: &[u8], caller: Address, now_unix: u64) -> (r: Result<(), RegistryError>)
        requires
            old(self).wf(),
        ensures
            final(self).wf(),
            r == burn_check(old(self)@, name@, caller, now_unix),
            r is Ok ==> final(self)@ == (RegistryView {
                entries: old(self)@.entries.remove(name@),
                index: remove_pair(old(self)@.index, (old(self)@.entries[name@].owner, name@)),
            }),
            r is Err ==> final(self)@ == old(self)@,
    {
        let i = match self.find(name) {
            None => return Err(RegistryError::NotFound),
            Some(i) => i,
        };
        if self.entries[i].owner != caller && !is_claimable_at(self.entries[i].grace_period_ends_at, now_unix) {
            return Err(RegistryError::Unauthorized);
        }
        let ghost old_views = self.entry_views();
        let ghost old_m = self@.entries;
        let ghost old_idx = self@.index;
        let owner = self.entries[i].owner;
        let _removed = self.entries.remove(i);
        proof {
            assert(self.entry_views() =~= old_views.remove(i as int));
            lemma_map_remove(old_views, i as int);
            lemma_remove_consistent(old_m, old_idx, name@);
        }
        index_remove(&mut self.index, owner, name);
        Ok(())
    }

    /// Whether admin recovery is supported (it is not).
    pub fn supports_admin_recovery(&self) -> (r: bool)
        ensures
            r == ADMIN_RECOVERY_SUPPORTED,
    {
        ADMIN_RECOVERY_SUPPORTED
    }

    /// The persistent-storage schema version.
    pub fn storage_schema_version(&self) -> (r: u32)
        ensures
            r == STORAGE_SCHEMA_VERSION,
    {
        STORAGE_SCHEMA_VERSION
    }
}

/// The owner index lists a name under an owner exactly when the name is
/// registered to that owner.
pub proof fn lemma_owner_index_matches_entries(reg: &RegistryContract, owner: Address, name: Seq<u8>)
    requires
        reg.wf(),
    ensures
        names_of(reg@.index, owner).contains(name) <==> (reg@.entries.contains_key(name)
            && reg@.entries[name].owner == owner),
{
    lemma_names_of_contains(reg@.index, owner, name);
    if reg@.index.contains((owner, name)) {
        lemma_consistent_contains(reg@.entries, reg@.index, (owner, name));
    }
}

/// The consistency audit of a registry never reports a stale name.
pub proof fn lemma_audit_finds_nothing(reg: &RegistryContract, owner: Address)
    requires
        reg.wf(),
    ensures
        stale_names(reg@.index, reg@.entries, owner) == Seq::<Seq<u8>>::empty(),
{
    lemma_stale_empty(reg@.index, reg@.entries, owner);
}

/// A successful registration is immediately resolvable, returns the stored
/// entry, and reports the name as active.
pub proof fn lemma_register_then_resolve(
    v: RegistryView,
    name: Seq<u8>,
    owner: Address,
    target_address: Option<Seq<u8>>,
    metadata_uri: Option<Seq<u8>>,
    now_unix: u64,
    expires_at: u64,
    grace_period_ends_at: u64,
)
    requires
        register_result(v, name, owner, target_address, metadata_uri, now_unix, expires_at, grace_period_ends_at) is Ok,
    ensures
        ({
            let after = register_result(v, name, owner, target_address, metadata_uri, now_unix, expires_at, grace_period_ends_at)->Ok_0;
            &&& resolve_result(after, name, now_unix) == Ok::<EntryView, RegistryError>(
                new_entry_view(name, owner, target_address, metadata_uri, now_unix, expires_at, grace_period_ends_at))
            &&& spec_name_state(after, name, now_unix) == NameState::Active
        }),
{
}

/// Registering a name that is still active is refused, and so is registering
/// one that is in its grace period; either way the registry is unchanged.
pub proof fn lemma_register_refuses_held_names(
    v: RegistryView,
    name: Seq<u8>,
    owner: Address,
    target_address: Option<Seq<u8>>,
    metadata_uri: Option<Seq<u8>>,
    now_unix: u64,
    expires_at: u64,
    grace_period_ends_at: u64,
)
    requires
        fqdn_result(name) is Ok,
        metadata_ok(metadata_uri),
        lifecycle_result(now_unix, expires_at, grace_period_ends_at) is Ok,
        spec_name_state(v, name, now_unix) == NameState::Active || spec_name_state(v, name, now_unix) == NameState::GracePeriod,
    ensures
        register_result(v, name, owner, target_address, metadata_uri, now_unix, expires_at, grace_period_ends_at)
            == Err::<RegistryView, RegistryError>(if spec_name_state(v, name, now_unix) == NameState::Active {
                RegistryError::AlreadyRegistered
            } else {
                RegistryError::NotYetClaimable
            }),
{
}

/// For a well-formed name, `resolve` succeeds exactly when the name's state is `Active`.
pub proof fn lemma_resolve_agrees_with_state(v: RegistryView, name: Seq<u8>, now_unix: u64)
    requires
        fqdn_result(name) is Ok,
    ensures
        (resolve_result(v, name, now_unix) is Ok) <==> (spec_name_state(v, name, now_unix) == NameState::Active),
        spec_name_state(v, name, now_unix) == NameState::Missing ==> resolve_result(v, name, now_unix)
            == Err::<EntryView, RegistryError>(RegistryError::NotFound),
{
}

/// After a successful transfer the name is listed under the new owner only.
pub proof fn lemma_transfer_moves_name(after: &RegistryContract, caller: Address, new_owner: Address, name: Seq<u8>)
    requires
        after.wf(),
        after@.entries.contains_key(name),
        after@.entries[name].owner == new_owner,
        caller != new_owner,
    ensures
        names_of(after@.index, new_owner).contains(name),
        !names_of(after@.index, caller).contains(name),
{
    lemma_owner_index_matches_entries(after, new_owner, name);
    lemma_owner_index_matches_entries(after, caller, name);
}

/// A successful renewal never shortens the expiry or the grace period.
pub proof fn lemma_renew_never_shortens(
    v: RegistryView,
    name: Seq<u8>,
    caller: Address,
    expires_at: u64,
    grace_period_ends_at: u64,
    now_unix: u64,
)
    requires
        renew_check(v, name, caller, expires_at, grace_period_ends_at, now_unix) is Ok,
    ensures
        v.entries.contains_key(name),
        v.entries[name].owner == caller,
        expires_at >= v.entries[name].expires_at,
        grace_period_ends_at >= v.entries[name].grace_period_ends_at,
        grace_period_ends_at >= expires_at >= now_unix,
{
}


/// The owner may renew a name until it becomes claimable, also after its
/// expiry while its grace period runs: a renewal by the owner at a time no
/// later than the end of the grace period, to an expiry and grace end that are
/// not earlier than the present ones, with `now <= expiry <= grace end`,
/// succeeds.
pub proof fn lemma_owner_renews_until_claimable(
    v: RegistryView,
    name: Seq<u8>,
    caller: Address,
    expires_at: u64,
    grace_period_ends_at: u64,
    now_unix: u64,
)
    requires
        v.entries.contains_key(name),
        v.entries[name].owner == caller,
        now_unix <= v.entries[name].grace_period_ends_at,
        expires_at >= v.entries[name].expires_at,
        grace_period_ends_at >= v.entries[name].grace_period_ends_at,
        now_unix <= expires_at,
        expires_at <= grace_period_ends_at,
    ensures
        renew_check(v, name, caller, expires_at, grace_period_ends_at, now_unix) == Ok::<(), RegistryError>(()),
{
}

/// Once the grace period is over, nobody can renew the name.
pub proof fn lemma_no_renewal_once_claimable(
    v: RegistryView,
    name: Seq<u8>,
    caller: Address,
    expires_at: u64,
    grace_period_ends_at: u64,
    now_unix: u64,
)
    requires
        v.entries.contains_key(name),
        now_unix > v.entries[name].grace_period_ends_at,
    ensures
        renew_check(v, name, caller, expires_at, grace_period_ends_at, now_unix) == Err::<(), RegistryError>(RegistryError::NotActive),
{
}

} // verus!
