//! The cross-chain bridge: an admin-curated registry of supported destination
//! chains with their resolver endpoints, routes registered for supported chains,
//! and the GMP messages sent along a route.
use vstd::prelude::*;
use vstd::utf8::{decode_utf8, valid_utf8};
use crate::bytes::{bytes_eq, copy_bytes};
use crate::keyed::{
    distinct_keys, has_key, keyed_map, keys_of, lemma_keyed_absent, lemma_keyed_index, lemma_keyed_push,
    lemma_keyed_remove, lemma_keyed_update,
};
use crate::label::{chain_name_result, fqdn_result, validate_chain_name_soroban, validate_fqdn_soroban};
use crate::registry::Address;

verus! {

/// Version of the bridge contract code.
pub const CONTRACT_VERSION: u32 = 1;

/// A route to a destination chain's resolver.
#[derive(Clone, Debug, PartialEq, Eq)]
pub struct BridgeRoute {
    pub destination_chain: Vec<u8>,
    pub destination_resolver: Vec<u8>,
    pub gateway: Vec<u8>,
}

/// The bytes of a route.
pub struct RouteView {
    pub destination_chain: Seq<u8>,
    pub destination_resolver: Seq<u8>,
    pub gateway: Seq<u8>,
}

impl View for BridgeRoute {
    type V = RouteView;

    open spec fn view(&self) -> RouteView {
        RouteView {
            destination_chain: self.destination_chain@,
            destination_resolver: self.destination_resolver@,
            gateway: self.gateway@,
        }
    }
}

/// A destination chain registered by the admin with its resolver endpoint.
#[derive(Clone, Debug, PartialEq, Eq)]
pub struct SupportedChain {
    pub chain_id: Vec<u8>,
    pub resolver_address: Vec<u8>,
}

/// Errors of the bridge.
#[derive(Copy, Clone, Debug, PartialEq, Eq, Structural)]
pub enum BridgeError {
    Validation,
    UnsupportedChain,
    UpgradeFailed,
    Unauthorized,
    NotFound,
    AlreadyExists,
}

/// Numeric codes of the bridge errors.
pub open spec fn bridge_error_code(e: BridgeError) -> u32 {
    match e {
        BridgeError::Validation => 1,
        BridgeError::UnsupportedChain => 2,
        BridgeError::UpgradeFailed => 3,
        BridgeError::Unauthorized => 4,
        BridgeError::NotFound => 5,
        BridgeError::AlreadyExists => 6,
    }
}

impl BridgeError {
    /// The numeric code the contract reports for this error.
    pub fn code(&self) -> (r: u32)
        ensures
            r == bridge_error_code(*self),
    {
        match self {
            BridgeError::Validation => 1,
            BridgeError::UnsupportedChain => 2,
            BridgeError::UpgradeFailed => 3,
            BridgeError::Unauthorized => 4,
            BridgeError::NotFound => 5,
            BridgeError::AlreadyExists => 6,
        }
    }
}

/// The bridge's storage.
pub struct BridgeContract {
    admin: Option<Address>,
    version: Option<u32>,
    wasm_hash: Option<Vec<u8>>,
    supported: Vec<SupportedChain>,
    routes: Vec<BridgeRoute>,
}

/// The bridge's storage as values: the admin, the stored code version and code
/// hash, the supported chains (id to resolver) and the list of their ids in the
/// order they were added, and the routes by chain.
pub struct BridgeView {
    pub admin: Option<Address>,
    pub version: Option<u32>,
    pub wasm_hash: Option<Seq<u8>>,
    pub supported: Map<Seq<u8>, Seq<u8>>,
    pub chain_ids: Seq<Seq<u8>>,
    pub routes: Map<Seq<u8>, RouteView>,
}

/// The `(chain id, resolver)` pairs of a list of supported chains.
pub open spec fn chain_pairs(s: Seq<SupportedChain>) -> Seq<(Seq<u8>, Seq<u8>)> {
    s.map_values(|c: SupportedChain| (c.chain_id@, c.resolver_address@))
}

/// The `(chain, route)` pairs of a list of routes.
pub open spec fn route_pairs(s: Seq<BridgeRoute>) -> Seq<(Seq<u8>, RouteView)> {
    s.map_values(|r: BridgeRoute| (r.destination_chain@, r@))
}

impl View for BridgeContract {
    type V = BridgeView;

    closed spec fn view(&self) -> BridgeView {
        BridgeView {
            admin: self.admin,
            version: self.version,
            wasm_hash: match self.wasm_hash {
                Some(h) => Some(h@),
                None => None,
            },
            supported: keyed_map(chain_pairs(self.supported@)),
            chain_ids: keys_of(chain_pairs(self.supported@)),
            routes: keyed_map(route_pairs(self.routes@)),
        }
    }
}

/// The route that registering `chain` with resolver `resolver` stores.
pub open spec fn route_for(chain: Seq<u8>, resolver: Seq<u8>) -> RouteView {
    RouteView { destination_chain: chain, destination_resolver: resolver, gateway: Seq::empty() }
}

/// Every route leads to a supported chain, with that chain's resolver and no gateway.
pub open spec fn routes_follow_supported(v: BridgeView) -> bool {
    forall|k: Seq<u8>| #[trigger] v.routes.contains_key(k) ==> v.supported.contains_key(k)
        && v.routes[k] == route_for(k, v.supported[k])
}

impl BridgeContract {
    /// Distinct chain ids, distinct route chains, and routes that follow the
    /// supported chains.
    pub closed spec fn wf(&self) -> bool {
        &&& distinct_keys(chain_pairs(self.supported@))
        &&& distinct_keys(route_pairs(self.routes@))
        &&& routes_follow_supported(self@)
    }

    /// An empty bridge: no admin, no chains, no routes.
    pub fn new() -> (r: BridgeContract)
        ensures
            r.wf(),
            r@.admin is None,
            r@.version is None,
            r@.wasm_hash is None,
            r@.supported == Map::<Seq<u8>, Seq<u8>>::empty(),
            r@.chain_ids == Seq::<Seq<u8>>::empty(),
            r@.routes == Map::<Seq<u8>, RouteView>::empty(),
    {
        let r = BridgeContract { admin: None, version: None, wasm_hash: None, supported: Vec::new(), routes: Vec::new() };
        assert(r@.supported =~= Map::<Seq<u8>, Seq<u8>>::empty());
        assert(r@.chain_ids =~= Seq::<Seq<u8>>::empty());
        assert(r@.routes =~= Map::<Seq<u8>, RouteView>::empty());
        r
    }

    /// The version of this contract's code.
    pub fn version() -> (r: u32)
        ensures
            r == CONTRACT_VERSION,
    {
        CONTRACT_VERSION
    }

    /// Sets the admin once; a second call fails with `Validation`.
    pub fn initialize(&mut self, admin: Address) -> (r: Result<(), BridgeError>)
        requires
            old(self).wf(),
        ensures
            final(self).wf(),
            old(self)@.admin is Some ==> r == Err::<(), BridgeError>(BridgeError::Validation) && final(self)@ == old(self)@,
            old(self)@.admin is None ==> r is Ok && final(self)@ == (BridgeView {
                admin: Some(admin),
                version: Some(CONTRACT_VERSION),
                ..old(self)@
            }),
    {
        if self.admin.is_some() {
            return Err(BridgeError::Validation);
        }
        self.admin = Some(admin);
        self.version = Some(CONTRACT_VERSION);
        Ok(())
    }

    /// The stored code version, or this code's version when none is stored.
    pub fn get_version(&self) -> (r: u32)
        ensures
            r == match self@.version {
                Some(v) => v,
                None => CONTRACT_VERSION,
            },
    {
        match self.version {
            Some(v) => v,
            None => CONTRACT_VERSION,
        }
    }

    /// Replaces the code and stores the target version taken from
    /// `migration_data`; fails with `UpgradeFailed` before initialization.
    pub fn upgrade(&mut self, new_wasm_hash: &[u8], migration_data: &[u8]) -> (r: Result<(), BridgeError>)
        requires
            old(self).wf(),
        ensures
            final(self).wf(),
            old(self)@.admin is None ==> r == Err::<(), BridgeError>(BridgeError::UpgradeFailed) && final(self)@ == old(self)@,
            old(self)@.admin is Some ==> r is Ok && final(self)@ == (BridgeView {
                version: Some(target_version(migration_data@)),
                wasm_hash: Some(new_wasm_hash@),
                ..old(self)@
            }),
    {
        if self.admin.is_none() {
            return Err(BridgeError::UpgradeFailed);
        }
        let target = decode_target_version(migration_data);
        self.version = Some(target);
        self.wasm_hash = Some(copy_bytes(new_wasm_hash));
        Ok(())
    }

    fn find_supported(&self, chain_id: &[u8]) -> (r: Option<usize>)
        ensures
            match r {
                Some(i) => i < self.supported@.len() && chain_pairs(self.supported@)[i as int].0 == chain_id@,
                None => !has_key(chain_pairs(self.supported@), chain_id@),
            },
    {
        let mut i: usize = 0;
        while i < self.supported.len()
            invariant
                i <= self.supported@.len(),
                forall|j: int| 0 <= j < i ==> (#[trigger] chain_pairs(self.supported@)[j]).0 != chain_id@,
            decreases self.supported@.len() - i,
        {
            if bytes_eq(self.supported[i].chain_id.as_slice(), chain_id) {
                return Some(i);
            }
            i += 1;
        }
        None
    }

    fn find_route(&self, chain: &[u8]) -> (r: Option<usize>)
        ensures
            match r {
                Some(i) => i < self.routes@.len() && route_pairs(self.routes@)[i as int].0 == chain@,
                None => !has_key(route_pairs(self.routes@), chain@),
            },
    {
        let mut i: usize = 0;
        while i < self.routes.len()
            invariant
                i <= self.routes@.len(),
                forall|j: int| 0 <= j < i ==> (#[trigger] route_pairs(self.routes@)[j]).0 != chain@,
            decreases self.routes@.len() - i,
        {
            if bytes_eq(self.routes[i].destination_chain.as_slice(), chain) {
                return Some(i);
            }
            i += 1;
        }
        None
    }
}

/// What registering a route to `chain` gives.
pub open spec fn register_chain_result(v: BridgeView, chain: Seq<u8>) -> Result<BridgeView, BridgeError> {
    if chain_name_result(chain) is Err {
        Err(BridgeError::Validation)
    } else if !v.supported.contains_key(chain) {
        Err(BridgeError::UnsupportedChain)
    } else if v.supported[chain].len() == 0 {
        Err(BridgeError::Validation)
    } else {
        Ok(BridgeView { routes: v.routes.insert(chain, route_for(chain, v.supported[chain])), ..v })
    }
}

/// What adding a supported chain gives.
pub open spec fn add_chain_result(v: BridgeView, chain_id: Seq<u8>, resolver: Seq<u8>) -> Result<BridgeView, BridgeError> {
    if v.admin is None {
        Err(BridgeError::Validation)
    } else if chain_name_result(chain_id) is Err {
        Err(BridgeError::Validation)
    } else if resolver.len() == 0 {
        Err(BridgeError::Validation)
    } else if v.supported.contains_key(chain_id) {
        Err(BridgeError::AlreadyExists)
    } else {
        Ok(BridgeView {
            supported: v.supported.insert(chain_id, resolver),
            chain_ids: v.chain_ids.push(chain_id),
            ..v
        })
    }
}

/// What removing a supported chain gives: the chain, its id and its route go.
pub open spec fn remove_chain_result(v: BridgeView, chain_id: Seq<u8>) -> Result<BridgeView, BridgeError> {
    if v.admin is None {
        Err(BridgeError::Validation)
    } else if chain_name_result(chain_id) is Err {
        Err(BridgeError::Validation)
    } else if !v.supported.contains_key(chain_id) {
        Err(BridgeError::NotFound)
    } else {
        Ok(BridgeView {
            supported: v.supported.remove(chain_id),
            chain_ids: v.chain_ids.filter(other_than(chain_id)),
            routes: v.routes.remove(chain_id),
            ..v
        })
    }
}

/// The version that migration data asks for: its first four bytes read
/// big-endian, or the next version when it is shorter than four bytes.
pub open spec fn target_version(data: Seq<u8>) -> u32 {
    if data.len() < 4 {
        (CONTRACT_VERSION + 1) as u32
    } else {
        (data[0] as nat * 16777216 + data[1] as nat * 65536 + data[2] as nat * 256 + data[3] as nat) as u32
    }
}

/// The version that migration data asks for.
pub fn decode_target_version(data: &[u8]) -> (r: u32)
    ensures
        r == target_version(data@),
{
    if data.len() < 4 {
        return CONTRACT_VERSION + 1;
    }
    let b0 = data[0] as u32;
    let b1 = data[1] as u32;
    let b2 = data[2] as u32;
    let b3 = data[3] as u32;
    b0 * 16777216 + b1 * 65536 + b2 * 256 + b3
}


/// The test "is not `x`".
pub open spec fn other_than(x: Seq<u8>) -> spec_fn(Seq<u8>) -> bool {
    |c: Seq<u8>| c != x
}

proof fn lemma_filter_keeps_all(s: Seq<Seq<u8>>, x: Seq<u8>)
    requires
        forall|j: int| 0 <= j < s.len() ==> s[j] != x,
    ensures
        s.filter(other_than(x)) == s,
    decreases s.len(),
{
    reveal(Seq::filter);
    if s.len() > 0 {
        let d = s.drop_last();
        assert forall|j: int| 0 <= j < d.len() implies d[j] != x by {
            assert(d[j] == s[j]);
        }
        lemma_filter_keeps_all(d, x);
        assert(other_than(x)(s.last()));
        assert(s.filter(other_than(x)) == d.filter(other_than(x)).push(s.last()));
        assert(d.push(s.last()) =~= s);
    }
}

proof fn lemma_filter_drops_one(s: Seq<Seq<u8>>, x: Seq<u8>, i: int)
    requires
        0 <= i < s.len(),
        s[i] == x,
        forall|j: int| 0 <= j < s.len() && j != i ==> s[j] != x,
    ensures
        s.filter(other_than(x)) == s.remove(i),
    decreases s.len(),
{
    reveal(Seq::filter);
    let d = s.drop_last();
    if i == s.len() - 1 {
        assert forall|j: int| 0 <= j < d.len() implies d[j] != x by {
            assert(d[j] == s[j]);
        }
        lemma_filter_keeps_all(d, x);
        assert(!other_than(x)(s.last()));
        assert(s.filter(other_than(x)) == d.filter(other_than(x)));
        assert(d =~= s.remove(i));
    } else {
        assert forall|j: int| 0 <= j < d.len() && j != i implies d[j] != x by {
            assert(d[j] == s[j]);
        }
        assert(d[i] == s[i]);
        lemma_filter_drops_one(d, x, i);
        assert(other_than(x)(s.last()));
        assert(s.filter(other_than(x)) == d.filter(other_than(x)).push(s.last()));
        assert(d.remove(i).push(s.last()) =~= s.remove(i));
    }
}

proof fn lemma_keys_distinct(s: Seq<(Seq<u8>, Seq<u8>)>, i: int)
    requires
        distinct_keys(s),
        0 <= i < s.len(),
    ensures
        keys_of(s)[i] == s[i].0,
        forall|j: int| 0 <= j < keys_of(s).len() && j != i ==> keys_of(s)[j] != s[i].0,
{
    assert forall|j: int| 0 <= j < keys_of(s).len() && j != i implies keys_of(s)[j] != s[i].0 by {
        assert(keys_of(s)[j] == s[j].0);
    }
}

impl BridgeContract {
    /// Stores the route to a supported chain: the chain, its resolver, no gateway.
    pub fn register_chain(&mut self, chain: &[u8]) -> (r: Result<(), BridgeError>)
        requires
            old(self).wf(),
        ensures
            final(self).wf(),
            match register_chain_result(old(self)@, chain@) {
                Ok(v) => r is Ok && final(self)@ == v,
                Err(e) => r == Err::<(), BridgeError>(e) && final(self)@ == old(self)@,
            },
    {
        if validate_chain_name_soroban(chain).is_err() {
            return Err(BridgeError::Validation);
        }
        let i = match self.find_supported(chain) {
            None => return Err(BridgeError::UnsupportedChain),
            Some(i) => i,
        };
        proof {
            lemma_keyed_index(chain_pairs(self.supported@), i as int);
        }
        if self.supported[i].resolver_address.len() == 0 {
            return Err(BridgeError::Validation);
        }
        let route = BridgeRoute {
            destination_chain: copy_bytes(chain),
            destination_resolver: copy_bytes(self.supported[i].resolver_address.as_slice()),
            gateway: Vec::new(),
        };
        assert(route@ == route_for(chain@, old(self)@.supported[chain@]));
        let ghost old_pairs = route_pairs(self.routes@);
        let ghost old_view = self@;
        match self.find_route(chain) {
            Some(j) => {
                let ghost rv = route@;
                self.routes.set(j, route);
                proof {
                    assert(route_pairs(self.routes@) =~= old_pairs.update(j as int, (old_pairs[j as int].0, rv)));
                    lemma_keyed_update(old_pairs, j as int, rv);
                }
            },
            None => {
                let ghost rv = route@;
                self.routes.push(route);
                proof {
                    assert(route_pairs(self.routes@) =~= old_pairs.push((chain@, rv)));
                    lemma_keyed_push(old_pairs, chain@, rv);
                }
            },
        }
        assert(self@.supported == old_view.supported);
        assert(self@.chain_ids == old_view.chain_ids);
        Ok(())
    }

    /// Admin-only: registers a destination chain and its resolver endpoint.
    pub fn add_supported_chain(&mut self, chain_id: &[u8], resolver_address: &[u8]) -> (r: Result<(), BridgeError>)
        requires
            old(self).wf(),
        ensures
            final(self).wf(),
            match add_chain_result(old(self)@, chain_id@, resolver_address@) {
                Ok(v) => r is Ok && final(self)@ == v,
                Err(e) => r == Err::<(), BridgeError>(e) && final(self)@ == old(self)@,
            },
    {
        if self.admin.is_none() {
            return Err(BridgeError::Validation);
        }
        if validate_chain_name_soroban(chain_id).is_err() {
            return Err(BridgeError::Validation);
        }
        if resolver_address.len() == 0 {
            return Err(BridgeError::Validation);
        }
        match self.find_supported(chain_id) {
            Some(i) => {
                proof {
                    lemma_keyed_index(chain_pairs(self.supported@), i as int);
                }
                return Err(BridgeError::AlreadyExists);
            },
            None => {},
        }
        let ghost old_pairs = chain_pairs(self.supported@);
        let ghost old_view = self@;
        self.supported.push(SupportedChain { chain_id: copy_bytes(chain_id), resolver_address: copy_bytes(resolver_address) });
        proof {
            assert(chain_pairs(self.supported@) =~= old_pairs.push((chain_id@, resolver_address@)));
            lemma_keyed_push(old_pairs, chain_id@, resolver_address@);
            assert(keys_of(chain_pairs(self.supported@)) =~= keys_of(old_pairs).push(chain_id@));
            assert forall|k: Seq<u8>| #[trigger] self@.routes.contains_key(k) implies self@.supported.contains_key(k)
                && self@.routes[k] == route_for(k, self@.supported[k]) by {
                assert(old_view.routes.contains_key(k));
                assert(old_view.supported.contains_key(k));
                assert(k != chain_id@);
            }
        }
        Ok(())
    }

    /// Admin-only: removes a destination chain, its id and any route to it.
    pub fn remove_supported_chain(&mut self, chain_id: &[u8]) -> (r: Result<(), BridgeError>)
        requires
            old(self).wf(),
        ensures
            final(self).wf(),
            match remove_chain_result(old(self)@, chain_id@) {
                Ok(v) => r is Ok && final(self)@ == v,
                Err(e) => r == Err::<(), BridgeError>(e) && final(self)@ == old(self)@,
            },
    {
        if self.admin.is_none() {
            return Err(BridgeError::Validation);
        }
        if validate_chain_name_soroban(chain_id).is_err() {
            return Err(BridgeError::Validation);
        }
        let i = match self.find_supported(chain_id) {
            None => return Err(BridgeError::NotFound),
            Some(i) => i,
        };
        let ghost old_pairs = chain_pairs(self.supported@);
        let ghost old_routes = route_pairs(self.routes@);
        let ghost old_view = self@;
        proof {
            lemma_keyed_index(old_pairs, i as int);
            lemma_keys_distinct(old_pairs, i as int);
            lemma_filter_drops_one(keys_of(old_pairs), chain_id@, i as int);
        }
        let _removed = self.supported.remove(i);
        proof {
            assert(chain_pairs(self.supported@) =~= old_pairs.remove(i as int));
            lemma_keyed_remove(old_pairs, i as int);
            assert(keys_of(chain_pairs(self.supported@)) =~= keys_of(old_pairs).remove(i as int));
        }
        match self.find_route(chain_id) {
            Some(j) => {
                let _gone = self.routes.remove(j);
                proof {
                    assert(route_pairs(self.routes@) =~= old_routes.remove(j as int));
                    lemma_keyed_remove(old_routes, j as int);
                }
            },
            None => {
                proof {
                    lemma_keyed_absent(old_routes, chain_id@);
                    assert(old_view.routes.remove(chain_id@) =~= old_view.routes);
                }
            },
        }
        proof {
            assert forall|k: Seq<u8>| #[trigger] self@.routes.contains_key(k) implies self@.supported.contains_key(k)
                && self@.routes[k] == route_for(k, self@.supported[k]) by {
                assert(old_view.routes.contains_key(k));
            }
        }
        Ok(())
    }

    /// The supported chains, in the order their ids were added.
    pub fn get_supported_chains(&self) -> (r: Vec<SupportedChain>)
        requires
            self.wf(),
        ensures
            keys_of(chain_pairs(r@)) == self@.chain_ids,
            keyed_map(chain_pairs(r@)) == self@.supported,
    {
        let mut out: Vec<SupportedChain> = Vec::new();
        let mut i: usize = 0;
        while i < self.supported.len()
            invariant
                i <= self.supported@.len(),
                chain_pairs(out@) == chain_pairs(self.supported@).subrange(0, i as int),
            decreases self.supported@.len() - i,
        {
            let c = SupportedChain {
                chain_id: copy_bytes(self.supported[i].chain_id.as_slice()),
                resolver_address: copy_bytes(self.supported[i].resolver_address.as_slice()),
            };
            assert((c.chain_id@, c.resolver_address@) == chain_pairs(self.supported@)[i as int]);
            let ghost before = out@;
            out.push(c);
            assert(out@ == before.push(c));
            assert(chain_pairs(out@) =~= chain_pairs(before).push((c.chain_id@, c.resolver_address@)));
            i += 1;
            assert(chain_pairs(out@) =~= chain_pairs(self.supported@).subrange(0, i as int));
        }
        assert(chain_pairs(self.supported@).subrange(0, i as int) =~= chain_pairs(self.supported@));
        out
    }

    /// The supported chain with id `chain_id`.
    pub fn supported_chain(&self, chain_id: &[u8]) -> (r: Option<SupportedChain>)
        requires
            self.wf(),
        ensures
            match r {
                Some(c) => self@.supported.contains_key(chain_id@) && c.chain_id@ == chain_id@
                    && c.resolver_address@ == self@.supported[chain_id@],
                None => !self@.supported.contains_key(chain_id@),
            },
    {
        match self.find_supported(chain_id) {
            Some(i) => {
                proof {
                    lemma_keyed_index(chain_pairs(self.supported@), i as int);
                }
                Some(SupportedChain {
                    chain_id: copy_bytes(self.supported[i].chain_id.as_slice()),
                    resolver_address: copy_bytes(self.supported[i].resolver_address.as_slice()),
                })
            },
            None => None,
        }
    }

    /// The route to `chain`, if one is registered.
    pub fn route(&self, chain: &[u8]) -> (r: Option<BridgeRoute>)
        requires
            self.wf(),
        ensures
            match r {
                Some(route) => self@.routes.contains_key(chain@) && route@ == self@.routes[chain@],
                None => !self@.routes.contains_key(chain@),
            },
    {
        match self.find_route(chain) {
            Some(i) => {
                proof {
                    lemma_keyed_index(route_pairs(self.routes@), i as int);
                }
                Some(BridgeRoute {
                    destination_chain: copy_bytes(self.routes[i].destination_chain.as_slice()),
                    destination_resolver: copy_bytes(self.routes[i].destination_resolver.as_slice()),
                    gateway: copy_bytes(self.routes[i].gateway.as_slice()),
                })
            },
            None => None,
        }
    }
}


/// The text of `bytes` when it is valid UTF-8, else nothing.
pub open spec fn utf8_text(bytes: Seq<u8>) -> Seq<char> {
    if valid_utf8(bytes) { decode_utf8(bytes) } else { Seq::empty() }
}

/// std's `core::str::from_utf8`: the text of `bytes` when they are valid UTF-8.
#[verifier::external_body]
fn utf8_str<'a>(bytes: &'a [u8]) -> (r: Option<&'a str>)
    ensures
        match r {
            Some(s) => valid_utf8(bytes@) && s@ == decode_utf8(bytes@),
            None => !valid_utf8(bytes@),
        },
{
    core::str::from_utf8(bytes).ok()
}

fn push_utf8(buf: &mut String, bytes: &[u8])
    ensures
        final(buf)@ == old(buf)@ + utf8_text(bytes@),
{
    match utf8_str(bytes) {
        Some(s) => buf.append(s),
        None => {
            assert(old(buf)@ + Seq::<char>::empty() =~= old(buf)@);
        },
    }
}

/// The forward-resolution GMP payload for `name` on `destination_chain`. Byte
/// strings that are not valid UTF-8 contribute nothing; nothing is escaped.
pub open spec fn forward_message(name: Seq<u8>, destination_chain: Seq<u8>, resolver: Seq<u8>) -> Seq<char> {
    "{\"type\":\"xlm-ns-resolution\",\"name\":\""@ + utf8_text(name)
        + "\",\"destination_chain\":\""@ + utf8_text(destination_chain)
        + "\",\"resolver\":\""@ + utf8_text(resolver) + "\"}"@
}

/// The reverse-resolution GMP payload for `address` and its primary name.
pub open spec fn reverse_message(address: Seq<u8>, primary_name: Seq<u8>, destination_chain: Seq<u8>, resolver: Seq<u8>) -> Seq<char> {
    "{\"type\":\"xlm-ns-reverse-resolution\",\"address\":\""@ + utf8_text(address)
        + "\",\"primary_name\":\""@ + utf8_text(primary_name)
        + "\",\"destination_chain\":\""@ + utf8_text(destination_chain)
        + "\",\"resolver\":\""@ + utf8_text(resolver) + "\"}"@
}

/// The forward-resolution GMP payload.
pub fn build_forward_gmp_message(name: &[u8], destination_chain: &[u8], resolver: &[u8]) -> (r: String)
    ensures
        r@ == forward_message(name@, destination_chain@, resolver@),
{
    let mut buf = String::new();
    buf.append("{\"type\":\"xlm-ns-resolution\",\"name\":\"");
    push_utf8(&mut buf, name);
    buf.append("\",\"destination_chain\":\"");
    push_utf8(&mut buf, destination_chain);
    buf.append("\",\"resolver\":\"");
    push_utf8(&mut buf, resolver);
    buf.append("\"}");
    buf
}

/// The reverse-resolution GMP payload.
pub fn build_reverse_gmp_message(address: &[u8], primary_name: &[u8], destination_chain: &[u8], resolver: &[u8]) -> (r: String)
    ensures
        r@ == reverse_message(address@, primary_name@, destination_chain@, resolver@),
{
    let mut buf = String::new();
    buf.append("{\"type\":\"xlm-ns-reverse-resolution\",\"address\":\"");
    push_utf8(&mut buf, address);
    buf.append("\",\"primary_name\":\"");
    push_utf8(&mut buf, primary_name);
    buf.append("\",\"destination_chain\":\"");
    push_utf8(&mut buf, destination_chain);
    buf.append("\",\"resolver\":\"");
    push_utf8(&mut buf, resolver);
    buf.append("\"}");
    buf
}

/// What building the forward message for `name` along the route to `chain` gives.
pub open spec fn build_message_result(v: BridgeView, name: Seq<u8>, chain: Seq<u8>) -> Result<Seq<char>, BridgeError> {
    if fqdn_result(name) is Err || chain_name_result(chain) is Err {
        Err(BridgeError::Validation)
    } else if !v.routes.contains_key(chain) {
        Err(BridgeError::UnsupportedChain)
    } else {
        Ok(forward_message(name, v.routes[chain].destination_chain, v.routes[chain].destination_resolver))
    }
}

/// What building the reverse message for `address` along the route to `chain` gives.
pub open spec fn build_reverse_message_result(
    v: BridgeView,
    address: Seq<u8>,
    primary_name: Seq<u8>,
    chain: Seq<u8>,
) -> Result<Seq<char>, BridgeError> {
    if address.len() == 0 || primary_name.len() == 0 {
        Err(BridgeError::Validation)
    } else if fqdn_result(primary_name) is Err || chain_name_result(chain) is Err {
        Err(BridgeError::Validation)
    } else if !v.routes.contains_key(chain) {
        Err(BridgeError::UnsupportedChain)
    } else {
        Ok(reverse_message(address, primary_name, v.routes[chain].destination_chain, v.routes[chain].destination_resolver))
    }
}

/// The view of a message result.
pub open spec fn message_view(r: Result<String, BridgeError>) -> Result<Seq<char>, BridgeError> {
    match r {
        Ok(s) => Ok(s@),
        Err(e) => Err(e),
    }
}

impl BridgeContract {
    /// The forward-resolution message for `name` along the route to `chain`.
    pub fn build_message(&self, name: &[u8], chain: &[u8]) -> (r: Result<String, BridgeError>)
        requires
            self.wf(),
        ensures
            message_view(r) == build_message_result(self@, name@, chain@),
    {
        if validate_fqdn_soroban(name).is_err() {
            return Err(BridgeError::Validation);
        }
        if validate_chain_name_soroban(chain).is_err() {
            return Err(BridgeError::Validation);
        }
        match self.find_route(chain) {
            None => Err(BridgeError::UnsupportedChain),
            Some(i) => {
                proof {
                    lemma_keyed_index(route_pairs(self.routes@), i as int);
                }
                let route = &self.routes[i];
                Ok(build_forward_gmp_message(name, route.destination_chain.as_slice(), route.destination_resolver.as_slice()))
            },
        }
    }

    /// The reverse-resolution message for `address` and its primary name along
    /// the route to `chain`.
    pub fn build_reverse_message(&self, address: &[u8], primary_name: &[u8], chain: &[u8]) -> (r: Result<String, BridgeError>)
        requires
            self.wf(),
        ensures
            message_view(r) == build_reverse_message_result(self@, address@, primary_name@, chain@),
    {
        if address.len() == 0 || primary_name.len() == 0 {
            return Err(BridgeError::Validation);
        }
        if validate_fqdn_soroban(primary_name).is_err() {
            return Err(BridgeError::Validation);
        }
        if validate_chain_name_soroban(chain).is_err() {
            return Err(BridgeError::Validation);
        }
        match self.find_route(chain) {
            None => Err(BridgeError::UnsupportedChain),
            Some(i) => {
                proof {
                    lemma_keyed_index(route_pairs(self.routes@), i as int);
                }
                let route = &self.routes[i];
                Ok(build_reverse_gmp_message(address, primary_name, route.destination_chain.as_slice(),
                    route.destination_resolver.as_slice()))
            },
        }
    }
}

/// Every route leads to a supported chain, carrying that chain's resolver and
/// no gateway.
pub proof fn lemma_route_matches_supported(b: &BridgeContract, chain: Seq<u8>)
    requires
        b.wf(),
        b@.routes.contains_key(chain),
    ensures
        b@.supported.contains_key(chain),
        b@.routes[chain] == route_for(chain, b@.supported[chain]),
{
}

/// The list of chain ids holds each supported chain exactly once.
pub proof fn lemma_chain_ids_match_supported(b: &BridgeContract, chain: Seq<u8>)
    requires
        b.wf(),
    ensures
        b@.supported.contains_key(chain) <==> b@.chain_ids.contains(chain),
        forall|i: int, j: int| 0 <= i < b@.chain_ids.len() && 0 <= j < b@.chain_ids.len()
            && b@.chain_ids[i] == b@.chain_ids[j] ==> i == j,
{
    let p = chain_pairs(b.supported@);
    if b@.supported.contains_key(chain) {
        let i = choose|i: int| 0 <= i < p.len() && (#[trigger] p[i]).0 == chain;
        assert(b@.chain_ids[i] == chain);
    }
    if b@.chain_ids.contains(chain) {
        let i = choose|i: int| 0 <= i < b@.chain_ids.len() && b@.chain_ids[i] == chain;
        assert(p[i].0 == chain);
    }
    assert forall|i: int, j: int| 0 <= i < b@.chain_ids.len() && 0 <= j < b@.chain_ids.len()
        && b@.chain_ids[i] == b@.chain_ids[j] implies i == j by {
        assert(p[i].0 == b@.chain_ids[i]);
        assert(p[j].0 == b@.chain_ids[j]);
    }
}

/// Registering a route to a supported chain makes messages along it buildable:
/// for a valid name, the message carries the chain and the chain's resolver.
pub proof fn lemma_registered_route_builds_message(v: BridgeView, chain: Seq<u8>, name: Seq<u8>)
    requires
        register_chain_result(v, chain) is Ok,
        fqdn_result(name) is Ok,
    ensures
        build_message_result(register_chain_result(v, chain).unwrap(), name, chain)
            == Ok::<Seq<char>, BridgeError>(forward_message(name, chain, v.supported[chain])),
{
}

/// A removed chain is neither supported nor routed afterwards.
pub proof fn lemma_removed_chain_is_gone(v: BridgeView, chain: Seq<u8>)
    requires
        remove_chain_result(v, chain) is Ok,
    ensures
        !remove_chain_result(v, chain).unwrap().supported.contains_key(chain),
        !remove_chain_result(v, chain).unwrap().routes.contains_key(chain),
        !remove_chain_result(v, chain).unwrap().chain_ids.contains(chain),
{
    let after = v.chain_ids.filter(other_than(chain));
    v.chain_ids.filter_lemma(other_than(chain));
    if after.contains(chain) {
        let i = choose|i: int| 0 <= i < after.len() && after[i] == chain;
        assert(other_than(chain)(after[i]));
    }
}

} // verus!
