//! Exported contract state: the storage entries a state file holds, the
//! schema transform, and the comparison of a source export with a target.
//!
//! A state file lists entries; read as a table it maps each `(scope, key)`
//! to the value of the last entry with that key. Tables are compared in
//! ascending `(scope, key)` order, scopes ordered as declared and keys
//! character by character.
use vstd::prelude::*;
use crate::text::str_eq;

verus! {

/// The storage area of a contract that an entry belongs to.
#[derive(Clone, Copy, Debug, PartialEq, Eq, Structural, PartialOrd, Ord, Hash)]
pub enum StorageScope {
    Instance,
    Persistent,
    Temporary,
}

/// One stored key with its value.
#[derive(Clone, Debug)]
pub struct StorageEntry {
    pub scope: StorageScope,
    pub key: String,
    pub value: String,
}

/// Where an export came from.
#[derive(Clone, Debug)]
pub struct ExportMetadata {
    pub source_wasm_hash: Option<String>,
    pub exported_at_unix: Option<i64>,
    pub note: Option<String>,
}

/// The contents of a state file.
#[derive(Clone, Debug)]
pub struct ContractStateFile {
    pub schema_version: u32,
    pub contract_id: Option<String>,
    pub export_metadata: ExportMetadata,
    pub scopes: Vec<StorageEntry>,
}

/// The schema versions a transform goes between.
#[derive(Clone, Copy, Debug)]
pub struct TransformArgs {
    pub from_version: u32,
    pub to_version: u32,
}

/// Whether a failed comparison is an error.
#[derive(Clone, Copy, Debug)]
pub struct VerifyArgs {
    pub strict: bool,
}

/// Position of a scope in declaration order.
pub open spec fn scope_rank(s: StorageScope) -> int {
    match s {
        StorageScope::Instance => 0,
        StorageScope::Persistent => 1,
        StorageScope::Temporary => 2,
    }
}

/// Name of a scope as its variant is written.
pub open spec fn scope_text(s: StorageScope) -> Seq<char> {
    match s {
        StorageScope::Instance => seq!['I', 'n', 's', 't', 'a', 'n', 'c', 'e'],
        StorageScope::Persistent => seq!['P', 'e', 'r', 's', 'i', 's', 't', 'e', 'n', 't'],
        StorageScope::Temporary => seq!['T', 'e', 'm', 'p', 'o', 'r', 'a', 'r', 'y'],
    }
}

/// Lexicographic order on character sequences, by code point; a proper
/// prefix comes first.
pub open spec fn chars_less(a: Seq<char>, b: Seq<char>) -> bool
    decreases a.len(),
{
    if b.len() == 0 {
        false
    } else if a.len() == 0 {
        true
    } else if a[0] != b[0] {
        (a[0] as int) < (b[0] as int)
    } else {
        chars_less(a.drop_first(), b.drop_first())
    }
}

/// Order on table keys: by scope, then by key text.
pub open spec fn key_less(a: (StorageScope, Seq<char>), b: (StorageScope, Seq<char>)) -> bool {
    scope_rank(a.0) < scope_rank(b.0) || (a.0 == b.0 && chars_less(a.1, b.1))
}

/// The table key of an entry.
pub open spec fn entry_key(e: StorageEntry) -> (StorageScope, Seq<char>) {
    (e.scope, e.key@)
}

/// The table that a list of entries describes: later entries override
/// earlier ones with the same key.
pub open spec fn entries_map(es: Seq<StorageEntry>) -> Map<(StorageScope, Seq<char>), Seq<char>>
    decreases es.len(),
{
    if es.len() == 0 {
        Map::empty()
    } else {
        entries_map(es.drop_last()).insert(entry_key(es.last()), es.last().value@)
    }
}

/// The table of a state file.
pub open spec fn state_map(s: ContractStateFile) -> Map<(StorageScope, Seq<char>), Seq<char>> {
    entries_map(s.scopes@)
}

proof fn lemma_chars_less_irreflexive(a: Seq<char>)
    ensures
        !chars_less(a, a),
    decreases a.len(),
{
    if a.len() > 0 {
        lemma_chars_less_irreflexive(a.drop_first());
    }
}

proof fn lemma_chars_less_total(a: Seq<char>, b: Seq<char>)
    ensures
        a == b || chars_less(a, b) || chars_less(b, a),
    decreases a.len(),
{
    if a.len() > 0 && b.len() > 0 && a[0] == b[0] {
        lemma_chars_less_total(a.drop_first(), b.drop_first());
        if a.drop_first() == b.drop_first() {
            assert(a =~= seq![a[0]] + a.drop_first());
            assert(b =~= seq![b[0]] + b.drop_first());
        }
    } else if a.len() == 0 && b.len() == 0 {
        assert(a =~= b);
    } else if a.len() > 0 && b.len() > 0 {
        assert(a[0] as int != b[0] as int);
    }
}

proof fn lemma_chars_less_asymmetric(a: Seq<char>, b: Seq<char>)
    requires
        chars_less(a, b),
    ensures
        !chars_less(b, a),
    decreases a.len(),
{
    if a.len() > 0 && b.len() > 0 && a[0] == b[0] {
        lemma_chars_less_asymmetric(a.drop_first(), b.drop_first());
    }
}

proof fn lemma_chars_less_transitive(a: Seq<char>, b: Seq<char>, c: Seq<char>)
    requires
        chars_less(a, b),
        chars_less(b, c),
    ensures
        chars_less(a, c),
    decreases a.len(),
{
    if a.len() > 0 && b.len() > 0 && c.len() > 0 && a[0] == b[0] && b[0] == c[0] {
        lemma_chars_less_transitive(a.drop_first(), b.drop_first(), c.drop_first());
    }
}

proof fn lemma_key_less_facts()
    ensures
        forall|a: (StorageScope, Seq<char>)| !#[trigger] key_less(a, a),
        forall|a: (StorageScope, Seq<char>), b: (StorageScope, Seq<char>)|
            a == b || #[trigger] key_less(a, b) || #[trigger] key_less(b, a),
        forall|a: (StorageScope, Seq<char>), b: (StorageScope, Seq<char>)|
            #[trigger] key_less(a, b) ==> !#[trigger] key_less(b, a),
        forall|a: (StorageScope, Seq<char>), b: (StorageScope, Seq<char>), c: (StorageScope, Seq<char>)|
            #[trigger] key_less(a, b) && #[trigger] key_less(b, c) ==> key_less(a, c),
{
    assert forall|a: (StorageScope, Seq<char>)| !#[trigger] key_less(a, a) by {
        lemma_chars_less_irreflexive(a.1);
    }
    assert forall|a: (StorageScope, Seq<char>), b: (StorageScope, Seq<char>)|
        a == b || #[trigger] key_less(a, b) || #[trigger] key_less(b, a) by {
        lemma_chars_less_total(a.1, b.1);
        if scope_rank(a.0) == scope_rank(b.0) {
            assert(a.0 == b.0);
        }
    }
    assert forall|a: (StorageScope, Seq<char>), b: (StorageScope, Seq<char>)|
        #[trigger] key_less(a, b) implies !#[trigger] key_less(b, a) by {
        if a.0 == b.0 && chars_less(a.1, b.1) {
            lemma_chars_less_asymmetric(a.1, b.1);
        }
    }
    assert forall|a: (StorageScope, Seq<char>), b: (StorageScope, Seq<char>), c: (StorageScope, Seq<char>)|
        #[trigger] key_less(a, b) && #[trigger] key_less(b, c) implies key_less(a, c) by {
        if a.0 == b.0 && b.0 == c.0 && chars_less(a.1, b.1) && chars_less(b.1, c.1) {
            lemma_chars_less_transitive(a.1, b.1, c.1);
        }
    }
}

fn scope_rank_of(s: StorageScope) -> (r: u8)
    ensures
        r == scope_rank(s),
{
    match s {
        StorageScope::Instance => 0,
        StorageScope::Persistent => 1,
        StorageScope::Temporary => 2,
    }
}

/// The variant name of a scope, as the comparison report prints it.
pub fn scope_name(s: StorageScope) -> (r: &'static str)
    ensures
        r@ == scope_text(s),
{
    proof {
        reveal_strlit("Instance");
        reveal_strlit("Persistent");
        reveal_strlit("Temporary");
    }
    match s {
        StorageScope::Instance => "Instance",
        StorageScope::Persistent => "Persistent",
        StorageScope::Temporary => "Temporary",
    }
}

/// Whether `a` comes before `b` in character order.
pub fn str_less(a: &str, b: &str) -> (r: bool)
    ensures
        r == chars_less(a@, b@),
{
    let n = a.unicode_len();
    let m = b.unicode_len();
    let mut i: usize = 0;
    assert(a@.skip(0) =~= a@);
    assert(b@.skip(0) =~= b@);
    while i < n && i < m
        invariant
            n == a@.len(),
            m == b@.len(),
            i <= n,
            i <= m,
            chars_less(a@, b@) == chars_less(a@.skip(i as int), b@.skip(i as int)),
        decreases n - i,
    {
        let c = a.get_char(i);
        let d = b.get_char(i);
        assert(a@.skip(i as int)[0] == c);
        assert(b@.skip(i as int)[0] == d);
        if c != d {
            return (c as u32) < (d as u32);
        }
        assert(a@.skip(i as int).drop_first() =~= a@.skip(i + 1));
        assert(b@.skip(i as int).drop_first() =~= b@.skip(i + 1));
        i += 1;
    }
    i < m
}

/// Entries in strictly ascending key order (so no key occurs twice).
pub open spec fn ascending(es: Seq<StorageEntry>) -> bool {
    forall|i: int, j: int| 0 <= i < j < es.len() ==> key_less(entry_key(#[trigger] es[i]), entry_key(#[trigger] es[j]))
}

/// `es` lists exactly the keys of `m`, each with its value.
pub open spec fn lists_map(es: Seq<StorageEntry>, m: Map<(StorageScope, Seq<char>), Seq<char>>) -> bool {
    &&& forall|i: int| 0 <= i < es.len() ==> m.contains_key(entry_key(#[trigger] es[i])) && m[entry_key(es[i])] == es[i].value@
    &&& forall|k: (StorageScope, Seq<char>)| #[trigger] m.contains_key(k) ==> exists|i: int| 0 <= i < es.len() && entry_key(#[trigger] es[i]) == k
}

/// A copy of `e`.
fn copy_entry(e: &StorageEntry) -> (r: StorageEntry)
    ensures
        r.scope == e.scope,
        r.key@ == e.key@,
        r.value@ == e.value@,
        entry_key(r) == entry_key(*e),
{
    StorageEntry { scope: e.scope, key: e.key.clone(), value: e.value.clone() }
}

/// Whether `a`'s key comes before `b`'s.
fn entry_precedes(a: &StorageEntry, b: &StorageEntry) -> (r: bool)
    ensures
        r == key_less(entry_key(*a), entry_key(*b)),
{
    let ra = scope_rank_of(a.scope);
    let rb = scope_rank_of(b.scope);
    if ra < rb {
        true
    } else if ra > rb {
        false
    } else {
        assert(a.scope == b.scope);
        str_less(a.key.as_str(), b.key.as_str())
    }
}

/// Whether `a` and `b` have the same key.
fn same_key(a: &StorageEntry, b: &StorageEntry) -> (r: bool)
    ensures
        r == (entry_key(*a) == entry_key(*b)),
{
    a.scope == b.scope && str_eq(a.key.as_str(), b.key.as_str())
}

/// The table of `entries`, one entry per key, in ascending key order.
pub fn sorted_table(entries: &Vec<StorageEntry>) -> (t: Vec<StorageEntry>)
    ensures
        ascending(t@),
        lists_map(t@, entries_map(entries@)),
{
    proof {
        lemma_key_less_facts();
    }
    let mut t: Vec<StorageEntry> = Vec::new();
    let mut n: usize = 0;
    assert(entries@.subrange(0, 0) =~= Seq::<StorageEntry>::empty());
    while n < entries.len()
        invariant
            n <= entries.len(),
            ascending(t@),
            lists_map(t@, entries_map(entries@.subrange(0, n as int))),
        decreases entries.len() - n,
    {
        proof {
            lemma_key_less_facts();
        }
        let e = &entries[n];
        let ghost m = entries_map(entries@.subrange(0, n as int));
        let ghost k = entry_key(*e);
        assert(entries@.subrange(0, n + 1).drop_last() =~= entries@.subrange(0, n as int));
        assert(entries_map(entries@.subrange(0, n + 1)) == m.insert(k, e.value@));
        let mut p: usize = 0;
        while p < t.len() && entry_precedes(&t[p], e)
            invariant
                p <= t.len(),
                forall|i: int| 0 <= i < p ==> key_less(entry_key(#[trigger] t@[i]), k),
                k == entry_key(*e),
            decreases t.len() - p,
        {
            p += 1;
        }
        if p < t.len() && same_key(&t[p], e) {
            let ghost old_t = t@;
            let c = copy_entry(e);
            t.set(p, c);
            proof {
                assert forall|i: int, j: int| 0 <= i < j < t@.len() implies key_less(entry_key(#[trigger] t@[i]), entry_key(#[trigger] t@[j])) by {
                    assert(entry_key(t@[i]) == entry_key(old_t[i]));
                    assert(entry_key(t@[j]) == entry_key(old_t[j]));
                }
                let m2 = m.insert(k, e.value@);
                assert forall|i: int| 0 <= i < t@.len() implies m2.contains_key(entry_key(#[trigger] t@[i])) && m2[entry_key(t@[i])] == t@[i].value@ by {
                    if i != p {
                        assert(entry_key(old_t[i]) != k) by {
                            if i < p {
                                assert(key_less(entry_key(old_t[i]), entry_key(old_t[p as int])));
                            } else {
                                assert(key_less(entry_key(old_t[p as int]), entry_key(old_t[i])));
                            }
                        }
                    }
                }
                assert forall|q: (StorageScope, Seq<char>)| #[trigger] m2.contains_key(q) implies exists|i: int| 0 <= i < t@.len() && entry_key(#[trigger] t@[i]) == q by {
                    if q == k {
                        assert(entry_key(t@[p as int]) == q);
                    } else {
                        assert(m.contains_key(q));
                        let i = choose|i: int| 0 <= i < old_t.len() && entry_key(#[trigger] old_t[i]) == q;
                        assert(entry_key(t@[i]) == q);
                    }
                }
            }
        } else {
            let ghost old_t = t@;
            proof {
                if p < t.len() {
                    assert(key_less(k, entry_key(old_t[p as int])));
                }
                assert forall|j: int| p <= j < old_t.len() implies key_less(k, entry_key(#[trigger] old_t[j])) by {
                    if j > p {
                        assert(key_less(entry_key(old_t[p as int]), entry_key(old_t[j])));
                    }
                }
                assert(!m.contains_key(k)) by {
                    if m.contains_key(k) {
                        let i = choose|i: int| 0 <= i < old_t.len() && entry_key(#[trigger] old_t[i]) == k;
                        if i < p {
                            assert(key_less(entry_key(old_t[i]), k));
                        } else {
                            assert(key_less(k, entry_key(old_t[i])));
                        }
                    }
                }
            }
            let c = copy_entry(e);
            t.insert(p, c);
            proof {
                assert(t@ =~= old_t.insert(p as int, c));
                assert forall|i: int, j: int| 0 <= i < j < t@.len() implies key_less(entry_key(#[trigger] t@[i]), entry_key(#[trigger] t@[j])) by {
                    if j < p {
                        assert(t@[i] == old_t[i] && t@[j] == old_t[j]);
                    } else if j == p {
                        assert(t@[i] == old_t[i]);
                    } else if i < p {
                        assert(t@[i] == old_t[i] && t@[j] == old_t[j - 1]);
                        if p < old_t.len() {
                            assert(key_less(entry_key(old_t[i]), k));
                        }
                    } else if i == p {
                        assert(t@[j] == old_t[j - 1]);
                    } else {
                        assert(t@[i] == old_t[i - 1] && t@[j] == old_t[j - 1]);
                    }
                }
                let m2 = m.insert(k, e.value@);
                assert forall|i: int| 0 <= i < t@.len() implies m2.contains_key(entry_key(#[trigger] t@[i])) && m2[entry_key(t@[i])] == t@[i].value@ by {
                    if i < p {
                        assert(t@[i] == old_t[i]);
                        assert(m.contains_key(entry_key(old_t[i])));
                    } else if i > p {
                        assert(t@[i] == old_t[i - 1]);
                        assert(m.contains_key(entry_key(old_t[i - 1])));
                    }
                }
                assert forall|q: (StorageScope, Seq<char>)| #[trigger] m2.contains_key(q) implies exists|i: int| 0 <= i < t@.len() && entry_key(#[trigger] t@[i]) == q by {
                    if q == k {
                        assert(entry_key(t@[p as int]) == q);
                    } else {
                        assert(m.contains_key(q));
                        let i = choose|i: int| 0 <= i < old_t.len() && entry_key(#[trigger] old_t[i]) == q;
                        if i < p {
                            assert(t@[i] == old_t[i]);
                        } else {
                            assert(t@[i + 1] == old_t[i]);
                        }
                    }
                }
            }
        }
        n += 1;
    }
    assert(entries@.subrange(0, n as int) =~= entries@);
    t
}

/// A key whose value differs between the source and the target.
#[derive(Clone, Debug)]
pub struct MismatchedEntry {
    pub scope: StorageScope,
    pub key: String,
    pub source: String,
    pub target: String,
}

/// What a comparison of a source export with a target found, each list in
/// ascending key order: source keys the target lacks (with the source
/// value), target keys the source lacks (with the target value), and keys
/// whose values differ.
#[derive(Clone, Debug)]
pub struct StateDiff {
    pub missing_in_target: Vec<StorageEntry>,
    pub extra_in_target: Vec<StorageEntry>,
    pub mismatched: Vec<MismatchedEntry>,
}

/// The table key of a mismatch.
pub open spec fn mismatch_key(e: MismatchedEntry) -> (StorageScope, Seq<char>) {
    (e.scope, e.key@)
}

/// `ms` lists, in strictly ascending key order, exactly the keys that both
/// tables hold with different values, each with both values.
pub open spec fn lists_mismatches(
    ms: Seq<MismatchedEntry>,
    src: Map<(StorageScope, Seq<char>), Seq<char>>,
    tgt: Map<(StorageScope, Seq<char>), Seq<char>>,
) -> bool {
    &&& forall|i: int, j: int| 0 <= i < j < ms.len() ==> key_less(mismatch_key(#[trigger] ms[i]), mismatch_key(#[trigger] ms[j]))
    &&& forall|i: int| 0 <= i < ms.len() ==> {
        let k = mismatch_key(#[trigger] ms[i]);
        &&& src.contains_key(k)
        &&& tgt.contains_key(k)
        &&& ms[i].source@ == src[k]
        &&& ms[i].target@ == tgt[k]
        &&& src[k] != tgt[k]
    }
    &&& forall|k: (StorageScope, Seq<char>)|
        src.contains_key(k) && tgt.contains_key(k) && src[k] != tgt[k] ==> exists|i: int| 0 <= i < ms.len() && mismatch_key(#[trigger] ms[i]) == k
}

/// What comparing a source table with a target table must report.
pub open spec fn diff_of(
    d: StateDiff,
    src: Map<(StorageScope, Seq<char>), Seq<char>>,
    tgt: Map<(StorageScope, Seq<char>), Seq<char>>,
) -> bool {
    &&& ascending(d.missing_in_target@)
    &&& lists_map(d.missing_in_target@, src.remove_keys(tgt.dom()))
    &&& ascending(d.extra_in_target@)
    &&& lists_map(d.extra_in_target@, tgt.remove_keys(src.dom()))
    &&& lists_mismatches(d.mismatched@, src, tgt)
}

/// Where `e`'s key stands in `t`, if it does.
fn find_key(t: &Vec<StorageEntry>, e: &StorageEntry) -> (r: Option<usize>)
    ensures
        match r {
            Some(j) => j < t@.len() && entry_key(t@[j as int]) == entry_key(*e),
            None => forall|j: int| 0 <= j < t@.len() ==> entry_key(#[trigger] t@[j]) != entry_key(*e),
        },
{
    let mut j: usize = 0;
    while j < t.len()
        invariant
            j <= t@.len(),
            forall|x: int| 0 <= x < j ==> entry_key(#[trigger] t@[x]) != entry_key(*e),
        decreases t.len() - j,
    {
        if same_key(&t[j], e) {
            return Some(j);
        }
        j += 1;
    }
    None
}

impl StateDiff {
    /// True when the comparison found no difference.
    pub open spec fn spec_is_ok(self) -> bool {
        self.missing_in_target@.len() == 0 && self.extra_in_target@.len() == 0 && self.mismatched@.len() == 0
    }

    /// True when the comparison found no difference.
    pub fn is_ok(&self) -> (r: bool)
        ensures
            r == self.spec_is_ok(),
    {
        self.missing_in_target.len() == 0 && self.extra_in_target.len() == 0 && self.mismatched.len() == 0
    }

    /// The headline of the comparison report.
    pub fn headline(&self) -> (r: &'static str)
        ensures
            r@ == (if self.spec_is_ok() { "Verify OK"@ } else { "Verify FAILED"@ }),
    {
        if self.is_ok() {
            "Verify OK"
        } else {
            "Verify FAILED"
        }
    }
}

impl VerifyArgs {
    /// The outcome of a comparison: a failed comparison is an error only when
    /// the comparison is strict.
    pub fn verdict(&self, diff: &StateDiff) -> (r: Result<(), String>)
        ensures
            r.is_err() <==> (self.strict && !diff.spec_is_ok()),
            r matches Err(m) ==> m@ == "verify failed: storage states do not match"@,
    {
        if self.strict && !diff.is_ok() {
            Err("verify failed: storage states do not match".to_string())
        } else {
            Ok(())
        }
    }
}

/// Compares the table of `source` with the table of `target`.
pub fn compare_states(source: &ContractStateFile, target: &ContractStateFile) -> (d: StateDiff)
    ensures
        diff_of(d, state_map(*source), state_map(*target)),
        d.spec_is_ok() <==> state_map(*source) == state_map(*target),
{
    let s = sorted_table(&source.scopes);
    let t = sorted_table(&target.scopes);
    let ghost src = state_map(*source);
    let ghost tgt = state_map(*target);
    let mut missing: Vec<StorageEntry> = Vec::new();
    let mut mismatched: Vec<MismatchedEntry> = Vec::new();
    let mut i: usize = 0;
    while i < s.len()
        invariant
            i <= s@.len(),
            ascending(s@),
            lists_map(s@, src),
            lists_map(t@, tgt),
            forall|x: int| 0 <= x < missing@.len() ==> exists|y: int| 0 <= y < i && entry_key(#[trigger] missing@[x]) == entry_key(#[trigger] s@[y]),
            forall|x: int| 0 <= x < mismatched@.len() ==> exists|y: int| 0 <= y < i && mismatch_key(#[trigger] mismatched@[x]) == entry_key(#[trigger] s@[y]),
            ascending(missing@),
            forall|a: int, b: int| 0 <= a < b < mismatched@.len() ==> key_less(mismatch_key(#[trigger] mismatched@[a]), mismatch_key(#[trigger] mismatched@[b])),
            lists_map(missing@, src.remove_keys(tgt.dom()).restrict(Set::new(|k: (StorageScope, Seq<char>)| exists|y: int| 0 <= y < i && entry_key(#[trigger] s@[y]) == k))),
            forall|x: int| 0 <= x < mismatched@.len() ==> {
                let k = mismatch_key(#[trigger] mismatched@[x]);
                &&& src.contains_key(k)
                &&& tgt.contains_key(k)
                &&& mismatched@[x].source@ == src[k]
                &&& mismatched@[x].target@ == tgt[k]
                &&& src[k] != tgt[k]
            },
            forall|y: int| 0 <= y < i && tgt.contains_key(entry_key(#[trigger] s@[y])) && src[entry_key(s@[y])] != tgt[entry_key(s@[y])] ==> exists|x: int| 0 <= x < mismatched@.len() && mismatch_key(#[trigger] mismatched@[x]) == entry_key(s@[y]),
        decreases s.len() - i,
    {
        proof {
            lemma_key_less_facts();
        }
        let e = &s[i];
        let ghost k = entry_key(*e);
        let ghost before = Set::new(|q: (StorageScope, Seq<char>)| exists|y: int| 0 <= y < i && entry_key(#[trigger] s@[y]) == q);
        let ghost after = Set::new(|q: (StorageScope, Seq<char>)| exists|y: int| 0 <= y < i + 1 && entry_key(#[trigger] s@[y]) == q);
        assert(src.contains_key(k) && src[k] == e.value@);
        assert forall|x: int| 0 <= x < missing@.len() implies key_less(entry_key(#[trigger] missing@[x]), k) by {
            let y = choose|y: int| 0 <= y < i && entry_key(#[trigger] missing@[x]) == entry_key(#[trigger] s@[y]);
            assert(key_less(entry_key(s@[y]), entry_key(s@[i as int])));
        }
        assert forall|x: int| 0 <= x < mismatched@.len() implies key_less(mismatch_key(#[trigger] mismatched@[x]), k) by {
            let y = choose|y: int| 0 <= y < i && mismatch_key(#[trigger] mismatched@[x]) == entry_key(#[trigger] s@[y]);
            assert(key_less(entry_key(s@[y]), entry_key(s@[i as int])));
        }
        assert(!before.contains(k)) by {
            if before.contains(k) {
                let y = choose|y: int| 0 <= y < i && entry_key(#[trigger] s@[y]) == k;
                assert(key_less(entry_key(s@[y]), entry_key(s@[i as int])));
            }
        }
        assert(after =~= before.insert(k)) by {
            assert forall|q: (StorageScope, Seq<char>)| after.contains(q) implies #[trigger] before.insert(k).contains(q) by {
                let y = choose|y: int| 0 <= y < i + 1 && entry_key(#[trigger] s@[y]) == q;
                if y < i {
                    assert(before.contains(q));
                }
            }
            assert forall|q: (StorageScope, Seq<char>)| #[trigger] before.insert(k).contains(q) implies after.contains(q) by {
                if q == k {
                    assert(entry_key(s@[i as int]) == q);
                } else {
                    let y = choose|y: int| 0 <= y < i && entry_key(#[trigger] s@[y]) == q;
                    assert(entry_key(s@[y]) == q);
                }
            }
        }
        let ghost old_missing = missing@;
        let ghost old_mismatched = mismatched@;
        let ghost m_before = src.remove_keys(tgt.dom()).restrict(before);
        let ghost m_after = src.remove_keys(tgt.dom()).restrict(after);
        match find_key(&t, e) {
            None => {
                assert(!tgt.contains_key(k)) by {
                    if tgt.contains_key(k) {
                        let j = choose|j: int| 0 <= j < t@.len() && entry_key(#[trigger] t@[j]) == k;
                    }
                }
                assert(m_after =~= m_before.insert(k, e.value@));
                missing.push(copy_entry(e));
                assert forall|x: int| 0 <= x < missing@.len() implies exists|y: int| 0 <= y < i + 1 && entry_key(#[trigger] missing@[x]) == entry_key(#[trigger] s@[y]) by {
                    if x < old_missing.len() {
                        assert(missing@[x] == old_missing[x]);
                        let y = choose|y: int| 0 <= y < i && entry_key(#[trigger] old_missing[x]) == entry_key(#[trigger] s@[y]);
                        assert(entry_key(missing@[x]) == entry_key(s@[y]));
                    } else {
                        assert(entry_key(missing@[x]) == entry_key(s@[i as int]));
                    }
                }
                assert forall|x: int| 0 <= x < mismatched@.len() implies exists|y: int| 0 <= y < i + 1 && mismatch_key(#[trigger] mismatched@[x]) == entry_key(#[trigger] s@[y]) by {
                    let y = choose|y: int| 0 <= y < i && mismatch_key(#[trigger] mismatched@[x]) == entry_key(#[trigger] s@[y]);
                }
                assert forall|a: int, b: int| 0 <= a < b < missing@.len() implies key_less(entry_key(#[trigger] missing@[a]), entry_key(#[trigger] missing@[b])) by {
                    if b == old_missing.len() {
                        assert(missing@[a] == old_missing[a]);
                    } else {
                        assert(missing@[a] == old_missing[a] && missing@[b] == old_missing[b]);
                    }
                }
                assert forall|q: (StorageScope, Seq<char>)| #[trigger] m_after.contains_key(q) implies exists|x: int| 0 <= x < missing@.len() && entry_key(#[trigger] missing@[x]) == q by {
                    if q == k {
                        assert(entry_key(missing@[old_missing.len() as int]) == q);
                    } else {
                        assert(m_before.contains_key(q));
                        let x = choose|x: int| 0 <= x < old_missing.len() && entry_key(#[trigger] old_missing[x]) == q;
                        assert(missing@[x] == old_missing[x]);
                    }
                }
                assert forall|x: int| 0 <= x < missing@.len() implies m_after.contains_key(entry_key(#[trigger] missing@[x])) && m_after[entry_key(missing@[x])] == missing@[x].value@ by {
                    if x < old_missing.len() {
                        assert(missing@[x] == old_missing[x]);
                        assert(m_before.contains_key(entry_key(old_missing[x])));
                    }
                }
                assert forall|y: int| 0 <= y < i + 1 && tgt.contains_key(entry_key(#[trigger] s@[y])) && src[entry_key(s@[y])] != tgt[entry_key(s@[y])] implies exists|x: int| 0 <= x < mismatched@.len() && mismatch_key(#[trigger] mismatched@[x]) == entry_key(s@[y]) by {
                    if y == i {
                        assert(false);
                    }
                }
            },
            Some(j) => {
                assert(tgt.contains_key(k) && tgt[k] == t@[j as int].value@);
                assert(m_after =~= m_before);
                if !str_eq(e.value.as_str(), t[j].value.as_str()) {
                    let me = MismatchedEntry {
                        scope: e.scope,
                        key: e.key.clone(),
                        source: e.value.clone(),
                        target: t[j].value.clone(),
                    };
                    assert(mismatch_key(me) == k);
                    mismatched.push(me);
                    assert forall|x: int| 0 <= x < mismatched@.len() implies exists|y: int| 0 <= y < i + 1 && mismatch_key(#[trigger] mismatched@[x]) == entry_key(#[trigger] s@[y]) by {
                        if x < old_mismatched.len() {
                            assert(mismatched@[x] == old_mismatched[x]);
                            let y = choose|y: int| 0 <= y < i && mismatch_key(#[trigger] old_mismatched[x]) == entry_key(#[trigger] s@[y]);
                            assert(mismatch_key(mismatched@[x]) == entry_key(s@[y]));
                        } else {
                            assert(mismatch_key(mismatched@[x]) == entry_key(s@[i as int]));
                        }
                    }
                    assert forall|a: int, b: int| 0 <= a < b < mismatched@.len() implies key_less(mismatch_key(#[trigger] mismatched@[a]), mismatch_key(#[trigger] mismatched@[b])) by {
                        if b == old_mismatched.len() {
                            assert(mismatched@[a] == old_mismatched[a]);
                        } else {
                            assert(mismatched@[a] == old_mismatched[a] && mismatched@[b] == old_mismatched[b]);
                        }
                    }
                    assert forall|x: int| 0 <= x < mismatched@.len() implies {
                        let q = mismatch_key(#[trigger] mismatched@[x]);
                        &&& src.contains_key(q)
                        &&& tgt.contains_key(q)
                        &&& mismatched@[x].source@ == src[q]
                        &&& mismatched@[x].target@ == tgt[q]
                        &&& src[q] != tgt[q]
                    } by {
                        if x < old_mismatched.len() {
                            assert(mismatched@[x] == old_mismatched[x]);
                        }
                    }
                    assert forall|y: int| 0 <= y < i + 1 && tgt.contains_key(entry_key(#[trigger] s@[y])) && src[entry_key(s@[y])] != tgt[entry_key(s@[y])] implies exists|x: int| 0 <= x < mismatched@.len() && mismatch_key(#[trigger] mismatched@[x]) == entry_key(s@[y]) by {
                        if y == i {
                            assert(mismatch_key(mismatched@[old_mismatched.len() as int]) == entry_key(s@[y]));
                        } else {
                            let x = choose|x: int| 0 <= x < old_mismatched.len() && mismatch_key(#[trigger] old_mismatched[x]) == entry_key(s@[y]);
                            assert(mismatched@[x] == old_mismatched[x]);
                        }
                    }
                } else {
                    assert forall|y: int| 0 <= y < i + 1 && tgt.contains_key(entry_key(#[trigger] s@[y])) && src[entry_key(s@[y])] != tgt[entry_key(s@[y])] implies exists|x: int| 0 <= x < mismatched@.len() && mismatch_key(#[trigger] mismatched@[x]) == entry_key(s@[y]) by {
                        if y == i {
                            assert(false);
                        }
                    }
                }
                assert forall|x: int| 0 <= x < missing@.len() implies exists|y: int| 0 <= y < i + 1 && entry_key(#[trigger] missing@[x]) == entry_key(#[trigger] s@[y]) by {
                    let y = choose|y: int| 0 <= y < i && entry_key(#[trigger] missing@[x]) == entry_key(#[trigger] s@[y]);
                }
            },
        }
        i += 1;
    }
    proof {
        let all = Set::new(|q: (StorageScope, Seq<char>)| exists|y: int| 0 <= y < i && entry_key(#[trigger] s@[y]) == q);
        assert(src.remove_keys(tgt.dom()).restrict(all) =~= src.remove_keys(tgt.dom())) by {
            assert forall|q: (StorageScope, Seq<char>)| #[trigger] src.remove_keys(tgt.dom()).contains_key(q) implies all.contains(q) by {
                assert(src.contains_key(q));
                let y = choose|y: int| 0 <= y < s@.len() && entry_key(#[trigger] s@[y]) == q;
            }
        }
        assert forall|q: (StorageScope, Seq<char>)| src.contains_key(q) && tgt.contains_key(q) && src[q] != tgt[q] implies exists|x: int| 0 <= x < mismatched@.len() && mismatch_key(#[trigger] mismatched@[x]) == q by {
            let y = choose|y: int| 0 <= y < s@.len() && entry_key(#[trigger] s@[y]) == q;
            assert(tgt.contains_key(entry_key(s@[y])));
        }
    }
    let mut extra: Vec<StorageEntry> = Vec::new();
    let mut j: usize = 0;
    while j < t.len()
        invariant
            j <= t@.len(),
            ascending(t@),
            lists_map(s@, src),
            lists_map(t@, tgt),
            forall|x: int| 0 <= x < extra@.len() ==> exists|y: int| 0 <= y < j && entry_key(#[trigger] extra@[x]) == entry_key(#[trigger] t@[y]),
            ascending(extra@),
            lists_map(extra@, tgt.remove_keys(src.dom()).restrict(Set::new(|k: (StorageScope, Seq<char>)| exists|y: int| 0 <= y < j && entry_key(#[trigger] t@[y]) == k))),
        decreases t.len() - j,
    {
        proof {
            lemma_key_less_facts();
        }
        let e = &t[j];
        let ghost k = entry_key(*e);
        let ghost before = Set::new(|q: (StorageScope, Seq<char>)| exists|y: int| 0 <= y < j && entry_key(#[trigger] t@[y]) == q);
        let ghost after = Set::new(|q: (StorageScope, Seq<char>)| exists|y: int| 0 <= y < j + 1 && entry_key(#[trigger] t@[y]) == q);
        assert(tgt.contains_key(k) && tgt[k] == e.value@);
        assert forall|x: int| 0 <= x < extra@.len() implies key_less(entry_key(#[trigger] extra@[x]), k) by {
            let y = choose|y: int| 0 <= y < j && entry_key(#[trigger] extra@[x]) == entry_key(#[trigger] t@[y]);
            assert(key_less(entry_key(t@[y]), entry_key(t@[j as int])));
        }
        assert(!before.contains(k)) by {
            if before.contains(k) {
                let y = choose|y: int| 0 <= y < j && entry_key(#[trigger] t@[y]) == k;
                assert(key_less(entry_key(t@[y]), entry_key(t@[j as int])));
            }
        }
        assert(after =~= before.insert(k)) by {
            assert forall|q: (StorageScope, Seq<char>)| after.contains(q) implies #[trigger] before.insert(k).contains(q) by {
                let y = choose|y: int| 0 <= y < j + 1 && entry_key(#[trigger] t@[y]) == q;
                if y < j {
                    assert(before.contains(q));
                }
            }
            assert forall|q: (StorageScope, Seq<char>)| #[trigger] before.insert(k).contains(q) implies after.contains(q) by {
                if q == k {
                    assert(entry_key(t@[j as int]) == q);
                } else {
                    let y = choose|y: int| 0 <= y < j && entry_key(#[trigger] t@[y]) == q;
                    assert(entry_key(t@[y]) == q);
                }
            }
        }
        let ghost old_extra = extra@;
        let ghost m_before = tgt.remove_keys(src.dom()).restrict(before);
        let ghost m_after = tgt.remove_keys(src.dom()).restrict(after);
        match find_key(&s, e) {
            None => {
                assert(!src.contains_key(k)) by {
                    if src.contains_key(k) {
                        let y = choose|y: int| 0 <= y < s@.len() && entry_key(#[trigger] s@[y]) == k;
                    }
                }
                assert(m_after =~= m_before.insert(k, e.value@));
                extra.push(copy_entry(e));
                assert forall|x: int| 0 <= x < extra@.len() implies exists|y: int| 0 <= y < j + 1 && entry_key(#[trigger] extra@[x]) == entry_key(#[trigger] t@[y]) by {
                    if x < old_extra.len() {
                        assert(extra@[x] == old_extra[x]);
                        let y = choose|y: int| 0 <= y < j && entry_key(#[trigger] old_extra[x]) == entry_key(#[trigger] t@[y]);
                        assert(entry_key(extra@[x]) == entry_key(t@[y]));
                    } else {
                        assert(entry_key(extra@[x]) == entry_key(t@[j as int]));
                    }
                }
                assert forall|a: int, b: int| 0 <= a < b < extra@.len() implies key_less(entry_key(#[trigger] extra@[a]), entry_key(#[trigger] extra@[b])) by {
                    if b == old_extra.len() {
                        assert(extra@[a] == old_extra[a]);
                    } else {
                        assert(extra@[a] == old_extra[a] && extra@[b] == old_extra[b]);
                    }
                }
                assert forall|q: (StorageScope, Seq<char>)| #[trigger] m_after.contains_key(q) implies exists|x: int| 0 <= x < extra@.len() && entry_key(#[trigger] extra@[x]) == q by {
                    if q == k {
                        assert(entry_key(extra@[old_extra.len() as int]) == q);
                    } else {
                        assert(m_before.contains_key(q));
                        let x = choose|x: int| 0 <= x < old_extra.len() && entry_key(#[trigger] old_extra[x]) == q;
                        assert(extra@[x] == old_extra[x]);
                    }
                }
                assert forall|x: int| 0 <= x < extra@.len() implies m_after.contains_key(entry_key(#[trigger] extra@[x])) && m_after[entry_key(extra@[x])] == extra@[x].value@ by {
                    if x < old_extra.len() {
                        assert(extra@[x] == old_extra[x]);
                        assert(m_before.contains_key(entry_key(old_extra[x])));
                    }
                }
            },
            Some(y) => {
                assert(src.contains_key(k));
                assert(m_after =~= m_before);
                assert forall|x: int| 0 <= x < extra@.len() implies exists|y: int| 0 <= y < j + 1 && entry_key(#[trigger] extra@[x]) == entry_key(#[trigger] t@[y]) by {
                    let y = choose|y: int| 0 <= y < j && entry_key(#[trigger] extra@[x]) == entry_key(#[trigger] t@[y]);
                }
            },
        }
        j += 1;
    }
    proof {
        let all = Set::new(|q: (StorageScope, Seq<char>)| exists|y: int| 0 <= y < j && entry_key(#[trigger] t@[y]) == q);
        assert(tgt.remove_keys(src.dom()).restrict(all) =~= tgt.remove_keys(src.dom())) by {
            assert forall|q: (StorageScope, Seq<char>)| #[trigger] tgt.remove_keys(src.dom()).contains_key(q) implies all.contains(q) by {
                assert(tgt.contains_key(q));
                let y = choose|y: int| 0 <= y < t@.len() && entry_key(#[trigger] t@[y]) == q;
            }
        }
    }
    let d = StateDiff { missing_in_target: missing, extra_in_target: extra, mismatched };
    proof {
        lemma_diff_ok_iff_equal(d, src, tgt);
    }
    d
}

/// A comparison reports no difference exactly when the two tables are equal.
pub proof fn lemma_diff_ok_iff_equal(
    d: StateDiff,
    src: Map<(StorageScope, Seq<char>), Seq<char>>,
    tgt: Map<(StorageScope, Seq<char>), Seq<char>>,
)
    requires
        diff_of(d, src, tgt),
    ensures
        d.spec_is_ok() <==> src == tgt,
{
    if src == tgt {
        assert(src.remove_keys(tgt.dom()) =~= Map::empty());
        if d.missing_in_target@.len() > 0 {
            assert(src.remove_keys(tgt.dom()).contains_key(entry_key(d.missing_in_target@[0])));
        }
        if d.extra_in_target@.len() > 0 {
            assert(tgt.remove_keys(src.dom()).contains_key(entry_key(d.extra_in_target@[0])));
        }
        if d.mismatched@.len() > 0 {
            let k = mismatch_key(d.mismatched@[0]);
            assert(src[k] != tgt[k]);
        }
    }
    if d.spec_is_ok() {
        assert forall|k: (StorageScope, Seq<char>)| src.contains_key(k) implies tgt.contains_key(k) by {
            if !tgt.contains_key(k) {
                assert(src.remove_keys(tgt.dom()).contains_key(k));
            }
        }
        assert forall|k: (StorageScope, Seq<char>)| tgt.contains_key(k) implies src.contains_key(k) by {
            if !src.contains_key(k) {
                assert(tgt.remove_keys(src.dom()).contains_key(k));
            }
        }
        assert forall|k: (StorageScope, Seq<char>)| src.contains_key(k) implies src[k] == tgt[k] by {
            if src[k] != tgt[k] {
                assert(tgt.contains_key(k));
            }
        }
        assert(src =~= tgt);
    }
}

/// What an entry holds, as plain values.
pub open spec fn entry_view(e: StorageEntry) -> (StorageScope, Seq<char>, Seq<char>) {
    (e.scope, e.key@, e.value@)
}

/// The entries of a list, as plain values.
pub open spec fn entries_view(es: Seq<StorageEntry>) -> Seq<(StorageScope, Seq<char>, Seq<char>)> {
    es.map_values(|e: StorageEntry| entry_view(e))
}

/// Whether two entry lists hold the same entries in the same order.
pub fn same_entries(a: &Vec<StorageEntry>, b: &Vec<StorageEntry>) -> (r: bool)
    ensures
        r == (entries_view(a@) == entries_view(b@)),
{
    if a.len() != b.len() {
        assert(entries_view(a@).len() != entries_view(b@).len());
        return false;
    }
    let mut i: usize = 0;
    while i < a.len()
        invariant
            i <= a@.len(),
            a@.len() == b@.len(),
            forall|x: int| 0 <= x < i ==> entry_view(#[trigger] a@[x]) == entry_view(b@[x]),
        decreases a.len() - i,
    {
        let same = a[i].scope == b[i].scope && str_eq(a[i].key.as_str(), b[i].key.as_str())
            && str_eq(a[i].value.as_str(), b[i].value.as_str());
        if !same {
            assert(entries_view(a@)[i as int] != entries_view(b@)[i as int]);
            return false;
        }
        i += 1;
    }
    assert(entries_view(a@) =~= entries_view(b@));
    true
}

/// Applies a schema transform: the storage entries are kept as they are,
/// and the schema version becomes `args.to_version` unless the transform
/// goes from a version to itself, which leaves the file unchanged.
pub fn transform_state(state: ContractStateFile, args: &TransformArgs) -> (r: ContractStateFile)
    ensures
        r.schema_version == (if args.from_version == args.to_version { state.schema_version } else { args.to_version }),
        r.contract_id == state.contract_id,
        r.export_metadata == state.export_metadata,
        r.scopes == state.scopes,
{
    if args.to_version == args.from_version {
        return state;
    }
    let mut state = state;
    state.schema_version = args.to_version;
    state
}

/// The number a transform dry run reports as changed storage entries: 0
/// when the output holds the input's entries, 1 otherwise.
pub fn storage_entries_changed(input: &ContractStateFile, output: &ContractStateFile) -> (r: u32)
    ensures
        r == (if entries_view(input.scopes@) == entries_view(output.scopes@) { 0u32 } else { 1u32 }),
{
    if same_entries(&input.scopes, &output.scopes) {
        0
    } else {
        1
    }
}

} // verus!
