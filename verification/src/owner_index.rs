//! An index from owners to the names they hold: `(owner, name)` pairs in the
//! order they were added.
use vstd::prelude::*;
use crate::bytes::{bytes_eq, bytes_seq_view, copy_bytes};
use crate::registry::Address;

verus! {

/// One `(owner, name)` pair of the owner index.
pub struct OwnerName {
    pub owner: Address,
    pub name: Vec<u8>,
}


/// The index with every copy of `p` removed.
pub open spec fn remove_pair(idx: Seq<(Address, Seq<u8>)>, p: (Address, Seq<u8>)) -> Seq<(Address, Seq<u8>)>
    decreases idx.len(),
{
    if idx.len() == 0 {
        idx
    } else {
        let r = remove_pair(idx.drop_last(), p);
        if idx.last() == p { r } else { r.push(idx.last()) }
    }
}

/// The index with `p` appended unless it is already present.
pub open spec fn add_pair(idx: Seq<(Address, Seq<u8>)>, p: (Address, Seq<u8>)) -> Seq<(Address, Seq<u8>)> {
    if idx.contains(p) { idx } else { idx.push(p) }
}


/// The names the index lists for `owner`, in order.
pub open spec fn names_of(idx: Seq<(Address, Seq<u8>)>, owner: Address) -> Seq<Seq<u8>>
    decreases idx.len(),
{
    if idx.len() == 0 {
        Seq::empty()
    } else {
        let r = names_of(idx.drop_last(), owner);
        if idx.last().0 == owner { r.push(idx.last().1) } else { r }
    }
}


pub proof fn lemma_push_contains<T>(s: Seq<T>, x: T, q: T)
    ensures
        s.push(x).contains(q) <==> (s.contains(q) || q == x),
{
    let t = s.push(x);
    assert(t[s.len() as int] == x);
    if s.contains(q) {
        let k = choose|k: int| 0 <= k < s.len() && s[k] == q;
        assert(t[k] == q);
    }
    if t.contains(q) && q != x {
        let k = choose|k: int| 0 <= k < t.len() && t[k] == q;
        assert(s[k] == q);
    }
}

pub proof fn lemma_remove_pair_contains(idx: Seq<(Address, Seq<u8>)>, p: (Address, Seq<u8>), q: (Address, Seq<u8>))
    ensures
        remove_pair(idx, p).contains(q) <==> (idx.contains(q) && q != p),
    decreases idx.len(),
{
    if idx.len() > 0 {
        let pre = idx.drop_last();
        let r = remove_pair(pre, p);
        lemma_remove_pair_contains(pre, p, q);
        assert(idx =~= pre.push(idx.last()));
        lemma_push_contains(pre, idx.last(), q);
        lemma_push_contains(r, idx.last(), q);
    }
}

pub proof fn lemma_add_pair_contains(idx: Seq<(Address, Seq<u8>)>, p: (Address, Seq<u8>), q: (Address, Seq<u8>))
    ensures
        add_pair(idx, p).contains(q) <==> (idx.contains(q) || q == p),
{
    if !idx.contains(p) {
        let t = idx.push(p);
        assert(t[idx.len() as int] == p);
        if idx.contains(q) {
            let k = choose|k: int| 0 <= k < idx.len() && idx[k] == q;
            assert(t[k] == q);
        }
        if t.contains(q) && q != p {
            let k = choose|k: int| 0 <= k < t.len() && t[k] == q;
            assert(idx[k] == q);
        }
    }
}


pub proof fn lemma_names_of_contains(idx: Seq<(Address, Seq<u8>)>, owner: Address, n: Seq<u8>)
    ensures
        names_of(idx, owner).contains(n) <==> idx.contains((owner, n)),
    decreases idx.len(),
{
    if idx.len() > 0 {
        let pre = idx.drop_last();
        lemma_names_of_contains(pre, owner, n);
        assert(idx =~= pre.push(idx.last()));
        lemma_push_contains(pre, idx.last(), (owner, n));
        lemma_push_contains(names_of(pre, owner), idx.last().1, n);
    }
}


/// The `(owner, name)` values of the index entries.
pub open spec fn index_pairs(v: Seq<OwnerName>) -> Seq<(Address, Seq<u8>)> {
    v.map_values(|p: OwnerName| (p.owner, p.name@))
}

/// Removes every `(owner, name)` pair from the owner index.
pub fn index_remove(index: &mut Vec<OwnerName>, owner: Address, name: &[u8])
    ensures
        index_pairs(final(index)@) == remove_pair(index_pairs(old(index)@), (owner, name@)),
{
    let ghost v = index_pairs(index@);
    let mut kept: Vec<OwnerName> = Vec::new();
    let mut i: usize = 0;
    assert(v.take(0) =~= Seq::<(Address, Seq<u8>)>::empty());
    while i < index.len()
        invariant
            i <= index@.len(),
            v == index_pairs(index@),
            index_pairs(kept@) == remove_pair(v.take(i as int), (owner, name@)),
        decreases index@.len() - i,
    {
        assert(v.take(i as int + 1).drop_last() =~= v.take(i as int));
        assert(v.take(i as int + 1).last() == v[i as int]);
        let same = index[i].owner == owner && bytes_eq(index[i].name.as_slice(), name);
        if !same {
            let ghost before = kept@;
            kept.push(OwnerName { owner: index[i].owner, name: copy_bytes(index[i].name.as_slice()) });
            assert(index_pairs(kept@) =~= index_pairs(before).push(v[i as int]));
        }
        i += 1;
    }
    assert(v.take(index@.len() as int) =~= v);
    *index = kept;
}


/// Appends `(owner, name)` to the owner index unless it is already there.
pub fn index_add(index: &mut Vec<OwnerName>, owner: Address, name: &[u8])
    ensures
        index_pairs(final(index)@) == add_pair(index_pairs(old(index)@), (owner, name@)),
{
    let ghost v = index_pairs(index@);
    let mut i: usize = 0;
    while i < index.len()
        invariant
            i <= index@.len(),
            v == index_pairs(index@),
            forall|j: int| 0 <= j < i ==> v[j] != (owner, name@),
        decreases index@.len() - i,
    {
        if index[i].owner == owner && bytes_eq(index[i].name.as_slice(), name) {
            assert(v[i as int] == (owner, name@));
            return;
        }
        i += 1;
    }
    let ghost before = index@;
    index.push(OwnerName { owner, name: copy_bytes(name) });
    assert(index_pairs(index@) =~= v.push((owner, name@)));
}

/// The names the index lists for `owner`, in order.
pub fn index_names(index: &Vec<OwnerName>, owner: Address) -> (r: Vec<Vec<u8>>)
    ensures
        bytes_seq_view(r@) == names_of(index_pairs(index@), owner),
{
    let ghost v = index_pairs(index@);
    let mut out: Vec<Vec<u8>> = Vec::new();
    let mut i: usize = 0;
    assert(v.take(0) =~= Seq::<(Address, Seq<u8>)>::empty());
    while i < index.len()
        invariant
            i <= index@.len(),
            v == index_pairs(index@),
            bytes_seq_view(out@) == names_of(v.take(i as int), owner),
        decreases index@.len() - i,
    {
        assert(v.take(i as int + 1).drop_last() =~= v.take(i as int));
        assert(v.take(i as int + 1).last() == v[i as int]);
        if index[i].owner == owner {
            let ghost before = out@;
            out.push(copy_bytes(index[i].name.as_slice()));
            assert(bytes_seq_view(out@) =~= bytes_seq_view(before).push(v[i as int].1));
        }
        i += 1;
    }
    assert(v.take(index@.len() as int) =~= v);
    out
}

} // verus!
