//! Byte-level validation and construction of on-chain names (`label.xlm`,
//! `sub.label.xlm`), as the contracts apply it to their string arguments.
use vstd::prelude::*;
use vstd::slice::slice_to_vec;
use crate::constants::{
    MAX_CHAIN_NAME_LENGTH, MAX_NAME_LENGTH, MAX_REGISTRATION_YEARS, MIN_NAME_LENGTH,
    MIN_REGISTRATION_YEARS,
};

verus! {

/// Length of the `.xlm` suffix.
pub const XLM_SUFFIX_LEN: usize = 4;

/// Longest accepted fully-qualified name, in bytes.
pub const MAX_FQDN_LENGTH: usize = 67;

/// Errors of the on-chain name checks.
#[derive(Debug, Clone, Copy, PartialEq, Eq, Structural)]
pub enum CommonError {
    NameTooShort,
    NameTooLong,
    InvalidLabelBoundary,
    InvalidCharacters,
    InvalidRegistrationPeriod,
    EmptyChainName,
    MissingTld,
    InvalidName,
    UnsupportedTld,
}

/// The byte `.`.
pub open spec fn dot() -> u8 {
    46u8
}

/// The bytes `xlm`.
pub open spec fn xlm_bytes() -> Seq<u8> {
    seq![120u8, 108u8, 109u8]
}

/// Lowercase ASCII letter, ASCII digit or `-`.
pub open spec fn is_label_byte(b: u8) -> bool {
    (97 <= b && b <= 122) || (48 <= b && b <= 57) || b == 45
}

/// What the label checks give for `b`.
pub open spec fn label_bytes_result(b: Seq<u8>) -> Result<(), CommonError> {
    if b.len() < MIN_NAME_LENGTH {
        Err(CommonError::NameTooShort)
    } else if b.len() > MAX_NAME_LENGTH {
        Err(CommonError::NameTooLong)
    } else if b[0] == 45 || b.last() == 45 {
        Err(CommonError::InvalidLabelBoundary)
    } else if exists|i: int| 0 <= i < b.len() && !is_label_byte(#[trigger] b[i]) {
        Err(CommonError::InvalidCharacters)
    } else {
        Ok(())
    }
}

/// Index of the first `sep` in `s`, or -1.
pub open spec fn first_index_of(s: Seq<u8>, sep: u8) -> int
    decreases s.len(),
{
    if s.len() == 0 {
        -1
    } else if s[0] == sep {
        0
    } else {
        let r = first_index_of(s.drop_first(), sep);
        if r < 0 { -1 } else { r + 1 }
    }
}

/// Index of the last `sep` in `s`, or -1.
pub open spec fn last_index_of(s: Seq<u8>, sep: u8) -> int
    decreases s.len(),
{
    if s.len() == 0 {
        -1
    } else if s.last() == sep {
        s.len() - 1
    } else {
        last_index_of(s.drop_last(), sep)
    }
}

/// `s` split at every `sep` (the empty sequence gives one empty piece).
pub open spec fn split_on(s: Seq<u8>, sep: u8) -> Seq<Seq<u8>>
    decreases s.len(),
{
    if s.len() == 0 {
        seq![Seq::<u8>::empty()]
    } else {
        let prev = split_on(s.drop_last(), sep);
        if s.last() == sep {
            prev.push(Seq::<u8>::empty())
        } else {
            prev.update(prev.len() - 1, prev.last().push(s.last()))
        }
    }
}

/// The first label of `ls` that fails the label checks.
pub open spec fn first_segment_result(ls: Seq<Seq<u8>>) -> Result<(), CommonError>
    decreases ls.len(),
{
    if ls.len() == 0 {
        Ok(())
    } else {
        match label_bytes_result(ls[0]) {
            Err(e) => Err(e),
            Ok(_) => first_segment_result(ls.drop_first()),
        }
    }
}

/// What validating a fully-qualified name (`a.b.xlm`) gives.
pub open spec fn fqdn_result(n: Seq<u8>) -> Result<(), CommonError> {
    if n.len() > MAX_FQDN_LENGTH {
        Err(CommonError::NameTooLong)
    } else {
        let d = last_index_of(n, dot());
        if d < 0 {
            Err(CommonError::MissingTld)
        } else if n.subrange(d + 1, n.len() as int) != xlm_bytes() {
            Err(CommonError::UnsupportedTld)
        } else {
            first_segment_result(split_on(n.subrange(0, d), dot()))
        }
    }
}

/// What validating a base name (`label.xlm`, no subdomain) gives.
pub open spec fn base_name_result(n: Seq<u8>) -> Result<(), CommonError> {
    if n.len() > MAX_FQDN_LENGTH {
        Err(CommonError::NameTooLong)
    } else {
        let d = first_index_of(n, dot());
        if d < 0 {
            Err(CommonError::MissingTld)
        } else if n.subrange(d + 1, n.len() as int).contains(dot()) {
            Err(CommonError::InvalidName)
        } else {
            match label_bytes_result(n.subrange(0, d)) {
                Err(e) => Err(e),
                Ok(_) => if n.subrange(d + 1, n.len() as int) != xlm_bytes() {
                    Err(CommonError::UnsupportedTld)
                } else {
                    Ok(())
                },
            }
        }
    }
}

/// The byte views of a vector of byte vectors.
pub open spec fn byte_vecs_view(v: Seq<Vec<u8>>) -> Seq<Seq<u8>> {
    v.map_values(|x: Vec<u8>| x@)
}

proof fn lemma_split_on_nonempty(s: Seq<u8>, sep: u8)
    ensures
        split_on(s, sep).len() >= 1,
    decreases s.len(),
{
    if s.len() > 0 {
        lemma_split_on_nonempty(s.drop_last(), sep);
    }
}

proof fn lemma_last_index_found(s: Seq<u8>, sep: u8, k: int)
    requires
        0 <= k < s.len(),
        s[k] == sep,
        forall|j: int| k < j < s.len() ==> s[j] != sep,
    ensures
        last_index_of(s, sep) == k,
    decreases s.len(),
{
    if k < s.len() - 1 {
        lemma_last_index_found(s.drop_last(), sep, k);
    }
}

proof fn lemma_last_index_absent(s: Seq<u8>, sep: u8)
    requires
        forall|j: int| 0 <= j < s.len() ==> s[j] != sep,
    ensures
        last_index_of(s, sep) == -1,
    decreases s.len(),
{
    if s.len() > 0 {
        lemma_last_index_absent(s.drop_last(), sep);
    }
}

proof fn lemma_first_index_found(s: Seq<u8>, sep: u8, k: int)
    requires
        0 <= k < s.len(),
        s[k] == sep,
        forall|j: int| 0 <= j < k ==> s[j] != sep,
    ensures
        first_index_of(s, sep) == k,
    decreases s.len(),
{
    if k > 0 {
        lemma_first_index_found(s.drop_first(), sep, k - 1);
    }
}

proof fn lemma_first_index_absent(s: Seq<u8>, sep: u8)
    requires
        forall|j: int| 0 <= j < s.len() ==> s[j] != sep,
    ensures
        first_index_of(s, sep) == -1,
    decreases s.len(),
{
    if s.len() > 0 {
        lemma_first_index_absent(s.drop_first(), sep);
    }
}

proof fn lemma_first_segment_step(ls: Seq<Seq<u8>>, i: int)
    requires
        0 <= i < ls.len(),
    ensures
        first_segment_result(ls.subrange(i, ls.len() as int)) == (match label_bytes_result(ls[i]) {
            Err(e) => Err(e),
            Ok(_) => first_segment_result(ls.subrange(i + 1, ls.len() as int)),
        }),
{
    assert(ls.subrange(i, ls.len() as int).drop_first() =~= ls.subrange(i + 1, ls.len() as int));
}

/// Label checks: length, hyphen boundaries and character set.
#[verifier::loop_isolation(false)]
pub fn validate_label_bytes(bytes: &[u8]) -> (r: Result<(), CommonError>)
    ensures
        r == label_bytes_result(bytes@),
{
    let len = bytes.len();
    if len < MIN_NAME_LENGTH {
        return Err(CommonError::NameTooShort);
    }
    if len > MAX_NAME_LENGTH {
        return Err(CommonError::NameTooLong);
    }
    if bytes[0] == 45u8 || bytes[len - 1] == 45u8 {
        return Err(CommonError::InvalidLabelBoundary);
    }
    let mut i: usize = 0;
    while i < len
        invariant
            len == bytes@.len(),
            i <= len,
            forall|j: int| 0 <= j < i ==> is_label_byte(#[trigger] bytes@[j]),
        decreases len - i,
    {
        let b = bytes[i];
        if !((97u8 <= b && b <= 122u8) || (48u8 <= b && b <= 57u8) || b == 45u8) {
            assert(!is_label_byte(bytes@[i as int]));
            return Err(CommonError::InvalidCharacters);
        }
        i += 1;
    }
    Ok(())
}

/// Label checks for a label argument (too-long labels are refused first).
pub fn validate_label_soroban(label: &[u8]) -> (r: Result<(), CommonError>)
    ensures
        r == label_bytes_result(label@),
{
    if label.len() > MAX_NAME_LENGTH {
        return Err(CommonError::NameTooLong);
    }
    validate_label_bytes(label)
}

/// Registration periods must be between the minimum and maximum number of years.
pub fn validate_registration_years_soroban(years: u64) -> (r: Result<(), CommonError>)
    ensures
        r == (if MIN_REGISTRATION_YEARS <= years && years <= MAX_REGISTRATION_YEARS {
            Ok::<(), CommonError>(())
        } else {
            Err(CommonError::InvalidRegistrationPeriod)
        }),
{
    if !(MIN_REGISTRATION_YEARS <= years && years <= MAX_REGISTRATION_YEARS) {
        return Err(CommonError::InvalidRegistrationPeriod);
    }
    Ok(())
}

/// What validating a chain identifier gives.
pub open spec fn chain_name_result(chain: Seq<u8>) -> Result<(), CommonError> {
    if chain.len() == 0 {
        Err(CommonError::EmptyChainName)
    } else if chain.len() > MAX_CHAIN_NAME_LENGTH {
        Err(CommonError::NameTooLong)
    } else {
        Ok(())
    }
}

/// Chain identifiers must be non-empty and at most the maximum chain-name length.
pub fn validate_chain_name_soroban(chain: &[u8]) -> (r: Result<(), CommonError>)
    ensures
        r == chain_name_result(chain@),
{
    let len = chain.len();
    if len == 0 {
        return Err(CommonError::EmptyChainName);
    }
    if len > MAX_CHAIN_NAME_LENGTH {
        return Err(CommonError::NameTooLong);
    }
    Ok(())
}

fn is_xlm_suffix(bytes: &[u8], start: usize) -> (r: bool)
    requires
        start <= bytes@.len(),
    ensures
        r == (bytes@.subrange(start as int, bytes@.len() as int) == xlm_bytes()),
{
    let len = bytes.len();
    if len - start != 3 {
        assert(bytes@.subrange(start as int, bytes@.len() as int).len() != xlm_bytes().len());
        return false;
    }
    let r = bytes[start] == 120u8 && bytes[start + 1] == 108u8 && bytes[start + 2] == 109u8;
    assert(r == (bytes@.subrange(start as int, bytes@.len() as int) =~= xlm_bytes()));
    r
}

/// Splits `bytes[0..hi]` at every `.`.
fn split_segments(bytes: &[u8], hi: usize) -> (r: Vec<Vec<u8>>)
    requires
        hi <= bytes@.len(),
    ensures
        byte_vecs_view(r@) == split_on(bytes@.subrange(0, hi as int), dot()),
{
    let mut segs: Vec<Vec<u8>> = Vec::new();
    let mut cur: Vec<u8> = Vec::new();
    let mut i: usize = 0;
    proof {
        assert(bytes@.subrange(0, 0) =~= Seq::<u8>::empty());
        assert(byte_vecs_view(segs@).push(cur@) =~= split_on(Seq::<u8>::empty(), dot()));
    }
    while i < hi
        invariant
            i <= hi <= bytes@.len(),
            byte_vecs_view(segs@).push(cur@) == split_on(bytes@.subrange(0, i as int), dot()),
        decreases hi - i,
    {
        let b = bytes[i];
        let ghost prefix = bytes@.subrange(0, i as int);
        let ghost next = bytes@.subrange(0, i as int + 1);
        proof {
            assert(next.drop_last() =~= prefix);
            assert(next.last() == b);
            lemma_split_on_nonempty(prefix, dot());
        }
        if b == 46u8 {
            let ghost before = segs@;
            let done = cur;
            cur = Vec::new();
            segs.push(done);
            assert(byte_vecs_view(segs@) =~= byte_vecs_view(before).push(done@));
            assert(byte_vecs_view(segs@).push(cur@) =~= split_on(next, dot()));
        } else {
            cur.push(b);
            assert(byte_vecs_view(segs@).push(cur@) =~= split_on(next, dot()));
        }
        i += 1;
    }
    let ghost before = segs@;
    segs.push(cur);
    assert(byte_vecs_view(segs@) =~= byte_vecs_view(before).push(cur@));
    segs
}

/// Checks every `.`-separated label of `bytes[0..hi]`, left to right.
#[verifier::loop_isolation(false)]
fn validate_segments(bytes: &[u8], hi: usize) -> (r: Result<(), CommonError>)
    requires
        hi <= bytes@.len(),
    ensures
        r == first_segment_result(split_on(bytes@.subrange(0, hi as int), dot())),
{
    let segs = split_segments(bytes, hi);
    let ghost ls = split_on(bytes@.subrange(0, hi as int), dot());
    let mut k: usize = 0;
    assert(ls.subrange(0, ls.len() as int) =~= ls);
    while k < segs.len()
        invariant
            k <= segs@.len(),
            byte_vecs_view(segs@) == ls,
            first_segment_result(ls) == first_segment_result(ls.subrange(k as int, ls.len() as int)),
        decreases segs@.len() - k,
    {
        proof {
            lemma_first_segment_step(ls, k as int);
            assert(ls[k as int] == segs@[k as int]@);
        }
        match validate_label_bytes(segs[k].as_slice()) {
            Err(e) => {
                return Err(e);
            },
            Ok(()) => {},
        }
        k += 1;
    }
    assert(ls.subrange(ls.len() as int, ls.len() as int) =~= Seq::<Seq<u8>>::empty());
    Ok(())
}

/// Validates a fully-qualified `.xlm` name, subdomains included.
pub fn validate_fqdn_soroban(name: &[u8]) -> (r: Result<(), CommonError>)
    ensures
        r == fqdn_result(name@),
{
    let len = name.len();
    if len > MAX_FQDN_LENGTH {
        return Err(CommonError::NameTooLong);
    }
    let mut i: usize = len;
    while i > 0 && name[i - 1] != 46u8
        invariant
            len == name@.len(),
            i <= len,
            forall|j: int| i <= j < len ==> name@[j] != dot(),
        decreases i,
    {
        i -= 1;
    }
    if i == 0 {
        proof {
            lemma_last_index_absent(name@, dot());
        }
        return Err(CommonError::MissingTld);
    }
    let d = i - 1;
    proof {
        lemma_last_index_found(name@, dot(), d as int);
    }
    if !is_xlm_suffix(name, d + 1) {
        return Err(CommonError::UnsupportedTld);
    }
    validate_segments(name, d)
}

/// Position of the first `.` of `name`, if any.
fn first_dot(name: &[u8]) -> (r: Option<usize>)
    ensures
        match r {
            Some(d) => d < name@.len() && first_index_of(name@, dot()) == d,
            None => first_index_of(name@, dot()) == -1,
        },
{
    let len = name.len();
    let mut i: usize = 0;
    while i < len && name[i] != 46u8
        invariant
            len == name@.len(),
            i <= len,
            forall|j: int| 0 <= j < i ==> name@[j] != dot(),
        decreases len - i,
    {
        i += 1;
    }
    if i == len {
        proof {
            lemma_first_index_absent(name@, dot());
        }
        None
    } else {
        proof {
            lemma_first_index_found(name@, dot(), i as int);
        }
        Some(i)
    }
}

/// Validates a base name `label.xlm`, refusing subdomains.
#[verifier::loop_isolation(false)]
pub fn validate_base_name_soroban(name: &[u8]) -> (r: Result<(), CommonError>)
    ensures
        r == base_name_result(name@),
{
    let len = name.len();
    if len > MAX_FQDN_LENGTH {
        return Err(CommonError::NameTooLong);
    }
    let d = match first_dot(name) {
        Some(d) => d,
        None => return Err(CommonError::MissingTld),
    };
    let mut j: usize = d + 1;
    while j < len
        invariant
            d < len == name@.len(),
            d + 1 <= j <= len,
            forall|k: int| d + 1 <= k < j ==> name@[k] != dot(),
        decreases len - j,
    {
        if name[j] == 46u8 {
            assert(name@.subrange(d + 1, len as int)[j - d - 1] == dot());
            return Err(CommonError::InvalidName);
        }
        j += 1;
    }
    assert(!name@.subrange(d + 1, len as int).contains(dot()));
    match validate_label_bytes(&name[0..d]) {
        Err(e) => return Err(e),
        Ok(()) => {},
    }
    if !is_xlm_suffix(name, d + 1) {
        return Err(CommonError::UnsupportedTld);
    }
    Ok(())
}

/// What extracting the base label of a name gives.
pub open spec fn extract_label_result(n: Seq<u8>) -> Result<Seq<u8>, CommonError> {
    if n.len() > MAX_FQDN_LENGTH {
        Err(CommonError::NameTooLong)
    } else if first_index_of(n, dot()) < 0 {
        Err(CommonError::MissingTld)
    } else {
        match fqdn_result(n) {
            Err(e) => Err(e),
            Ok(_) => Ok(n.subrange(0, first_index_of(n, dot()))),
        }
    }
}

/// The text before the first `.` of a valid fully-qualified name.
pub fn extract_label_soroban(name: &[u8]) -> (r: Result<Vec<u8>, CommonError>)
    ensures
        match r {
            Ok(v) => extract_label_result(name@) == Ok::<Seq<u8>, CommonError>(v@),
            Err(e) => extract_label_result(name@) == Err::<Seq<u8>, CommonError>(e),
        },
{
    if name.len() > MAX_FQDN_LENGTH {
        return Err(CommonError::NameTooLong);
    }
    let d = match first_dot(name) {
        Some(d) => d,
        None => return Err(CommonError::MissingTld),
    };
    match validate_fqdn_soroban(name) {
        Err(e) => return Err(e),
        Ok(()) => {},
    }
    Ok(slice_to_vec(&name[0..d]))
}

/// What building `label.xlm` gives.
pub open spec fn xlm_name_result(label: Seq<u8>) -> Result<Seq<u8>, CommonError> {
    match label_bytes_result(label) {
        Err(e) => Err(e),
        Ok(_) => Ok(label + seq![dot()] + xlm_bytes()),
    }
}

/// Builds `label.xlm` from a valid label.
pub fn build_xlm_name(label: &[u8]) -> (r: Result<Vec<u8>, CommonError>)
    ensures
        match r {
            Ok(v) => xlm_name_result(label@) == Ok::<Seq<u8>, CommonError>(v@),
            Err(e) => xlm_name_result(label@) == Err::<Seq<u8>, CommonError>(e),
        },
{
    match validate_label_soroban(label) {
        Err(e) => return Err(e),
        Ok(()) => {},
    }
    let mut fqdn = slice_to_vec(label);
    fqdn.push(46u8);
    fqdn.push(120u8);
    fqdn.push(108u8);
    fqdn.push(109u8);
    assert(fqdn@ =~= label@ + seq![dot()] + xlm_bytes());
    Ok(fqdn)
}

/// What building `label.parent` gives.
pub open spec fn subdomain_name_result(label: Seq<u8>, parent: Seq<u8>) -> Result<Seq<u8>, CommonError> {
    match label_bytes_result(label) {
        Err(e) => Err(e),
        Ok(_) => match fqdn_result(parent) {
            Err(e) => Err(e),
            Ok(_) => Ok(label + seq![dot()] + parent),
        },
    }
}

/// Builds `label.parent` from a valid label and a valid parent name.
pub fn build_subdomain_name(label: &[u8], parent: &[u8]) -> (r: Result<Vec<u8>, CommonError>)
    ensures
        match r {
            Ok(v) => subdomain_name_result(label@, parent@) == Ok::<Seq<u8>, CommonError>(v@),
            Err(e) => subdomain_name_result(label@, parent@) == Err::<Seq<u8>, CommonError>(e),
        },
{
    match validate_label_soroban(label) {
        Err(e) => return Err(e),
        Ok(()) => {},
    }
    match validate_fqdn_soroban(parent) {
        Err(e) => return Err(e),
        Ok(()) => {},
    }
    let mut full = slice_to_vec(label);
    full.push(46u8);
    let mut i: usize = 0;
    while i < parent.len()
        invariant
            i <= parent@.len(),
            full@ == label@ + seq![dot()] + parent@.subrange(0, i as int),
        decreases parent@.len() - i,
    {
        full.push(parent[i]);
        i += 1;
        assert(full@ =~= label@ + seq![dot()] + parent@.subrange(0, i as int));
    }
    assert(parent@.subrange(0, parent@.len() as int) =~= parent@);
    Ok(full)
}

/// A name that `build_xlm_name` builds from a valid label is itself a valid
/// base name and a valid fully-qualified name.
pub proof fn lemma_built_xlm_name_is_base_name(label: Seq<u8>)
    requires
        label_bytes_result(label) is Ok,
    ensures
        base_name_result(label + seq![dot()] + xlm_bytes()) is Ok,
        fqdn_result(label + seq![dot()] + xlm_bytes()) is Ok,
{
    let n = label + seq![dot()] + xlm_bytes();
    let d = label.len() as int;
    assert(forall|j: int| 0 <= j < d ==> n[j] == label[j]);
    assert forall|j: int| 0 <= j < d implies n[j] != dot() by {
        if n[j] == dot() {
            assert(!is_label_byte(label[j]));
        }
    }
    lemma_first_index_found(n, dot(), d);
    assert forall|j: int| d < j < n.len() implies n[j] != dot() by {}
    lemma_last_index_found(n, dot(), d);
    assert(n.subrange(0, d) =~= label);
    assert(n.subrange(d + 1, n.len() as int) =~= xlm_bytes());
    lemma_split_without_sep(label, dot());
    reveal_with_fuel(first_segment_result, 2);
}

proof fn lemma_split_without_sep(s: Seq<u8>, sep: u8)
    requires
        forall|j: int| 0 <= j < s.len() ==> s[j] != sep,
    ensures
        split_on(s, sep) == seq![s],
    decreases s.len(),
{
    if s.len() > 0 {
        lemma_split_without_sep(s.drop_last(), sep);
        assert(s.drop_last().push(s.last()) =~= s);
        assert(split_on(s, sep) =~= seq![s]);
    } else {
        assert(s =~= Seq::<u8>::empty());
    }
}


/// Labels joined with `.` (`pay`, `timmy` give `pay.timmy`).
pub open spec fn dot_joined(ls: Seq<Seq<u8>>) -> Seq<u8>
    decreases ls.len(),
{
    if ls.len() == 0 {
        Seq::empty()
    } else if ls.len() == 1 {
        ls[0]
    } else {
        dot_joined(ls.drop_last()) + seq![dot()] + ls.last()
    }
}

proof fn lemma_split_concat(a: Seq<u8>, b: Seq<u8>, sep: u8)
    ensures
        split_on(a + seq![sep] + b, sep) == split_on(a, sep) + split_on(b, sep),
    decreases b.len(),
{
    let s = a + seq![sep] + b;
    if b.len() == 0 {
        assert(s =~= a.push(sep));
        assert(s.drop_last() =~= a);
        assert(split_on(b, sep) =~= seq![Seq::<u8>::empty()]);
        assert(split_on(a, sep).push(Seq::<u8>::empty()) =~= split_on(a, sep) + split_on(b, sep));
    } else {
        lemma_split_concat(a, b.drop_last(), sep);
        lemma_split_on_nonempty(b.drop_last(), sep);
        lemma_split_on_nonempty(a, sep);
        assert(s.drop_last() =~= a + seq![sep] + b.drop_last());
        assert(s.last() == b.last());
        let pa = split_on(a, sep);
        let pb = split_on(b.drop_last(), sep);
        if b.last() == sep {
            assert((pa + pb).push(Seq::<u8>::empty()) =~= pa + pb.push(Seq::<u8>::empty()));
        } else {
            let prev = pa + pb;
            assert(prev.last() == pb.last());
            assert(prev.update(prev.len() - 1, prev.last().push(s.last()))
                =~= pa + pb.update(pb.len() - 1, pb.last().push(b.last())));
        }
    }
}

proof fn lemma_split_joined(ls: Seq<Seq<u8>>)
    requires
        ls.len() >= 1,
        forall|i: int, j: int| 0 <= i < ls.len() && 0 <= j < ls[i].len() ==> #[trigger] ls[i][j] != dot(),
    ensures
        split_on(dot_joined(ls), dot()) == ls,
    decreases ls.len(),
{
    if ls.len() == 1 {
        assert forall|j: int| 0 <= j < ls[0].len() implies ls[0][j] != dot() by {
            assert(ls[0][j] != dot());
        }
        lemma_split_without_sep(ls[0], dot());
        assert(seq![ls[0]] =~= ls);
    } else {
        let init = ls.drop_last();
        assert forall|i: int, j: int| 0 <= i < init.len() && 0 <= j < init[i].len() implies #[trigger] init[i][j] != dot() by {
            assert(init[i] == ls[i]);
        }
        lemma_split_joined(init);
        lemma_split_concat(dot_joined(init), ls.last(), dot());
        assert forall|j: int| 0 <= j < ls.last().len() implies ls.last()[j] != dot() by {
            assert(ls[ls.len() - 1][j] != dot());
        }
        lemma_split_without_sep(ls.last(), dot());
        assert(init + seq![ls.last()] =~= ls);
    }
}

proof fn lemma_segments_all_pass(ls: Seq<Seq<u8>>)
    requires
        forall|i: int| 0 <= i < ls.len() ==> #[trigger] label_bytes_result(ls[i]) is Ok,
    ensures
        first_segment_result(ls) == Ok::<(), CommonError>(()),
    decreases ls.len(),
{
    if ls.len() > 0 {
        assert(label_bytes_result(ls[0]) is Ok);
        assert forall|i: int| 0 <= i < ls.drop_first().len() implies #[trigger] label_bytes_result(ls.drop_first()[i]) is Ok by {
            assert(ls.drop_first()[i] == ls[i + 1]);
        }
        lemma_segments_all_pass(ls.drop_first());
    }
}

proof fn lemma_joined_has_no_dot_label_bytes(ls: Seq<Seq<u8>>)
    requires
        forall|i: int| 0 <= i < ls.len() ==> #[trigger] label_bytes_result(ls[i]) is Ok,
    ensures
        forall|i: int, j: int| 0 <= i < ls.len() && 0 <= j < ls[i].len() ==> #[trigger] ls[i][j] != dot(),
{
    assert forall|i: int, j: int| 0 <= i < ls.len() && 0 <= j < ls[i].len() implies #[trigger] ls[i][j] != dot() by {
        assert(label_bytes_result(ls[i]) is Ok);
        if ls[i][j] == dot() {
            assert(!is_label_byte(ls[i][j]));
        }
    }
}

/// Any number of valid labels joined with `.` and followed by `.xlm` is a
/// valid fully-qualified name, subdomains included, as long as it fits in
/// the length limit: every label before the TLD is checked on its own.
pub proof fn lemma_dotted_labels_are_valid_fqdn(ls: Seq<Seq<u8>>)
    requires
        ls.len() >= 1,
        forall|i: int| 0 <= i < ls.len() ==> #[trigger] label_bytes_result(ls[i]) is Ok,
        (dot_joined(ls) + seq![dot()] + xlm_bytes()).len() <= MAX_FQDN_LENGTH,
    ensures
        fqdn_result(dot_joined(ls) + seq![dot()] + xlm_bytes()) == Ok::<(), CommonError>(()),
{
    let j = dot_joined(ls);
    let n = j + seq![dot()] + xlm_bytes();
    let d = j.len() as int;
    assert(n[d] == dot());
    assert forall|k: int| d < k < n.len() implies n[k] != dot() by {
        assert(n[k] == xlm_bytes()[k - d - 1]);
    }
    lemma_last_index_found(n, dot(), d);
    assert(n.subrange(0, d) =~= j);
    assert(n.subrange(d + 1, n.len() as int) =~= xlm_bytes());
    lemma_joined_has_no_dot_label_bytes(ls);
    lemma_split_joined(ls);
    lemma_segments_all_pass(ls);
}
} // verus!
