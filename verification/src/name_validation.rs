//! Offline validation of fully-qualified names such as `pay.timmy.xlm`.
use vstd::prelude::*;
use vstd::utf8::encode_utf8;
use crate::constants::{MAX_NAME_LENGTH, MAX_SUBDOMAIN_DEPTH, MIN_NAME_LENGTH};
use crate::fmt::{dec, push_char_debug, push_decimal, push_str_debug, char_debug_text, str_debug_text};
use crate::text::{push_char, str_chars, str_eq, string_from_chars};
use crate::types::{tld_text, xlm_chars, Tld};
use vstd::string::*;

verus! {

/// Structured errors for offline name validation.
#[derive(Debug, Clone, PartialEq, Eq)]
pub enum NameValidationError {
    TooShort { min: usize, actual: usize },
    TooLong { max: usize, actual: usize },
    /// First invalid character and its char-index within the label.
    InvalidCharacter { ch: char, position: usize },
    /// Label starts or ends with a hyphen.
    InvalidLabelBoundary,
    UnsupportedTld(String),
    MissingTld,
    InvalidName,
    ReservedName(String),
    TooManyLabels { max: usize, actual: usize },
}

/// `NameValidationError` with its texts as character sequences.
pub enum NameValidationErrorView {
    TooShort { min: usize, actual: usize },
    TooLong { max: usize, actual: usize },
    InvalidCharacter { ch: char, position: usize },
    InvalidLabelBoundary,
    UnsupportedTld(Seq<char>),
    MissingTld,
    InvalidName,
    ReservedName(Seq<char>),
    TooManyLabels { max: usize, actual: usize },
}

impl View for NameValidationError {
    type V = NameValidationErrorView;

    open spec fn view(&self) -> NameValidationErrorView {
        match self {
            NameValidationError::TooShort { min, actual } => NameValidationErrorView::TooShort { min: *min, actual: *actual },
            NameValidationError::TooLong { max, actual } => NameValidationErrorView::TooLong { max: *max, actual: *actual },
            NameValidationError::InvalidCharacter { ch, position } => NameValidationErrorView::InvalidCharacter { ch: *ch, position: *position },
            NameValidationError::InvalidLabelBoundary => NameValidationErrorView::InvalidLabelBoundary,
            NameValidationError::UnsupportedTld(t) => NameValidationErrorView::UnsupportedTld(t@),
            NameValidationError::MissingTld => NameValidationErrorView::MissingTld,
            NameValidationError::InvalidName => NameValidationErrorView::InvalidName,
            NameValidationError::ReservedName(l) => NameValidationErrorView::ReservedName(l@),
            NameValidationError::TooManyLabels { max, actual } => NameValidationErrorView::TooManyLabels { max: *max, actual: *actual },
        }
    }
}

/// Parsed, validated name. Labels are ordered left-to-right (leaf first).
#[derive(Debug, Clone, PartialEq, Eq)]
pub struct ValidatedName {
    /// Non-TLD labels from left to right, e.g. `["pay", "timmy"]` for `pay.timmy.xlm`.
    pub labels: Vec<String>,
    pub tld: Tld,
}

/// A validated name as its label texts and TLD.
pub struct ValidatedNameView {
    pub labels: Seq<Seq<char>>,
    pub tld: Tld,
}

/// The texts of a vector of strings.
pub open spec fn strings_view(v: Seq<String>) -> Seq<Seq<char>> {
    v.map_values(|s: String| s@)
}

/// The texts of a slice of string slices.
pub open spec fn strs_view(v: Seq<&str>) -> Seq<Seq<char>> {
    v.map_values(|s: &str| s@)
}

impl View for ValidatedName {
    type V = ValidatedNameView;

    open spec fn view(&self) -> ValidatedNameView {
        ValidatedNameView { labels: strings_view(self.labels@), tld: self.tld }
    }
}

/// Labels joined with `.`.
pub open spec fn join_dots(labels: Seq<Seq<char>>) -> Seq<char>
    decreases labels.len(),
{
    if labels.len() == 0 {
        Seq::empty()
    } else if labels.len() == 1 {
        labels[0]
    } else {
        join_dots(labels.drop_last()) + seq!['.'] + labels.last()
    }
}

/// Index of the last `.` in `s`, or -1 when there is none.
pub open spec fn last_dot_index(s: Seq<char>) -> int
    decreases s.len(),
{
    if s.len() == 0 {
        -1
    } else if s.last() == '.' {
        s.len() - 1
    } else {
        last_dot_index(s.drop_last())
    }
}

/// `s` split at every `.`, as `str::split('.')` does (the empty text gives one empty piece).
pub open spec fn split_dots(s: Seq<char>) -> Seq<Seq<char>>
    decreases s.len(),
{
    if s.len() == 0 {
        seq![Seq::<char>::empty()]
    } else {
        let prev = split_dots(s.drop_last());
        if s.last() == '.' {
            prev.push(Seq::<char>::empty())
        } else {
            prev.update(prev.len() - 1, prev.last().push(s.last()))
        }
    }
}

/// Lowercase ASCII letter, ASCII digit or hyphen.
pub open spec fn is_label_char(c: char) -> bool {
    ('a' <= c && c <= 'z') || ('0' <= c && c <= '9') || c == '-'
}

/// The first `n` characters of `l` are all label characters.
pub open spec fn label_chars_upto(l: Seq<char>, n: int) -> bool {
    forall|j: int| 0 <= j < n ==> #[trigger] is_label_char(l[j])
}

/// Length of the UTF-8 encoding of `l`, as `str::len` reports it.
pub open spec fn byte_len(l: Seq<char>) -> usize {
    encode_utf8(l).len() as usize
}

/// The first failing check on a single label, in the order the validator applies them.
pub open spec fn label_error(l: Seq<char>) -> Option<NameValidationErrorView> {
    let len = byte_len(l);
    if len == 0 {
        Some(NameValidationErrorView::TooShort { min: MIN_NAME_LENGTH, actual: 0 })
    } else if len < MIN_NAME_LENGTH {
        Some(NameValidationErrorView::TooShort { min: MIN_NAME_LENGTH, actual: len })
    } else if len > MAX_NAME_LENGTH {
        Some(NameValidationErrorView::TooLong { max: MAX_NAME_LENGTH, actual: len })
    } else if exists|i: int| 0 <= i < l.len() && !is_label_char(l[i]) && label_chars_upto(l, i) {
        let i = choose|i: int| 0 <= i < l.len() && !is_label_char(l[i]) && label_chars_upto(l, i);
        Some(NameValidationErrorView::InvalidCharacter { ch: l[i], position: i as usize })
    } else if l.len() > 0 && (l[0] == '-' || l.last() == '-') {
        Some(NameValidationErrorView::InvalidLabelBoundary)
    } else {
        None
    }
}

/// The error of the first label that fails its checks.
pub open spec fn first_label_error(ls: Seq<Seq<char>>) -> Option<NameValidationErrorView>
    decreases ls.len(),
{
    if ls.len() == 0 {
        None
    } else {
        match label_error(ls[0]) {
            Some(e) => Some(e),
            None => first_label_error(ls.drop_first()),
        }
    }
}

/// The first label that appears in `reserved`.
pub open spec fn first_reserved(ls: Seq<Seq<char>>, reserved: Seq<Seq<char>>) -> Option<Seq<char>>
    decreases ls.len(),
{
    if ls.len() == 0 {
        None
    } else if reserved.contains(ls[0]) {
        Some(ls[0])
    } else {
        first_reserved(ls.drop_first(), reserved)
    }
}

/// What validating `name` against the `reserved` labels gives.
pub open spec fn spec_validate_name(
    name: Seq<char>,
    reserved: Seq<Seq<char>>,
) -> Result<ValidatedNameView, NameValidationErrorView> {
    let dot = last_dot_index(name);
    if dot < 0 {
        Err(NameValidationErrorView::MissingTld)
    } else {
        let labels_part = name.subrange(0, dot);
        let tld = name.subrange(dot + 1, name.len() as int);
        if tld.len() == 0 {
            Err(NameValidationErrorView::InvalidName)
        } else if tld != xlm_chars() {
            Err(NameValidationErrorView::UnsupportedTld(tld))
        } else if labels_part.len() == 0 {
            Err(NameValidationErrorView::TooShort { min: MIN_NAME_LENGTH, actual: 0 })
        } else {
            let ls = split_dots(labels_part);
            if ls.len() > MAX_SUBDOMAIN_DEPTH {
                Err(NameValidationErrorView::TooManyLabels { max: MAX_SUBDOMAIN_DEPTH, actual: ls.len() as usize })
            } else {
                match first_label_error(ls) {
                    Some(e) => Err(e),
                    None => match first_reserved(ls, reserved) {
                        Some(l) => Err(NameValidationErrorView::ReservedName(l)),
                        None => Ok(ValidatedNameView { labels: ls, tld: Tld::Xlm }),
                    },
                }
            }
        }
    }
}

/// The result of validation, taken by its views.
pub open spec fn validation_view(
    r: Result<ValidatedName, NameValidationError>,
) -> Result<ValidatedNameView, NameValidationErrorView> {
    match r {
        Ok(v) => Ok(v@),
        Err(e) => Err(e@),
    }
}

proof fn lemma_split_dots_nonempty(s: Seq<char>)
    ensures
        split_dots(s).len() >= 1,
    decreases s.len(),
{
    if s.len() > 0 {
        lemma_split_dots_nonempty(s.drop_last());
    }
}

proof fn lemma_last_dot_found(s: Seq<char>, k: int)
    requires
        0 <= k < s.len(),
        s[k] == '.',
        forall|j: int| k < j < s.len() ==> s[j] != '.',
    ensures
        last_dot_index(s) == k,
    decreases s.len(),
{
    if k < s.len() - 1 {
        lemma_last_dot_found(s.drop_last(), k);
    }
}

proof fn lemma_last_dot_absent(s: Seq<char>)
    requires
        forall|j: int| 0 <= j < s.len() ==> s[j] != '.',
    ensures
        last_dot_index(s) == -1,
    decreases s.len(),
{
    if s.len() > 0 {
        lemma_last_dot_absent(s.drop_last());
    }
}

proof fn lemma_first_label_error_step(ls: Seq<Seq<char>>, i: int)
    requires
        0 <= i < ls.len(),
    ensures
        first_label_error(ls.subrange(i, ls.len() as int)) == (match label_error(ls[i]) {
            Some(e) => Some(e),
            None => first_label_error(ls.subrange(i + 1, ls.len() as int)),
        }),
{
    assert(ls.subrange(i, ls.len() as int).drop_first() =~= ls.subrange(i + 1, ls.len() as int));
}

proof fn lemma_first_reserved_step(ls: Seq<Seq<char>>, reserved: Seq<Seq<char>>, i: int)
    requires
        0 <= i < ls.len(),
    ensures
        first_reserved(ls.subrange(i, ls.len() as int), reserved) == (if reserved.contains(ls[i]) {
            Some(ls[i])
        } else {
            first_reserved(ls.subrange(i + 1, ls.len() as int), reserved)
        }),
{
    assert(ls.subrange(i, ls.len() as int).drop_first() =~= ls.subrange(i + 1, ls.len() as int));
}

/// The checks that one label must pass.
#[verifier::loop_isolation(false)]
fn check_label(label: &String) -> (r: Option<NameValidationError>)
    ensures
        match r {
            Some(e) => label_error(label@) == Some(e@),
            None => label_error(label@).is_none(),
        },
{
    let len = label.as_str().len();
    if len == 0 {
        return Some(NameValidationError::TooShort { min: MIN_NAME_LENGTH, actual: 0 });
    }
    if len < MIN_NAME_LENGTH {
        return Some(NameValidationError::TooShort { min: MIN_NAME_LENGTH, actual: len });
    }
    if len > MAX_NAME_LENGTH {
        return Some(NameValidationError::TooLong { max: MAX_NAME_LENGTH, actual: len });
    }
    let n = label.as_str().unicode_len();
    let mut pos: usize = 0;
    while pos < n
        invariant
            n == label@.len(),
            pos <= n,
            label_chars_upto(label@, pos as int),
        decreases n - pos,
    {
        let ch = label.as_str().get_char(pos);
        if !(('a' <= ch && ch <= 'z') || ('0' <= ch && ch <= '9') || ch == '-') {
            proof {
                let l = label@;
                let w = pos as int;
                assert(0 <= w < l.len() && !is_label_char(l[w]) && label_chars_upto(l, w));
                let i = choose|i: int| 0 <= i < l.len() && !is_label_char(l[i]) && label_chars_upto(l, i);
                if i < w {
                    assert(is_label_char(l[i]));
                } else if i > w {
                    assert(is_label_char(l[w]));
                }
                assert(i == w);
                assert(l[i] == ch);
            }
            assert(label_error(label@) == Some(NameValidationErrorView::InvalidCharacter { ch, position: pos }));
            return Some(NameValidationError::InvalidCharacter { ch, position: pos });
        }
        pos += 1;
    }
    proof {
        let l = label@;
        assert forall|i: int| !(0 <= i < l.len() && !is_label_char(l[i]) && label_chars_upto(l, i)) by {
            if 0 <= i < l.len() {
                assert(is_label_char(l[i]));
            }
        }
    }
    if n > 0 && (label.as_str().get_char(0) == '-' || label.as_str().get_char(n - 1) == '-') {
        return Some(NameValidationError::InvalidLabelBoundary);
    }
    proof {
        if label@.len() == 0 {
            assert(encode_utf8(label@) =~= Seq::<u8>::empty());
        }
    }
    None
}

/// Whether `label` is one of `reserved`.
fn is_reserved(label: &String, reserved: &[&str]) -> (r: bool)
    ensures
        r == strs_view(reserved@).contains(label@),
{
    let mut k: usize = 0;
    while k < reserved.len()
        invariant
            k <= reserved@.len(),
            forall|j: int| 0 <= j < k ==> reserved@[j]@ != label@,
        decreases reserved@.len() - k,
    {
        if str_eq(reserved[k], label.as_str()) {
            assert(strs_view(reserved@)[k as int] == label@);
            return true;
        }
        k += 1;
    }
    proof {
        if strs_view(reserved@).contains(label@) {
            let j = choose|j: int| 0 <= j < strs_view(reserved@).len() && strs_view(reserved@)[j] == label@;
            assert(reserved@[j]@ == label@);
        }
    }
    false
}

/// Splits `chars[lo..hi]` at every `.`.
fn split_labels(chars: &Vec<char>, hi: usize) -> (r: Vec<String>)
    requires
        hi <= chars@.len(),
    ensures
        strings_view(r@) == split_dots(chars@.subrange(0, hi as int)),
{
    let mut labels: Vec<String> = Vec::new();
    let mut cur = String::new();
    let mut i: usize = 0;
    proof {
        assert(chars@.subrange(0, 0) =~= Seq::<char>::empty());
        assert(strings_view(labels@).push(cur@) =~= split_dots(Seq::<char>::empty()));
    }
    while i < hi
        invariant
            i <= hi <= chars@.len(),
            strings_view(labels@).push(cur@) == split_dots(chars@.subrange(0, i as int)),
        decreases hi - i,
    {
        let c = chars[i];
        let ghost prefix = chars@.subrange(0, i as int);
        let ghost next = chars@.subrange(0, i as int + 1);
        proof {
            assert(next.drop_last() =~= prefix);
            assert(next.last() == c);
            lemma_split_dots_nonempty(prefix);
        }
        if c == '.' {
            let ghost before = labels@;
            let done = cur;
            cur = String::new();
            labels.push(done);
            proof {
                assert(strings_view(labels@) =~= strings_view(before).push(done@));
            }
            assert(strings_view(labels@).push(cur@) =~= split_dots(next));
        } else {
            let ghost before = cur@;
            push_char(&mut cur, c);
            assert(strings_view(labels@).push(cur@) =~= split_dots(next));
        }
        i += 1;
    }
    labels.push(cur);
    proof {
        assert(strings_view(labels@) =~= strings_view(labels@.drop_last()).push(cur@));
    }
    labels
}

/// Pure offline validation — does NOT check reserved names.
pub fn validate_name(name: &str) -> (r: Result<ValidatedName, NameValidationError>)
    ensures
        validation_view(r) == spec_validate_name(name@, Seq::empty()),
{
    let empty: [&str; 0] = [];
    let r = validate_name_with_reserved(name, &empty);
    assert(strs_view(empty@) =~= Seq::<Seq<char>>::empty());
    r
}

/// Offline validation with an optional caller-supplied reserved-name list.
/// Pass an empty slice for format-only checks.
#[verifier::loop_isolation(false)]
pub fn validate_name_with_reserved(
    name: &str,
    reserved: &[&str],
) -> (r: Result<ValidatedName, NameValidationError>)
    ensures
        validation_view(r) == spec_validate_name(name@, strs_view(reserved@)),
{
    let chars = str_chars(name);
    let n = chars.len();
    // Split on the rightmost "." to extract the TLD.
    let mut i: usize = n;
    while i > 0 && chars[i - 1] != '.'
        invariant
            n == chars@.len(),
            chars@ == name@,
            i <= n,
            forall|j: int| i <= j < n ==> chars@[j] != '.',
        decreases i,
    {
        i -= 1;
    }
    if i == 0 {
        proof {
            lemma_last_dot_absent(name@);
        }
        return Err(NameValidationError::MissingTld);
    }
    let dot = i - 1;
    proof {
        lemma_last_dot_found(name@, dot as int);
    }
    let tld_str = string_from_chars(&chars, dot + 1, n);
    if dot + 1 == n {
        return Err(NameValidationError::InvalidName);
    }
    let tld = match Tld::parse(tld_str.as_str()) {
        Some(t) => t,
        None => return Err(NameValidationError::UnsupportedTld(tld_str)),
    };
    if dot == 0 {
        return Err(NameValidationError::TooShort { min: MIN_NAME_LENGTH, actual: 0 });
    }
    let raw_labels = split_labels(&chars, dot);
    let ghost ls = split_dots(name@.subrange(0, dot as int));
    assert(strings_view(raw_labels@) == ls);
    assert(raw_labels@.len() == ls.len());
    if raw_labels.len() > MAX_SUBDOMAIN_DEPTH {
        return Err(NameValidationError::TooManyLabels {
            max: MAX_SUBDOMAIN_DEPTH,
            actual: raw_labels.len(),
        });
    }
    let mut k: usize = 0;
    proof {
        assert(ls.subrange(0, ls.len() as int) =~= ls);
    }
    while k < raw_labels.len()
        invariant
            k <= raw_labels@.len(),
            strings_view(raw_labels@) == ls,
            first_label_error(ls) == first_label_error(ls.subrange(k as int, ls.len() as int)),
        decreases raw_labels@.len() - k,
    {
        proof {
            lemma_first_label_error_step(ls, k as int);
            assert(ls[k as int] == raw_labels@[k as int]@);
        }
        match check_label(&raw_labels[k]) {
            Some(e) => {
                assert(first_label_error(ls) == Some(e@));
                assert(spec_validate_name(name@, strs_view(reserved@)) == Err::<ValidatedNameView, NameValidationErrorView>(e@));
                return Err(e);
            },
            None => {},
        }
        k += 1;
    }
    proof {
        assert(ls.subrange(ls.len() as int, ls.len() as int) =~= Seq::<Seq<char>>::empty());
        assert(ls.subrange(0, ls.len() as int) =~= ls);
    }
    let mut k: usize = 0;
    while k < raw_labels.len()
        invariant
            k <= raw_labels@.len(),
            strings_view(raw_labels@) == ls,
            first_reserved(ls, strs_view(reserved@)) == first_reserved(
                ls.subrange(k as int, ls.len() as int),
                strs_view(reserved@),
            ),
        decreases raw_labels@.len() - k,
    {
        proof {
            lemma_first_reserved_step(ls, strs_view(reserved@), k as int);
            assert(ls[k as int] == raw_labels@[k as int]@);
        }
        if is_reserved(&raw_labels[k], reserved) {
            let label = raw_labels[k].clone();
            assert(first_reserved(ls, strs_view(reserved@)) == Some(label@));
            assert(first_label_error(ls).is_none());
            assert(spec_validate_name(name@, strs_view(reserved@)) == Err::<ValidatedNameView, NameValidationErrorView>(NameValidationErrorView::ReservedName(label@)));
            return Err(NameValidationError::ReservedName(label));
        }
        k += 1;
    }
    proof {
        assert(ls.subrange(ls.len() as int, ls.len() as int) =~= Seq::<Seq<char>>::empty());
    }
    Ok(ValidatedName { labels: raw_labels, tld })
}

/// Human-readable text of a validation error.
pub open spec fn name_error_text(e: NameValidationErrorView) -> Seq<char> {
    match e {
        NameValidationErrorView::TooShort { min, actual } =>
            "label too short: minimum "@ + dec(min as nat) + " chars, got "@ + dec(actual as nat),
        NameValidationErrorView::TooLong { max, actual } =>
            "label too long: maximum "@ + dec(max as nat) + " chars, got "@ + dec(actual as nat),
        NameValidationErrorView::InvalidCharacter { ch, position } =>
            "invalid character "@ + char_debug_text(ch) + " at position "@ + dec(position as nat),
        NameValidationErrorView::InvalidLabelBoundary => "label must not start or end with a hyphen"@,
        NameValidationErrorView::UnsupportedTld(t) => "unsupported TLD: "@ + str_debug_text(t),
        NameValidationErrorView::MissingTld => "name must include a TLD (e.g. .xlm)"@,
        NameValidationErrorView::InvalidName => "name is structurally malformed"@,
        NameValidationErrorView::ReservedName(l) => "name "@ + str_debug_text(l) + " is reserved"@,
        NameValidationErrorView::TooManyLabels { max, actual } =>
            "too many labels: maximum "@ + dec(max as nat) + ", got "@ + dec(actual as nat),
    }
}

impl NameValidationError {
    /// The error's human-readable message.
    pub fn to_display_string(&self) -> (r: String)
        ensures
            r@ == name_error_text(self@),
    {
        match self {
            NameValidationError::TooShort { min, actual } => {
                let mut s = String::from_str("label too short: minimum ");
                push_decimal(&mut s, *min as u64);
                s.append(" chars, got ");
                push_decimal(&mut s, *actual as u64);
                s
            },
            NameValidationError::TooLong { max, actual } => {
                let mut s = String::from_str("label too long: maximum ");
                push_decimal(&mut s, *max as u64);
                s.append(" chars, got ");
                push_decimal(&mut s, *actual as u64);
                s
            },
            NameValidationError::InvalidCharacter { ch, position } => {
                let mut s = String::from_str("invalid character ");
                push_char_debug(&mut s, *ch);
                s.append(" at position ");
                push_decimal(&mut s, *position as u64);
                s
            },
            NameValidationError::InvalidLabelBoundary => String::from_str("label must not start or end with a hyphen"),
            NameValidationError::UnsupportedTld(t) => {
                let mut s = String::from_str("unsupported TLD: ");
                push_str_debug(&mut s, t.as_str());
                s
            },
            NameValidationError::MissingTld => String::from_str("name must include a TLD (e.g. .xlm)"),
            NameValidationError::InvalidName => String::from_str("name is structurally malformed"),
            NameValidationError::ReservedName(l) => {
                let mut s = String::from_str("name ");
                push_str_debug(&mut s, l.as_str());
                s.append(" is reserved");
                s
            },
            NameValidationError::TooManyLabels { max, actual } => {
                let mut s = String::from_str("too many labels: maximum ");
                push_decimal(&mut s, *max as u64);
                s.append(", got ");
                push_decimal(&mut s, *actual as u64);
                s
            },
        }
    }
}

impl ValidatedName {
    /// Reconstruct the full FQDN.
    pub fn fqdn(&self) -> (r: String)
        ensures
            r@ == join_dots(self@.labels) + seq!['.'] + tld_text(self.tld),
    {
        let ghost ls = self@.labels;
        proof {
            reveal_strlit(".");
            assert("."@ =~= seq!['.']);
        }
        let mut s = String::new();
        let n = self.labels.len();
        let mut i: usize = 0;
        assert(ls.take(0) =~= Seq::<Seq<char>>::empty());
        while i < n
            invariant
                n == self.labels@.len(),
                ls == strings_view(self.labels@),
                i <= n,
                "."@ == seq!['.'],
                s@ == join_dots(ls.take(i as int)),
            decreases n - i,
        {
            assert(ls.take(i as int + 1).drop_last() =~= ls.take(i as int));
            assert(ls.take(i as int + 1).last() == self.labels@[i as int]@);
            if i > 0 {
                s.append(".");
            }
            s.append(self.labels[i].as_str());
            i += 1;
            proof {
                if i == 1 {
                    assert(ls.take(1) =~= seq![ls[0]]);
                    assert(s@ =~= join_dots(ls.take(i as int)));
                } else {
                    assert(s@ =~= join_dots(ls.take(i as int)));
                }
            }
        }
        assert(ls.take(n as int) =~= ls);
        s.append(".");
        s.append(self.tld.as_str());
        s
    }

    /// More than one non-TLD label.
    pub fn is_subdomain(&self) -> (r: bool)
        ensures
            r == (self.labels@.len() > 1),
    {
        self.labels.len() > 1
    }

    /// Leftmost (leaf) label — e.g. `"pay"` for `pay.timmy.xlm`.
    pub fn leaf_label(&self) -> (r: &str)
        requires
            self.labels@.len() > 0,
        ensures
            r@ == self@.labels[0],
    {
        self.labels[0].as_str()
    }

    /// Rightmost (base) label — e.g. `"timmy"` for `pay.timmy.xlm`.
    pub fn base_label(&self) -> (r: &str)
        requires
            self.labels@.len() > 0,
        ensures
            r@ == self@.labels.last(),
    {
        self.labels[self.labels.len() - 1].as_str()
    }
}

/// A successful validation yields at least one label, each of which passes the
/// label checks, and the labels rejoined with the TLD give back the input name.
pub proof fn lemma_validated_name_roundtrip(name: Seq<char>, reserved: Seq<Seq<char>>)
    requires
        spec_validate_name(name, reserved) is Ok,
    ensures
        ({
            let v = spec_validate_name(name, reserved)->Ok_0;
            &&& 1 <= v.labels.len() <= MAX_SUBDOMAIN_DEPTH
            &&& forall|i: int| 0 <= i < v.labels.len() ==> label_error(#[trigger] v.labels[i]).is_none()
            &&& forall|i: int| 0 <= i < v.labels.len() ==> !reserved.contains(#[trigger] v.labels[i])
            &&& join_dots(v.labels) + seq!['.'] + tld_text(v.tld) == name
        }),
{
    let dot = last_dot_index(name);
    lemma_last_dot_props(name);
    let labels_part = name.subrange(0, dot);
    let ls = split_dots(labels_part);
    lemma_split_join(labels_part);
    lemma_split_dots_nonempty(labels_part);
    lemma_first_label_error_none(ls);
    lemma_first_reserved_none(ls, reserved);
    assert(name =~= labels_part + seq!['.'] + name.subrange(dot + 1, name.len() as int));
}

proof fn lemma_last_dot_props(s: Seq<char>)
    ensures
        -1 <= last_dot_index(s) < s.len(),
        last_dot_index(s) >= 0 ==> s[last_dot_index(s)] == '.',
    decreases s.len(),
{
    if s.len() > 0 && s.last() != '.' {
        lemma_last_dot_props(s.drop_last());
    }
}

proof fn lemma_split_join(s: Seq<char>)
    ensures
        join_dots(split_dots(s)) == s,
    decreases s.len(),
{
    lemma_split_dots_nonempty(s);
    if s.len() > 0 {
        let p = s.drop_last();
        lemma_split_join(p);
        lemma_split_dots_nonempty(p);
        let prev = split_dots(p);
        if s.last() == '.' {
            assert(split_dots(s).drop_last() =~= prev);
            assert(s =~= p + seq!['.'] + Seq::<char>::empty());
        } else {
            let cur = split_dots(s);
            assert(cur.drop_last() =~= prev.drop_last());
            if prev.len() == 1 {
                assert(prev.drop_last() =~= Seq::<Seq<char>>::empty());
                assert(s =~= prev[0].push(s.last()));
            } else {
                let a = join_dots(prev.drop_last());
                assert(p == a + seq!['.'] + prev.last());
                assert(s =~= p.push(s.last()));
                assert(s =~= a + seq!['.'] + prev.last().push(s.last()));
                assert(join_dots(cur) == join_dots(cur.drop_last()) + seq!['.'] + cur.last());
            }
        }
    }
}

proof fn lemma_first_label_error_none(ls: Seq<Seq<char>>)
    requires
        first_label_error(ls).is_none(),
    ensures
        forall|i: int| 0 <= i < ls.len() ==> label_error(#[trigger] ls[i]).is_none(),
    decreases ls.len(),
{
    if ls.len() > 0 {
        lemma_first_label_error_none(ls.drop_first());
        assert forall|i: int| 0 <= i < ls.len() implies label_error(#[trigger] ls[i]).is_none() by {
            if i > 0 {
                assert(ls[i] == ls.drop_first()[i - 1]);
            }
        }
    }
}

proof fn lemma_first_reserved_none(ls: Seq<Seq<char>>, reserved: Seq<Seq<char>>)
    requires
        first_reserved(ls, reserved).is_none(),
    ensures
        forall|i: int| 0 <= i < ls.len() ==> !reserved.contains(#[trigger] ls[i]),
    decreases ls.len(),
{
    if ls.len() > 0 {
        lemma_first_reserved_none(ls.drop_first(), reserved);
        assert forall|i: int| 0 <= i < ls.len() implies !reserved.contains(#[trigger] ls[i]) by {
            if i > 0 {
                assert(ls[i] == ls.drop_first()[i - 1]);
            }
        }
    }
}


proof fn lemma_first_bad_char(l: Seq<char>, k: int)
    requires
        0 <= k < l.len(),
        !is_label_char(l[k]),
    ensures
        exists|i: int| 0 <= i < l.len() && !is_label_char(l[i]) && label_chars_upto(l, i),
    decreases k,
{
    if !label_chars_upto(l, k) {
        let j = choose|j: int| 0 <= j < k && !#[trigger] is_label_char(l[j]);
        lemma_first_bad_char(l, j);
    }
}

proof fn lemma_clean_labels(ls: Seq<Seq<char>>)
    requires
        first_label_error(ls) is None,
    ensures
        forall|i: int, j: int| 0 <= i < ls.len() && 0 <= j < ls[i].len() ==> {
            let c = #[trigger] ls[i][j];
            ('a' <= c && c <= 'z') || ('0' <= c && c <= '9') || c == '-'
        },
    decreases ls.len(),
{
    if ls.len() > 0 {
        assert(label_error(ls[0]) is None);
        assert forall|j: int| 0 <= j < ls[0].len() implies #[trigger] is_label_char(ls[0][j]) by {
            if !is_label_char(ls[0][j]) {
                lemma_first_bad_char(ls[0], j);
            }
        }
        lemma_clean_labels(ls.drop_first());
        assert forall|i: int, j: int| 0 <= i < ls.len() && 0 <= j < ls[i].len() implies {
            let c = #[trigger] ls[i][j];
            ('a' <= c && c <= 'z') || ('0' <= c && c <= '9') || c == '-'
        } by {
            if i > 0 {
                assert(ls[i] == ls.drop_first()[i - 1]);
            } else {
                assert(is_label_char(ls[0][j]));
            }
        }
    }
}

/// A name that validates is made only of lower-case ASCII letters, digits
/// and hyphens in each of its labels; any other character is refused.
pub proof fn lemma_validated_labels_use_label_characters(name: Seq<char>, reserved: Seq<Seq<char>>)
    requires
        spec_validate_name(name, reserved) is Ok,
    ensures
        forall|i: int, j: int|
            0 <= i < spec_validate_name(name, reserved)->Ok_0.labels.len()
            && 0 <= j < spec_validate_name(name, reserved)->Ok_0.labels[i].len() ==> {
                let c = #[trigger] spec_validate_name(name, reserved)->Ok_0.labels[i][j];
                ('a' <= c && c <= 'z') || ('0' <= c && c <= '9') || c == '-'
            },
{
    let dot = last_dot_index(name);
    let ls = split_dots(name.subrange(0, dot));
    assert(first_label_error(ls) is None);
    lemma_clean_labels(ls);
}
} // verus!
