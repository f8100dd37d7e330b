//! Registration pricing by label length.
use vstd::prelude::*;

verus! {

/// Version of the registrar pricing policy; bumped whenever the tiers change.
pub const PRICING_POLICY_VERSION: u32 = 1;

/// Price, in stroops, of a label of `length` bytes.
pub open spec fn spec_price_for_label_length(length: nat) -> u64 {
    if length <= 3 {
        1_000_000_000
    } else if length <= 6 {
        250_000_000
    } else {
        100_000_000
    }
}

/// Short labels cost more: up to 3 bytes, 4 to 6 bytes, and longer labels have
/// their own price tier.
pub fn price_for_label_length(length: usize) -> (r: u64)
    ensures
        r == spec_price_for_label_length(length as nat),
{
    if length <= 3 {
        1_000_000_000
    } else if length <= 6 {
        250_000_000
    } else {
        100_000_000
    }
}

/// A longer label never costs more than a shorter one.
pub proof fn lemma_price_is_monotone(a: nat, b: nat)
    requires
        a <= b,
    ensures
        spec_price_for_label_length(b) <= spec_price_for_label_length(a),
{
}


/// The price tiers: a label of at most 3 bytes costs 1_000_000_000 stroops,
/// one of 4 to 6 bytes 250_000_000, and a longer one 100_000_000.
pub proof fn lemma_price_tiers(length: nat)
    ensures
        length <= 3 ==> spec_price_for_label_length(length) == 1_000_000_000,
        4 <= length <= 6 ==> spec_price_for_label_length(length) == 250_000_000,
        length >= 7 ==> spec_price_for_label_length(length) == 100_000_000,
{
}

} // verus!
