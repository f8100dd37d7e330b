//! Lifecycle arithmetic for names: expiry, grace period and claimability.
use vstd::prelude::*;
use crate::constants::{GRACE_PERIOD_SECONDS, YEAR_SECONDS};

verus! {

/// `x` clamped into the range of `u64`.
pub open spec fn saturate_u64(x: int) -> u64 {
    if x > u64::MAX { u64::MAX } else if x < 0 { 0 } else { x as u64 }
}

/// A name is active up to and including its expiry instant.
pub open spec fn spec_is_active_at(expires_at: u64, now_unix: u64) -> bool {
    now_unix <= expires_at
}

/// End of the default grace period that follows `expiry_unix`.
pub open spec fn spec_grace_period_ends_at(expiry_unix: u64) -> u64 {
    saturate_u64(expiry_unix + GRACE_PERIOD_SECONDS)
}

/// Strictly after expiry, up to and including the end of the default grace period.
pub open spec fn spec_within_grace_period(expiry_unix: u64, now_unix: u64) -> bool {
    now_unix > expiry_unix && now_unix <= spec_grace_period_ends_at(expiry_unix)
}

/// Strictly after the end of the grace period.
pub open spec fn spec_is_claimable_at(grace_period_ends_at: u64, now_unix: u64) -> bool {
    now_unix > grace_period_ends_at
}

/// Expiry `years` registration years after `now_unix`, saturating at `u64::MAX`.
pub fn expiry_from_now(now_unix: u64, years: u64) -> (r: u64)
    ensures
        r == saturate_u64(now_unix + saturate_u64(YEAR_SECONDS * years)),
{
    let span: u64 = match YEAR_SECONDS.checked_mul(years) {
        Some(v) => v,
        None => u64::MAX,
    };
    assert(span == saturate_u64(YEAR_SECONDS * years)) by (nonlinear_arith)
        requires
            span == (if YEAR_SECONDS * years > u64::MAX { u64::MAX as int } else { YEAR_SECONDS * years }),
    ;
    now_unix.saturating_add(span)
}

/// End of the default grace period after `expiry_unix`.
pub fn grace_period_ends_at(expiry_unix: u64) -> (r: u64)
    ensures
        r == spec_grace_period_ends_at(expiry_unix),
{
    grace_period_ends_at_with_duration(expiry_unix, GRACE_PERIOD_SECONDS)
}

/// End of a grace period of `grace_period_seconds` after `expiry_unix`.
pub fn grace_period_ends_at_with_duration(expiry_unix: u64, grace_period_seconds: u64) -> (r: u64)
    ensures
        r == saturate_u64(expiry_unix + grace_period_seconds),
{
    expiry_unix.saturating_add(grace_period_seconds)
}

/// True while `now_unix` is at or before `expires_at`.
pub fn is_active_at(expires_at: u64, now_unix: u64) -> (r: bool)
    ensures
        r == spec_is_active_at(expires_at, now_unix),
{
    now_unix <= expires_at
}

/// True strictly after expiry and no later than the default grace-period end.
pub fn within_grace_period(expiry_unix: u64, now_unix: u64) -> (r: bool)
    ensures
        r == spec_within_grace_period(expiry_unix, now_unix),
{
    now_unix > expiry_unix && now_unix <= grace_period_ends_at(expiry_unix)
}

/// True strictly after `grace_period_ends_at`.
pub fn is_claimable_at(grace_period_ends_at: u64, now_unix: u64) -> (r: bool)
    ensures
        r == spec_is_claimable_at(grace_period_ends_at, now_unix),
{
    now_unix > grace_period_ends_at
}

/// True when `starts_at <= now_unix <= ends_at`.
pub fn is_time_window_open(now_unix: u64, starts_at: u64, ends_at: u64) -> (r: bool)
    ensures
        r == (starts_at <= now_unix && now_unix <= ends_at),
{
    now_unix >= starts_at && now_unix <= ends_at
}

/// Under the default grace period, every instant is in exactly one of the
/// three phases of a name: active, within the grace period, or claimable.
pub proof fn lemma_lifecycle_phases_partition(expiry_unix: u64, now_unix: u64)
    ensures
        spec_is_active_at(expiry_unix, now_unix)
            || spec_within_grace_period(expiry_unix, now_unix)
            || spec_is_claimable_at(spec_grace_period_ends_at(expiry_unix), now_unix),
        !(spec_is_active_at(expiry_unix, now_unix) && spec_within_grace_period(expiry_unix, now_unix)),
        !(spec_is_active_at(expiry_unix, now_unix)
            && spec_is_claimable_at(spec_grace_period_ends_at(expiry_unix), now_unix)),
        !(spec_within_grace_period(expiry_unix, now_unix)
            && spec_is_claimable_at(spec_grace_period_ends_at(expiry_unix), now_unix)),
{
}

/// Once a name stops being active it never becomes active again at a later instant,
/// and once it is claimable it stays claimable.
pub proof fn lemma_lifecycle_is_monotone(expires_at: u64, grace_ends: u64, t1: u64, t2: u64)
    requires
        t1 <= t2,
    ensures
        !spec_is_active_at(expires_at, t1) ==> !spec_is_active_at(expires_at, t2),
        spec_is_claimable_at(grace_ends, t1) ==> spec_is_claimable_at(grace_ends, t2),
{
}

} // verus!
