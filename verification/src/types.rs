//! Shared name types: the top-level domain and the off-chain name record.
use vstd::prelude::*;
use crate::constants::DEFAULT_TTL_SECONDS;
use crate::text::{str_eq, string_of};
use crate::time::{
    grace_period_ends_at, is_active_at, is_claimable_at, spec_grace_period_ends_at,
    spec_is_active_at, spec_is_claimable_at, spec_within_grace_period, within_grace_period,
};

verus! {

/// Supported top-level domains.
#[derive(Debug, Clone, Copy, PartialEq, Eq, Structural)]
pub enum Tld {
    Xlm,
}

/// The characters `x`, `l`, `m`.
pub open spec fn xlm_chars() -> Seq<char> {
    seq!['x', 'l', 'm']
}

/// The text of a top-level domain.
pub open spec fn tld_text(tld: Tld) -> Seq<char> {
    match tld {
        Tld::Xlm => xlm_chars(),
    }
}

impl Tld {
    /// The TLD's text, without the leading dot.
    pub fn as_str(&self) -> (r: &'static str)
        ensures
            r@ == tld_text(*self),
    {
        proof {
            reveal_strlit("xlm");
            assert("xlm"@ =~= xlm_chars());
        }
        match self {
            Tld::Xlm => "xlm",
        }
    }

    /// Parses a TLD from its text; only `xlm` is supported.
    pub fn parse(value: &str) -> (r: Option<Tld>)
        ensures
            r == (if value@ == xlm_chars() { Some(Tld::Xlm) } else { None::<Tld> }),
    {
        proof {
            reveal_strlit("xlm");
            assert("xlm"@ =~= xlm_chars());
        }
        if str_eq(value, "xlm") {
            Some(Tld::Xlm)
        } else {
            None
        }
    }
}

/// Off-chain record of a registered name.
#[derive(Debug, Clone, PartialEq, Eq)]
pub struct NameRecord {
    pub label: String,
    pub tld: Tld,
    pub owner: String,
    pub resolver: Option<String>,
    pub target_address: Option<String>,
    pub ttl_seconds: u64,
    pub registered_at: u64,
    pub expires_at: u64,
    pub grace_period_ends_at: u64,
}

impl NameRecord {
    /// A fresh `.xlm` record with no resolver and the default TTL.
    pub fn new(
        label: &str,
        owner: &str,
        target_address: Option<String>,
        registered_at: u64,
        expires_at: u64,
        grace_period_ends_at: u64,
    ) -> (r: NameRecord)
        ensures
            r.label@ == label@,
            r.tld == Tld::Xlm,
            r.owner@ == owner@,
            r.resolver.is_none(),
            r.target_address == target_address,
            r.ttl_seconds == DEFAULT_TTL_SECONDS,
            r.registered_at == registered_at,
            r.expires_at == expires_at,
            r.grace_period_ends_at == grace_period_ends_at,
    {
        NameRecord {
            label: string_of(label),
            tld: Tld::Xlm,
            owner: string_of(owner),
            resolver: None,
            target_address,
            ttl_seconds: DEFAULT_TTL_SECONDS,
            registered_at,
            expires_at,
            grace_period_ends_at,
        }
    }

    /// `label.tld`.
    pub fn fqdn(&self) -> (r: String)
        ensures
            r@ == self.label@ + seq!['.'] + tld_text(self.tld),
    {
        proof {
            reveal_strlit(".");
        }
        let mut s = self.label.clone();
        s.append(".");
        s.append(self.tld.as_str());
        s
    }

    /// Active up to and including the expiry instant.
    pub fn is_active_at(&self, now_unix: u64) -> (r: bool)
        ensures
            r == spec_is_active_at(self.expires_at, now_unix),
    {
        is_active_at(self.expires_at, now_unix)
    }

    /// Within the default grace period that follows expiry.
    pub fn is_in_grace_period(&self, now_unix: u64) -> (r: bool)
        ensures
            r == spec_within_grace_period(self.expires_at, now_unix),
    {
        within_grace_period(self.expires_at, now_unix)
    }

    /// Strictly after the recorded grace-period end.
    pub fn is_claimable_at(&self, now_unix: u64) -> (r: bool)
        ensures
            r == spec_is_claimable_at(self.grace_period_ends_at, now_unix),
    {
        is_claimable_at(self.grace_period_ends_at, now_unix)
    }

    /// Replaces the owner.
    pub fn set_owner(&mut self, owner: &str)
        ensures
            final(self).owner@ == owner@,
            final(self).label == old(self).label,
            final(self).tld == old(self).tld,
            final(self).resolver == old(self).resolver,
            final(self).target_address == old(self).target_address,
            final(self).ttl_seconds == old(self).ttl_seconds,
            final(self).registered_at == old(self).registered_at,
            final(self).expires_at == old(self).expires_at,
            final(self).grace_period_ends_at == old(self).grace_period_ends_at,
    {
        self.owner = string_of(owner);
    }

    /// Replaces the resolver.
    pub fn set_resolver(&mut self, resolver: Option<String>)
        ensures
            *final(self) == (NameRecord { resolver, ..*old(self) }),
    {
        self.resolver = resolver;
    }

    /// Replaces the target address.
    pub fn set_target_address(&mut self, target_address: Option<String>)
        ensures
            *final(self) == (NameRecord { target_address, ..*old(self) }),
    {
        self.target_address = target_address;
    }

    /// Replaces the expiry and the grace-period end.
    pub fn extend_expiry(&mut self, expires_at: u64, grace_period_ends_at: u64)
        ensures
            *final(self) == (NameRecord { expires_at, grace_period_ends_at, ..*old(self) }),
    {
        self.expires_at = expires_at;
        self.grace_period_ends_at = grace_period_ends_at;
    }

    /// Default grace-period end for a record expiring at `expires_at`.
    pub fn next_grace_period_ends_at(expires_at: u64) -> (r: u64)
        ensures
            r == spec_grace_period_ends_at(expires_at),
    {
        grace_period_ends_at(expires_at)
    }
}

} // verus!
