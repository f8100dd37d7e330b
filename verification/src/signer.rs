//! Signer profiles: the public identity of a write command's signer, found in
//! environment variables named after the profile. The secret is only checked
//! for presence; it never enters a profile.
use vstd::prelude::*;
use crate::text::{ascii_upper, ascii_upper_chars, push_char, strip_both, string_of, trim_text};

verus! {

/// Where a profile's material lives.
#[derive(Debug, Clone)]
pub enum SignerSource {
    Environment { public_var: String, secret_var: String },
}

/// A resolved signer: its name, public address and source.
#[derive(Debug, Clone)]
pub struct SignerProfile {
    pub name: String,
    pub public_address: String,
    pub source: SignerSource,
}

/// Why a profile could not be loaded.
#[derive(Debug, Clone)]
pub enum SignerError {
    MissingPublic { var: String },
    MissingSecret { var: String },
    EmptyProfileName,
}

/// The text of a signer error.
pub open spec fn signer_error_text(e: SignerError) -> Seq<char> {
    match e {
        SignerError::MissingPublic { var } => "signer profile is missing public address; expected env var "@ + var@,
        SignerError::MissingSecret { var } => "signer profile is missing signing material; expected env var "@ + var@,
        SignerError::EmptyProfileName => "signer profile name must not be empty"@,
    }
}

impl SignerError {
    /// The text of this error (its `Display` form).
    pub fn to_display_string(&self) -> (r: String)
        ensures
            r@ == signer_error_text(*self),
    {
        match self {
            SignerError::MissingPublic { var } => {
                let mut s = String::from_str("signer profile is missing public address; expected env var ");
                s.append(var.as_str());
                s
            },
            SignerError::MissingSecret { var } => {
                let mut s = String::from_str("signer profile is missing signing material; expected env var ");
                s.append(var.as_str());
                s
            },
            SignerError::EmptyProfileName => String::from_str("signer profile name must not be empty"),
        }
    }
}

/// Why a secret key could not be used.
#[derive(Debug, Clone, Copy, PartialEq, Eq, Structural)]
pub enum SigningKeyError {
    InvalidSecret,
}

impl SigningKeyError {
    /// The text of this error (its `Display` form).
    pub fn to_display_string(&self) -> (r: String)
        ensures
            r@ == "invalid secret key"@,
    {
        String::from_str("invalid secret key")
    }
}

/// A profile name as it appears in variable names: upper-cased, `-` as `_`.
pub open spec fn profile_slug(trimmed: Seq<char>) -> Seq<char> {
    ascii_upper(trimmed).map_values(|c: char| if c == '-' { '_' } else { c })
}

/// The variable holding a profile's public address.
pub open spec fn public_var_text(trimmed: Seq<char>) -> Seq<char> {
    "XLM_NS_SIGNER_"@ + profile_slug(trimmed) + "_PUBLIC"@
}

/// The variable holding a profile's secret.
pub open spec fn secret_var_text(trimmed: Seq<char>) -> Seq<char> {
    "XLM_NS_SIGNER_"@ + profile_slug(trimmed) + "_SECRET"@
}

/// The trimmed profile name and the names of its public and secret variables;
/// an empty name (after trimming) is an error.
pub fn signer_env_vars(name: &str) -> (r: Result<(String, String, String), SignerError>)
    ensures
        match r {
            Ok((n, p, s)) => strip_both(name@, false).len() > 0 && n@ == strip_both(name@, false)
                && p@ == public_var_text(n@) && s@ == secret_var_text(n@),
            Err(e) => strip_both(name@, false).len() == 0 && e is EmptyProfileName,
        },
{
    let trimmed = trim_text(name);
    if trimmed.as_str().unicode_len() == 0 {
        return Err(SignerError::EmptyProfileName);
    }
    let upper = ascii_upper_chars(trimmed.as_str());
    let mut slug = String::new();
    let mut i: usize = 0;
    while i < upper.len()
        invariant
            i <= upper@.len(),
            upper@ == ascii_upper(trimmed@),
            slug@ == profile_slug(trimmed@).subrange(0, i as int),
        decreases upper@.len() - i,
    {
        let c = upper[i];
        push_char(&mut slug, if c == '-' { '_' } else { c });
        i += 1;
        assert(slug@ =~= profile_slug(trimmed@).subrange(0, i as int));
    }
    assert(profile_slug(trimmed@).subrange(0, i as int) =~= profile_slug(trimmed@));
    let mut public_var = String::from_str("XLM_NS_SIGNER_");
    public_var.append(slug.as_str());
    public_var.append("_PUBLIC");
    let mut secret_var = String::from_str("XLM_NS_SIGNER_");
    secret_var.append(slug.as_str());
    secret_var.append("_SECRET");
    Ok((trimmed, public_var, secret_var))
}

/// The profile named `name` given what the environment holds: the value of its
/// public variable (if set) and whether its secret variable is set.
pub fn profile_from_env(name: &str, public_value: Option<String>, secret_present: bool) -> (r: Result<SignerProfile, SignerError>)
    ensures
        strip_both(name@, false).len() == 0 ==> r matches Err(SignerError::EmptyProfileName),
        strip_both(name@, false).len() > 0 ==> match r {
            Ok(p) => public_value matches Some(v) && secret_present && p.public_address@ == v@
                && p.name@ == strip_both(name@, false)
                && (p.source matches SignerSource::Environment { public_var, secret_var }
                    && public_var@ == public_var_text(strip_both(name@, false))
                    && secret_var@ == secret_var_text(strip_both(name@, false))),
            Err(SignerError::MissingPublic { var }) => public_value is None && var@ == public_var_text(strip_both(name@, false)),
            Err(SignerError::MissingSecret { var }) => public_value is Some && !secret_present
                && var@ == secret_var_text(strip_both(name@, false)),
            Err(SignerError::EmptyProfileName) => false,
        },
{
    let (trimmed, public_var, secret_var) = match signer_env_vars(name) {
        Ok(t) => t,
        Err(e) => return Err(e),
    };
    let public_address = match public_value {
        Some(v) => v,
        None => return Err(SignerError::MissingPublic { var: public_var }),
    };
    if !secret_present {
        return Err(SignerError::MissingSecret { var: secret_var });
    }
    Ok(SignerProfile {
        name: trimmed,
        public_address,
        source: SignerSource::Environment { public_var, secret_var },
    })
}

/// The safe description of a profile.
pub open spec fn profile_text(p: SignerProfile) -> Seq<char> {
    match p.source {
        SignerSource::Environment { public_var, secret_var } =>
            "profile '"@ + p.name@ + "' -> "@ + p.public_address@ + " (public env: "@ + public_var@
                + ", secret env: "@ + secret_var@ + ")"@,
    }
}

impl SignerProfile {
    /// A short, safe description for logs; never any secret.
    pub fn describe(&self) -> (r: String)
        ensures
            r@ == profile_text(*self),
    {
        match &self.source {
            SignerSource::Environment { public_var, secret_var } => {
                let mut s = String::from_str("profile '");
                s.append(self.name.as_str());
                s.append("' -> ");
                s.append(self.public_address.as_str());
                s.append(" (public env: ");
                s.append(public_var.as_str());
                s.append(", secret env: ");
                s.append(secret_var.as_str());
                s.append(")");
                s
            },
        }
    }
}

/// The treasury an auction is created with: the signer's public address, or,
/// without a signer, the placeholder account `G` followed by 55 `A`s.
pub open spec fn treasury_of(signer: Option<SignerProfile>) -> Seq<char> {
    match signer {
        Some(p) => p.public_address@,
        None => seq!['G'] + Seq::new(55, |i: int| 'A'),
    }
}

/// The treasury an auction is created with.
pub fn auction_treasury(signer: &Option<SignerProfile>) -> (r: String)
    ensures
        r@ == treasury_of(*signer),
{
    match signer {
        Some(p) => p.public_address.clone(),
        None => {
            let mut r = string_of("G");
            proof {
                reveal_strlit("G");
            }
            assert(r@ =~= seq!['G'] + Seq::new(0, |i: int| 'A'));
            let mut k: usize = 0;
            while k < 55
                invariant
                    k <= 55,
                    r@ == seq!['G'] + Seq::new(k as nat, |i: int| 'A'),
                decreases 55 - k,
            {
                push_char(&mut r, 'A');
                k += 1;
                assert(r@ =~= seq!['G'] + Seq::new(k as nat, |i: int| 'A'));
            }
            r
        },
    }
}

} // verus!
