//! What the lookup commands (`whois`, `portfolio`, `resolve`, `text get`,
//! `nft inspect`) print for what they found.
use vstd::prelude::*;
use crate::errors::{sdk_message, SdkError};
use crate::fmt::{dec, push_decimal};
use crate::text::{join_with, string_of, string_views, join_strings};
use crate::watch::{datetime_text, format_datetime, FIRST_DATE_SECOND, LAST_DATE_SECOND};

verus! {

/// An optional text, or `[UNKNOWN]` when absent.
pub open spec fn or_unknown(o: Option<String>) -> Seq<char> {
    match o {
        Some(s) => s@,
        None => "[UNKNOWN]"@,
    }
}

fn push_or_unknown(r: &mut String, o: &Option<String>)
    ensures
        final(r)@ == old(r)@ + or_unknown(*o),
{
    match o {
        Some(s) => r.append(s.as_str()),
        None => r.append("[UNKNOWN]"),
    }
}

/// The whois report of a registered name.
pub open spec fn whois_found(
    name: Seq<char>,
    owner: Option<String>,
    expires_at: Option<i64>,
    resolver: Option<String>,
    registry: Option<String>,
    rpc_url: Seq<char>,
) -> Seq<char> {
    name + "\n  Owner: "@ + or_unknown(owner) + "\n  Expires at: "@ + match expires_at {
        Some(e) => datetime_text(e),
        None => "[UNKNOWN]"@,
    } + "\n  Resolver: "@ + or_unknown(resolver) + "\n  Registry: "@ + or_unknown(registry) + "\n  RPC: "@ + rpc_url
}

/// The whois report of a registered name: its owner, expiry, resolver, the
/// registry it was read from and the RPC server asked; what is unknown is
/// written `[UNKNOWN]`.
pub fn whois_found_text(
    name: &str,
    owner: &Option<String>,
    expires_at: Option<i64>,
    resolver: &Option<String>,
    registry: &Option<String>,
    rpc_url: &str,
) -> (r: String)
    requires
        expires_at matches Some(e) ==> FIRST_DATE_SECOND <= e <= LAST_DATE_SECOND,
    ensures
        r@ == whois_found(name@, *owner, expires_at, *resolver, *registry, rpc_url@),
{
    let mut r = string_of(name);
    r.append("\n  Owner: ");
    push_or_unknown(&mut r, owner);
    r.append("\n  Expires at: ");
    match expires_at {
        Some(e) => {
            let t = format_datetime(e);
            r.append(t.as_str());
        },
        None => r.append("[UNKNOWN]"),
    }
    r.append("\n  Resolver: ");
    push_or_unknown(&mut r, resolver);
    r.append("\n  Registry: ");
    push_or_unknown(&mut r, registry);
    r.append("\n  RPC: ");
    r.append(rpc_url);
    r
}

/// The whois report of a name that is not registered.
pub fn whois_missing_text(name: &str) -> (r: String)
    ensures
        r@ == name@ + "\n  Status: [NOT REGISTERED]"@,
{
    let mut r = string_of(name);
    r.append("\n  Status: [NOT REGISTERED]");
    r
}

/// The message printed when the lookup itself failed.
pub fn whois_error_text(name: &str, err: &SdkError) -> (r: String)
    ensures
        r@ == "ERROR: Failed to fetch registration for "@ + name@ + ": "@ + sdk_message(*err),
{
    let mut r = string_of("ERROR: Failed to fetch registration for ");
    r.append(name);
    r.append(": ");
    let t = err.to_display_string();
    r.append(t.as_str());
    r
}

/// The portfolio line of one name.
pub open spec fn portfolio_line(name: Seq<char>, expires_at: Option<u64>) -> Seq<char> {
    "  - "@ + name + " (expires_at: "@ + match expires_at {
        Some(e) => dec(e as nat),
        None => "unknown"@,
    } + ")"@
}

/// The lines of the human portfolio of `owner`.
pub open spec fn portfolio_lines(owner: Seq<char>, names: Seq<(String, Option<u64>)>) -> Seq<Seq<char>> {
    seq!["Portfolio for "@ + owner + ":"@] + if names.len() == 0 {
        seq!["  [no names found]"@]
    } else {
        names.map_values(|p: (String, Option<u64>)| portfolio_line(p.0@, p.1))
    }
}

/// The human portfolio of `owner`: each name it holds with its expiry.
pub fn portfolio_text(owner: &str, names: &[(String, Option<u64>)]) -> (r: String)
    ensures
        r@ == join_with(portfolio_lines(owner@, names@), "\n"@),
{
    let mut lines: Vec<String> = Vec::new();
    let mut head = string_of("Portfolio for ");
    head.append(owner);
    head.append(":");
    lines.push(head);
    if names.len() == 0 {
        lines.push(string_of("  [no names found]"));
        assert(string_views(lines@) =~= portfolio_lines(owner@, names@));
        return join_strings(lines.as_slice(), "\n");
    }
    let ghost top = string_views(lines@);
    let mut i: usize = 0;
    while i < names.len()
        invariant
            i <= names@.len(),
            string_views(lines@) == top + names@.subrange(0, i as int).map_values(|p: (String, Option<u64>)| portfolio_line(p.0@, p.1)),
        decreases names@.len() - i,
    {
        let mut line = string_of("  - ");
        line.append(names[i].0.as_str());
        line.append(" (expires_at: ");
        match names[i].1 {
            Some(e) => push_decimal(&mut line, e),
            None => line.append("unknown"),
        }
        line.append(")");
        let ghost before = string_views(lines@);
        let ghost lv = line@;
        lines.push(line);
        assert(string_views(lines@) =~= before.push(lv));
        assert(names@.subrange(0, i + 1).map_values(|p: (String, Option<u64>)| portfolio_line(p.0@, p.1))
            =~= names@.subrange(0, i as int).map_values(|p: (String, Option<u64>)| portfolio_line(p.0@, p.1)).push(lv));
        i += 1;
    }
    assert(names@.subrange(0, i as int) =~= names@);
    assert(string_views(lines@) =~= portfolio_lines(owner@, names@));
    join_strings(lines.as_slice(), "\n")
}

/// The message printed when the portfolio lookup failed.
pub fn portfolio_error_text(owner: &str, err: &SdkError) -> (r: String)
    ensures
        r@ == "ERROR: Failed to fetch portfolio for "@ + owner@ + ": "@ + sdk_message(*err),
{
    let mut r = string_of("ERROR: Failed to fetch portfolio for ");
    r.append(owner);
    r.append(": ");
    let t = err.to_display_string();
    r.append(t.as_str());
    r
}

/// The lines `resolve` prints for a name that resolves to `address`.
pub open spec fn resolution_lines(
    name: Seq<char>,
    address: Seq<char>,
    resolver: Option<String>,
    is_wildcard: bool,
    expires_at: Option<u64>,
) -> Seq<Seq<char>> {
    seq!["Name: "@ + name + "\nAddress: "@ + address]
        + match resolver {
            Some(r) => seq!["Resolver: "@ + r@],
            None => Seq::empty(),
        }
        + seq!["Resolved via wildcard: "@ + if is_wildcard { "yes"@ } else { "no"@ }]
        + match expires_at {
            Some(e) => seq!["Expires at: "@ + dec(e as nat)],
            None => Seq::empty(),
        }
}

/// What `resolve` prints for a name that resolves to `address`.
pub fn resolution_text(
    name: &str,
    address: &str,
    resolver: &Option<String>,
    is_wildcard: bool,
    expires_at: Option<u64>,
) -> (r: String)
    ensures
        r@ == join_with(resolution_lines(name@, address@, *resolver, is_wildcard, expires_at), "\n"@),
{
    let mut lines: Vec<String> = Vec::new();
    let mut first = string_of("Name: ");
    first.append(name);
    first.append("\nAddress: ");
    first.append(address);
    lines.push(first);
    match resolver {
        Some(r) => {
            let mut l = string_of("Resolver: ");
            l.append(r.as_str());
            lines.push(l);
        },
        None => {},
    }
    let mut w = string_of("Resolved via wildcard: ");
    if is_wildcard {
        w.append("yes");
    } else {
        w.append("no");
    }
    lines.push(w);
    match expires_at {
        Some(e) => {
            let mut l = string_of("Expires at: ");
            push_decimal(&mut l, e);
            lines.push(l);
        },
        None => {},
    }
    assert(string_views(lines@) =~= resolution_lines(name@, address@, *resolver, is_wildcard, expires_at));
    join_strings(lines.as_slice(), "\n")
}

/// The error of a name that does not resolve.
pub fn unresolved_message(name: &str) -> (r: String)
    ensures
        r@ == "Name '"@ + name@ + "' not found or has no resolution"@,
{
    let mut r = string_of("Name '");
    r.append(name);
    r.append("' not found or has no resolution");
    r
}

/// What `text get` prints for a text record.
pub fn text_record_line(name: &str, key: &str, value: &Option<String>) -> (r: String)
    ensures
        r@ == name@ + ": "@ + key@ + " = "@ + match *value {
            Some(v) => "\""@ + v@ + "\""@,
            None => "[NOT SET]"@,
        },
{
    let mut r = string_of(name);
    r.append(": ");
    r.append(key);
    r.append(" = ");
    match value {
        Some(v) => {
            r.append("\"");
            r.append(v.as_str());
            r.append("\"");
        },
        None => r.append("[NOT SET]"),
    }
    r
}

/// What `nft inspect` prints for a token.
pub fn token_text(token_id: &str, owner: &str, metadata_uri: &Option<String>, nft_contract_id: &str) -> (r: String)
    ensures
        r@ == "Token "@ + token_id@ + "\n  Owner: "@ + owner@ + "\n  Metadata URI: "@ + match *metadata_uri {
            Some(u) => u@,
            None => "[NONE]"@,
        } + "\n  NFT: "@ + nft_contract_id@,
{
    let mut r = string_of("Token ");
    r.append(token_id);
    r.append("\n  Owner: ");
    r.append(owner);
    r.append("\n  Metadata URI: ");
    match metadata_uri {
        Some(u) => r.append(u.as_str()),
        None => r.append("[NONE]"),
    }
    r.append("\n  NFT: ");
    r.append(nft_contract_id);
    r
}

/// The error of a token lookup that failed.
pub fn token_error_text(token_id: &str, err: &SdkError) -> (r: String)
    ensures
        r@ == "ERROR: Failed to inspect token "@ + token_id@ + ": "@ + sdk_message(*err),
{
    let mut r = string_of("ERROR: Failed to inspect token ");
    r.append(token_id);
    r.append(": ");
    let t = err.to_display_string();
    r.append(t.as_str());
    r
}

} // verus!
