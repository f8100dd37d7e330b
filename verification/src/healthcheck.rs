//! The `healthcheck` command's checks and its report.
use vstd::prelude::*;
use crate::errors::{sdk_message, SdkError};
use crate::text::{join_with, push_char, string_of, string_views, join_strings};

verus! {

/// One check: its name, whether it passed, and what it found.
#[derive(Clone, Debug)]
pub struct HealthCheck {
    pub name: String,
    pub ok: bool,
    pub detail: String,
}

/// A check as plain values.
pub open spec fn check_view(c: HealthCheck) -> (Seq<char>, bool, Seq<char>) {
    (c.name@, c.ok, c.detail@)
}

/// The configuration check: it passes whenever the configuration loaded.
pub fn config_check(network_name: &str) -> (r: HealthCheck)
    ensures
        check_view(r) == ("config"@, true, "network="@ + network_name@),
{
    let mut detail = string_of("network=");
    detail.append(network_name);
    HealthCheck { name: string_of("config"), ok: true, detail }
}

/// The passphrase check: the configured network passphrase must not be empty.
pub fn passphrase_check(passphrase: &str) -> (r: HealthCheck)
    ensures
        passphrase@.len() > 0 ==> check_view(r) == ("passphrase"@, true, passphrase@),
        passphrase@.len() == 0 ==> check_view(r) == ("passphrase"@, false, "empty — network passphrase is not set"@),
{
    if passphrase.unicode_len() > 0 {
        HealthCheck { name: string_of("passphrase"), ok: true, detail: string_of(passphrase) }
    } else {
        HealthCheck { name: string_of("passphrase"), ok: false, detail: string_of("empty — network passphrase is not set") }
    }
}

/// The RPC check, from the outcome of a probe lookup: a transport failure
/// means the server is unreachable; any other answer, an error included,
/// shows that it is reachable.
pub fn rpc_check(probe: &Result<(), SdkError>, rpc_url: &str) -> (r: HealthCheck)
    ensures
        r.name@ == "rpc"@,
        match probe {
            Ok(()) => r.ok && r.detail@ == "reachable — "@ + rpc_url@,
            Err(SdkError::Transport(m)) => !r.ok && r.detail@ == "unreachable — "@ + m@,
            Err(e) => r.ok && r.detail@ == "reachable ("@ + sdk_message(*e) + ")"@,
        },
{
    match probe {
        Ok(()) => {
            let mut detail = string_of("reachable — ");
            detail.append(rpc_url);
            HealthCheck { name: string_of("rpc"), ok: true, detail }
        },
        Err(SdkError::Transport(m)) => {
            let mut detail = string_of("unreachable — ");
            detail.append(m.as_str());
            HealthCheck { name: string_of("rpc"), ok: false, detail }
        },
        Err(e) => {
            let mut detail = string_of("reachable (");
            let text = e.to_display_string();
            detail.append(text.as_str());
            detail.append(")");
            HealthCheck { name: string_of("rpc"), ok: true, detail }
        },
    }
}

/// Whether every check passed.
pub open spec fn all_pass(checks: Seq<HealthCheck>) -> bool {
    forall|i: int| 0 <= i < checks.len() ==> (#[trigger] checks[i]).ok
}

/// Whether every check passed.
pub fn all_checks_pass(checks: &[HealthCheck]) -> (r: bool)
    ensures
        r == all_pass(checks@),
{
    let mut i: usize = 0;
    while i < checks.len()
        invariant
            i <= checks@.len(),
            forall|j: int| 0 <= j < i ==> (#[trigger] checks@[j]).ok,
        decreases checks@.len() - i,
    {
        if !checks[i].ok {
            return false;
        }
        i += 1;
    }
    true
}

/// `s` padded with spaces on the right to `width` characters, as `{:<width}`
/// writes it.
pub open spec fn pad_right(s: Seq<char>, width: nat) -> Seq<char> {
    if s.len() >= width {
        s
    } else {
        s + Seq::new((width - s.len()) as nat, |i: int| ' ')
    }
}

/// `s` padded with spaces on the right to `width` characters.
pub fn padded(s: &str, width: usize) -> (r: String)
    ensures
        r@ == pad_right(s@, width as nat),
{
    let mut r = string_of(s);
    let n = s.unicode_len();
    if n >= width {
        return r;
    }
    let mut k: usize = n;
    while k < width
        invariant
            n == s@.len(),
            n <= k <= width,
            r@ == s@ + Seq::new((k - n) as nat, |i: int| ' '),
        decreases width - k,
    {
        push_char(&mut r, ' ');
        k += 1;
        assert(r@ =~= s@ + Seq::new((k - n) as nat, |i: int| ' '));
    }
    r
}

/// The report line of one check.
pub open spec fn check_line(c: HealthCheck) -> Seq<char> {
    "    ["@ + (if c.ok { "PASS"@ } else { "FAIL"@ }) + "]  "@ + pad_right(c.name@, 12) + "  "@ + c.detail@
}

/// The report line of one configured contract.
pub open spec fn contract_line(flag: Seq<char>, id: Option<String>) -> Seq<char> {
    "    "@ + pad_right(flag, 22) + "  "@ + match id {
        Some(v) => v@,
        None => "[not configured]"@,
    }
}

/// The lines of the human report, before they are joined with `\n`.
pub open spec fn report_lines(
    network_name: Seq<char>,
    checks: Seq<HealthCheck>,
    contracts: Seq<(String, Option<String>)>,
) -> Seq<Seq<char>> {
    seq!["Healthcheck ["@ + (if all_pass(checks) { "OK"@ } else { "DEGRADED"@ }) + "] — network="@ + network_name, Seq::empty(), "  Checks:"@]
        + checks.map_values(|c: HealthCheck| check_line(c))
        + seq![Seq::empty(), "  Contracts:"@]
        + contracts.map_values(|p: (String, Option<String>)| contract_line(p.0@, p.1))
}

fn check_line_text(c: &HealthCheck) -> (r: String)
    ensures
        r@ == check_line(*c),
{
    let mut r = string_of("    [");
    if c.ok {
        r.append("PASS");
    } else {
        r.append("FAIL");
    }
    r.append("]  ");
    let name = padded(c.name.as_str(), 12);
    r.append(name.as_str());
    r.append("  ");
    r.append(c.detail.as_str());
    r
}

fn contract_line_text(flag: &str, id: &Option<String>) -> (r: String)
    ensures
        r@ == contract_line(flag@, *id),
{
    let mut r = string_of("    ");
    let f = padded(flag, 22);
    r.append(f.as_str());
    r.append("  ");
    match id {
        Some(v) => r.append(v.as_str()),
        None => r.append("[not configured]"),
    }
    r
}

/// The human report: a headline with the overall status, the checks, and
/// the configured contracts, each contract given by its flag name.
pub fn report_text(network_name: &str, checks: &[HealthCheck], contracts: &[(String, Option<String>)]) -> (r: String)
    ensures
        r@ == join_with(report_lines(network_name@, checks@, contracts@), "\n"@),
{
    let all_ok = all_checks_pass(checks);
    let mut lines: Vec<String> = Vec::new();
    let mut head = string_of("Healthcheck [");
    if all_ok {
        head.append("OK");
    } else {
        head.append("DEGRADED");
    }
    head.append("] — network=");
    head.append(network_name);
    lines.push(head);
    lines.push(String::new());
    lines.push(string_of("  Checks:"));
    let ghost top = string_views(lines@);
    let mut i: usize = 0;
    while i < checks.len()
        invariant
            i <= checks@.len(),
            string_views(lines@) == top + checks@.subrange(0, i as int).map_values(|c: HealthCheck| check_line(c)),
        decreases checks@.len() - i,
    {
        let line = check_line_text(&checks[i]);
        let ghost before = string_views(lines@);
        let ghost lv = line@;
        lines.push(line);
        assert(string_views(lines@) =~= before.push(lv));
        assert(checks@.subrange(0, i + 1).map_values(|c: HealthCheck| check_line(c))
            =~= checks@.subrange(0, i as int).map_values(|c: HealthCheck| check_line(c)).push(lv));
        i += 1;
    }
    assert(checks@.subrange(0, i as int) =~= checks@);
    lines.push(String::new());
    lines.push(string_of("  Contracts:"));
    let ghost mid = string_views(lines@);
    assert(mid =~= top + checks@.map_values(|c: HealthCheck| check_line(c)) + seq![Seq::<char>::empty(), "  Contracts:"@]);
    let mut j: usize = 0;
    while j < contracts.len()
        invariant
            j <= contracts@.len(),
            string_views(lines@) == mid + contracts@.subrange(0, j as int).map_values(|p: (String, Option<String>)| contract_line(p.0@, p.1)),
        decreases contracts@.len() - j,
    {
        let line = contract_line_text(contracts[j].0.as_str(), &contracts[j].1);
        let ghost before = string_views(lines@);
        let ghost lv = line@;
        lines.push(line);
        assert(string_views(lines@) =~= before.push(lv));
        assert(contracts@.subrange(0, j + 1).map_values(|p: (String, Option<String>)| contract_line(p.0@, p.1))
            =~= contracts@.subrange(0, j as int).map_values(|p: (String, Option<String>)| contract_line(p.0@, p.1)).push(lv));
        j += 1;
    }
    assert(contracts@.subrange(0, j as int) =~= contracts@);
    assert(string_views(lines@) =~= report_lines(network_name@, checks@, contracts@));
    join_strings(lines.as_slice(), "\n")
}

/// The overall status as the JSON report writes it.
pub fn status_word(all_ok: bool) -> (r: &'static str)
    ensures
        r@ == (if all_ok { "ok"@ } else { "degraded"@ }),
{
    if all_ok {
        "ok"
    } else {
        "degraded"
    }
}

/// The command's outcome: an error when some check failed.
pub fn healthcheck_outcome(checks: &[HealthCheck]) -> (r: Result<(), String>)
    ensures
        r.is_ok() == all_pass(checks@),
        r matches Err(m) ==> m@ == "healthcheck reported a degraded status"@,
{
    if all_checks_pass(checks) {
        Ok(())
    } else {
        Err(string_of("healthcheck reported a degraded status"))
    }
}

} // verus!
