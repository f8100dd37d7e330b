//! Turning failures of commands into friendly reports.
use vstd::prelude::*;
use crate::errors::{code_message, rate_limit_message, sdk_message, signing_message, ContractErrorCode, SdkError};
use crate::fmt::{dec, dec_signed, push_decimal, push_signed_decimal, push_str_debug, str_debug_text};
use crate::report::{
    chain_view, human_text, make_report, opt_report_view, report_of, subject_name, subject_text, tech_or,
    technical_chain, technical_chain_or, technical_with_tx, tx_pieces, ErrorContext, FriendlyError,
    FriendlyView,
};
use crate::report_tables::{code_phrase, contract_phrase, domain_code_phrase, domain_phrase};
use crate::report::ErrorDomain;
use crate::text::{
    ascii_lower, ascii_lower_chars, chars_contain_str, join_with, opt_str_view, opt_string_view,
    parse_u32, parse_u32_text, seq_contains, str_chars, strip_both, string_from_chars, string_views,
    trim_chars,
};

verus! {

/// The pattern of a raw contract error code in a message: `contract error`,
/// then colons or spaces, then the digits (case-insensitive).
pub const CONTRACT_ERROR_PATTERN: &'static str = "(?i)contract error[: ]+(\\d+)";

/// The text of capture group `group` in the leftmost match of the regular
/// expression `pattern` in `text`, as the regex crate finds it; `None` when the
/// pattern does not compile, nothing matches, or the group took no part.
pub uninterp spec fn regex_capture(pattern: Seq<char>, text: Seq<char>, group: nat) -> Option<Seq<char>>;

/// Calls the regex crate: `Regex::new(pattern)`, then `captures(text)`, then
/// `get(group)`. The contract only names the result (`regex_capture`); it is a
/// function of the three arguments.
#[verifier::external_body]
fn first_capture(pattern: &str, text: &str, group: usize) -> (r: Option<String>)
    ensures
        opt_string_view(r) == regex_capture(pattern@, text@, group as nat),
{
    let re = match regex::Regex::new(pattern) {
        Ok(re) => re,
        Err(_) => return None,
    };
    let caps = re.captures(text)?;
    let m = caps.get(group)?;
    Some(m.as_str().to_string())
}

/// The raw contract error code written in a message, if any.
pub open spec fn contract_code_in(text: Seq<char>) -> Option<u32> {
    match regex_capture(CONTRACT_ERROR_PATTERN@, text, 1) {
        Some(d) => parse_u32(d),
        None => None,
    }
}

/// The raw contract error code written in `text` (`contract error 4`,
/// `Contract Error: 12`, ...), when its digits fit in a `u32`.
pub fn extract_contract_code(text: &str) -> (r: Option<u32>)
    ensures
        r == contract_code_in(text@),
{
    match first_capture(CONTRACT_ERROR_PATTERN, text, 1) {
        Some(digits) => parse_u32_text(digits.as_str()),
        None => None,
    }
}

/// A summary built from a template: text, the subject when named, text.
pub open spec fn phrase_summary(pre: Seq<char>, with_subject: bool, post: Seq<char>, ctx: ErrorContext) -> Seq<char> {
    pre + (if with_subject { subject_text(ctx) } else { Seq::empty() }) + post
}

fn phrase_report(
    pre: &str,
    with_subject: bool,
    post: &str,
    suggestion: &str,
    doc: &'static str,
    context: &ErrorContext,
    technical: String,
) -> (r: FriendlyError)
    ensures
        r@ == report_of(phrase_summary(pre@, with_subject, post@, *context), suggestion@, doc@, technical@),
{
    let mut summary = String::from_str(pre);
    if with_subject {
        let subject = subject_name(context);
        summary.append(subject.as_str());
    }
    summary.append(post);
    proof {
        if !with_subject {
            assert(pre@ + Seq::<char>::empty() =~= pre@);
        }
    }
    make_report(summary, suggestion, doc, technical)
}

/// The report for a contract error the tables do not know.
pub open spec fn unknown_report(chain: Option<Seq<Seq<char>>>, default_summary: Option<Seq<char>>) -> FriendlyView {
    report_of(
        match default_summary {
            Some(d) => d,
            None => "The contract returned an unknown error"@,
        },
        "Run again with `--verbose` and inspect the log file for the full reason"@,
        "docs/contract-specs.md"@,
        tech_or(chain, "contract error"@),
    )
}

/// The report for a contract error the tables do not know: `default_summary`
/// when given, else a generic summary.
pub fn unknown_contract_error(
    context: &ErrorContext,
    chain: Option<&[String]>,
    default_summary: Option<&str>,
) -> (r: FriendlyError)
    ensures
        r@ == unknown_report(chain_view(chain), opt_str_view(default_summary)),
{
    let summary = match default_summary {
        Some(d) => String::from_str(d),
        None => String::from_str("The contract returned an unknown error"),
    };
    make_report(
        summary,
        "Run again with `--verbose` and inspect the log file for the full reason",
        "docs/contract-specs.md",
        technical_chain_or(chain, "contract error"),
    )
}

/// The report for raw code `code` of a contract of `domain`.
pub open spec fn domain_report(
    domain: ErrorDomain,
    code: u32,
    ctx: ErrorContext,
    chain: Option<Seq<Seq<char>>>,
    default_summary: Option<Seq<char>>,
) -> FriendlyView {
    match domain_phrase(domain, code) {
        Some(p) => report_of(
            phrase_summary(p.0, p.1, p.2, ctx),
            p.3,
            p.4,
            tech_or(chain, "contract error "@ + dec(code as nat)),
        ),
        None => unknown_report(chain, default_summary),
    }
}

/// The report for raw code `code` returned by a contract of `domain`.
pub fn contract_error_for_domain(
    domain: ErrorDomain,
    code: u32,
    context: &ErrorContext,
    chain: Option<&[String]>,
    default_summary: Option<&str>,
) -> (r: FriendlyError)
    ensures
        r@ == domain_report(domain, code, *context, chain_view(chain), opt_str_view(default_summary)),
{
    match domain_code_phrase(domain, code) {
        Some(p) => {
            let mut fallback = String::from_str("contract error ");
            push_decimal(&mut fallback, code as u64);
            let technical = technical_chain_or(chain, fallback.as_str());
            phrase_report(p.0, p.1, p.2, p.3, p.4, context, technical)
        },
        None => unknown_contract_error(context, chain, default_summary),
    }
}

/// The technical fallback for a typed code.
pub open spec fn code_fallback(code: ContractErrorCode) -> Seq<char> {
    match code {
        ContractErrorCode::Other(n) => "contract error: Other("@ + dec(n as nat) + ")"@,
        _ => code_phrase(code).5,
    }
}

/// The report for a typed contract error code.
pub open spec fn code_report(code: ContractErrorCode, ctx: ErrorContext, chain: Option<Seq<Seq<char>>>) -> FriendlyView {
    let p = code_phrase(code);
    report_of(phrase_summary(p.0, p.1, p.2, ctx), p.3, p.4, tech_or(chain, code_fallback(code)))
}

/// The report for a typed contract error code.
pub fn contract_error(code: ContractErrorCode, context: &ErrorContext, chain: Option<&[String]>) -> (r: FriendlyError)
    ensures
        r@ == code_report(code, *context, chain_view(chain)),
{
    let p = contract_phrase(code);
    let fallback = match code {
        ContractErrorCode::Other(n) => {
            let mut f = String::from_str("contract error: Other(");
            push_decimal(&mut f, n as u64);
            f.append(")");
            f
        },
        _ => String::from_str(p.5),
    };
    let technical = technical_chain_or(chain, fallback.as_str());
    phrase_report(p.0, p.1, p.2, p.3, p.4, context, technical)
}

/// The report for a transport failure, by what its message says.
pub open spec fn transport_report(message: Seq<char>, chain: Option<Seq<Seq<char>>>) -> FriendlyView {
    let lower = ascii_lower(message);
    let technical = tech_or(chain, message);
    if seq_contains(lower, "429"@) || seq_contains(lower, "too many requests"@) || seq_contains(lower, "rate limit"@) {
        report_of("The RPC server rate-limited the request"@, "Wait a moment, reduce request frequency, and try again"@,
            "RATE_LIMITING_QUICK_REFERENCE.md"@, technical)
    } else if seq_contains(lower, "timeout"@) || seq_contains(lower, "timed out"@) {
        report_of("The RPC request timed out"@, "Check connectivity and retry the command"@,
            "docs/sdk-integration-tests.md"@, technical)
    } else if seq_contains(lower, "connection refused"@) || seq_contains(lower, "connection reset"@)
        || seq_contains(lower, "network unreachable"@) || seq_contains(lower, "dns"@) {
        report_of("The RPC server could not be reached"@, "Verify the RPC URL and network connectivity, then retry"@,
            "docs/sdk-quickstart.md"@, technical)
    } else {
        report_of("The RPC transport failed"@, "Retry the command or check the RPC endpoint"@,
            "docs/sdk-quickstart.md"@, technical)
    }
}

/// The report for a transport failure.
pub fn transport_error(message: &str, chain: Option<&[String]>) -> (r: FriendlyError)
    ensures
        r@ == transport_report(message@, chain_view(chain)),
{
    let lower = ascii_lower_chars(message);
    let l = lower.as_slice();
    let technical = technical_chain_or(chain, message);
    if chars_contain_str(l, "429") || chars_contain_str(l, "too many requests") || chars_contain_str(l, "rate limit") {
        return make_report(String::from_str("The RPC server rate-limited the request"),
            "Wait a moment, reduce request frequency, and try again", "RATE_LIMITING_QUICK_REFERENCE.md", technical);
    }
    if chars_contain_str(l, "timeout") || chars_contain_str(l, "timed out") {
        return make_report(String::from_str("The RPC request timed out"),
            "Check connectivity and retry the command", "docs/sdk-integration-tests.md", technical);
    }
    if chars_contain_str(l, "connection refused") || chars_contain_str(l, "connection reset")
        || chars_contain_str(l, "network unreachable") || chars_contain_str(l, "dns") {
        return make_report(String::from_str("The RPC server could not be reached"),
            "Verify the RPC URL and network connectivity, then retry", "docs/sdk-quickstart.md", technical);
    }
    make_report(String::from_str("The RPC transport failed"),
        "Retry the command or check the RPC endpoint", "docs/sdk-quickstart.md", technical)
}

/// `t` without surrounding white space, then without surrounding dots.
pub open spec fn trimmed_text(t: Seq<char>) -> Seq<char> {
    strip_both(strip_both(t, false), true)
}

fn trimmed(text: &str) -> (r: String)
    ensures
        r@ == trimmed_text(text@),
{
    let v = str_chars(text);
    assert(v@.subrange(0, v@.len() as int) =~= v@);
    let a = trim_chars(v.as_slice(), 0, v.len(), false);
    assert(a@.subrange(0, a@.len() as int) =~= a@);
    let b = trim_chars(a.as_slice(), 0, a.len(), true);
    assert(b@.subrange(0, b@.len() as int) =~= b@);
    string_from_chars(b.as_slice(), 0, b.len())
}

/// The report for a plain failure message, given the raw contract code written
/// in it (if any); `None` when nothing in the message is recognised.
pub open spec fn text_report(
    text: Seq<char>,
    code: Option<u32>,
    ctx: ErrorContext,
    chain: Option<Seq<Seq<char>>>,
) -> Option<FriendlyView> {
    let lower = ascii_lower(text);
    let technical = tech_or(chain, text);
    if seq_contains(lower, "cannot be used with"@) {
        Some(report_of(trimmed_text(text), "Remove the incompatible flag or switch to the matching command"@,
            "docs/contract-specs.md"@, technical))
    } else if seq_contains(lower, "requires"@) && seq_contains(lower, "contract"@) {
        Some(report_of(trimmed_text(text), "Set the missing contract ID with a flag, environment variable, or config file"@,
            "docs/sdk-quickstart.md"@, technical))
    } else if seq_contains(lower, "not configured"@) {
        Some(report_of(trimmed_text(text), "Create or update your config file, or pass the missing value on the command line"@,
            "docs/sdk-quickstart.md"@, technical))
    } else if seq_contains(lower, "failed to deserialize"@) || seq_contains(lower, "failed to open file"@) {
        Some(report_of(trimmed_text(text), "Check the file path and ensure the input is valid JSON or CSV"@,
            "docs/contract-specs.md"@, technical))
    } else if seq_contains(lower, "healthcheck reported a degraded status"@) {
        Some(report_of("The healthcheck found a degraded dependency"@,
            "Run `xlm-ns healthcheck --verbose` to see which check failed"@, "docs/sdk-integration-tests.md"@, technical))
    } else if code is Some {
        Some(domain_report(ctx.domain, code.unwrap(), ctx, chain, None))
    } else if seq_contains(lower, "already registered"@) {
        Some(domain_report(ctx.domain, 4, ctx, chain, Some("That name is already registered"@)))
    } else if seq_contains(lower, "no primary name"@) {
        Some(report_of(subject_text(ctx) + " does not have a primary name set"@,
            "Set a primary name record or inspect the registry entry for this address"@, "docs/contract-specs.md"@, technical))
    } else if seq_contains(lower, "not registered"@) || seq_contains(lower, "not found"@) {
        Some(domain_report(ctx.domain, 2, ctx, chain, Some("The requested record was not found"@)))
    } else if seq_contains(lower, "expired"@) {
        Some(domain_report(ctx.domain, 3, ctx, chain, Some("The name or record has expired"@)))
    } else if seq_contains(lower, "insufficient balance"@) || seq_contains(lower, "insufficient fee"@) {
        Some(report_of("Insufficient balance to pay the required fee"@, "Fund the account with more XLM and retry"@,
            "docs/sdk-quickstart.md"@, technical))
    } else {
        None
    }
}

/// The report for a plain failure message, given the raw contract code that
/// [`extract_contract_code`] found in it.
pub fn classify_text_given_code(
    text: &str,
    code: Option<u32>,
    context: &ErrorContext,
    chain: Option<&[String]>,
) -> (r: Option<FriendlyError>)
    ensures
        opt_report_view(r) == text_report(text@, code, *context, chain_view(chain)),
{
    let lower = ascii_lower_chars(text);
    let l = lower.as_slice();
    if chars_contain_str(l, "cannot be used with") {
        return Some(make_report(trimmed(text), "Remove the incompatible flag or switch to the matching command",
            "docs/contract-specs.md", technical_chain_or(chain, text)));
    }
    if chars_contain_str(l, "requires") && chars_contain_str(l, "contract") {
        return Some(make_report(trimmed(text), "Set the missing contract ID with a flag, environment variable, or config file",
            "docs/sdk-quickstart.md", technical_chain_or(chain, text)));
    }
    if chars_contain_str(l, "not configured") {
        return Some(make_report(trimmed(text), "Create or update your config file, or pass the missing value on the command line",
            "docs/sdk-quickstart.md", technical_chain_or(chain, text)));
    }
    if chars_contain_str(l, "failed to deserialize") || chars_contain_str(l, "failed to open file") {
        return Some(make_report(trimmed(text), "Check the file path and ensure the input is valid JSON or CSV",
            "docs/contract-specs.md", technical_chain_or(chain, text)));
    }
    if chars_contain_str(l, "healthcheck reported a degraded status") {
        return Some(make_report(String::from_str("The healthcheck found a degraded dependency"),
            "Run `xlm-ns healthcheck --verbose` to see which check failed", "docs/sdk-integration-tests.md",
            technical_chain_or(chain, text)));
    }
    match code {
        Some(c) => {
            return Some(contract_error_for_domain(context.domain, c, context, chain, None));
        },
        None => {},
    }
    if chars_contain_str(l, "already registered") {
        return Some(contract_error_for_domain(context.domain, 4, context, chain, Some("That name is already registered")));
    }
    if chars_contain_str(l, "no primary name") {
        let mut summary = subject_name(context);
        summary.append(" does not have a primary name set");
        return Some(make_report(summary, "Set a primary name record or inspect the registry entry for this address",
            "docs/contract-specs.md", technical_chain_or(chain, text)));
    }
    if chars_contain_str(l, "not registered") || chars_contain_str(l, "not found") {
        return Some(contract_error_for_domain(context.domain, 2, context, chain, Some("The requested record was not found")));
    }
    if chars_contain_str(l, "expired") {
        return Some(contract_error_for_domain(context.domain, 3, context, chain, Some("The name or record has expired")));
    }
    if chars_contain_str(l, "insufficient balance") || chars_contain_str(l, "insufficient fee") {
        return Some(make_report(String::from_str("Insufficient balance to pay the required fee"),
            "Fund the account with more XLM and retry", "docs/sdk-quickstart.md", technical_chain_or(chain, text)));
    }
    None
}

/// The report for a plain failure message; `None` when nothing in it is recognised.
pub fn classify_text(text: &str, context: &ErrorContext, chain: Option<&[String]>) -> (r: Option<FriendlyError>)
    ensures
        opt_report_view(r) == text_report(text@, contract_code_in(text@), *context, chain_view(chain)),
{
    let code = extract_contract_code(text);
    classify_text_given_code(text, code, context, chain)
}


/// The report for a plain message, or `fallback` when nothing in it is recognised.
pub open spec fn text_report_or(
    text: Seq<char>,
    ctx: ErrorContext,
    chain: Option<Seq<Seq<char>>>,
    fallback: FriendlyView,
) -> FriendlyView {
    match text_report(text, contract_code_in(text), ctx, chain) {
        Some(r) => r,
        None => fallback,
    }
}

/// The report for an error of the SDK.
pub open spec fn sdk_report(e: SdkError, ctx: ErrorContext, chain: Option<Seq<Seq<char>>>) -> FriendlyView {
    match e {
        SdkError::InvalidRequest(m) => text_report_or(m@, ctx, chain,
            report_of("The request was invalid: "@ + m@, "Check the command arguments and try again"@,
                "docs/contract-specs.md"@, tech_or(chain, m@))),
        SdkError::Transport(m) => transport_report(m@, chain),
        SdkError::Ingestion(m) => report_of("The RPC ingestion layer returned an error"@,
            "Verify the RPC endpoint is healthy and retry"@, "docs/sdk-integration-tests.md"@, tech_or(chain, m@)),
        SdkError::ContractError(code) => code_report(code, ctx, chain),
        SdkError::NetworkPassphraseMismatch { configured, rpc_reported } => report_of(
            "The configured network passphrase does not match the RPC server"@,
            "Double-check `--network` and `--network-passphrase`, then retry"@, "docs/sdk-integration-tests.md"@,
            tech_or(chain, "configured="@ + str_debug_text(configured@) + ", rpc_reported="@ + str_debug_text(rpc_reported@))),
        SdkError::TransactionPassphraseMismatch { configured, in_transaction } => report_of(
            "The transaction passphrase does not match the configured network"@,
            "Rebuild the transaction against the correct network and submit again"@, "docs/sdk-integration-tests.md"@,
            tech_or(chain, "configured="@ + str_debug_text(configured@) + ", in_transaction="@ + str_debug_text(in_transaction@))),
        SdkError::ContractInvocationFailed { operation, reason, tx_hash } => text_report_or(reason@, ctx, chain,
            report_of(operation@ + " failed"@, "Run with `--verbose` and inspect the debug log for the contract reason"@,
                "docs/contract-specs.md"@, join_with(tx_pieces(chain, reason@, opt_string_view(tx_hash)), " | "@))),
        SdkError::SimulationFailed { operation, reason } => text_report_or(reason@, ctx, chain,
            report_of(operation@ + " simulation failed"@,
                "Check the input values, account balance, and signer permissions, then retry"@,
                "docs/contract-specs.md"@, tech_or(chain, reason@))),
        SdkError::InsufficientFee { operation, required, available } => report_of(
            "Insufficient balance for "@ + operation@ + ": need "@ + dec_signed(required as int)
                + " stroops but only "@ + dec_signed(available as int) + " are available"@,
            "Fund the source account, then rerun the command"@, "docs/sdk-quickstart.md"@,
            tech_or(chain, "required="@ + dec_signed(required as int) + ", available="@ + dec_signed(available as int))),
        SdkError::TransactionTimeout { operation, ledger_submitted } => report_of(
            operation@ + " timed out after submission at ledger "@ + dec(ledger_submitted as nat),
            "Retry the command after the network catches up"@, "docs/sdk-integration-tests.md"@,
            tech_or(chain, "ledger_submitted="@ + dec(ledger_submitted as nat))),
        SdkError::SigningFailed { operation, source } => report_of(operation@ + " signing failed"@,
            "Recheck the signer profile or hardware wallet connection"@, "README.md"@,
            tech_or(chain, signing_message(source))),
        SdkError::RateLimitExceeded(details) => report_of(
            "The RPC rate limit was exceeded after "@ + dec(details.retries as nat) + " retries"@,
            "Wait a moment, reduce the batch size, and retry"@, "RATE_LIMITING_QUICK_REFERENCE.md"@,
            tech_or(chain, rate_limit_message(details))),
    }
}

fn classify_text_or(
    text: &str,
    context: &ErrorContext,
    chain: Option<&[String]>,
    fallback: FriendlyError,
) -> (r: FriendlyError)
    ensures
        r@ == text_report_or(text@, *context, chain_view(chain), fallback@),
{
    match classify_text(text, context, chain) {
        Some(report) => report,
        None => fallback,
    }
}

/// The report for an error of the SDK.
pub fn classify_sdk_error(sdk_error: &SdkError, context: &ErrorContext, chain: Option<&[String]>) -> (r: FriendlyError)
    ensures
        r@ == sdk_report(*sdk_error, *context, chain_view(chain)),
{
    match sdk_error {
        SdkError::InvalidRequest(message) => {
            let mut summary = String::from_str("The request was invalid: ");
            summary.append(message.as_str());
            let fallback = make_report(summary, "Check the command arguments and try again",
                "docs/contract-specs.md", technical_chain_or(chain, message.as_str()));
            classify_text_or(message.as_str(), context, chain, fallback)
        },
        SdkError::Transport(message) => transport_error(message.as_str(), chain),
        SdkError::Ingestion(message) => make_report(String::from_str("The RPC ingestion layer returned an error"),
            "Verify the RPC endpoint is healthy and retry", "docs/sdk-integration-tests.md",
            technical_chain_or(chain, message.as_str())),
        SdkError::ContractError(code) => contract_error(*code, context, chain),
        SdkError::NetworkPassphraseMismatch { configured, rpc_reported } => {
            let mut detail = String::from_str("configured=");
            push_str_debug(&mut detail, configured.as_str());
            detail.append(", rpc_reported=");
            push_str_debug(&mut detail, rpc_reported.as_str());
            make_report(String::from_str("The configured network passphrase does not match the RPC server"),
                "Double-check `--network` and `--network-passphrase`, then retry", "docs/sdk-integration-tests.md",
                technical_chain_or(chain, detail.as_str()))
        },
        SdkError::TransactionPassphraseMismatch { configured, in_transaction } => {
            let mut detail = String::from_str("configured=");
            push_str_debug(&mut detail, configured.as_str());
            detail.append(", in_transaction=");
            push_str_debug(&mut detail, in_transaction.as_str());
            make_report(String::from_str("The transaction passphrase does not match the configured network"),
                "Rebuild the transaction against the correct network and submit again", "docs/sdk-integration-tests.md",
                technical_chain_or(chain, detail.as_str()))
        },
        SdkError::ContractInvocationFailed { operation, reason, tx_hash } => {
            let mut summary = String::from_str(operation);
            summary.append(" failed");
            let tx: Option<&str> = match tx_hash {
                Some(h) => Some(h.as_str()),
                None => None,
            };
            assert(opt_str_view(tx) == opt_string_view(*tx_hash));
            let fallback = make_report(summary, "Run with `--verbose` and inspect the debug log for the contract reason",
                "docs/contract-specs.md", technical_with_tx(chain, reason.as_str(), tx));
            classify_text_or(reason.as_str(), context, chain, fallback)
        },
        SdkError::SimulationFailed { operation, reason } => {
            let mut summary = String::from_str(operation);
            summary.append(" simulation failed");
            let fallback = make_report(summary,
                "Check the input values, account balance, and signer permissions, then retry",
                "docs/contract-specs.md", technical_chain_or(chain, reason.as_str()));
            classify_text_or(reason.as_str(), context, chain, fallback)
        },
        SdkError::InsufficientFee { operation, required, available } => {
            let mut summary = String::from_str("Insufficient balance for ");
            summary.append(operation);
            summary.append(": need ");
            push_signed_decimal(&mut summary, *required);
            summary.append(" stroops but only ");
            push_signed_decimal(&mut summary, *available);
            summary.append(" are available");
            let mut detail = String::from_str("required=");
            push_signed_decimal(&mut detail, *required);
            detail.append(", available=");
            push_signed_decimal(&mut detail, *available);
            make_report(summary, "Fund the source account, then rerun the command", "docs/sdk-quickstart.md",
                technical_chain_or(chain, detail.as_str()))
        },
        SdkError::TransactionTimeout { operation, ledger_submitted } => {
            let mut summary = String::from_str(operation);
            summary.append(" timed out after submission at ledger ");
            push_decimal(&mut summary, *ledger_submitted as u64);
            let mut detail = String::from_str("ledger_submitted=");
            push_decimal(&mut detail, *ledger_submitted as u64);
            make_report(summary, "Retry the command after the network catches up", "docs/sdk-integration-tests.md",
                technical_chain_or(chain, detail.as_str()))
        },
        SdkError::SigningFailed { operation, source } => {
            let mut summary = String::from_str(operation);
            summary.append(" signing failed");
            let detail = source.to_display_string();
            make_report(summary, "Recheck the signer profile or hardware wallet connection", "README.md",
                technical_chain_or(chain, detail.as_str()))
        },
        SdkError::RateLimitExceeded(details) => {
            let mut summary = String::from_str("The RPC rate limit was exceeded after ");
            push_decimal(&mut summary, details.retries as u64);
            summary.append(" retries");
            let detail = details.to_display_string();
            make_report(summary, "Wait a moment, reduce the batch size, and retry", "RATE_LIMITING_QUICK_REFERENCE.md",
                technical_chain_or(chain, detail.as_str()))
        },
    }
}

/// A failed command as the reporting sees it: the SDK error it carries, if any,
/// and the messages of its error chain, outermost first.
pub struct CommandFailure {
    pub sdk: Option<SdkError>,
    pub chain: Vec<String>,
}

impl CommandFailure {
    /// A failure that is an SDK error; its chain is the error's text.
    pub fn from_sdk(e: SdkError) -> (r: CommandFailure)
        ensures
            r.sdk == Some(e),
            string_views(r.chain@) == seq![sdk_message(e)],
    {
        let text = e.to_display_string();
        let chain: Vec<String> = vec![text];
        let r = CommandFailure { sdk: Some(e), chain };
        assert(string_views(r.chain@) =~= seq![sdk_message(e)]);
        r
    }

    /// A failure with a plain message.
    pub fn from_message(message: &str) -> (r: CommandFailure)
        ensures
            r.sdk is None,
            string_views(r.chain@) == seq![message@],
    {
        let chain: Vec<String> = vec![String::from_str(message)];
        let r = CommandFailure { sdk: None, chain };
        assert(string_views(r.chain@) =~= seq![message@]);
        r
    }
}

/// The outermost message of a failure (empty when the chain is).
pub open spec fn headline(f: CommandFailure) -> Seq<char> {
    if f.chain@.len() > 0 { f.chain@[0]@ } else { Seq::empty() }
}

/// The report for a failed command: by its SDK error when it carries one, else
/// by its outermost message, else a generic report with the whole chain.
pub open spec fn failure_report(f: CommandFailure, ctx: ErrorContext) -> FriendlyView {
    let chain = Some(string_views(f.chain@));
    match f.sdk {
        Some(e) => sdk_report(e, ctx, chain),
        None => text_report_or(headline(f), ctx, chain, report_of(
            "The command failed unexpectedly"@,
            "Run again with `--verbose` and check `~/.xlm-ens/error.log` for details"@,
            "docs/contract-specs.md"@,
            join_with(string_views(f.chain@), " | "@),
        )),
    }
}

/// The report for a failed command.
pub fn classify_error(err: &CommandFailure, context: &ErrorContext) -> (r: FriendlyError)
    ensures
        r@ == failure_report(*err, *context),
{
    let chain = err.chain.as_slice();
    assert(chain_view(Some(chain)) == Some(string_views(err.chain@)));
    match &err.sdk {
        Some(e) => classify_sdk_error(e, context, Some(chain)),
        None => {
            proof {
                reveal_strlit("");
            }
            let text = if err.chain.len() > 0 { err.chain[0].as_str() } else { "" };
            let fallback = make_report(String::from_str("The command failed unexpectedly"),
                "Run again with `--verbose` and check `~/.xlm-ens/error.log` for details",
                "docs/contract-specs.md", technical_chain(chain));
            assert(text@ == headline(*err));
            assert(fallback@ == report_of(
            "The command failed unexpectedly"@,
            "Run again with `--verbose` and check `~/.xlm-ens/error.log` for details"@,
            "docs/contract-specs.md"@,
            join_with(string_views(err.chain@), " | "@)));
            classify_text_or(text, context, Some(chain), fallback)
        },
    }
}

/// Everything a command shows when it fails: the report, and the message for a
/// person (with the technical detail when `verbose` holds).
pub fn handle_error(err: &CommandFailure, context: &ErrorContext, verbose: bool) -> (r: (FriendlyError, String))
    ensures
        r.0@ == failure_report(*err, *context),
        r.1@ == human_text(r.0@, verbose),
{
    let report = classify_error(err, context);
    let human = report.human_message(verbose);
    (report, human)
}

} // verus!
