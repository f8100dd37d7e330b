//! The decisions of the interactive `register` command: whether to prompt,
//! how a typed name and a typed answer are read.
use vstd::prelude::*;
use crate::fmt::{dec, push_decimal};
use crate::text::{join_strings, join_with, string_views, ascii_lower, ascii_lower_chars, str_chars, str_eq, string_from_chars, string_of, strip_both, trim_text};

verus! {

/// Whether some input has to be asked for: always in interactive mode, and
/// whenever the name or the owner is missing.
pub open spec fn needs_prompt(interactive: bool, has_name: bool, has_owner: bool) -> bool {
    interactive || !has_name || !has_owner
}

/// Whether the command prompts for its inputs. Prompting needs a terminal;
/// without one, a missing name or owner is an error.
pub fn prompt_for_inputs(interactive: bool, has_name: bool, has_owner: bool, tty_available: bool) -> (r: Result<bool, String>)
    ensures
        r.is_err() <==> (needs_prompt(interactive, has_name, has_owner) && !tty_available && (!has_name || !has_owner)),
        r matches Ok(p) ==> p == (needs_prompt(interactive, has_name, has_owner) && tty_available),
        r matches Err(m) ==> m@ == "interactive registration requires a TTY; provide both name and owner explicitly or run in a terminal"@,
{
    let need = interactive || !has_name || !has_owner;
    if need && !tty_available && (!has_name || !has_owner) {
        return Err(string_of(
            "interactive registration requires a TTY; provide both name and owner explicitly or run in a terminal",
        ));
    }
    Ok(need && tty_available)
}

/// The reading of a confirmation answer: `y`/`yes` accept, an empty answer
/// or `n`/`no` decline (letters in either case, surrounding white space
/// ignored); anything else is asked again.
pub open spec fn confirmation_of(input: Seq<char>) -> Option<bool> {
    let a = ascii_lower(strip_both(input, false));
    if a == "y"@ || a == "yes"@ {
        Some(true)
    } else if a == ""@ || a == "n"@ || a == "no"@ {
        Some(false)
    } else {
        None
    }
}

/// Reads a confirmation answer (`None`: ask again).
pub fn confirmation_answer(input: &str) -> (r: Option<bool>)
    ensures
        r == confirmation_of(input@),
{
    let t = trim_text(input);
    let lower = ascii_lower_chars(t.as_str());
    let a = string_from_chars(lower.as_slice(), 0, lower.len());
    assert(lower@.subrange(0, lower@.len() as int) =~= lower@);
    proof {
        reveal_strlit("y");
        reveal_strlit("yes");
        reveal_strlit("");
        reveal_strlit("n");
        reveal_strlit("no");
    }
    if str_eq(a.as_str(), "y") || str_eq(a.as_str(), "yes") {
        Some(true)
    } else if str_eq(a.as_str(), "") || str_eq(a.as_str(), "n") || str_eq(a.as_str(), "no") {
        Some(false)
    } else {
        None
    }
}

/// What a prompt does with a typed reply.
#[derive(Clone, Debug, PartialEq, Eq)]
pub enum PromptReply {
    /// Nothing typed: take the offered default.
    UseDefault,
    /// Nothing typed and nothing offered: say that a value is required and ask again.
    Required,
    /// Check this value.
    Check(String),
}

/// Reads a typed reply to a prompt that offers `default_value` (empty when
/// nothing is offered).
pub fn prompt_reply(input: &str, default_value: &str) -> (r: PromptReply)
    ensures
        strip_both(input@, false).len() == 0 && default_value@.len() > 0 ==> r == PromptReply::UseDefault,
        strip_both(input@, false).len() == 0 && default_value@.len() == 0 ==> r == PromptReply::Required,
        strip_both(input@, false).len() > 0 ==> (r matches PromptReply::Check(v) && v@ == strip_both(input@, false)),
{
    let t = trim_text(input);
    if t.unicode_len() == 0 {
        if default_value.unicode_len() > 0 {
            PromptReply::UseDefault
        } else {
            PromptReply::Required
        }
    } else {
        PromptReply::Check(t)
    }
}

/// A typed name without surrounding white space and without one trailing
/// `.xlm`.
pub open spec fn label_part(input: Seq<char>) -> Seq<char> {
    let t = strip_both(input, false);
    if t.len() >= 4 && t.subrange(t.len() - 4, t.len() as int) == ".xlm"@ {
        t.subrange(0, t.len() - 4)
    } else {
        t
    }
}

/// The label a typed name stands for (before the label itself is checked).
pub fn label_input(input: &str) -> (r: String)
    ensures
        r@ == label_part(input@),
{
    let t = trim_text(input);
    let v = str_chars(t.as_str());
    let n = v.len();
    proof {
        reveal_strlit(".xlm");
    }
    if n >= 4 && v[n - 4] == '.' && v[n - 3] == 'x' && v[n - 2] == 'l' && v[n - 1] == 'm' {
        assert(v@.subrange(n - 4, n as int) =~= ".xlm"@);
        string_from_chars(v.as_slice(), 0, n - 4)
    } else {
        proof {
            if n >= 4 {
                assert(v@.subrange(n - 4, n as int)[0] == v@[n - 4]);
                assert(v@.subrange(n - 4, n as int)[1] == v@[n - 3]);
                assert(v@.subrange(n - 4, n as int)[2] == v@[n - 2]);
                assert(v@.subrange(n - 4, n as int)[3] == v@[n - 1]);
            }
        }
        assert(v@.subrange(0, n as int) =~= v@);
        string_from_chars(v.as_slice(), 0, n)
    }
}

/// The message of a name found already registered in interactive mode.
pub fn already_registered_message(label: &str) -> (r: String)
    ensures
        r@ == "name "@ + label@ + ".xlm is already registered"@,
{
    let mut r = string_of("name ");
    r.append(label);
    r.append(".xlm is already registered");
    r
}

/// The registrar contract a registration goes to; without one configured,
/// registering is refused.
pub fn registrar_contract(configured: Option<String>) -> (r: Result<String, String>)
    ensures
        match configured {
            Some(id) => r matches Ok(v) && v@ == id@,
            None => r matches Err(m) && m@ == "Registrar contract ID not configured"@,
        },
{
    match configured {
        Some(id) => Ok(id),
        None => Err(string_of("Registrar contract ID not configured")),
    }
}

/// A registration quote as it is displayed: each amount and time already
/// written as text.
#[derive(Clone, Debug)]
pub struct QuoteText {
    pub total_fee: String,
    pub fee_currency: String,
    pub base_fee: String,
    pub premium_fee: String,
    pub network_fee: String,
    pub expires_at: String,
}

/// A registration receipt as it is displayed.
#[derive(Clone, Debug)]
pub struct ReceiptText {
    pub name: String,
    pub owner: String,
    pub fee_paid: String,
    pub expires_at: String,
    pub status: String,
    pub tx_hash: String,
}

/// The lines of the report after a registration.
pub open spec fn summary_lines(
    label: Seq<char>,
    registrar_id: Seq<char>,
    q: QuoteText,
    duration_years: u32,
    signer: Option<String>,
    rc: ReceiptText,
) -> Seq<Seq<char>> {
    seq![
        "Registration quote for "@ + label + ".xlm:"@,
        "  Registrar: "@ + registrar_id,
        "  Fee: "@ + q.total_fee@ + " "@ + q.fee_currency@ + " (base "@ + q.base_fee@ + ", premium "@ + q.premium_fee@
            + ", network "@ + q.network_fee@ + ")"@,
        "  Duration: "@ + dec(duration_years as nat) + " year(s)"@,
        "  Expiry: "@ + q.expires_at@,
    ] + match signer {
        Some(d) => seq!["  Signer: "@ + d@],
        None => Seq::empty(),
    } + seq![
        Seq::empty(),
        "SUCCESS: registered "@ + rc.name@ + " to "@ + rc.owner@,
        "  Fee paid: "@ + rc.fee_paid@ + " "@ + q.fee_currency@,
        "  Expires at: "@ + rc.expires_at@,
        "  Status: "@ + rc.status@,
        "  Transaction Hash: "@ + rc.tx_hash@,
    ]
}

/// The report after a registration: the quote, the signer (described) when
/// there is one, then what was registered, joined with `\n`.
pub fn registration_summary(
    label: &str,
    registrar_id: &str,
    quote: &QuoteText,
    duration_years: u32,
    signer_description: &Option<String>,
    receipt: &ReceiptText,
) -> (r: String)
    ensures
        r@ == join_with(summary_lines(label@, registrar_id@, *quote, duration_years, *signer_description, *receipt), "\n"@),
{
    let mut lines: Vec<String> = Vec::new();
    let mut l = string_of("Registration quote for ");
    l.append(label);
    l.append(".xlm:");
    lines.push(l);
    let mut l = string_of("  Registrar: ");
    l.append(registrar_id);
    lines.push(l);
    let mut l = string_of("  Fee: ");
    l.append(quote.total_fee.as_str());
    l.append(" ");
    l.append(quote.fee_currency.as_str());
    l.append(" (base ");
    l.append(quote.base_fee.as_str());
    l.append(", premium ");
    l.append(quote.premium_fee.as_str());
    l.append(", network ");
    l.append(quote.network_fee.as_str());
    l.append(")");
    lines.push(l);
    let mut l = string_of("  Duration: ");
    push_decimal(&mut l, duration_years as u64);
    l.append(" year(s)");
    lines.push(l);
    let mut l = string_of("  Expiry: ");
    l.append(quote.expires_at.as_str());
    lines.push(l);
    match signer_description {
        Some(d) => {
            let mut l = string_of("  Signer: ");
            l.append(d.as_str());
            lines.push(l);
        },
        None => {},
    }
    lines.push(String::new());
    let mut l = string_of("SUCCESS: registered ");
    l.append(receipt.name.as_str());
    l.append(" to ");
    l.append(receipt.owner.as_str());
    lines.push(l);
    let mut l = string_of("  Fee paid: ");
    l.append(receipt.fee_paid.as_str());
    l.append(" ");
    l.append(quote.fee_currency.as_str());
    lines.push(l);
    let mut l = string_of("  Expires at: ");
    l.append(receipt.expires_at.as_str());
    lines.push(l);
    let mut l = string_of("  Status: ");
    l.append(receipt.status.as_str());
    lines.push(l);
    let mut l = string_of("  Transaction Hash: ");
    l.append(receipt.tx_hash.as_str());
    lines.push(l);
    assert(string_views(lines@) =~= summary_lines(label@, registrar_id@, *quote, duration_years, *signer_description, *receipt));
    join_strings(lines.as_slice(), "\n")
}

} // verus!
