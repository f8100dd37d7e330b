//! Friendly error reports for the command line: what failed, what to do about it,
//! where to read more, and the technical detail behind it.
use vstd::prelude::*;
use crate::text::{chars_contain_str, join_strings, join_strs, join_with, seq_contains, str_chars, str_views, string_views};

verus! {

/// The part of the system an error came from.
#[derive(Clone, Copy, Debug, PartialEq, Eq, Structural)]
pub enum ErrorDomain {
    Registrar,
    Registry,
    Resolver,
    Subdomain,
    Bridge,
    Auction,
    Nft,
    General,
}

/// What kind of thing the failing command was about.
#[derive(Clone, Copy, Debug, PartialEq, Eq, Structural)]
pub enum SubjectKind {
    Name,
    Address,
    TokenId,
    Chain,
    File,
    Unknown,
}

/// Where an error happened: the domain, the subject of the command, and the command.
#[derive(Clone, Debug)]
pub struct ErrorContext {
    pub domain: ErrorDomain,
    pub subject: Option<String>,
    pub subject_kind: SubjectKind,
    pub command: &'static str,
}

/// A report for a person: a summary, a suggestion, documents, technical detail.
#[derive(Clone, Debug)]
pub struct FriendlyError {
    pub summary: String,
    pub suggestion: String,
    pub docs: Vec<&'static str>,
    pub technical: String,
}

/// The text of a [`FriendlyError`].
pub struct FriendlyView {
    pub summary: Seq<char>,
    pub suggestion: Seq<char>,
    pub docs: Seq<Seq<char>>,
    pub technical: Seq<char>,
}

impl View for FriendlyError {
    type V = FriendlyView;

    open spec fn view(&self) -> FriendlyView {
        FriendlyView {
            summary: self.summary@,
            suggestion: self.suggestion@,
            docs: str_views(self.docs@),
            technical: self.technical@,
        }
    }
}

/// The view of an optional report.
pub open spec fn opt_report_view(r: Option<FriendlyError>) -> Option<FriendlyView> {
    match r {
        Some(f) => Some(f@),
        None => None,
    }
}

/// A report with one document.
pub open spec fn report_of(summary: Seq<char>, suggestion: Seq<char>, doc: Seq<char>, technical: Seq<char>) -> FriendlyView {
    FriendlyView { summary, suggestion, docs: seq![doc], technical }
}

pub(crate) fn make_report(summary: String, suggestion: &str, doc: &'static str, technical: String) -> (r: FriendlyError)
    ensures
        r@ == report_of(summary@, suggestion@, doc@, technical@),
{
    let docs: Vec<&'static str> = vec![doc];
    let r = FriendlyError { summary, suggestion: String::from_str(suggestion), docs, technical };
    assert(r@.docs =~= seq![doc@]);
    r
}

/// The message shown to a person: the summary and suggestion, the documents
/// when there are any, and the technical detail when `verbose` holds.
pub open spec fn human_text(r: FriendlyView, verbose: bool) -> Seq<char> {
    "Error: "@ + r.summary + ". Suggestion: "@ + r.suggestion + "."@
        + (if r.docs.len() > 0 { " Docs: "@ + join_with(r.docs, ", "@) + "."@ } else { Seq::empty() })
        + (if verbose { " Technical details: "@ + r.technical + "."@ } else { Seq::empty() })
}

impl FriendlyError {
    /// The message for a person; `verbose` adds the technical detail.
    pub fn human_message(&self, verbose: bool) -> (r: String)
        ensures
            r@ == human_text(self@, verbose),
    {
        let mut message = String::from_str("Error: ");
        message.append(self.summary.as_str());
        message.append(". Suggestion: ");
        message.append(self.suggestion.as_str());
        message.append(".");
        let ghost head = message@;
        if self.docs.len() > 0 {
            message.append(" Docs: ");
            let joined = join_strs(self.docs.as_slice(), ", ");
            message.append(joined.as_str());
            message.append(".");
        }
        let ghost with_docs = message@;
        assert(with_docs == head + (if self@.docs.len() > 0 { " Docs: "@ + join_with(self@.docs, ", "@) + "."@ } else { Seq::<char>::empty() }));
        if verbose {
            message.append(" Technical details: ");
            message.append(self.technical.as_str());
            message.append(".");
        }
        message
    }
}

/// How the subject of a command is named in a report: the subject given (or
/// "the requested name"), with `.xlm` added to a name that has no dot.
pub open spec fn subject_text(ctx: ErrorContext) -> Seq<char> {
    let raw = match ctx.subject {
        Some(s) => s@,
        None => "the requested name"@,
    };
    if ctx.subject_kind == SubjectKind::Name && !seq_contains(raw, "."@) {
        raw + ".xlm"@
    } else {
        raw
    }
}

/// The subject of a command as a report names it.
pub fn subject_name(context: &ErrorContext) -> (r: String)
    ensures
        r@ == subject_text(*context),
{
    let mut raw = match &context.subject {
        Some(s) => s.clone(),
        None => String::from_str("the requested name"),
    };
    if context.subject_kind == SubjectKind::Name {
        let chars = str_chars(raw.as_str());
        if !chars_contain_str(chars.as_slice(), ".") {
            raw.append(".xlm");
        }
    }
    raw
}

/// The views of an optional error chain.
pub open spec fn chain_view(chain: Option<&[String]>) -> Option<Seq<Seq<char>>> {
    match chain {
        Some(c) => Some(string_views(c@)),
        None => None,
    }
}

/// The technical detail: the messages of the error chain joined by ` | `, or
/// `fallback` when there is no chain or it joins to nothing.
pub open spec fn tech_or(chain: Option<Seq<Seq<char>>>, fallback: Seq<char>) -> Seq<char> {
    match chain {
        Some(c) => if join_with(c, " | "@).len() > 0 { join_with(c, " | "@) } else { fallback },
        None => fallback,
    }
}

/// The messages of an error chain joined by ` | `.
pub fn technical_chain(chain: &[String]) -> (r: String)
    ensures
        r@ == join_with(string_views(chain@), " | "@),
{
    join_strings(chain, " | ")
}

/// The technical detail of `chain`, or `fallback`.
pub fn technical_chain_or(chain: Option<&[String]>, fallback: &str) -> (r: String)
    ensures
        r@ == tech_or(chain_view(chain), fallback@),
{
    match chain {
        Some(c) => {
            let joined = technical_chain(c);
            if joined.as_str().unicode_len() > 0 {
                joined
            } else {
                String::from_str(fallback)
            }
        },
        None => String::from_str(fallback),
    }
}

/// The pieces of a failed invocation's technical detail: the reason, the
/// transaction hash when known, and the error chain when there is one.
pub open spec fn tx_pieces(chain: Option<Seq<Seq<char>>>, reason: Seq<char>, tx_hash: Option<Seq<char>>) -> Seq<Seq<char>> {
    let with_tx = match tx_hash {
        Some(h) => seq![reason, "tx_hash="@ + h],
        None => seq![reason],
    };
    match chain {
        Some(c) => with_tx.push(join_with(c, " | "@)),
        None => with_tx,
    }
}

/// The technical detail of a failed invocation: its pieces joined by ` | `.
pub fn technical_with_tx(chain: Option<&[String]>, reason: &str, tx_hash: Option<&str>) -> (r: String)
    ensures
        r@ == join_with(tx_pieces(chain_view(chain), reason@, match tx_hash { Some(h) => Some(h@), None => None }), " | "@),
{
    let mut pieces: Vec<String> = Vec::new();
    pieces.push(String::from_str(reason));
    match tx_hash {
        Some(h) => {
            let mut t = String::from_str("tx_hash=");
            t.append(h);
            pieces.push(t);
        },
        None => {},
    }
    match chain {
        Some(c) => pieces.push(technical_chain(c)),
        None => {},
    }
    let ghost want = tx_pieces(chain_view(chain), reason@, match tx_hash { Some(h) => Some(h@), None => None });
    assert(string_views(pieces@) =~= want);
    join_strings(pieces.as_slice(), " | ")
}

/// The lower-case name of a domain (its `Display` form).
pub open spec fn domain_text(d: ErrorDomain) -> Seq<char> {
    match d {
        ErrorDomain::Registrar => "registrar"@,
        ErrorDomain::Registry => "registry"@,
        ErrorDomain::Resolver => "resolver"@,
        ErrorDomain::Subdomain => "subdomain"@,
        ErrorDomain::Bridge => "bridge"@,
        ErrorDomain::Auction => "auction"@,
        ErrorDomain::Nft => "nft"@,
        ErrorDomain::General => "general"@,
    }
}

impl ErrorDomain {
    /// The lower-case name of the domain.
    pub fn to_display_string(&self) -> (r: String)
        ensures
            r@ == domain_text(*self),
    {
        String::from_str(match self {
            ErrorDomain::Registrar => "registrar",
            ErrorDomain::Registry => "registry",
            ErrorDomain::Resolver => "resolver",
            ErrorDomain::Subdomain => "subdomain",
            ErrorDomain::Bridge => "bridge",
            ErrorDomain::Auction => "auction",
            ErrorDomain::Nft => "nft",
            ErrorDomain::General => "general",
        })
    }
}

/// The variant name of a domain, as the error log writes it.
pub open spec fn domain_variant(d: ErrorDomain) -> Seq<char> {
    match d {
        ErrorDomain::Registrar => "Registrar"@,
        ErrorDomain::Registry => "Registry"@,
        ErrorDomain::Resolver => "Resolver"@,
        ErrorDomain::Subdomain => "Subdomain"@,
        ErrorDomain::Bridge => "Bridge"@,
        ErrorDomain::Auction => "Auction"@,
        ErrorDomain::Nft => "Nft"@,
        ErrorDomain::General => "General"@,
    }
}

/// The variant name of a subject kind, as the error log writes it.
pub open spec fn subject_kind_variant(k: SubjectKind) -> Seq<char> {
    match k {
        SubjectKind::Name => "Name"@,
        SubjectKind::Address => "Address"@,
        SubjectKind::TokenId => "TokenId"@,
        SubjectKind::Chain => "Chain"@,
        SubjectKind::File => "File"@,
        SubjectKind::Unknown => "Unknown"@,
    }
}

fn domain_variant_str(d: ErrorDomain) -> (r: &'static str)
    ensures
        r@ == domain_variant(d),
{
    match d {
        ErrorDomain::Registrar => "Registrar",
        ErrorDomain::Registry => "Registry",
        ErrorDomain::Resolver => "Resolver",
        ErrorDomain::Subdomain => "Subdomain",
        ErrorDomain::Bridge => "Bridge",
        ErrorDomain::Auction => "Auction",
        ErrorDomain::Nft => "Nft",
        ErrorDomain::General => "General",
    }
}

fn subject_kind_variant_str(k: SubjectKind) -> (r: &'static str)
    ensures
        r@ == subject_kind_variant(k),
{
    match k {
        SubjectKind::Name => "Name",
        SubjectKind::Address => "Address",
        SubjectKind::TokenId => "TokenId",
        SubjectKind::Chain => "Chain",
        SubjectKind::File => "File",
        SubjectKind::Unknown => "Unknown",
    }
}

/// The lines the error log records for a report, before the technical
/// detail: where and when it happened, then the summary, the suggestion and,
/// when there are any, the documents.
pub open spec fn log_lines(ctx: ErrorContext, r: FriendlyView, timestamp: Seq<char>) -> Seq<Seq<char>> {
    seq![
        "["@ + timestamp + "] command="@ + ctx.command@ + " domain="@ + domain_variant(ctx.domain)
            + " subject_kind="@ + subject_kind_variant(ctx.subject_kind) + " subject="@
            + match ctx.subject {
                Some(s) => s@,
                None => "[none]"@,
            },
        "summary="@ + r.summary,
        "suggestion="@ + r.suggestion,
    ] + if r.docs.len() > 0 {
        seq!["docs="@ + join_with(r.docs, ", "@)]
    } else {
        Seq::empty()
    }
}

/// The lines the error log records for `report`, written at `timestamp`.
pub fn error_log_lines(context: &ErrorContext, report: &FriendlyError, timestamp: &str) -> (r: Vec<String>)
    ensures
        string_views(r@) == log_lines(*context, report@, timestamp@),
{
    let mut head = String::from_str("[");
    head.append(timestamp);
    head.append("] command=");
    head.append(context.command);
    head.append(" domain=");
    head.append(domain_variant_str(context.domain));
    head.append(" subject_kind=");
    head.append(subject_kind_variant_str(context.subject_kind));
    head.append(" subject=");
    match &context.subject {
        Some(s) => head.append(s.as_str()),
        None => head.append("[none]"),
    }
    let mut summary = String::from_str("summary=");
    summary.append(report.summary.as_str());
    let mut suggestion = String::from_str("suggestion=");
    suggestion.append(report.suggestion.as_str());
    let mut lines: Vec<String> = Vec::new();
    lines.push(head);
    lines.push(summary);
    lines.push(suggestion);
    if report.docs.len() > 0 {
        let mut docs = String::from_str("docs=");
        let joined = join_strs(report.docs.as_slice(), ", ");
        docs.append(joined.as_str());
        lines.push(docs);
    }
    assert(string_views(lines@) =~= log_lines(*context, report@, timestamp@));
    lines
}

} // verus!
