use xlm_ns::classify::{
    classify_error, classify_text_given_code, contract_error, contract_error_for_domain, extract_contract_code,
    handle_error, transport_error, CommandFailure,
};
use xlm_ns::errors::{ContractErrorCode, SdkError};
use xlm_ns::report::{error_log_lines, subject_name, ErrorContext, ErrorDomain, FriendlyError, SubjectKind};

fn context(domain: ErrorDomain, subject: Option<&str>, kind: SubjectKind) -> ErrorContext {
    ErrorContext {
        domain,
        subject: subject.map(|value| value.to_string()),
        subject_kind: kind,
        command: "test",
    }
}

#[test]
fn sdk_contract_name_not_found_is_actionable() {
    let err = CommandFailure::from_sdk(SdkError::ContractError(ContractErrorCode::NameNotFound));
    let report = classify_error(&err, &context(ErrorDomain::Registry, Some("alice.xlm"), SubjectKind::Name));

    assert!(report.summary.contains("alice.xlm"));
    assert!(report.suggestion.contains("whois"));
}

#[test]
fn raw_contract_code_maps_to_domain_specific_message() {
    let err = CommandFailure::from_message("simulation failed: contract error 4");
    let report = classify_error(&err, &context(ErrorDomain::Registrar, Some("alice"), SubjectKind::Name));

    assert!(report.summary.contains("already registered"));
    assert!(report.suggestion.contains("whois"));
}

#[test]
fn friendly_message_includes_verbose_details() {
    let report = FriendlyError {
        summary: "Example failure".to_string(),
        suggestion: "Try again".to_string(),
        docs: vec!["docs/contract-specs.md"],
        technical: "technical details".to_string(),
    };

    let human = report.human_message(true);
    assert!(human.contains("Error: Example failure."));
    assert!(human.contains("Suggestion: Try again."));
    assert!(human.contains("Technical details: technical details."));
}

#[test]
fn human_message_exact_text() {
    let report = FriendlyError {
        summary: "S".to_string(),
        suggestion: "T".to_string(),
        docs: vec!["a.md", "b.md"],
        technical: "X".to_string(),
    };
    assert_eq!(report.human_message(false), "Error: S. Suggestion: T. Docs: a.md, b.md.");
    assert_eq!(report.human_message(true), "Error: S. Suggestion: T. Docs: a.md, b.md. Technical details: X.");
}

#[test]
fn subject_names_get_the_tld() {
    assert_eq!(subject_name(&context(ErrorDomain::Registry, Some("bob"), SubjectKind::Name)), "bob.xlm");
    assert_eq!(subject_name(&context(ErrorDomain::Registry, Some("bob.xlm"), SubjectKind::Name)), "bob.xlm");
    assert_eq!(subject_name(&context(ErrorDomain::Registry, None, SubjectKind::Address)), "the requested name");
    assert_eq!(subject_name(&context(ErrorDomain::Registry, None, SubjectKind::Name)), "the requested name.xlm");
}

#[test]
fn contract_codes_are_found_in_messages() {
    assert_eq!(extract_contract_code("simulation failed: contract error 4"), Some(4));
    assert_eq!(extract_contract_code("Contract Error: 12 (trap)"), Some(12));
    assert_eq!(extract_contract_code("contract error 99999999999"), None);
    assert_eq!(extract_contract_code("nothing here"), None);
}

#[test]
fn domain_tables_and_unknown_codes() {
    let ctx = context(ErrorDomain::Nft, Some("7"), SubjectKind::TokenId);
    let r = contract_error_for_domain(ErrorDomain::Nft, 2, &ctx, None, None);
    assert_eq!(r.summary, "7 was not found");
    assert_eq!(r.technical, "contract error 2");
    let r = contract_error_for_domain(ErrorDomain::Nft, 42, &ctx, None, Some("Custom"));
    assert_eq!(r.summary, "Custom");
    assert_eq!(r.technical, "contract error");
    let r = contract_error_for_domain(ErrorDomain::General, 1, &ctx, None, None);
    assert_eq!(r.summary, "The contract returned an unknown error");
}

#[test]
fn typed_codes_use_their_table_entry() {
    let ctx = context(ErrorDomain::Registry, Some("carol"), SubjectKind::Name);
    let r = contract_error(ContractErrorCode::RegistrarQuoteExpired, &ctx, None);
    assert_eq!(r.summary, "The registration quote for carol.xlm has expired");
    assert_eq!(r.technical, "contract error: RegistrarQuoteExpired");
    let r = contract_error(ContractErrorCode::Other(9), &ctx, None);
    assert_eq!(r.technical, "contract error: Other(9)");
    let chain = vec!["outer".to_string(), "inner".to_string()];
    let r = contract_error(ContractErrorCode::Other(9), &ctx, Some(&chain));
    assert_eq!(r.technical, "outer | inner");
}

#[test]
fn transport_messages_pick_their_advice() {
    assert_eq!(transport_error("HTTP 429", None).summary, "The RPC server rate-limited the request");
    assert_eq!(transport_error("request Timed Out", None).summary, "The RPC request timed out");
    assert_eq!(transport_error("DNS failure", None).summary, "The RPC server could not be reached");
    assert_eq!(transport_error("weird", None).summary, "The RPC transport failed");
}

#[test]
fn text_classification_follows_the_documented_order() {
    let ctx = context(ErrorDomain::Registry, Some("dave"), SubjectKind::Name);
    let r = classify_text_given_code("  --json cannot be used with --csv.. ", None, &ctx, None).unwrap();
    assert_eq!(r.summary, "--json cannot be used with --csv");
    let r = classify_text_given_code("name already registered", None, &ctx, None).unwrap();
    assert_eq!(r.summary, "dave.xlm is not active right now");
    let r = classify_text_given_code("record not found", Some(11), &ctx, None).unwrap();
    assert_eq!(r.summary, "dave.xlm is locked");
    assert!(classify_text_given_code("all good", None, &ctx, None).is_none());
}

#[test]
fn unexpected_failures_keep_the_chain() {
    let ctx = context(ErrorDomain::General, None, SubjectKind::Unknown);
    let err = CommandFailure { sdk: None, chain: vec!["boom".to_string(), "root cause".to_string()] };
    let (report, human) = handle_error(&err, &ctx, true);
    assert_eq!(report.summary, "The command failed unexpectedly");
    assert_eq!(report.technical, "boom | root cause");
    assert!(human.ends_with("Technical details: boom | root cause."));
}

#[test]
fn error_log_records_the_report() {
    let report = FriendlyError {
        summary: "the name is taken".to_string(),
        suggestion: "pick another".to_string(),
        docs: vec!["docs/a.md", "docs/b.md"],
        technical: "raw".to_string(),
    };
    let lines = error_log_lines(&context(ErrorDomain::Registrar, Some("alice.xlm"), SubjectKind::Name), &report, "2030-01-01T00:00:00+00:00");
    assert_eq!(
        lines,
        vec![
            "[2030-01-01T00:00:00+00:00] command=test domain=Registrar subject_kind=Name subject=alice.xlm".to_string(),
            "summary=the name is taken".to_string(),
            "suggestion=pick another".to_string(),
            "docs=docs/a.md, docs/b.md".to_string(),
        ]
    );
    let bare = FriendlyError { summary: "s".to_string(), suggestion: "t".to_string(), docs: vec![], technical: String::new() };
    let lines = error_log_lines(&context(ErrorDomain::General, None, SubjectKind::Unknown), &bare, "T");
    assert_eq!(lines[0], "[T] command=test domain=General subject_kind=Unknown subject=[none]");
    assert_eq!(lines.len(), 3);
}
