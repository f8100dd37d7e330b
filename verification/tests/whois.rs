use xlm_ns::errors::SdkError;
use xlm_ns::whois::{
    portfolio_error_text, portfolio_text, resolution_text, text_record_line, token_error_text, token_text, unresolved_message, whois_error_text,
    whois_found_text, whois_missing_text,
};

#[test]
fn whois_reports() {
    let text = whois_found_text(
        "alice.xlm",
        &Some("GALICE".to_string()),
        Some(1_893_456_000),
        &None,
        &Some("CREG".to_string()),
        "https://rpc.example",
    );
    assert_eq!(
        text,
        "alice.xlm\n  Owner: GALICE\n  Expires at: 2030-01-01 00:00:00 UTC\n  Resolver: [UNKNOWN]\n  Registry: CREG\n  RPC: https://rpc.example"
    );
    let unknown = whois_found_text("bob.xlm", &None, None, &Some("CRES".to_string()), &None, "u");
    assert_eq!(unknown, "bob.xlm\n  Owner: [UNKNOWN]\n  Expires at: [UNKNOWN]\n  Resolver: CRES\n  Registry: [UNKNOWN]\n  RPC: u");
    assert_eq!(whois_missing_text("carol.xlm"), "carol.xlm\n  Status: [NOT REGISTERED]");
    assert_eq!(
        whois_error_text("carol.xlm", &SdkError::Transport("timeout".to_string())),
        "ERROR: Failed to fetch registration for carol.xlm: transport error: timeout"
    );
}

#[test]
fn portfolio_reports() {
    assert_eq!(portfolio_text("GOWNER", &[]), "Portfolio for GOWNER:\n  [no names found]");
    let names = vec![("alice.xlm".to_string(), Some(1_700_000_000u64)), ("bob.xlm".to_string(), None)];
    assert_eq!(
        portfolio_text("GOWNER", &names),
        "Portfolio for GOWNER:\n  - alice.xlm (expires_at: 1700000000)\n  - bob.xlm (expires_at: unknown)"
    );
    assert_eq!(
        portfolio_error_text("GOWNER", &SdkError::InvalidRequest("bad".to_string())),
        "ERROR: Failed to fetch portfolio for GOWNER: invalid request: bad"
    );
}

#[test]
fn resolve_and_text_record_reports() {
    assert_eq!(
        resolution_text("alice.xlm", "GALICE", &Some("CRES".to_string()), false, Some(42)),
        "Name: alice.xlm\nAddress: GALICE\nResolver: CRES\nResolved via wildcard: no\nExpires at: 42"
    );
    assert_eq!(
        resolution_text("x.alice.xlm", "GX", &None, true, None),
        "Name: x.alice.xlm\nAddress: GX\nResolved via wildcard: yes"
    );
    assert_eq!(unresolved_message("nobody.xlm"), "Name 'nobody.xlm' not found or has no resolution");
    assert_eq!(text_record_line("alice.xlm", "url", &Some("https://a".to_string())), "alice.xlm: url = \"https://a\"");
    assert_eq!(text_record_line("alice.xlm", "email", &None), "alice.xlm: email = [NOT SET]");
}

#[test]
fn token_reports() {
    assert_eq!(
        token_text("alice.xlm", "GALICE", &None, "CNFT"),
        "Token alice.xlm\n  Owner: GALICE\n  Metadata URI: [NONE]\n  NFT: CNFT"
    );
    assert_eq!(
        token_text("alice.xlm", "GALICE", &Some("ipfs://x".to_string()), "CNFT"),
        "Token alice.xlm\n  Owner: GALICE\n  Metadata URI: ipfs://x\n  NFT: CNFT"
    );
    assert_eq!(
        token_error_text("bob.xlm", &SdkError::Transport("down".to_string())),
        "ERROR: Failed to inspect token bob.xlm: transport error: down"
    );
}
