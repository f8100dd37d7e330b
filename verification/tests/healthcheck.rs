use xlm_ns::errors::SdkError;
use xlm_ns::healthcheck::{
    all_checks_pass, config_check, healthcheck_outcome, padded, passphrase_check, report_text, rpc_check, status_word,
};

#[test]
fn checks_and_report() {
    let config = config_check("testnet");
    assert_eq!((config.name.as_str(), config.ok, config.detail.as_str()), ("config", true, "network=testnet"));
    let pass = passphrase_check("Test SDF Network ; September 2015");
    assert!(pass.ok);
    assert_eq!(pass.detail, "Test SDF Network ; September 2015");
    let empty = passphrase_check("");
    assert!(!empty.ok);
    assert_eq!(empty.detail, "empty — network passphrase is not set");

    let up = rpc_check(&Ok(()), "https://rpc.example");
    assert!(up.ok);
    assert_eq!(up.detail, "reachable — https://rpc.example");
    let down = rpc_check(&Err(SdkError::Transport("connection refused".to_string())), "https://rpc.example");
    assert!(!down.ok);
    assert_eq!(down.detail, "unreachable — connection refused");
    let answered = rpc_check(&Err(SdkError::InvalidRequest("no registry".to_string())), "https://rpc.example");
    assert!(answered.ok);
    assert_eq!(answered.detail, "reachable (invalid request: no registry)");

    let checks = vec![config, pass, down];
    assert!(!all_checks_pass(&checks));
    assert_eq!(status_word(false), "degraded");
    assert_eq!(healthcheck_outcome(&checks), Err("healthcheck reported a degraded status".to_string()));
    let contracts = vec![("registry".to_string(), Some("CREG".to_string())), ("nft".to_string(), None)];
    let text = report_text("testnet", &checks, &contracts);
    let expected = [
        "Healthcheck [DEGRADED] — network=testnet",
        "",
        "  Checks:",
        "    [PASS]  config        network=testnet",
        "    [PASS]  passphrase    Test SDF Network ; September 2015",
        "    [FAIL]  rpc           unreachable — connection refused",
        "",
        "  Contracts:",
        "    registry                CREG",
        "    nft                     [not configured]",
    ]
    .join("\n");
    assert_eq!(text, expected);
}

#[test]
fn all_passing_checks_report_ok() {
    let checks = vec![config_check("mainnet"), passphrase_check("p"), rpc_check(&Ok(()), "u")];
    assert!(all_checks_pass(&checks));
    assert_eq!(status_word(true), "ok");
    assert_eq!(healthcheck_outcome(&checks), Ok(()));
    assert!(report_text("mainnet", &checks, &[]).starts_with("Healthcheck [OK] — network=mainnet\n"));
    assert_eq!(padded("abc", 5), "abc  ");
    assert_eq!(padded("abcdef", 3), "abcdef");
}
