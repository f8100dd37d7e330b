use xlm_ns::fmt::{decimal, push_signed_decimal};
use xlm_ns::label::{
    build_subdomain_name, build_xlm_name, extract_label_soroban, validate_chain_name_soroban, validate_fqdn_soroban,
    validate_label_bytes, validate_registration_years_soroban, CommonError,
};
use xlm_ns::pricing::price_for_label_length;
use xlm_ns::signer::{auction_treasury, profile_from_env, signer_env_vars, SignerError, SigningKeyError};
use xlm_ns::time::{
    expiry_from_now, grace_period_ends_at, is_active_at, is_claimable_at, is_time_window_open, within_grace_period,
};
use xlm_ns::validate::{
    connectivity_results, contract_id_result, signing_key_result, validation_summary, Validation, ValidationResult,
    ValidationStatus,
};

#[test]
fn signer_profiles_come_from_named_variables() {
    let (n, p, s) = signer_env_vars("  my-ops ").unwrap();
    assert_eq!((n.as_str(), p.as_str(), s.as_str()), ("my-ops", "XLM_NS_SIGNER_MY_OPS_PUBLIC", "XLM_NS_SIGNER_MY_OPS_SECRET"));
    assert!(matches!(signer_env_vars("   "), Err(SignerError::EmptyProfileName)));
    let profile = profile_from_env("ops", Some("GOPS".to_string()), true).unwrap();
    assert_eq!(
        profile.describe(),
        "profile 'ops' -> GOPS (public env: XLM_NS_SIGNER_OPS_PUBLIC, secret env: XLM_NS_SIGNER_OPS_SECRET)"
    );
    let missing = profile_from_env("ops", None, true).unwrap_err();
    assert_eq!(missing.to_display_string(), "signer profile is missing public address; expected env var XLM_NS_SIGNER_OPS_PUBLIC");
    let no_secret = profile_from_env("ops", Some("GOPS".to_string()), false).unwrap_err();
    assert_eq!(
        no_secret.to_display_string(),
        "signer profile is missing signing material; expected env var XLM_NS_SIGNER_OPS_SECRET"
    );
    assert_eq!(auction_treasury(&Some(profile)), "GOPS");
    assert_eq!(auction_treasury(&None), format!("G{}", "A".repeat(55)));
    assert_eq!(SigningKeyError::InvalidSecret.to_display_string(), "invalid secret key");
}

#[test]
fn validation_results() {
    let ok = contract_id_result("registry", Some("CABC"), true);
    assert_eq!(ok.status, ValidationStatus::Pass);
    let missing = contract_id_result("registry", None, false);
    assert_eq!(missing.status, ValidationStatus::Fail);
    assert_eq!(missing.message, "registry not configured");
    let (rpc, pass) = connectivity_results(Err("refused".to_string()), "Test SDF Network ; September 2015");
    assert_eq!(rpc.status, ValidationStatus::Fail);
    assert_eq!(rpc.message, "refused");
    assert_eq!(pass.name.is_empty(), false);
    let unset = signing_key_result(None);
    assert_eq!(unset.message, "XLM_NS_SIGNER_USER_SECRET not set");
    let bad = signing_key_result(Some(Err(SigningKeyError::InvalidSecret)));
    assert_eq!(bad.message, "invalid secret key");
    assert_eq!(signing_key_result(Some(Ok("GKEY".to_string()))).status, ValidationStatus::Pass);
    assert_eq!(signing_key_result(Some(Ok("XKEY".to_string()))).message, "invalid public key");
    assert_eq!(ValidationStatus::Fail.to_display_string(), "FAIL");
}

#[test]
fn on_chain_name_checks() {
    assert_eq!(validate_label_bytes(b"alice"), Ok(()));
    assert_eq!(validate_label_bytes(b"al"), Err(CommonError::NameTooShort));
    assert_eq!(validate_label_bytes(b"-alice"), Err(CommonError::InvalidLabelBoundary));
    assert_eq!(validate_label_bytes(b"Alice"), Err(CommonError::InvalidCharacters));
    assert_eq!(validate_registration_years_soroban(0), Err(CommonError::InvalidRegistrationPeriod));
    assert_eq!(validate_registration_years_soroban(1), Ok(()));
    assert_eq!(validate_chain_name_soroban(b""), Err(CommonError::EmptyChainName));
    assert_eq!(validate_fqdn_soroban(b"alice.xlm"), Ok(()));
    assert_eq!(validate_fqdn_soroban(b"alice"), Err(CommonError::MissingTld));
    assert_eq!(extract_label_soroban(b"alice.xlm"), Ok(b"alice".to_vec()));
    assert_eq!(build_xlm_name(b"alice"), Ok(b"alice.xlm".to_vec()));
    assert_eq!(build_subdomain_name(b"pay", b"alice.xlm"), Ok(b"pay.alice.xlm".to_vec()));
}

#[test]
fn prices_and_times() {
    assert_eq!(price_for_label_length(3), 1_000_000_000);
    assert_eq!(price_for_label_length(4), 250_000_000);
    assert_eq!(price_for_label_length(7), 100_000_000);
    assert_eq!(expiry_from_now(1_000, 2), 1_000 + 2 * 31_536_000);
    assert_eq!(expiry_from_now(u64::MAX - 5, 1), u64::MAX);
    assert_eq!(grace_period_ends_at(100), 100 + 2_592_000);
    assert!(is_active_at(100, 100));
    assert!(!is_active_at(100, 101));
    assert!(within_grace_period(100, 101));
    assert!(is_claimable_at(100, 101));
    assert!(!is_claimable_at(100, 100));
    assert!(is_time_window_open(5, 5, 10));
    assert!(!is_time_window_open(11, 5, 10));
    assert_eq!(decimal(1234567890), "1234567890");
    let mut s = String::from("x=");
    push_signed_decimal(&mut s, -42);
    assert_eq!(s, "x=-42");
}

#[test]
fn config_command_choices() {
    use_settings();
}

fn use_settings() {
    assert_eq!(xlm_ns::settings::config_path_or_default(None), ".xlm-ns.toml");
    assert_eq!(xlm_ns::settings::config_path_or_default(Some("a.toml".to_string())), "a.toml");
    assert_eq!(xlm_ns::settings::template_write_allowed("a.toml", false, false), Ok(()));
    assert_eq!(xlm_ns::settings::template_write_allowed("a.toml", true, true), Ok(()));
    assert_eq!(
        xlm_ns::settings::template_write_allowed("a.toml", true, false),
        Err("config file a.toml already exists (pass --force to overwrite)".to_string())
    );
    assert_eq!(xlm_ns::settings::editor_choice(Some("code".to_string()), Some("nano".to_string())), "code");
    assert_eq!(xlm_ns::settings::editor_choice(None, Some("nano".to_string())), "nano");
    assert_eq!(xlm_ns::settings::editor_choice(None, None), "vi");
}

#[test]
fn validation_report() {
    use_validation_report();
}

fn use_validation_report() {
    let pass = |n: &str| ValidationResult { name: n.to_string(), status: ValidationStatus::Pass, message: String::new() };
    let fail = |n: &str| ValidationResult { name: n.to_string(), status: ValidationStatus::Fail, message: "x".to_string() };
    let v = Validation {
        contract_id_format: vec![pass("registry"), fail("nft")],
        rpc_connectivity: pass("RPC Connectivity"),
        network_passphrase: fail("Network Passphrase"),
        signing_key: pass("Signing Key"),
    };
    assert_eq!(v.failure_count(), 2);
    assert_eq!(
        v.report_lines(),
        vec![
            "[PASS] registry".to_string(),
            "[FAIL] nft".to_string(),
            "[PASS] RPC Connectivity".to_string(),
            "[FAIL] Network Passphrase".to_string(),
            "[PASS] Signing Key".to_string(),
        ]
    );
    assert_eq!(v.all_results().len(), 5);
    assert_eq!(validation_summary(2), "\nValidation failed with 2 errors.");
    assert_eq!(validation_summary(0), "\nConfiguration is valid.");
}
