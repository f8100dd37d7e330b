use xlm_ns::errors::{decode_error, decode_error_generic, is_retryable, ContractErrorCode, SdkError};
use xlm_ns::network::{verify_network_passphrase, verify_transaction_passphrase};

#[test]
fn is_retryable_only_for_transient_errors() {
    assert!(is_retryable(&SdkError::Transport("timeout".into())));
    assert!(is_retryable(&SdkError::Transport(
        "http error: status 503 service unavailable".into()
    )));
    assert!(is_retryable(&SdkError::Transport("too many requests (429)".into())));
    assert!(is_retryable(&SdkError::Transport("connection refused".into())));
    assert!(!is_retryable(&SdkError::Transport("invalid rpc url: bad://".into())));
    assert!(is_retryable(&SdkError::TransactionTimeout {
        operation: "register",
        ledger_submitted: 42,
    }));
    assert!(!is_retryable(&SdkError::InvalidRequest("bad input".into())));
    assert!(!is_retryable(&SdkError::ContractError(ContractErrorCode::NameNotFound)));
    assert!(!is_retryable(&SdkError::NetworkPassphraseMismatch {
        configured: "a".into(),
        rpc_reported: "b".into(),
    }));
    assert!(!is_retryable(&SdkError::SimulationFailed {
        operation: "register",
        reason: "revert".into(),
    }));
    assert!(!is_retryable(&SdkError::ContractInvocationFailed {
        operation: "register",
        reason: "revert".into(),
        tx_hash: None,
    }));
}

#[test]
fn decode_registry_errors() {
    assert_eq!(decode_error("registry", 1), ContractErrorCode::RegistryAlreadyRegistered);
    assert_eq!(decode_error("registry", 2), ContractErrorCode::RegistryNotFound);
    assert_eq!(decode_error("registry", 3), ContractErrorCode::RegistryNotYetClaimable);
    assert_eq!(decode_error("registry", 4), ContractErrorCode::RegistryNotActive);
    assert_eq!(decode_error("registry", 5), ContractErrorCode::RegistryUnauthorized);
    assert_eq!(decode_error("registry", 6), ContractErrorCode::RegistryMetadataTooLong);
    assert_eq!(decode_error("registry", 7), ContractErrorCode::RegistryValidation);
    assert_eq!(decode_error("registry", 8), ContractErrorCode::RegistryInvalidExpiry);
    assert_eq!(decode_error("registry", 9), ContractErrorCode::RegistryInvalidGracePeriod);
    assert_eq!(decode_error("registry", 10), ContractErrorCode::RegistryUpgradeFailed);
    assert_eq!(decode_error("registry", 11), ContractErrorCode::RegistryLocked);
}

#[test]
fn decode_registrar_errors() {
    assert_eq!(decode_error("registrar", 1), ContractErrorCode::RegistrarInsufficientFee);
    assert_eq!(decode_error("registrar", 2), ContractErrorCode::RegistrarNotFound);
    assert_eq!(decode_error("registrar", 3), ContractErrorCode::RegistrarNotRenewable);
    assert_eq!(decode_error("registrar", 4), ContractErrorCode::RegistrarAlreadyRegistered);
    assert_eq!(decode_error("registrar", 5), ContractErrorCode::RegistrarReserved);
    assert_eq!(decode_error("registrar", 6), ContractErrorCode::RegistrarUnauthorized);
    assert_eq!(decode_error("registrar", 7), ContractErrorCode::RegistrarValidation);
    assert_eq!(decode_error("registrar", 8), ContractErrorCode::RegistrarRegistrationClaimable);
    assert_eq!(decode_error("registrar", 9), ContractErrorCode::RegistrarNotInitialized);
    assert_eq!(decode_error("registrar", 10), ContractErrorCode::RegistrarAlreadyInitialized);
    assert_eq!(decode_error("registrar", 11), ContractErrorCode::RegistrarRateLimitExceeded);
    assert_eq!(decode_error("registrar", 12), ContractErrorCode::RegistrarUpgradeFailed);
    assert_eq!(decode_error("registrar", 13), ContractErrorCode::RegistrarQuoteExpired);
}

#[test]
fn decode_resolver_errors() {
    assert_eq!(decode_error("resolver", 1), ContractErrorCode::ResolverValidation);
    assert_eq!(decode_error("resolver", 2), ContractErrorCode::ResolverRecordNotFound);
    assert_eq!(decode_error("resolver", 3), ContractErrorCode::ResolverUnauthorized);
    assert_eq!(decode_error("resolver", 4), ContractErrorCode::ResolverTooManyTextRecords);
    assert_eq!(decode_error("resolver", 5), ContractErrorCode::ResolverNotInitialized);
    assert_eq!(decode_error("resolver", 6), ContractErrorCode::ResolverTextRecordValueTooLong);
    assert_eq!(decode_error("resolver", 7), ContractErrorCode::ResolverInvalidChain);
    assert_eq!(decode_error("resolver", 8), ContractErrorCode::ResolverInvalidKey);
    assert_eq!(decode_error("resolver", 9), ContractErrorCode::ResolverBatchTooLarge);
    assert_eq!(decode_error("resolver", 10), ContractErrorCode::ResolverUpgradeFailed);
}

#[test]
fn decode_subdomain_errors() {
    assert_eq!(decode_error("subdomain", 1), ContractErrorCode::SubdomainValidation);
    assert_eq!(decode_error("subdomain", 2), ContractErrorCode::SubdomainParentNotFound);
    assert_eq!(decode_error("subdomain", 3), ContractErrorCode::SubdomainAlreadyExists);
    assert_eq!(decode_error("subdomain", 4), ContractErrorCode::SubdomainNotFound);
    assert_eq!(decode_error("subdomain", 5), ContractErrorCode::SubdomainUnauthorized);
    assert_eq!(decode_error("subdomain", 6), ContractErrorCode::SubdomainUpgradeFailed);
    assert_eq!(decode_error("subdomain", 7), ContractErrorCode::SubdomainDepthLimitExceeded);
}

#[test]
fn decode_auction_errors() {
    assert_eq!(decode_error("auction", 1), ContractErrorCode::AuctionValidation);
    assert_eq!(decode_error("auction", 2), ContractErrorCode::AuctionAlreadyExists);
    assert_eq!(decode_error("auction", 3), ContractErrorCode::AuctionNotFound);
    assert_eq!(decode_error("auction", 4), ContractErrorCode::AuctionClosed);
    assert_eq!(decode_error("auction", 5), ContractErrorCode::AuctionNotStarted);
    assert_eq!(decode_error("auction", 6), ContractErrorCode::AuctionNotEnded);
    assert_eq!(decode_error("auction", 7), ContractErrorCode::AuctionAlreadySettled);
    assert_eq!(decode_error("auction", 8), ContractErrorCode::AuctionInvalidBid);
    assert_eq!(decode_error("auction", 9), ContractErrorCode::AuctionUpgradeFailed);
    assert_eq!(decode_error("auction", 10), ContractErrorCode::AuctionReentrancyDetected);
}

#[test]
fn decode_bridge_errors() {
    assert_eq!(decode_error("bridge", 1), ContractErrorCode::BridgeValidation);
    assert_eq!(decode_error("bridge", 2), ContractErrorCode::BridgeUnsupportedChain);
    assert_eq!(decode_error("bridge", 3), ContractErrorCode::BridgeUpgradeFailed);
    assert_eq!(decode_error("bridge", 4), ContractErrorCode::BridgeUnauthorized);
    assert_eq!(decode_error("bridge", 5), ContractErrorCode::BridgeNotFound);
    assert_eq!(decode_error("bridge", 6), ContractErrorCode::BridgeAlreadyExists);
}

#[test]
fn decode_nft_errors() {
    assert_eq!(decode_error("nft", 1), ContractErrorCode::NftAlreadyMinted);
    assert_eq!(decode_error("nft", 2), ContractErrorCode::NftNotFound);
    assert_eq!(decode_error("nft", 3), ContractErrorCode::NftUnauthorized);
    assert_eq!(decode_error("nft", 4), ContractErrorCode::NftUpgradeFailed);
    assert_eq!(decode_error("nft", 5), ContractErrorCode::NftNotInitialized);
}

#[test]
fn decode_error_unknown_contract_returns_other() {
    assert_eq!(decode_error("unknown", 1), ContractErrorCode::Other(1));
    assert_eq!(decode_error("registry", 99), ContractErrorCode::Other(99));
    assert_eq!(decode_error("registrar", 42), ContractErrorCode::Other(42));
}

#[test]
fn decode_error_generic_backward_compat() {
    assert_eq!(decode_error_generic(1), ContractErrorCode::NameNotFound);
    assert_eq!(decode_error_generic(2), ContractErrorCode::NotOwner);
    assert_eq!(decode_error_generic(3), ContractErrorCode::Expired);
    assert_eq!(decode_error_generic(4), ContractErrorCode::InvalidLabel);
    assert_eq!(decode_error_generic(99), ContractErrorCode::Other(99));
}

#[test]
fn display_shows_descriptive_messages() {
    assert_eq!(
        ContractErrorCode::RegistryAlreadyRegistered.to_display_string(),
        "registry: name is already registered"
    );
    assert_eq!(
        ContractErrorCode::RegistrarInsufficientFee.to_display_string(),
        "registrar: fee paid is below the required amount"
    );
    assert_eq!(
        ContractErrorCode::RegistrarQuoteExpired.to_display_string(),
        "registrar: registration quote has expired"
    );
    assert_eq!(
        ContractErrorCode::ResolverRecordNotFound.to_display_string(),
        "resolver: record was not found"
    );
    assert_eq!(
        ContractErrorCode::AuctionInvalidBid.to_display_string(),
        "auction: bid is below the reserve price or minimum increment"
    );
    assert_eq!(
        ContractErrorCode::BridgeUnsupportedChain.to_display_string(),
        "bridge: target chain is not supported"
    );
    assert_eq!(
        ContractErrorCode::NftNotInitialized.to_display_string(),
        "nft: contract is not initialized"
    );
    assert_eq!(
        ContractErrorCode::Other(7).to_display_string(),
        "unknown contract error code 7"
    );
}

#[test]
fn sdk_error_display_uses_descriptive_contract_message() {
    let err = SdkError::ContractError(ContractErrorCode::RegistrarInsufficientFee);
    assert_eq!(
        err.to_display_string(),
        "contract error: registrar: fee paid is below the required amount"
    );
}

#[test]
fn error_decoding_works() {
    assert_eq!(decode_error_generic(1), ContractErrorCode::NameNotFound);
    assert_eq!(decode_error_generic(2), ContractErrorCode::NotOwner);
    assert_eq!(decode_error_generic(99), ContractErrorCode::Other(99));
}

#[test]
fn test_verify_transaction_passphrase_mismatch() {
    let result = verify_transaction_passphrase(
        "Test SDF Network ; September 2015",
        "Public Global Stellar Network ; September 2015",
    );

    let err = result.unwrap_err();
    match err {
        SdkError::TransactionPassphraseMismatch {
            configured,
            in_transaction,
        } => {
            assert_eq!(configured, "Test SDF Network ; September 2015");
            assert_eq!(in_transaction, "Public Global Stellar Network ; September 2015");
        }
        _ => panic!("wrong error variant"),
    }
}

#[test]
fn transaction_passphrase_match_is_ok() {
    assert!(verify_transaction_passphrase("Test SDF Network ; September 2015", "Test SDF Network ; September 2015").is_ok());
}

#[test]
fn network_passphrase_checks_reported_value() {
    assert!(verify_network_passphrase("a", Ok("a".to_string())).is_ok());
    match verify_network_passphrase("a", Ok("b".to_string())) {
        Err(SdkError::NetworkPassphraseMismatch { configured, rpc_reported }) => {
            assert_eq!(configured, "a");
            assert_eq!(rpc_reported, "b");
        }
        _ => panic!("expected a mismatch"),
    }
    match verify_network_passphrase("a", Err(SdkError::Transport("down".to_string()))) {
        Err(SdkError::Transport(m)) => assert_eq!(m, "down"),
        _ => panic!("expected the transport error"),
    }
}

#[test]
fn sdk_error_display_covers_each_variant() {
    let e = SdkError::NetworkPassphraseMismatch { configured: "a".into(), rpc_reported: "b\"c".into() };
    assert_eq!(e.to_display_string(), "network passphrase mismatch: configured=\"a\", rpc_reported=\"b\\\"c\"");
    let e = SdkError::ContractInvocationFailed { operation: "register", reason: "revert".into(), tx_hash: Some("abc".into()) };
    assert_eq!(e.to_display_string(), "register failed: revert (tx: abc)");
    let e = SdkError::InsufficientFee { operation: "renew", required: -5, available: 3 };
    assert_eq!(e.to_display_string(), "renew has insufficient fee: required -5, available 3");
    let e = SdkError::TransactionTimeout { operation: "register", ledger_submitted: 42 };
    assert_eq!(e.to_display_string(), "register timed out after submission at ledger 42");
    let e = SdkError::RateLimitExceeded(xlm_ns::errors::RateLimitError { retries: 3, total_wait_ms: 1500 });
    assert_eq!(e.to_display_string(), "rate limit exceeded after 3 retries (waited 1500ms)");
    let e = SdkError::SigningFailed { operation: "sign", source: xlm_ns::errors::SigningError::Rejected { reason: "no".into() } };
    assert_eq!(e.to_display_string(), "sign signing failed: signing rejected: no");
}

#[test]
fn transport_messages_in_any_case_are_classified() {
    assert!(!is_retryable(&SdkError::Transport("JSON Decoding Error at line 1".into())));
    assert!(!is_retryable(&SdkError::Transport("Invalid Response From Server".into())));
    assert!(is_retryable(&SdkError::Transport("something odd".into())));
}
