use xlm_ns::config::{
    default_user_agent, ClientConfig, NetworkPreset, RetryConfig, DEFAULT_INITIAL_BACKOFF, DEFAULT_MAX_BACKOFF,
    DEFAULT_MAX_RETRIES, DEFAULT_TIMEOUT, DEFAULT_TRANSACTION_POLL_TIMEOUT,
};
use xlm_ns::duration::Duration;

#[test]
fn defaults_match_documented_values() {
    let config = ClientConfig::default();
    assert_eq!(config.timeout, Duration::from_secs(DEFAULT_TIMEOUT));
    assert_eq!(config.retry.max_retries, DEFAULT_MAX_RETRIES);
    assert_eq!(config.retry.initial_backoff, Duration::from_secs(DEFAULT_INITIAL_BACKOFF));
    assert_eq!(config.retry.max_backoff, Duration::from_secs(DEFAULT_MAX_BACKOFF));
    assert!(config.retry.jitter);
    assert!(config.user_agent.starts_with("xlm-ns-sdk/"));
    assert!(config.poll_final_status);
    assert_eq!(
        config.transaction_poll_timeout,
        Duration::from_secs(DEFAULT_TRANSACTION_POLL_TIMEOUT)
    );
}

#[test]
fn chainable_setters_override_individual_fields() {
    let config = ClientConfig::default()
        .with_timeout(Duration::from_secs(30))
        .with_max_retries(7)
        .with_user_agent("svc/0.1")
        .with_poll_final_status(false)
        .with_transaction_poll_timeout(Duration::from_secs(3));

    assert_eq!(config.timeout, Duration::from_secs(30));
    assert_eq!(config.retry.max_retries, 7);
    assert_eq!(config.user_agent, "svc/0.1");
    assert!(!config.poll_final_status);
    assert_eq!(config.transaction_poll_timeout, Duration::from_secs(3));
}

#[test]
fn retry_disabled_returns_zero_backoff() {
    let policy = RetryConfig::disabled();
    assert_eq!(policy.backoff_for(0), Duration::from_millis(0));
    assert_eq!(policy.backoff_for(5), Duration::from_millis(0));
}

#[test]
fn retry_backoff_grows_exponentially_then_caps() {
    let policy = RetryConfig {
        max_retries: 8,
        initial_backoff: Duration::from_millis(100),
        max_backoff: Duration::from_millis(1_000),
        jitter: false,
    };

    assert_eq!(policy.backoff_for(0), Duration::from_millis(100));
    assert_eq!(policy.backoff_for(1), Duration::from_millis(200));
    assert_eq!(policy.backoff_for(2), Duration::from_millis(400));
    assert_eq!(policy.backoff_for(3), Duration::from_millis(800));
    assert_eq!(policy.backoff_for(4), Duration::from_millis(1_000));
    assert_eq!(policy.backoff_for(20), Duration::from_millis(1_000));
}

#[test]
fn sleep_duration_without_jitter_matches_backoff() {
    let policy = RetryConfig {
        max_retries: 3,
        initial_backoff: Duration::from_millis(200),
        max_backoff: Duration::from_secs(5),
        jitter: false,
    };
    assert_eq!(policy.sleep_duration(1), Duration::from_millis(400));
}

#[test]
fn sleep_duration_with_jitter_stays_within_bounds() {
    let policy = RetryConfig {
        max_retries: 3,
        initial_backoff: Duration::from_millis(500),
        max_backoff: Duration::from_secs(5),
        jitter: true,
    };
    for _ in 0..32 {
        let delay = policy.sleep_duration(0);
        assert!(delay <= Duration::from_millis(500));
    }
    assert!(policy.sleep_duration(0) <= Duration::from_millis(500));
}

#[test]
fn backoff_doubles_until_the_cap_law() {
    let policy = RetryConfig {
        max_retries: 1,
        initial_backoff: Duration::from_millis(3),
        max_backoff: Duration::from_millis(20),
        jitter: false,
    };
    assert_eq!(policy.backoff_for(2), Duration::from_millis(12));
    assert_eq!(policy.backoff_for(3), Duration::from_millis(20));
    assert!(policy.backoff_for(2) <= policy.backoff_for(3));
}

#[test]
fn overflowing_backoff_is_capped() {
    let policy = RetryConfig {
        max_retries: 1,
        initial_backoff: Duration::from_secs(u64::MAX),
        max_backoff: Duration::from_secs(7),
        jitter: false,
    };
    assert_eq!(policy.backoff_for(16), Duration::from_secs(7));
}

#[test]
fn duration_arithmetic_matches_std() {
    assert_eq!(Duration::from_millis(1500).as_millis(), 1500);
    assert_eq!(Duration::from_secs(2).checked_mul(3), Some(Duration::from_secs(6)));
    assert_eq!(Duration::from_secs(u64::MAX).checked_mul(2), None);
    assert!(Duration::zero().is_zero());
}

#[test]
fn presets_name_their_networks() {
    assert_eq!(NetworkPreset::Testnet.rpc_url(), "https://soroban-testnet.stellar.org");
    assert_eq!(NetworkPreset::Mainnet.passphrase(), "Public Global Stellar Network ; September 2015");
    assert_eq!(default_user_agent(), "xlm-ns-sdk/0.1.0");
}
