use xlm_ns::duration::Duration;
use xlm_ns::ingestion::{
    escape_toml, frame_payload_length, heartbeat_timeout_message, join_path, CaptiveCoreConfig, CaptiveCoreOutputTarget,
    IngestionSource,
};
use xlm_ns::supervisor::{IngestionSupervisor, Phase, SupervisorAction, SupervisorEvent};

#[test]
fn rendered_toml_includes_passphrase_and_history_archives() {
    let config = CaptiveCoreConfig {
        network_passphrase: "Standalone Network ; February 2017".into(),
        history_archive_urls: vec![
            "https://history-1.example.com".into(),
            "https://history-2.example.com".into(),
        ],
        ..CaptiveCoreConfig::defaults_in("/tmp")
    };

    let toml = config.rendered_toml();
    assert!(toml.contains("NETWORK_PASSPHRASE=\"Standalone Network ; February 2017\""));
    assert!(toml.contains("[HISTORY.archive_0]"));
    assert!(toml.contains("https://history-2.example.com"));
}

#[test]
fn command_line_renders_socket_metadata_stream_target() {
    let config = CaptiveCoreConfig {
        output_target: CaptiveCoreOutputTarget::TcpSocket("127.0.0.1:11626".to_string()),
        ..CaptiveCoreConfig::defaults_in("/tmp")
    };

    let args = config.command_line("stellar-core.cfg", 44);
    assert!(args.iter().any(|arg| arg == "127.0.0.1:11626"));
}

#[test]
fn command_line_fills_placeholders() {
    let config = CaptiveCoreConfig::defaults_in("/tmp");
    let args = config.command_line("core.cfg", 7);
    assert_eq!(
        args,
        vec!["run", "--conf", "core.cfg", "--start-at-ledger", "7", "--metadata-output-stream", "stdout"]
    );
    let custom = CaptiveCoreConfig {
        command_args: vec!["--x={config}:{config}".into(), "{start_ledger}!".into()],
        ..CaptiveCoreConfig::defaults_in("/tmp")
    };
    assert_eq!(custom.command_line("c", 12), vec!["--x=c:c", "12!"]);
}

#[test]
fn toml_text_is_escaped_and_exact() {
    assert_eq!(escape_toml("a\"b\\c"), "a\\\"b\\\\c");
    assert_eq!(join_path("/tmp/", "x"), "/tmp/x");
    assert_eq!(join_path("", "x"), "x");
    let config = CaptiveCoreConfig {
        network_passphrase: "P".into(),
        working_dir: "/w".into(),
        history_archive_urls: vec!["u".into()],
        ..CaptiveCoreConfig::defaults_in("/tmp")
    };
    assert_eq!(
        config.rendered_toml(),
        "NODE_IS_VALIDATOR=false\nRUN_STANDALONE=false\nUNSAFE_QUORUM=true\nFAILURE_SAFETY=0\nHTTP_PORT=0\nPUBLIC_HTTP_PORT=false\nNETWORK_PASSPHRASE=\"P\"\nBUCKET_DIR_PATH=\"/w/buckets\"\n\n[HISTORY.archive_0]\nget=\"u\"\n"
    );
}

#[test]
fn supervisor_resumes_after_the_last_processed_ledger() {
    let config = CaptiveCoreConfig { start_ledger: 41, ..CaptiveCoreConfig::defaults_in("/tmp") };
    let mut s = IngestionSupervisor::new(&config, 0);
    assert_eq!(s.next_start_ledger(), 41);
    s.record_primary_ledger(Some(41), 1_000);
    assert_eq!(s.next_start_ledger(), 42);
    s.record_primary_failure("process exited".to_string());
    s.record_archive(Some("/archive/archive-1".to_string()));
    let delay = s.begin_restart().unwrap();
    assert_eq!(delay, Duration::from_secs(5));
    assert!(s.record_restart(Ok(())));
    s.record_primary_ledger(Some(42), 2_000);
    let status = s.status();
    assert_eq!(status.active_source, IngestionSource::CaptiveCore);
    assert_eq!(status.last_processed_ledger, Some(42));
    assert!(status.last_archive_path.is_some());
    assert_eq!(status.consecutive_restart_failures, 0);
}

#[test]
fn supervisor_falls_back_after_exhausting_restarts() {
    let config = CaptiveCoreConfig { start_ledger: 88, max_restart_attempts: 1, ..CaptiveCoreConfig::defaults_in("/tmp") };
    let mut s = IngestionSupervisor::new(&config, 10);
    s.record_primary_failure("manual termination".to_string());
    assert!(s.begin_restart().is_some());
    assert!(!s.record_restart(Err("still down".to_string())));
    assert!(s.begin_restart().is_none());
    s.defer_primary(100);
    assert!(!s.primary_retry_due(100));
    assert!(s.primary_retry_due(100 + 5_000_000_000));
    s.record_remote_ledger(Some(99), 3_000);
    let status = s.status();
    assert_eq!(status.active_source, IngestionSource::Remote);
    assert_eq!(status.last_processed_ledger, Some(99));
    assert_eq!(status.fallback_reason, Some("still down".to_string()));
}

#[test]
fn restart_delays_double_then_cap() {
    let config = CaptiveCoreConfig::defaults_in("/tmp");
    let s = IngestionSupervisor::new(&config, 0);
    assert_eq!(s.restart_delay(1), Duration::from_secs(5));
    assert_eq!(s.restart_delay(2), Duration::from_secs(10));
    assert_eq!(s.restart_delay(9), Duration::from_secs(5 * 256));
    assert_eq!(s.restart_delay(30), Duration::from_secs(5 * 256));
}

#[test]
fn frame_headers_and_heartbeat_message() {
    assert_eq!(frame_payload_length(&[0, 0, 0, 0]), 0);
    assert_eq!(frame_payload_length(&[0, 0, 1, 2]), 258);
    assert_eq!(frame_payload_length(&[1, 0, 0, 0]), 16_777_216);
    assert_eq!(frame_payload_length(&[255, 255, 255, 255]), u32::MAX);
    assert_eq!(
        heartbeat_timeout_message(Duration::from_secs(30)),
        "captive core heartbeat timed out after 30000 ms"
    );
    assert_eq!(heartbeat_timeout_message(Duration::from_millis(5)), "captive core heartbeat timed out after 5 ms");
}

fn is_start(a: &SupervisorAction, ledger: u32) -> bool {
    matches!(a, SupervisorAction::StartPrimary { start_ledger } if *start_ledger == ledger)
}

#[test]
fn supervisor_steps_through_failure_restart_and_fallback() {
    let config = CaptiveCoreConfig { start_ledger: 10, max_restart_attempts: 2, ..CaptiveCoreConfig::defaults_in("/tmp") };
    let mut s = IngestionSupervisor::new(&config, 0);
    assert!(matches!(s.step(SupervisorEvent::NextLedger { now: 0 }), SupervisorAction::CheckPrimaryRunning));
    match s.step(SupervisorEvent::PrimaryRunning { running: true }) {
        SupervisorAction::ReadFrame { timeout } => assert_eq!(timeout, config.heartbeat_timeout),
        other => panic!("{other:?}"),
    }
    assert!(matches!(
        s.step(SupervisorEvent::Frame { outcome: Ok(Some(10)), now_wall: 1 }),
        SupervisorAction::Deliver { source: IngestionSource::CaptiveCore }
    ));
    assert_eq!(s.phase(), Phase::Idle);

    // The primary dies: stop and archive, then two restarts with doubling waits.
    s.step(SupervisorEvent::NextLedger { now: 0 });
    assert!(matches!(s.step(SupervisorEvent::PrimaryRunning { running: false }), SupervisorAction::StopAndArchive));
    assert_eq!(s.status().fallback_reason, Some("captive core process not running".to_string()));
    match s.step(SupervisorEvent::Archived { outcome: Ok(Some("/a/1".to_string())), now: 0 }) {
        SupervisorAction::SleepThenStart { delay, start_ledger } => {
            assert_eq!(delay, Duration::from_secs(5));
            assert_eq!(start_ledger, 11);
        }
        other => panic!("{other:?}"),
    }
    match s.step(SupervisorEvent::Started { outcome: Err("boom".to_string()), now: 0 }) {
        SupervisorAction::SleepThenStart { delay, .. } => assert_eq!(delay, Duration::from_secs(10)),
        other => panic!("{other:?}"),
    }
    // Last attempt fails: fall back to the remote source, primary deferred by one backoff.
    match s.step(SupervisorEvent::Started { outcome: Err("boom again".to_string()), now: 100 }) {
        SupervisorAction::FetchRemote { start_ledger } => assert_eq!(start_ledger, 11),
        other => panic!("{other:?}"),
    }
    assert!(matches!(
        s.step(SupervisorEvent::RemoteLedger { outcome: Ok(Some(11)), now_wall: 2 }),
        SupervisorAction::Deliver { source: IngestionSource::Remote }
    ));
    // Before the retry time: remote again; after it: try the primary.
    assert!(matches!(s.step(SupervisorEvent::NextLedger { now: 200 }), SupervisorAction::FetchRemote { start_ledger: 12 }));
    assert!(matches!(
        s.step(SupervisorEvent::RemoteLedger { outcome: Err("rpc down".to_string()), now_wall: 3 }),
        SupervisorAction::Fail { .. }
    ));
    let a = s.step(SupervisorEvent::NextLedger { now: 100 + 5_000_000_000 });
    assert!(is_start(&a, 12));
    assert!(matches!(s.step(SupervisorEvent::Started { outcome: Ok(()), now: 0 }), SupervisorAction::CheckPrimaryRunning));
    assert_eq!(s.status().active_source, IngestionSource::CaptiveCore);
}
