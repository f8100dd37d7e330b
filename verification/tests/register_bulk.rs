use xlm_ns::bulk::{
    bulk_format, dry_run_heading, failure_line, progress_line, register_dry_run_line, renew_dry_run_line, BulkFormat,
    BulkRegisterRecord, BulkRenewRecord,
};
use xlm_ns::errors::SdkError;
use xlm_ns::register::{
    already_registered_message, confirmation_answer, label_input, prompt_for_inputs, prompt_reply, registrar_contract,
    registration_summary, PromptReply, QuoteText, ReceiptText,
};

#[test]
fn prompting_needs_a_terminal() {
    assert_eq!(prompt_for_inputs(false, true, true, false), Ok(false));
    assert_eq!(prompt_for_inputs(true, true, true, false), Ok(false));
    assert_eq!(prompt_for_inputs(true, true, true, true), Ok(true));
    assert_eq!(prompt_for_inputs(false, false, true, true), Ok(true));
    assert_eq!(
        prompt_for_inputs(false, true, false, false),
        Err("interactive registration requires a TTY; provide both name and owner explicitly or run in a terminal".to_string())
    );
}

#[test]
fn confirmation_answers() {
    assert_eq!(confirmation_answer("y\n"), Some(true));
    assert_eq!(confirmation_answer("  YES "), Some(true));
    assert_eq!(confirmation_answer(""), Some(false));
    assert_eq!(confirmation_answer("\n"), Some(false));
    assert_eq!(confirmation_answer("No"), Some(false));
    assert_eq!(confirmation_answer("maybe"), None);
}

#[test]
fn typed_names_and_replies() {
    assert_eq!(label_input("  alice.xlm \n"), "alice");
    assert_eq!(label_input("bob"), "bob");
    assert_eq!(label_input("carol.xlm.xlm"), "carol.xlm");
    assert_eq!(label_input(".xlm"), "");
    assert_eq!(prompt_reply("  \n", "alice"), PromptReply::UseDefault);
    assert_eq!(prompt_reply("", ""), PromptReply::Required);
    assert_eq!(prompt_reply(" dave \n", "alice"), PromptReply::Check("dave".to_string()));
    assert_eq!(already_registered_message("alice"), "name alice.xlm is already registered");
}

#[test]
fn bulk_files_and_lines() {
    assert_eq!(bulk_format("csv"), Ok(BulkFormat::Csv));
    assert_eq!(bulk_format("json"), Ok(BulkFormat::Json));
    assert_eq!(bulk_format("txt"), Err("Unsupported file format. Please use a .csv or .json file.".to_string()));
    assert_eq!(bulk_format(""), Err("Unsupported file format. Please use a .csv or .json file.".to_string()));
    assert_eq!(dry_run_heading(false), "Dry run: The following names would be registered:");
    assert_eq!(dry_run_heading(true), "Dry run: The following names would be renewed:");
    let rec = BulkRegisterRecord { name: "alice".to_string(), duration: 2, owner: "GALICE".to_string() };
    assert_eq!(register_dry_run_line(&rec), "  - Name: alice, Duration: 2, Owner: GALICE");
    let ren = BulkRenewRecord { name: "bob".to_string(), duration: 10 };
    assert_eq!(renew_dry_run_line(&ren), "  - Name: bob, Duration: 10");
    assert_eq!(progress_line("alice", false), "Registering alice...");
    assert_eq!(progress_line("bob", true), "Renewing bob...");
    assert_eq!(
        failure_line("alice", false, &SdkError::Transport("down".to_string())),
        "  - ERROR: Failed to register alice: transport error: down"
    );
}

#[test]
fn registrar_check_and_summary() {
    assert_eq!(registrar_contract(None), Err("Registrar contract ID not configured".to_string()));
    assert_eq!(registrar_contract(Some("CREG".to_string())), Ok("CREG".to_string()));
    let quote = QuoteText {
        total_fee: "110".to_string(),
        fee_currency: "XLM".to_string(),
        base_fee: "100".to_string(),
        premium_fee: "0".to_string(),
        network_fee: "10".to_string(),
        expires_at: "1700000000".to_string(),
    };
    let receipt = ReceiptText {
        name: "alice.xlm".to_string(),
        owner: "GALICE".to_string(),
        fee_paid: "110".to_string(),
        expires_at: "1700000000".to_string(),
        status: "SUCCESS".to_string(),
        tx_hash: "abc".to_string(),
    };
    let text = registration_summary("alice", "CREG", &quote, 1, &Some("profile 'ops'".to_string()), &receipt);
    assert_eq!(
        text,
        [
            "Registration quote for alice.xlm:",
            "  Registrar: CREG",
            "  Fee: 110 XLM (base 100, premium 0, network 10)",
            "  Duration: 1 year(s)",
            "  Expiry: 1700000000",
            "  Signer: profile 'ops'",
            "",
            "SUCCESS: registered alice.xlm to GALICE",
            "  Fee paid: 110 XLM",
            "  Expires at: 1700000000",
            "  Status: SUCCESS",
            "  Transaction Hash: abc",
        ]
        .join("\n")
    );
    let plain = registration_summary("alice", "CREG", &quote, 1, &None, &receipt);
    assert!(!plain.contains("Signer"));
}
