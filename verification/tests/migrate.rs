use xlm_ns::migrate::{
    compare_states, scope_name, sorted_table, storage_entries_changed, str_less, transform_state, ContractStateFile,
    ExportMetadata, StorageEntry, StorageScope, TransformArgs, VerifyArgs,
};

fn entry(scope: StorageScope, key: &str, value: &str) -> StorageEntry {
    StorageEntry { scope, key: key.to_string(), value: value.to_string() }
}

fn state(version: u32, scopes: Vec<StorageEntry>) -> ContractStateFile {
    ContractStateFile {
        schema_version: version,
        contract_id: Some("CABC".to_string()),
        export_metadata: ExportMetadata { source_wasm_hash: None, exported_at_unix: Some(1_700_000_000), note: None },
        scopes,
    }
}

fn keys(es: &[StorageEntry]) -> Vec<(StorageScope, String, String)> {
    es.iter().map(|e| (e.scope, e.key.clone(), e.value.clone())).collect()
}

#[test]
fn identical_exports_verify_ok() {
    let a = state(1, vec![entry(StorageScope::Persistent, "owner", "G1"), entry(StorageScope::Instance, "admin", "G0")]);
    let b = state(2, vec![entry(StorageScope::Instance, "admin", "G0"), entry(StorageScope::Persistent, "owner", "G1")]);
    let d = compare_states(&a, &b);
    assert!(d.is_ok());
    assert_eq!(d.headline(), "Verify OK");
    assert_eq!(VerifyArgs { strict: true }.verdict(&d), Ok(()));
}

#[test]
fn differences_are_reported_in_key_order() {
    let a = state(
        1,
        vec![
            entry(StorageScope::Temporary, "z", "1"),
            entry(StorageScope::Persistent, "b", "old"),
            entry(StorageScope::Persistent, "a", "gone"),
            entry(StorageScope::Instance, "k", "same"),
        ],
    );
    let b = state(
        1,
        vec![
            entry(StorageScope::Instance, "k", "same"),
            entry(StorageScope::Persistent, "b", "new"),
            entry(StorageScope::Instance, "extra", "x"),
            entry(StorageScope::Temporary, "z", "2"),
        ],
    );
    let d = compare_states(&a, &b);
    assert!(!d.is_ok());
    assert_eq!(d.headline(), "Verify FAILED");
    assert_eq!(keys(&d.missing_in_target), vec![(StorageScope::Persistent, "a".to_string(), "gone".to_string())]);
    assert_eq!(keys(&d.extra_in_target), vec![(StorageScope::Instance, "extra".to_string(), "x".to_string())]);
    let m: Vec<(StorageScope, String, String, String)> =
        d.mismatched.iter().map(|e| (e.scope, e.key.clone(), e.source.clone(), e.target.clone())).collect();
    assert_eq!(
        m,
        vec![
            (StorageScope::Persistent, "b".to_string(), "old".to_string(), "new".to_string()),
            (StorageScope::Temporary, "z".to_string(), "1".to_string(), "2".to_string()),
        ]
    );
    assert_eq!(VerifyArgs { strict: false }.verdict(&d), Ok(()));
    assert_eq!(
        VerifyArgs { strict: true }.verdict(&d),
        Err("verify failed: storage states do not match".to_string())
    );
}

#[test]
fn later_entries_override_earlier_ones() {
    let es = vec![
        entry(StorageScope::Persistent, "k", "first"),
        entry(StorageScope::Instance, "k", "inst"),
        entry(StorageScope::Persistent, "k", "second"),
        entry(StorageScope::Persistent, "ab", "v"),
    ];
    let t = sorted_table(&es);
    assert_eq!(
        keys(&t),
        vec![
            (StorageScope::Instance, "k".to_string(), "inst".to_string()),
            (StorageScope::Persistent, "ab".to_string(), "v".to_string()),
            (StorageScope::Persistent, "k".to_string(), "second".to_string()),
        ]
    );
    let a = state(1, es);
    let b = state(1, vec![entry(StorageScope::Persistent, "k", "second"), entry(StorageScope::Instance, "k", "inst"), entry(StorageScope::Persistent, "ab", "v")]);
    assert!(compare_states(&a, &b).is_ok());
}

#[test]
fn key_order_is_by_character() {
    assert!(str_less("a", "b"));
    assert!(str_less("ab", "abc"));
    assert!(!str_less("abc", "ab"));
    assert!(!str_less("same", "same"));
    assert!(str_less("Z", "a"));
    assert!(str_less("é", "ê"));
    assert_eq!(scope_name(StorageScope::Instance), "Instance");
    assert_eq!(scope_name(StorageScope::Persistent), "Persistent");
    assert_eq!(scope_name(StorageScope::Temporary), "Temporary");
}

#[test]
fn transform_only_moves_the_schema_version() {
    let s = state(1, vec![entry(StorageScope::Instance, "admin", "G0")]);
    let out = transform_state(s.clone(), &TransformArgs { from_version: 1, to_version: 3 });
    assert_eq!(out.schema_version, 3);
    assert_eq!(storage_entries_changed(&s, &out), 0);
    assert_eq!(out.contract_id, Some("CABC".to_string()));
    let same = transform_state(state(7, vec![]), &TransformArgs { from_version: 2, to_version: 2 });
    assert_eq!(same.schema_version, 7);
    let other = state(1, vec![entry(StorageScope::Instance, "admin", "G9")]);
    assert_eq!(storage_entries_changed(&s, &other), 1);
}
