use xlm_ns::constants::{MAX_NAME_LENGTH, MAX_SUBDOMAIN_DEPTH, MIN_NAME_LENGTH};
use xlm_ns::name_validation::{validate_name, validate_name_with_reserved, NameValidationError};
use xlm_ns::types::Tld;

#[test]
fn accepts_simple_valid_name() {
    let v = validate_name("timmy.xlm").unwrap();
    assert_eq!(v.labels, vec!["timmy"]);
    assert_eq!(v.tld, Tld::Xlm);
    assert!(!v.is_subdomain());
    assert_eq!(v.leaf_label(), "timmy");
    assert_eq!(v.base_label(), "timmy");
    assert_eq!(v.fqdn(), "timmy.xlm");
}

#[test]
fn accepts_subdomain() {
    let v = validate_name("pay.timmy.xlm").unwrap();
    assert_eq!(v.labels, vec!["pay", "timmy"]);
    assert!(v.is_subdomain());
    assert_eq!(v.leaf_label(), "pay");
    assert_eq!(v.base_label(), "timmy");
    assert_eq!(v.fqdn(), "pay.timmy.xlm");
}

#[test]
fn accepts_name_with_digits_and_hyphens() {
    let v = validate_name("abc-123.xlm").unwrap();
    assert_eq!(v.labels, vec!["abc-123"]);
}

#[test]
fn accepts_max_depth_subdomain() {
    let v = validate_name("foo.bar.baz.xlm").unwrap();
    assert_eq!(v.labels, vec!["foo", "bar", "baz"]);
}

#[test]
fn rejects_too_short_label() {
    let err = validate_name("ab.xlm").unwrap_err();
    assert_eq!(err, NameValidationError::TooShort { min: MIN_NAME_LENGTH, actual: 2 });
}

#[test]
fn rejects_too_long_label() {
    let label = "a".repeat(MAX_NAME_LENGTH + 1);
    let name = format!("{label}.xlm");
    let err = validate_name(&name).unwrap_err();
    assert_eq!(
        err,
        NameValidationError::TooLong { max: MAX_NAME_LENGTH, actual: MAX_NAME_LENGTH + 1 }
    );
}

#[test]
fn rejects_uppercase_character() {
    let err = validate_name("Tim.xlm").unwrap_err();
    assert_eq!(err, NameValidationError::InvalidCharacter { ch: 'T', position: 0 });
}

#[test]
fn rejects_emoji() {
    let err = validate_name("tim\u{1F980}.xlm").unwrap_err();
    assert_eq!(err, NameValidationError::InvalidCharacter { ch: '\u{1F980}', position: 3 });
}

#[test]
fn rejects_leading_hyphen() {
    let err = validate_name("-tim.xlm").unwrap_err();
    assert_eq!(err, NameValidationError::InvalidLabelBoundary);
}

#[test]
fn rejects_trailing_hyphen() {
    let err = validate_name("tim-.xlm").unwrap_err();
    assert_eq!(err, NameValidationError::InvalidLabelBoundary);
}

#[test]
fn rejects_unsupported_tld() {
    let err = validate_name("timmy.eth").unwrap_err();
    assert_eq!(err, NameValidationError::UnsupportedTld("eth".to_string()));
}

#[test]
fn rejects_missing_tld() {
    let err = validate_name("timmy").unwrap_err();
    assert_eq!(err, NameValidationError::MissingTld);
}

#[test]
fn rejects_too_many_labels() {
    let err = validate_name("aaa.bbb.ccc.ddd.xlm").unwrap_err();
    assert_eq!(err, NameValidationError::TooManyLabels { max: MAX_SUBDOMAIN_DEPTH, actual: 4 });
}

#[test]
fn rejects_reserved_name() {
    let err = validate_name_with_reserved("admin.xlm", &["admin"]).unwrap_err();
    assert_eq!(err, NameValidationError::ReservedName("admin".to_string()));
}

#[test]
fn reserved_check_applies_to_each_label() {
    let err = validate_name_with_reserved("pay.root.xlm", &["root"]).unwrap_err();
    assert_eq!(err, NameValidationError::ReservedName("root".to_string()));
}

#[test]
fn non_reserved_name_passes_reserved_check() {
    assert!(validate_name_with_reserved("alice.xlm", &["admin", "root"]).is_ok());
}

#[test]
fn rejects_empty_label_before_tld() {
    let err = validate_name(".xlm").unwrap_err();
    assert!(matches!(err, NameValidationError::TooShort { actual: 0, .. }));
}

#[test]
fn rejects_empty_intermediate_label() {
    let err = validate_name("ti..xlm").unwrap_err();
    assert!(matches!(err, NameValidationError::TooShort { .. }));
}

#[test]
fn error_display_is_human_readable() {
    assert!(NameValidationError::MissingTld.to_display_string().contains("TLD"));
    assert!(NameValidationError::InvalidCharacter { ch: 'A', position: 0 }
        .to_display_string()
        .contains("position 0"));
}

#[test]
fn validated_name_round_trips_through_fqdn() {
    for name in ["abc.xlm", "pay.timmy.xlm", "a-1.b-2.c-3.xlm"] {
        let v = validate_name(name).unwrap();
        assert_eq!(v.fqdn(), name);
        assert_eq!(validate_name(&v.fqdn()).unwrap(), v);
    }
}
