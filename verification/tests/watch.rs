use xlm_ns::watch::{add_message, notification, remove_message, ExpiryStatus, Watchlist};

const DAY: i64 = 86_400;
const JAN_1_2030: i64 = 1_893_456_000;

#[test]
fn expiry_status_boundaries() {
    let e = JAN_1_2030;
    assert_eq!(ExpiryStatus::status_at(None, e), ExpiryStatus::NotRegistered);
    assert_eq!(ExpiryStatus::status_at(Some(e), e - 31 * DAY), ExpiryStatus::Safe(e));
    assert_eq!(ExpiryStatus::status_at(Some(e), e - 30 * DAY), ExpiryStatus::Safe(e));
    assert_eq!(ExpiryStatus::status_at(Some(e), e - 30 * DAY + 1), ExpiryStatus::ExpiringSoon(e));
    assert_eq!(ExpiryStatus::status_at(Some(e), e), ExpiryStatus::ExpiringSoon(e));
    assert_eq!(ExpiryStatus::status_at(Some(e), e + 1), ExpiryStatus::InGracePeriod(e));
    assert_eq!(ExpiryStatus::status_at(Some(e), e + 90 * DAY), ExpiryStatus::InGracePeriod(e));
    assert_eq!(ExpiryStatus::status_at(Some(e), e + 90 * DAY + 1), ExpiryStatus::Expired);
    assert_eq!(ExpiryStatus::status_at(Some(i64::MAX), i64::MIN), ExpiryStatus::Safe(i64::MAX));
}

#[test]
fn status_lines_carry_the_date() {
    let e = JAN_1_2030;
    assert_eq!(ExpiryStatus::Safe(e).text(), "Safe (expires on 2030-01-01)");
    assert_eq!(ExpiryStatus::ExpiringSoon(e + DAY).text(), "Expiring soon (expires on 2030-01-02)");
    assert_eq!(ExpiryStatus::InGracePeriod(0).text(), "In grace period (expired on 1970-01-01)");
    assert_eq!(ExpiryStatus::Expired.text(), "Expired and available");
    assert_eq!(ExpiryStatus::NotRegistered.color(), "bright-black");
    assert_eq!(ExpiryStatus::Safe(e).color(), "green");
    assert_eq!(notification("test.xlm", &ExpiryStatus::NotRegistered, true), "test.xlm: Not registered");
    assert_eq!(ExpiryStatus::from_expires_at(None), ExpiryStatus::NotRegistered);
    assert_eq!(ExpiryStatus::from_expires_at(Some(200_000_000_000)), ExpiryStatus::Safe(200_000_000_000));
}

#[test]
fn watchlist_add_remove_and_list() {
    let mut w = Watchlist::new();
    assert_eq!(w.list_lines(), vec!["The watchlist is empty.".to_string()]);
    assert!(w.add("test.xlm"));
    assert_eq!(add_message("test.xlm", true), "Added 'test.xlm' to the watchlist.");
    assert!(!w.add("test.xlm"));
    assert_eq!(add_message("test.xlm", false), "'test.xlm' is already in the watchlist.");
    assert!(w.add("other.xlm"));
    assert_eq!(
        w.list_lines(),
        vec!["Watched names:".to_string(), "- test.xlm".to_string(), "- other.xlm".to_string()]
    );
    assert!(w.remove("test.xlm"));
    assert_eq!(remove_message("test.xlm", true), "Removed 'test.xlm' from the watchlist.");
    assert!(!w.remove("test.xlm"));
    assert_eq!(remove_message("test.xlm", false), "'test.xlm' is not in the watchlist.");
    assert_eq!(w.names, vec!["other.xlm".to_string()]);
    assert!(w.contains("other.xlm"));
    assert!(!w.contains("test.xlm"));
}

#[test]
fn dates_before_1970_and_past_9999_are_written() {
    assert_eq!(ExpiryStatus::Safe(-86_400).text(), "Safe (expires on 1969-12-31)");
    let last = ExpiryStatus::Safe(8_210_266_876_799).text();
    assert!(last.contains("262142-12-31"), "{last}");
    let first = ExpiryStatus::Safe(-8_334_601_228_800).text();
    assert!(first.contains("262143-01-01"), "{first}");
}
