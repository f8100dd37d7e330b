use xlm_ns::output::{stylize_block, stylize_line};
use xlm_ns::watch::{notification, ExpiryStatus};

#[test]
fn colored_lines_carry_their_style_codes() {
    colored::control::set_override(true);
    assert_eq!(stylize_line("SUCCESS: done", true), "\u{1b}[1;32mSUCCESS: done\u{1b}[0m");
    assert_eq!(stylize_line("ERROR: broke", true), "\u{1b}[1;31mERROR: broke\u{1b}[0m");
    assert_eq!(stylize_line("Warning: slow", true), "\u{1b}[1;33mWarning: slow\u{1b}[0m");
    assert_eq!(stylize_line("  Owner: G", true), "\u{1b}[36m  Owner: G\u{1b}[0m");
    assert_eq!(stylize_line("Heading", true), "\u{1b}[1;36mHeading\u{1b}[0m");
    assert_eq!(stylize_line("   ", true), "");
    assert_eq!(
        stylize_line("SUCCESS: a\u{1b}[0mb", true),
        "\u{1b}[1;32mSUCCESS: a\u{1b}[0m\u{1b}[1;32mb\u{1b}[0m"
    );
    assert_eq!(stylize_block("SUCCESS: x\n   ", true), "\u{1b}[1;32mSUCCESS: x\u{1b}[0m\n");
    assert_eq!(
        notification("a.xlm", &ExpiryStatus::NotRegistered, false),
        "a.xlm: \u{1b}[37mNot registered\u{1b}[0m"
    );
    assert_eq!(
        notification("a.xlm", &ExpiryStatus::Expired, false),
        "a.xlm: \u{1b}[37mExpired and available\u{1b}[0m"
    );
    assert_eq!(
        notification("a.xlm", &ExpiryStatus::Safe(0), false),
        "a.xlm: \u{1b}[32mSafe (expires on 1970-01-01)\u{1b}[0m"
    );
    colored::control::set_override(false);
    assert_eq!(stylize_line("SUCCESS: done", true), "SUCCESS: done");
}
