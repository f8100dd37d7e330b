use xlm_ns::output::{line_style, stylize_block, stylize_line, text_lines, LineStyle, OutputFormat};

#[test]
fn test_invalid_output_mode_exits_with_error() {
    assert!(OutputFormat::from_str("tsv", false).is_err());
}

#[test]
fn output_formats_parse_by_name() {
    assert_eq!(OutputFormat::from_str("json", false), Ok(OutputFormat::Json));
    assert!(OutputFormat::from_str("JSON", false).is_err());
    assert_eq!(OutputFormat::from_str("JSON", true), Ok(OutputFormat::Json));
    assert_eq!(OutputFormat::from_str("tsv", false), Err("invalid variant: tsv".to_string()));
}

#[test]
fn lines_are_styled_by_their_text() {
    assert_eq!(line_style("SUCCESS: registered"), LineStyle::GreenBold);
    assert_eq!(line_style("  ERROR: nope"), LineStyle::RedBold);
    assert_eq!(line_style("request timed out"), LineStyle::YellowBold);
    assert_eq!(line_style("    [PASS]  rpc"), LineStyle::GreenBold);
    assert_eq!(line_style("DEGRADED"), LineStyle::RedBold);
    assert_eq!(line_style("  Fee: 10"), LineStyle::Cyan);
    assert_eq!(line_style("Contracts"), LineStyle::CyanBold);
    assert_eq!(line_style("https://x.y"), LineStyle::Plain);
    assert_eq!(line_style("  plain words"), LineStyle::Plain);
}

#[test]
fn uncolored_output_is_unchanged() {
    assert_eq!(stylize_line("SUCCESS: ok", false), "SUCCESS: ok");
    assert_eq!(stylize_block("a\r\nb\n\nc\n", false), "a\nb\n\nc");
    assert_eq!(text_lines("x\ny\n"), vec!["x".to_string(), "y".to_string()]);
    assert_eq!(stylize_line("   ", true), "");
}

#[test]
fn lines_keep_a_bare_final_carriage_return() {
    assert_eq!(xlm_ns::output::stylize_block("a\r", false), "a\r");
    assert_eq!(xlm_ns::output::stylize_block("a\r\nb\r\n", false), "a\nb");
    assert_eq!(xlm_ns::output::stylize_block("a\n\r", false), "a\n\r");
    assert_eq!(xlm_ns::output::text_lines("x\r\n\ny"), vec!["x".to_string(), String::new(), "y".to_string()]);
}
