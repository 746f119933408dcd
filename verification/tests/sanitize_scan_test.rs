use zos_query::sanitize::{sanitize_raw_output, remove_trailing_commas, fix_unescaped_backslashes};
use zos_query::scan::{is_truncated, validate_json_structure};

#[test]
fn test_sanitize_strips_fences_and_quotes() {
    let raw = "```json\n{\u{201C}k\u{201D}: \u{2018}v\u{2019}}\n```";
    let clean = sanitize_raw_output(raw);
    assert_eq!(clean, "{\"k\": 'v'}");
}

#[test]
fn test_sanitize_strips_latex_markers_and_collapses_whitespace() {
    let raw = "a \\(x\\)   b\n\n\tc \\[y\\]";
    let clean = sanitize_raw_output(raw);
    assert_eq!(clean, "a x b c y");
}

#[test]
fn test_sanitize_removes_trailing_commas() {
    let clean = sanitize_raw_output("{\"a\": [1, 2, ],}");
    assert_eq!(clean, "{\"a\": [1, 2 ]}");
}

#[test]
fn test_remove_trailing_commas_spares_interior_commas() {
    assert_eq!(remove_trailing_commas("{\"k\":\"v\",}"), "{\"k\":\"v\"}");
    assert_eq!(remove_trailing_commas("[1, 2, 3]"), "[1, 2, 3]");
    assert_eq!(remove_trailing_commas("[1, 2 , ]"), "[1, 2  ]");
}

#[test]
fn test_remove_trailing_commas_never_crosses_string_boundaries() {
    // a comma inside a string literal stays, even right before a brace
    assert_eq!(remove_trailing_commas("{\"a\":\",}\"}"), "{\"a\":\",}\"}");
    assert_eq!(remove_trailing_commas("{\"a\":\",]\", \"b\": 1,}"), "{\"a\":\",]\", \"b\": 1}");
    // an escaped quote does not end the string
    assert_eq!(remove_trailing_commas("{\"a\":\"x\\\",}\"}"), "{\"a\":\"x\\\",}\"}");
}

#[test]
fn test_fix_unescaped_backslashes() {
    // an invalid escape inside a string is doubled; a valid one is kept
    assert_eq!(fix_unescaped_backslashes(r#"{"e": "\pi"}"#), r#"{"e": "\\pi"}"#);
    assert_eq!(fix_unescaped_backslashes(r#"{"e": "a\nb"}"#), r#"{"e": "a\nb"}"#);
    // outside strings backslashes pass through
    assert_eq!(fix_unescaped_backslashes(r#"\x {"k": 1}"#), r#"\x {"k": 1}"#);
    // a trailing backslash in a string is doubled
    assert_eq!(fix_unescaped_backslashes("\"a\\"), "\"a\\\\");
}

#[test]
fn test_is_truncated_detects_hanging_output() {
    assert!(is_truncated("{\"a\": 1"));
    assert!(is_truncated("{\"a\": \"unterminated"));
    assert!(is_truncated("{\"a\": 1},"));
    assert!(is_truncated("[1, 2"));
    assert!(!is_truncated("{\"a\": 1}"));
    assert!(!is_truncated(""));
    assert!(!is_truncated("   "));
    // braces inside strings never affect the balance
    assert!(!is_truncated("{\"a\": \"{[\"}"));
}

#[test]
fn test_validate_json_structure_balances() {
    assert!(validate_json_structure("{\"a\": [1, {\"b\": 2}]}"));
    assert!(!validate_json_structure("{\"a\": 1"));
    assert!(!validate_json_structure("}{"));
    assert!(!validate_json_structure("[}"));
    assert!(!validate_json_structure("{\"a\": \"unclosed}"));
    assert!(validate_json_structure("{\"a\": \"}\"}"));
}
