use zos_query::extract::extract_json;

#[test]
fn test_extract_json_from_code_block() {
    let text = r#"
        Here's some text.
        ```json
        {"key": "value"}
        ```
        More text.
        "#;

    let json = extract_json(text).unwrap();
    assert_eq!(json, r#"{"key": "value"}"#);
}

#[test]
fn test_extract_json_with_trailing_comma() {
    let text = r#"{"key": "value",}"#;
    let json = extract_json(text).unwrap();
    // Should remove trailing comma
    assert!(json.contains(r#""key""#));
    assert!(!json.contains(r#","}"#));
}

#[test]
fn test_extract_json_plain() {
    let text = r#"{"key": "value"}"#;
    let json = extract_json(text).unwrap();
    assert_eq!(json, r#"{"key": "value"}"#);
}

#[test]
fn test_extract_json_with_extra_text() {
    let text = r#"Some text before {"key": "value"} some text after"#;
    let json = extract_json(text).unwrap();
    assert_eq!(json, r#"{"key": "value"}"#);
}

#[test]
fn test_extract_json_fallback_strategies() {
    // Test with multiple commas
    let text = r#"{"key": "value",,}"#;
    let result = extract_json(text);
    // Should either succeed with fixed JSON or provide helpful error
    assert!(result.is_ok() || result.unwrap_err().render().contains("Failed to extract"));
}

#[test]
fn test_extract_is_idempotent_on_noisy_input() {
    // extraction of valid JSON is a fixed point: extracting the result
    // again returns it unchanged
    let noisy = "model says: {\"a\": [1, 2], \"b\": \"x\"} and then rambles";
    let once = extract_json(noisy).unwrap();
    let twice = extract_json(&once).unwrap();
    assert_eq!(once, twice);

    let clean = r#"  {"n": 7}  "#;
    let once = extract_json(clean).unwrap();
    assert_eq!(once, r#"{"n": 7}"#);
    let twice = extract_json(&once).unwrap();
    assert_eq!(once, twice);
}

#[test]
fn test_extract_fenced_with_trailing_comma_parses() {
    // a fenced, trailing-comma object inside surrounding prose
    let text = "prefix ```json\n{\"a\":1,}\n``` suffix";
    let json = extract_json(text).unwrap();
    let parsed: serde_json::Value = serde_json::from_str(&json).unwrap();
    let expected: serde_json::Value = serde_json::from_str("{\"a\":1}").unwrap();
    assert_eq!(parsed, expected);
}

#[test]
fn test_extract_repairs_latex_backslashes() {
    let text = r#"{"expr": "\pi r^2"}"#;
    let json = extract_json(text).unwrap();
    let parsed: serde_json::Value = serde_json::from_str(&json).unwrap();
    assert_eq!(parsed["expr"], serde_json::Value::String("\\pi r^2".to_string()));
}

#[test]
fn test_extract_error_is_descriptive() {
    let err = extract_json("no json here at all").unwrap_err();
    assert_eq!(err.stage, "json_extract");
    assert!(err.message.contains("Failed to extract valid JSON"));
    assert!(err.message.contains("Text length: 19"));
    assert!(err.message.contains("no json here at all"));
}

#[test]
fn test_extract_empty_input_fails() {
    let err = extract_json("").unwrap_err();
    assert_eq!(err.stage, "json_extract");
}
