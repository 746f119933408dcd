use zos_query::backend::{assemble_fragments, model_listed};
use zos_query::prompts::{build_step1_prompt, build_step2_prompt, build_repair_prompt};
use zos_query::text::{trim_str, str_eq, usize_to_string};

#[test]
fn test_assemble_fragments_stops_at_done() {
    let fragments = vec![
        ("Hello ".to_string(), false),
        ("world".to_string(), true),
        ("IGNORED".to_string(), false),
    ];
    assert_eq!(assemble_fragments(&fragments), "Hello world");
}

#[test]
fn test_assemble_fragments_consumes_whole_stream_without_done() {
    let fragments = vec![
        ("a".to_string(), false),
        ("b".to_string(), false),
        ("c".to_string(), false),
    ];
    assert_eq!(assemble_fragments(&fragments), "abc");
    let empty: Vec<(String, bool)> = Vec::new();
    assert_eq!(assemble_fragments(&empty), "");
}

#[test]
fn test_model_listed_by_exact_name_or_tag_prefix() {
    let models = vec!["llama3:8b".to_string(), "qwen2-math".to_string()];
    assert!(model_listed(&models, "llama3:8b"));
    assert!(model_listed(&models, "qwen2-math"));
    // a listed tagged variant answers for the bare name
    let tagged = vec!["qwen2-math:7b".to_string()];
    assert!(model_listed(&tagged, "qwen2-math"));
    // but not the other way around, nor for mere prefixes
    assert!(!model_listed(&tagged, "qwen2-math:7b-extra"));
    assert!(!model_listed(&tagged, "qwen2"));
    assert!(!model_listed(&tagged, "qwen2-math:7b2"));
}

#[test]
fn test_build_step1_prompt_embeds_the_proof() {
    let p = build_step1_prompt("my proof text");
    assert!(p.starts_with("Analyze this solution attempt"));
    assert!(p.ends_with("Solution attempt:\nmy proof text"));
}

#[test]
fn test_build_step2_prompt_embeds_all_parts() {
    let p = build_step2_prompt("orig", "[i]", "[q]", "[a]");
    assert!(p.contains("Original: orig"));
    assert!(p.contains("Issues: [i]"));
    assert!(p.contains("Questions: [q]"));
    assert!(p.contains("Answers: [a]"));
}

#[test]
fn test_build_repair_prompt_quotes_sentinel_and_fragment() {
    let p = build_repair_prompt("{\"broken\":");
    assert!(p.contains("__TRUNCATED__"));
    assert!(p.ends_with("Malformed JSON:\n{\"broken\":"));
}

#[test]
fn test_text_helpers() {
    assert_eq!(trim_str("  a b\t\n"), "a b");
    assert_eq!(trim_str(""), "");
    assert!(str_eq("abc", "abc"));
    assert!(!str_eq("abc", "abd"));
    assert!(!str_eq("abc", "ab"));
    assert_eq!(usize_to_string(0), "0");
    assert_eq!(usize_to_string(40960), "40960");
}
