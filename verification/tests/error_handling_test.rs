use zos_query::error::ZosError;

#[test]
fn test_error_creation() {
    let error = ZosError::new("Test error".to_string(), "test_stage");
    assert_eq!(error.message, "Test error");
    assert_eq!(error.stage, "test_stage");
}

#[test]
fn test_error_with_context() {
    let error = ZosError::new("Test error".to_string(), "test_stage")
        .with_context("Additional context".to_string());
    assert!(error.context.is_some());
    assert_eq!(error.context.unwrap(), "Additional context");
}

#[test]
fn test_error_with_model() {
    let error = ZosError::new("Test error".to_string(), "test_stage")
        .with_model("test-model".to_string());
    assert!(error.model.is_some());
    assert_eq!(error.model.unwrap(), "test-model");
}

#[test]
fn test_error_display() {
    let error = ZosError::new("Test error".to_string(), "test_stage")
        .with_context("context".to_string())
        .with_model("model".to_string());
    let display = error.render();
    assert!(display.contains("test_stage"));
    assert!(display.contains("Test error"));
}

#[test]
fn test_error_render_full_form() {
    let error = ZosError::new("boom".to_string(), "model_call")
        .with_model("m1".to_string())
        .with_context("ctx".to_string())
        .with_source("io".to_string());
    assert_eq!(error.render(), "[model_call] boom (model: m1) (context: ctx) (source: io)");
}

#[test]
fn test_error_with_retry_flag() {
    let error = ZosError::new("x".to_string(), "s");
    assert!(!error.retry_succeeded);
    let error = error.with_retry(true);
    assert!(error.retry_succeeded);
}
