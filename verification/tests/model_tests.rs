use zos_query::config::{get_model_config, load_model_config};
use zos_query::models::{build_registry, get_model, get_available_models, model_exists_in_ollama};
use zos_query::router::{
    TaskType, RoutingMetrics, model_for_task, get_model_for_task, find_fallback_model,
};

#[test]
fn test_model_config_loads() {
    let config = load_model_config();
    assert!(!config.proof_model.is_empty());
    assert!(!config.problem_model.is_empty());
    assert!(!config.general_model.is_empty());
}

#[test]
fn test_routing_returns_decision() {
    let config = load_model_config();
    let registry = build_registry(&config);
    let decision = model_for_task(&config, &registry, TaskType::ProofAnalysis);
    assert!(!decision.selected.is_empty());
    assert_eq!(decision.task, TaskType::ProofAnalysis);
}

#[test]
fn test_get_model_for_task() {
    let config = load_model_config();
    let registry = build_registry(&config);
    // This will return None if models aren't registered, which is fine for testing
    let _model = get_model_for_task(&config, &registry, TaskType::ProofAnalysis);
    // Just verify it doesn't panic
}

#[test]
fn test_get_available_models() {
    let config = load_model_config();
    let registry = build_registry(&config);
    let models = get_available_models(&registry);
    // Should have at least the default models registered
    assert!(!models.is_empty());
}

#[test]
fn test_available_models_have_no_duplicates() {
    // the default configuration names the same models as the fixed aliases;
    // each name must still be registered only once
    let config = load_model_config();
    let registry = build_registry(&config);
    let models = get_available_models(&registry);
    assert_eq!(models.len(), 3);
    for i in 0..models.len() {
        for j in (i + 1)..models.len() {
            assert_ne!(models[i], models[j]);
        }
    }
    // a configuration with its own names keeps them beside the aliases
    let custom = get_model_config(
        Some("my-proof".to_string()),
        Some("my-problem".to_string()),
        Some("my-general".to_string()),
    );
    let registry = build_registry(&custom);
    let models = get_available_models(&registry);
    assert_eq!(models.len(), 6);
}

#[test]
fn test_routing_metrics_exist() {
    let metrics = RoutingMetrics::default();
    // Just verify we can access metrics without panicking
    assert!(metrics.success_count >= 0);
    assert!(metrics.failure_count >= 0);
}

#[test]
fn test_all_task_types() {
    let config = load_model_config();
    let registry = build_registry(&config);
    let _proof = model_for_task(&config, &registry, TaskType::ProofAnalysis);
    let _problem = model_for_task(&config, &registry, TaskType::ProblemGeneration);
    let _general = model_for_task(&config, &registry, TaskType::General);
    // Just verify all task types work
}

#[test]
fn test_config_overrides_and_defaults() {
    let config = get_model_config(Some("my-proof".to_string()), None, None);
    assert_eq!(config.proof_model, "my-proof");
    assert_eq!(config.problem_model, "qwen2-math:7b");
    assert_eq!(config.general_model, "qwen2.5:7b-instruct");
}

#[test]
fn test_registry_lookup_and_containment() {
    let config = load_model_config();
    let registry = build_registry(&config);
    assert!(model_exists_in_ollama(&registry, "deepseek-r1:7b"));
    assert!(!model_exists_in_ollama(&registry, "no-such-model"));
    let m = get_model(&registry, "qwen2-math:7b").unwrap();
    assert_eq!(m.name(), "qwen2-math:7b");
    assert!(m.healthcheck());
}

#[test]
fn test_router_substitutes_reasoning_model_for_problem_generation() {
    // the configured problem model carries the reasoning-model marker, so
    // the router picks the general model as primary and keeps the original
    // in the fallback
    let config = get_model_config(
        None,
        Some("deepseek-r1:32b".to_string()),
        Some("qwen2.5:7b-instruct".to_string()),
    );
    let registry = build_registry(&config);
    let decision = model_for_task(&config, &registry, TaskType::ProblemGeneration);
    assert_eq!(decision.selected, "qwen2.5:7b-instruct");
    assert_eq!(decision.fallback.as_deref(), Some("deepseek-r1:32b"));
}

#[test]
fn test_router_keeps_reliable_primary() {
    let config = load_model_config();
    let registry = build_registry(&config);
    let decision = model_for_task(&config, &registry, TaskType::ProblemGeneration);
    assert_eq!(decision.selected, "qwen2-math:7b");
    // the fallback is the next candidate in the task's priority order
    assert_eq!(decision.fallback.as_deref(), Some("qwen2.5:7b-instruct"));
}

#[test]
fn test_fallback_skips_primary_and_unregistered() {
    let config = load_model_config();
    let registry = build_registry(&config);
    let fb = find_fallback_model(&config, &registry, TaskType::ProofAnalysis, "deepseek-r1:7b");
    // the proof model is the primary, so the general model is next
    assert_eq!(fb.as_deref(), Some("qwen2.5:7b-instruct"));
}
