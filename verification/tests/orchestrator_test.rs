use zos_query::backoff::ExponentialBackoff;
use zos_query::cache::CachedResponse;
use zos_query::config::get_model_config;
use zos_query::models::build_registry;
use zos_query::orchestrator::{
    Orchestrator, QueryAction, QueryEvent, QueryMachine, QueryPhase, FailKind,
};
use zos_query::router::TaskType;

fn availability(ok: bool) -> QueryEvent {
    QueryEvent::Availability { ok }
}

fn response(text: &str, latency_ms: u64) -> QueryEvent {
    QueryEvent::ModelResponse { text: text.to_string(), latency_ms }
}

fn parsed(ok: bool) -> QueryEvent {
    QueryEvent::Parsed { ok }
}

#[test]
fn test_unavailable_primary_runs_only_the_fallback() {
    let config = get_model_config(None, None, None);
    let registry = build_registry(&config);
    let mut orch = Orchestrator::new();
    let mut called: Vec<String> = Vec::new();

    let (mut m, mut action) =
        orch.start_query(&config, &registry, TaskType::General, "q".to_string(), 1000);
    // the cache is empty: the primary's availability is checked first
    match &action {
        QueryAction::EnsureAvailable { model } => assert_eq!(model, "qwen2.5:7b-instruct"),
        other => panic!("unexpected action: {:?}", other),
    }
    // the primary cannot be loaded: the machine moves to the fallback
    action = orch.on_event(&mut m, availability(false), 1001);
    let fallback_model = match &action {
        QueryAction::EnsureAvailable { model } => {
            assert_ne!(model, "qwen2.5:7b-instruct");
            model.clone()
        },
        other => panic!("unexpected action: {:?}", other),
    };
    action = orch.on_event(&mut m, availability(true), 1002);
    loop {
        match action {
            QueryAction::CallModel { model, prompt } => {
                assert_eq!(model, fallback_model, "only the fallback may be called");
                assert_eq!(prompt, "q");
                called.push(model);
                action = orch.on_event(&mut m, response("{\"ok\": true}", 5), 1003);
            },
            QueryAction::ParseJson { json } => {
                assert_eq!(json, "{\"ok\": true}");
                action = orch.on_event(&mut m, parsed(true), 1004);
            },
            QueryAction::Succeed { json } => {
                assert_eq!(json, "{\"ok\": true}");
                break;
            },
            other => panic!("unexpected action: {:?}", other),
        }
    }
    // the primary's generate endpoint was never called
    assert_eq!(called.len(), 1);
    assert!(called.iter().all(|model| model != "qwen2.5:7b-instruct"));
}

#[test]
fn test_repair_success_caches_under_fallback_key() {
    let config = get_model_config(None, None, None);
    let registry = build_registry(&config);
    let mut orch = Orchestrator::new();

    let prompt = "generate".to_string();
    let (mut m, mut action) =
        orch.start_query(&config, &registry, TaskType::General, prompt.clone(), 50);
    let primary = "qwen2.5:7b-instruct";
    match &action {
        QueryAction::EnsureAvailable { model } => assert_eq!(model, primary),
        other => panic!("unexpected action: {:?}", other),
    }
    action = orch.on_event(&mut m, availability(true), 51);

    // the primary answers garbage on all three attempts
    let mut fallback_model = String::new();
    let mut repaired = false;
    let mut steps = 0;
    loop {
        steps += 1;
        assert!(steps < 40, "machine does not converge");
        match action {
            QueryAction::CallModel { model, prompt: p } => {
                if p.contains("Malformed JSON") {
                    // the single-shot repair call, addressed to the fallback
                    assert_ne!(model, primary);
                    fallback_model = model;
                    repaired = true;
                    action = orch.on_event(&mut m, response("{\"fixed\": 1}", 5), 60);
                } else {
                    assert_eq!(model, primary);
                    action = orch.on_event(&mut m, response("not json at all", 5), 60);
                }
            },
            QueryAction::Sleep { ms } => {
                assert!(ms >= 100 && ms <= 5000);
                action = orch.on_event(&mut m, QueryEvent::Slept, 61);
            },
            QueryAction::ParseJson { json } => {
                assert_eq!(json, "{\"fixed\": 1}");
                action = orch.on_event(&mut m, parsed(true), 62);
            },
            QueryAction::Succeed { json } => {
                assert_eq!(json, "{\"fixed\": 1}");
                break;
            },
            other => panic!("unexpected action: {:?}", other),
        }
    }
    assert!(repaired, "the repair path must have run");

    // the result is cached under the fallback model's key, not the primary's
    let (_m2, a2) = orch.start_query(&config, &registry, TaskType::General, prompt.clone(), 70);
    match a2 {
        QueryAction::EnsureAvailable { model } => assert_eq!(model, primary),
        other => panic!("a primary-keyed lookup must miss, got: {:?}", other),
    }
    let cached = orch.cache.load(&fallback_model, &prompt).expect("cached under the fallback key");
    assert_eq!(cached.data, "{\"fixed\": 1}");
}

#[test]
fn test_cache_hit_answers_without_any_call() {
    let config = get_model_config(None, None, None);
    let registry = build_registry(&config);
    let mut orch = Orchestrator::new();
    orch.cache.store(
        "qwen2.5:7b-instruct",
        "q",
        CachedResponse { data: "{\"hit\": 1}".to_string(), timestamp: 5 },
    );

    let (mut m, action) =
        orch.start_query(&config, &registry, TaskType::General, "q".to_string(), 10);
    match action {
        QueryAction::ParseCached { data } => assert_eq!(data, "{\"hit\": 1}"),
        other => panic!("unexpected action: {:?}", other),
    }
    match orch.on_event(&mut m, QueryEvent::CacheParsed { ok: true }, 11) {
        QueryAction::Succeed { json } => assert_eq!(json, "{\"hit\": 1}"),
        other => panic!("unexpected action: {:?}", other),
    }
}

#[test]
fn test_oversized_output_escalates_to_fallback() {
    let config = get_model_config(None, None, None);
    let registry = build_registry(&config);
    let mut orch = Orchestrator::new();

    let (mut m, _a) =
        orch.start_query(&config, &registry, TaskType::General, "q".to_string(), 0);
    let mut action = orch.on_event(&mut m, availability(true), 1);
    match &action {
        QueryAction::CallModel { model, .. } => assert_eq!(model, "qwen2.5:7b-instruct"),
        other => panic!("unexpected action: {:?}", other),
    }
    // oversized output escalates straight to the fallback, no retry
    let big = "x".repeat(40001);
    action = orch.on_event(&mut m, response(&big, 5), 2);
    match action {
        QueryAction::EnsureAvailable { model } => assert_ne!(model, "qwen2.5:7b-instruct"),
        other => panic!("unexpected action: {:?}", other),
    }
}

#[test]
fn test_slow_response_is_treated_as_truncation() {
    let config = get_model_config(None, None, None);
    let registry = build_registry(&config);
    let mut orch = Orchestrator::new();

    let (mut m, _a) =
        orch.start_query(&config, &registry, TaskType::General, "q".to_string(), 0);
    let mut action = orch.on_event(&mut m, availability(true), 1);
    action = orch.on_event(&mut m, response("{\"ok\":1}", 60001), 2);
    // escalation to the fallback, not a retry of the same model
    match action {
        QueryAction::EnsureAvailable { model } => assert_ne!(model, "qwen2.5:7b-instruct"),
        other => panic!("unexpected action: {:?}", other),
    }
}

#[test]
fn test_truncated_output_fails_without_fallback() {
    let mut orch = Orchestrator::new();
    let mut m = QueryMachine {
        task: TaskType::General,
        prompt: "q".to_string(),
        primary: "solo-model".to_string(),
        fallback: None,
        on_fallback: false,
        attempt: 0,
        phase: QueryPhase::AwaitModel,
        pending_json: String::new(),
        last_raw: String::new(),
        last_fail: FailKind::State,
        repair_used: false,
        backoff: ExponentialBackoff::default(),
    };
    let action = orch.on_event(&mut m, response("{\"cut\": \"of", 5), 1);
    match action {
        QueryAction::Fail { error } => {
            assert_eq!(error.stage, "truncated");
            assert_eq!(error.model.as_deref(), Some("solo-model"));
            assert!(!error.retry_succeeded);
        },
        other => panic!("unexpected action: {:?}", other),
    }
}

#[test]
fn test_connect_failures_retry_then_escalate() {
    let mut orch = Orchestrator::new();
    let mut m = QueryMachine {
        task: TaskType::General,
        prompt: "q".to_string(),
        primary: "solo-model".to_string(),
        fallback: None,
        on_fallback: false,
        attempt: 0,
        phase: QueryPhase::AwaitModel,
        pending_json: String::new(),
        last_raw: String::new(),
        last_fail: FailKind::State,
        repair_used: false,
        backoff: ExponentialBackoff::default(),
    };
    // first failure: backoff of 100 ms, second: 200 ms, third ends the query
    match orch.on_event(&mut m, QueryEvent::ModelFailed, 1) {
        QueryAction::Sleep { ms } => assert_eq!(ms, 100),
        other => panic!("unexpected action: {:?}", other),
    }
    match orch.on_event(&mut m, QueryEvent::Slept, 2) {
        QueryAction::CallModel { model, .. } => assert_eq!(model, "solo-model"),
        other => panic!("unexpected action: {:?}", other),
    }
    match orch.on_event(&mut m, QueryEvent::ModelFailed, 3) {
        QueryAction::Sleep { ms } => assert_eq!(ms, 200),
        other => panic!("unexpected action: {:?}", other),
    }
    orch.on_event(&mut m, QueryEvent::Slept, 4);
    match orch.on_event(&mut m, QueryEvent::ModelFailed, 5) {
        QueryAction::Fail { error } => assert_eq!(error.stage, "model_call"),
        other => panic!("unexpected action: {:?}", other),
    }
}

#[test]
fn test_repair_sentinel_falls_through_to_fallback() {
    let mut orch = Orchestrator::new();
    let mut m = QueryMachine {
        task: TaskType::General,
        prompt: "q".to_string(),
        primary: "p-model".to_string(),
        fallback: Some("f-model".to_string()),
        on_fallback: false,
        attempt: 2,
        phase: QueryPhase::AwaitRepairModel,
        pending_json: String::new(),
        last_raw: "{\"partial\":".to_string(),
        last_fail: FailKind::JsonExtract,
        repair_used: true,
        backoff: ExponentialBackoff::default(),
    };
    // the repair model reports genuine truncation: full fallback follows
    let action = orch.on_event(&mut m, response("__TRUNCATED__", 5), 1);
    match action {
        QueryAction::EnsureAvailable { model } => assert_eq!(model, "f-model"),
        other => panic!("unexpected action: {:?}", other),
    }
}

#[test]
fn test_open_breaker_skips_the_primary() {
    let config = get_model_config(None, None, None);
    let registry = build_registry(&config);
    let mut orch = Orchestrator::new();
    // three failures open the primary's circuit
    orch.breakers.record_failure_at("qwen2.5:7b-instruct", 100);
    orch.breakers.record_failure_at("qwen2.5:7b-instruct", 101);
    orch.breakers.record_failure_at("qwen2.5:7b-instruct", 102);
    assert!(orch.breakers.is_open_at("qwen2.5:7b-instruct", 103));

    let (m, action) =
        orch.start_query(&config, &registry, TaskType::General, "q".to_string(), 103);
    match action {
        QueryAction::EnsureAvailable { model } => assert_ne!(model, "qwen2.5:7b-instruct"),
        other => panic!("unexpected action: {:?}", other),
    }
    assert!(m.on_fallback);
}

#[test]
fn test_unavailable_model_without_fallback_fails() {
    let mut orch = Orchestrator::new();
    let mut m = QueryMachine {
        task: TaskType::General,
        prompt: "q".to_string(),
        primary: "solo-model".to_string(),
        fallback: None,
        on_fallback: false,
        attempt: 0,
        phase: QueryPhase::AwaitAvailability,
        pending_json: String::new(),
        last_raw: String::new(),
        last_fail: FailKind::State,
        repair_used: false,
        backoff: ExponentialBackoff::default(),
    };
    match orch.on_event(&mut m, availability(false), 1) {
        QueryAction::Fail { error } => {
            assert_eq!(error.stage, "model_availability");
            assert!(!error.retry_succeeded);
        },
        other => panic!("unexpected action: {:?}", other),
    }
}

#[test]
fn test_failed_repair_parse_on_exhausted_fallback_fails() {
    let mut orch = Orchestrator::new();
    // the fallback itself was already running when the parse failed, so
    // nothing is left to try
    let mut m = QueryMachine {
        task: TaskType::General,
        prompt: "q".to_string(),
        primary: "p-model".to_string(),
        fallback: Some("f-model".to_string()),
        on_fallback: true,
        attempt: 2,
        phase: QueryPhase::AwaitRepairParse,
        pending_json: "{\"a\":1}".to_string(),
        last_raw: String::new(),
        last_fail: FailKind::JsonParse,
        repair_used: true,
        backoff: ExponentialBackoff::default(),
    };
    match orch.on_event(&mut m, parsed(false), 1) {
        QueryAction::Fail { error } => assert_eq!(error.stage, "json_repair_parse"),
        other => panic!("unexpected action: {:?}", other),
    }
}

#[test]
fn test_mismatched_event_is_a_state_error() {
    let config = get_model_config(None, None, None);
    let registry = build_registry(&config);
    let mut orch = Orchestrator::new();
    let (mut m, _a) =
        orch.start_query(&config, &registry, TaskType::General, "q".to_string(), 0);
    // the machine awaits an availability result, not a sleep
    match orch.on_event(&mut m, QueryEvent::Slept, 1) {
        QueryAction::Fail { error } => assert_eq!(error.stage, "state"),
        other => panic!("unexpected action: {:?}", other),
    }
}

#[test]
fn test_failed_repair_call_escalates_to_full_fallback() {
    let mut orch = Orchestrator::new();
    let mut m = QueryMachine {
        task: TaskType::General,
        prompt: "q".to_string(),
        primary: "p-model".to_string(),
        fallback: Some("f-model".to_string()),
        on_fallback: false,
        attempt: 2,
        phase: QueryPhase::AwaitRepairModel,
        pending_json: String::new(),
        last_raw: "{\"partial\":".to_string(),
        last_fail: FailKind::JsonExtract,
        repair_used: true,
        backoff: ExponentialBackoff::default(),
    };
    match orch.on_event(&mut m, QueryEvent::ModelFailed, 1) {
        QueryAction::EnsureAvailable { model } => assert_eq!(model, "f-model"),
        other => panic!("unexpected action: {:?}", other),
    }
}
