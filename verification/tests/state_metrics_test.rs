use zos_query::metrics::Metrics;
use zos_query::perf::PerfTimer;
use zos_query::prompts::{Step1Response, Step2Response};
use zos_query::session::{SessionState, ProofState, step1_allowed, step2_allowed};

#[test]
fn test_metrics_counters_accumulate() {
    let mut m = Metrics::new();
    m.record_cache_hit();
    m.record_cache_hit();
    m.record_cache_miss();
    m.record_fallback();
    m.record_error();
    m.record_state_transition();
    m.record_model_latency(120);
    m.record_model_latency(80);
    m.record_routing_time(3);
    assert_eq!(m.cache_hit_count, 2);
    assert_eq!(m.cache_miss_count, 1);
    assert_eq!(m.fallback_count, 1);
    assert_eq!(m.errors_total, 1);
    assert_eq!(m.session_state_transitions, 1);
    assert_eq!(m.model_latency_ms, 200);
    assert_eq!(m.routing_time_ms, 3);
}

#[test]
fn test_metrics_saturate_at_the_top() {
    let mut m = Metrics::new();
    m.record_model_latency(u64::MAX);
    m.record_model_latency(100);
    assert_eq!(m.model_latency_ms, u64::MAX);
}

#[test]
fn test_perf_timer_is_non_negative() {
    let t = PerfTimer::new("unit");
    assert_eq!(t.label, "unit");
    let _ms = t.elapsed_ms();
}

#[test]
fn test_session_state_gates_pipeline_steps() {
    let mut s = SessionState::new();
    assert!(matches!(s.get_state(), ProofState::AwaitingSolution));
    assert!(step1_allowed(s.get_state()));
    assert!(!step2_allowed(s.get_state()));

    let step1 = Step1Response {
        steps: Vec::new(),
        issues: Vec::new(),
        questions: vec!["Why?".to_string()],
        summary: "s".to_string(),
    };
    s.set_state(ProofState::AwaitingClarifyingAnswers { step1_response: step1 });
    assert!(!step1_allowed(s.get_state()));
    assert!(step2_allowed(s.get_state()));

    let step2 = Step2Response {
        evaluation: Vec::new(),
        next_tasks: Vec::new(),
        needs_revision: true,
    };
    s.set_state(ProofState::AwaitingRevision { step2_response: step2 });
    assert!(step1_allowed(s.get_state()));
    assert!(!step2_allowed(s.get_state()));

    s.reset_state();
    assert!(matches!(s.get_state(), ProofState::AwaitingSolution));
}
