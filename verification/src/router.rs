//! Router: picks the primary and fallback model for a task.
//!
//! Routing is pure, in-memory and never blocks.  For tasks whose output must
//! be machine-parseable JSON, a configured primary whose name carries the
//! reasoning-model family tag is known to produce unreliable free-form
//! output, so the general-purpose model is substituted as primary and the
//! original stays a fallback candidate.

use vstd::prelude::*;

verus! {

use crate::clock::now_timestamp;
use crate::config::ModelConfig;
use crate::models::{Registry, LocalModel, spec_reg_lookup, spec_reg_contains, get_model};
use crate::text::{spec_contains_seq, contains_seq, str_to_chars, str_eq, opt_view};

/// The logical kind of a request; it determines the routing policy.
#[derive(Debug, Clone, Copy, PartialEq, Eq, Structural)]
pub enum TaskType {
    ProofAnalysis,
    ProblemGeneration,
    General,
}

/// A routing decision: primary model, optional fallback, task, and when the
/// decision was made.  Immutable once produced; recomputed per query.
#[derive(Debug)]
pub struct RouteDecision {
    pub selected: String,
    pub fallback: Option<String>,
    pub task: TaskType,
    pub timestamp: i64,
}

/// Aggregate routing outcomes.
#[derive(Debug)]
pub struct RoutingMetrics {
    pub success_count: u64,
    pub failure_count: u64,
    pub total_latency_ms: u64,
}

impl Default for RoutingMetrics {
    /// All counters at zero.
    fn default() -> (r: RoutingMetrics)
        ensures
            r.success_count == 0,
            r.failure_count == 0,
            r.total_latency_ms == 0,
    {
        RoutingMetrics { success_count: 0, failure_count: 0, total_latency_ms: 0 }
    }
}

impl RoutingMetrics {
    /// Record a successful routing and its latency.
    pub fn record_success(&mut self, latency_ms: u64)
        ensures
            final(self).success_count as int == (if old(self).success_count < u64::MAX {
                old(self).success_count + 1
            } else {
                u64::MAX as int
            }),
            final(self).total_latency_ms as int == (if old(self).total_latency_ms + latency_ms
                <= u64::MAX {
                old(self).total_latency_ms + latency_ms
            } else {
                u64::MAX as int
            }),
            final(self).failure_count == old(self).failure_count,
    {
        if self.success_count < u64::MAX {
            self.success_count = self.success_count + 1;
        }
        self.total_latency_ms = self.total_latency_ms.saturating_add(latency_ms);
    }

    /// Record a routing failure.
    pub fn record_failure(&mut self)
        ensures
            final(self).failure_count as int == (if old(self).failure_count < u64::MAX {
                old(self).failure_count + 1
            } else {
                u64::MAX as int
            }),
            final(self).success_count == old(self).success_count,
            final(self).total_latency_ms == old(self).total_latency_ms,
    {
        if self.failure_count < u64::MAX {
            self.failure_count = self.failure_count + 1;
        }
    }
}

/// The family tag that marks a reasoning model: such models produce
/// unreliable free-form output where strict JSON is needed.
pub open spec fn spec_reasoning_marker() -> Seq<char> {
    "deepseek-r1"@
}

/// Whether a model name carries the reasoning-model family tag.
pub open spec fn spec_is_reasoning_model(name: Seq<char>) -> bool {
    spec_contains_seq(name, spec_reasoning_marker())
}

/// Whether a task's output must be machine-parseable JSON, making an
/// unreliable free-form primary unacceptable.
pub open spec fn spec_needs_strict_json(task: TaskType) -> bool {
    task is ProblemGeneration
}

/// The configured primary for a task, before any substitution.
pub open spec fn spec_configured_primary(config: ModelConfig, task: TaskType) -> Seq<char> {
    match task {
        TaskType::ProofAnalysis => config.proof_model@,
        TaskType::ProblemGeneration => config.problem_model@,
        TaskType::General => config.general_model@,
    }
}

/// The primary the router selects: the configured one, except that a
/// reasoning-tagged primary for a strict-JSON task is replaced by the
/// general-purpose model.
pub open spec fn spec_selected_primary(config: ModelConfig, task: TaskType) -> Seq<char> {
    let base = spec_configured_primary(config, task);
    if spec_needs_strict_json(task) && spec_is_reasoning_model(base) {
        config.general_model@
    } else {
        base
    }
}

/// The task-specific fallback priority order.
pub open spec fn spec_fallback_candidates(config: ModelConfig, task: TaskType) -> Seq<Seq<char>> {
    match task {
        TaskType::ProofAnalysis => seq![
            config.proof_model@,
            config.general_model@,
            config.problem_model@,
        ],
        TaskType::ProblemGeneration => seq![
            config.problem_model@,
            config.general_model@,
            config.proof_model@,
        ],
        TaskType::General => seq![
            config.general_model@,
            config.proof_model@,
            config.problem_model@,
        ],
    }
}

/// The first registered name other than the primary, in registration order.
pub open spec fn spec_first_other(s: Seq<(String, LocalModel)>, primary: Seq<char>) -> Option<
    Seq<char>,
>
    decreases s.len(),
{
    if s.len() == 0 {
        None
    } else if s[0].0@ != primary {
        Some(s[0].0@)
    } else {
        spec_first_other(s.drop_first(), primary)
    }
}

/// The first candidate that is not the primary and is registered; failing
/// all candidates, any other registered model.
pub open spec fn spec_fallback(
    config: ModelConfig,
    reg: Seq<(String, LocalModel)>,
    task: TaskType,
    primary: Seq<char>,
) -> Option<Seq<char>> {
    let cands = spec_fallback_candidates(config, task);
    if cands[0] != primary && spec_reg_contains(reg, cands[0]) {
        Some(cands[0])
    } else if cands[1] != primary && spec_reg_contains(reg, cands[1]) {
        Some(cands[1])
    } else if cands[2] != primary && spec_reg_contains(reg, cands[2]) {
        Some(cands[2])
    } else {
        spec_first_other(reg, primary)
    }
}

/// Whether a name is registered.
fn reg_contains(registry: &Registry, name: &str) -> (r: bool)
    ensures
        r == spec_reg_contains(registry.entries@, name@),
{
    match get_model(registry, name) {
        Some(_) => true,
        None => false,
    }
}

/// Find an alternative model when the primary is unavailable or failing.
pub fn find_fallback_model(
    config: &ModelConfig,
    registry: &Registry,
    task: TaskType,
    primary: &str,
) -> (r: Option<String>)
    ensures
        opt_view(r) == spec_fallback(*config, registry.entries@, task, primary@),
{
    let c0: &String;
    let c1: &String;
    let c2: &String;
    match task {
        TaskType::ProofAnalysis => {
            c0 = &config.proof_model;
            c1 = &config.general_model;
            c2 = &config.problem_model;
        },
        TaskType::ProblemGeneration => {
            c0 = &config.problem_model;
            c1 = &config.general_model;
            c2 = &config.proof_model;
        },
        TaskType::General => {
            c0 = &config.general_model;
            c1 = &config.proof_model;
            c2 = &config.problem_model;
        },
    }
    if !str_eq(c0.as_str(), primary) && reg_contains(registry, c0.as_str()) {
        return Some(c0.clone());
    }
    if !str_eq(c1.as_str(), primary) && reg_contains(registry, c1.as_str()) {
        return Some(c1.clone());
    }
    if !str_eq(c2.as_str(), primary) && reg_contains(registry, c2.as_str()) {
        return Some(c2.clone());
    }
    // last resort: any registered model other than the primary
    let n = registry.entries.len();
    let mut i: usize = 0;
    assert(registry.entries@.skip(0) =~= registry.entries@);
    while i < n
        invariant
            n == registry.entries@.len(),
            i <= n,
            spec_fallback(*config, registry.entries@, task, primary@) == spec_first_other(
                registry.entries@,
                primary@,
            ),
            spec_first_other(registry.entries@, primary@) == spec_first_other(
                registry.entries@.skip(i as int),
                primary@,
            ),
        decreases n - i,
    {
        proof {
            assert(registry.entries@.skip(i as int)[0] == registry.entries@[i as int]);
            assert(registry.entries@.skip(i as int).drop_first() =~= registry.entries@.skip(
                i as int + 1,
            ));
        }
        if !str_eq(registry.entries[i].0.as_str(), primary) {
            return Some(registry.entries[i].0.clone());
        }
        i = i + 1;
    }
    proof {
        assert(registry.entries@.skip(n as int) =~= Seq::<(String, LocalModel)>::empty());
    }
    None
}

/// Route a task: pick the primary (with the reasoning-model substitution)
/// and precompute the fallback.  Pure and O(1) in the registry size apart
/// from name comparisons; never blocks.
pub fn model_for_task(config: &ModelConfig, registry: &Registry, task: TaskType) -> (r:
    RouteDecision)
    ensures
        r.task == task,
        r.selected@ == spec_selected_primary(*config, task),
        opt_view(r.fallback) == spec_fallback(
            *config,
            registry.entries@,
            task,
            spec_selected_primary(*config, task),
        ),
{
    let base: &String = match task {
        TaskType::ProofAnalysis => &config.proof_model,
        TaskType::ProblemGeneration => &config.problem_model,
        TaskType::General => &config.general_model,
    };
    let marker = str_to_chars("deepseek-r1");
    proof {
        reveal_strlit("deepseek-r1");
    }
    let base_chars = str_to_chars(base.as_str());
    let needs_json = match task {
        TaskType::ProblemGeneration => true,
        _ => false,
    };
    let selected: String = if needs_json && contains_seq(&base_chars, &marker) {
        config.general_model.clone()
    } else {
        base.clone()
    };
    let fallback = find_fallback_model(config, registry, task, selected.as_str());
    let timestamp = now_timestamp();
    RouteDecision { selected, fallback, task, timestamp }
}

/// The registered handle for the model a task routes to.
pub fn get_model_for_task(config: &ModelConfig, registry: &Registry, task: TaskType) -> (r: Option<
    LocalModel,
>)
    ensures
        r == spec_reg_lookup(registry.entries@, spec_selected_primary(*config, task)),
{
    let decision = model_for_task(config, registry, task);
    get_model(registry, decision.selected.as_str())
}

/// A reasoning-tagged primary for a strict-JSON task is replaced by the
/// general-purpose model, and the configured model keeps a place in the
/// fallback: when it is registered and differs from the substitute, it is
/// chosen as the fallback.
pub proof fn lemma_router_substitutes_reasoning_primary(
    config: ModelConfig,
    reg: Seq<(String, LocalModel)>,
)
    requires
        spec_is_reasoning_model(config.problem_model@),
        spec_reg_contains(reg, config.problem_model@),
        config.problem_model@ != config.general_model@,
    ensures
        spec_selected_primary(config, TaskType::ProblemGeneration) == config.general_model@,
        spec_fallback(
            config,
            reg,
            TaskType::ProblemGeneration,
            spec_selected_primary(config, TaskType::ProblemGeneration),
        ) == Some(config.problem_model@),
{
}

} // verus!
