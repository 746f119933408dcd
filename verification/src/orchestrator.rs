//! Query orchestrator: the retry/fallback/cache state machine.
//!
//! A query runs as a machine that hands actions to the caller — parse this
//! cached payload, check this model's availability, call this model, sleep,
//! parse this JSON — and consumes the resulting events.  The outside work
//! (network, sleeping, deserialization into the caller's type) happens at
//! the application edge; every decision between two such steps is made and
//! verified here.
//!
//! Policy, in order: cache lookup; availability of the primary (skipped to
//! the fallback when it fails or the primary's circuit breaker is open); up
//! to three attempts against the chosen model with exponential backoff;
//! after exhausted extract/parse failures, a single-shot JSON repair by the
//! fallback model; then a full retry against the fallback with the original
//! prompt.  Cache writes happen only on a fully successful, parsed result.

use vstd::prelude::*;

verus! {

use crate::backoff::ExponentialBackoff;
use crate::backoff::spec_delay;
use crate::breaker::{CircuitBreaker, spec_after_failure, spec_timeout_elapsed};
use crate::cache::{
    ResponseCache,
    CachedResponse,
    spec_fingerprint,
    spec_cache_put,
    spec_cache_promote,
    spec_entries_lookup,
};
use crate::config::ModelConfig;
use crate::error::ZosError;
use crate::extract::{extract_json, spec_extract_returns};
use crate::jsonval::spec_json_valid;
use crate::text::spec_trim;
use crate::models::Registry;
use crate::prompts::{build_repair_prompt, spec_truncation_sentinel};
use crate::router::{TaskType, RouteDecision, model_for_task, spec_selected_primary, spec_fallback};
use crate::sanitize::{sanitize_raw_output, spec_sanitize};
use crate::scan::{is_truncated, spec_is_truncated, brace_span_end};
use crate::text::{
    str_eq,
    opt_view,
    str_to_chars,
    trim_chars,
    chars_to_string,
    contains_seq,
    spec_contains_seq,
};

/// Total attempts allowed against one model.
pub const MAX_ATTEMPTS: u64 = 3;

/// A call slower than this is treated as suspected truncation.
pub const LATENCY_LIMIT_MS: u64 = 60000;

/// Output larger than this (in bytes) is treated as invalid oversized
/// output.
pub const MAX_OUTPUT_BYTES: usize = 40000;

/// Seconds an open circuit stays open.
pub const BREAKER_TIMEOUT_SECS: u64 = 60;

/// Consecutive failures at which a model's circuit opens.
pub const BREAKER_THRESHOLD: u64 = 3;

/// The stage at which a query failed.
#[derive(Debug, Clone, Copy, PartialEq, Eq, Structural)]
pub enum FailKind {
    /// Network or connect failure after retries.
    ModelCall,
    /// The call took longer than the latency limit.
    TimeoutTruncation,
    /// The output exceeded the size limit.
    OutputTooLarge,
    /// The sanitized output looks cut off.
    Truncated,
    /// No JSON could be extracted.
    JsonExtract,
    /// The extracted JSON did not parse into the caller's type.
    JsonParse,
    /// The repair model call failed.
    RepairCall,
    /// The repair response yielded no JSON.
    RepairExtract,
    /// The repaired JSON did not parse into the caller's type.
    RepairParse,
    /// The repair model reported genuine truncation.
    TruncatedDetected,
    /// The model could not be loaded.
    Availability,
    /// An event arrived that the current phase cannot take.
    State,
}

/// The error stage reported for each failure kind.
pub open spec fn spec_stage_of(kind: FailKind) -> Seq<char> {
    match kind {
        FailKind::ModelCall => "model_call"@,
        FailKind::TimeoutTruncation => "timeout_truncation"@,
        FailKind::OutputTooLarge => "output_too_large"@,
        FailKind::Truncated => "truncated"@,
        FailKind::JsonExtract => "json_extract"@,
        FailKind::JsonParse => "json_parse"@,
        FailKind::RepairCall => "json_repair"@,
        FailKind::RepairExtract => "json_repair_extract"@,
        FailKind::RepairParse => "json_repair_parse"@,
        FailKind::TruncatedDetected => "truncated_detected"@,
        FailKind::Availability => "model_availability"@,
        FailKind::State => "state"@,
    }
}

/// What the application reports back to the machine.
#[derive(Debug)]
pub enum QueryEvent {
    /// The cached payload parsed (or not) into the caller's type.
    CacheParsed { ok: bool },
    /// The availability check (with optional pull) for the requested model.
    Availability { ok: bool },
    /// The model produced raw text after the given latency.
    ModelResponse { text: String, latency_ms: u64 },
    /// The model call failed (connect error, empty response).
    ModelFailed,
    /// The JSON handed out parsed (or not) into the caller's type.
    Parsed { ok: bool },
    /// The requested backoff sleep finished.
    Slept,
}

/// What the application must do next.
#[derive(Debug)]
pub enum QueryAction {
    /// Deserialize this cached payload into the caller's type.
    ParseCached { data: String },
    /// Check (and if needed pull) this model.
    EnsureAvailable { model: String },
    /// Call this model with this prompt and report the raw text.
    CallModel { model: String, prompt: String },
    /// Sleep this many milliseconds.
    Sleep { ms: u64 },
    /// Deserialize this JSON into the caller's type.
    ParseJson { json: String },
    /// The query succeeded with this JSON payload.
    Succeed { json: String },
    /// The query failed.
    Fail { error: ZosError },
}

/// Where the machine stands between two events.
#[derive(Debug, Clone, Copy, PartialEq, Eq, Structural)]
pub enum QueryPhase {
    /// A cached payload was handed out for deserialization.
    AwaitCacheParse,
    /// An availability check is running for the current model.
    AwaitAvailability,
    /// The current model was called with the original prompt.
    AwaitModel,
    /// Extracted JSON was handed out for deserialization.
    AwaitParse,
    /// A backoff sleep is running.
    AwaitSleep,
    /// The fallback model was called with the repair prompt.
    AwaitRepairModel,
    /// Repaired JSON was handed out for deserialization.
    AwaitRepairParse,
    /// The query is over.
    Done,
}

/// One in-flight query.
#[derive(Debug)]
pub struct QueryMachine {
    pub task: TaskType,
    pub prompt: String,
    pub primary: String,
    pub fallback: Option<String>,
    /// Whether attempts now target the fallback model.
    pub on_fallback: bool,
    /// Attempts made against the current model.
    pub attempt: u64,
    pub phase: QueryPhase,
    /// The JSON handed out for parsing; cached verbatim on success.
    pub pending_json: String,
    /// The raw model response kept for a possible repair.
    pub last_raw: String,
    /// The kind of the last failure.
    pub last_fail: FailKind,
    /// Whether the single-shot repair was already spent.
    pub repair_used: bool,
    pub backoff: ExponentialBackoff,
}

impl QueryMachine {
    /// The name of the fallback model; meaningful only when one exists.
    pub open spec fn spec_fallback_name(&self) -> Seq<char> {
        match self.fallback {
            Some(f) => f@,
            None => Seq::<char>::empty(),
        }
    }

    /// The model the attempt loop currently targets.
    pub open spec fn spec_current_model(&self) -> Seq<char> {
        if self.on_fallback {
            self.spec_fallback_name()
        } else {
            self.primary@
        }
    }

    /// The machine's internal consistency.
    pub open spec fn wf(&self) -> bool {
        &&& (self.on_fallback ==> self.fallback is Some)
        &&& self.attempt <= MAX_ATTEMPTS
        &&& ((self.phase is AwaitParse || self.phase is AwaitRepairParse)
            ==> spec_json_valid(self.pending_json@))
        &&& ((self.phase is AwaitRepairModel || self.phase is AwaitRepairParse)
            ==> self.fallback is Some)
    }
}

/// Per-model circuit breakers, keyed by model name.
pub struct BreakerBank {
    pub entries: Vec<(String, CircuitBreaker)>,
}

/// The breaker recorded for a name, if any.
pub open spec fn spec_bank_breaker(s: Seq<(String, CircuitBreaker)>, name: Seq<char>) -> Option<
    CircuitBreaker,
>
    decreases s.len(),
{
    if s.len() == 0 {
        None
    } else if s[0].0@ == name {
        Some(s[0].1)
    } else {
        spec_bank_breaker(s.drop_first(), name)
    }
}

impl BreakerBank {
    /// A bank with no breakers yet: every circuit is closed.
    pub fn new() -> (r: BreakerBank)
        ensures
            r.entries@ =~= Seq::<(String, CircuitBreaker)>::empty(),
    {
        BreakerBank { entries: Vec::new() }
    }

    /// The index of the breaker for a model, if one exists.
    fn find_index(&self, model: &str) -> (r: Option<usize>)
        ensures
            r matches Some(i) ==> i < self.entries@.len() && self.entries@[i as int].0@ == model@
                && spec_bank_breaker(self.entries@, model@) == Some(self.entries@[i as int].1)
                && (forall|j: int| 0 <= j < i ==> (#[trigger] self.entries@[j]).0@ != model@),
            r is None ==> spec_bank_breaker(self.entries@, model@) is None,
    {
        let n = self.entries.len();
        let mut i: usize = 0;
        assert(self.entries@.skip(0) =~= self.entries@);
        while i < n
            invariant
                n == self.entries@.len(),
                i <= n,
                spec_bank_breaker(self.entries@, model@) == spec_bank_breaker(
                    self.entries@.skip(i as int),
                    model@,
                ),
                forall|j: int| 0 <= j < i ==> (#[trigger] self.entries@[j]).0@ != model@,
            decreases n - i,
        {
            proof {
                assert(self.entries@.skip(i as int)[0] == self.entries@[i as int]);
                assert(self.entries@.skip(i as int).drop_first() =~= self.entries@.skip(
                    i as int + 1,
                ));
            }
            if str_eq(self.entries[i].0.as_str(), model) {
                return Some(i);
            }
            i = i + 1;
        }
        proof {
            assert(self.entries@.skip(n as int) =~= Seq::<(String, CircuitBreaker)>::empty());
        }
        None
    }

    /// Whether the model's circuit is open at the given clock reading.  A
    /// model without a breaker is closed.  An open circuit past its timeout
    /// closes itself.
    pub fn is_open_at(&mut self, model: &str, now: u64) -> (r: bool)
        ensures
            r == (match spec_bank_breaker(old(self).entries@, model@) {
                Some(b) => b.open && !spec_timeout_elapsed(b, now),
                None => false,
            }),
    {
        match self.find_index(model) {
            Some(i) => {
                let (name, mut b) = self.entries.remove(i);
                let r = b.is_open_at(now);
                self.entries.insert(i, (name, b));
                r
            },
            None => false,
        }
    }

    /// Record a failure against a model at the given clock reading; a model
    /// without a breaker gets a fresh one first.
    pub fn record_failure_at(&mut self, model: &str, now: u64)
        ensures
            spec_bank_breaker(final(self).entries@, model@) == Some(
                spec_after_failure(
                    match spec_bank_breaker(old(self).entries@, model@) {
                        Some(b) => b,
                        None => CircuitBreaker {
                            failures: 0,
                            last_failure: None,
                            open: false,
                            timeout_secs: BREAKER_TIMEOUT_SECS,
                            failure_threshold: BREAKER_THRESHOLD,
                        },
                    },
                    now,
                ),
            ),
    {
        match self.find_index(model) {
            Some(i) => {
                let (name, mut b) = self.entries.remove(i);
                b.record_failure_at(now);
                let ghost before = self.entries@;
                self.entries.insert(i, (name, b));
                proof {
                    lemma_bank_breaker_at_insert(before, i as int, (name, b), model@);
                }
            },
            None => {
                let mut b = CircuitBreaker::new(BREAKER_TIMEOUT_SECS, BREAKER_THRESHOLD);
                b.record_failure_at(now);
                let ghost before = self.entries@;
                self.entries.push((model.to_owned(), b));
                proof {
                    lemma_bank_breaker_append(before, (final(self).entries@.last()), model@);
                }
            },
        }
    }

    /// Record a success against a model: its circuit closes and resets.  A
    /// model without a breaker stays without one.
    pub fn record_success(&mut self, model: &str)
        ensures
            (match spec_bank_breaker(final(self).entries@, model@) {
                Some(b) => b.failures == 0 && !b.open,
                None => spec_bank_breaker(old(self).entries@, model@) is None,
            }),
    {
        match self.find_index(model) {
            Some(i) => {
                let (name, mut b) = self.entries.remove(i);
                b.record_success();
                let ghost before = self.entries@;
                self.entries.insert(i, (name, b));
                proof {
                    lemma_bank_breaker_at_insert(before, i as int, (name, b), model@);
                }
            },
            None => {},
        }
    }
}

/// After inserting an entry for `name` at position `i` into entries where no
/// earlier entry carries `name`, the bank finds exactly that entry.
proof fn lemma_bank_breaker_at_insert(
    s: Seq<(String, CircuitBreaker)>,
    i: int,
    e: (String, CircuitBreaker),
    name: Seq<char>,
)
    requires
        0 <= i <= s.len(),
        e.0@ == name,
        forall|j: int| 0 <= j < i ==> s[j].0@ != name,
    ensures
        spec_bank_breaker(s.insert(i, e), name) == Some(e.1),
    decreases i,
{
    let s2 = s.insert(i, e);
    if i == 0 {
        assert(s2[0] == e);
    } else {
        assert(s2[0] == s[0]);
        assert(s2.drop_first() =~= s.drop_first().insert(i - 1, e));
        lemma_bank_breaker_at_insert(s.drop_first(), i - 1, e, name);
    }
}

/// After appending an entry for `name` to entries where no entry carries
/// `name`, the bank finds exactly the appended entry.
proof fn lemma_bank_breaker_append(
    s: Seq<(String, CircuitBreaker)>,
    e: (String, CircuitBreaker),
    name: Seq<char>,
)
    requires
        e.0@ == name,
        spec_bank_breaker(s, name) is None,
    ensures
        spec_bank_breaker(s.push(e), name) == Some(e.1),
    decreases s.len(),
{
    let s2 = s.push(e);
    if s.len() == 0 {
        assert(s2[0] == e);
    } else {
        assert(s2[0] == s[0]);
        assert(s2.drop_first() =~= s.drop_first().push(e));
        lemma_bank_breaker_append(s.drop_first(), e, name);
    }
}

/// The best-effort JSON fragment of a raw response: the brace-balanced span
/// from the first opening brace, or the trimmed text when none closes.
fn repair_fragment(raw: &str) -> (r: String) {
    let v = str_to_chars(raw);
    let n = v.len();
    let mut start: usize = 0;
    let mut found = false;
    while start < n
        invariant
            n == v@.len(),
            start <= n,
            found ==> start < n && v@[start as int] == '{',
        decreases n - start,
    {
        if v[start] == '{' {
            found = true;
            break ;
        }
        start = start + 1;
    }
    if found {
        match brace_span_end(&v, start) {
            Some(end) => {
                let mut frag: Vec<char> = Vec::new();
                let mut i: usize = start;
                while i < end
                    invariant
                        start <= i <= end <= v@.len(),
                    decreases end - i,
                {
                    frag.push(v[i]);
                    i = i + 1;
                }
                chars_to_string(frag.as_slice())
            },
            None => {
                let t = trim_chars(&v);
                chars_to_string(t.as_slice())
            },
        }
    } else {
        let t = trim_chars(&v);
        chars_to_string(t.as_slice())
    }
}

impl QueryMachine {
    /// A clone of the current target model's name.
    fn current_model(&self) -> (r: String)
        requires
            self.on_fallback ==> self.fallback is Some,
        ensures
            r@ == self.spec_current_model(),
    {
        if self.on_fallback {
            match &self.fallback {
                Some(f) => f.clone(),
                None => self.primary.clone(),
            }
        } else {
            self.primary.clone()
        }
    }

    /// End the query with a failure of the given kind.  The error names the
    /// stage and the current model and never claims a successful retry.
    fn fail_action(&mut self, kind: FailKind) -> (r: QueryAction)
        requires
            old(self).on_fallback ==> old(self).fallback is Some,
        ensures
            *final(self) == (QueryMachine {
                phase: QueryPhase::Done,
                last_fail: kind,
                ..*old(self)
            }),
            r matches QueryAction::Fail { error } && error.stage@ == spec_stage_of(kind)
                && !error.retry_succeeded && (error.model matches Some(mm) && mm@ == old(
                self,
            ).spec_current_model()),
    {
        self.phase = QueryPhase::Done;
        self.last_fail = kind;
        let msg: &str = match kind {
            FailKind::ModelCall => "Model call failed after all attempts",
            FailKind::TimeoutTruncation => "Model call exceeded the latency limit; output treated as truncated",
            FailKind::OutputTooLarge => "Model output exceeded the size limit",
            FailKind::Truncated => "Model output appears truncated",
            FailKind::JsonExtract => "Failed to extract JSON from model output",
            FailKind::JsonParse => "Extracted JSON did not parse into the requested type",
            FailKind::RepairCall => "Repair model call failed",
            FailKind::RepairExtract => "Failed to extract JSON from the repair response",
            FailKind::RepairParse => "Repaired JSON did not parse into the requested type",
            FailKind::TruncatedDetected => "Repair model reported the output as truncated",
            FailKind::Availability => "Model could not be loaded",
            FailKind::State => "Query event does not match the current state",
        };
        let stage: &str = match kind {
            FailKind::ModelCall => "model_call",
            FailKind::TimeoutTruncation => "timeout_truncation",
            FailKind::OutputTooLarge => "output_too_large",
            FailKind::Truncated => "truncated",
            FailKind::JsonExtract => "json_extract",
            FailKind::JsonParse => "json_parse",
            FailKind::RepairCall => "json_repair",
            FailKind::RepairExtract => "json_repair_extract",
            FailKind::RepairParse => "json_repair_parse",
            FailKind::TruncatedDetected => "truncated_detected",
            FailKind::Availability => "model_availability",
            FailKind::State => "state",
        };
        let model = self.current_model();
        let error = ZosError::new(msg.to_owned(), stage).with_model(model).with_retry(false);
        QueryAction::Fail { error }
    }

    /// Give up on the current model: move to the fallback with the original
    /// prompt when one is still unused, else end the query.
    fn escalate(&mut self, kind: FailKind) -> (r: QueryAction)
        requires
            old(self).on_fallback ==> old(self).fallback is Some,
        ensures
            final(self).task == old(self).task,
            final(self).prompt@ == old(self).prompt@,
            final(self).primary@ == old(self).primary@,
            final(self).fallback == old(self).fallback,
            final(self).backoff == old(self).backoff,
            final(self).pending_json == old(self).pending_json,
            final(self).repair_used == old(self).repair_used,
            old(self).on_fallback ==> final(self).on_fallback,
            final(self).on_fallback ==> final(self).fallback is Some,
            final(self).attempt == 0,
            final(self).phase is AwaitAvailability || final(self).phase is Done,
            !old(self).on_fallback && old(self).fallback is Some ==> final(self).on_fallback
                && final(self).phase is AwaitAvailability && (r matches
                QueryAction::EnsureAvailable { model } && model@ == old(
                self,
            ).spec_fallback_name()),
            old(self).on_fallback || old(self).fallback is None ==> final(self).phase is Done
                && (r matches QueryAction::Fail { error } && error.stage@ == spec_stage_of(kind)
                && !error.retry_succeeded && (error.model matches Some(mm) && mm@ == old(
                self,
            ).spec_current_model())) && final(self).last_fail == kind,
    {
        if !self.on_fallback {
            let has_fallback = match &self.fallback {
                Some(_) => true,
                None => false,
            };
            if has_fallback {
                self.on_fallback = true;
                self.attempt = 0;
                self.last_fail = kind;
                self.phase = QueryPhase::AwaitAvailability;
                let f = match &self.fallback {
                    Some(f) => f.clone(),
                    None => self.primary.clone(),
                };
                return QueryAction::EnsureAvailable { model: f };
            }
        }
        self.attempt = 0;
        self.fail_action(kind)
    }
}

/// The frame that every `on_event` step obeys — each conjunct is an
/// `ensures` clause of `Orchestrator::on_event`: the query's identity is
/// preserved, the move to the fallback is one-way, and every model call
/// targets the fallback during repair and the current model otherwise.
pub open spec fn spec_step_frame(pre: QueryMachine, post: QueryMachine, action: QueryAction) -> bool {
    &&& post.primary@ == pre.primary@
    &&& opt_view(post.fallback) == opt_view(pre.fallback)
    &&& (pre.on_fallback ==> post.on_fallback)
    &&& (action matches QueryAction::CallModel { model, prompt } ==> model@ == (if post.phase
        is AwaitRepairModel {
        post.spec_fallback_name()
    } else {
        post.spec_current_model()
    }))
}

/// Along a chain of steps that obey the frame, the machine keeps its primary
/// and fallback and stays on the fallback.
proof fn lemma_frame_chain(states: Seq<QueryMachine>, actions: Seq<QueryAction>, i: int)
    requires
        states.len() == actions.len() + 1,
        forall|j: int|
            0 <= j < actions.len() ==> #[trigger] spec_step_frame(
                states[j],
                states[j + 1],
                actions[j],
            ),
        states[0].on_fallback,
        0 <= i < states.len(),
    ensures
        states[i].on_fallback,
        states[i].primary@ == states[0].primary@,
        opt_view(states[i].fallback) == opt_view(states[0].fallback),
    decreases i,
{
    if i > 0 {
        lemma_frame_chain(states, actions, i - 1);
        let jj = i - 1;
        assert(spec_step_frame(states[jj], states[jj + 1], actions[jj]));
        assert(states[jj + 1] == states[i]);
    }
}

/// Once a query runs on the fallback — as it does right after the primary's
/// availability check fails — no later step calls the primary's generate
/// endpoint, provided the fallback is a different model.
pub proof fn lemma_fallback_never_calls_primary(
    states: Seq<QueryMachine>,
    actions: Seq<QueryAction>,
)
    requires
        states.len() == actions.len() + 1,
        forall|j: int|
            0 <= j < actions.len() ==> #[trigger] spec_step_frame(
                states[j],
                states[j + 1],
                actions[j],
            ),
        states[0].on_fallback,
        states[0].spec_fallback_name() != states[0].primary@,
    ensures
        forall|j: int|
            0 <= j < actions.len() ==> !(#[trigger] actions[j] matches QueryAction::CallModel {
                model,
                prompt,
            } && model@ == states[0].primary@),
{
    assert forall|j: int|
        0 <= j < actions.len() implies !(#[trigger] actions[j] matches QueryAction::CallModel {
        model,
        prompt,
    } && model@ == states[0].primary@) by {
        lemma_frame_chain(states, actions, j);
        lemma_frame_chain(states, actions, j + 1);
        assert(spec_step_frame(states[j], states[j + 1], actions[j]));
        match actions[j] {
            QueryAction::CallModel { model, prompt } => {
                assert(states[j + 1].on_fallback);
                assert(model@ == states[j + 1].spec_fallback_name());
                assert(states[j + 1].spec_fallback_name() == states[0].spec_fallback_name());
            },
            _ => {},
        }
    }
}

/// The shared long-lived pieces of the query subsystem: the response cache
/// and the per-model circuit breakers.
pub struct Orchestrator {
    pub cache: ResponseCache,
    pub breakers: BreakerBank,
}

/// A clock reading in seconds, clamped to be non-negative.
pub open spec fn spec_clamp_secs(now: i64) -> u64 {
    if now < 0 {
        0u64
    } else {
        now as u64
    }
}

/// Whether a model's circuit is open (and its timeout not yet elapsed) in
/// the bank at the given clock reading.
pub open spec fn spec_breaker_open(
    bank: Seq<(String, CircuitBreaker)>,
    name: Seq<char>,
    now: u64,
) -> bool {
    match spec_bank_breaker(bank, name) {
        Some(b) => b.open && !spec_timeout_elapsed(b, now),
        None => false,
    }
}

/// The admissible outcomes of a failed attempt: another try after a backoff
/// sleep while the attempt budget lasts, the single-shot repair (where
/// allowed), the move to the fallback, or the end of the query.  Nothing
/// else — in particular no immediate retry without a sleep, and no fourth
/// attempt against the same model.
pub open spec fn spec_failed_attempt_outcome(
    pre: QueryMachine,
    post: QueryMachine,
    r: QueryAction,
    allow_repair: bool,
) -> bool {
    ||| (pre.attempt < MAX_ATTEMPTS - 1 && post.attempt == pre.attempt + 1 && post.phase
        is AwaitSleep && (r matches QueryAction::Sleep { ms }))
    ||| (allow_repair && post.phase is AwaitRepairModel && (r matches QueryAction::CallModel {
        model,
        prompt,
    }))
    ||| (!pre.on_fallback && post.on_fallback && post.phase is AwaitAvailability && (r matches
        QueryAction::EnsureAvailable { model }))
    ||| (post.phase is Done && (r matches QueryAction::Fail { error }))
}

/// Whether a raw response passes the latency, size and truncation gates.
pub open spec fn spec_response_within_limits(text: Seq<char>, latency_ms: u64) -> bool {
    &&& latency_ms <= LATENCY_LIMIT_MS
    &&& vstd::utf8::encode_utf8(text).len() as usize <= MAX_OUTPUT_BYTES
    &&& !spec_is_truncated(spec_sanitize(text))
}

/// What an in-gates attempt response forces: the extractor's verdict on the
/// sanitized text is handed out for parsing, or — when extraction fails — a
/// failed-attempt outcome follows.  Text whose sanitized, trimmed form is
/// valid JSON always reaches the parse step.
pub open spec fn spec_attempt_response_outcome(
    pre: QueryMachine,
    post: QueryMachine,
    r: QueryAction,
    text: Seq<char>,
) -> bool {
    &&& (spec_json_valid(spec_trim(spec_sanitize(text))) ==> (r matches QueryAction::ParseJson {
        json,
    }))
    &&& (r matches QueryAction::ParseJson { json } ==> post.phase is AwaitParse
        && spec_extract_returns(spec_sanitize(text), Some(json@)))
    &&& (!(r matches QueryAction::ParseJson { json }) ==> spec_failed_attempt_outcome(
        pre,
        post,
        r,
        true,
    ) && !spec_json_valid(spec_trim(spec_sanitize(text))))
}

/// What a repair response forces: a sentinel-free response is run back
/// through the extractor and its verdict handed out for parsing; anything
/// else falls through to the full fallback or ends the query.
pub open spec fn spec_repair_response_outcome(
    pre: QueryMachine,
    post: QueryMachine,
    r: QueryAction,
    text: Seq<char>,
) -> bool {
    &&& (r matches QueryAction::ParseJson { json } ==> post.phase is AwaitRepairParse
        && !spec_contains_seq(spec_sanitize(text), spec_truncation_sentinel())
        && spec_extract_returns(spec_sanitize(text), Some(json@)))
    &&& (!(r matches QueryAction::ParseJson { json }) ==> ((!pre.on_fallback && post.on_fallback
        && post.phase is AwaitAvailability) || post.phase is Done))
}

/// Whether this event at this machine state is the fully successful parse
/// that ends a query and writes the cache.
pub open spec fn spec_is_success_parse(m: QueryMachine, event: QueryEvent) -> bool {
    (m.phase is AwaitParse || m.phase is AwaitRepairParse) && (event matches QueryEvent::Parsed {
        ok,
    } && ok)
}

/// The model under whose key a successful parse is cached: the fallback for
/// a repair result, otherwise the model whose attempt loop produced it.
pub open spec fn spec_cache_model(m: QueryMachine) -> Seq<char> {
    if m.phase is AwaitRepairParse {
        m.spec_fallback_name()
    } else {
        m.spec_current_model()
    }
}

/// The entries after storing `data` under `key`: some response carrying
/// `data` was put into the cache.
pub open spec fn spec_cached_under(
    pre: Seq<(u64, CachedResponse)>,
    cap: nat,
    post: Seq<(u64, CachedResponse)>,
    key: u64,
    data: Seq<char>,
) -> bool {
    exists|resp: CachedResponse| #![auto]
        resp.data@ == data && post == spec_cache_put(pre, cap, key, resp)
}

impl Orchestrator {
    /// A fresh orchestrator with the default cache capacity and closed
    /// circuits.
    pub fn new() -> (r: Orchestrator)
        ensures
            r.cache.entries() =~= Seq::<(u64, CachedResponse)>::empty(),
            r.cache.capacity() == 200,
            r.breakers.entries@ =~= Seq::<(String, CircuitBreaker)>::empty(),
    {
        Orchestrator {
            cache: ResponseCache::with_default_capacity(),
            breakers: BreakerBank::new(),
        }
    }

    /// Open the availability step for the machine's primary, skipping a
    /// primary whose circuit breaker is open.
    fn begin_availability(&mut self, m: &mut QueryMachine, now_secs: u64) -> (r: QueryAction)
        requires
            old(m).wf(),
            !old(m).on_fallback,
        ensures
            final(m).wf(),
            final(m).task == old(m).task,
            final(m).prompt@ == old(m).prompt@,
            final(m).primary@ == old(m).primary@,
            final(m).fallback == old(m).fallback,
            final(m).backoff == old(m).backoff,
            final(m).repair_used == old(m).repair_used,
            final(self).cache.entries() == old(self).cache.entries(),
            final(self).cache.capacity() == old(self).cache.capacity(),
            r matches QueryAction::EnsureAvailable { model } ==> final(m).phase
                is AwaitAvailability && model@ == final(m).spec_current_model(),
            r matches QueryAction::Fail { error } ==> final(m).phase is Done
                && !error.retry_succeeded && error.stage@ == spec_stage_of(final(m).last_fail)
                && (error.model matches Some(mm) && mm@ == final(m).spec_current_model()),
            !(r matches QueryAction::EnsureAvailable { model }) ==> (r matches QueryAction::Fail {
                error,
            }),
            // a closed primary breaker opens the primary's availability step
            !spec_breaker_open(old(self).breakers.entries@, old(m).primary@, now_secs) ==> (
            r matches QueryAction::EnsureAvailable { model } && model@ == old(m).primary@
                && !final(m).on_fallback),
            // an open primary breaker skips the primary entirely
            spec_breaker_open(old(self).breakers.entries@, old(m).primary@, now_secs) ==> ((old(
                m,
            ).fallback is Some && final(m).on_fallback && (r matches
            QueryAction::EnsureAvailable { model } && model@ == old(m).spec_fallback_name()))
                || (old(m).fallback is None && (r matches QueryAction::Fail { error }
                && error.stage@ == spec_stage_of(FailKind::Availability)))),
    {
        let primary_open = self.breakers.is_open_at(m.primary.as_str(), now_secs);
        if primary_open {
            // the primary's circuit is open: skip it entirely
            m.escalate(FailKind::Availability)
        } else {
            m.phase = QueryPhase::AwaitAvailability;
            QueryAction::EnsureAvailable { model: m.primary.clone() }
        }
    }

    /// Start a query: route it, try the cache, and hand out the first
    /// action.  `now` is the clock reading in seconds since the epoch.
    pub fn start_query(
        &mut self,
        config: &ModelConfig,
        registry: &Registry,
        task: TaskType,
        prompt: String,
        now: i64,
    ) -> (r: (QueryMachine, QueryAction))
        ensures
            r.0.wf(),
            r.0.task == task,
            r.0.prompt@ == prompt@,
            r.0.primary@ == spec_selected_primary(*config, task),
            opt_view(r.0.fallback) == spec_fallback(
                *config,
                registry.entries@,
                task,
                spec_selected_primary(*config, task),
            ),
            final(self).cache.capacity() == old(self).cache.capacity(),
            old(self).cache.wf() ==> final(self).cache.wf(),
            // the lookup promotes recency and writes nothing
            final(self).cache.entries() == spec_cache_promote(
                old(self).cache.entries(),
                spec_fingerprint(spec_selected_primary(*config, task), prompt@),
            ),
            // a hit hands the cached payload out for deserialization
            (spec_entries_lookup(
                old(self).cache.entries(),
                spec_fingerprint(spec_selected_primary(*config, task), prompt@),
            ) matches Some(c) ==> r.1 matches QueryAction::ParseCached { data } && data@ == c.data@
                && r.0.phase is AwaitCacheParse && r.0.pending_json@ == c.data@),
            // a miss with a closed primary breaker opens the primary's
            // availability step
            ((spec_entries_lookup(
                old(self).cache.entries(),
                spec_fingerprint(spec_selected_primary(*config, task), prompt@),
            ) is None && !spec_breaker_open(
                old(self).breakers.entries@,
                spec_selected_primary(*config, task),
                spec_clamp_secs(now),
            )) ==> (r.1 matches QueryAction::EnsureAvailable { model } && model@
                == spec_selected_primary(*config, task)) && !r.0.on_fallback && r.0.phase
                is AwaitAvailability),
            // a miss with an open primary breaker skips straight to the
            // fallback, or fails when none exists
            ((spec_entries_lookup(
                old(self).cache.entries(),
                spec_fingerprint(spec_selected_primary(*config, task), prompt@),
            ) is None && spec_breaker_open(
                old(self).breakers.entries@,
                spec_selected_primary(*config, task),
                spec_clamp_secs(now),
            )) ==> (((r.1 matches QueryAction::EnsureAvailable { model } && opt_view(r.0.fallback)
                == Some(model@)) && r.0.on_fallback && r.0.phase is AwaitAvailability) || (
            r.1 matches QueryAction::Fail { error } && !error.retry_succeeded && error.stage@
                == spec_stage_of(FailKind::Availability)))),
    {
        let decision: RouteDecision = model_for_task(config, registry, task);
        let mut m = QueryMachine {
            task,
            prompt,
            primary: decision.selected,
            fallback: decision.fallback,
            on_fallback: false,
            attempt: 0,
            phase: QueryPhase::AwaitCacheParse,
            pending_json: String::new(),
            last_raw: String::new(),
            last_fail: FailKind::State,
            repair_used: false,
            backoff: ExponentialBackoff::default(),
        };
        let cached = self.cache.load(m.primary.as_str(), m.prompt.as_str());
        match cached {
            Some(c) => {
                m.pending_json = c.data;
                m.phase = QueryPhase::AwaitCacheParse;
                let data = m.pending_json.clone();
                (m, QueryAction::ParseCached { data })
            },
            None => {
                let now_secs: u64 = if now < 0 {
                    0
                } else {
                    now as u64
                };
                let a = self.begin_availability(&mut m, now_secs);
                (m, a)
            },
        }
    }

    /// Feed one event into the machine and get the next action.  `now` is
    /// the clock reading in seconds since the epoch.
    pub fn on_event(&mut self, m: &mut QueryMachine, event: QueryEvent, now: i64) -> (r:
        QueryAction)
        requires
            old(m).wf(),
        ensures
            final(m).wf(),
            // the query's identity never changes
            final(m).task == old(m).task,
            final(m).prompt@ == old(m).prompt@,
            final(m).primary@ == old(m).primary@,
            opt_view(final(m).fallback) == opt_view(old(m).fallback),
            final(m).backoff == old(m).backoff,
            // once on the fallback, never back
            old(m).on_fallback ==> final(m).on_fallback,
            final(self).cache.capacity() == old(self).cache.capacity(),
            old(self).cache.wf() ==> final(self).cache.wf(),
            // cache writes happen only on a fully successful, parsed result
            !spec_is_success_parse(*old(m), event) ==> final(self).cache.entries() == old(
                self,
            ).cache.entries(),
            // a success is cached under the model that produced it: the
            // fallback for a repair result, else the current model
            spec_is_success_parse(*old(m), event) ==> spec_cached_under(
                old(self).cache.entries(),
                old(self).cache.capacity(),
                final(self).cache.entries(),
                spec_fingerprint(spec_cache_model(*old(m)), old(m).prompt@),
                old(m).pending_json@,
            ) && (r matches QueryAction::Succeed { json } && json@ == old(m).pending_json@),
            // whatever is delivered from a parse path is valid JSON
            (r matches QueryAction::Succeed { json } ==> (!(old(m).phase is AwaitCacheParse)
                ==> spec_json_valid(json@))),
            // every model call targets the machine's current model — the
            // fallback during repair
            (r matches QueryAction::CallModel { model, prompt } ==> model@ == (if final(m).phase
                is AwaitRepairModel {
                final(m).spec_fallback_name()
            } else {
                final(m).spec_current_model()
            })),
            // attempt-loop calls carry the original prompt
            (r matches QueryAction::CallModel { model, prompt } ==> (final(m).phase
                is AwaitModel ==> prompt@ == old(m).prompt@)),
            // an unavailable primary moves the query to the fallback for
            // good, or fails it when none exists
            (old(m).phase is AwaitAvailability && (event matches QueryEvent::Availability { ok }
                && !ok) ==> (if !old(m).on_fallback && old(m).fallback is Some {
                final(m).on_fallback && (r matches QueryAction::EnsureAvailable { model }
                    && model@ == old(m).spec_fallback_name())
            } else {
                final(m).phase is Done && (r matches QueryAction::Fail { error }
                    && error.stage@ == spec_stage_of(FailKind::Availability))
            })),
            // an available model whose circuit is closed starts the attempt
            // loop; one whose circuit is open is skipped like an unavailable
            // model
            (old(m).phase is AwaitAvailability && (event matches QueryEvent::Availability { ok }
                && ok) ==> (if spec_breaker_open(
                old(self).breakers.entries@,
                old(m).spec_current_model(),
                spec_clamp_secs(now),
            ) {
                ((!old(m).on_fallback && old(m).fallback is Some && final(m).on_fallback && (
                r matches QueryAction::EnsureAvailable { model } && model@ == old(
                    m,
                ).spec_fallback_name())) || (final(m).phase is Done && (r matches
                QueryAction::Fail { error } && error.stage@ == spec_stage_of(
                    FailKind::Availability,
                ))))
            } else {
                final(m).phase is AwaitModel && (r matches QueryAction::CallModel {
                    model,
                    prompt,
                })
            })),
            // failures name their stage and never claim a successful retry
            (r matches QueryAction::Fail { error } ==> final(m).phase is Done && error.stage@
                == spec_stage_of(final(m).last_fail) && !error.retry_succeeded),
            // backoff sleeps follow the policy for the attempt just failed
            (r matches QueryAction::Sleep { ms } ==> final(m).attempt >= 1 && ms as int
                == spec_delay(
                old(m).backoff.initial_delay_ms,
                old(m).backoff.max_delay_ms,
                (final(m).attempt - 1) as nat,
            )),
            // every step obeys the frame the fallback law is proved from
            spec_step_frame(*old(m), *final(m), r),
            // the repair is single-shot: once spent it stays spent, and a
            // repair call is only ever issued with it unspent
            old(m).repair_used ==> final(m).repair_used,
            (r matches QueryAction::CallModel { model, prompt } ==> (final(m).phase
                is AwaitRepairModel ==> !old(m).repair_used && final(m).repair_used)),
            // a failed model call is recorded against its circuit breaker
            (old(m).phase is AwaitModel && event is ModelFailed ==> spec_bank_breaker(
                final(self).breakers.entries@,
                old(m).spec_current_model(),
            ) == Some(
                spec_after_failure(
                    match spec_bank_breaker(
                        old(self).breakers.entries@,
                        old(m).spec_current_model(),
                    ) {
                        Some(b) => b,
                        None => CircuitBreaker {
                            failures: 0,
                            last_failure: None,
                            open: false,
                            timeout_secs: BREAKER_TIMEOUT_SECS,
                            failure_threshold: BREAKER_THRESHOLD,
                        },
                    },
                    if now < 0 {
                        0u64
                    } else {
                        now as u64
                    },
                ),
            )),
            // a fully successful parse closes the producing model's circuit
            (spec_is_success_parse(*old(m), event) ==> (match spec_bank_breaker(
                final(self).breakers.entries@,
                spec_cache_model(*old(m)),
            ) {
                Some(b) => b.failures == 0 && !b.open,
                None => spec_bank_breaker(
                    old(self).breakers.entries@,
                    spec_cache_model(*old(m)),
                ) is None,
            })),
            // a slow, oversized or truncated response is never retried
            // against the same model: it escalates to the fallback or ends
            // the query
            (old(m).phase is AwaitModel ==> (event matches QueryEvent::ModelResponse {
                text,
                latency_ms,
            } ==> ((latency_ms > LATENCY_LIMIT_MS || vstd::utf8::encode_utf8(text@).len() as usize
                > MAX_OUTPUT_BYTES || spec_is_truncated(spec_sanitize(text@))) ==> ((final(m).on_fallback
                && final(m).phase is AwaitAvailability) || final(m).phase is Done)))),
            // a cached payload that parses ends the query with exactly that
            // payload; one that does not parse falls through to the miss path
            (old(m).phase is AwaitCacheParse && (event matches QueryEvent::CacheParsed { ok }
                && ok) ==> final(m).phase is Done && (r matches QueryAction::Succeed { json }
                && json@ == old(m).pending_json@)),
            (old(m).phase is AwaitCacheParse && (event matches QueryEvent::CacheParsed { ok }
                && !ok) ==> ((r matches QueryAction::EnsureAvailable { model }) || (r matches
            QueryAction::Fail { error }))),
            // a failed model call retries with backoff while the attempt
            // budget lasts, else escalates; connect failures are never
            // repaired
            (old(m).phase is AwaitModel && event is ModelFailed ==> spec_failed_attempt_outcome(
                *old(m),
                *final(m),
                r,
                false,
            )),
            // a timely, well-sized, untruncated response hands out exactly
            // the extractor's verdict, or takes a failed-attempt outcome
            (old(m).phase is AwaitModel ==> (event matches QueryEvent::ModelResponse {
                text,
                latency_ms,
            } ==> (spec_response_within_limits(text@, latency_ms)
                ==> spec_attempt_response_outcome(*old(m), *final(m), r, text@)))),
            // a failed typed parse takes a failed-attempt outcome
            (old(m).phase is AwaitParse && (event matches QueryEvent::Parsed { ok } && !ok)
                ==> spec_failed_attempt_outcome(*old(m), *final(m), r, true)),
            // the repair response is checked for the truncation sentinel and
            // run back through the extractor; anything else falls through to
            // the full fallback or ends the query
            (old(m).phase is AwaitRepairModel ==> (event matches QueryEvent::ModelResponse {
                text,
                latency_ms,
            } ==> spec_repair_response_outcome(*old(m), *final(m), r, text@))),
            // the sleep resumes the attempt loop against the current model
            (old(m).phase is AwaitSleep && event is Slept ==> final(m).phase is AwaitModel && (
            r matches QueryAction::CallModel { model, prompt })),
            // each action pins the phase that awaits its outcome
            (r matches QueryAction::EnsureAvailable { model } ==> final(m).phase
                is AwaitAvailability),
            (r matches QueryAction::Sleep { ms } ==> final(m).phase is AwaitSleep),
            (r matches QueryAction::ParseJson { json } ==> (final(m).phase is AwaitParse
                || final(m).phase is AwaitRepairParse) && json@ == final(m).pending_json@),
            (r matches QueryAction::Succeed { json } ==> final(m).phase is Done),
            // failures name the model they arose against
            (r matches QueryAction::Fail { error } ==> (error.model matches Some(mm) && mm@
                == final(m).spec_current_model())),
    {
        let now_secs: u64 = if now < 0 {
            0
        } else {
            now as u64
        };
        match (&m.phase, event) {
            (QueryPhase::AwaitCacheParse, QueryEvent::CacheParsed { ok }) => {
                if ok {
                    // cache hit: deliver without any network call
                    m.phase = QueryPhase::Done;
                    let json = m.pending_json.clone();
                    QueryAction::Succeed { json }
                } else {
                    // a stale or colliding entry: fall through to the miss path
                    self.begin_availability_event(m, now_secs)
                }
            },
            (QueryPhase::AwaitAvailability, QueryEvent::Availability { ok }) => {
                if ok {
                    let model = m.current_model();
                    let open = self.breakers.is_open_at(model.as_str(), now_secs);
                    if open {
                        // the model's circuit is open: skip its attempt loop
                        if !m.on_fallback {
                            m.escalate(FailKind::Availability)
                        } else {
                            m.fail_action(FailKind::Availability)
                        }
                    } else {
                        m.attempt = 0;
                        m.phase = QueryPhase::AwaitModel;
                        let prompt = m.prompt.clone();
                        QueryAction::CallModel { model, prompt }
                    }
                } else {
                    if !m.on_fallback {
                        m.escalate(FailKind::Availability)
                    } else {
                        m.fail_action(FailKind::Availability)
                    }
                }
            },
            (QueryPhase::AwaitModel, QueryEvent::ModelFailed) => {
                let model = m.current_model();
                self.breakers.record_failure_at(model.as_str(), now_secs);
                if m.attempt < MAX_ATTEMPTS - 1 {
                    m.attempt = m.attempt + 1;
                    m.phase = QueryPhase::AwaitSleep;
                    let ms = m.backoff.delay_for_attempt((m.attempt - 1) as u32);
                    QueryAction::Sleep { ms }
                } else {
                    // connect failures are not repairable: full fallback
                    m.escalate(FailKind::ModelCall)
                }
            },
            (QueryPhase::AwaitSleep, QueryEvent::Slept) => {
                m.phase = QueryPhase::AwaitModel;
                let model = m.current_model();
                let prompt = m.prompt.clone();
                QueryAction::CallModel { model, prompt }
            },
            (QueryPhase::AwaitModel, QueryEvent::ModelResponse { text, latency_ms }) => {
                if latency_ms > LATENCY_LIMIT_MS {
                    // suspected truncation: never retried against this model
                    m.escalate(FailKind::TimeoutTruncation)
                } else if text.as_str().len() > MAX_OUTPUT_BYTES {
                    m.escalate(FailKind::OutputTooLarge)
                } else {
                    let sanitized = sanitize_raw_output(text.as_str());
                    if is_truncated(sanitized.as_str()) {
                        // truncation is never repaired
                        m.escalate(FailKind::Truncated)
                    } else {
                        match extract_json(sanitized.as_str()) {
                            Ok(json) => {
                                m.pending_json = json;
                                m.last_raw = text;
                                m.phase = QueryPhase::AwaitParse;
                                let out = m.pending_json.clone();
                                QueryAction::ParseJson { json: out }
                            },
                            Err(_) => {
                                m.last_raw = text;
                                self.retry_or_repair(m, FailKind::JsonExtract)
                            },
                        }
                    }
                }
            },
            (QueryPhase::AwaitParse, QueryEvent::Parsed { ok }) => {
                if ok {
                    let model = m.current_model();
                    self.breakers.record_success(model.as_str());
                    let resp = CachedResponse { data: m.pending_json.clone(), timestamp: now };
                    let ghost gresp = resp;
                    self.cache.store(model.as_str(), m.prompt.as_str(), resp);
                    proof {
                        assert(gresp.data@ == old(m).pending_json@);
                    }
                    m.phase = QueryPhase::Done;
                    let json = m.pending_json.clone();
                    QueryAction::Succeed { json }
                } else {
                    self.retry_or_repair(m, FailKind::JsonParse)
                }
            },
            (QueryPhase::AwaitRepairModel, QueryEvent::ModelResponse { text, latency_ms }) => {
                let sanitized = sanitize_raw_output(text.as_str());
                let sv = str_to_chars(sanitized.as_str());
                let sentinel = str_to_chars("__TRUNCATED__");
                proof {
                    reveal_strlit("__TRUNCATED__");
                }
                if contains_seq(&sv, &sentinel) {
                    // the repair model confirmed truncation: full fallback
                    m.escalate(FailKind::TruncatedDetected)
                } else {
                    match extract_json(sanitized.as_str()) {
                        Ok(json) => {
                            m.pending_json = json;
                            m.phase = QueryPhase::AwaitRepairParse;
                            let out = m.pending_json.clone();
                            QueryAction::ParseJson { json: out }
                        },
                        Err(_) => m.escalate(FailKind::RepairExtract),
                    }
                }
            },
            (QueryPhase::AwaitRepairModel, QueryEvent::ModelFailed) => {
                m.escalate(FailKind::RepairCall)
            },
            (QueryPhase::AwaitRepairParse, QueryEvent::Parsed { ok }) => {
                if ok {
                    let model = match &m.fallback {
                        Some(f) => f.clone(),
                        None => m.primary.clone(),
                    };
                    self.breakers.record_success(model.as_str());
                    let resp = CachedResponse { data: m.pending_json.clone(), timestamp: now };
                    let ghost gresp = resp;
                    self.cache.store(model.as_str(), m.prompt.as_str(), resp);
                    proof {
                        assert(gresp.data@ == old(m).pending_json@);
                    }
                    m.phase = QueryPhase::Done;
                    let json = m.pending_json.clone();
                    QueryAction::Succeed { json }
                } else {
                    m.escalate(FailKind::RepairParse)
                }
            },
            _ => m.fail_action(FailKind::State),
        }
    }

    /// The miss path of the cache-parse step: open the availability check.
    fn begin_availability_event(&mut self, m: &mut QueryMachine, now_secs: u64) -> (r:
        QueryAction)
        requires
            old(m).wf(),
        ensures
            final(m).wf(),
            final(m).task == old(m).task,
            final(m).prompt@ == old(m).prompt@,
            final(m).primary@ == old(m).primary@,
            opt_view(final(m).fallback) == opt_view(old(m).fallback),
            final(m).backoff == old(m).backoff,
            final(m).repair_used == old(m).repair_used,
            old(m).on_fallback ==> final(m).on_fallback,
            final(self).cache.entries() == old(self).cache.entries(),
            final(self).cache.capacity() == old(self).cache.capacity(),
            (r matches QueryAction::EnsureAvailable { model }) || (r matches QueryAction::Fail {
                error,
            }),
            (r matches QueryAction::EnsureAvailable { model } ==> final(m).phase
                is AwaitAvailability && model@ == final(m).spec_current_model()),
            (r matches QueryAction::Fail { error } ==> final(m).phase is Done && error.stage@
                == spec_stage_of(final(m).last_fail) && !error.retry_succeeded && (error.model
                matches Some(mm) && mm@ == final(m).spec_current_model())),
    {
        if m.on_fallback {
            // already past the primary; re-open availability for the fallback
            m.phase = QueryPhase::AwaitAvailability;
            let model = m.current_model();
            QueryAction::EnsureAvailable { model }
        } else {
            self.begin_availability(m, now_secs)
        }
    }

    /// After an extraction or parse failure: retry with backoff while the
    /// attempt budget lasts; when exhausted, spend the single-shot repair by
    /// the fallback model, else fall back fully.
    fn retry_or_repair(&mut self, m: &mut QueryMachine, kind: FailKind) -> (r: QueryAction)
        requires
            old(m).wf(),
            kind == FailKind::JsonExtract || kind == FailKind::JsonParse,
        ensures
            final(m).wf(),
            final(m).task == old(m).task,
            final(m).prompt@ == old(m).prompt@,
            final(m).primary@ == old(m).primary@,
            opt_view(final(m).fallback) == opt_view(old(m).fallback),
            final(m).backoff == old(m).backoff,
            old(m).on_fallback ==> final(m).on_fallback,
            final(self).cache.entries() == old(self).cache.entries(),
            final(self).cache.capacity() == old(self).cache.capacity(),
            !(r matches QueryAction::Succeed { json }),
            spec_failed_attempt_outcome(*old(m), *final(m), r, true),
            (r matches QueryAction::Fail { error } ==> final(m).phase is Done && error.stage@
                == spec_stage_of(final(m).last_fail) && !error.retry_succeeded && (error.model
                matches Some(mm) && mm@ == final(m).spec_current_model())),
            (r matches QueryAction::Sleep { ms } ==> final(m).attempt >= 1 && ms as int
                == spec_delay(
                old(m).backoff.initial_delay_ms,
                old(m).backoff.max_delay_ms,
                (final(m).attempt - 1) as nat,
            )),
            (r matches QueryAction::CallModel { model, prompt } ==> final(m).phase
                is AwaitRepairModel && model@ == final(m).spec_fallback_name()
                && !old(m).repair_used && final(m).repair_used),
            old(m).repair_used ==> final(m).repair_used,
    {
        if m.attempt < MAX_ATTEMPTS - 1 {
            m.attempt = m.attempt + 1;
            m.phase = QueryPhase::AwaitSleep;
            m.last_fail = kind;
            let ms = m.backoff.delay_for_attempt((m.attempt - 1) as u32);
            QueryAction::Sleep { ms }
        } else {
            // attempts exhausted: a single-shot repair by the fallback model,
            // for extraction and parse failures only
            let can_repair = !m.on_fallback && !m.repair_used && (match &m.fallback {
                Some(_) => true,
                None => false,
            });
            if can_repair {
                m.repair_used = true;
                m.last_fail = kind;
                m.phase = QueryPhase::AwaitRepairModel;
                let fragment = repair_fragment(m.last_raw.as_str());
                let repair_prompt = build_repair_prompt(fragment.as_str());
                let model = match &m.fallback {
                    Some(f) => f.clone(),
                    None => m.primary.clone(),
                };
                QueryAction::CallModel { model, prompt: repair_prompt }
            } else {
                m.escalate(kind)
            }
        }
    }
}

} // verus!
