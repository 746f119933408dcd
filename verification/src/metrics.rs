//! Counters for observability.
//!
//! Counters saturate at the top of their range rather than wrap.

use vstd::prelude::*;

verus! {

/// Aggregate counters over the query subsystem.
#[derive(Debug)]
pub struct Metrics {
    /// Model call latency in milliseconds (sum).
    pub model_latency_ms: u64,
    /// Routing decision time in milliseconds (sum).
    pub routing_time_ms: u64,
    /// Cache hit count.
    pub cache_hit_count: u64,
    /// Cache miss count.
    pub cache_miss_count: u64,
    /// Fallback count (when the primary model fails).
    pub fallback_count: u64,
    /// Total errors.
    pub errors_total: u64,
    /// Session state transitions.
    pub session_state_transitions: u64,
}

/// Saturating increment.
pub open spec fn spec_bump(c: u64) -> int {
    if c < u64::MAX {
        c + 1
    } else {
        u64::MAX as int
    }
}

/// Saturating addition.
pub open spec fn spec_accrue(c: u64, d: u64) -> int {
    if c + d <= u64::MAX {
        c + d
    } else {
        u64::MAX as int
    }
}

impl Metrics {
    /// All counters at zero.
    pub fn new() -> (r: Metrics)
        ensures
            r.model_latency_ms == 0,
            r.routing_time_ms == 0,
            r.cache_hit_count == 0,
            r.cache_miss_count == 0,
            r.fallback_count == 0,
            r.errors_total == 0,
            r.session_state_transitions == 0,
    {
        Metrics {
            model_latency_ms: 0,
            routing_time_ms: 0,
            cache_hit_count: 0,
            cache_miss_count: 0,
            fallback_count: 0,
            errors_total: 0,
            session_state_transitions: 0,
        }
    }

    /// Record model latency.
    pub fn record_model_latency(&mut self, ms: u64)
        ensures
            *final(self) == (Metrics {
                model_latency_ms: final(self).model_latency_ms,
                ..*old(self)
            }),
            final(self).model_latency_ms as int == spec_accrue(old(self).model_latency_ms, ms),
    {
        self.model_latency_ms = self.model_latency_ms.saturating_add(ms);
    }

    /// Record routing time.
    pub fn record_routing_time(&mut self, ms: u64)
        ensures
            *final(self) == (Metrics { routing_time_ms: final(self).routing_time_ms, ..*old(self) }),
            final(self).routing_time_ms as int == spec_accrue(old(self).routing_time_ms, ms),
    {
        self.routing_time_ms = self.routing_time_ms.saturating_add(ms);
    }

    /// Record a cache hit.
    pub fn record_cache_hit(&mut self)
        ensures
            *final(self) == (Metrics { cache_hit_count: final(self).cache_hit_count, ..*old(self) }),
            final(self).cache_hit_count as int == spec_bump(old(self).cache_hit_count),
    {
        self.cache_hit_count = self.cache_hit_count.saturating_add(1);
    }

    /// Record a cache miss.
    pub fn record_cache_miss(&mut self)
        ensures
            *final(self) == (Metrics {
                cache_miss_count: final(self).cache_miss_count,
                ..*old(self)
            }),
            final(self).cache_miss_count as int == spec_bump(old(self).cache_miss_count),
    {
        self.cache_miss_count = self.cache_miss_count.saturating_add(1);
    }

    /// Record a fallback to another model.
    pub fn record_fallback(&mut self)
        ensures
            *final(self) == (Metrics { fallback_count: final(self).fallback_count, ..*old(self) }),
            final(self).fallback_count as int == spec_bump(old(self).fallback_count),
    {
        self.fallback_count = self.fallback_count.saturating_add(1);
    }

    /// Record an error.
    pub fn record_error(&mut self)
        ensures
            *final(self) == (Metrics { errors_total: final(self).errors_total, ..*old(self) }),
            final(self).errors_total as int == spec_bump(old(self).errors_total),
    {
        self.errors_total = self.errors_total.saturating_add(1);
    }

    /// Record a session state transition.
    pub fn record_state_transition(&mut self)
        ensures
            *final(self) == (Metrics {
                session_state_transitions: final(self).session_state_transitions,
                ..*old(self)
            }),
            final(self).session_state_transitions as int == spec_bump(
                old(self).session_state_transitions,
            ),
    {
        self.session_state_transitions = self.session_state_transitions.saturating_add(1);
    }
}

} // verus!
