//! Resilient model-query subsystem for a self-hosted learning assistant.
//!
//! Local language models are unreliable: they time out, return truncated or
//! malformed structured output, or are simply not loaded.  This crate holds
//! the verified core of a backend that copes with that: routing a task to a
//! concrete model, caching results, retrying and falling back across models,
//! and recovering structured JSON data from noisy free-form text.

pub mod backend;
pub mod backoff;
pub mod breaker;
pub mod cache;
pub mod clock;
pub mod config;
pub mod error;
pub mod extract;
pub mod jsonval;
pub mod metrics;
pub mod models;
pub mod orchestrator;
pub mod perf;
pub mod prompts;
pub mod router;
pub mod sanitize;
pub mod scan;
pub mod session;
pub mod text;
