//! Unified error type for the query subsystem.
//!
//! Every fallible operation reports a `ZosError` carrying the stage at which
//! it failed, an optional model identifier, optional free-text context, and a
//! flag indicating whether a retry ultimately succeeded.

use vstd::prelude::*;

verus! {

use vstd::string::StringExecFns;

/// Unified error type for the query subsystem.
#[derive(Debug, Clone)]
pub struct ZosError {
    pub message: String,
    pub stage: String,
    pub model: Option<String>,
    pub retry_succeeded: bool,
    pub context: Option<String>,
    pub source: Option<String>,
}

impl ZosError {
    /// Create a new error with a message and the stage at which it arose.
    pub fn new(message: String, stage: &str) -> (r: ZosError)
        ensures
            r.message@ == message@,
            r.stage@ == stage@,
            r.model is None,
            !r.retry_succeeded,
            r.context is None,
            r.source is None,
    {
        ZosError {
            message,
            stage: stage.to_owned(),
            model: None,
            retry_succeeded: false,
            context: None,
            source: None,
        }
    }

    /// Add the model whose call produced the error.
    pub fn with_model(self, model: String) -> (r: ZosError)
        ensures
            r == (ZosError { model: Some(model), ..self }),
    {
        ZosError { model: Some(model), ..self }
    }

    /// Mark whether a retry ultimately succeeded.
    pub fn with_retry(self, succeeded: bool) -> (r: ZosError)
        ensures
            r == (ZosError { retry_succeeded: succeeded, ..self }),
    {
        ZosError { retry_succeeded: succeeded, ..self }
    }

    /// Add free-text context information.
    pub fn with_context(self, context: String) -> (r: ZosError)
        ensures
            r == (ZosError { context: Some(context), ..self }),
    {
        ZosError { context: Some(context), ..self }
    }

    /// Record the underlying source of the error.
    pub fn with_source(self, source: String) -> (r: ZosError)
        ensures
            r == (ZosError { source: Some(source), ..self }),
    {
        ZosError { source: Some(source), ..self }
    }

    /// The human-readable form: `[stage] message`, followed by the model,
    /// context and source when they are present.
    pub fn render(&self) -> (r: String)
        ensures
            r@ == spec_render(*self),
    {
        let mut r = String::new();
        r.append("[");
        r.append(self.stage.as_str());
        r.append("] ");
        r.append(self.message.as_str());
        match &self.model {
            Some(m) => {
                r.append(" (model: ");
                r.append(m.as_str());
                r.append(")");
            },
            None => {},
        }
        match &self.context {
            Some(c) => {
                r.append(" (context: ");
                r.append(c.as_str());
                r.append(")");
            },
            None => {},
        }
        match &self.source {
            Some(s) => {
                r.append(" (source: ");
                r.append(s.as_str());
                r.append(")");
            },
            None => {},
        }
        r
    }
}

/// The rendered form of an error.
pub open spec fn spec_render(e: ZosError) -> Seq<char> {
    "["@ + e.stage@ + "] "@ + e.message@ + (match e.model {
        Some(m) => " (model: "@ + m@ + ")"@,
        None => Seq::<char>::empty(),
    }) + (match e.context {
        Some(c) => " (context: "@ + c@ + ")"@,
        None => Seq::<char>::empty(),
    }) + (match e.source {
        Some(s) => " (source: "@ + s@ + ")"@,
        None => Seq::<char>::empty(),
    })
}

} // verus!
