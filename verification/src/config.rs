//! Model configuration: the three configured model roles.
//!
//! The configuration file itself is read and parsed at the application edge;
//! the library receives the three identifiers as plain optional values and
//! applies the defaults where one is absent or unparseable.

use vstd::prelude::*;

verus! {

/// The three configured model roles.
#[derive(Debug)]
pub struct ModelConfig {
    pub proof_model: String,
    pub problem_model: String,
    pub general_model: String,
}

/// The default proof-analysis model identifier.
pub open spec fn spec_default_proof_model() -> Seq<char> {
    "deepseek-r1:7b"@
}

/// The default problem-generation model identifier.
pub open spec fn spec_default_problem_model() -> Seq<char> {
    "qwen2-math:7b"@
}

/// The default general-purpose model identifier.
pub open spec fn spec_default_general_model() -> Seq<char> {
    "qwen2.5:7b-instruct"@
}

impl Default for ModelConfig {
    /// The default configuration.
    fn default() -> (r: ModelConfig)
        ensures
            r.proof_model@ == spec_default_proof_model(),
            r.problem_model@ == spec_default_problem_model(),
            r.general_model@ == spec_default_general_model(),
    {
        ModelConfig {
            proof_model: "deepseek-r1:7b".to_owned(),
            problem_model: "qwen2-math:7b".to_owned(),
            general_model: "qwen2.5:7b-instruct".to_owned(),
        }
    }
}

impl ModelConfig {
    /// An exact copy of the configuration.
    pub fn duplicate(&self) -> (r: ModelConfig)
        ensures
            r.proof_model@ == self.proof_model@,
            r.problem_model@ == self.problem_model@,
            r.general_model@ == self.general_model@,
    {
        ModelConfig {
            proof_model: self.proof_model.clone(),
            problem_model: self.problem_model.clone(),
            general_model: self.general_model.clone(),
        }
    }
}

/// Build the configuration from the identifiers read out of the
/// configuration file, falling back to the default for each one that is
/// absent.
pub fn get_model_config(
    proof_model: Option<String>,
    problem_model: Option<String>,
    general_model: Option<String>,
) -> (r: ModelConfig)
    ensures
        r.proof_model@ == (match proof_model {
            Some(m) => m@,
            None => spec_default_proof_model(),
        }),
        r.problem_model@ == (match problem_model {
            Some(m) => m@,
            None => spec_default_problem_model(),
        }),
        r.general_model@ == (match general_model {
            Some(m) => m@,
            None => spec_default_general_model(),
        }),
{
    let d = ModelConfig::default();
    ModelConfig {
        proof_model: match proof_model {
            Some(m) => m,
            None => d.proof_model,
        },
        problem_model: match problem_model {
            Some(m) => m,
            None => d.problem_model,
        },
        general_model: match general_model {
            Some(m) => m,
            None => d.general_model,
        },
    }
}

/// The configuration when no file overrides anything: the defaults.
pub fn load_model_config() -> (r: ModelConfig)
    ensures
        r.proof_model@ == spec_default_proof_model(),
        r.problem_model@ == spec_default_problem_model(),
        r.general_model@ == spec_default_general_model(),
{
    ModelConfig::default()
}

} // verus!
