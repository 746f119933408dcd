//! Prompt construction and the typed shapes of the two-step proof pipeline.
//!
//! Step one analyses a solution attempt into steps, issues and clarifying
//! questions; step two evaluates the user's answers to those questions.

use vstd::prelude::*;

verus! {

use vstd::string::StringExecFns;

/// One step of the user's solution, as the analysis model structures it.
#[derive(Clone, Debug)]
pub struct ProofStep {
    pub id: String,
    pub text: String,
    pub role: String,
}

/// One problem the analysis found with a step.
#[derive(Clone, Debug)]
pub struct ProofIssue {
    pub step_id: String,
    pub issue_type: String,
    pub explanation: String,
}

/// The structured result of the first analysis pass.
#[derive(Clone, Debug)]
pub struct Step1Response {
    pub steps: Vec<ProofStep>,
    pub issues: Vec<ProofIssue>,
    pub questions: Vec<String>,
    pub summary: String,
}

/// The evaluation of one clarifying question and its answer.
#[derive(Clone, Debug)]
pub struct QuestionEvaluation {
    pub question: String,
    pub user_answer: String,
    pub assessment: String,
    pub comment: String,
}

/// The structured result of the second evaluation pass.
#[derive(Clone, Debug)]
pub struct Step2Response {
    pub evaluation: Vec<QuestionEvaluation>,
    pub next_tasks: Vec<String>,
    pub needs_revision: bool,
}

/// The fixed text that precedes the solution attempt in the first-step
/// prompt.
pub open spec fn spec_step1_prefix() -> Seq<char> {
    "Analyze this solution attempt and return ONLY valid JSON:\n\n{\n  \"steps\": [{\"id\": \"s1\", \"text\": \"...\", \"role\": \"assumption|deduction|claim|definition|conclusion|code_statement|explanation\"}],\n  \"issues\": [{\"step_id\": \"s1\", \"type\": \"missing_justification|faulty_logic|misuse_of_theorem|undefined_term|code_bug|incorrect_derivation|logical_error\", \"explanation\": \"...\"}],\n  \"questions\": [\"...\"],\n  \"summary\": \"...\"\n}\n\nExample: {\"steps\": [{\"id\": \"s1\", \"text\": \"Assume P\", \"role\": \"assumption\"}], \"issues\": [], \"questions\": [\"Why P?\"], \"summary\": \"Basic assumption\"}\n\nReturn ONLY JSON, no markdown, no explanations.\n\nSolution attempt:\n"@
}

/// Build the prompt for the first analysis pass.
pub fn build_step1_prompt(user_proof: &str) -> (r: String)
    ensures
        r@ == spec_step1_prefix() + user_proof@,
{
    let mut r = String::new();
    r.append(
        "Analyze this solution attempt and return ONLY valid JSON:\n\n{\n  \"steps\": [{\"id\": \"s1\", \"text\": \"...\", \"role\": \"assumption|deduction|claim|definition|conclusion|code_statement|explanation\"}],\n  \"issues\": [{\"step_id\": \"s1\", \"type\": \"missing_justification|faulty_logic|misuse_of_theorem|undefined_term|code_bug|incorrect_derivation|logical_error\", \"explanation\": \"...\"}],\n  \"questions\": [\"...\"],\n  \"summary\": \"...\"\n}\n\nExample: {\"steps\": [{\"id\": \"s1\", \"text\": \"Assume P\", \"role\": \"assumption\"}], \"issues\": [], \"questions\": [\"Why P?\"], \"summary\": \"Basic assumption\"}\n\nReturn ONLY JSON, no markdown, no explanations.\n\nSolution attempt:\n",
    );
    r.append(user_proof);
    r
}

/// The fixed text that opens the second-step prompt.
pub open spec fn spec_step2_prefix() -> Seq<char> {
    "Evaluate answers and return ONLY valid JSON:\n\n{\n  \"evaluation\": [{\"question\": \"...\", \"user_answer\": \"...\", \"assessment\": \"correct|partially_correct|incorrect|unclear\", \"comment\": \"...\"}],\n  \"next_tasks\": [\"...\"],\n  \"needs_revision\": true\n}\n\nExample: {\"evaluation\": [{\"question\": \"Why P?\", \"user_answer\": \"Because Q\", \"assessment\": \"correct\", \"comment\": \"Valid reasoning\"}], \"next_tasks\": [\"Prove Q\"], \"needs_revision\": false}\n\nReturn ONLY JSON, no markdown, no explanations.\n\nOriginal: "@
}

/// Build the prompt for the second evaluation pass.
pub fn build_step2_prompt(
    original_proof: &str,
    issues_json: &str,
    questions: &str,
    user_answers: &str,
) -> (r: String)
    ensures
        r@ == spec_step2_prefix() + original_proof@ + "\nIssues: "@ + issues_json@
            + "\nQuestions: "@ + questions@ + "\nAnswers: "@ + user_answers@,
{
    let mut r = String::new();
    r.append(
        "Evaluate answers and return ONLY valid JSON:\n\n{\n  \"evaluation\": [{\"question\": \"...\", \"user_answer\": \"...\", \"assessment\": \"correct|partially_correct|incorrect|unclear\", \"comment\": \"...\"}],\n  \"next_tasks\": [\"...\"],\n  \"needs_revision\": true\n}\n\nExample: {\"evaluation\": [{\"question\": \"Why P?\", \"user_answer\": \"Because Q\", \"assessment\": \"correct\", \"comment\": \"Valid reasoning\"}], \"next_tasks\": [\"Prove Q\"], \"needs_revision\": false}\n\nReturn ONLY JSON, no markdown, no explanations.\n\nOriginal: ",
    );
    r.append(original_proof);
    r.append("\nIssues: ");
    r.append(issues_json);
    r.append("\nQuestions: ");
    r.append(questions);
    r.append("\nAnswers: ");
    r.append(user_answers);
    r
}

/// The strict instruction handed to the repair model: fix formatting only,
/// never invent content, and answer with the truncation sentinel when the
/// fragment is genuinely cut off.
pub open spec fn spec_repair_prefix() -> Seq<char> {
    "You fix malformed JSON. Fix ONLY formatting: missing quotes, commas or brackets. NEVER add fields. NEVER guess missing content. NEVER complete truncated arrays or objects. If the JSON is genuinely truncated, respond with exactly \"__TRUNCATED__\". Return ONLY the corrected JSON, no markdown, no explanations.\n\nMalformed JSON:\n"@
}

/// Build the single-shot repair prompt around a malformed JSON fragment.
pub fn build_repair_prompt(fragment: &str) -> (r: String)
    ensures
        r@ == spec_repair_prefix() + fragment@,
{
    let mut r = String::new();
    r.append(
        "You fix malformed JSON. Fix ONLY formatting: missing quotes, commas or brackets. NEVER add fields. NEVER guess missing content. NEVER complete truncated arrays or objects. If the JSON is genuinely truncated, respond with exactly \"__TRUNCATED__\". Return ONLY the corrected JSON, no markdown, no explanations.\n\nMalformed JSON:\n",
    );
    r.append(fragment);
    r
}

/// The sentinel by which the repair model reports genuine truncation.
pub open spec fn spec_truncation_sentinel() -> Seq<char> {
    "__TRUNCATED__"@
}

} // verus!
