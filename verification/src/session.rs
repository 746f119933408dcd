//! Proof-solving session state.
//!
//! A session moves from awaiting a solution, to awaiting answers to
//! clarifying questions, to awaiting a revision; each pipeline step is only
//! allowed in the right state.

use vstd::prelude::*;

verus! {

use crate::prompts::{Step1Response, Step2Response};

/// Where a proof-solving session currently stands.
#[derive(Debug)]
pub enum ProofState {
    /// The user has a problem but has not submitted a solution yet.
    AwaitingSolution,
    /// A solution was analysed; the clarifying questions await answers.
    AwaitingClarifyingAnswers { step1_response: Step1Response },
    /// The answers were evaluated; the solution awaits revision.
    AwaitingRevision { step2_response: Step2Response },
}

/// The mutable session-state holder.
#[derive(Debug)]
pub struct SessionState {
    pub state: ProofState,
}

impl SessionState {
    /// A fresh session awaits a solution.
    pub fn new() -> (r: SessionState)
        ensures
            r.state is AwaitingSolution,
    {
        SessionState { state: ProofState::AwaitingSolution }
    }

    /// The current state, borrowed.
    pub fn get_state(&self) -> (r: &ProofState)
        ensures
            r == self.state,
    {
        &self.state
    }

    /// Move the session to a new state.
    pub fn set_state(&mut self, new_state: ProofState)
        ensures
            final(self).state == new_state,
    {
        self.state = new_state;
    }

    /// Reset to the initial state, as when a new problem starts.
    pub fn reset_state(&mut self)
        ensures
            final(self).state is AwaitingSolution,
    {
        self.state = ProofState::AwaitingSolution;
    }
}

/// Whether the first analysis pass may run: only while a solution or a
/// revision is awaited, never while clarifying answers are outstanding.
pub fn step1_allowed(state: &ProofState) -> (r: bool)
    ensures
        r == !(state is AwaitingClarifyingAnswers),
{
    match state {
        ProofState::AwaitingClarifyingAnswers { .. } => false,
        _ => true,
    }
}

/// Whether the second evaluation pass may run: only while clarifying
/// answers are outstanding.
pub fn step2_allowed(state: &ProofState) -> (r: bool)
    ensures
        r == (state is AwaitingClarifyingAnswers),
{
    match state {
        ProofState::AwaitingClarifyingAnswers { .. } => true,
        _ => false,
    }
}

} // verus!
