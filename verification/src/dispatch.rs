//! Actions the library asks its collaborators to perform, the events they
//! hand back, and the directives an agent step returns to the manager.
//!
//! All outside work — the LLM transport, the template and artifact stores,
//! operator I/O, the code check — happens between a returned [`Action`] and
//! the next [`Event`] fed in; the library itself only decides.

use vstd::prelude::*;
use crate::llm::{LlmError, Message};

verus! {

/// A key of the logical template/artifact store.
#[derive(Clone, Copy, Debug, PartialEq, Eq, Structural)]
pub enum StoreKey {
    CodeTemplate,
    ExecMain,
    ApiSchema,
}

/// The ways the template/artifact store can fail. Both are fatal.
#[derive(Clone, Copy, Debug, PartialEq, Eq, Structural)]
pub enum StoreError {
    NotFound,
    Io,
}

/// A fatal condition: the run is aborted entirely, with enough context to
/// diagnose which call failed.
#[derive(Clone, Copy, Debug, PartialEq, Eq, Structural)]
pub enum FatalCallError {
    /// Two consecutive LLM calls failed; the second error is kept.
    LlmFailedTwice(LlmError),
    /// The model's output could not be decoded as the requested structure.
    DecodeFailed,
    /// The template or artifact store failed.
    StoreFailed(StoreError),
    /// The driver handed an event the current phase cannot accept.
    UnexpectedEvent,
}

/// One piece of outside work the library asks for.
#[derive(Debug)]
pub enum Action {
    /// Perform one LLM completion with a one-message conversation. The agent
    /// position and operation labels are the observable status line;
    /// `announce` is set on a request's first call and cleared on its
    /// retry, so the line is emitted once per request.
    CallLlm { agent_position: String, agent_operation: String, message: Message, announce: bool },
    /// Read a template from the store.
    ReadTemplate { key: StoreKey },
    /// Persist an artifact to the store.
    PersistArtifact { key: StoreKey, contents: String },
    /// Ask the human operator to confirm; hand back the raw input line.
    AskConfirm { prompt: String },
    /// Check the given code for bugs; hand back any error output.
    CheckCode { code: String },
}

/// The outcome of one piece of outside work, handed back to the library.
#[derive(Debug)]
#[allow(inconsistent_fields)]
pub enum Event {
    /// Kick off the current agent.
    Started,
    /// What the LLM call returned.
    LlmResponse { outcome: Result<String, LlmError> },
    /// What the template read returned.
    TemplateContents { outcome: Result<String, StoreError> },
    /// Whether the persist call succeeded.
    Persisted { outcome: Result<(), StoreError> },
    /// The raw line the operator typed at the confirmation gate.
    ConfirmAnswer { input: String },
    /// The code check's error output, absent when the code is clean.
    CodeChecked { bug_errors: Option<String> },
}

/// What one agent step decided.
#[derive(Debug)]
pub enum Directive {
    /// Perform this action, then feed the resulting event back in.
    Do(Action),
    /// The agent is done. `code_may_be_buggy` reports that the bug-fix loop
    /// exited at its cap without a clean check.
    Finished { code_may_be_buggy: bool },
    /// The operator declined the confirmation gate; the run stops here.
    Aborted,
    /// A fatal error; the run stops here.
    Fatal(FatalCallError),
}

} // verus!
