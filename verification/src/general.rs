//! The function prompt binder and the task requester: how a capability plus
//! caller-supplied context becomes one instruction message, and the bounded
//! retry policy (at most two attempts) around the LLM call that carries it.

use vstd::prelude::*;
use vstd::string::StringExecFns;
use crate::ai_functions::{describe_spec, Capability};
use crate::dispatch::Action;
use crate::llm::{LlmError, Message, Role};

verus! {

/// The exact content of the instruction message bound from a capability and
/// an input: a fixed template around the capability's description and the
/// input, with no other ingredient.
pub open spec fn bound_content(function_pass: Capability, func_input: Seq<char>) -> Seq<char> {
    "FUNCTION: "@ + describe_spec(function_pass)
        + " INSTRUCTION: act purely as a printer of this function's result, no commentary. INPUT: "@
        + func_input + " Print only the result."@
}

/// Binds a capability and an input into a single system-role instruction
/// message whose content is exactly `bound_content`.
pub fn extend_ai_function(function_pass: Capability, func_input: &str) -> (msg: Message)
    ensures
        msg.role == Role::System,
        msg.content@ == bound_content(function_pass, func_input@),
{
    let mut content = String::from_str("FUNCTION: ");
    content.append(function_pass.describe());
    content.append(
        " INSTRUCTION: act purely as a printer of this function's result, no commentary. INPUT: ",
    );
    content.append(func_input);
    content.append(" Print only the result.");
    proof {
        assert(content@ =~= bound_content(function_pass, func_input@));
    }
    Message { role: Role::System, content }
}

/// Law (binder determinism): the bound content is a function of the
/// capability and the input alone, so two messages bound from the same pair
/// are byte-identical.
pub proof fn lemma_binder_deterministic(
    function_pass: Capability,
    func_input: Seq<char>,
    c1: Seq<char>,
    c2: Seq<char>,
)
    requires
        c1 == bound_content(function_pass, func_input),
        c2 == bound_content(function_pass, func_input),
    ensures
        c1 == c2,
{
}

/// One in-flight LLM task: the bound message, the status labels, and how
/// many calls have been issued for it so far.
pub struct TaskRequest {
    pub message: Message,
    pub position: String,
    pub operation: String,
    pub attempts: u8,
}

/// What the requester decides once an LLM call's outcome is in.
#[derive(Debug)]
pub enum RequestOutcome {
    /// The call succeeded; this is its text.
    Done(String),
    /// The first call failed: retry exactly once, with this identical call.
    Retry(Action),
    /// The second call failed too: fatal, no third attempt.
    Fatal(LlmError),
}

impl TaskRequest {
    /// The call action that carries this request to the LLM. The status
    /// line is announced on the request's first call only.
    pub open spec fn call_action(self, announce: bool) -> Action {
        Action::CallLlm {
            agent_position: self.position,
            agent_operation: self.operation,
            message: self.message,
            announce,
        }
    }
}

/// The retry policy, in one place: a success is returned as is; a failure on
/// the first call asks for one identical retry; a failure on the second call
/// is fatal.
pub open spec fn on_response_spec(pre: TaskRequest, outcome: Result<String, LlmError>) -> (
    TaskRequest,
    RequestOutcome,
) {
    match outcome {
        Result::Ok(text) => (pre, RequestOutcome::Done(text)),
        Result::Err(e) => {
            if pre.attempts <= 1 {
                let post = TaskRequest {
                    message: pre.message,
                    position: pre.position,
                    operation: pre.operation,
                    attempts: (pre.attempts + 1) as u8,
                };
                (post, RequestOutcome::Retry(pre.call_action(false)))
            } else {
                (pre, RequestOutcome::Fatal(e))
            }
        },
    }
}

impl TaskRequest {
    /// Digest one LLM call outcome, following `on_response_spec` exactly.
    pub fn on_response(&mut self, outcome: Result<String, LlmError>) -> (r: RequestOutcome)
        ensures
            *final(self) == on_response_spec(*old(self), outcome).0,
            r == on_response_spec(*old(self), outcome).1,
    {
        match outcome {
            Result::Ok(text) => RequestOutcome::Done(text),
            Result::Err(e) => {
                if self.attempts <= 1 {
                    self.attempts = self.attempts + 1;
                    RequestOutcome::Retry(Action::CallLlm {
                        agent_position: self.position.clone(),
                        agent_operation: self.operation.clone(),
                        message: self.message.clone(),
                        announce: false,
                    })
                } else {
                    RequestOutcome::Fatal(e)
                }
            },
        }
    }
}

/// Opens a task request: binds the capability and context into one system
/// message and returns the request together with its first call action.
/// The request starts with one call issued.
pub fn ai_task_request(
    msg_context: &str,
    agent_position: &str,
    agent_operation: &str,
    function_pass: Capability,
) -> (r: (TaskRequest, Action))
    ensures
        r.0.message.role == Role::System,
        r.0.message.content@ == bound_content(function_pass, msg_context@),
        r.0.position@ == agent_position@,
        r.0.operation@ == agent_operation@,
        r.0.attempts == 1,
        r.1 == r.0.call_action(true),
{
    let message = extend_ai_function(function_pass, msg_context);
    let position = String::from_str(agent_position);
    let operation = String::from_str(agent_operation);
    let request = TaskRequest {
        message: message.clone(),
        position: position.clone(),
        operation: operation.clone(),
        attempts: 1,
    };
    let action = Action::CallLlm {
        agent_position: position,
        agent_operation: operation,
        message,
        announce: true,
    };
    (request, action)
}

/// Law (retry exactly once): from a fresh request, a failed first outcome
/// asks for one retry carrying the identical call — without announcing the
/// status line again — after which a success returns exactly the second
/// call's text and a failure is fatal; the request never asks for a third
/// call.
pub proof fn lemma_retry_exactly_once(
    fresh: TaskRequest,
    first_error: LlmError,
    second: Result<String, LlmError>,
)
    requires
        fresh.attempts == 1,
    ensures
        on_response_spec(fresh, Result::Err(first_error)).1 == RequestOutcome::Retry(
            fresh.call_action(false),
        ),
        on_response_spec(fresh, Result::Err(first_error)).0.attempts == 2,
        (second matches Result::Ok(text) ==> on_response_spec(
            on_response_spec(fresh, Result::Err(first_error)).0,
            second,
        ).1 == RequestOutcome::Done(text)),
        (second matches Result::Err(e) ==> on_response_spec(
            on_response_spec(fresh, Result::Err(first_error)).0,
            second,
        ).1 == RequestOutcome::Fatal(e)),
{
}

/// An in-flight request carries these labels and exactly this bound message.
pub open spec fn request_matches(
    tr: TaskRequest,
    position: Seq<char>,
    operation: Seq<char>,
    function_pass: Capability,
    context: Seq<char>,
) -> bool {
    &&& tr.attempts == 1
    &&& tr.position@ == position
    &&& tr.operation@ == operation
    &&& tr.message.role == Role::System
    &&& tr.message.content@ == bound_content(function_pass, context)
}

} // verus!
