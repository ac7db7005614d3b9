//! The backend-developer agent: drafts webserver code from a template and
//! the project description, improves it against the whole fact sheet, runs a
//! bounded bug-fix loop, and extracts the REST API schema from the persisted
//! code. Every outside call is an action handed out; every decision is here.

use vstd::prelude::*;
use vstd::string::StringExecFns;
use crate::agent_traits::{fact_sheet_context, fs_monotonic, render_fact_sheet, render_opt, FactSheet};
use crate::ai_functions::Capability;
use crate::basic_agent::{state_rank, AgentState, BasicAgent};
use crate::command_line::{classify_spec, interpret_confirmation, lower_of, trim_of, Confirmation};
use crate::dispatch::{Action, Directive, Event, FatalCallError, StoreKey};
use crate::general::{ai_task_request, request_matches, RequestOutcome, TaskRequest};
use crate::llm::{Message, Role};
use crate::schema::{parse_route_schema, parsed_routes};

verus! {

/// The documented cap on bug-fix attempts: once this many fix requests have
/// been spent, the loop exits and reports that the code may still be buggy.
pub const MAX_BUG_FIX_ATTEMPTS: u8 = 2;

/// The context of the initial drafting request: the code template and the
/// project description.
pub open spec fn initial_context(template: Seq<char>, description: Seq<char>) -> Seq<char> {
    "CODE TEMPLATE: "@ + template + " PROJECT DESCRIPTION: "@ + description
}

/// The context of the improvement request: the current backend code plus the
/// whole fact sheet — later passes deliberately see more accumulated project
/// knowledge.
pub open spec fn improved_context(fs: FactSheet) -> Seq<char> {
    "CODE_TEMPLATE: "@ + (match fs.backend_code {
        Some(c) => c@,
        None => "absent"@,
    }) + " PROJECT_DESCRIPTION: "@ + fact_sheet_context(fs)
}

/// The context of a bug-fix request: the broken code and the error output.
pub open spec fn fix_context(code: Seq<char>, errors: Seq<char>) -> Seq<char> {
    "BROKEN_CODE: "@ + code + " ERROR_BUGS: "@ + errors
        + " THIS FUNCTION ONLY OUTPUTS CODE. JUST OUTPUT THE CODE"@
}

/// The context of the endpoint-extraction request: the code as persisted.
pub open spec fn extract_context(code: Seq<char>) -> Seq<char> {
    "CODE_INPUT: "@ + code
}

/// The prompt shown at the human confirmation gate.
pub open spec fn gate_prompt() -> Seq<char> {
    "You are about to run code written entirely by AI. Review the code and confirm your view:"@
}

/// Where the backend agent stands in its protocol.
pub enum BackendPhase {
    /// Not started yet.
    Idle,
    /// Asked for the code template.
    AwaitingTemplate,
    /// The initial drafting request is in flight.
    InitialCode(TaskRequest),
    /// The drafted code, awaiting the operator's confirmation. Following
    /// the protocol's order, it reaches the fact sheet only after it is
    /// confirmed and its persist call succeeds.
    Gate(String),
    /// Persisting the confirmed initial draft; recorded in the fact sheet
    /// once the persist succeeds.
    PersistingInitial(String),
    /// The improvement request is in flight.
    ImprovingCode(TaskRequest),
    /// Persisting the improved code; recorded once the persist succeeds.
    PersistingImproved(String),
    /// Asked for a code check; deciding whether to fix.
    CheckingCode,
    /// A bug-fix request is in flight.
    FixingCode(TaskRequest),
    /// Persisting the fixed code; recorded once the persist succeeds.
    PersistingFixed(String),
    /// Reading back the persisted code for extraction.
    ReadingFinal,
    /// The endpoint-extraction request is in flight.
    ExtractingEndpoints(TaskRequest),
    /// Persisting the extracted schema; recorded once the persist
    /// succeeds.
    PersistingSchema(String),
    /// Finished.
    Done,
    /// The operator refused to confirm the drafted code.
    Aborted,
    /// A fatal error stopped the agent.
    Failed,
}

/// Phases only reachable once the operator has confirmed the drafted code.
/// Persisting anything is allowed only here (or in the very step that wins
/// that confirmation).
pub open spec fn gate_passed(phase: BackendPhase) -> bool {
    match phase {
        BackendPhase::PersistingInitial(_) => true,
        BackendPhase::ImprovingCode(_) => true,
        BackendPhase::PersistingImproved(_) => true,
        BackendPhase::CheckingCode => true,
        BackendPhase::FixingCode(_) => true,
        BackendPhase::PersistingFixed(_) => true,
        BackendPhase::ReadingFinal => true,
        BackendPhase::ExtractingEndpoints(_) => true,
        BackendPhase::PersistingSchema(_) => true,
        BackendPhase::Done => true,
        _ => false,
    }
}

/// The backend-developer agent.
pub struct AgentBackendDeveloper {
    pub attributes: BasicAgent,
    pub bug_errors: Option<String>,
    pub bug_count: u8,
    pub still_buggy: bool,
    pub phase: BackendPhase,
}

/// The agent record is unchanged but for the phase.
pub open spec fn keeps_attrs(pre: AgentBackendDeveloper, post: AgentBackendDeveloper) -> bool {
    post.attributes == pre.attributes
}

/// The bug-fix bookkeeping is unchanged.
pub open spec fn keeps_record(pre: AgentBackendDeveloper, post: AgentBackendDeveloper) -> bool {
    &&& post.bug_errors == pre.bug_errors
    &&& post.bug_count == pre.bug_count
    &&& post.still_buggy == pre.still_buggy
}

/// The agent remembered one assistant answer; identity and state are kept.
pub open spec fn attrs_replied(pre: BasicAgent, post: BasicAgent, text: String) -> bool {
    &&& post.memory@ == pre.memory@.push(Message { role: Role::Assistant, content: text })
    &&& post.objective == pre.objective
    &&& post.position == pre.position
    &&& post.state == pre.state
}

/// The agent moved its lifecycle state forward; everything else is kept.
pub open spec fn attrs_advanced(pre: BasicAgent, post: BasicAgent, s: AgentState) -> bool {
    &&& post.state == s
    &&& post.objective == pre.objective
    &&& post.position == pre.position
    &&& post.memory == pre.memory
}

/// The fact sheet with the backend code written; every other field kept.
pub open spec fn fs_with_code(pre: FactSheet, code: String, post: FactSheet) -> bool {
    &&& post.backend_code == Some(code)
    &&& post.project_description == pre.project_description
    &&& post.project_scope == pre.project_scope
    &&& post.external_urls == pre.external_urls
    &&& post.api_endpoint_schema == pre.api_endpoint_schema
}

/// The fact sheet with the endpoint schema written; every other field kept.
pub open spec fn fs_with_schema(pre: FactSheet, schema: String, post: FactSheet) -> bool {
    &&& post.api_endpoint_schema == Some(schema)
    &&& post.project_description == pre.project_description
    &&& post.project_scope == pre.project_scope
    &&& post.external_urls == pre.external_urls
    &&& post.backend_code == pre.backend_code
}

/// The step failed fatally: nothing written, the agent is stopped.
pub open spec fn fail_case(
    pre: AgentBackendDeveloper,
    pre_fs: FactSheet,
    post: AgentBackendDeveloper,
    post_fs: FactSheet,
    r: Directive,
    err: FatalCallError,
) -> bool {
    &&& post_fs == pre_fs
    &&& keeps_attrs(pre, post)
    &&& keeps_record(pre, post)
    &&& post.phase is Failed
    &&& r == Directive::Fatal(err)
}

impl AgentBackendDeveloper {
    /// The agent's internal invariant: the lifecycle state matches the
    /// phase (so it can only move forward), and the bug count never exceeds
    /// its cap.
    pub open spec fn wf(self) -> bool {
        &&& self.bug_count <= MAX_BUG_FIX_ATTEMPTS
        &&& match self.phase {
            BackendPhase::Idle => self.attributes.state == AgentState::Discovery,
            BackendPhase::AwaitingTemplate => self.attributes.state == AgentState::Working,
            BackendPhase::InitialCode(_) => self.attributes.state == AgentState::Working,
            BackendPhase::Gate(_) => self.attributes.state == AgentState::Working,
            BackendPhase::PersistingInitial(_) => self.attributes.state == AgentState::Working,
            BackendPhase::ImprovingCode(_) => self.attributes.state == AgentState::Working,
            BackendPhase::PersistingImproved(_) => self.attributes.state == AgentState::Working,
            BackendPhase::CheckingCode => self.attributes.state == AgentState::UnitTesting,
            BackendPhase::FixingCode(_) => self.attributes.state == AgentState::UnitTesting,
            BackendPhase::PersistingFixed(_) => self.attributes.state == AgentState::UnitTesting,
            BackendPhase::ReadingFinal => self.attributes.state == AgentState::UnitTesting,
            BackendPhase::ExtractingEndpoints(_) => self.attributes.state
                == AgentState::UnitTesting,
            BackendPhase::PersistingSchema(_) => self.attributes.state == AgentState::UnitTesting,
            BackendPhase::Done => self.attributes.state == AgentState::Done,
            BackendPhase::Aborted => true,
            BackendPhase::Failed => true,
        }
    }
}

/// The backend agent's whole protocol, one step at a time: what each phase
/// does with each event, exactly.
pub open spec fn backend_step_spec(
    pre: AgentBackendDeveloper,
    pre_fs: FactSheet,
    event: Event,
    post: AgentBackendDeveloper,
    post_fs: FactSheet,
    r: Directive,
) -> bool {
    match (pre.phase, event) {
        (BackendPhase::Idle, Event::Started) => {
            &&& post_fs == pre_fs
            &&& attrs_advanced(pre.attributes, post.attributes, AgentState::Working)
            &&& keeps_record(pre, post)
            &&& post.phase is AwaitingTemplate
            &&& r == Directive::Do(Action::ReadTemplate { key: StoreKey::CodeTemplate })
        },
        (BackendPhase::AwaitingTemplate, Event::TemplateContents { outcome }) => match outcome {
            Result::Ok(template) => {
                &&& post_fs == pre_fs
                &&& keeps_attrs(pre, post)
                &&& keeps_record(pre, post)
                &&& post.phase matches BackendPhase::InitialCode(tr) && request_matches(
                    tr,
                    pre.attributes.position@,
                    "print_backend_webserver_code"@,
                    Capability::PrintBackendWebserverCode,
                    initial_context(template@, pre_fs.project_description@),
                ) && r == Directive::Do(tr.call_action(true))
            },
            Result::Err(e) => fail_case(
                pre,
                pre_fs,
                post,
                post_fs,
                r,
                FatalCallError::StoreFailed(e),
            ),
        },
        (BackendPhase::InitialCode(tr), Event::LlmResponse { outcome }) => {
            let step = crate::general::on_response_spec(tr, outcome);
            match step.1 {
                RequestOutcome::Done(text) => {
                    &&& post_fs == pre_fs
                    &&& attrs_replied(pre.attributes, post.attributes, text)
                    &&& keeps_record(pre, post)
                    &&& post.phase == BackendPhase::Gate(text)
                    &&& r matches Directive::Do(Action::AskConfirm { prompt }) && prompt@
                        == gate_prompt()
                },
                RequestOutcome::Retry(a) => {
                    &&& post_fs == pre_fs
                    &&& keeps_attrs(pre, post)
                    &&& keeps_record(pre, post)
                    &&& post.phase == BackendPhase::InitialCode(step.0)
                    &&& r == Directive::Do(a)
                },
                RequestOutcome::Fatal(e) => fail_case(
                    pre,
                    pre_fs,
                    post,
                    post_fs,
                    r,
                    FatalCallError::LlmFailedTwice(e),
                ),
            }
        },
        (BackendPhase::Gate(draft), Event::ConfirmAnswer { input }) => {
            let answer = classify_spec(lower_of(trim_of(input@)));
            if answer == Confirmation::Approved {
                &&& post_fs == pre_fs
                &&& keeps_attrs(pre, post)
                &&& keeps_record(pre, post)
                &&& post.phase == BackendPhase::PersistingInitial(draft)
                &&& r == Directive::Do(
                    Action::PersistArtifact { key: StoreKey::ExecMain, contents: draft },
                )
            } else if answer == Confirmation::Rejected {
                &&& post_fs == pre_fs
                &&& keeps_attrs(pre, post)
                &&& keeps_record(pre, post)
                &&& post.phase is Aborted
                &&& r is Aborted
            } else {
                &&& post_fs == pre_fs
                &&& keeps_attrs(pre, post)
                &&& keeps_record(pre, post)
                &&& post.phase == BackendPhase::Gate(draft)
                &&& r matches Directive::Do(Action::AskConfirm { prompt }) && prompt@
                    == gate_prompt()
            }
        },
        (BackendPhase::PersistingInitial(draft), Event::Persisted { outcome }) => match outcome {
            Result::Ok(_) => {
                &&& fs_with_code(pre_fs, draft, post_fs)
                &&& keeps_attrs(pre, post)
                &&& keeps_record(pre, post)
                &&& post.phase matches BackendPhase::ImprovingCode(tr) && request_matches(
                    tr,
                    pre.attributes.position@,
                    "print_improved_webserver_code"@,
                    Capability::PrintImprovedWebserverCode,
                    improved_context(post_fs),
                ) && r == Directive::Do(tr.call_action(true))
            },
            Result::Err(e) => fail_case(
                pre,
                pre_fs,
                post,
                post_fs,
                r,
                FatalCallError::StoreFailed(e),
            ),
        },
        (BackendPhase::ImprovingCode(tr), Event::LlmResponse { outcome }) => {
            let step = crate::general::on_response_spec(tr, outcome);
            match step.1 {
                RequestOutcome::Done(text) => {
                    &&& post_fs == pre_fs
                    &&& attrs_replied(pre.attributes, post.attributes, text)
                    &&& keeps_record(pre, post)
                    &&& post.phase == BackendPhase::PersistingImproved(text)
                    &&& r == Directive::Do(
                        Action::PersistArtifact { key: StoreKey::ExecMain, contents: text },
                    )
                },
                RequestOutcome::Retry(a) => {
                    &&& post_fs == pre_fs
                    &&& keeps_attrs(pre, post)
                    &&& keeps_record(pre, post)
                    &&& post.phase == BackendPhase::ImprovingCode(step.0)
                    &&& r == Directive::Do(a)
                },
                RequestOutcome::Fatal(e) => fail_case(
                    pre,
                    pre_fs,
                    post,
                    post_fs,
                    r,
                    FatalCallError::LlmFailedTwice(e),
                ),
            }
        },
        (BackendPhase::PersistingImproved(code), Event::Persisted { outcome }) => match outcome {
            Result::Ok(_) => {
                &&& fs_with_code(pre_fs, code, post_fs)
                &&& attrs_advanced(pre.attributes, post.attributes, AgentState::UnitTesting)
                &&& keeps_record(pre, post)
                &&& post.phase is CheckingCode
                &&& r == Directive::Do(Action::CheckCode { code })
            },
            Result::Err(e) => fail_case(
                pre,
                pre_fs,
                post,
                post_fs,
                r,
                FatalCallError::StoreFailed(e),
            ),
        },
        (BackendPhase::CheckingCode, Event::CodeChecked { bug_errors }) => match bug_errors {
            None => {
                &&& post_fs == pre_fs
                &&& keeps_attrs(pre, post)
                &&& keeps_record(pre, post)
                &&& post.phase is ReadingFinal
                &&& r == Directive::Do(Action::ReadTemplate { key: StoreKey::ExecMain })
            },
            Some(errors) => {
                if pre.bug_count < MAX_BUG_FIX_ATTEMPTS {
                    match pre_fs.backend_code {
                        Some(code) => {
                            &&& post_fs == pre_fs
                            &&& keeps_attrs(pre, post)
                            &&& post.bug_errors == Some(errors)
                            &&& post.bug_count == pre.bug_count + 1
                            &&& post.still_buggy == pre.still_buggy
                            &&& post.phase matches BackendPhase::FixingCode(tr) && request_matches(
                                tr,
                                pre.attributes.position@,
                                "print_fixed_code"@,
                                Capability::PrintFixedCode,
                                fix_context(code@, errors@),
                            ) && r == Directive::Do(tr.call_action(true))
                        },
                        None => fail_case(
                            pre,
                            pre_fs,
                            post,
                            post_fs,
                            r,
                            FatalCallError::UnexpectedEvent,
                        ),
                    }
                } else {
                    // The cap is reached: stop fixing, flag the code as
                    // possibly still buggy, and move on to extraction.
                    &&& post_fs == pre_fs
                    &&& keeps_attrs(pre, post)
                    &&& post.bug_errors == Some(errors)
                    &&& post.bug_count == pre.bug_count
                    &&& post.still_buggy == true
                    &&& post.phase is ReadingFinal
                    &&& r == Directive::Do(Action::ReadTemplate { key: StoreKey::ExecMain })
                }
            },
        },
        (BackendPhase::FixingCode(tr), Event::LlmResponse { outcome }) => {
            let step = crate::general::on_response_spec(tr, outcome);
            match step.1 {
                RequestOutcome::Done(text) => {
                    &&& post_fs == pre_fs
                    &&& attrs_replied(pre.attributes, post.attributes, text)
                    &&& keeps_record(pre, post)
                    &&& post.phase == BackendPhase::PersistingFixed(text)
                    &&& r == Directive::Do(
                        Action::PersistArtifact { key: StoreKey::ExecMain, contents: text },
                    )
                },
                RequestOutcome::Retry(a) => {
                    &&& post_fs == pre_fs
                    &&& keeps_attrs(pre, post)
                    &&& keeps_record(pre, post)
                    &&& post.phase == BackendPhase::FixingCode(step.0)
                    &&& r == Directive::Do(a)
                },
                RequestOutcome::Fatal(e) => fail_case(
                    pre,
                    pre_fs,
                    post,
                    post_fs,
                    r,
                    FatalCallError::LlmFailedTwice(e),
                ),
            }
        },
        (BackendPhase::PersistingFixed(code), Event::Persisted { outcome }) => match outcome {
            Result::Ok(_) => {
                &&& fs_with_code(pre_fs, code, post_fs)
                &&& keeps_attrs(pre, post)
                &&& keeps_record(pre, post)
                &&& post.phase is CheckingCode
                &&& r == Directive::Do(Action::CheckCode { code })
            },
            Result::Err(e) => fail_case(
                pre,
                pre_fs,
                post,
                post_fs,
                r,
                FatalCallError::StoreFailed(e),
            ),
        },
        (BackendPhase::ReadingFinal, Event::TemplateContents { outcome }) => match outcome {
            Result::Ok(code) => {
                &&& post_fs == pre_fs
                &&& keeps_attrs(pre, post)
                &&& keeps_record(pre, post)
                &&& post.phase matches BackendPhase::ExtractingEndpoints(tr) && request_matches(
                    tr,
                    pre.attributes.position@,
                    "print_rest_api_endpoints"@,
                    Capability::PrintRestApiEndpoints,
                    extract_context(code@),
                ) && r == Directive::Do(tr.call_action(true))
            },
            Result::Err(e) => fail_case(
                pre,
                pre_fs,
                post,
                post_fs,
                r,
                FatalCallError::StoreFailed(e),
            ),
        },
        (BackendPhase::ExtractingEndpoints(tr), Event::LlmResponse { outcome }) => {
            let step = crate::general::on_response_spec(tr, outcome);
            match step.1 {
                RequestOutcome::Done(text) => {
                    if parsed_routes(text@) is Some {
                        &&& post_fs == pre_fs
                        &&& attrs_replied(pre.attributes, post.attributes, text)
                        &&& keeps_record(pre, post)
                        &&& post.phase == BackendPhase::PersistingSchema(text)
                        &&& r == Directive::Do(
                            Action::PersistArtifact { key: StoreKey::ApiSchema, contents: text },
                        )
                    } else {
                        fail_case(pre, pre_fs, post, post_fs, r, FatalCallError::DecodeFailed)
                    }
                },
                RequestOutcome::Retry(a) => {
                    &&& post_fs == pre_fs
                    &&& keeps_attrs(pre, post)
                    &&& keeps_record(pre, post)
                    &&& post.phase == BackendPhase::ExtractingEndpoints(step.0)
                    &&& r == Directive::Do(a)
                },
                RequestOutcome::Fatal(e) => fail_case(
                    pre,
                    pre_fs,
                    post,
                    post_fs,
                    r,
                    FatalCallError::LlmFailedTwice(e),
                ),
            }
        },
        (BackendPhase::PersistingSchema(schema), Event::Persisted { outcome }) => match outcome {
            Result::Ok(_) => {
                &&& fs_with_schema(pre_fs, schema, post_fs)
                &&& attrs_advanced(pre.attributes, post.attributes, AgentState::Done)
                &&& keeps_record(pre, post)
                &&& post.phase is Done
                &&& r == Directive::Finished { code_may_be_buggy: pre.still_buggy }
            },
            Result::Err(e) => fail_case(
                pre,
                pre_fs,
                post,
                post_fs,
                r,
                FatalCallError::StoreFailed(e),
            ),
        },
        _ => fail_case(pre, pre_fs, post, post_fs, r, FatalCallError::UnexpectedEvent),
    }
}

/// A fresh backend-developer agent: its fixed objective and position, state
/// `Discovery`, empty memory, no bugs counted, not started.
impl AgentBackendDeveloper {
    pub fn new() -> (r: Self)
        ensures
            r.attributes.objective@ == "Develops backend code for webserver and json database"@,
            r.attributes.position@ == "Backend Developer"@,
            r.attributes.state == AgentState::Discovery,
            r.attributes.memory@ == Seq::<Message>::empty(),
            r.bug_errors is None,
            r.bug_count == 0,
            r.still_buggy == false,
            r.phase is Idle,
            r.wf(),
    {
        let attributes = BasicAgent::new(
            String::from_str("Develops backend code for webserver and json database"),
            String::from_str("Backend Developer"),
        );
        AgentBackendDeveloper {
            attributes,
            bug_errors: None,
            bug_count: 0,
            still_buggy: false,
            phase: BackendPhase::Idle,
        }
    }
}

/// Whether an event reports a failing code check.
pub open spec fn failing_check(event: Event) -> bool {
    event matches Event::CodeChecked { bug_errors: Some(_) }
}

/// The classification of a confirmation answer carried by an event, or
/// nothing for any other kind of event.
pub open spec fn gate_answer(event: Event) -> Option<Confirmation> {
    match event {
        Event::ConfirmAnswer { input } => Some(classify_spec(lower_of(trim_of(input@)))),
        _ => None,
    }
}

/// Law (bug-fix loop termination): a fix request is only opened while the
/// bug count is under the cap, and opening one raises the count, which
/// never decreases and never passes the cap — so at most
/// `MAX_BUG_FIX_ATTEMPTS` fix requests are ever made. Once the cap is
/// reached, a failing check exits the loop with the still-buggy flag set
/// (reported, not dropped) instead of fixing again.
pub proof fn lemma_bug_fix_loop_bounded(
    pre: AgentBackendDeveloper,
    pre_fs: FactSheet,
    event: Event,
    post: AgentBackendDeveloper,
    post_fs: FactSheet,
    r: Directive,
)
    requires
        backend_step_spec(pre, pre_fs, event, post, post_fs, r),
        pre.bug_count <= MAX_BUG_FIX_ATTEMPTS,
    ensures
        post.bug_count <= MAX_BUG_FIX_ATTEMPTS,
        post.bug_count >= pre.bug_count,
        (post.phase matches BackendPhase::FixingCode(_) && !(pre.phase
            matches BackendPhase::FixingCode(_))) ==> pre.bug_count < MAX_BUG_FIX_ATTEMPTS
            && post.bug_count == pre.bug_count + 1,
        (pre.phase is CheckingCode && failing_check(event) && pre.bug_count
            >= MAX_BUG_FIX_ATTEMPTS) ==> post.phase is ReadingFinal && post.still_buggy,
{
}

/// Law (confirmation guards persistence): a step asks to persist an
/// artifact only once the operator has confirmed — in a phase after the
/// confirmation or in the very step whose answer gives it; a rejecting
/// answer aborts the agent on the spot and leaves the fact sheet untouched,
/// and from the aborted state no further work is ever asked for.
pub proof fn lemma_gate_guards_persistence(
    pre: AgentBackendDeveloper,
    pre_fs: FactSheet,
    event: Event,
    post: AgentBackendDeveloper,
    post_fs: FactSheet,
    r: Directive,
)
    requires
        backend_step_spec(pre, pre_fs, event, post, post_fs, r),
    ensures
        issues_persist(r) ==> gate_passed(post.phase),
        issues_persist(r) ==> gate_passed(pre.phase) || (pre.phase is Gate && gate_answer(event)
            == Some(Confirmation::Approved)),
        gate_passed(post.phase) ==> gate_passed(pre.phase) || pre.phase is Gate,
        (pre.phase is Gate && gate_answer(event) == Some(Confirmation::Rejected)) ==> post.phase
            is Aborted && r is Aborted && post_fs == pre_fs,
        pre.phase is Aborted ==> !(r matches Directive::Do(_)),
{
}

/// Whether a directive asks for a persist call.
pub open spec fn issues_persist(r: Directive) -> bool {
    match r {
        Directive::Do(a) => a matches Action::PersistArtifact { .. },
        _ => false,
    }
}

impl AgentBackendDeveloper {
    /// The agent's attributes, read back by the manager for progress
    /// reporting.
    pub fn get_attributes_from_agent(&self) -> (r: &BasicAgent)
        ensures
            r == self.attributes,
    {
        &self.attributes
    }

    /// Runs one step of the backend protocol: digests the event, updates the
    /// fact sheet and its own record, and says what outside work comes next
    /// — all exactly as `backend_step_spec` lays out. Generated text reaches
    /// the fact sheet only after its persist call succeeds, so a persistence
    /// failure is surfaced before any fact-sheet write. On top of that, every
    /// step keeps the fact sheet monotonic, only appends to memory, never
    /// moves the lifecycle state backwards, never counts bug fixes beyond
    /// the cap, and never asks to persist anything without the operator's
    /// confirmation.
    pub fn execute_step(&mut self, factsheet: &mut FactSheet, event: Event) -> (r: Directive)
        requires
            old(self).wf(),
        ensures
            backend_step_spec(
                *old(self),
                *old(factsheet),
                event,
                *final(self),
                *final(factsheet),
                r,
            ),
            final(self).wf(),
            fs_monotonic(*old(factsheet), *final(factsheet)),
            old(self).attributes.memory@.is_prefix_of(final(self).attributes.memory@),
            state_rank(final(self).attributes.state) >= state_rank(old(self).attributes.state),
            final(self).bug_count >= old(self).bug_count,
            issues_persist(r) ==> gate_passed(final(self).phase),
            gate_passed(final(self).phase) ==> gate_passed(old(self).phase) || old(
                self,
            ).phase is Gate,
    {
        let mut phase = BackendPhase::Failed;
        core::mem::swap(&mut phase, &mut self.phase);
        match (phase, event) {
            (BackendPhase::Idle, Event::Started) => {
                self.attributes.state = AgentState::Working;
                self.phase = BackendPhase::AwaitingTemplate;
                Directive::Do(Action::ReadTemplate { key: StoreKey::CodeTemplate })
            },
            (BackendPhase::AwaitingTemplate, Event::TemplateContents { outcome }) => match outcome {
                Result::Ok(template) => {
                    let mut ctx = String::from_str("CODE TEMPLATE: ");
                    ctx.append(template.as_str());
                    ctx.append(" PROJECT DESCRIPTION: ");
                    ctx.append(factsheet.project_description.as_str());
                    proof {
                        assert(ctx@ =~= initial_context(
                            template@,
                            old(factsheet).project_description@,
                        ));
                    }
                    let (tr, action) = ai_task_request(
                        ctx.as_str(),
                        self.attributes.position.as_str(),
                        "print_backend_webserver_code",
                        Capability::PrintBackendWebserverCode,
                    );
                    self.phase = BackendPhase::InitialCode(tr);
                    Directive::Do(action)
                },
                Result::Err(e) => {
                    self.phase = BackendPhase::Failed;
                    Directive::Fatal(FatalCallError::StoreFailed(e))
                },
            },
            (BackendPhase::InitialCode(mut tr), Event::LlmResponse { outcome }) => {
                let out = tr.on_response(outcome);
                match out {
                    RequestOutcome::Done(text) => {
                        self.attributes.push_memory(
                            Message { role: Role::Assistant, content: text.clone() },
                        );
                        self.phase = BackendPhase::Gate(text);
                        Directive::Do(
                            Action::AskConfirm {
                                prompt: String::from_str(
                                    "You are about to run code written entirely by AI. Review the code and confirm your view:",
                                ),
                            },
                        )
                    },
                    RequestOutcome::Retry(a) => {
                        self.phase = BackendPhase::InitialCode(tr);
                        Directive::Do(a)
                    },
                    RequestOutcome::Fatal(e) => {
                        self.phase = BackendPhase::Failed;
                        Directive::Fatal(FatalCallError::LlmFailedTwice(e))
                    },
                }
            },
            (BackendPhase::Gate(draft), Event::ConfirmAnswer { input }) => {
                let answer = interpret_confirmation(input.as_str());
                match answer {
                    Confirmation::Approved => {
                        self.phase = BackendPhase::PersistingInitial(draft.clone());
                        Directive::Do(
                            Action::PersistArtifact { key: StoreKey::ExecMain, contents: draft },
                        )
                    },
                    Confirmation::Rejected => {
                        self.phase = BackendPhase::Aborted;
                        Directive::Aborted
                    },
                    Confirmation::Unrecognized => {
                        self.phase = BackendPhase::Gate(draft);
                        Directive::Do(
                            Action::AskConfirm {
                                prompt: String::from_str(
                                    "You are about to run code written entirely by AI. Review the code and confirm your view:",
                                ),
                            },
                        )
                    },
                }
            },
            (BackendPhase::PersistingInitial(draft), Event::Persisted { outcome }) => match outcome {
                Result::Ok(_) => {
                    factsheet.record_backend_code(draft);
                    let mut ctx = String::from_str("CODE_TEMPLATE: ");
                    let code_text = render_opt(&factsheet.backend_code);
                    ctx.append(code_text.as_str());
                    ctx.append(" PROJECT_DESCRIPTION: ");
                    let fs_text = render_fact_sheet(factsheet);
                    ctx.append(fs_text.as_str());
                    proof {
                        assert(ctx@ =~= improved_context(*factsheet));
                    }
                    let (tr, action) = ai_task_request(
                        ctx.as_str(),
                        self.attributes.position.as_str(),
                        "print_improved_webserver_code",
                        Capability::PrintImprovedWebserverCode,
                    );
                    self.phase = BackendPhase::ImprovingCode(tr);
                    Directive::Do(action)
                },
                Result::Err(e) => {
                    self.phase = BackendPhase::Failed;
                    Directive::Fatal(FatalCallError::StoreFailed(e))
                },
            },
            (BackendPhase::ImprovingCode(mut tr), Event::LlmResponse { outcome }) => {
                let out = tr.on_response(outcome);
                match out {
                    RequestOutcome::Done(text) => {
                        self.attributes.push_memory(
                            Message { role: Role::Assistant, content: text.clone() },
                        );
                        self.phase = BackendPhase::PersistingImproved(text.clone());
                        Directive::Do(
                            Action::PersistArtifact { key: StoreKey::ExecMain, contents: text },
                        )
                    },
                    RequestOutcome::Retry(a) => {
                        self.phase = BackendPhase::ImprovingCode(tr);
                        Directive::Do(a)
                    },
                    RequestOutcome::Fatal(e) => {
                        self.phase = BackendPhase::Failed;
                        Directive::Fatal(FatalCallError::LlmFailedTwice(e))
                    },
                }
            },
            (BackendPhase::PersistingImproved(code), Event::Persisted { outcome }) => match outcome {
                Result::Ok(_) => {
                    factsheet.record_backend_code(code.clone());
                    self.attributes.state = AgentState::UnitTesting;
                    self.phase = BackendPhase::CheckingCode;
                    Directive::Do(Action::CheckCode { code })
                },
                Result::Err(e) => {
                    self.phase = BackendPhase::Failed;
                    Directive::Fatal(FatalCallError::StoreFailed(e))
                },
            },
            (BackendPhase::CheckingCode, Event::CodeChecked { bug_errors }) => match bug_errors {
                None => {
                    self.phase = BackendPhase::ReadingFinal;
                    Directive::Do(Action::ReadTemplate { key: StoreKey::ExecMain })
                },
                Some(errors) => {
                    if self.bug_count < MAX_BUG_FIX_ATTEMPTS {
                        match &factsheet.backend_code {
                            Some(code) => {
                                let mut ctx = String::from_str("BROKEN_CODE: ");
                                ctx.append(code.as_str());
                                ctx.append(" ERROR_BUGS: ");
                                ctx.append(errors.as_str());
                                ctx.append(
                                    " THIS FUNCTION ONLY OUTPUTS CODE. JUST OUTPUT THE CODE",
                                );
                                proof {
                                    assert(ctx@ =~= fix_context(code@, errors@));
                                }
                                let (tr, action) = ai_task_request(
                                    ctx.as_str(),
                                    self.attributes.position.as_str(),
                                    "print_fixed_code",
                                    Capability::PrintFixedCode,
                                );
                                self.bug_count = self.bug_count + 1;
                                self.bug_errors = Some(errors);
                                self.phase = BackendPhase::FixingCode(tr);
                                Directive::Do(action)
                            },
                            None => {
                                self.phase = BackendPhase::Failed;
                                Directive::Fatal(FatalCallError::UnexpectedEvent)
                            },
                        }
                    } else {
                        self.bug_errors = Some(errors);
                        self.still_buggy = true;
                        self.phase = BackendPhase::ReadingFinal;
                        Directive::Do(Action::ReadTemplate { key: StoreKey::ExecMain })
                    }
                },
            },
            (BackendPhase::FixingCode(mut tr), Event::LlmResponse { outcome }) => {
                let out = tr.on_response(outcome);
                match out {
                    RequestOutcome::Done(text) => {
                        self.attributes.push_memory(
                            Message { role: Role::Assistant, content: text.clone() },
                        );
                        self.phase = BackendPhase::PersistingFixed(text.clone());
                        Directive::Do(
                            Action::PersistArtifact { key: StoreKey::ExecMain, contents: text },
                        )
                    },
                    RequestOutcome::Retry(a) => {
                        self.phase = BackendPhase::FixingCode(tr);
                        Directive::Do(a)
                    },
                    RequestOutcome::Fatal(e) => {
                        self.phase = BackendPhase::Failed;
                        Directive::Fatal(FatalCallError::LlmFailedTwice(e))
                    },
                }
            },
            (BackendPhase::PersistingFixed(code), Event::Persisted { outcome }) => match outcome {
                Result::Ok(_) => {
                    factsheet.record_backend_code(code.clone());
                    self.phase = BackendPhase::CheckingCode;
                    Directive::Do(Action::CheckCode { code })
                },
                Result::Err(e) => {
                    self.phase = BackendPhase::Failed;
                    Directive::Fatal(FatalCallError::StoreFailed(e))
                },
            },
            (BackendPhase::ReadingFinal, Event::TemplateContents { outcome }) => match outcome {
                Result::Ok(code) => {
                    let mut ctx = String::from_str("CODE_INPUT: ");
                    ctx.append(code.as_str());
                    proof {
                        assert(ctx@ =~= extract_context(code@));
                    }
                    let (tr, action) = ai_task_request(
                        ctx.as_str(),
                        self.attributes.position.as_str(),
                        "print_rest_api_endpoints",
                        Capability::PrintRestApiEndpoints,
                    );
                    self.phase = BackendPhase::ExtractingEndpoints(tr);
                    Directive::Do(action)
                },
                Result::Err(e) => {
                    self.phase = BackendPhase::Failed;
                    Directive::Fatal(FatalCallError::StoreFailed(e))
                },
            },
            (BackendPhase::ExtractingEndpoints(mut tr), Event::LlmResponse { outcome }) => {
                let out = tr.on_response(outcome);
                match out {
                    RequestOutcome::Done(text) => {
                        let routes = parse_route_schema(text.as_str());
                        match routes {
                            Some(_) => {
                                self.attributes.push_memory(
                                    Message { role: Role::Assistant, content: text.clone() },
                                );
                                self.phase = BackendPhase::PersistingSchema(text.clone());
                                Directive::Do(
                                    Action::PersistArtifact {
                                        key: StoreKey::ApiSchema,
                                        contents: text,
                                    },
                                )
                            },
                            None => {
                                self.phase = BackendPhase::Failed;
                                Directive::Fatal(FatalCallError::DecodeFailed)
                            },
                        }
                    },
                    RequestOutcome::Retry(a) => {
                        self.phase = BackendPhase::ExtractingEndpoints(tr);
                        Directive::Do(a)
                    },
                    RequestOutcome::Fatal(e) => {
                        self.phase = BackendPhase::Failed;
                        Directive::Fatal(FatalCallError::LlmFailedTwice(e))
                    },
                }
            },
            (BackendPhase::PersistingSchema(schema), Event::Persisted { outcome }) => match outcome {
                Result::Ok(_) => {
                    factsheet.record_api_endpoint_schema(schema);
                    self.attributes.state = AgentState::Done;
                    self.phase = BackendPhase::Done;
                    Directive::Finished { code_may_be_buggy: self.still_buggy }
                },
                Result::Err(e) => {
                    self.phase = BackendPhase::Failed;
                    Directive::Fatal(FatalCallError::StoreFailed(e))
                },
            },
            (_, _) => {
                self.phase = BackendPhase::Failed;
                Directive::Fatal(FatalCallError::UnexpectedEvent)
            },
        }
    }
}

} // verus!
