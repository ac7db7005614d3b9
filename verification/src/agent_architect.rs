//! The solution-architect agent: the scoping step of the pipeline. It spends
//! one LLM request to derive the structured project scope from the project
//! description and records it in the fact sheet.

use vstd::prelude::*;
use crate::agent_traits::{fs_monotonic, FactSheet};
use crate::ai_functions::Capability;
use crate::basic_agent::{state_rank, AgentState, BasicAgent};
use crate::dispatch::{Action, Directive, Event, FatalCallError};
use crate::general::{ai_task_request, request_matches, RequestOutcome, TaskRequest};
use crate::llm::{Message, Role};
use crate::schema::{parse_project_scope, parsed_scope};
use crate::agent_backend::attrs_advanced;

verus! {

/// Where the architect stands in its protocol.
pub enum ArchitectPhase {
    /// Not started yet.
    Idle,
    /// The scoping request is in flight.
    Scoping(TaskRequest),
    /// Finished.
    Done,
    /// A fatal error stopped the agent.
    Failed,
}

/// The solution-architect agent.
pub struct AgentSolutionArchitect {
    pub attributes: BasicAgent,
    pub phase: ArchitectPhase,
}

/// The architect's step failed fatally: nothing written, the agent stopped.
pub open spec fn architect_fail_case(
    pre: AgentSolutionArchitect,
    pre_fs: FactSheet,
    post: AgentSolutionArchitect,
    post_fs: FactSheet,
    r: Directive,
    err: FatalCallError,
) -> bool {
    &&& post_fs == pre_fs
    &&& post.attributes == pre.attributes
    &&& post.phase is Failed
    &&& r == Directive::Fatal(err)
}

/// The architect's whole protocol, one step at a time.
pub open spec fn architect_step_spec(
    pre: AgentSolutionArchitect,
    pre_fs: FactSheet,
    event: Event,
    post: AgentSolutionArchitect,
    post_fs: FactSheet,
    r: Directive,
) -> bool {
    match (pre.phase, event) {
        (ArchitectPhase::Idle, Event::Started) => {
            &&& post_fs == pre_fs
            &&& attrs_advanced(pre.attributes, post.attributes, AgentState::Working)
            &&& post.phase matches ArchitectPhase::Scoping(tr) && request_matches(
                tr,
                pre.attributes.position@,
                "print_project_scope"@,
                Capability::PrintProjectScope,
                pre_fs.project_description@,
            ) && r == Directive::Do(tr.call_action(true))
        },
        (ArchitectPhase::Scoping(tr), Event::LlmResponse { outcome }) => {
            let step = crate::general::on_response_spec(tr, outcome);
            match step.1 {
                RequestOutcome::Done(text) => {
                    match parsed_scope(text@) {
                        Some(scope) => {
                            &&& post_fs.project_scope == Some(scope)
                            &&& post_fs.project_description == pre_fs.project_description
                            &&& post_fs.external_urls == pre_fs.external_urls
                            &&& post_fs.backend_code == pre_fs.backend_code
                            &&& post_fs.api_endpoint_schema == pre_fs.api_endpoint_schema
                            &&& post.attributes.memory@ == pre.attributes.memory@.push(
                                Message { role: Role::Assistant, content: text },
                            )
                            &&& post.attributes.objective == pre.attributes.objective
                            &&& post.attributes.position == pre.attributes.position
                            &&& post.attributes.state == AgentState::Done
                            &&& post.phase is Done
                            &&& r == Directive::Finished { code_may_be_buggy: false }
                        },
                        None => architect_fail_case(
                            pre,
                            pre_fs,
                            post,
                            post_fs,
                            r,
                            FatalCallError::DecodeFailed,
                        ),
                    }
                },
                RequestOutcome::Retry(a) => {
                    &&& post_fs == pre_fs
                    &&& post.attributes == pre.attributes
                    &&& post.phase == ArchitectPhase::Scoping(step.0)
                    &&& r == Directive::Do(a)
                },
                RequestOutcome::Fatal(e) => architect_fail_case(
                    pre,
                    pre_fs,
                    post,
                    post_fs,
                    r,
                    FatalCallError::LlmFailedTwice(e),
                ),
            }
        },
        _ => architect_fail_case(pre, pre_fs, post, post_fs, r, FatalCallError::UnexpectedEvent),
    }
}

impl AgentSolutionArchitect {
    /// The architect's internal invariant: the lifecycle state matches the
    /// phase.
    pub open spec fn wf(self) -> bool {
        match self.phase {
            ArchitectPhase::Idle => self.attributes.state == AgentState::Discovery,
            ArchitectPhase::Scoping(_) => self.attributes.state == AgentState::Working,
            ArchitectPhase::Done => self.attributes.state == AgentState::Done,
            ArchitectPhase::Failed => true,
        }
    }

    /// A fresh architect: its fixed objective and position, state
    /// `Discovery`, empty memory, not started.
    pub fn new() -> (r: Self)
        ensures
            r.attributes.objective@
                == "Gathers information and designs solutions for website development"@,
            r.attributes.position@ == "Solutions Architect"@,
            r.attributes.state == AgentState::Discovery,
            r.attributes.memory@ == Seq::<Message>::empty(),
            r.phase is Idle,
            r.wf(),
    {
        let attributes = BasicAgent::new(
            String::from_str("Gathers information and designs solutions for website development"),
            String::from_str("Solutions Architect"),
        );
        AgentSolutionArchitect { attributes, phase: ArchitectPhase::Idle }
    }

    /// The agent's attributes, read back by the manager for progress
    /// reporting.
    pub fn get_attributes_from_agent(&self) -> (r: &BasicAgent)
        ensures
            r == self.attributes,
    {
        &self.attributes
    }

    /// Runs one step of the architect protocol, following
    /// `architect_step_spec` exactly; the fact sheet stays monotonic, memory
    /// only grows, and the lifecycle state never moves backwards.
    pub fn execute_step(&mut self, factsheet: &mut FactSheet, event: Event) -> (r: Directive)
        requires
            old(self).wf(),
        ensures
            architect_step_spec(
                *old(self),
                *old(factsheet),
                event,
                *final(self),
                *final(factsheet),
                r,
            ),
            final(self).wf(),
            fs_monotonic(*old(factsheet), *final(factsheet)),
            old(self).attributes.memory@.is_prefix_of(final(self).attributes.memory@),
            state_rank(final(self).attributes.state) >= state_rank(old(self).attributes.state),
    {
        let mut phase = ArchitectPhase::Failed;
        core::mem::swap(&mut phase, &mut self.phase);
        match (phase, event) {
            (ArchitectPhase::Idle, Event::Started) => {
                self.attributes.state = AgentState::Working;
                let (tr, action) = ai_task_request(
                    factsheet.project_description.as_str(),
                    self.attributes.position.as_str(),
                    "print_project_scope",
                    Capability::PrintProjectScope,
                );
                self.phase = ArchitectPhase::Scoping(tr);
                Directive::Do(action)
            },
            (ArchitectPhase::Scoping(mut tr), Event::LlmResponse { outcome }) => {
                let out = tr.on_response(outcome);
                match out {
                    RequestOutcome::Done(text) => {
                        let scope = parse_project_scope(text.as_str());
                        match scope {
                            Some(scope) => {
                                factsheet.record_scope(scope);
                                self.attributes.push_memory(
                                    Message { role: Role::Assistant, content: text },
                                );
                                self.attributes.state = AgentState::Done;
                                self.phase = ArchitectPhase::Done;
                                Directive::Finished { code_may_be_buggy: false }
                            },
                            None => {
                                self.phase = ArchitectPhase::Failed;
                                Directive::Fatal(FatalCallError::DecodeFailed)
                            },
                        }
                    },
                    RequestOutcome::Retry(a) => {
                        self.phase = ArchitectPhase::Scoping(tr);
                        Directive::Do(a)
                    },
                    RequestOutcome::Fatal(e) => {
                        self.phase = ArchitectPhase::Failed;
                        Directive::Fatal(FatalCallError::LlmFailedTwice(e))
                    },
                }
            },
            (_, _) => {
                self.phase = ArchitectPhase::Failed;
                Directive::Fatal(FatalCallError::UnexpectedEvent)
            },
        }
    }
}

} // verus!
