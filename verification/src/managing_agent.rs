//! The managing agent: derives the normalized project description from the
//! raw user request, owns the fact sheet, and drives the agents over it one
//! at a time, strictly in sequence. One agent's writes are fully visible to
//! the next because the manager hands the very same record on, untouched.

use vstd::prelude::*;
use vstd::string::StringExecFns;
use crate::agent_architect::{architect_step_spec, AgentSolutionArchitect};
use crate::agent_backend::{backend_step_spec, AgentBackendDeveloper};
use crate::agent_traits::{fs_monotonic, FactSheet};
use crate::ai_functions::Capability;
use crate::basic_agent::{AgentState, BasicAgent};
use crate::dispatch::{Action, Directive, Event, FatalCallError};
use crate::general::{ai_task_request, request_matches, RequestOutcome, TaskRequest};
use crate::llm::Message;

verus! {

/// One agent of the pipeline, behind the shared capability set: every
/// concrete agent exposes `execute_step` and `get_attributes_from_agent`,
/// and the manager never depends on which variant it is driving.
pub enum AgentKind {
    SolutionArchitect(AgentSolutionArchitect),
    BackendDeveloper(AgentBackendDeveloper),
}

/// The step relation of whichever agent this is. A step never changes the
/// agent's variant.
pub open spec fn kind_step_spec(
    pre: AgentKind,
    pre_fs: FactSheet,
    event: Event,
    post: AgentKind,
    post_fs: FactSheet,
    r: Directive,
) -> bool {
    match (pre, post) {
        (AgentKind::SolutionArchitect(a), AgentKind::SolutionArchitect(b)) => architect_step_spec(
            a,
            pre_fs,
            event,
            b,
            post_fs,
            r,
        ),
        (AgentKind::BackendDeveloper(a), AgentKind::BackendDeveloper(b)) => backend_step_spec(
            a,
            pre_fs,
            event,
            b,
            post_fs,
            r,
        ),
        _ => false,
    }
}

impl AgentKind {
    /// The invariant of whichever agent this is.
    pub open spec fn wf(self) -> bool {
        match self {
            AgentKind::SolutionArchitect(a) => a.wf(),
            AgentKind::BackendDeveloper(a) => a.wf(),
        }
    }

    /// The agent's attributes, for progress reporting.
    pub open spec fn spec_attributes(self) -> BasicAgent {
        match self {
            AgentKind::SolutionArchitect(a) => a.attributes,
            AgentKind::BackendDeveloper(a) => a.attributes,
        }
    }

    /// The agent's attributes, read back for progress reporting.
    pub fn get_attributes_from_agent(&self) -> (r: &BasicAgent)
        ensures
            r == self.spec_attributes(),
    {
        match self {
            AgentKind::SolutionArchitect(a) => a.get_attributes_from_agent(),
            AgentKind::BackendDeveloper(a) => a.get_attributes_from_agent(),
        }
    }

    /// Runs one step of whichever agent this is, following its step
    /// relation exactly; the fact sheet stays monotonic either way.
    pub fn execute_step(&mut self, factsheet: &mut FactSheet, event: Event) -> (r: Directive)
        requires
            old(self).wf(),
        ensures
            kind_step_spec(*old(self), *old(factsheet), event, *final(self), *final(factsheet), r),
            final(self).wf(),
            fs_monotonic(*old(factsheet), *final(factsheet)),
    {
        match self {
            AgentKind::SolutionArchitect(a) => a.execute_step(factsheet, event),
            AgentKind::BackendDeveloper(a) => a.execute_step(factsheet, event),
        }
    }
}

/// Where the manager stands in its protocol.
pub enum ManagerPhase {
    /// The project-description request is in flight.
    DerivingDescription(TaskRequest),
    /// Driving the agent at `current` over the fact sheet.
    Dispatching,
    /// Every agent finished.
    Done,
    /// A fatal error stopped the run.
    Failed,
    /// The operator declined the confirmation gate.
    Aborted,
}

/// What one manager step decided.
#[derive(Debug)]
pub enum ManagerStep {
    /// Perform this action, then feed the resulting event back in.
    Do(Action),
    /// The pipeline advanced past the named position: feed `Started` to run
    /// the next stage.
    Handoff { position: String },
    /// The run completed. `code_may_be_buggy` reports a bug-fix loop that
    /// exited at its cap without a clean check.
    ProjectComplete { code_may_be_buggy: bool },
    /// The operator refused to confirm; no further agent was run.
    ProjectAborted,
    /// A fatal error; the run stops here.
    Failure(FatalCallError),
}

/// The sequencer that owns the fact sheet and drives the agents.
pub struct ManagingAgent {
    pub attributes: BasicAgent,
    pub factsheet: FactSheet,
    pub agents: Vec<AgentKind>,
    pub phase: ManagerPhase,
    pub current: usize,
    pub code_may_be_buggy: bool,
}

/// What the manager does with the directive one agent step returned: pass
/// an action on, advance past a finished agent (completing the run after
/// the last one), abort on a declined gate, stop on a fatal error.
pub open spec fn dispatch_case(
    pre: ManagingAgent,
    event: Event,
    post: ManagingAgent,
    r: ManagerStep,
    d: Directive,
) -> bool {
    let cur = pre.current as int;
    &&& kind_step_spec(pre.agents@[cur], pre.factsheet, event, post.agents@[cur], post.factsheet, d)
    &&& post.agents@.len() == pre.agents@.len()
    &&& forall|j: int| 0 <= j < pre.agents@.len() && j != cur ==> post.agents@[j] == pre.agents@[j]
    &&& post.attributes == pre.attributes
    &&& match d {
        Directive::Do(a) => {
            &&& r == ManagerStep::Do(a)
            &&& post.current == pre.current
            &&& post.phase is Dispatching
            &&& post.code_may_be_buggy == pre.code_may_be_buggy
        },
        Directive::Finished { code_may_be_buggy } => {
            &&& post.code_may_be_buggy == (pre.code_may_be_buggy || code_may_be_buggy)
            &&& post.current == pre.current + 1
            &&& if cur + 1 < pre.agents@.len() {
                &&& post.phase is Dispatching
                &&& r matches ManagerStep::Handoff { position } && position@ == pre.agents@[cur].spec_attributes().position@
            } else {
                &&& post.phase is Done
                &&& r == ManagerStep::ProjectComplete {
                    code_may_be_buggy: post.code_may_be_buggy,
                }
            }
        },
        Directive::Aborted => {
            &&& post.phase is Aborted
            &&& post.current == pre.current
            &&& post.code_may_be_buggy == pre.code_may_be_buggy
            &&& r is ProjectAborted
        },
        Directive::Fatal(e) => {
            &&& post.phase is Failed
            &&& post.current == pre.current
            &&& post.code_may_be_buggy == pre.code_may_be_buggy
            &&& r == ManagerStep::Failure(e)
        },
    }
}

impl ManagingAgent {
    /// The manager's internal invariant: every agent it holds is
    /// well-formed, and while dispatching, `current` names one of them.
    pub open spec fn wf(self) -> bool {
        &&& forall|i: int| 0 <= i < self.agents@.len() ==> (#[trigger] self.agents@[i]).wf()
        &&& self.phase is Dispatching ==> self.current < self.agents@.len()
        &&& self.phase matches ManagerPhase::DerivingDescription(_) ==> {
            &&& self.agents@.len() == 0
            &&& self.factsheet.project_scope is None
            &&& self.factsheet.external_urls is None
            &&& self.factsheet.backend_code is None
            &&& self.factsheet.api_endpoint_schema is None
        }
    }

    /// A fresh manager. It immediately spends one task request to turn the
    /// raw user request into the normalized project description; the fact
    /// sheet starts empty until that answer arrives. The returned action is
    /// that first LLM call.
    pub fn new(user_req: &str) -> (r: (Self, Action))
        ensures
            r.0.attributes.objective@
                == "Manage agents who are building a website for an end user"@,
            r.0.attributes.position@ == "Project manager"@,
            r.0.attributes.state == AgentState::Discovery,
            r.0.attributes.memory@ == Seq::<Message>::empty(),
            r.0.phase matches ManagerPhase::DerivingDescription(tr) && request_matches(
                tr,
                "Project manager"@,
                "convert_user_input_to_goal"@,
                Capability::ConvertUserInputToGoal,
                user_req@,
            ) && r.1 == tr.call_action(true),
            r.0.agents@.len() == 0,
            r.0.factsheet.project_description@ == Seq::<char>::empty(),
            r.0.factsheet.project_scope is None,
            r.0.factsheet.external_urls is None,
            r.0.factsheet.backend_code is None,
            r.0.factsheet.api_endpoint_schema is None,
            r.0.current == 0,
            r.0.code_may_be_buggy == false,
            r.0.wf(),
    {
        let attributes = BasicAgent::new(
            String::from_str("Manage agents who are building a website for an end user"),
            String::from_str("Project manager"),
        );
        let (tr, action) = ai_task_request(
            user_req,
            attributes.position.as_str(),
            "convert_user_input_to_goal",
            Capability::ConvertUserInputToGoal,
        );
        let manager = ManagingAgent {
            attributes,
            factsheet: FactSheet::new(String::new()),
            agents: Vec::new(),
            phase: ManagerPhase::DerivingDescription(tr),
            current: 0,
            code_may_be_buggy: false,
        };
        (manager, action)
    }

    /// Appends one agent to the pipeline; nothing else changes.
    pub fn add_agent(&mut self, agent: AgentKind)
        requires
            agent.wf(),
        ensures
            final(self).agents@ == old(self).agents@.push(agent),
            final(self).attributes == old(self).attributes,
            final(self).factsheet == old(self).factsheet,
            final(self).phase == old(self).phase,
            final(self).current == old(self).current,
            final(self).code_may_be_buggy == old(self).code_may_be_buggy,
            (old(self).wf() && !(old(self).phase matches ManagerPhase::DerivingDescription(_)))
                ==> final(self).wf(),
    {
        self.agents.push(agent);
    }

    /// Builds the fixed pipeline: the solution architect first, then the
    /// backend developer.
    pub fn create_agents(&mut self)
        ensures
            final(self).agents@.len() == old(self).agents@.len() + 2,
            forall|j: int|
                0 <= j < old(self).agents@.len() ==> final(self).agents@[j] == old(
                    self,
                ).agents@[j],
            final(self).agents@[old(self).agents@.len() as int]
                matches AgentKind::SolutionArchitect(a) && a.phase is Idle,
            final(self).agents@[old(self).agents@.len() as int + 1]
                matches AgentKind::BackendDeveloper(b) && b.phase is Idle && b.bug_count == 0,
            final(self).attributes == old(self).attributes,
            final(self).factsheet == old(self).factsheet,
            final(self).phase == old(self).phase,
            final(self).current == old(self).current,
            final(self).code_may_be_buggy == old(self).code_may_be_buggy,
            (old(self).wf() && !(old(self).phase matches ManagerPhase::DerivingDescription(_)))
                ==> final(self).wf(),
    {
        self.add_agent(AgentKind::SolutionArchitect(AgentSolutionArchitect::new()));
        self.add_agent(AgentKind::BackendDeveloper(AgentBackendDeveloper::new()));
    }

    /// Runs one step of the orchestration. While the description request is
    /// in flight, its outcome is digested (with the one-retry policy);
    /// once it lands, the fact sheet is created around the derived
    /// description, the pipeline is built, and from then on every event is
    /// handed to the current agent, strictly one at a time. The fact sheet
    /// one agent leaves behind is exactly the one the next agent is handed:
    /// the manager itself never touches it while dispatching.
    pub fn execute_step(&mut self, event: Event) -> (r: ManagerStep)
        requires
            old(self).wf(),
        ensures
            final(self).wf(),
            fs_monotonic(old(self).factsheet, final(self).factsheet),
            old(self).phase matches ManagerPhase::DerivingDescription(tr) ==> event
                matches Event::LlmResponse { outcome } ==> {
                let step = crate::general::on_response_spec(tr, outcome);
                match step.1 {
                    RequestOutcome::Done(text) => {
                        &&& final(self).factsheet.project_description == text
                        &&& final(self).factsheet.project_scope is None
                        &&& final(self).factsheet.external_urls is None
                        &&& final(self).factsheet.backend_code is None
                        &&& final(self).factsheet.api_endpoint_schema is None
                        &&& final(self).attributes == old(self).attributes
                        &&& final(self).phase is Dispatching
                        &&& final(self).current == 0
                        &&& final(self).agents@.len() == 2
                        &&& final(self).agents@[0] matches AgentKind::SolutionArchitect(a)
                            && a.phase is Idle
                        &&& final(self).agents@[1] matches AgentKind::BackendDeveloper(b)
                            && b.phase is Idle
                        &&& r matches ManagerStep::Handoff { position } && position@ == old(
                            self,
                        ).attributes.position@
                    },
                    RequestOutcome::Retry(a) => {
                        &&& final(self).phase == ManagerPhase::DerivingDescription(step.0)
                        &&& r == ManagerStep::Do(a)
                        &&& final(self).factsheet == old(self).factsheet
                    },
                    RequestOutcome::Fatal(e) => {
                        &&& final(self).phase is Failed
                        &&& r == ManagerStep::Failure(FatalCallError::LlmFailedTwice(e))
                        &&& final(self).factsheet == old(self).factsheet
                    },
                }
            },
            old(self).phase is Dispatching ==> exists|d: Directive|
                #[trigger] dispatch_case(*old(self), event, *final(self), r, d),
            (old(self).phase is Done || old(self).phase is Failed || old(self).phase is Aborted)
                ==> *final(self) == *old(self) && r == ManagerStep::Failure(
                FatalCallError::UnexpectedEvent,
            ),
            (old(self).phase matches ManagerPhase::DerivingDescription(_) && !(event
                matches Event::LlmResponse { .. })) ==> final(self).phase is Failed && r
                == ManagerStep::Failure(FatalCallError::UnexpectedEvent) && final(self).factsheet
                == old(self).factsheet,
    {
        let mut phase = ManagerPhase::Failed;
        core::mem::swap(&mut phase, &mut self.phase);
        match (phase, event) {
            (ManagerPhase::DerivingDescription(mut tr), Event::LlmResponse { outcome }) => {
                let out = tr.on_response(outcome);
                match out {
                    RequestOutcome::Done(text) => {
                        self.factsheet = FactSheet::new(text);
                        self.create_agents();
                        self.current = 0;
                        self.phase = ManagerPhase::Dispatching;
                        ManagerStep::Handoff { position: self.attributes.position.clone() }
                    },
                    RequestOutcome::Retry(a) => {
                        self.phase = ManagerPhase::DerivingDescription(tr);
                        ManagerStep::Do(a)
                    },
                    RequestOutcome::Fatal(e) => {
                        self.phase = ManagerPhase::Failed;
                        ManagerStep::Failure(FatalCallError::LlmFailedTwice(e))
                    },
                }
            },
            (ManagerPhase::DerivingDescription(_), _) => {
                self.phase = ManagerPhase::Failed;
                ManagerStep::Failure(FatalCallError::UnexpectedEvent)
            },
            (ManagerPhase::Dispatching, event) => {
                self.phase = ManagerPhase::Dispatching;
                let cur = self.current;
                let d = self.agents[cur].execute_step(&mut self.factsheet, event);
                let ghost gd = d;
                let n = self.agents.len();
                let step = match d {
                    Directive::Do(a) => ManagerStep::Do(a),
                    Directive::Finished { code_may_be_buggy } => {
                        let finished_position =
                            self.agents[cur].get_attributes_from_agent().position.clone();
                        self.code_may_be_buggy = self.code_may_be_buggy || code_may_be_buggy;
                        self.current = cur + 1;
                        if self.current < n {
                            ManagerStep::Handoff { position: finished_position }
                        } else {
                            self.phase = ManagerPhase::Done;
                            ManagerStep::ProjectComplete {
                                code_may_be_buggy: self.code_may_be_buggy,
                            }
                        }
                    },
                    Directive::Aborted => {
                        self.phase = ManagerPhase::Aborted;
                        ManagerStep::ProjectAborted
                    },
                    Directive::Fatal(e) => {
                        self.phase = ManagerPhase::Failed;
                        ManagerStep::Failure(e)
                    },
                };
                proof {
                    assert(dispatch_case(*old(self), event, *self, step, gd));
                }
                step
            },
            (other, _) => {
                self.phase = other;
                ManagerStep::Failure(FatalCallError::UnexpectedEvent)
            },
        }
    }
}

/// Law (sequential visibility): the step that finishes an agent carries the
/// backend code and the project description through exactly as written —
/// and the manager itself changes nothing on the handoff — so the next
/// agent in the sequence observes the very value its predecessor wrote,
/// never a stale or partially-written one.
pub proof fn lemma_sequential_visibility(
    pre: AgentKind,
    pre_fs: FactSheet,
    event: Event,
    post: AgentKind,
    post_fs: FactSheet,
    r: Directive,
)
    requires
        kind_step_spec(pre, pre_fs, event, post, post_fs, r),
        r matches Directive::Finished { .. },
    ensures
        post_fs.backend_code == pre_fs.backend_code,
        post_fs.project_description == pre_fs.project_description,
{
}

} // verus!
