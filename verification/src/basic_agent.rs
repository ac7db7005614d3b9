//! The state and memory every concrete agent carries: an objective, a role
//! label, a lifecycle state that never regresses, and an append-only
//! conversation memory.

use vstd::prelude::*;
use crate::llm::Message;

verus! {

/// An agent's lifecycle state. It starts at `Discovery` and only ever moves
/// forward.
#[derive(Clone, Copy, Debug, PartialEq, Eq, Structural)]
pub enum AgentState {
    Discovery,
    Working,
    UnitTesting,
    Done,
}

/// The position of a lifecycle state in the forward-only order.
pub open spec fn state_rank(s: AgentState) -> int {
    match s {
        AgentState::Discovery => 0,
        AgentState::Working => 1,
        AgentState::UnitTesting => 2,
        AgentState::Done => 3,
    }
}

/// Identity, objective, lifecycle state and conversation memory shared by
/// every concrete agent.
#[derive(Debug)]
pub struct BasicAgent {
    pub objective: String,
    pub position: String,
    pub state: AgentState,
    pub memory: Vec<Message>,
}

impl BasicAgent {
    /// A fresh agent record: the given labels, state `Discovery`, empty
    /// memory.
    pub fn new(objective: String, position: String) -> (r: BasicAgent)
        ensures
            r.objective == objective,
            r.position == position,
            r.state == AgentState::Discovery,
            r.memory@ == Seq::<Message>::empty(),
    {
        BasicAgent { objective, position, state: AgentState::Discovery, memory: Vec::new() }
    }

    /// Moves the lifecycle state forward. The state never regresses, so the
    /// new state must rank at least as high as the current one.
    pub fn update_state(&mut self, new_state: AgentState)
        requires
            state_rank(new_state) >= state_rank(old(self).state),
        ensures
            final(self).state == new_state,
            final(self).objective == old(self).objective,
            final(self).position == old(self).position,
            final(self).memory == old(self).memory,
            state_rank(final(self).state) >= state_rank(old(self).state),
    {
        self.state = new_state;
    }

    /// Appends one message to the conversation memory; nothing already
    /// remembered is touched.
    pub fn push_memory(&mut self, message: Message)
        ensures
            final(self).memory@ == old(self).memory@.push(message),
            final(self).state == old(self).state,
            final(self).objective == old(self).objective,
            final(self).position == old(self).position,
    {
        self.memory.push(message);
    }
}

} // verus!
