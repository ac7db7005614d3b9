//! Messages exchanged with the LLM and the errors its transport can raise.

use vstd::prelude::*;

verus! {

/// The role a message plays in an LLM conversation.
#[derive(Clone, Copy, Debug, PartialEq, Eq, Structural)]
pub enum Role {
    System,
    User,
    Assistant,
}

/// One unit of LLM conversation. Immutable once constructed.
#[derive(Debug)]
pub struct Message {
    pub role: Role,
    pub content: String,
}

impl Clone for Message {
    /// Cloning a message keeps its role and its exact content.
    fn clone(&self) -> (r: Self)
        ensures
            r == *self,
    {
        Message { role: self.role, content: self.content.clone() }
    }
}

/// The ways the LLM completion capability can fail. All three are treated
/// alike by the retry policy: retryable once, then fatal.
#[derive(Clone, Copy, Debug, PartialEq, Eq, Structural)]
pub enum LlmError {
    Transport,
    Auth,
    MalformedResponse,
}

} // verus!
