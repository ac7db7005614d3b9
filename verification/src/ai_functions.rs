//! Named capabilities: pure prompt templates describing the output the LLM
//! is asked to print. Each capability maps to a fixed description string, so
//! binding a capability is deterministic.

use vstd::prelude::*;

verus! {

/// A named, pure prompt-template function. Passing a capability around is
/// the library's stand-in for passing prompt-template functions as values.
#[derive(Clone, Copy, Debug, PartialEq, Eq, Structural)]
pub enum Capability {
    ConvertUserInputToGoal,
    PrintProjectScope,
    PrintBackendWebserverCode,
    PrintImprovedWebserverCode,
    PrintFixedCode,
    PrintRestApiEndpoints,
}

/// The fixed description text of each capability.
pub open spec fn describe_spec(c: Capability) -> Seq<char> {
    match c {
        Capability::ConvertUserInputToGoal => "convert_user_input_to_goal: takes a user request and returns a concise project goal"@,
        Capability::PrintProjectScope => "print_project_scope: takes a project description and returns a json object of boolean scope flags"@,
        Capability::PrintBackendWebserverCode => "print_backend_webserver_code: takes a code template and a project description and returns complete webserver code"@,
        Capability::PrintImprovedWebserverCode => "print_improved_webserver_code: takes current code and the full fact sheet and returns improved webserver code"@,
        Capability::PrintFixedCode => "print_fixed_code: takes broken code and error output and returns corrected code"@,
        Capability::PrintRestApiEndpoints => "print_rest_api_endpoints: takes webserver code and returns a json list of route objects"@,
    }
}

impl Capability {
    /// The capability's description: fixed text, a pure function of the
    /// capability name alone.
    pub fn describe(&self) -> (r: &'static str)
        ensures
            r@ == describe_spec(*self),
    {
        match self {
            Capability::ConvertUserInputToGoal => "convert_user_input_to_goal: takes a user request and returns a concise project goal",
            Capability::PrintProjectScope => "print_project_scope: takes a project description and returns a json object of boolean scope flags",
            Capability::PrintBackendWebserverCode => "print_backend_webserver_code: takes a code template and a project description and returns complete webserver code",
            Capability::PrintImprovedWebserverCode => "print_improved_webserver_code: takes current code and the full fact sheet and returns improved webserver code",
            Capability::PrintFixedCode => "print_fixed_code: takes broken code and error output and returns corrected code",
            Capability::PrintRestApiEndpoints => "print_rest_api_endpoints: takes webserver code and returns a json list of route objects",
        }
    }
}

} // verus!
