use auto_gpt::ai_functions::Capability;
use auto_gpt::dispatch::Action;
use auto_gpt::general::{ai_task_request, extend_ai_function, RequestOutcome};
use auto_gpt::llm::{LlmError, Role};

#[test]
fn tests_extending_ai_function() {
    let extended_msg = extend_ai_function(Capability::ConvertUserInputToGoal, "dummy variable");
    assert_eq!(extended_msg.role, Role::System);
}

#[test]
fn tests_ai_task_request() {
    let ai_func_param: String =
        "Build me a webserver for making stock price api requests.".to_string();

    let (request, action) = ai_task_request(
        &ai_func_param,
        "Managing agent",
        "Defining user requirements",
        Capability::ConvertUserInputToGoal,
    );

    assert_eq!(request.position, "Managing agent".to_string());
    assert_eq!(request.operation, "Defining user requirements".to_string());
    assert_eq!(request.attempts, 1);
    match action {
        Action::CallLlm { agent_position, agent_operation, message, announce } => {
            assert_eq!(agent_position, "Managing agent".to_string());
            assert_eq!(agent_operation, "Defining user requirements".to_string());
            assert_eq!(message.content, request.message.content);
            assert!(announce);
        }
        _ => panic!("expected an LLM call action"),
    }
}

#[test]
fn binder_is_deterministic() {
    let a = extend_ai_function(Capability::PrintBackendWebserverCode, "some input");
    let b = extend_ai_function(Capability::PrintBackendWebserverCode, "some input");
    assert_eq!(a.content, b.content);
    assert_eq!(a.role, b.role);
}

#[test]
fn binder_content_is_the_fixed_template() {
    let msg = extend_ai_function(Capability::ConvertUserInputToGoal, "dummy variable");
    let expected = "FUNCTION: convert_user_input_to_goal: takes a user request and returns \
                    a concise project goal INSTRUCTION: act purely as a printer of this \
                    function's result, no commentary. INPUT: dummy variable Print only the result.";
    assert_eq!(msg.content, expected.to_string());
}

#[test]
fn retry_happens_exactly_once_then_succeeds() {
    let (mut request, first_action) =
        ai_task_request("ctx", "Backend Developer", "print_fixed_code", Capability::PrintFixedCode);
    let first_message = match first_action {
        Action::CallLlm { message, .. } => message,
        _ => panic!("expected an LLM call action"),
    };

    // First call fails: the requester asks for one retry with the identical
    // payload, and the status line is not announced a second time.
    let out = request.on_response(Err(LlmError::Transport));
    match out {
        RequestOutcome::Retry(Action::CallLlm { message, announce, .. }) => {
            assert_eq!(message.content, first_message.content);
            assert!(!announce);
        }
        _ => panic!("expected a retry"),
    }
    assert_eq!(request.attempts, 2);

    // Second call succeeds: its text is returned as is.
    let out = request.on_response(Ok("the second answer".to_string()));
    match out {
        RequestOutcome::Done(text) => assert_eq!(text, "the second answer".to_string()),
        _ => panic!("expected the second call's result"),
    }
}

#[test]
fn retry_failing_twice_is_fatal() {
    let (mut request, _) =
        ai_task_request("ctx", "Backend Developer", "print_fixed_code", Capability::PrintFixedCode);

    let out = request.on_response(Err(LlmError::Auth));
    assert!(matches!(out, RequestOutcome::Retry(_)));

    // The second failure is fatal; no third call is requested.
    let out = request.on_response(Err(LlmError::MalformedResponse));
    match out {
        RequestOutcome::Fatal(e) => assert_eq!(e, LlmError::MalformedResponse),
        _ => panic!("expected a fatal outcome, not a third attempt"),
    }
    assert_eq!(request.attempts, 2);
}
