use auto_gpt::agent_backend::AgentBackendDeveloper;
use auto_gpt::agent_traits::FactSheet;
use auto_gpt::basic_agent::AgentState;
use auto_gpt::dispatch::{Action, Directive, Event, FatalCallError, StoreError, StoreKey};

fn action_of(d: Directive) -> Action {
    match d {
        Directive::Do(a) => a,
        _ => panic!("expected an action directive"),
    }
}

/// Drives a fresh backend agent up to the confirmation question: template
/// read, initial drafting call, code drafted. Returns the agent and the
/// fact sheet as they stand at that point; the draft reaches the fact sheet
/// only once it is confirmed and persisted.
fn drive_to_gate(draft: &str) -> (AgentBackendDeveloper, FactSheet) {
    let mut agent = AgentBackendDeveloper::new();
    let mut fs = FactSheet::new("a stock price api".to_string());

    let a = action_of(agent.execute_step(&mut fs, Event::Started));
    assert!(matches!(a, Action::ReadTemplate { key: StoreKey::CodeTemplate }));

    let a = action_of(agent.execute_step(
        &mut fs,
        Event::TemplateContents { outcome: Ok("template code".to_string()) },
    ));
    assert!(matches!(a, Action::CallLlm { .. }));

    let a = action_of(
        agent.execute_step(&mut fs, Event::LlmResponse { outcome: Ok(draft.to_string()) }),
    );
    assert!(matches!(a, Action::AskConfirm { .. }));
    assert!(fs.backend_code.is_none());
    (agent, fs)
}

#[test]
fn declining_the_gate_aborts_before_any_persistence() {
    // No step so far asked to persist anything (checked inside
    // drive_to_gate: the actions were a read, an LLM call and a question),
    // and the answer `2` stops the run on the spot.
    let (mut agent, mut fs) = drive_to_gate("draft code");
    let d = agent.execute_step(&mut fs, Event::ConfirmAnswer { input: "2".to_string() });
    assert!(matches!(d, Directive::Aborted));
    // The fact sheet is exactly as it was: nothing persisted, nothing written.
    assert!(fs.backend_code.is_none());
    assert!(fs.api_endpoint_schema.is_none());
}

#[test]
fn unrecognized_gate_answer_asks_again() {
    let (mut agent, mut fs) = drive_to_gate("draft code");
    let a = action_of(agent.execute_step(&mut fs, Event::ConfirmAnswer { input: "maybe".to_string() }));
    assert!(matches!(a, Action::AskConfirm { .. }));
    // The question is asked again, and a `1` now persists the draft.
    let a = action_of(agent.execute_step(&mut fs, Event::ConfirmAnswer { input: "1".to_string() }));
    match a {
        Action::PersistArtifact { key: StoreKey::ExecMain, contents } => {
            assert_eq!(contents, "draft code".to_string());
        }
        _ => panic!("expected the approved draft to be persisted"),
    }
}

#[test]
fn bug_fix_loop_stops_at_the_cap_and_reports() {
    let (mut agent, mut fs) = drive_to_gate("draft code");

    // Confirm the drafted code and run the improvement pass.
    let a = action_of(agent.execute_step(&mut fs, Event::ConfirmAnswer { input: "1".to_string() }));
    assert!(matches!(a, Action::PersistArtifact { .. }));
    let a = action_of(agent.execute_step(&mut fs, Event::Persisted { outcome: Ok(()) }));
    assert!(matches!(a, Action::CallLlm { .. }));
    let a = action_of(
        agent.execute_step(&mut fs, Event::LlmResponse { outcome: Ok("improved code".to_string()) }),
    );
    assert!(matches!(a, Action::PersistArtifact { .. }));
    let a = action_of(agent.execute_step(&mut fs, Event::Persisted { outcome: Ok(()) }));
    assert!(matches!(a, Action::CheckCode { .. }));
    assert_eq!(agent.get_attributes_from_agent().state, AgentState::UnitTesting);

    // Two failing checks spend the two allowed fix requests.
    let mut fix_calls: usize = 0;
    for errors in ["first error", "second error"] {
        let a = action_of(agent.execute_step(
            &mut fs,
            Event::CodeChecked { bug_errors: Some(errors.to_string()) },
        ));
        match a {
            Action::CallLlm { agent_operation, .. } => {
                assert_eq!(agent_operation, "print_fixed_code".to_string());
                fix_calls += 1;
            }
            _ => panic!("expected a fix request"),
        }
        let a = action_of(
            agent.execute_step(&mut fs, Event::LlmResponse { outcome: Ok("fixed code".to_string()) }),
        );
        assert!(matches!(a, Action::PersistArtifact { .. }));
        let a = action_of(agent.execute_step(&mut fs, Event::Persisted { outcome: Ok(()) }));
        assert!(matches!(a, Action::CheckCode { .. }));
    }
    assert_eq!(fix_calls, 2);

    // A third failing check does not fix again: the loop exits and the
    // still-buggy condition is carried to the report.
    let a = action_of(agent.execute_step(
        &mut fs,
        Event::CodeChecked { bug_errors: Some("third error".to_string()) },
    ));
    assert!(matches!(a, Action::ReadTemplate { key: StoreKey::ExecMain }));

    // Extraction still runs, and the run completes flagged as possibly buggy.
    let a = action_of(agent.execute_step(
        &mut fs,
        Event::TemplateContents { outcome: Ok("fixed code".to_string()) },
    ));
    assert!(matches!(a, Action::CallLlm { .. }));
    let schema = "[{\"path\": \"/stock\", \"method\": \"GET\"}]";
    let a = action_of(
        agent.execute_step(&mut fs, Event::LlmResponse { outcome: Ok(schema.to_string()) }),
    );
    assert!(matches!(a, Action::PersistArtifact { key: StoreKey::ApiSchema, .. }));
    let d = agent.execute_step(&mut fs, Event::Persisted { outcome: Ok(()) });
    match d {
        Directive::Finished { code_may_be_buggy } => assert!(code_may_be_buggy),
        _ => panic!("expected the agent to finish"),
    }
    assert_eq!(fs.api_endpoint_schema, Some(schema.to_string()));
}

#[test]
fn malformed_extraction_output_is_fatal() {
    let (mut agent, mut fs) = drive_to_gate("draft code");
    let _ = agent.execute_step(&mut fs, Event::ConfirmAnswer { input: "1".to_string() });
    let _ = agent.execute_step(&mut fs, Event::Persisted { outcome: Ok(()) });
    let _ = agent.execute_step(&mut fs, Event::LlmResponse { outcome: Ok("improved".to_string()) });
    let _ = agent.execute_step(&mut fs, Event::Persisted { outcome: Ok(()) });
    let _ = agent.execute_step(&mut fs, Event::CodeChecked { bug_errors: None });
    let _ = agent.execute_step(
        &mut fs,
        Event::TemplateContents { outcome: Ok("improved".to_string()) },
    );
    let d = agent.execute_step(
        &mut fs,
        Event::LlmResponse { outcome: Ok("no json here".to_string()) },
    );
    assert!(matches!(
        d,
        Directive::Fatal(auto_gpt::dispatch::FatalCallError::DecodeFailed)
    ));
}

#[test]
fn persistence_failure_is_surfaced_before_the_sheet_write() {
    let (mut agent, mut fs) = drive_to_gate("draft code");
    let a = action_of(agent.execute_step(&mut fs, Event::ConfirmAnswer { input: "1".to_string() }));
    assert!(matches!(a, Action::PersistArtifact { .. }));
    // The draft is persisted first; the sheet is written only on success.
    assert!(fs.backend_code.is_none());
    let d = agent.execute_step(&mut fs, Event::Persisted { outcome: Err(StoreError::Io) });
    assert!(matches!(d, Directive::Fatal(FatalCallError::StoreFailed(StoreError::Io))));
    assert!(fs.backend_code.is_none());
}

#[test]
fn successful_persist_writes_the_sheet() {
    let (mut agent, mut fs) = drive_to_gate("draft code");
    let _ = agent.execute_step(&mut fs, Event::ConfirmAnswer { input: "1".to_string() });
    let a = action_of(agent.execute_step(&mut fs, Event::Persisted { outcome: Ok(()) }));
    assert!(matches!(a, Action::CallLlm { .. }));
    assert_eq!(fs.backend_code, Some("draft code".to_string()));
}
