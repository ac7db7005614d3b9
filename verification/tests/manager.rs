use auto_gpt::dispatch::{Action, Event, FatalCallError, StoreKey};
use auto_gpt::llm::LlmError;
use auto_gpt::managing_agent::{ManagerStep, ManagingAgent};
use auto_gpt::schema::parse_route_schema;

fn step_action(m: &mut ManagingAgent, event: Event) -> Action {
    match m.execute_step(event) {
        ManagerStep::Do(a) => a,
        _ => panic!("expected an action from the manager"),
    }
}

#[test]
fn tests_managing_agent() {
    let user_request = "Need a full stack app that fetched and tracks my fitness progress.
     Needs to include timezone";

    let (mut managing_agent, first_action) = ManagingAgent::new(user_request);
    assert!(matches!(first_action, Action::CallLlm { .. }));

    let step = managing_agent.execute_step(Event::LlmResponse {
        outcome: Ok("A fitness tracking app with timezone support".to_string()),
    });
    assert!(matches!(step, ManagerStep::Handoff { .. }));
    assert_eq!(
        managing_agent.factsheet.project_description,
        "A fitness tracking app with timezone support".to_string()
    );
}

#[test]
fn stock_price_api_run_extracts_routes_from_the_persisted_code() {
    let (mut mgr, first_action) = ManagingAgent::new("Build a stock price API");
    match first_action {
        Action::CallLlm { agent_position, .. } => {
            assert_eq!(agent_position, "Project manager".to_string());
        }
        _ => panic!("expected the description request"),
    }

    // The description lands; the pipeline is built.
    let step = mgr.execute_step(Event::LlmResponse {
        outcome: Ok("A REST backend serving stock prices".to_string()),
    });
    assert!(matches!(step, ManagerStep::Handoff { .. }));
    assert_eq!(mgr.factsheet.project_description, "A REST backend serving stock prices".to_string());

    // Solutions architect: one scoping call, scope recorded.
    let a = step_action(&mut mgr, Event::Started);
    match a {
        Action::CallLlm { agent_position, message, .. } => {
            assert_eq!(agent_position, "Solutions Architect".to_string());
            assert!(message.content.contains("A REST backend serving stock prices"));
        }
        _ => panic!("expected the scoping request"),
    }
    let scope = "{\"is_crud_required\": true, \"is_user_login_and_logout\": false, \
                  \"is_external_urls_required\": false}";
    let step = mgr.execute_step(Event::LlmResponse { outcome: Ok(scope.to_string()) });
    match step {
        ManagerStep::Handoff { position } => {
            assert_eq!(position, "Solutions Architect".to_string());
        }
        _ => panic!("expected the handoff to the backend developer"),
    }
    assert!(mgr.factsheet.project_scope.is_some());

    // Backend developer: template, draft, gate, persist, improve.
    let a = step_action(&mut mgr, Event::Started);
    assert!(matches!(a, Action::ReadTemplate { key: StoreKey::CodeTemplate }));
    let a = step_action(
        &mut mgr,
        Event::TemplateContents { outcome: Ok("template code".to_string()) },
    );
    assert!(matches!(a, Action::CallLlm { .. }));
    let a = step_action(
        &mut mgr,
        Event::LlmResponse { outcome: Ok("the code string".to_string()) },
    );
    assert!(matches!(a, Action::AskConfirm { .. }));
    let a = step_action(&mut mgr, Event::ConfirmAnswer { input: "1".to_string() });
    assert!(matches!(a, Action::PersistArtifact { key: StoreKey::ExecMain, .. }));

    // Sequential visibility: the improvement request's context carries what
    // the architect wrote (the scope) and what this agent wrote (the code).
    let a = step_action(&mut mgr, Event::Persisted { outcome: Ok(()) });
    match a {
        Action::CallLlm { message, .. } => {
            assert!(message.content.contains("the code string"));
            assert!(message.content.contains("crud: true"));
        }
        _ => panic!("expected the improvement request"),
    }
    let a = step_action(
        &mut mgr,
        Event::LlmResponse { outcome: Ok("the improved code string".to_string()) },
    );
    assert!(matches!(a, Action::PersistArtifact { .. }));
    let a = step_action(&mut mgr, Event::Persisted { outcome: Ok(()) });
    assert!(matches!(a, Action::CheckCode { .. }));

    // The check is clean; extraction reads the persisted code back.
    let a = step_action(&mut mgr, Event::CodeChecked { bug_errors: None });
    assert!(matches!(a, Action::ReadTemplate { key: StoreKey::ExecMain }));
    let a = step_action(
        &mut mgr,
        Event::TemplateContents { outcome: Ok("the improved code string".to_string()) },
    );
    match a {
        Action::CallLlm { message, .. } => {
            // The extraction request speaks of the code as persisted.
            assert!(message.content.contains("the improved code string"));
        }
        _ => panic!("expected the extraction request"),
    }
    let schema = "[{\"path\": \"/stock\", \"method\": \"GET\"}]";
    let a = step_action(&mut mgr, Event::LlmResponse { outcome: Ok(schema.to_string()) });
    match a {
        Action::PersistArtifact { key: StoreKey::ApiSchema, contents } => {
            assert_eq!(contents, schema.to_string());
        }
        _ => panic!("expected the schema to be persisted"),
    }
    let step = mgr.execute_step(Event::Persisted { outcome: Ok(()) });
    match step {
        ManagerStep::ProjectComplete { code_may_be_buggy } => assert!(!code_may_be_buggy),
        _ => panic!("expected the run to complete"),
    }

    // The fact sheet holds the schema, and it decodes to at least one route
    // with a path and a method.
    let stored = mgr.factsheet.api_endpoint_schema.clone().expect("schema recorded");
    let routes = parse_route_schema(&stored).expect("stored schema decodes");
    assert!(routes.len() >= 1);
    assert_eq!(routes[0].path, "/stock".to_string());
    assert_eq!(routes[0].method, "GET".to_string());
    assert_eq!(mgr.factsheet.backend_code, Some("the improved code string".to_string()));
}

#[test]
fn declining_the_gate_aborts_the_whole_run() {
    let (mut mgr, _) = ManagingAgent::new("Build a stock price API");
    let _ = mgr.execute_step(Event::LlmResponse { outcome: Ok("a stock api".to_string()) });
    let a = step_action(&mut mgr, Event::Started);
    assert!(matches!(a, Action::CallLlm { .. }));
    let scope = "{\"is_crud_required\": false, \"is_user_login_and_logout\": false, \
                  \"is_external_urls_required\": false}";
    let _ = mgr.execute_step(Event::LlmResponse { outcome: Ok(scope.to_string()) });
    let _ = step_action(&mut mgr, Event::Started);
    let _ = step_action(
        &mut mgr,
        Event::TemplateContents { outcome: Ok("template code".to_string()) },
    );
    let a = step_action(&mut mgr, Event::LlmResponse { outcome: Ok("draft".to_string()) });
    assert!(matches!(a, Action::AskConfirm { .. }));

    // Input `2` at the confirmation question: the run is aborted, and no
    // persist action was ever issued (every action so far was a read, a
    // call or a question).
    let step = mgr.execute_step(Event::ConfirmAnswer { input: "2".to_string() });
    assert!(matches!(step, ManagerStep::ProjectAborted));
    assert!(mgr.factsheet.api_endpoint_schema.is_none());
}

#[test]
fn description_request_retries_once_then_fails() {
    let (mut mgr, _) = ManagingAgent::new("Build a stock price API");
    let step = mgr.execute_step(Event::LlmResponse { outcome: Err(LlmError::Transport) });
    assert!(matches!(step, ManagerStep::Do(Action::CallLlm { .. })));
    let step = mgr.execute_step(Event::LlmResponse { outcome: Err(LlmError::Transport) });
    assert!(matches!(
        step,
        ManagerStep::Failure(FatalCallError::LlmFailedTwice(LlmError::Transport))
    ));
}
