use auto_gpt::agent_traits::{render_fact_sheet, FactSheet, ProjectScope};
use auto_gpt::command_line::{Confirmation, PrintCommand, StatementColor};

#[test]
fn fact_sheet_fields_never_go_back_to_absent() {
    let mut fs = FactSheet::new("a stock api".to_string());
    assert!(fs.backend_code.is_none());

    fs.record_scope(ProjectScope {
        is_crud_required: true,
        is_user_login_and_logout: false,
        is_external_urls_required: false,
    });
    fs.record_backend_code("fn main() {}".to_string());
    fs.record_api_endpoint_schema("[]".to_string());

    // Overwrites keep every field present.
    fs.record_backend_code("fn main() { /* better */ }".to_string());
    assert!(fs.project_scope.is_some());
    assert_eq!(fs.backend_code, Some("fn main() { /* better */ }".to_string()));
    assert_eq!(fs.api_endpoint_schema, Some("[]".to_string()));
    assert_eq!(fs.project_description, "a stock api".to_string());
}

#[test]
fn confirmation_answers_are_normalized() {
    assert_eq!(auto_gpt::command_line::interpret_confirmation("1"), Confirmation::Approved);
    assert_eq!(auto_gpt::command_line::interpret_confirmation(" OK "), Confirmation::Approved);
    assert_eq!(auto_gpt::command_line::interpret_confirmation("Y"), Confirmation::Approved);
    assert_eq!(auto_gpt::command_line::interpret_confirmation("2"), Confirmation::Rejected);
    assert_eq!(auto_gpt::command_line::interpret_confirmation("No"), Confirmation::Rejected);
    assert_eq!(auto_gpt::command_line::interpret_confirmation("  n"), Confirmation::Rejected);
    assert_eq!(auto_gpt::command_line::interpret_confirmation("maybe"), Confirmation::Unrecognized);
    assert_eq!(auto_gpt::command_line::interpret_confirmation(""), Confirmation::Unrecognized);
}

#[test]
fn statement_colors_follow_the_print_command() {
    assert_eq!(PrintCommand::AICall.statement_color(), StatementColor::Cyan);
    assert_eq!(PrintCommand::UnitTest.statement_color(), StatementColor::Magenta);
    assert_eq!(PrintCommand::Issue.statement_color(), StatementColor::Red);
}

#[test]
fn rendered_fact_sheet_lists_every_field() {
    let mut fs = FactSheet::new("a stock api".to_string());
    let rendered = render_fact_sheet(&fs);
    assert_eq!(
        rendered,
        "PROJECT DESCRIPTION: a stock api PROJECT SCOPE: absent EXTERNAL URLS: absent \
         BACKEND CODE: absent API ENDPOINT SCHEMA: absent"
            .to_string()
    );

    fs.record_scope(ProjectScope {
        is_crud_required: true,
        is_user_login_and_logout: false,
        is_external_urls_required: true,
    });
    fs.record_external_urls(vec!["https://example.com/a".to_string(), "https://example.com/b".to_string()]);
    fs.record_backend_code("code".to_string());
    let rendered = render_fact_sheet(&fs);
    assert!(rendered.contains("crud: true, login: false, external urls: true"));
    assert!(rendered.contains("EXTERNAL URLS: https://example.com/a, https://example.com/b"));
    assert!(rendered.contains("BACKEND CODE: code"));
}
