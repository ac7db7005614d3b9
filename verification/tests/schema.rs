use auto_gpt::schema::{parse_project_scope, parse_route_schema, routes_from_maps};

#[test]
fn route_schema_decodes_path_and_method() {
    let text = "[{\"path\": \"/stock\", \"method\": \"GET\"}, \
                 {\"path\": \"/stock/history\", \"method\": \"POST\"}]";
    let routes = parse_route_schema(text).expect("well-formed schema decodes");
    assert_eq!(routes.len(), 2);
    assert_eq!(routes[0].path, "/stock".to_string());
    assert_eq!(routes[0].method, "GET".to_string());
    assert_eq!(routes[1].path, "/stock/history".to_string());
    assert_eq!(routes[1].method, "POST".to_string());
}

#[test]
fn route_schema_rejects_malformed_text() {
    assert!(parse_route_schema("this is not json").is_none());
    assert!(parse_route_schema("{\"path\": \"/a\"}").is_none());
}

#[test]
fn route_schema_rejects_missing_fields() {
    assert!(parse_route_schema("[{\"path\": \"/stock\"}]").is_none());
    assert!(parse_route_schema("[{\"method\": \"GET\"}]").is_none());
}

#[test]
fn route_extraction_takes_the_first_match() {
    let maps = vec![vec![
        ("method".to_string(), "GET".to_string()),
        ("path".to_string(), "/first".to_string()),
        ("path".to_string(), "/second".to_string()),
    ]];
    let routes = routes_from_maps(&maps).expect("both keys are present");
    assert_eq!(routes[0].path, "/first".to_string());
    assert_eq!(routes[0].method, "GET".to_string());
}

#[test]
fn project_scope_decodes_all_three_flags() {
    let text = "{\"is_crud_required\": true, \"is_user_login_and_logout\": false, \
                 \"is_external_urls_required\": true}";
    let scope = parse_project_scope(text).expect("well-formed scope decodes");
    assert!(scope.is_crud_required);
    assert!(!scope.is_user_login_and_logout);
    assert!(scope.is_external_urls_required);
}

#[test]
fn project_scope_rejects_missing_flags() {
    assert!(parse_project_scope("{\"is_crud_required\": true}").is_none());
    assert!(parse_project_scope("not json at all").is_none());
}
