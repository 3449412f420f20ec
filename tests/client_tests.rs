use apiary::client::has_distinct_keys;
use apiary::output::{json_style, JsonStyle};
use apiary::paths::{plan_operation, Operation};
use apiary::client::{ClientError, HoneycombClient, HttpMethod, ResponseBody};
use apiary::errors::{environment_not_found, parse_api_error, ApiaryError, JsonField};
use apiary::output::{render_json, OutputFormat};
use apiary::paths::{
    collection_path, deletion_message, effective_team, environment_listed, item_path,
    plan_board_listing, plan_listing, require_valid_environment, team_or_default, validate_environment,
    EnvironmentEntry, Resource,
};

fn s(v: &str) -> String {
    v.to_string()
}

#[test]
fn client_defaults_to_public_api() {
    let c = HoneycombClient::new(None, None, None);
    assert_eq!(c.url_for("/1/datasets"), "https://api.honeycomb.io/1/datasets");
    let c = HoneycombClient::new(None, None, Some(s("http://127.0.0.1:9")));
    assert_eq!(c.url_for("/1/auth"), "http://127.0.0.1:9/1/auth");
}

#[test]
fn v2_paths_are_recognised() {
    let c = HoneycombClient::new(None, None, None);
    assert!(c.is_v2_endpoint("/2/teams/x/environments"));
    assert!(!c.is_v2_endpoint("/1/datasets"));
    assert!(!c.is_v2_endpoint("/2"));
}

#[test]
fn key_choice_follows_path() {
    let c = HoneycombClient::new(Some(s("mgmt")), Some(s("conf")), None);
    assert_eq!(c.get_key_for_endpoint("/2/auth"), Some("mgmt"));
    assert_eq!(c.get_key_for_endpoint("/1/auth"), Some("conf"));
    assert!(c.has_management_key());
    assert!(c.has_config_key());
    let none = HoneycombClient::new(None, None, None);
    assert_eq!(none.get_key_for_endpoint("/2/auth"), None);
    assert!(!none.has_management_key());
    assert!(!none.has_config_key());
}

#[test]
fn v2_request_uses_bearer_management_key() {
    let c = HoneycombClient::new(Some(s("id:secret")), Some(s("conf")), None);
    let req = c.request(HttpMethod::Get, "/2/teams/t/environments", Vec::new(), None).unwrap();
    assert_eq!(req.url, "https://api.honeycomb.io/2/teams/t/environments");
    assert_eq!(req.method, HttpMethod::Get);
    assert_eq!(req.headers[0].name, "Authorization");
    assert_eq!(req.headers[0].value, "Bearer id:secret");
    assert_eq!(req.headers[1].name, "Content-Type");
    assert_eq!(req.headers[1].value, "application/json");
}

#[test]
fn v1_request_uses_team_header() {
    let c = HoneycombClient::new(None, Some(s("conf")), None);
    let body: serde_json::Value = serde_json::from_str("{\"message\":\"deploy\"}").unwrap();
    let query = vec![(s("environment"), s("prod"))];
    let req = c.request(HttpMethod::Post, "/1/markers/ds", query.clone(), Some(body.clone())).unwrap();
    assert_eq!(req.headers[0].name, "X-Honeycomb-Team");
    assert_eq!(req.headers[0].value, "conf");
    assert_eq!(req.query, query);
    assert_eq!(req.body, Some(body));
}

#[test]
fn missing_keys_are_reported() {
    let c = HoneycombClient::new(None, None, None);
    let e = c.request(HttpMethod::Get, "/2/auth", Vec::new(), None).unwrap_err();
    assert_eq!(
        e.to_string(),
        "v2 endpoint '/2/auth' requires a Management Key.\nSet HONEYCOMB_MANAGEMENT_API_KEY_ID and HONEYCOMB_MANAGEMENT_API_KEY environment variables."
    );
    let e = c.request(HttpMethod::Delete, "/1/datasets", Vec::new(), None).unwrap_err();
    assert!(matches!(e, ClientError::MissingConfigKey { .. }));
    assert_eq!(
        e.to_string(),
        "v1 endpoint '/1/datasets' requires a Configuration Key.\nSet HONEYCOMB_CONFIGURATION_API_KEY environment variable."
    );
}

#[test]
fn failed_status_carries_reason_and_body() {
    let c = HoneycombClient::new(None, Some(s("k")), None);
    let e = c.handle_response(404, s("{\"error\":\"Dataset not found\"}")).unwrap_err();
    assert_eq!(e.to_string(), "Request failed with status 404 Not Found: {\"error\":\"Dataset not found\"}");
    let e = c.handle_response(429, s("slow down")).unwrap_err();
    assert_eq!(e.to_string(), "Request failed with status 429 Too Many Requests: slow down");
    let e = c.handle_delete_response(500, s("boom")).unwrap_err();
    assert_eq!(e.to_string(), "Request failed with status 500 Internal Server Error: boom");
    assert!(c.handle_delete_response(204, s("")).is_ok());
}

#[test]
fn successful_bodies() {
    let c = HoneycombClient::new(None, Some(s("k")), None);
    assert!(matches!(c.handle_response(200, s("")), Ok(ResponseBody::Empty)));
    match c.handle_response(200, s("{\"name\":\"x\"}")) {
        Ok(ResponseBody::Json(v)) => assert_eq!(v["name"], "x"),
        _ => panic!("expected JSON"),
    }
    let e = c.handle_response(201, s("not json")).unwrap_err();
    assert_eq!(e.to_string(), "Failed to parse JSON response: not json");
}

#[test]
fn send_failure_message() {
    let e = ClientError::SendFailed { url: s("http://x/1/datasets") };
    assert_eq!(e.to_string(), "Failed to send request to http://x/1/datasets");
}

#[test]
fn output_format_names() {
    assert_eq!(OutputFormat::from_str("json"), Ok(OutputFormat::Json));
    assert_eq!(OutputFormat::from_str("PRETTY"), Ok(OutputFormat::Pretty));
    assert_eq!(OutputFormat::from_str("Table"), Ok(OutputFormat::Table));
    assert_eq!(OutputFormat::from_str("xml"), Err(s("Invalid output format. Use: json, pretty, or table")));
    assert_eq!(OutputFormat::from_lowercase("TABLE"), Err(s("Invalid output format. Use: json, pretty, or table")));
}

#[test]
fn json_rendering() {
    let v: serde_json::Value = serde_json::from_str("{\"a\":1}").unwrap();
    assert_eq!(render_json(OutputFormat::Json, &v).unwrap(), "{\"a\":1}");
    assert_eq!(render_json(OutputFormat::Pretty, &v).unwrap(), "{\n  \"a\": 1\n}");
    assert_eq!(render_json(OutputFormat::Table, &v).unwrap(), "{\n  \"a\": 1\n}");
}

#[test]
fn error_messages() {
    assert_eq!(
        ApiaryError::AuthenticationRequired(s("/2/auth")).to_string(),
        "Authentication required for endpoint '/2/auth'. Please set appropriate API keys."
    );
    assert_eq!(
        ApiaryError::NotFound { resource: s("Dataset"), identifier: s("web") }.to_string(),
        "Dataset 'web' not found"
    );
    assert_eq!(ApiaryError::ValidationError(s("bad")).to_string(), "Validation error: bad");
    assert_eq!(ApiaryError::ApiError { status: 503, message: s("down") }.to_string(), "API error (503): down");
    assert_eq!(ApiaryError::ConfigError(s("x")).to_string(), "Configuration error: x");
}

#[test]
fn api_error_message_selection() {
    let e = parse_api_error(404, JsonField::Text(s("Dataset not found")), JsonField::Text(s("other")));
    assert_eq!(e.to_string(), "API error (404): Dataset not found");
    let e = parse_api_error(401, JsonField::Absent, JsonField::Text(s("Invalid API key")));
    assert_eq!(e.to_string(), "API error (401): Invalid API key");
    let e = parse_api_error(500, JsonField::Other, JsonField::Text(s("ignored")));
    assert_eq!(e.to_string(), "API error (500): Unknown error");
    let e = parse_api_error(500, JsonField::Absent, JsonField::Absent);
    assert_eq!(e.to_string(), "API error (500): Unknown error");
}

#[test]
fn environment_not_found_text() {
    assert_eq!(
        environment_not_found("invalid-env", "test-team"),
        "Environment 'invalid-env' not found in team 'test-team'. Use 'apiary environments list --team test-team' to see available environments."
    );
}

#[test]
fn resource_paths() {
    assert_eq!(collection_path(Resource::Datasets, "ignored"), "/1/datasets");
    assert_eq!(collection_path(Resource::Columns, "test-dataset"), "/1/columns/test-dataset");
    assert_eq!(collection_path(Resource::CalculatedFields, "ds"), "/1/derived_columns/ds");
    assert_eq!(collection_path(Resource::Environments, "test-team"), "/2/teams/test-team/environments");
    assert_eq!(item_path(Resource::Triggers, "test-dataset", "t1"), "/1/triggers/test-dataset/t1");
    assert_eq!(item_path(Resource::Boards, "", "b1"), "/1/boards/b1");
    assert_eq!(item_path(Resource::Environments, "team", "e1"), "/2/teams/team/environments/e1");
}

#[test]
fn deletion_messages() {
    assert_eq!(deletion_message(Resource::Boards, "", "b1"), "Board 'b1' deleted successfully");
    assert_eq!(deletion_message(Resource::Slos, "ds", "s1"), "SLO 's1' in dataset 'ds' deleted successfully");
    assert_eq!(
        deletion_message(Resource::Environments, "team", "e1"),
        "Environment 'e1' in team 'team' deleted successfully"
    );
}

#[test]
fn listing_plans() {
    let p = plan_listing(Resource::Triggers, "ds", Some("prod"), "team");
    assert_eq!(p.path, "/1/triggers/ds");
    assert_eq!(p.environment_param.as_deref(), Some("prod"));
    let check = p.check.unwrap();
    assert_eq!(check.team, "team");
    assert_eq!(check.environment, "prod");
    let p = plan_listing(Resource::Datasets, "", None, "team");
    assert_eq!(p.path, "/1/datasets");
    assert!(p.check.is_none());
    assert!(p.environment_param.is_none());
    let b = plan_board_listing(Some("prod"), "default").unwrap();
    assert_eq!(b.path, "/1/boards");
    assert_eq!(
        plan_board_listing(None, "default").unwrap_err(),
        "Environment is required. Set HONEYCOMB_ENVIRONMENT environment variable or use --environment flag."
    );
}

#[test]
fn team_resolution() {
    assert_eq!(team_or_default(None), "default");
    assert_eq!(team_or_default(Some("t")), "t");
    assert_eq!(effective_team(Some("a"), Some("b")).unwrap(), "a");
    assert_eq!(effective_team(None, Some("b")).unwrap(), "b");
    assert_eq!(
        effective_team(None, None).unwrap_err(),
        "Team is required. Use --team flag or set HONEYCOMB_TEAM environment variable."
    );
}

#[test]
fn environment_lookup() {
    let entries = vec![
        EnvironmentEntry { slug: Some(s("production")), name: Some(s("Production")) },
        EnvironmentEntry { slug: None, name: Some(s("Staging")) },
    ];
    assert!(environment_listed(&entries, "production"));
    assert!(environment_listed(&entries, "Production"));
    assert!(environment_listed(&entries, "Staging"));
    assert!(!environment_listed(&entries, "nonexistent"));
    assert!(!environment_listed(&Vec::new(), "production"));
    let without_key = HoneycombClient::new(None, Some(s("c")), None);
    let with_key = HoneycombClient::new(Some(s("m")), Some(s("c")), None);
    assert!(validate_environment(&without_key, &None, "anything"));
    assert!(!validate_environment(&with_key, &None, "production"));
    assert!(validate_environment(&with_key, &Some(entries), "production"));
}

#[test]
fn environment_requirement() {
    assert!(require_valid_environment(true, "test-team", "production").is_ok());
    let e = require_valid_environment(false, "test-team", "invalid-env").unwrap_err();
    assert!(e.contains("Environment 'invalid-env' not found in team 'test-team'"));
    assert!(e.contains("Use 'apiary environments list --team test-team' to see available environments"));
}

#[test]
fn json_styles() {
    assert_eq!(json_style(OutputFormat::Json), JsonStyle::Compact);
    assert_eq!(json_style(OutputFormat::Pretty), JsonStyle::Indented);
    assert_eq!(json_style(OutputFormat::Table), JsonStyle::Indented);
}

#[test]
fn operation_plans() {
    let p = plan_operation(Resource::Columns, "ds", &Operation::Get { id: s("c1") });
    assert_eq!(p.method, HttpMethod::Get);
    assert_eq!(p.path, "/1/columns/ds/c1");
    assert!(p.data.is_none() && p.confirmation.is_none());
    let p = plan_operation(Resource::Recipients, "", &Operation::Create { data: s("{}") });
    assert_eq!(p.method, HttpMethod::Post);
    assert_eq!(p.path, "/1/recipients");
    assert_eq!(p.data.as_deref(), Some("{}"));
    let p = plan_operation(Resource::Environments, "team", &Operation::Update { id: s("e1"), data: s("x.json") });
    assert_eq!(p.method, HttpMethod::Patch);
    assert_eq!(p.path, "/2/teams/team/environments/e1");
    let p = plan_operation(Resource::Markers, "ds", &Operation::Update { id: s("m1"), data: s("{}") });
    assert_eq!(p.method, HttpMethod::Put);
    let p = plan_operation(Resource::Triggers, "ds", &Operation::Delete { id: s("t1") });
    assert_eq!(p.method, HttpMethod::Delete);
    assert_eq!(p.path, "/1/triggers/ds/t1");
    assert_eq!(p.confirmation.as_deref(), Some("Trigger 't1' in dataset 'ds' deleted successfully"));
}

#[test]
fn query_keys_must_differ() {

    assert!(has_distinct_keys(&vec![]));
    assert!(has_distinct_keys(&vec![(s("environment"), s("prod")), (s("service"), s("api"))]));
    assert!(!has_distinct_keys(&vec![(s("environment"), s("prod")), (s("environment"), s("dev"))]));
}

#[test]
fn dataset_definitions_take_the_flag_team_first() {
    assert_eq!(effective_team(Some("flag-team"), Some("global-team")).unwrap(), "flag-team");
    assert!(effective_team(None, None).is_err());
}
