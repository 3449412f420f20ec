use apiary::auth::{
    key_info_lines, AuthAttributes, AuthData, AuthRelationships, AuthResponse, AuthTimestamps, TeamAttributes,
    TeamData, TeamInfo, TeamRelation,
};
use apiary::boards::{board_fallback_cells, Board, BoardQuery};
use apiary::client::HoneycombClient;
use apiary::environments::{EnvironmentAttributes, EnvironmentData, EnvironmentTimestamps};
use apiary::queries::{no_wait_lines, poll_path, query_path, required_text, result_path, PollAction, QueryPoll};
use apiary::errors::JsonField;
use apiary::records::{BurnAlert, Column, Dataset, Marker, Slo, Trigger};
use apiary::text::{decimal_text, pad_right_text, signed_decimal_text, zero_padded_text};
use apiary::timestamp::Timestamp;

fn s(v: &str) -> String {
    v.to_string()
}

fn jan1() -> Timestamp {
    Timestamp { year: 2023, month: 1, day: 1, hour: 0, minute: 0 }
}

#[test]
fn numbers_and_padding() {
    assert_eq!(decimal_text(0), "0");
    assert_eq!(decimal_text(1609459200), "1609459200");
    assert_eq!(signed_decimal_text(-45), "-45");
    assert_eq!(signed_decimal_text(i64::MIN), "-9223372036854775808");
    assert_eq!(zero_padded_text(7, 2), "07");
    assert_eq!(zero_padded_text(123, 2), "123");
    assert_eq!(pad_right_text("ab", 5), "ab   ");
    assert_eq!(pad_right_text("abcdef", 3), "abcdef");
}

#[test]
fn timestamps_render_like_strftime() {
    let t = Timestamp { year: 2023, month: 3, day: 9, hour: 7, minute: 5 };
    assert_eq!(t.date_text(), "2023-03-09");
    assert_eq!(t.date_time_text(), "2023-03-09 07:05");
    assert_eq!(Timestamp { year: 12, month: 1, day: 2, hour: 0, minute: 0 }.date_text(), "0012-01-02");
    assert_eq!(Timestamp { year: -1, month: 1, day: 2, hour: 0, minute: 0 }.date_text(), "-0001-01-02");
    assert_eq!(Timestamp { year: 10000, month: 1, day: 2, hour: 0, minute: 0 }.date_text(), "+10000-01-02");
}

#[test]
fn dataset_table() {
    let l = Dataset::layout();
    assert_eq!(l.header(), format!("{:<30} {:<20} {:<20} Last Written", "Name", "Slug", "Created"));
    assert_eq!(l.rule_line(), "-".repeat(80));
    let ds = Dataset {
        name: s("test-dataset"),
        slug: s("test-dataset"),
        description: None,
        created_at: jan1(),
        last_written_at: None,
        expand_json_depth: None,
        delete_protected: None,
    };
    let line = l.line(&ds.cells());
    assert_eq!(line, format!("{:<30} {:<20} {:<20} {}", "test-dataset", "test-dataset", "2023-01-01", "Never"));
}

#[test]
fn column_table() {
    let col = Column {
        id: s("col-123"),
        key_name: s("duration_ms"),
        hidden: false,
        description: None,
        column_type: Some(s("float")),
        created_at: jan1(),
        updated_at: jan1(),
    };
    let l = Column::layout();
    assert_eq!(
        l.line(&col.cells()),
        format!("{:<15} {:<30} {:<10} {:<20} {}", "col-123", "duration_ms", false, "float", "2023-01-01")
    );
    let untyped = Column { column_type: None, ..col };
    assert_eq!(untyped.cells()[3], "unknown");
}

#[test]
fn trigger_table() {
    let t = Trigger {
        id: s("trigger-123"),
        name: s("High Error Rate"),
        description: None,
        disabled: false,
        alert_type: s("on_change"),
        recipients: vec![s("a"), s("b")],
        created_at: jan1(),
        updated_at: jan1(),
    };
    assert_eq!(
        Trigger::layout().line(&t.cells()),
        format!("{:<15} {:<30} {:<10} {:<15} {:<20} {}", "trigger-123", "High Error Rate", false, "on_change", "2023-01-01", 2)
    );
}

#[test]
fn slo_and_burn_alert_units() {
    let slo = Slo {
        id: s("slo-123"),
        name: s("API Response Time"),
        description: None,
        target_display: format!("{:.1}%", 99.9f64),
        time_period: 30,
        created_at: jan1(),
        updated_at: jan1(),
    };
    assert_eq!(slo.cells(), vec![s("slo-123"), s("API Response Time"), s("99.9%"), s("30d"), s("2023-01-01")]);
    let ba = BurnAlert {
        id: s("alert-123"),
        slo_id: s("slo-456"),
        exhaustion_minutes: 60,
        budget_rate_window_minutes: -5,
        recipients: vec![],
        disabled: true,
        created_at: jan1(),
        updated_at: jan1(),
    };
    assert_eq!(ba.cells(), vec![s("alert-123"), s("slo-456"), s("60m"), s("-5m"), s("true"), s("0")]);
}

#[test]
fn marker_table() {
    let m = Marker {
        id: s("marker-123"),
        message: s("Deployment v1.2.3"),
        timestamp: Timestamp { year: 2021, month: 1, day: 1, hour: 0, minute: 0 },
        url: None,
        color: Some(s("blue")),
        created_at: jan1(),
        updated_at: jan1(),
    };
    assert_eq!(m.cells(), vec![s("marker-123"), s("Deployment v1.2.3"), s("2021-01-01 00:00"), s("blue"), s("N/A")]);
}

fn board(description: Option<String>) -> Board {
    Board {
        id: s("board-123"),
        name: s("Service Dashboard"),
        description,
        board_type: None,
        panels: None,
        preset_filters: None,
        links: None,
        style: Some(s("visual")),
        queries: vec![BoardQuery { query_id: s("q"), dataset: s("d"), query_style: s("graph"), graphic_settings: None }],
        created_at: None,
        updated_at: None,
    }
}

#[test]
fn board_cells_fall_back_to_legacy_fields() {
    let b = board(None);
    assert_eq!(b.cells(), vec![s("board-123"), s("Service Dashboard"), s("1"), s("visual")]);
    let l = Board::layout();
    assert_eq!(
        l.line(&b.cells()),
        format!("{:<15} {:<40} {:<10} {:<15}", "board-123", "Service Dashboard", 1, "visual")
    );
}

#[test]
fn board_names_are_cut_to_fit() {
    let b = board(Some(s("Everything about the services we run")));
    let name = &b.cells()[1];
    assert_eq!(name, &format!("{}...", &"Service Dashboard - Everything about the services we run"[..35]));
    let short = board(Some(s("Main")));
    assert_eq!(short.cells()[1], "Service Dashboard - Main");
}

#[test]
fn board_with_panels_and_type() {
    let mut b = board(None);
    b.panels = Some(vec![serde_json::Value::Null, serde_json::Value::Null, serde_json::Value::Null]);
    b.board_type = Some(s("flexible"));
    assert_eq!(b.cells()[2], "3");
    assert_eq!(b.cells()[3], "flexible");
    let mut bare = board(None);
    bare.queries.clear();
    bare.style = None;
    assert_eq!(bare.cells()[2], "0");
    assert_eq!(bare.cells()[3], "unknown");
}

#[test]
fn board_fallback() {
    assert_eq!(
        board_fallback_cells(&Some(s("b")), &None, 2, &None),
        vec![s("b"), s("unknown"), s("2"), s("unknown")]
    );
}

#[test]
fn environment_table() {
    let e = EnvironmentData {
        id: s("env-123"),
        attributes: EnvironmentAttributes {
            name: s("Production"),
            slug: s("production"),
            description: None,
            color: None,
            settings: None,
            timestamps: EnvironmentTimestamps { created: s("2023-01-01T00:00:00Z"), updated: s("2023-01-01T00:00:00Z") },
        },
        data_type: s("environment"),
        links: None,
    };
    let l = EnvironmentData::layout();
    assert_eq!(l.header(), format!("{:<35} {:<15} {:<25} {:<12} Created", "ID", "Name", "Slug", "Color"));
    assert_eq!(
        l.line(&e.cells()),
        format!("{:<35} {:<15} {:<25} {:<12} {}", "env-123", "Production", "production", "N/A", "2023-01-01T00:00:00Z")
    );
}

#[test]
fn auth_summary() {
    let r = AuthResponse {
        data: AuthData {
            attributes: AuthAttributes {
                name: s("Test Key"),
                key_type: s("management"),
                scopes: vec![s("environments:read"), s("api-keys:write")],
                disabled: false,
                timestamps: AuthTimestamps { created: s("c"), updated: s("u") },
            },
            relationships: AuthRelationships { team: TeamRelation { data: TeamData { team_type: s("teams"), id: s("t1") } } },
            data_type: s("api-keys"),
            id: s("key-123"),
        },
        included: vec![TeamInfo {
            attributes: TeamAttributes { name: s("Test Team"), slug: s("test-team") },
            team_type: s("teams"),
            id: s("t1"),
        }],
    };
    let lines = r.summary_lines();
    assert_eq!(lines[0], "API Key Information:");
    assert_eq!(lines[2], "Name: Test Key");
    assert_eq!(lines[5], "Status: Active");
    assert_eq!(lines[9], "Team Information:");
    assert_eq!(lines[12], "Slug: test-team");
    assert_eq!(lines[15], "Scopes:");
    assert_eq!(lines[17], "  \u{2022} environments:read");
    assert_eq!(lines.len(), 19);
}

#[test]
fn key_info() {
    let c = HoneycombClient::new(Some(s("hcxmk_0123456789")), None, None);
    let lines = key_info_lines(&c);
    assert_eq!(lines[2], "Management Key: hcxmk_01 (for v2 endpoints)");
    assert_eq!(lines[3], "\u{2705} Can access v2 APIs (Bearer authentication)");
    assert_eq!(lines[5], "\u{274C} No Configuration Key - cannot access v1 APIs");
    assert_eq!(lines.len(), 11);
}

#[test]
fn query_run_steps() {
    assert_eq!(query_path("ds"), "/1/queries/ds");
    assert_eq!(result_path("ds"), "/1/query_results/ds");
    assert_eq!(poll_path("test-dataset", "result-123"), "/1/query_results/test-dataset/result-123");
    assert_eq!(required_text(JsonField::Text(s("q1")), "missing"), Ok(s("q1")));
    assert_eq!(required_text(JsonField::Other, "missing"), Err(s("missing")));
    assert_eq!(
        no_wait_lines("ds", "r1"),
        vec![s("Query result ID: r1"), s("Use 'apiary query-results get --dataset ds --id r1' to check status")]
    );
}

#[test]
fn polling_stops_at_timeout() {
    let mut p = QueryPoll::new(2);
    assert!(matches!(p.next_action(), PollAction::Fetch));
    assert!(!p.observe(Some(false)));
    assert!(matches!(p.next_action(), PollAction::Fetch));
    assert!(!p.observe(None));
    match p.next_action() {
        PollAction::TimedOut(m) => assert_eq!(m, "Query timed out after 2 seconds"),
        _ => panic!("expected a timeout"),
    }
    let mut q = QueryPoll::new(5);
    assert!(q.observe(Some(true)));
    assert_eq!(q.elapsed, 0);
    assert!(matches!(QueryPoll::new(0).next_action(), PollAction::TimedOut(_)));
}

#[test]
fn board_names_are_cut_by_bytes() {
    // 'a' and nineteen 'é' make 39 bytes but 20 characters
    let long = format!("a{}", "é".repeat(19));
    let mut b = board(None);
    b.name = long.clone();
    assert!(b.name_fits());
    assert_eq!(b.cells()[1], format!("{}...", &long[..35]));
    let mut odd = board(None);
    odd.name = "é".repeat(20);
    assert!(!odd.name_fits());
}

#[test]
fn key_preview_takes_eight_bytes() {
    let c = HoneycombClient::new(Some("é".repeat(10)), None, None);
    assert!(apiary::auth::key_previews_fit(&c));
    let lines = key_info_lines(&c);
    assert_eq!(lines[2], format!("Management Key: {} (for v2 endpoints)", "é".repeat(4)));
    let odd = HoneycombClient::new(None, Some(format!("a{}", "é".repeat(5))), None);
    assert!(!apiary::auth::key_previews_fit(&odd));
}
