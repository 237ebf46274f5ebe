use sentry_issues::client::{parse_u64, EnvVars, IssuePager, Method, SentryClient};
use sentry_issues::commands::{
    assign_issues, confirms, delete_issues, ignore_issues, list_issues, merge_issues,
    resolve_issues, unresolve_issues, view_issue, ListOptions,
};
use sentry_issues::config::{init_config, required_token, set_config, show_config, Config};
use sentry_issues::error::SentryCliError;
use sentry_issues::link::parse_next_cursor;
use sentry_issues::model::{
    Issue, IssueMetadata, IssueStatus, IssueUpdate, ListIssuesParams, ProjectRef, StatusDetails,
    Timestamp,
};
use sentry_issues::output::{
    count_message, delete_prompt, format_status, format_status_colored, get_format,
    ignore_suffix, is_json_output, is_quiet, issue_message, merge_message, message_line,
    set_format, set_quiet, truncate_string, Color, IssueRow, OutputFormat, OutputSettings,
};
use sentry_issues::output::{format_relative_time, issue_detail, LineKind};
use sentry_issues::text::decimal_string;
use sentry_issues::urls::encode_query;

fn client() -> SentryClient {
    let config = Config {
        default_org: Some("my-org".to_string()),
        server_url: None,
        auth_token: Some("tok".to_string()),
        default_project: None,
    };
    SentryClient::new(&config, None, None, None, &EnvVars::default(), false).unwrap()
}

fn ids(v: &[&str]) -> Vec<String> {
    v.iter().map(|s| s.to_string()).collect()
}

fn issue(id: &str) -> Issue {
    Issue {
        id: id.to_string(),
        short_id: format!("PROJ-{}", id),
        title: "Boom".to_string(),
        status: IssueStatus::Unresolved,
        level: "error".to_string(),
        count: "3".to_string(),
        user_count: 1,
        first_seen: Timestamp { secs: 0, nanos: 0 },
        last_seen: Timestamp { secs: 60, nanos: 0 },
        permalink: "https://sentry.io/x".to_string(),
        project: ProjectRef {
            id: "1".to_string(),
            name: "Proj".to_string(),
            slug: "proj".to_string(),
        },
        assigned_to: None,
        is_bookmarked: false,
        is_subscribed: false,
        has_seen: false,
        metadata: IssueMetadata::default(),
        culprit: None,
    }
}

#[test]
fn cursor_from_next_entry() {
    let h = "<https://sentry.io/api/0/x/?cursor=0:0:1>; rel=\"previous\"; results=\"false\"; cursor=\"0:0:1\", <https://sentry.io/api/0/x/?cursor=0:100:0>; rel=\"next\"; results=\"true\"; cursor=\"0:100:0\"";
    assert_eq!(parse_next_cursor(Some(h)), Some("0:100:0".to_string()));
}

#[test]
fn cursor_absent_when_next_has_no_results() {
    let h = "<https://sentry.io/a>; rel=\"previous\"; results=\"false\"; cursor=\"0:0:1\", <https://sentry.io/b>; rel=\"next\"; results=\"false\"; cursor=\"0:100:0\"";
    assert_eq!(parse_next_cursor(Some(h)), None);
    assert_eq!(parse_next_cursor(None), None);
    assert_eq!(parse_next_cursor(Some("")), None);
}

#[test]
fn cursor_key_and_quotes_stripped() {
    let h = "<u>; rel=\"next\"; results=\"true\";   cursor=\"\"abc\"\"  ";
    assert_eq!(parse_next_cursor(Some(h)), Some("abc".to_string()));
    let twice = "cursor=cursor=x;rel=\"next\";results=\"true\"";
    assert_eq!(parse_next_cursor(Some(twice)), Some("cursor=x".to_string()));
}

#[test]
fn cursor_skips_entry_without_cursor_segment() {
    let h = "<u>; rel=\"next\"; results=\"true\", <v>; rel=\"next\"; results=\"true\"; cursor=\"c2\"";
    assert_eq!(parse_next_cursor(Some(h)), Some("c2".to_string()));
}

#[test]
fn query_and_status_combine() {
    let c = client();
    let params = ListIssuesParams {
        project: Some(ids(&["a", "b"])),
        query: Some("timeout".to_string()),
        status: Some(IssueStatus::Resolved),
        sort: Some("date".to_string()),
        limit: Some(25),
        cursor: None,
    };
    let req = c.list_issues(&params).unwrap();
    assert_eq!(req.method, Method::Get);
    assert_eq!(
        req.url,
        "https://sentry.io/api/0/organizations/my-org/issues/?project=a&project=b&query=timeout+is%3Aresolved&sort=date&limit=25"
    );
    assert_eq!(req.auth_token, "tok");
    assert!(req.body.is_none());
}

#[test]
fn status_alone_and_query_alone() {
    let c = client();
    let mut params = ListIssuesParams::default();
    params.status = Some(IssueStatus::Ignored);
    let req = c.list_issues(&params).unwrap();
    assert_eq!(req.url, "https://sentry.io/api/0/organizations/my-org/issues/?query=is%3Aignored");
    params.status = None;
    params.query = Some("x".to_string());
    params.cursor = Some("0:25:0".to_string());
    let req = c.list_issues(&params).unwrap();
    assert_eq!(req.url, "https://sentry.io/api/0/organizations/my-org/issues/?query=x&cursor=0%3A25%3A0");
    params.query = None;
    params.cursor = None;
    let req = c.list_issues(&params).unwrap();
    assert_eq!(req.url, "https://sentry.io/api/0/organizations/my-org/issues/");
}

#[test]
fn query_string_form_encodes() {
    let pairs = vec![
        ("a b".to_string(), "x&y".to_string()),
        ("id".to_string(), "Z-9".to_string()),
    ];
    assert_eq!(encode_query(&pairs), "a+b=x%26y&id=Z-9");
    assert_eq!(encode_query(&Vec::new()), "");
}

#[test]
fn pages_concatenate_in_order() {
    let c = client();
    let mut pager: IssuePager = c.list_all_issues(ListIssuesParams::default());
    let first = pager.next_request(&c).unwrap().unwrap();
    assert_eq!(first.url, "https://sentry.io/api/0/organizations/my-org/issues/");
    pager.add_page(
        vec![issue("1"), issue("2")],
        Some("<u>; rel=\"next\"; results=\"true\"; cursor=\"0:2:0\""),
    );
    assert!(!pager.done);
    let second = pager.next_request(&c).unwrap().unwrap();
    assert_eq!(second.url, "https://sentry.io/api/0/organizations/my-org/issues/?cursor=0%3A2%3A0");
    pager.add_page(vec![issue("3")], Some("<u>; rel=\"next\"; results=\"false\"; cursor=\"0:3:0\""));
    assert!(pager.done);
    assert!(pager.next_request(&c).unwrap().is_none());
    let all = pager.into_issues();
    let got: Vec<String> = all.iter().map(|i| i.id.clone()).collect();
    assert_eq!(got, ids(&["1", "2", "3"]));
    assert_eq!(all.len(), 3);
}

#[test]
fn pager_stops_without_link_header() {
    let c = client();
    let mut pager = c.list_all_issues(ListIssuesParams::default());
    pager.add_page(vec![issue("1")], None);
    assert!(pager.done);
    assert_eq!(pager.into_issues().len(), 1);
}

#[test]
fn classifier_maps_statuses() {
    let c = client();
    let body = "{\"detail\": \"bad token\"}";
    assert!(matches!(c.map_error_response(401, None, body), SentryCliError::Auth(m) if m == "bad token"));
    assert!(matches!(c.map_error_response(403, None, body), SentryCliError::Forbidden(m) if m == "bad token"));
    assert!(matches!(c.map_error_response(404, None, "gone"), SentryCliError::NotFound(m) if m == "gone"));
    assert!(matches!(
        c.map_error_response(429, Some("120"), ""),
        SentryCliError::RateLimited { retry_after: 120 }
    ));
    assert!(matches!(
        c.map_error_response(429, None, ""),
        SentryCliError::RateLimited { retry_after: 60 }
    ));
    assert!(matches!(
        c.map_error_response(429, Some("soon"), ""),
        SentryCliError::RateLimited { retry_after: 60 }
    ));
    assert!(matches!(
        c.map_error_response(500, None, "oops"),
        SentryCliError::Api { status: 500, message } if message == "oops"
    ));
}

#[test]
fn status_only_update_body() {
    let mut u = IssueUpdate::empty();
    u.status = Some(IssueStatus::Resolved);
    assert_eq!(u.to_json(), "{\"status\":\"resolved\"}");
    assert_eq!(IssueUpdate::empty().to_json(), "{}");
}

#[test]
fn full_update_body() {
    let u = IssueUpdate {
        status: Some(IssueStatus::Ignored),
        assigned_to: Some("a\"b".to_string()),
        has_seen: Some(true),
        is_bookmarked: Some(false),
        merge: None,
        ignore_duration: Some(30),
        ignore_count: None,
        ignore_window: Some(0),
        status_details: Some(StatusDetails {
            in_release: Some("1.0".to_string()),
            in_next_release: None,
            ignore_duration: None,
            ignore_count: Some(100),
            ignore_until_escalating: Some(true),
        }),
    };
    assert_eq!(
        u.to_json(),
        "{\"status\":\"ignored\",\"assignedTo\":\"a\\\"b\",\"hasSeen\":true,\"isBookmarked\":false,\"ignoreDuration\":30,\"ignoreWindow\":0,\"statusDetails\":{\"inRelease\":\"1.0\",\"ignoreCount\":100,\"ignoreUntilEscalating\":true}}"
    );
}

#[test]
fn resolve_one_uses_single_endpoint() {
    let c = client();
    let req = resolve_issues(&c, &ids(&["ISSUE-1"]), None, false).unwrap();
    assert_eq!(req.method, Method::Put);
    assert_eq!(req.url, "https://sentry.io/api/0/organizations/my-org/issues/ISSUE-1/");
    assert_eq!(req.body.as_deref(), Some("{\"status\":\"resolved\"}"));
}

#[test]
fn resolve_two_uses_bulk_endpoint() {
    let c = client();
    let req = resolve_issues(&c, &ids(&["ISSUE-1", "ISSUE-2"]), Some("2.0".to_string()), true).unwrap();
    assert_eq!(req.method, Method::Put);
    assert_eq!(
        req.url,
        "https://sentry.io/api/0/organizations/my-org/issues/?id=ISSUE-1&id=ISSUE-2"
    );
    assert_eq!(
        req.body.as_deref(),
        Some("{\"status\":\"resolved\",\"statusDetails\":{\"inRelease\":\"2.0\",\"inNextRelease\":true}}")
    );
}

#[test]
fn unresolve_and_ignore_bodies() {
    let c = client();
    let req = unresolve_issues(&c, &ids(&["7"])).unwrap();
    assert_eq!(req.body.as_deref(), Some("{\"status\":\"unresolved\"}"));
    let req = ignore_issues(&c, &ids(&["7", "8"]), Some(60), None, false).unwrap();
    assert_eq!(req.url, "https://sentry.io/api/0/organizations/my-org/issues/?id=7&id=8");
    assert_eq!(
        req.body.as_deref(),
        Some("{\"status\":\"ignored\",\"statusDetails\":{\"ignoreDuration\":60}}")
    );
}

#[test]
fn assign_and_unassign() {
    let c = client();
    let req = assign_issues(&c, &ids(&["7"]), Some("me@example.com".to_string()), false).unwrap();
    assert_eq!(req.body.as_deref(), Some("{\"assignedTo\":\"me@example.com\"}"));
    let req = assign_issues(&c, &ids(&["7"]), None, true).unwrap();
    assert_eq!(req.body.as_deref(), Some("{\"assignedTo\":\"\"}"));
    assert!(matches!(
        assign_issues(&c, &ids(&["7"]), None, false),
        Err(SentryCliError::Validation(_))
    ));
}

#[test]
fn delete_declined_sends_nothing() {
    let c = client();
    assert!(matches!(delete_issues(&c, &ids(&["ISSUE-1"]), false, Some("n\n")), Ok(None)));
    assert!(matches!(delete_issues(&c, &ids(&["ISSUE-1"]), false, None), Ok(None)));
}

#[test]
fn delete_confirmed_or_forced() {
    let c = client();
    let req = delete_issues(&c, &ids(&["ISSUE-1"]), false, Some(" Y \n")).unwrap().unwrap();
    assert_eq!(req.method, Method::Delete);
    assert_eq!(req.url, "https://sentry.io/api/0/organizations/my-org/issues/ISSUE-1/");
    let req = delete_issues(&c, &ids(&["a", "b"]), true, None).unwrap().unwrap();
    assert_eq!(req.url, "https://sentry.io/api/0/organizations/my-org/issues/?id=a&id=b");
    assert!(confirms("y"));
    assert!(!confirms("yes"));
}

#[test]
fn merge_sends_all_ids() {
    let c = client();
    let req = merge_issues(&c, "1", &ids(&["2", "3"])).unwrap();
    assert_eq!(req.method, Method::Put);
    assert_eq!(req.url, "https://sentry.io/api/0/organizations/my-org/issues/?id=1&id=2&id=3");
    assert_eq!(req.body.as_deref(), Some("{\"merge\":true}"));
}

#[test]
fn view_gets_one_issue() {
    let c = client();
    let req = view_issue(&c, "42").unwrap();
    assert_eq!(req.method, Method::Get);
    assert_eq!(req.url, "https://sentry.io/api/0/organizations/my-org/issues/42/");
}

#[test]
fn list_options_become_params() {
    let p = list_issues(ListOptions {
        project: Some(" web , api,".to_string()),
        status: Some("UnResolved".to_string()),
        query: None,
        sort: "freq".to_string(),
        limit: 50,
        all: false,
    });
    assert_eq!(p.project, Some(ids(&["web", "api", ""])));
    assert_eq!(p.status, Some(IssueStatus::Unresolved));
    assert_eq!(p.sort.as_deref(), Some("freq"));
    assert_eq!(p.limit, Some(50));
    let p = list_issues(ListOptions {
        project: None,
        status: Some("reprocessing".to_string()),
        query: None,
        sort: "date".to_string(),
        limit: 25,
        all: true,
    });
    assert_eq!(p.status, None);
    assert_eq!(p.project, None);
}

#[test]
fn client_resolution_precedence() {
    let config = Config {
        default_org: Some("file-org".to_string()),
        server_url: Some("https://file.example".to_string()),
        auth_token: Some("file-tok".to_string()),
        default_project: None,
    };
    let env = EnvVars {
        auth_token: Some("env-tok".to_string()),
        server_url: None,
        org: Some("env-org".to_string()),
    };
    let c = SentryClient::new(&config, Some("cli-org"), None, None, &env, true).unwrap();
    assert_eq!(c.org_slug, "cli-org");
    assert_eq!(c.auth_token, "env-tok");
    assert_eq!(c.base_url, "https://file.example/");
    assert!(c.verbose);
    assert_eq!(config.get_server_url(None, None), "https://file.example");
    assert_eq!(Config::default().get_server_url(None, None), "https://sentry.io");
}

#[test]
fn client_errors() {
    let empty = Config::default();
    let env = EnvVars::default();
    assert!(matches!(
        SentryClient::new(&empty, Some("o"), None, None, &env, false),
        Err(SentryCliError::Auth(m)) if m.contains("auth token")
    ));
    assert!(matches!(
        SentryClient::new(&empty, None, None, Some("t"), &env, false),
        Err(SentryCliError::Config(m)) if m.contains("organization")
    ));
    assert!(matches!(
        SentryClient::new(&empty, Some("o"), Some("not a url"), Some("t"), &env, false),
        Err(SentryCliError::UrlParse(_))
    ));
}

#[test]
fn set_config_keys() {
    let mut c = Config::default();
    set_config(&mut c, "default_org", "acme").unwrap();
    set_config(&mut c, "server_url", "https://s").unwrap();
    set_config(&mut c, "auth_token", "t").unwrap();
    set_config(&mut c, "default_project", "p").unwrap();
    assert_eq!(c.default_org.as_deref(), Some("acme"));
    assert_eq!(c.server_url.as_deref(), Some("https://s"));
    assert_eq!(c.auth_token.as_deref(), Some("t"));
    assert_eq!(c.default_project.as_deref(), Some("p"));
    assert!(matches!(
        set_config(&mut c, "color", "x"),
        Err(SentryCliError::Validation(m))
            if m == "Unknown config key: color. Valid keys: default_org, server_url, auth_token, default_project"
    ));
    assert_eq!(c.default_org.as_deref(), Some("acme"));
}

#[test]
fn init_config_content() {
    assert_eq!(
        init_config(" tok \n", "acme\n", "\n", "https://s\n").unwrap(),
        "auth_token = \"tok\"\ndefault_org = \"acme\"\nserver_url = \"https://s\"\n"
    );
    assert!(matches!(
        init_config("  \n", "acme", "", ""),
        Err(SentryCliError::Auth(m)) if m == "Auth token is required"
    ));
    assert_eq!(init_config("t", "", "", "").unwrap(), "auth_token = \"t\"\n");
}

#[test]
fn output_settings() {
    let mut s = OutputSettings::new();
    assert_eq!(get_format(&s), OutputFormat::Table);
    set_format(&mut s, OutputFormat::Json);
    assert!(is_json_output(&s));
    assert_eq!(message_line(&s, "say \"hi\"").as_deref(), Some("{\"message\": \"say \\\"hi\\\"\"}"));
    set_format(&mut s, OutputFormat::Compact);
    assert_eq!(message_line(&s, "done").as_deref(), Some("done"));
    set_quiet(&mut s, true);
    assert!(is_quiet(&s));
    assert_eq!(message_line(&s, "done"), None);
}

#[test]
fn status_labels() {
    let t = format_status(&IssueStatus::Resolved);
    assert_eq!(t.text, "Resolved");
    assert_eq!(t.color, Color::Green);
    let t = format_status_colored(&IssueStatus::Reprocessing);
    assert_eq!(t.text, "reprocessing");
    assert_eq!(t.color, Color::Cyan);
}

#[test]
fn truncation() {
    assert_eq!(truncate_string("short", 50), "short");
    assert_eq!(truncate_string("abcdefghij", 8), "abcde...");
    assert_eq!(truncate_string("ééééé", 5), "ééééé");
    assert_eq!(truncate_string("ééééé", 4), "é...");
    assert_eq!(truncate_string("ab", 2), "ab");
    assert_eq!(truncate_string("", 0), "");
}

#[test]
fn messages() {
    assert_eq!(issue_message("PROJ-1", "resolved"), "Issue PROJ-1 resolved.");
    assert_eq!(count_message("Resolved", 2), "Resolved 2 issues.");
    assert_eq!(ignore_suffix(Some(5), Some(9), true), " for 5 minutes");
    assert_eq!(ignore_suffix(None, Some(9), true), " until 9 more events");
    assert_eq!(ignore_suffix(None, None, true), " until escalating");
    assert_eq!(ignore_suffix(None, None, false), "");
    assert_eq!(merge_message(2, "PROJ-1"), "Merged 2 issue(s) into PROJ-1.");
    assert_eq!(delete_prompt(3), "Are you sure you want to delete 3 issue(s)? [y/N]: ");
}

#[test]
fn decimal_text() {
    assert_eq!(decimal_string(0), "0");
    assert_eq!(decimal_string(120), "120");
    assert_eq!(decimal_string(u64::MAX), "18446744073709551615");
}

#[test]
fn token_answer_required() {
    assert_eq!(required_token("  abc \n").unwrap(), "abc");
    assert!(matches!(
        required_token(" \t\n"),
        Err(SentryCliError::Auth(m)) if m == "Auth token is required"
    ));
}

#[test]
fn settings_overview() {
    let c = Config {
        default_org: Some("acme".to_string()),
        server_url: None,
        auth_token: None,
        default_project: Some("web".to_string()),
    };
    assert_eq!(
        show_config(&c, "/home/u/.config/sentry-cli/config.toml", true),
        vec![
            "Config file: /home/u/.config/sentry-cli/config.toml".to_string(),
            "".to_string(),
            "default_org:     acme".to_string(),
            "server_url:      https://sentry.io (default)".to_string(),
            "auth_token:      ****... (from SENTRY_AUTH_TOKEN)".to_string(),
            "default_project: web".to_string(),
        ]
    );
    let lines = show_config(&Config::default(), "p", false);
    assert_eq!(lines.len(), 4);
    assert_eq!(lines[3], "auth_token:      (not set)");
}

fn at(secs: i64, nanos: u32) -> Timestamp {
    Timestamp { secs, nanos }
}

#[test]
fn relative_times() {
    assert_eq!(format_relative_time(at(1000, 0), at(990, 0)).as_deref(), Some("just now"));
    assert_eq!(format_relative_time(at(1000, 0), at(2000, 0)).as_deref(), Some("just now"));
    assert_eq!(format_relative_time(at(60, 0), at(0, 1)).as_deref(), Some("just now"));
    assert_eq!(format_relative_time(at(60, 1), at(0, 1)).as_deref(), Some("1 min ago"));
    assert_eq!(format_relative_time(at(3600, 0), at(0, 0)).as_deref(), Some("1 hr ago"));
    assert_eq!(format_relative_time(at(600, 0), at(0, 0)).as_deref(), Some("10 min ago"));
    assert_eq!(format_relative_time(at(3 * 86400 + 5, 0), at(0, 0)).as_deref(), Some("3 days ago"));
    assert_eq!(format_relative_time(at(30 * 86400, 0), at(0, 0)).as_deref(), Some("1970-01-01"));
    assert_eq!(format_relative_time(at(0, 0), at(i64::MIN, 0)), None);
}

#[test]
fn table_row_of_issue() {
    let mut i = issue("9");
    i.title = "x".repeat(60);
    let row = IssueRow::from_issue(&i, at(60 + 120, 0));
    assert_eq!(row.id, "9");
    assert_eq!(row.short_id, "PROJ-9");
    assert_eq!(row.title, format!("{}...", "x".repeat(47)));
    assert_eq!(row.status.text, "unresolved");
    assert_eq!(row.status.color, Color::Red);
    assert_eq!(row.events, "3");
    assert_eq!(row.last_seen.as_deref(), Some("2 min ago"));
}

#[test]
fn unsigned_parse() {
    assert_eq!(parse_u64("120"), Some(120));
    assert_eq!(parse_u64("+7"), Some(7));
    assert_eq!(parse_u64("007"), Some(7));
    assert_eq!(parse_u64("18446744073709551615"), Some(u64::MAX));
    assert_eq!(parse_u64("18446744073709551616"), None);
    assert_eq!(parse_u64("99999999999999999999x"), None);
    assert_eq!(parse_u64(""), None);
    assert_eq!(parse_u64("+"), None);
    assert_eq!(parse_u64("-1"), None);
    assert_eq!(parse_u64("1a"), None);
    assert_eq!(parse_u64(" 1"), None);
}

#[test]
fn update_body_escapes_control_characters() {
    let mut u = IssueUpdate::empty();
    u.assigned_to = Some("a\nb\u{1}\\é".to_string());
    assert_eq!(u.to_json(), "{\"assignedTo\":\"a\\nb\\u0001\\\\é\"}");
}

#[test]
fn detail_view_lines() {
    let mut i = issue("5");
    i.user_count = 4;
    i.culprit = Some("main.rs".to_string());
    i.last_seen = Timestamp { secs: 86400 + 3661, nanos: 500 };
    let lines = issue_detail(&i);
    let texts: Vec<(LineKind, String, String, Color)> = lines
        .into_iter()
        .map(|l| (l.kind, l.label, l.text, l.color))
        .collect();
    let field = |label: &str, text: &str, color: Color| (LineKind::Field, label.to_string(), text.to_string(), color);
    let blank = (LineKind::Blank, String::new(), String::new(), Color::Plain);
    assert_eq!(
        texts,
        vec![
            blank.clone(),
            (LineKind::Heading, "Issue".to_string(), "PROJ-5".to_string(), Color::Cyan),
            (LineKind::Rule, String::new(), "=".repeat(80), Color::Plain),
            field("Title:", "Boom", Color::Plain),
            field("Status:", "Unresolved", Color::Red),
            field("Level:", "error", Color::Plain),
            field("Project:", "Proj (proj)", Color::Plain),
            field("First Seen:", "1970-01-01 00:00:00 UTC", Color::Plain),
            field("Last Seen:", "1970-01-02 01:01:01 UTC", Color::Plain),
            blank.clone(),
            field("Events:", "3 total (4 users affected)", Color::Plain),
            blank.clone(),
            field("Assigned:", "Unassigned", Color::Dimmed),
            field("Culprit:", "main.rs", Color::Plain),
            blank.clone(),
            field("Link:", "https://sentry.io/x", Color::Blue),
            blank,
        ]
    );
}
