use jira_cli::Configuration;
use jira_cli::IssueType;
use jira_cli::JiraError;
use jira_cli::browse_url;
use jira_cli::create_issue_body;
use jira_cli::create_issue_url;
use jira_cli::create_progress_line;
use jira_cli::created_report;
use jira_cli::interpret_create_response;
use jira_cli::interpret_worklog_response;
use jira_cli::worklog_body;
use jira_cli::worklog_body_now;
use jira_cli::worklog_progress_line;
use jira_cli::worklog_success_line;
use jira_cli::worklog_url;

fn s(text: &str) -> String {
    String::from(text)
}

fn config() -> Configuration {
    Configuration {
        domain: s("example.atlassian.net"),
        token: s("tok"),
        username: s("user@example.com"),
    }
}

#[test]
fn urls_are_exact() {
    let c = config();
    assert_eq!(create_issue_url(&c), "https://example.atlassian.net/rest/api/3/issue");
    assert_eq!(
        worklog_url(&c, "PROJ-1"),
        "https://example.atlassian.net/rest/api/3/issue/PROJ-1/worklog"
    );
    assert_eq!(browse_url(&c, "PROJ-42"), "https://example.atlassian.net/browse/PROJ-42");
}

#[test]
fn create_body_is_exact() {
    let body = create_issue_body("PROJ", "S", "D", &IssueType::Bug);
    assert_eq!(
        body,
        "{\"fields\":{\"project\":{\"key\":\"PROJ\"},\"summary\":\"S\",\"description\":\
         {\"type\":\"doc\",\"version\":1,\"content\":[{\"type\":\"paragraph\",\"content\":\
         [{\"type\":\"text\",\"text\":\"D\"}]}]},\"issuetype\":{\"name\":\"Bug\"},\
         \"priority\":{\"name\":\"Medium priority (C)\"}}}"
    );
}

#[test]
fn create_body_fields_parse_back() {
    let body = create_issue_body("PROJ", "Login bug", "Fix the login page", &IssueType::Task);
    let v: serde_json::Value = serde_json::from_str(&body).expect("body must be valid JSON");
    assert_eq!(v["fields"]["project"]["key"], "PROJ");
    assert_eq!(v["fields"]["summary"], "Login bug");
    assert_eq!(v["fields"]["issuetype"]["name"], "Task");
    assert_eq!(v["fields"]["priority"]["name"], "Medium priority (C)");
    let description = &v["fields"]["description"];
    assert_eq!(description["type"], "doc");
    assert_eq!(description["version"], 1);
    assert_eq!(description["content"][0]["type"], "paragraph");
    assert_eq!(description["content"][0]["content"][0]["type"], "text");
    assert_eq!(description["content"][0]["content"][0]["text"], "Fix the login page");
}

#[test]
fn create_body_escapes_text() {
    let tricky = "a \"quoted\" word, a \\ backslash,\nand a newline";
    let body = create_issue_body("PROJ", tricky, tricky, &IssueType::Bug);
    let v: serde_json::Value = serde_json::from_str(&body).expect("body must be valid JSON");
    assert_eq!(v["fields"]["summary"], tricky);
    assert_eq!(v["fields"]["description"]["content"][0]["content"][0]["text"], tricky);
}

#[test]
fn worklog_body_converts_minutes_to_seconds() {
    let body = worklog_body(90, &None, "2024-01-02T03:04:05.006+0000");
    let v: serde_json::Value = serde_json::from_str(&body).expect("body must be valid JSON");
    assert_eq!(v["timeSpentSeconds"], 5400);
}

#[test]
fn worklog_body_is_exact() {
    let body = worklog_body(90, &Some(s("paired session")), "2024-01-02T03:04:05.006+0000");
    assert_eq!(
        body,
        "{\"timeSpentSeconds\":5400,\"comment\":{\"type\":\"doc\",\"version\":1,\"content\":\
         [{\"type\":\"paragraph\",\"content\":[{\"type\":\"text\",\"text\":\"paired session\"}]}]},\
         \"started\":\"2024-01-02T03:04:05.006+0000\"}"
    );
}

#[test]
fn omitted_comment_becomes_empty_text_node() {
    let body = worklog_body(15, &None, "2024-01-02T03:04:05.006+0000");
    let v: serde_json::Value = serde_json::from_str(&body).expect("body must be valid JSON");
    let text = &v["comment"]["content"][0]["content"][0]["text"];
    assert_eq!(*text, serde_json::Value::String(String::new()));
}

#[test]
fn zero_minutes_is_permitted() {
    let body = worklog_body(0, &None, "2024-01-02T03:04:05.006+0000");
    let v: serde_json::Value = serde_json::from_str(&body).expect("body must be valid JSON");
    assert_eq!(v["timeSpentSeconds"], 0);
}

#[test]
fn worklog_body_now_stamps_a_start_time() {
    let body = worklog_body_now(30, &Some(s("notes")));
    let v: serde_json::Value = serde_json::from_str(&body).expect("body must be valid JSON");
    assert_eq!(v["timeSpentSeconds"], 1800);
    let started = v["started"].as_str().expect("started must be a string");
    assert!(!started.is_empty());
    assert!(started.ends_with("+0000"));
}

#[test]
fn created_key_is_extracted() {
    let r = interpret_create_response(201, s("{\"key\":\"PROJ-42\"}"));
    assert_eq!(r.expect("expected the new key"), "PROJ-42");
    assert_eq!(
        browse_url(&config(), "PROJ-42"),
        "https://example.atlassian.net/browse/PROJ-42"
    );
}

#[test]
fn failed_create_reports_status_and_body() {
    let r = interpret_create_response(400, s("{\"errorMessages\":[\"bad\"]}"));
    match r {
        Err(JiraError::RemoteRequestFailed { status, body }) => {
            assert_eq!(status, 400);
            assert_eq!(body, "{\"errorMessages\":[\"bad\"]}");
            let shown = JiraError::RemoteRequestFailed { status, body }.message();
            assert!(shown.contains("400"));
            assert!(shown.contains("{\"errorMessages\":[\"bad\"]}"));
        }
        _ => panic!("expected RemoteRequestFailed"),
    }
}

#[test]
fn missing_key_is_malformed() {
    let r = interpret_create_response(201, s("{\"id\":\"10000\"}"));
    assert!(matches!(r, Err(JiraError::MalformedResponse)));
}

#[test]
fn non_string_key_is_malformed() {
    let r = interpret_create_response(201, s("{\"key\":42}"));
    assert!(matches!(r, Err(JiraError::MalformedResponse)));
}

#[test]
fn unparsable_success_body_is_malformed() {
    let r = interpret_create_response(200, s("not json"));
    assert!(matches!(r, Err(JiraError::MalformedResponse)));
}

#[test]
fn worklog_success_needs_only_the_status() {
    assert!(interpret_worklog_response(201, s("ignored")).is_ok());
    let r = interpret_worklog_response(503, s("downstream down"));
    match r {
        Err(JiraError::RemoteRequestFailed { status, body }) => {
            assert_eq!(status, 503);
            assert_eq!(body, "downstream down");
        }
        _ => panic!("expected RemoteRequestFailed"),
    }
}

#[test]
fn remote_failure_message_is_exact() {
    let e = JiraError::RemoteRequestFailed { status: 404, body: s("gone") };
    assert_eq!(e.message(), "Request failed (status: 404): gone");
    assert_eq!(JiraError::MalformedResponse.message(), "Response missing 'key' field");
    let e = JiraError::TransportError { detail: s("dns failure") };
    assert_eq!(e.message(), "Request could not be sent: dns failure");
}

#[test]
fn progress_and_confirmation_lines() {
    assert_eq!(
        create_progress_line(&IssueType::Bug, "Login page bug"),
        "Creating a new bug in Jira: Login page bug"
    );
    assert_eq!(
        create_progress_line(&IssueType::Task, "Tidy up"),
        "Creating a new task in Jira: Tidy up"
    );
    assert_eq!(
        created_report(&config(), "PROJ-42", "Login page bug"),
        "Created issue: https://example.atlassian.net/browse/PROJ-42\n\
         Key: PROJ-42\nSummary: Login page bug"
    );
    assert_eq!(
        worklog_progress_line(90, "PROJ-1"),
        "Logging 90 minutes for issue PROJ-1"
    );
    assert_eq!(
        worklog_success_line("PROJ-1"),
        "Successfully logged time for issue PROJ-1"
    );
}
