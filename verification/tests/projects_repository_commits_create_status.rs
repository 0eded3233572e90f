#![allow(unused_imports, dead_code, deprecated)]

use gitlab::api::{ignore, raw};
use gitlab::common::{Method, Timestamp};
use gitlab::test::client::{ExpectedUrl, SingleTestClient};
use gitlab::api::projects::repository::commits::{CommitStatusState, CreateCommitStatus};

fn json_value(v: &serde_json::Value) -> gitlab::json::JsonValue {
    match v {
        serde_json::Value::Null => gitlab::json::JsonValue::Null,
        serde_json::Value::Bool(b) => gitlab::json::JsonValue::Bool(*b),
        serde_json::Value::Number(n) => match (n.as_u64(), n.as_i64()) {
            (Some(u), _) => gitlab::json::JsonValue::UInt(u),
            (None, Some(i)) => gitlab::json::JsonValue::Int(i),
            _ => gitlab::json::JsonValue::Float(n.to_string()),
        },
        serde_json::Value::String(s) => gitlab::json::JsonValue::String(s.clone()),
        serde_json::Value::Array(items) => gitlab::json::JsonValue::Array(items.iter().map(json_value).collect()),
        serde_json::Value::Object(members) => {
            gitlab::json::JsonValue::Object(members.iter().map(|(k, v)| (k.clone(), json_value(v))).collect())
        },
    }
}

fn read_json(body: Vec<u8>) -> Result<gitlab::json::JsonValue, String> {
    serde_json::from_slice::<serde_json::Value>(&body)
        .map(|v| json_value(&v))
        .map_err(|e| e.to_string())
}

fn ts(y: i32, mo: u32, d: u32, h: u32, mi: u32, s: u32, ms: u32) -> Timestamp {
    let dt = chrono::NaiveDate::from_ymd_opt(y, mo, d)
        .unwrap()
        .and_hms_milli_opt(h, mi, s, ms)
        .unwrap()
        .and_utc();
    Timestamp::from_unix(dt.timestamp(), dt.timestamp_subsec_nanos()).unwrap()
}

#[test]
fn commit_status_state_as_str() {
    let items = &[
        (CommitStatusState::Pending, "pending"),
        (CommitStatusState::Running, "running"),
        (CommitStatusState::Success, "success"),
        (CommitStatusState::Failed, "failed"),
        (CommitStatusState::Canceled, "canceled"),
    ];

    for (i, s) in items {
        assert_eq!(i.as_str(), *s);
    }
}

#[test]
fn project_commit_and_state_are_necessary() {
    let err = CreateCommitStatus::builder().build().unwrap_err();
    assert_eq!(err.field(), "project");
}

#[test]
fn create_status_project_is_necessary() {
    let err = CreateCommitStatus::builder()
        .commit("master")
        .state(CommitStatusState::Pending)
        .build()
        .unwrap_err();
    assert_eq!(err.field(), "project");
}

#[test]
fn create_status_commit_is_necessary() {
    let err = CreateCommitStatus::builder()
        .project(1)
        .state(CommitStatusState::Pending)
        .build()
        .unwrap_err();
    assert_eq!(err.field(), "commit");
}

#[test]
fn state_is_necessary() {
    let err = CreateCommitStatus::builder()
        .project(1)
        .commit("master")
        .build()
        .unwrap_err();
    assert_eq!(err.field(), "state");
}

#[test]
fn project_commit_and_state_are_sufficient() {
    CreateCommitStatus::builder()
        .project(1)
        .commit("master")
        .state(CommitStatusState::Pending)
        .build()
        .unwrap();
}

#[test]
fn create_status_endpoint() {
    let endpoint = ExpectedUrl::builder()
        .method(Method::Post)
        .endpoint("projects/simple%2Fproject/statuses/0000000000000000000000000000000000000000")
        .content_type("application/x-www-form-urlencoded")
        .body_str("state=pending")
        .build()
        .unwrap();
    let client = SingleTestClient::new_raw(endpoint, "");

    let endpoint = CreateCommitStatus::builder()
        .project("simple/project")
        .commit("0000000000000000000000000000000000000000")
        .state(CommitStatusState::Pending)
        .build()
        .unwrap();
    ignore(endpoint).query(&client, read_json).unwrap();
}

#[test]
fn endpoint_name() {
    let endpoint = ExpectedUrl::builder()
        .method(Method::Post)
        .endpoint("projects/simple%2Fproject/statuses/0000000000000000000000000000000000000000")
        .content_type("application/x-www-form-urlencoded")
        .body_str("state=pending&name=jobname")
        .build()
        .unwrap();
    let client = SingleTestClient::new_raw(endpoint, "");

    let endpoint = CreateCommitStatus::builder()
        .project("simple/project")
        .commit("0000000000000000000000000000000000000000")
        .state(CommitStatusState::Pending)
        .name("jobname")
        .build()
        .unwrap();
    ignore(endpoint).query(&client, read_json).unwrap();
}

#[test]
fn create_status_endpoint_ref() {
    let endpoint = ExpectedUrl::builder()
        .method(Method::Post)
        .endpoint("projects/simple%2Fproject/statuses/0000000000000000000000000000000000000000")
        .content_type("application/x-www-form-urlencoded")
        .body_str("state=pending&ref=refname")
        .build()
        .unwrap();
    let client = SingleTestClient::new_raw(endpoint, "");

    let endpoint = CreateCommitStatus::builder()
        .project("simple/project")
        .commit("0000000000000000000000000000000000000000")
        .state(CommitStatusState::Pending)
        .ref_("refname")
        .build()
        .unwrap();
    ignore(endpoint).query(&client, read_json).unwrap();
}

#[test]
fn endpoint_target_url() {
    let endpoint = ExpectedUrl::builder()
        .method(Method::Post)
        .endpoint("projects/simple%2Fproject/statuses/0000000000000000000000000000000000000000")
        .content_type("application/x-www-form-urlencoded")
        .body_str("state=pending&target_url=https%3A%2F%2Ftest.invalid%2Fpath%3Fsome%3Dfoo")
        .build()
        .unwrap();
    let client = SingleTestClient::new_raw(endpoint, "");

    let endpoint = CreateCommitStatus::builder()
        .project("simple/project")
        .commit("0000000000000000000000000000000000000000")
        .state(CommitStatusState::Pending)
        .target_url("https://test.invalid/path?some=foo")
        .build()
        .unwrap();
    ignore(endpoint).query(&client, read_json).unwrap();
}

#[test]
fn endpoint_description() {
    let endpoint = ExpectedUrl::builder()
        .method(Method::Post)
        .endpoint("projects/simple%2Fproject/statuses/0000000000000000000000000000000000000000")
        .content_type("application/x-www-form-urlencoded")
        .body_str("state=pending&description=description")
        .build()
        .unwrap();
    let client = SingleTestClient::new_raw(endpoint, "");

    let endpoint = CreateCommitStatus::builder()
        .project("simple/project")
        .commit("0000000000000000000000000000000000000000")
        .state(CommitStatusState::Pending)
        .description("description")
        .build()
        .unwrap();
    ignore(endpoint).query(&client, read_json).unwrap();
}

#[test]
fn endpoint_coverage() {
    let endpoint = ExpectedUrl::builder()
        .method(Method::Post)
        .endpoint("projects/simple%2Fproject/statuses/0000000000000000000000000000000000000000")
        .content_type("application/x-www-form-urlencoded")
        .body_str("state=pending&coverage=90")
        .build()
        .unwrap();
    let client = SingleTestClient::new_raw(endpoint, "");

    let endpoint = CreateCommitStatus::builder()
        .project("simple/project")
        .commit("0000000000000000000000000000000000000000")
        .state(CommitStatusState::Pending)
        .coverage("90")
        .build()
        .unwrap();
    ignore(endpoint).query(&client, read_json).unwrap();
}

#[test]
fn endpoint_pipeline_id() {
    let endpoint = ExpectedUrl::builder()
        .method(Method::Post)
        .endpoint("projects/simple%2Fproject/statuses/0000000000000000000000000000000000000000")
        .content_type("application/x-www-form-urlencoded")
        .body_str("state=pending&pipeline_id=1")
        .build()
        .unwrap();
    let client = SingleTestClient::new_raw(endpoint, "");

    let endpoint = CreateCommitStatus::builder()
        .project("simple/project")
        .commit("0000000000000000000000000000000000000000")
        .state(CommitStatusState::Pending)
        .pipeline_id(1)
        .build()
        .unwrap();
    ignore(endpoint).query(&client, read_json).unwrap();
}
