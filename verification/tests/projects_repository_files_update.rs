#![allow(unused_imports, dead_code, deprecated)]

use gitlab::api::{ignore, raw};
use gitlab::common::{Method, Timestamp};
use gitlab::test::client::{ExpectedUrl, SingleTestClient};
use gitlab::api::projects::repository::files::{Encoding, UpdateFile};

fn json_value(v: &serde_json::Value) -> gitlab::json::JsonValue {
    match v {
        serde_json::Value::Null => gitlab::json::JsonValue::Null,
        serde_json::Value::Bool(b) => gitlab::json::JsonValue::Bool(*b),
        serde_json::Value::Number(n) => match (n.as_u64(), n.as_i64()) {
            (Some(u), _) => gitlab::json::JsonValue::UInt(u),
            (None, Some(i)) => gitlab::json::JsonValue::Int(i),
            _ => gitlab::json::JsonValue::Float(n.to_string()),
        },
        serde_json::Value::String(s) => gitlab::json::JsonValue::String(s.clone()),
        serde_json::Value::Array(items) => gitlab::json::JsonValue::Array(items.iter().map(json_value).collect()),
        serde_json::Value::Object(members) => {
            gitlab::json::JsonValue::Object(members.iter().map(|(k, v)| (k.clone(), json_value(v))).collect())
        },
    }
}

fn read_json(body: Vec<u8>) -> Result<gitlab::json::JsonValue, String> {
    serde_json::from_slice::<serde_json::Value>(&body)
        .map(|v| json_value(&v))
        .map_err(|e| e.to_string())
}

fn ts(y: i32, mo: u32, d: u32, h: u32, mi: u32, s: u32, ms: u32) -> Timestamp {
    let dt = chrono::NaiveDate::from_ymd_opt(y, mo, d)
        .unwrap()
        .and_hms_milli_opt(h, mi, s, ms)
        .unwrap()
        .and_utc();
    Timestamp::from_unix(dt.timestamp(), dt.timestamp_subsec_nanos()).unwrap()
}

#[test]
fn files_update_all_parameters_are_needed() {
    let err = UpdateFile::builder().build().unwrap_err();
    assert_eq!(err.field(), "project");
}

#[test]
fn update_project_is_required() {
    let err = UpdateFile::builder()
        .file_path("new/file")
        .branch("master")
        .commit_message("commit message")
        .content(&b"contents"[..])
        .build()
        .unwrap_err();
    assert_eq!(err.field(), "project");
}

#[test]
fn update_file_path_is_required() {
    let err = UpdateFile::builder()
        .project(1)
        .branch("master")
        .commit_message("commit message")
        .content(&b"contents"[..])
        .build()
        .unwrap_err();
    assert_eq!(err.field(), "file_path");
}

#[test]
fn update_branch_is_required() {
    let err = UpdateFile::builder()
        .project(1)
        .file_path("new/file")
        .commit_message("commit message")
        .content(&b"contents"[..])
        .build()
        .unwrap_err();
    assert_eq!(err.field(), "branch");
}

#[test]
fn update_commit_message_is_required() {
    let err = UpdateFile::builder()
        .project(1)
        .file_path("new/file")
        .branch("master")
        .content(&b"contents"[..])
        .build()
        .unwrap_err();
    assert_eq!(err.field(), "commit_message");
}

#[test]
fn update_content_is_required() {
    let err = UpdateFile::builder()
        .project(1)
        .file_path("new/file")
        .branch("master")
        .commit_message("commit message")
        .build()
        .unwrap_err();
    assert_eq!(err.field(), "content");
}

#[test]
fn files_update_sufficient_parameters() {
    UpdateFile::builder()
        .project(1)
        .file_path("new/file")
        .branch("master")
        .commit_message("commit message")
        .content(&b"contents"[..])
        .build()
        .unwrap();
}

#[test]
fn files_update_endpoint() {
    let endpoint = ExpectedUrl::builder()
        .method(Method::Put)
        .endpoint("projects/simple%2Fproject/repository/files/path%2Fto%2Ffile")
        .content_type("application/x-www-form-urlencoded")
        .body_str("branch=branch&commit_message=commit+message&content=file+contents")
        .build()
        .unwrap();
    let client = SingleTestClient::new_raw(endpoint, "");

    let endpoint = UpdateFile::builder()
        .project("simple/project")
        .file_path("path/to/file")
        .branch("branch")
        .content(&b"file contents"[..])
        .commit_message("commit message")
        .build()
        .unwrap();
    ignore(endpoint).query(&client, read_json).unwrap();
}

#[test]
fn update_endpoint_start_branch() {
    let endpoint = ExpectedUrl::builder()
        .method(Method::Put)
        .endpoint("projects/simple%2Fproject/repository/files/path%2Fto%2Ffile")
        .content_type("application/x-www-form-urlencoded")
        .body_str("branch=branch&commit_message=commit+message&start_branch=master&content=file+contents")
        .build()
        .unwrap();
    let client = SingleTestClient::new_raw(endpoint, "");

    let endpoint = UpdateFile::builder()
        .project("simple/project")
        .file_path("path/to/file")
        .branch("branch")
        .content(&b"file contents"[..])
        .commit_message("commit message")
        .start_branch("master")
        .build()
        .unwrap();
    ignore(endpoint).query(&client, read_json).unwrap();
}

#[test]
fn endpoint_encoding() {
    let endpoint = ExpectedUrl::builder()
        .method(Method::Put)
        .endpoint("projects/simple%2Fproject/repository/files/path%2Fto%2Ffile")
        .content_type("application/x-www-form-urlencoded")
        .body_str("branch=branch&commit_message=commit+message&content=ZmlsZSBjb250ZW50cw%3D%3D&encoding=base64")
        .build()
        .unwrap();
    let client = SingleTestClient::new_raw(endpoint, "");

    let endpoint = UpdateFile::builder()
        .project("simple/project")
        .file_path("path/to/file")
        .branch("branch")
        .content(&b"file contents"[..])
        .commit_message("commit message")
        .encoding(Encoding::Base64)
        .build()
        .unwrap();
    ignore(endpoint).query(&client, read_json).unwrap();
}

#[test]
fn endpoint_encoding_upgrade() {
    let endpoint = ExpectedUrl::builder()
        .method(Method::Put)
        .endpoint("projects/simple%2Fproject/repository/files/path%2Fto%2Ffile")
        .content_type("application/x-www-form-urlencoded")
        .body_str("branch=branch&commit_message=commit+message&content=%2Fw%3D%3D&encoding=base64")
        .build()
        .unwrap();
    let client = SingleTestClient::new_raw(endpoint, "");

    let endpoint = UpdateFile::builder()
        .project("simple/project")
        .file_path("path/to/file")
        .branch("branch")
        .content(&b"\xff"[..])
        .commit_message("commit message")
        .build()
        .unwrap();
    ignore(endpoint).query(&client, read_json).unwrap();
}

#[test]
fn update_endpoint_author_email() {
    let endpoint = ExpectedUrl::builder()
        .method(Method::Put)
        .endpoint("projects/simple%2Fproject/repository/files/path%2Fto%2Ffile")
        .content_type("application/x-www-form-urlencoded")
        .body_str("branch=branch&commit_message=commit+message&author_email=author%40email.invalid&content=file+contents")
        .build()
        .unwrap();
    let client = SingleTestClient::new_raw(endpoint, "");

    let endpoint = UpdateFile::builder()
        .project("simple/project")
        .file_path("path/to/file")
        .branch("branch")
        .content(&b"file contents"[..])
        .commit_message("commit message")
        .author_email("author@email.invalid")
        .build()
        .unwrap();
    ignore(endpoint).query(&client, read_json).unwrap();
}

#[test]
fn update_endpoint_author_name() {
    let endpoint = ExpectedUrl::builder()
        .method(Method::Put)
        .endpoint("projects/simple%2Fproject/repository/files/path%2Fto%2Ffile")
        .content_type("application/x-www-form-urlencoded")
        .body_str("branch=branch&commit_message=commit+message&author_name=Arthur+Developer&content=file+contents")
        .build()
        .unwrap();
    let client = SingleTestClient::new_raw(endpoint, "");

    let endpoint = UpdateFile::builder()
        .project("simple/project")
        .file_path("path/to/file")
        .branch("branch")
        .content(&b"file contents"[..])
        .commit_message("commit message")
        .author_name("Arthur Developer")
        .build()
        .unwrap();
    ignore(endpoint).query(&client, read_json).unwrap();
}
