#![allow(unused_imports, dead_code, deprecated)]

use gitlab::api::{ignore, raw};
use gitlab::common::{Method, Timestamp};
use gitlab::test::client::{ExpectedUrl, SingleTestClient};
use gitlab::api::projects::repository::tags::Tag;

fn json_value(v: &serde_json::Value) -> gitlab::json::JsonValue {
    match v {
        serde_json::Value::Null => gitlab::json::JsonValue::Null,
        serde_json::Value::Bool(b) => gitlab::json::JsonValue::Bool(*b),
        serde_json::Value::Number(n) => match (n.as_u64(), n.as_i64()) {
            (Some(u), _) => gitlab::json::JsonValue::UInt(u),
            (None, Some(i)) => gitlab::json::JsonValue::Int(i),
            _ => gitlab::json::JsonValue::Float(n.to_string()),
        },
        serde_json::Value::String(s) => gitlab::json::JsonValue::String(s.clone()),
        serde_json::Value::Array(items) => gitlab::json::JsonValue::Array(items.iter().map(json_value).collect()),
        serde_json::Value::Object(members) => {
            gitlab::json::JsonValue::Object(members.iter().map(|(k, v)| (k.clone(), json_value(v))).collect())
        },
    }
}

fn read_json(body: Vec<u8>) -> Result<gitlab::json::JsonValue, String> {
    serde_json::from_slice::<serde_json::Value>(&body)
        .map(|v| json_value(&v))
        .map_err(|e| e.to_string())
}

fn ts(y: i32, mo: u32, d: u32, h: u32, mi: u32, s: u32, ms: u32) -> Timestamp {
    let dt = chrono::NaiveDate::from_ymd_opt(y, mo, d)
        .unwrap()
        .and_hms_milli_opt(h, mi, s, ms)
        .unwrap()
        .and_utc();
    Timestamp::from_unix(dt.timestamp(), dt.timestamp_subsec_nanos()).unwrap()
}

#[test]
fn project_and_tag_are_necessary() {
    let err = Tag::builder().build().unwrap_err();
    assert_eq!(err.message(), "`project` must be initialized");
}

#[test]
fn tag_project_is_necessary() {
    let err = Tag::builder().tag_name("master").build().unwrap_err();
    assert_eq!(err.message(), "`project` must be initialized");
}

#[test]
fn tag_is_necessary() {
    let err = Tag::builder().project(1).build().unwrap_err();
    assert_eq!(err.message(), "`tag_name` must be initialized");
}

#[test]
fn project_and_branch_are_sufficient() {
    Tag::builder().project(1).tag_name("a-tag").build().unwrap();
}

#[test]
fn tag_endpoint() {
    let endpoint = ExpectedUrl::builder()
        .endpoint("projects/simple%2Fproject/repository/tags/a-tag")
        .build()
        .unwrap();
    let client = SingleTestClient::new_raw(endpoint, "");

    let endpoint = Tag::builder()
        .project("simple/project")
        .tag_name("a-tag")
        .build()
        .unwrap();
    ignore(endpoint).query(&client, read_json).unwrap();
}
