#![allow(unused_imports, dead_code, deprecated)]

use gitlab::api::{ignore, raw};
use gitlab::common::{Method, Timestamp};
use gitlab::test::client::{ExpectedUrl, SingleTestClient};
use gitlab::api::projects::repository::tags::CreateTag;

fn json_value(v: &serde_json::Value) -> gitlab::json::JsonValue {
    match v {
        serde_json::Value::Null => gitlab::json::JsonValue::Null,
        serde_json::Value::Bool(b) => gitlab::json::JsonValue::Bool(*b),
        serde_json::Value::Number(n) => match (n.as_u64(), n.as_i64()) {
            (Some(u), _) => gitlab::json::JsonValue::UInt(u),
            (None, Some(i)) => gitlab::json::JsonValue::Int(i),
            _ => gitlab::json::JsonValue::Float(n.to_string()),
        },
        serde_json::Value::String(s) => gitlab::json::JsonValue::String(s.clone()),
        serde_json::Value::Array(items) => gitlab::json::JsonValue::Array(items.iter().map(json_value).collect()),
        serde_json::Value::Object(members) => {
            gitlab::json::JsonValue::Object(members.iter().map(|(k, v)| (k.clone(), json_value(v))).collect())
        },
    }
}

fn read_json(body: Vec<u8>) -> Result<gitlab::json::JsonValue, String> {
    serde_json::from_slice::<serde_json::Value>(&body)
        .map(|v| json_value(&v))
        .map_err(|e| e.to_string())
}

fn ts(y: i32, mo: u32, d: u32, h: u32, mi: u32, s: u32, ms: u32) -> Timestamp {
    let dt = chrono::NaiveDate::from_ymd_opt(y, mo, d)
        .unwrap()
        .and_hms_milli_opt(h, mi, s, ms)
        .unwrap()
        .and_utc();
    Timestamp::from_unix(dt.timestamp(), dt.timestamp_subsec_nanos()).unwrap()
}

#[test]
fn tags_create_project_is_necessary() {
    let err = CreateTag::builder()
        .tag_name("tag")
        .ref_("ref")
        .build()
        .unwrap_err();
    assert_eq!(err.message(), "`project` must be initialized");
}

#[test]
fn tag_name_is_necessary() {
    let err = CreateTag::builder()
        .project(1)
        .ref_("ref")
        .build()
        .unwrap_err();
    assert_eq!(err.message(), "`tag_name` must be initialized");
}

#[test]
fn ref_is_necessary() {
    let err = CreateTag::builder()
        .project(1)
        .tag_name("a-tag-name")
        .build()
        .unwrap_err();
    assert_eq!(err.message(), "`ref_` must be initialized");
}

#[test]
fn project_tag_name_and_ref_is_sufficient() {
    CreateTag::builder()
        .project(1)
        .tag_name("a-tag-name")
        .ref_("0000000000000000000000000000000000000000")
        .build()
        .unwrap();
}

#[test]
fn tags_create_endpoint() {
    let endpoint = ExpectedUrl::builder()
        .method(Method::Post)
        .endpoint("projects/simple%2Fproject/repository/tags")
        .content_type("application/x-www-form-urlencoded")
        .body_str("tag_name=a-tag&ref=0000000000000000000000000000000000000000")
        .build()
        .unwrap();
    let client = SingleTestClient::new_raw(endpoint, "");

    let endpoint = CreateTag::builder()
        .project("simple/project")
        .tag_name("a-tag")
        .ref_("0000000000000000000000000000000000000000")
        .build()
        .unwrap();
    ignore(endpoint).query(&client, read_json).unwrap();
}

#[test]
fn endpoint_message() {
    let endpoint = ExpectedUrl::builder()
        .method(Method::Post)
        .endpoint("projects/simple%2Fproject/repository/tags")
        .content_type("application/x-www-form-urlencoded")
        .body_str("tag_name=a-tag&ref=0000000000000000000000000000000000000000&message=Hi+there")
        .build()
        .unwrap();
    let client = SingleTestClient::new_raw(endpoint, "");

    let endpoint = CreateTag::builder()
        .project("simple/project")
        .tag_name("a-tag")
        .ref_("0000000000000000000000000000000000000000")
        .message("Hi there")
        .build()
        .unwrap();
    ignore(endpoint).query(&client, read_json).unwrap();
}
