#![allow(unused_imports, dead_code, deprecated)]

use gitlab::api::{ignore, raw};
use gitlab::common::{Method, Timestamp};
use gitlab::test::client::{ExpectedUrl, SingleTestClient};
use gitlab::api::projects::repository::files::FileRaw;

fn json_value(v: &serde_json::Value) -> gitlab::json::JsonValue {
    match v {
        serde_json::Value::Null => gitlab::json::JsonValue::Null,
        serde_json::Value::Bool(b) => gitlab::json::JsonValue::Bool(*b),
        serde_json::Value::Number(n) => match (n.as_u64(), n.as_i64()) {
            (Some(u), _) => gitlab::json::JsonValue::UInt(u),
            (None, Some(i)) => gitlab::json::JsonValue::Int(i),
            _ => gitlab::json::JsonValue::Float(n.to_string()),
        },
        serde_json::Value::String(s) => gitlab::json::JsonValue::String(s.clone()),
        serde_json::Value::Array(items) => gitlab::json::JsonValue::Array(items.iter().map(json_value).collect()),
        serde_json::Value::Object(members) => {
            gitlab::json::JsonValue::Object(members.iter().map(|(k, v)| (k.clone(), json_value(v))).collect())
        },
    }
}

fn read_json(body: Vec<u8>) -> Result<gitlab::json::JsonValue, String> {
    serde_json::from_slice::<serde_json::Value>(&body)
        .map(|v| json_value(&v))
        .map_err(|e| e.to_string())
}

fn ts(y: i32, mo: u32, d: u32, h: u32, mi: u32, s: u32, ms: u32) -> Timestamp {
    let dt = chrono::NaiveDate::from_ymd_opt(y, mo, d)
        .unwrap()
        .and_hms_milli_opt(h, mi, s, ms)
        .unwrap()
        .and_utc();
    Timestamp::from_unix(dt.timestamp(), dt.timestamp_subsec_nanos()).unwrap()
}

#[test]
fn file_raw_all_parameters_are_needed() {
    let err = FileRaw::builder().build().unwrap_err();
    assert_eq!(err.message(), "`project` must be initialized");
}

#[test]
fn file_raw_project_is_required() {
    let err = FileRaw::builder()
        .file_path("new/file")
        .ref_("master")
        .build()
        .unwrap_err();
    assert_eq!(err.message(), "`project` must be initialized");
}

#[test]
fn file_raw_file_path_is_required() {
    let err = FileRaw::builder()
        .project(1)
        .ref_("master")
        .build()
        .unwrap_err();
    assert_eq!(err.message(), "`file_path` must be initialized");
}

#[test]
fn ref_is_required() {
    let err = FileRaw::builder()
        .project(1)
        .file_path("new/file")
        .build()
        .unwrap_err();
    assert_eq!(err.message(), "`ref_` must be initialized");
}

#[test]
fn file_raw_sufficient_parameters() {
    FileRaw::builder()
        .project(1)
        .file_path("new/file")
        .ref_("master")
        .build()
        .unwrap();
}

#[test]
fn file_raw_endpoint() {
    let endpoint = ExpectedUrl::builder()
        .method(Method::Get)
        .endpoint("projects/simple%2Fproject/repository/files/path%2Fto%2Ffile/raw")
        .add_query_params(&[("ref", "branch")])
        .build()
        .unwrap();
    let client = SingleTestClient::new_raw(endpoint, "");

    let endpoint = FileRaw::builder()
        .project("simple/project")
        .file_path("path/to/file")
        .ref_("branch")
        .build()
        .unwrap();
    ignore(endpoint).query(&client, read_json).unwrap();
}
