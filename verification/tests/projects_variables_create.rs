#![allow(unused_imports, dead_code, deprecated)]

use gitlab::api::{ignore, raw};
use gitlab::common::{Method, Timestamp};
use gitlab::test::client::{ExpectedUrl, SingleTestClient};
use gitlab::api::projects::variables::{CreateProjectVariable, ProjectVariableType};

fn json_value(v: &serde_json::Value) -> gitlab::json::JsonValue {
    match v {
        serde_json::Value::Null => gitlab::json::JsonValue::Null,
        serde_json::Value::Bool(b) => gitlab::json::JsonValue::Bool(*b),
        serde_json::Value::Number(n) => match (n.as_u64(), n.as_i64()) {
            (Some(u), _) => gitlab::json::JsonValue::UInt(u),
            (None, Some(i)) => gitlab::json::JsonValue::Int(i),
            _ => gitlab::json::JsonValue::Float(n.to_string()),
        },
        serde_json::Value::String(s) => gitlab::json::JsonValue::String(s.clone()),
        serde_json::Value::Array(items) => gitlab::json::JsonValue::Array(items.iter().map(json_value).collect()),
        serde_json::Value::Object(members) => {
            gitlab::json::JsonValue::Object(members.iter().map(|(k, v)| (k.clone(), json_value(v))).collect())
        },
    }
}

fn read_json(body: Vec<u8>) -> Result<gitlab::json::JsonValue, String> {
    serde_json::from_slice::<serde_json::Value>(&body)
        .map(|v| json_value(&v))
        .map_err(|e| e.to_string())
}

fn ts(y: i32, mo: u32, d: u32, h: u32, mi: u32, s: u32, ms: u32) -> Timestamp {
    let dt = chrono::NaiveDate::from_ymd_opt(y, mo, d)
        .unwrap()
        .and_hms_milli_opt(h, mi, s, ms)
        .unwrap()
        .and_utc();
    Timestamp::from_unix(dt.timestamp(), dt.timestamp_subsec_nanos()).unwrap()
}

#[test]
fn project_variable_type_as_str() {
    let items = &[
        (ProjectVariableType::EnvVar, "env_var"),
        (ProjectVariableType::File, "file"),
    ];

    for (i, s) in items {
        assert_eq!(i.as_str(), *s);
    }
}

#[test]
fn variables_create_all_parameters_are_needed() {
    let err = CreateProjectVariable::builder().build().unwrap_err();
    assert_eq!(err.field(), "project");
}

#[test]
fn variables_create_project_is_necessary() {
    let err = CreateProjectVariable::builder()
        .key("testkey")
        .value("testvalue")
        .build()
        .unwrap_err();
    assert_eq!(err.field(), "project");
}

#[test]
fn create_key_is_necessary() {
    let err = CreateProjectVariable::builder()
        .project(1)
        .value("testvalue")
        .build()
        .unwrap_err();
    assert_eq!(err.field(), "key");
}

#[test]
fn create_value_level_is_necessary() {
    let err = CreateProjectVariable::builder()
        .project(1)
        .key("testkey")
        .build()
        .unwrap_err();
    assert_eq!(err.field(), "value");
}

#[test]
fn variables_create_sufficient_parameters() {
    CreateProjectVariable::builder()
        .project(1)
        .key("testkey")
        .value("testvalue")
        .build()
        .unwrap();
}

#[test]
fn variables_create_endpoint() {
    let endpoint = ExpectedUrl::builder()
        .method(Method::Post)
        .endpoint("projects/simple%2Fproject/variables")
        .content_type("application/x-www-form-urlencoded")
        .body_str("key=testkey&value=testvalue")
        .build()
        .unwrap();
    let client = SingleTestClient::new_raw(endpoint, "");

    let endpoint = CreateProjectVariable::builder()
        .project("simple/project")
        .key("testkey")
        .value("testvalue")
        .build()
        .unwrap();
    ignore(endpoint).query(&client, read_json).unwrap();
}

#[test]
fn create_endpoint_variable_type() {
    let endpoint = ExpectedUrl::builder()
        .method(Method::Post)
        .endpoint("projects/simple%2Fproject/variables")
        .content_type("application/x-www-form-urlencoded")
        .body_str("key=testkey&value=testvalue&variable_type=file")
        .build()
        .unwrap();
    let client = SingleTestClient::new_raw(endpoint, "");

    let endpoint = CreateProjectVariable::builder()
        .project("simple/project")
        .key("testkey")
        .value("testvalue")
        .variable_type(ProjectVariableType::File)
        .build()
        .unwrap();
    ignore(endpoint).query(&client, read_json).unwrap();
}

#[test]
fn create_endpoint_protected() {
    let endpoint = ExpectedUrl::builder()
        .method(Method::Post)
        .endpoint("projects/simple%2Fproject/variables")
        .content_type("application/x-www-form-urlencoded")
        .body_str("key=testkey&value=testvalue&protected=true")
        .build()
        .unwrap();
    let client = SingleTestClient::new_raw(endpoint, "");

    let endpoint = CreateProjectVariable::builder()
        .project("simple/project")
        .key("testkey")
        .value("testvalue")
        .protected(true)
        .build()
        .unwrap();
    ignore(endpoint).query(&client, read_json).unwrap();
}

#[test]
fn create_endpoint_masked() {
    let endpoint = ExpectedUrl::builder()
        .method(Method::Post)
        .endpoint("projects/simple%2Fproject/variables")
        .content_type("application/x-www-form-urlencoded")
        .body_str("key=testkey&value=testvalue&masked=true")
        .build()
        .unwrap();
    let client = SingleTestClient::new_raw(endpoint, "");

    let endpoint = CreateProjectVariable::builder()
        .project("simple/project")
        .key("testkey")
        .value("testvalue")
        .masked(true)
        .build()
        .unwrap();
    ignore(endpoint).query(&client, read_json).unwrap();
}

#[test]
fn create_endpoint_environment_scope() {
    let endpoint = ExpectedUrl::builder()
        .method(Method::Post)
        .endpoint("projects/simple%2Fproject/variables")
        .content_type("application/x-www-form-urlencoded")
        .body_str("key=testkey&value=testvalue&environment_scope=*")
        .build()
        .unwrap();
    let client = SingleTestClient::new_raw(endpoint, "");

    let endpoint = CreateProjectVariable::builder()
        .project("simple/project")
        .key("testkey")
        .value("testvalue")
        .environment_scope("*")
        .build()
        .unwrap();
    ignore(endpoint).query(&client, read_json).unwrap();
}
