#![allow(unused_imports, dead_code, deprecated)]

use gitlab::api::{ignore, raw};
use gitlab::common::{Method, Timestamp};
use gitlab::test::client::{ExpectedUrl, SingleTestClient};
use gitlab::api::common::{EnableState, SortOrder};
use gitlab::api::users::{ExternalProvider, UserOrderBy, Users};

fn json_value(v: &serde_json::Value) -> gitlab::json::JsonValue {
    match v {
        serde_json::Value::Null => gitlab::json::JsonValue::Null,
        serde_json::Value::Bool(b) => gitlab::json::JsonValue::Bool(*b),
        serde_json::Value::Number(n) => match (n.as_u64(), n.as_i64()) {
            (Some(u), _) => gitlab::json::JsonValue::UInt(u),
            (None, Some(i)) => gitlab::json::JsonValue::Int(i),
            _ => gitlab::json::JsonValue::Float(n.to_string()),
        },
        serde_json::Value::String(s) => gitlab::json::JsonValue::String(s.clone()),
        serde_json::Value::Array(items) => gitlab::json::JsonValue::Array(items.iter().map(json_value).collect()),
        serde_json::Value::Object(members) => {
            gitlab::json::JsonValue::Object(members.iter().map(|(k, v)| (k.clone(), json_value(v))).collect())
        },
    }
}

fn read_json(body: Vec<u8>) -> Result<gitlab::json::JsonValue, String> {
    serde_json::from_slice::<serde_json::Value>(&body)
        .map(|v| json_value(&v))
        .map_err(|e| e.to_string())
}

fn ts(y: i32, mo: u32, d: u32, h: u32, mi: u32, s: u32, ms: u32) -> Timestamp {
    let dt = chrono::NaiveDate::from_ymd_opt(y, mo, d)
        .unwrap()
        .and_hms_milli_opt(h, mi, s, ms)
        .unwrap()
        .and_utc();
    Timestamp::from_unix(dt.timestamp(), dt.timestamp_subsec_nanos()).unwrap()
}

#[test]
fn order_by_default() {
    assert_eq!(UserOrderBy::default(), UserOrderBy::Id);
}

#[test]
fn order_by_as_str() {
    let items = &[
        (UserOrderBy::Id, "id"),
        (UserOrderBy::Name, "name"),
        (UserOrderBy::Username, "username"),
        (UserOrderBy::CreatedAt, "created_at"),
        (UserOrderBy::UpdatedAt, "updated_at"),
    ];

    for (i, s) in items {
        assert_eq!(i.as_str(), *s);
    }
}

#[test]
fn external_provider_uid_and_name_are_necessary() {
    let err = ExternalProvider::builder().build().unwrap_err();
    assert_eq!(err.field(), "uid");
}

#[test]
fn external_provider_uid_is_necessary() {
    let err = ExternalProvider::builder()
        .name("name")
        .build()
        .unwrap_err();
    assert_eq!(err.field(), "uid");
}

#[test]
fn external_provider_name_is_necessary() {
    let err = ExternalProvider::builder().uid("1").build().unwrap_err();
    assert_eq!(err.field(), "name");
}

#[test]
fn external_provider_uid_and_name_are_sufficient() {
    ExternalProvider::builder()
        .uid("1")
        .name("name")
        .build()
        .unwrap();
}

#[test]
fn users_defaults_are_sufficient() {
    Users::builder().build().unwrap();
}

#[test]
fn users_endpoint() {
    let endpoint = ExpectedUrl::builder().endpoint("users").build().unwrap();
    let client = SingleTestClient::new_raw(endpoint, "");

    let endpoint = Users::builder().build().unwrap();
    ignore(endpoint).query(&client, read_json).unwrap();
}

#[test]
fn users_endpoint_search() {
    let endpoint = ExpectedUrl::builder()
        .endpoint("users")
        .add_query_params(&[("search", "special/query")])
        .build()
        .unwrap();
    let client = SingleTestClient::new_raw(endpoint, "");

    let endpoint = Users::builder().search("special/query").build().unwrap();
    ignore(endpoint).query(&client, read_json).unwrap();
}

#[test]
fn endpoint_username() {
    let endpoint = ExpectedUrl::builder()
        .endpoint("users")
        .add_query_params(&[("username", "user")])
        .build()
        .unwrap();
    let client = SingleTestClient::new_raw(endpoint, "");

    let endpoint = Users::builder().username("user").build().unwrap();
    ignore(endpoint).query(&client, read_json).unwrap();
}

#[test]
fn endpoint_active() {
    let endpoint = ExpectedUrl::builder()
        .endpoint("users")
        .add_query_params(&[("active", "true")])
        .build()
        .unwrap();
    let client = SingleTestClient::new_raw(endpoint, "");

    let endpoint = Users::builder().active(()).build().unwrap();
    ignore(endpoint).query(&client, read_json).unwrap();
}

#[test]
fn endpoint_blocked() {
    let endpoint = ExpectedUrl::builder()
        .endpoint("users")
        .add_query_params(&[("blocked", "true")])
        .build()
        .unwrap();
    let client = SingleTestClient::new_raw(endpoint, "");

    let endpoint = Users::builder().blocked(()).build().unwrap();
    ignore(endpoint).query(&client, read_json).unwrap();
}

#[test]
fn endpoint_external_provider() {
    let endpoint = ExpectedUrl::builder()
        .endpoint("users")
        .add_query_params(&[("extern_uid", "1"), ("provider", "provider")])
        .build()
        .unwrap();
    let client = SingleTestClient::new_raw(endpoint, "");

    let endpoint = Users::builder()
        .external_provider(ExternalProvider {
            uid: "1".into(),
            name: "provider".into(),
        })
        .build()
        .unwrap();
    ignore(endpoint).query(&client, read_json).unwrap();
}

#[test]
fn endpoint_external() {
    let endpoint = ExpectedUrl::builder()
        .endpoint("users")
        .add_query_params(&[("external", "false")])
        .build()
        .unwrap();
    let client = SingleTestClient::new_raw(endpoint, "");

    let endpoint = Users::builder().external(false).build().unwrap();
    ignore(endpoint).query(&client, read_json).unwrap();
}

#[test]
fn endpoint_created_before() {
    let endpoint = ExpectedUrl::builder()
        .endpoint("users")
        .add_query_params(&[("created_before", "2020-01-01T00:00:00Z")])
        .build()
        .unwrap();
    let client = SingleTestClient::new_raw(endpoint, "");

    let endpoint = Users::builder()
        .created_before(ts(2020, 1, 1, 0, 0, 0, 0))
        .build()
        .unwrap();
    ignore(endpoint).query(&client, read_json).unwrap();
}

#[test]
fn endpoint_created_after() {
    let endpoint = ExpectedUrl::builder()
        .endpoint("users")
        .add_query_params(&[("created_after", "2020-01-01T00:00:00Z")])
        .build()
        .unwrap();
    let client = SingleTestClient::new_raw(endpoint, "");

    let endpoint = Users::builder()
        .created_after(ts(2020, 1, 1, 0, 0, 0, 0))
        .build()
        .unwrap();
    ignore(endpoint).query(&client, read_json).unwrap();
}

#[test]
fn endpoint_custom_attributes() {
    let endpoint = ExpectedUrl::builder()
        .endpoint("users")
        .add_query_params(&[
            ("custom_attributes[key]", "value"),
            ("custom_attributes[key2]", "value"),
            ("custom_attributes[key3]", "value&value"),
        ])
        .build()
        .unwrap();
    let client = SingleTestClient::new_raw(endpoint, "");

    let endpoint = Users::builder()
        .custom_attribute("key", "value")
        .custom_attributes(&[("key2", "value"), ("key3", "value&value")])
        .build()
        .unwrap();
    ignore(endpoint).query(&client, read_json).unwrap();
}

#[test]
fn endpoint_with_custom_attributes() {
    let endpoint = ExpectedUrl::builder()
        .endpoint("users")
        .add_query_params(&[("with_custom_attributes", "true")])
        .build()
        .unwrap();
    let client = SingleTestClient::new_raw(endpoint, "");

    let endpoint = Users::builder()
        .with_custom_attributes(true)
        .build()
        .unwrap();
    ignore(endpoint).query(&client, read_json).unwrap();
}

#[test]
fn users_endpoint_order_by() {
    let endpoint = ExpectedUrl::builder()
        .endpoint("users")
        .add_query_params(&[("order_by", "id")])
        .build()
        .unwrap();
    let client = SingleTestClient::new_raw(endpoint, "");

    let endpoint = Users::builder().order_by(UserOrderBy::Id).build().unwrap();
    ignore(endpoint).query(&client, read_json).unwrap();
}

#[test]
fn users_endpoint_sort() {
    let endpoint = ExpectedUrl::builder()
        .endpoint("users")
        .add_query_params(&[("sort", "desc")])
        .build()
        .unwrap();
    let client = SingleTestClient::new_raw(endpoint, "");

    let endpoint = Users::builder()
        .sort(SortOrder::Descending)
        .build()
        .unwrap();
    ignore(endpoint).query(&client, read_json).unwrap();
}

#[test]
fn endpoint_two_factor() {
    let endpoint = ExpectedUrl::builder()
        .endpoint("users")
        .add_query_params(&[("two_factor", "disabled")])
        .build()
        .unwrap();
    let client = SingleTestClient::new_raw(endpoint, "");

    let endpoint = Users::builder()
        .two_factor(EnableState::Disabled)
        .build()
        .unwrap();
    ignore(endpoint).query(&client, read_json).unwrap();
}

#[test]
fn endpoint_without_projects() {
    let endpoint = ExpectedUrl::builder()
        .endpoint("users")
        .add_query_params(&[("without_projects", "false")])
        .build()
        .unwrap();
    let client = SingleTestClient::new_raw(endpoint, "");

    let endpoint = Users::builder().without_projects(false).build().unwrap();
    ignore(endpoint).query(&client, read_json).unwrap();
}

#[test]
fn endpoint_exclude_internal() {
    let endpoint = ExpectedUrl::builder()
        .endpoint("users")
        .add_query_params(&[("exclude_internal", "false")])
        .build()
        .unwrap();
    let client = SingleTestClient::new_raw(endpoint, "");

    let endpoint = Users::builder().exclude_internal(false).build().unwrap();
    ignore(endpoint).query(&client, read_json).unwrap();
}

#[test]
fn endpoint_admins() {
    let endpoint = ExpectedUrl::builder()
        .endpoint("users")
        .add_query_params(&[("admins", "false")])
        .build()
        .unwrap();
    let client = SingleTestClient::new_raw(endpoint, "");

    let endpoint = Users::builder().admins(false).build().unwrap();
    ignore(endpoint).query(&client, read_json).unwrap();
}
