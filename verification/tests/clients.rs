use gitlab::api::client::{Client, RestRequest};
use gitlab::api::projects::repository::branches::Branches;
use gitlab::api::projects::repository::tags::CreateTag;
use gitlab::api::retry::{is_server_error, should_backoff, RetryDecision, RetryState};
use gitlab::api::users::CurrentUser;
use gitlab::api::{ignore, raw, sudo, ApiError};
use gitlab::auth::{Auth, AuthError};
use gitlab::common::Method;
use gitlab::json::JsonValue;
use gitlab::params::Params;
use gitlab::test::client::{
    ExpectedUrl, Page, PagedTestClient, SingleTestClient, TestClientError,
};
use gitlab::text::parse_usize;

fn json_value(v: &serde_json::Value) -> gitlab::json::JsonValue {
    match v {
        serde_json::Value::Null => gitlab::json::JsonValue::Null,
        serde_json::Value::Bool(b) => gitlab::json::JsonValue::Bool(*b),
        serde_json::Value::Number(n) => match (n.as_u64(), n.as_i64()) {
            (Some(u), _) => gitlab::json::JsonValue::UInt(u),
            (None, Some(i)) => gitlab::json::JsonValue::Int(i),
            _ => gitlab::json::JsonValue::Float(n.to_string()),
        },
        serde_json::Value::String(s) => gitlab::json::JsonValue::String(s.clone()),
        serde_json::Value::Array(items) => gitlab::json::JsonValue::Array(items.iter().map(json_value).collect()),
        serde_json::Value::Object(members) => {
            gitlab::json::JsonValue::Object(members.iter().map(|(k, v)| (k.clone(), json_value(v))).collect())
        },
    }
}

fn read_json(body: Vec<u8>) -> Result<gitlab::json::JsonValue, String> {
    serde_json::from_slice::<serde_json::Value>(&body)
        .map(|v| json_value(&v))
        .map_err(|e| e.to_string())
}

fn client_error<T: std::fmt::Debug>(r: Result<T, ApiError<TestClientError>>) -> TestClientError {
    match r {
        Err(ApiError::Client { source }) => source,
        other => panic!("unexpected: {:?}", other),
    }
}

#[test]
fn test_gitlab_non_json_response() {
    let endpoint = ExpectedUrl::builder().endpoint("user").build().unwrap();
    let client = SingleTestClient::new_raw(endpoint, "not json");
    let data = raw(CurrentUser::builder().build().unwrap()).query(&client, read_json).unwrap();
    assert_eq!(data, b"not json".to_vec());
}

#[test]
fn error_statuses_read_the_body() {
    let endpoint = ExpectedUrl::builder().endpoint("user").status(404).build().unwrap();
    let client = SingleTestClient::new_raw(endpoint, "gone");
    match raw(CurrentUser::builder().build().unwrap()).query(&client, read_json) {
        Err(ApiError::Json { source }) => assert!(source.starts_with("expected value")),
        other => panic!("unexpected: {:?}", other),
    }
    let endpoint = ExpectedUrl::builder().endpoint("user").status(503).build().unwrap();
    let client = SingleTestClient::new_raw(endpoint, r#"{"message": "try later"}"#);
    match ignore(CurrentUser::builder().build().unwrap()).query(&client, read_json) {
        Err(ApiError::Gitlab { msg }) => assert_eq!(msg, "try later"),
        other => panic!("unexpected: {:?}", other),
    }
}

#[test]
fn mismatches_are_reported() {
    let branches = || Branches::builder().project("simple/project").build().unwrap();
    let expected = ExpectedUrl::builder()
        .endpoint("projects/simple%2Fproject/repository/branches")
        .method(Method::Post)
        .build()
        .unwrap();
    let client = SingleTestClient::new_raw(expected, "");
    assert_eq!(client_error(ignore(branches()).query(&client, read_json)), TestClientError::Method);

    let expected = ExpectedUrl::builder().endpoint("projects/other").build().unwrap();
    let client = SingleTestClient::new_raw(expected, "");
    assert_eq!(client_error(ignore(branches()).query(&client, read_json)), TestClientError::Endpoint);

    let expected = ExpectedUrl::builder()
        .endpoint("projects/simple%2Fproject/repository/branches")
        .add_query_params(&[("search", "x")])
        .build()
        .unwrap();
    let client = SingleTestClient::new_raw(expected, "");
    assert_eq!(client_error(ignore(branches()).query(&client, read_json)), TestClientError::Query);

    let tag = || {
        CreateTag::builder()
            .project("simple/project")
            .tag_name("a-tag")
            .ref_("master")
            .build()
            .unwrap()
    };
    let expected = ExpectedUrl::builder()
        .endpoint("projects/simple%2Fproject/repository/tags")
        .method(Method::Post)
        .content_type("application/x-www-form-urlencoded")
        .body_str("tag_name=a-tag")
        .build()
        .unwrap();
    let client = SingleTestClient::new_raw(expected, "");
    assert_eq!(client_error(ignore(tag()).query(&client, read_json)), TestClientError::Body);

    let expected = ExpectedUrl::builder()
        .endpoint("projects/simple%2Fproject/repository/tags")
        .method(Method::Post)
        .body_str("tag_name=a-tag&ref=master")
        .build()
        .unwrap();
    let client = SingleTestClient::new_raw(expected, "");
    assert_eq!(client_error(ignore(tag()).query(&client, read_json)), TestClientError::ContentType);
}

#[test]
fn sudo_adds_the_user() {
    let expected = ExpectedUrl::builder()
        .endpoint("user")
        .add_query_params(&[("sudo", "someone")])
        .build()
        .unwrap();
    let client = SingleTestClient::new_raw(expected, "");
    ignore(sudo(CurrentUser::builder().build().unwrap(), "someone")).query(&client, read_json).unwrap();
}

fn read_user(v: JsonValue) -> Result<(), String> {
    match (v.get("id"), v.get("username")) {
        (Some(JsonValue::UInt(_)), Some(JsonValue::String(_))) => Ok(()),
        _ => Err("missing field `id` or `username`".to_string()),
    }
}

#[test]
fn check_connection_asks_for_the_user() {
    let expected = ExpectedUrl::builder().endpoint("user").build().unwrap();
    let client = SingleTestClient::new_raw(expected, r#"{"id": 1, "username": "root"}"#);
    Auth::Token("t".to_string()).check_connection(&client, read_json, read_user).unwrap();
    let expected = ExpectedUrl::builder().endpoint("nothing").build().unwrap();
    let client = SingleTestClient::new_raw(expected, "");
    Auth::Unauthenticated.check_connection(&client, read_json, read_user).unwrap();
    assert!(Auth::OAuth2("t".to_string()).check_connection(&client, read_json, read_user).is_err());
}

#[test]
fn check_connection_reads_the_user() {
    let expected = ExpectedUrl::builder().endpoint("user").build().unwrap();
    let client = SingleTestClient::new_raw(expected, "{}");
    match Auth::Token("t".to_string()).check_connection(&client, read_json, read_user) {
        Err(ApiError::DataType { source, typename }) => {
            assert_eq!(source, "missing field `id` or `username`");
            assert_eq!(typename, "gitlab::types::UserPublic");
        },
        other => panic!("unexpected: {:?}", other),
    }
    let expected = ExpectedUrl::builder().endpoint("user").build().unwrap();
    let client = SingleTestClient::new_raw(expected, "not json");
    assert!(matches!(
        Auth::Token("t".to_string()).check_connection(&client, read_json, read_user),
        Err(ApiError::Json { .. })
    ));
    let expected = ExpectedUrl::builder().endpoint("user").status(401).build().unwrap();
    let client = SingleTestClient::new_raw(expected, r#"{"message": "401 Unauthorized"}"#);
    match Auth::Token("t".to_string()).check_connection(&client, read_json, read_user) {
        Err(ApiError::Gitlab { msg }) => assert_eq!(msg, "401 Unauthorized"),
        other => panic!("unexpected: {:?}", other),
    }
}

#[test]
fn header_values_are_checked() {
    assert_eq!(
        Auth::Token("secret".to_string()).set_header().unwrap(),
        Some(("PRIVATE-TOKEN", "secret".to_string()))
    );
    assert_eq!(
        Auth::OAuth2("tok\tab".to_string()).set_header().unwrap().unwrap().1,
        "Bearer tok\tab"
    );
    assert_eq!(Auth::Unauthenticated.set_header().unwrap(), None);
    assert!(matches!(Auth::Token("a\nb".to_string()).set_header(), Err(AuthError::HeaderValue)));
    assert!(matches!(Auth::OAuth2("a\u{7f}".to_string()).set_header(), Err(AuthError::HeaderValue)));
    assert!(gitlab::auth::header_value_ok("é"));
}

fn paged_request(query: &[(&str, &str)]) -> RestRequest {
    let mut params = Params::new();
    for (k, v) in query {
        params.push_str(k, v);
    }
    RestRequest {
        method: Method::Get,
        endpoint: "items".to_string(),
        query: params,
        body: None,
    }
}

fn paged_client(n: usize) -> PagedTestClient {
    let expected = ExpectedUrl::builder().endpoint("items").paginated(true).build().unwrap();
    PagedTestClient::new_raw(expected, (0..n).map(|i| i.to_string()).collect())
}

#[test]
fn paged_client_pages_by_number() {
    let client = paged_client(5);
    let rsp = client.rest(paged_request(&[("page", "2"), ("per_page", "2")])).unwrap();
    assert_eq!(rsp.body, b"[2,3]".to_vec());
    assert!(rsp.headers.is_empty());
    let rsp = client.rest(paged_request(&[("page", "3"), ("per_page", "2")])).unwrap();
    assert_eq!(rsp.body, b"[4]".to_vec());
    let rsp = client.rest(paged_request(&[])).unwrap();
    assert_eq!(rsp.body, b"[0,1,2,3,4]".to_vec());
    let rsp = client.rest(paged_request(&[("page", "4"), ("per_page", "2")]));
    assert_eq!(client_error(rsp), TestClientError::Pagination);
    let rsp = client.rest(paged_request(&[("page", "0")]));
    assert_eq!(client_error(rsp), TestClientError::Pagination);
    let rsp = client.rest(paged_request(&[("page", "two")]));
    assert_eq!(client_error(rsp), TestClientError::Pagination);
}

#[test]
fn paged_client_pages_by_keyset() {
    let client = paged_client(5);
    let rsp = client
        .rest(paged_request(&[("pagination", "keyset"), ("per_page", "2")]))
        .unwrap();
    assert_eq!(rsp.body, b"[0,1]".to_vec());
    assert_eq!(rsp.headers.len(), 1);
    assert_eq!(rsp.headers[0].0, "Link");
    assert_eq!(
        rsp.headers[0].1,
        "<https://gitlab.host.invalid/api/v4/items?pagination=keyset&per_page=2&__test_keyset=2>; rel=\"next\"",
    );
    let rsp = client
        .rest(paged_request(&[("pagination", "keyset"), ("__test_keyset", "3"), ("per_page", "2")]))
        .unwrap();
    assert_eq!(rsp.body, b"[3,4]".to_vec());
    assert!(rsp.headers.is_empty());
    let rsp = client.rest(paged_request(&[("pagination", "offset")]));
    assert_eq!(client_error(rsp), TestClientError::Pagination);
}

#[test]
fn page_ranges() {
    assert_eq!(Page::ByNumber { number: 3, size: 20 }.range(), (40, 60));
    assert_eq!(Page::ByKeyset { start: 7, size: 5 }.range(), (7, 12));
}

#[test]
fn decimal_parsing() {
    assert_eq!(parse_usize("42"), Some(42));
    assert_eq!(parse_usize("+7"), Some(7));
    assert_eq!(parse_usize("007"), Some(7));
    assert_eq!(parse_usize(""), None);
    assert_eq!(parse_usize("+"), None);
    assert_eq!(parse_usize("-1"), None);
    assert_eq!(parse_usize("1a"), None);
    assert_eq!(parse_usize("99999999999999999999999"), None);
    assert_eq!(parse_usize(&usize::MAX.to_string()), Some(usize::MAX));
}

#[test]
fn retry_gives_up_after_the_limit() {
    let mut state = RetryState::new(3);
    assert!(state.can_attempt());
    assert_eq!(state.record(true), RetryDecision::Wait);
    assert_eq!(state.record(true), RetryDecision::Wait);
    assert!(state.can_attempt());
    assert_eq!(state.record(true), RetryDecision::Wait);
    assert!(!state.can_attempt());
    let mut state = RetryState::new(3);
    assert_eq!(state.record(false), RetryDecision::Finish);
}

#[test]
fn server_errors() {
    assert!(is_server_error(500));
    assert!(is_server_error(599));
    assert!(!is_server_error(404));
    assert!(!is_server_error(600));
    assert!(should_backoff(Some(502)));
    assert!(!should_backoff(Some(429)));
    assert!(!should_backoff(None));
}

#[test]
fn test_gitlab_error_bad_json() {
    let endpoint = ExpectedUrl::builder().endpoint("user").status(404).build().unwrap();
    let client = SingleTestClient::new_raw(endpoint, "");
    match raw(CurrentUser {}).query(&client, read_json) {
        Err(ApiError::Json { source }) => {
            assert_eq!(format!("{}", source), "EOF while parsing a value at line 1 column 0");
        },
        other => panic!("unexpected error: {:?}", other),
    }
}

#[test]
fn test_gitlab_error_detection() {
    let endpoint = ExpectedUrl::builder().endpoint("user").status(404).build().unwrap();
    let client = SingleTestClient::new_raw(endpoint, r#"{"message": "dummy error message"}"#);
    match raw(CurrentUser {}).query(&client, read_json) {
        Err(ApiError::Gitlab { msg }) => assert_eq!(msg, "dummy error message"),
        other => panic!("unexpected error: {:?}", other),
    }
}

#[test]
fn test_gitlab_error_detection_legacy() {
    let endpoint = ExpectedUrl::builder().endpoint("user").status(404).build().unwrap();
    let client = SingleTestClient::new_raw(endpoint, r#"{"error": "dummy error message"}"#);
    match raw(CurrentUser {}).query(&client, read_json) {
        Err(ApiError::Gitlab { msg }) => assert_eq!(msg, "dummy error message"),
        other => panic!("unexpected error: {:?}", other),
    }
}

#[test]
fn test_gitlab_error_detection_unknown() {
    let endpoint = ExpectedUrl::builder().endpoint("user").status(404).build().unwrap();
    let client = SingleTestClient::new_raw(endpoint, r#"{"bogus": "dummy error message"}"#);
    match raw(CurrentUser {}).query(&client, read_json) {
        Err(ApiError::GitlabUnrecognized { obj }) => {
            assert_eq!(obj.get("bogus").and_then(|v| v.as_str()), Some("dummy error message"));
        },
        other => panic!("unexpected error: {:?}", other),
    }
}
