use gitlab::api::projects::repository::commits::CommitStatusState;
use gitlab::api::ApiError;
use gitlab::auth::Auth;
use gitlab::common::{Endpoint, Method, NameOrId};
use gitlab::gitlab::{
    add_hook, add_user_to_project, create_commit_status, create_group, create_issue,
    create_label, create_merge_request, create_milestone, create_project, gitlab_error_message,
    merge_requests_with_state, next_page, protect_branch, set_project_feature_access_level,
    CertPolicy, ClientRequest, CommitStatusInfo, GitlabBuilder, MergeRequestStateFilter,
};
use gitlab::api::projects::repository::files::{encode_content, Encoding};
use gitlab::hooks::{hook_kind, GitlabHookKind};
use gitlab::json::JsonValue;
use gitlab::params::Params;
use gitlab::types::{
    AccessLevel, BuildGitStrategy, CreateGroupParams, CreateMergeRequestParams,
    CreateProjectParams, FeatureVisibilityLevel, GroupId, Issue, Label, LabelColor,
    MergeMethod, Milestone, ProjectFeatures, ProjectId, StatusState, UserBasic, UserId,
    UserState, VisibilityLevel, WebhookEvents,
};
use gitlab::webhooks::{HookDate, MergeRequestParams, WebHook, WebHookKind, WebHookKindError};

fn pairs(p: &Params) -> Vec<(String, String)> {
    (0..p.len()).map(|i| (p.key(i).clone(), p.value(i).clone())).collect()
}

fn form(r: &ClientRequest) -> Vec<(String, String)> {
    pairs(r.form.as_ref().unwrap())
}

fn kv(items: &[(&str, &str)]) -> Vec<(String, String)> {
    items.iter().map(|(k, v)| (k.to_string(), v.to_string())).collect()
}

fn object(members: &[(&str, JsonValue)]) -> JsonValue {
    JsonValue::Object(members.iter().map(|(k, v)| (k.to_string(), v.clone())).collect())
}

#[test]
fn create_project_without_settings() {
    let r = create_project("My Project", Some("project"), None);
    assert_eq!(r.method, Method::Post);
    assert_eq!(r.endpoint, "projects");
    assert_eq!(r.query.len(), 0);
    assert_eq!(form(&r), kv(&[("name", "My Project"), ("path", "project")]));
    let body = r.body().unwrap();
    assert_eq!(body.0, "application/x-www-form-urlencoded");
    assert_eq!(body.1, b"name=My+Project&path=project".to_vec());
}

#[test]
fn create_project_converts_settings() {
    let params = CreateProjectParams::builder()
        .description("Splendid project")
        .issues_access_level(FeatureVisibilityLevel::Public)
        .pages_access_level(FeatureVisibilityLevel::Public)
        .visibility(VisibilityLevel::Internal)
        .merge_method(MergeMethod::FastForward)
        .tag_list(vec!["a".to_string(), "b".to_string()])
        .build_git_strategy(BuildGitStrategy::Clone)
        .auto_devops_deploy_strategy("sometimes")
        .namespace_id(12)
        .build()
        .unwrap();
    let r = create_project("p", None, Some(&params));
    assert_eq!(
        form(&r),
        kv(&[
            ("name", "p"),
            ("namespace_id", "12"),
            ("description", "Splendid project"),
            ("issues_access_level", "enabled"),
            ("pages_access_level", "public"),
            ("visibility", "internal"),
            ("merge_method", "ff"),
            ("tag_list[]", "a"),
            ("tag_list[]", "b"),
            ("build_git_strategy", "clone"),
        ]),
    );
    let params = CreateProjectParams::builder()
        .auto_devops_deploy_strategy("timed_incremental")
        .build()
        .unwrap();
    let r = create_project("p", None, Some(&params));
    assert_eq!(form(&r), kv(&[("name", "p"), ("auto_devops_deploy_strategy", "timed_incremental")]));
}

#[test]
fn create_group_converts_levels() {
    let params = CreateGroupParams::builder()
        .description("A description")
        .project_creation_level(AccessLevel::Owner)
        .subgroup_creation_level(AccessLevel::Admin)
        .parent_id(GroupId::new(3))
        .build()
        .unwrap();
    let r = create_group("A group", "a-path", Some(&params));
    assert_eq!(r.endpoint, "groups");
    assert_eq!(
        form(&r),
        kv(&[
            ("name", "A group"),
            ("path", "a-path"),
            ("description", "A description"),
            ("project_creation_level", "noone"),
            ("subgroup_creation_level", "owner"),
            ("parent_id", "3"),
        ]),
    );
    let params = CreateGroupParams::builder()
        .project_creation_level(AccessLevel::Guest)
        .subgroup_creation_level(AccessLevel::Developer)
        .build()
        .unwrap();
    let r = create_group("g", "g", Some(&params));
    assert_eq!(form(&r), kv(&[("name", "g"), ("path", "g")]));
}

#[test]
fn create_merge_request_assignees() {
    let params = CreateMergeRequestParams::builder()
        .source_branch("topic")
        .target_branch("master")
        .title("MR")
        .assignee_id(UserId::new(1))
        .assignee_ids(vec![])
        .labels("a,b")
        .build()
        .unwrap();
    let r = create_merge_request(ProjectId::new(9), &params);
    assert_eq!(r.endpoint, "projects/9/merge_requests");
    assert_eq!(
        form(&r),
        kv(&[
            ("source_branch", "topic"),
            ("target_branch", "master"),
            ("title", "MR"),
            ("assignee_ids", "0"),
            ("labels", "a,b"),
        ]),
    );
    let params = CreateMergeRequestParams::builder()
        .assignee_id(UserId::new(1))
        .build()
        .unwrap();
    let r = create_merge_request(ProjectId::new(9), &params);
    assert_eq!(
        form(&r),
        kv(&[("source_branch", ""), ("target_branch", ""), ("title", ""), ("assignee_id", "1")]),
    );
}

#[test]
fn create_label_request() {
    let label = Label::new("bug".to_string(), LabelColor::from_rgb(255, 0, 0)).with_priority(2);
    let r = create_label(ProjectId::new(4), &label);
    assert_eq!(r.endpoint, "projects/4/labels");
    assert_eq!(form(&r), kv(&[("name", "bug"), ("color", "#FF0000"), ("priority", "2")]));
}

#[test]
fn create_milestone_requests() {
    let m = Milestone::new_for_project(ProjectId::new(4), "v1".to_string())
        .with_description("first".to_string());
    let r = create_milestone(&m).unwrap();
    assert_eq!(r.endpoint, "projects/4/milestones");
    assert_eq!(form(&r), kv(&[("title", "v1"), ("description", "first")]));
    let m = Milestone::new_for_group(GroupId::new(8), "v2".to_string())
        .with_start_date(gitlab::common::Date::from_ymd(2021, 3, 1).unwrap());
    let r = create_milestone(&m).unwrap();
    assert_eq!(r.endpoint, "groups/8/milestones");
    assert_eq!(form(&r), kv(&[("title", "v2"), ("start_date", "2021-03-01")]));
    let mut m = m;
    m.group_id = None;
    assert!(create_milestone(&m).is_none());
}

#[test]
fn create_issue_request() {
    let author = UserBasic {
        username: "u".to_string(),
        name: "U".to_string(),
        id: UserId::new(2),
        state: UserState::Active,
        avatar_url: None,
        web_url: "w".to_string(),
    };
    let issue = Issue::new(ProjectId::new(1), "title".to_string(), author.clone())
        .with_created_at(gitlab::common::Timestamp::from_unix(0, 0).unwrap())
        .with_labels(vec!["x".to_string(), "y".to_string()])
        .with_assignees(vec![author]);
    let r = create_issue(ProjectId::new(1), &issue);
    assert_eq!(r.endpoint, "projects/1/issues");
    assert_eq!(
        form(&r),
        kv(&[
            ("title", "title"),
            ("confidential", "false"),
            ("created_at", "1970-01-01T00:00:00Z"),
            ("assignee_ids[]", "2"),
            ("labels", "x,y"),
        ]),
    );
}

#[test]
fn protect_branch_levels() {
    let r = protect_branch(
        ProjectId::new(1),
        "release/*",
        Some(AccessLevel::Reporter),
        Some(AccessLevel::Owner),
        None,
    );
    assert_eq!(r.endpoint, "projects/1/protected_branches");
    assert_eq!(
        form(&r),
        kv(&[("name", "release/*"), ("push_access_level", "0"), ("merge_access_level", "40")]),
    );
}

#[test]
fn feature_level_request() {
    let r = set_project_feature_access_level(
        ProjectId::new(6),
        &ProjectFeatures::Builds(FeatureVisibilityLevel::Public),
    );
    assert_eq!(r.method, Method::Put);
    assert_eq!(r.endpoint, "projects/6");
    assert_eq!(form(&r), kv(&[("builds_access_level", "enabled")]));
}

#[test]
fn merge_requests_state_query() {
    let r = merge_requests_with_state(ProjectId::new(2), MergeRequestStateFilter::Merged);
    assert_eq!(r.method, Method::Get);
    assert_eq!(pairs(&r.query), kv(&[("state", "merged")]));
    assert!(r.form.is_none());
    assert!(r.body().is_none());
    assert_eq!(
        MergeRequestStateFilter::from_name("opened"),
        Some(MergeRequestStateFilter::Opened),
    );
}

#[test]
fn add_hook_request() {
    let events = WebhookEvents::new().with_push().with_pipeline();
    let r = add_hook(ProjectId::new(3), "https://hook", Some(false), Some("secret"), events);
    assert_eq!(
        form(&r),
        kv(&[
            ("url", "https://hook"),
            ("job_events", "false"),
            ("issues_events", "false"),
            ("confidential_issues_events", "false"),
            ("merge_requests_events", "false"),
            ("note_events", "false"),
            ("pipeline_events", "true"),
            ("push_events", "true"),
            ("wiki_page_events", "false"),
            ("enable_ssl_verification", "false"),
            ("token", "secret"),
        ]),
    );
}

#[test]
fn add_user_request() {
    let r = add_user_to_project(ProjectId::new(3), UserId::new(5), AccessLevel::Maintainer);
    assert_eq!(r.endpoint, "projects/3/members");
    assert_eq!(form(&r), kv(&[("user_id", "5"), ("access_level", "40")]));
}

#[test]
fn commit_status_states() {
    let info = CommitStatusInfo {
        refname: Some("master"),
        name: None,
        target_url: None,
        description: Some("desc"),
    };
    let e = create_commit_status(ProjectId::new(1), "0000", StatusState::Running, &info).unwrap();
    assert_eq!(e.project, NameOrId::Id(1));
    assert_eq!(e.state, CommitStatusState::Running);
    assert_eq!(e.ref_.as_deref(), Some("master"));
    assert_eq!(e.description.as_deref(), Some("desc"));
    for s in [StatusState::Created, StatusState::Skipped, StatusState::Manual] {
        assert_eq!(create_commit_status(ProjectId::new(1), "0000", s, &info).unwrap_err(), s);
    }
}

#[test]
fn paging_stops_at_short_pages() {
    assert_eq!(next_page(1, 100, 100), Some(2));
    assert_eq!(next_page(3, 99, 100), None);
    assert_eq!(next_page(3, 0, 100), None);
}

#[test]
fn gitlab_builder_settings() {
    let b = GitlabBuilder::new("gitlab.example.com", "token");
    assert_eq!(b.protocol, "https");
    assert_eq!(b.cert_validation, CertPolicy::Default);
    let b = b.insecure().cert_insecure().oauth2_token();
    assert_eq!(b.protocol, "http");
    assert_eq!(b.cert_validation, CertPolicy::Insecure);
    match b.token {
        Auth::OAuth2(t) => assert_eq!(t, "token"),
        _ => panic!("expected an OAuth2 token"),
    }
}

#[test]
fn auth_headers() {
    let h = Auth::Token("abc".to_string()).header().unwrap();
    assert_eq!((h.0, h.1.as_str()), ("PRIVATE-TOKEN", "abc"));
    let h = Auth::OAuth2("abc".to_string()).header().unwrap();
    assert_eq!((h.0, h.1.as_str()), ("Authorization", "Bearer abc"));
    assert!(Auth::Unauthenticated.header().is_none());
}

#[test]
fn gitlab_error_messages() {
    let v = object(&[("message", JsonValue::String("dummy error message".to_string()))]);
    assert_eq!(gitlab_error_message(&v), "dummy error message");
    let v = object(&[("error", JsonValue::String("legacy".to_string()))]);
    assert_eq!(gitlab_error_message(&v), "legacy");
    let v = object(&[("message", JsonValue::UInt(1)), ("error", JsonValue::String("e".to_string()))]);
    assert_eq!(gitlab_error_message(&v), "<unknown error>");
    assert_eq!(gitlab_error_message(&JsonValue::Null), "<unknown error>");
}

#[test]
fn from_gitlab_reads_the_message() {
    let v = object(&[("message", JsonValue::String("dummy error message".to_string()))]);
    match ApiError::<()>::from_gitlab(v) {
        ApiError::Gitlab { msg } => assert_eq!(msg, "dummy error message"),
        err => panic!("unexpected error: {:?}", err),
    }
}

#[test]
fn from_gitlab_reads_the_legacy_error() {
    let v = object(&[("error", JsonValue::String("dummy error message".to_string()))]);
    match ApiError::<()>::from_gitlab(v) {
        ApiError::Gitlab { msg } => assert_eq!(msg, "dummy error message"),
        err => panic!("unexpected error: {:?}", err),
    }
}

#[test]
fn from_gitlab_keeps_unknown_bodies() {
    let v = object(&[("bogus", JsonValue::String("dummy error message".to_string()))]);
    match ApiError::<()>::from_gitlab(v) {
        ApiError::GitlabUnrecognized { obj: JsonValue::Object(members) } => {
            assert_eq!(members.len(), 1);
            assert_eq!(members[0].0, "bogus");
        },
        err => panic!("unexpected error: {:?}", err),
    }
}

#[test]
fn gitlab_error_objects() {
    let v = object(&[("message", object(&[("field", JsonValue::Bool(true))]))]);
    match ApiError::<()>::from_gitlab(v) {
        ApiError::GitlabObject { obj: JsonValue::Object(members) } => {
            assert_eq!(members[0].0, "field")
        },
        err => panic!("unexpected error: {:?}", err),
    }
}

#[test]
fn json_member_lookup() {
    let v = object(&[
        ("a", JsonValue::UInt(1)),
        ("b", JsonValue::String("x".to_string())),
        ("a", JsonValue::UInt(2)),
    ]);
    assert_eq!(v.get("a").unwrap().as_u64(), Some(1));
    assert_eq!(v.get("b").unwrap().as_str(), Some("x"));
    assert!(v.get("c").is_none());
    assert!(JsonValue::Int(-1).as_u64().is_none());
}

#[test]
fn web_hook_kinds() {
    let kind = |k: &str| WebHook::kind_of(&object(&[("object_kind", JsonValue::String(k.to_string()))]));
    assert_eq!(kind("tag_push").unwrap(), WebHookKind::Push);
    assert_eq!(kind("push").unwrap(), WebHookKind::Push);
    assert_eq!(kind("pipeline").unwrap(), WebHookKind::Pipeline);
    assert_eq!(kind("wiki_page").unwrap(), WebHookKind::WikiPage);
    match kind("wiki") {
        Err(WebHookKindError::UnrecognizedObjectKind(k)) => assert_eq!(k, "wiki"),
        other => panic!("unexpected: {:?}", other),
    }
    assert!(matches!(
        WebHook::kind_of(&object(&[("object_kind", JsonValue::UInt(1))])),
        Err(WebHookKindError::ObjectKindNotAString),
    ));
    assert!(matches!(WebHook::kind_of(&JsonValue::Null), Err(WebHookKindError::MissingObjectKind)));
}

#[test]
fn hook_dates() {
    let d = HookDate::parse("2019-01-31 12:00:00 UTC").unwrap();
    assert_eq!(d.timestamp().seconds(), 1548936000);
    let d = HookDate::parse("2019-01-31T12:00:00+01:00").unwrap();
    assert_eq!(d.timestamp().seconds(), 1548932400);
    let d = HookDate::parse("2019-01-31 12:00:00 +0100").unwrap();
    assert_eq!(d.timestamp().seconds(), 1548932400);
    assert!(HookDate::parse("yesterday").is_none());
}

#[test]
fn force_remove_source_branch_values() {

    let p = |v: Option<JsonValue>| MergeRequestParams { force_remove_source_branch: v };
    assert!(p(Some(JsonValue::String("1".to_string()))).force_remove_source_branch());
    assert!(!p(Some(JsonValue::String("0".to_string()))).force_remove_source_branch());
    assert!(p(Some(JsonValue::Bool(true))).force_remove_source_branch());
    assert!(!p(Some(JsonValue::UInt(1))).force_remove_source_branch());
    assert!(!p(None).force_remove_source_branch());
}

#[test]
fn hook_kinds() {
    let both = object(&[
        ("event_name", JsonValue::String("push".to_string())),
        ("object_kind", JsonValue::String("push".to_string())),
    ]);
    assert_eq!(hook_kind(&both), Some(GitlabHookKind::Web));
    let system = object(&[("event_name", JsonValue::String("project_create".to_string()))]);
    assert_eq!(hook_kind(&system), Some(GitlabHookKind::System));
    assert_eq!(hook_kind(&object(&[])), None);
}

#[test]
fn names_stay_one_path_segment() {
    assert_eq!(gitlab::text::path_escaped("group/sub project"), "group%2Fsub%20project");
    assert_eq!(gitlab::text::path_escaped("100%"), "100%25");
    assert_eq!(gitlab::text::path_escaped("é"), "%C3%A9");
}

#[test]
fn binary_content_is_sent_in_base64() {
    let (encoding, text) = encode_content(None, &[0xff, 0xfe]);
    assert_eq!(encoding, Encoding::Base64);
    assert_eq!(text, "//4=");
    let (encoding, text) = encode_content(Some(Encoding::Text), b"plain");
    assert_eq!(encoding, Encoding::Text);
    assert_eq!(text, "plain");
    let (encoding, text) = encode_content(Some(Encoding::Base64), b"plain");
    assert_eq!(encoding, Encoding::Base64);
    assert_eq!(text, "cGxhaW4=");
}

#[test]
fn hook_date_readings_in_order() {
    let d = HookDate::from_readings(
        None,
        Some((5, 0, "1970-01-01T00:00:05Z".to_string())),
        Some((9, 0, "1970-01-01T00:00:09Z".to_string())),
    )
    .unwrap();
    assert_eq!(d.timestamp().seconds(), 5);
    let d = HookDate::from_readings(None, None, Some((9, 0, "1970-01-01T00:00:09Z".to_string())))
        .unwrap();
    assert_eq!(d.timestamp().seconds(), 9);
    assert!(HookDate::from_readings(None, None, None).is_none());
}

#[test]
fn test_hookdate_deserialize() {
    let hook = HookDate::parse("2019-01-20 15:00:12 UTC").unwrap();
    assert_eq!(hook.timestamp().seconds(), 1547996412);
    assert_eq!(hook.timestamp().nanos(), 0);
    let hook = HookDate::parse("2019-03-01T19:39:17Z").unwrap();
    assert_eq!(hook.timestamp().seconds(), 1551469157);
    assert_eq!(hook.timestamp().nanos(), 0);
    let hook = HookDate::parse("2019-03-01T17:50:02.036-05:00").unwrap();
    assert_eq!(hook.timestamp().seconds(), 1551480602);
    assert_eq!(hook.timestamp().nanos(), 36_000_000);
}
