use gitlab::test::client::ExpectedUrl;
use std::str::FromStr;
use gitlab::api::users::Users;
use gitlab::common::Endpoint;
use gitlab::common::{Date, Timestamp};
use gitlab::json::JsonValue;
use gitlab::params::ParamValue;
use gitlab::types::{
    AccessLevel, AwardableId, AwardableType, CreateGroupParams, CreateMergeRequestParams,
    CreateProjectParams, DiscussionNoteType, Event, EventTargetId, EventTargetType,
    FeatureVisibilityLevel, GroupId, Issue, IssueId, IssueInternalId, IssueState, Label,
    LabelColor, MergeRequestId, MergeRequestInternalId, MergeStatus, Milestone, MilestoneState,
    Namespace, NamespaceId, NamespaceKind, Note, NoteId, NoteType, NoteableId,
    NoteableInternalId, ObjectId, PipelineVariableType, ProjectFeatures, ProjectId,
    ResourceLabelEvent, ResourceLabelEventTarget, SnippetId, StatusState, UserBasic, UserId,
    UserState, VisibilityLevel, WebhookEvents,
};

fn user() -> UserBasic {
    UserBasic {
        username: "ben".to_string(),
        name: "Ben".to_string(),
        id: UserId::new(13),
        state: UserState::Active,
        avatar_url: None,
        web_url: "https://gitlab.example.com/ben".to_string(),
    }
}

fn note(noteable_type: NoteType, noteable_id: JsonValue, noteable_iid: Option<JsonValue>) -> Note {
    Note {
        id: NoteId::new(1),
        note_type: Some(DiscussionNoteType::DiscussionNote),
        body: "body".to_string(),
        attachment: None,
        author: user(),
        created_at: Timestamp::now(),
        updated_at: Timestamp::now(),
        resolvable: false,
        resolved: None,
        resolved_by: None,
        system: false,
        noteable_id,
        noteable_iid,
        noteable_type,
        position: None,
    }
}

#[test]
fn ids_keep_their_value() {
    assert_eq!(UserId::new(42).value(), 42);
    assert_eq!(ProjectId::new(7).to_string(), "7");
    assert_eq!(GroupId::new(0).to_string(), "0");
    assert_eq!(ObjectId::new("deadbeef").value(), "deadbeef");
}

#[test]
fn enum_names_round_trip() {
    for s in [UserState::Active, UserState::Blocked, UserState::LdapBlocked] {
        assert_eq!(UserState::from_name(s.as_str()), Some(s));
    }
    for s in [
        MergeStatus::Unchecked,
        MergeStatus::Checking,
        MergeStatus::CanBeMerged,
        MergeStatus::CannotBeMerged,
        MergeStatus::CannotBeMergedRecheck,
        MergeStatus::CannotBeMergedRechecking,
    ] {
        assert_eq!(MergeStatus::from_name(s.as_str()), Some(s));
    }
    assert_eq!(StatusState::from_name("canceled"), Some(StatusState::Canceled));
    assert_eq!(IssueState::from_name("reopened"), Some(IssueState::Reopened));
    assert_eq!(MilestoneState::from_name("closed"), Some(MilestoneState::Closed));
    assert_eq!(VisibilityLevel::Internal.as_str(), "internal");
    assert_eq!(UserState::from_name("ldap blocked"), None);
    assert_eq!(UserState::from_name(""), None);
}

#[test]
fn access_level_numbers() {
    let levels = [
        (AccessLevel::Anonymous, 0, "anonymous"),
        (AccessLevel::Guest, 10, "guest"),
        (AccessLevel::Reporter, 20, "reporter"),
        (AccessLevel::Developer, 30, "developer"),
        (AccessLevel::Maintainer, 40, "maintainer"),
        (AccessLevel::Owner, 50, "owner"),
        (AccessLevel::Admin, 60, "admin"),
    ];
    for (level, n, name) in levels {
        assert_eq!(u64::from(level), n);
        assert_eq!(AccessLevel::from(n), level);
        assert_eq!(level.as_str(), name);
        assert_eq!(level.to_string(), n.to_string());
    }
}

#[test]
fn access_level_rounds_down() {
    assert_eq!(AccessLevel::from(9), AccessLevel::Anonymous);
    assert_eq!(AccessLevel::from(35), AccessLevel::Developer);
    assert_eq!(AccessLevel::from(59), AccessLevel::Owner);
    assert_eq!(AccessLevel::from(1000), AccessLevel::Admin);
}

#[test]
fn label_color_from_rgb() {
    assert_eq!(LabelColor::from_rgb(255, 0, 171).value(), "#FF00AB");
    assert_eq!(LabelColor::from_rgb(0, 10, 16).value(), "#000A10");
}

#[test]
fn label_color_from_html_name() {
    assert_eq!("teal".parse::<LabelColor>().unwrap().value(), "#008080");
    assert_eq!(LabelColor::from_html_name("purple").value(), "#800080");
    assert_eq!(LabelColor::from_html_name("not a color").value(), "#808080");
}

#[test]
fn label_builders() {
    let label = Label::new("bug".to_string(), LabelColor::from_rgb(1, 2, 3))
        .with_description("a bug".to_string())
        .with_priority(3);
    assert_eq!(label.name, "bug");
    assert_eq!(label.id.value(), 0);
    assert_eq!(label.description.as_deref(), Some("a bug"));
    assert_eq!(label.priority, Some(3));
    assert!(!label.subscribed);
}

#[test]
fn webhook_events_set_their_flags() {
    let events = WebhookEvents::new();
    assert!(!events.job() && !events.push() && !events.note());
    let events = events.with_push().with_note();
    assert!(events.push());
    assert!(events.note());
    assert!(!events.job());
    assert!(!events.wiki_page());
}

#[test]
fn webhook_confidential_issues_sets_issues() {
    let events = WebhookEvents::new().with_confidential_issues();
    assert!(events.issues());
    assert!(!events.confidential_issues());
}

#[test]
fn note_ids_follow_the_noteable_type() {
    let commit = note(NoteType::Commit, JsonValue::String("abc".to_string()), None);
    assert_eq!(commit.noteable_id(), Some(NoteableId::Commit(ObjectId::new("abc"))));
    assert_eq!(commit.noteable_iid(), None);

    let issue = note(NoteType::Issue, JsonValue::UInt(5), Some(JsonValue::UInt(2)));
    assert_eq!(issue.noteable_id(), Some(NoteableId::Issue(IssueId::new(5))));
    assert_eq!(issue.noteable_iid(), Some(NoteableInternalId::Issue(IssueInternalId::new(2))));

    let mr = note(NoteType::MergeRequest, JsonValue::UInt(6), Some(JsonValue::UInt(3)));
    assert_eq!(mr.noteable_id(), Some(NoteableId::MergeRequest(MergeRequestId::new(6))));
    assert_eq!(
        mr.noteable_iid(),
        Some(NoteableInternalId::MergeRequest(MergeRequestInternalId::new(3))),
    );

    let snippet = note(NoteType::Snippet, JsonValue::UInt(8), Some(JsonValue::UInt(3)));
    assert_eq!(snippet.noteable_id(), Some(NoteableId::Snippet(SnippetId::new(8))));
    assert_eq!(snippet.noteable_iid(), None);

    let wrong = note(NoteType::Issue, JsonValue::String("5".to_string()), Some(JsonValue::Null));
    assert_eq!(wrong.noteable_id(), None);
    assert_eq!(wrong.noteable_iid(), None);
}

#[test]
fn event_target_ids() {
    let mut event = Event {
        title: None,
        project_id: ProjectId::new(1),
        action_name: "opened".to_string(),
        target_id: JsonValue::UInt(9),
        target_type: EventTargetType::ProjectSnippet,
        author_id: UserId::new(13),
        data: None,
        target_title: "t".to_string(),
        created_at: Timestamp::now(),
        note: None,
        author: None,
        author_username: None,
    };
    assert_eq!(event.target_id(), Some(EventTargetId::Snippet(SnippetId::new(9))));
    event.target_type = EventTargetType::Commit;
    assert_eq!(event.target_id(), None);
    event.target_id = JsonValue::String("0123".to_string());
    assert_eq!(event.target_id(), Some(EventTargetId::Commit(ObjectId::new("0123"))));
}

#[test]
fn namespace_ids() {
    let mut ns = Namespace {
        id: 4,
        path: "p".to_string(),
        name: "n".to_string(),
        kind: NamespaceKind::User,
        full_path: "p".to_string(),
        members_count_with_descendants: None,
        avatar_url: None,
        web_url: "w".to_string(),
    };
    assert_eq!(ns.id(), NamespaceId::User(UserId::new(4)));
    ns.kind = NamespaceKind::Group;
    assert_eq!(ns.id(), NamespaceId::Group(GroupId::new(4)));
}

#[test]
fn resource_label_event_targets() {
    let mut event = ResourceLabelEvent {
        id: gitlab::types::LabelEventId::new(1),
        user: user(),
        created_at: Timestamp::now(),
        resource_id: 12,
        resource_type: "MergeRequest".to_string(),
        label: None,
        action: "add".to_string(),
    };
    assert_eq!(
        event.event_target(),
        Some(ResourceLabelEventTarget::MergeRequest(MergeRequestId::new(12))),
    );
    event.resource_type = "Issue".to_string();
    assert_eq!(event.event_target(), Some(ResourceLabelEventTarget::Issue(IssueId::new(12))));
    event.resource_type = "Epic".to_string();
    assert_eq!(event.event_target(), None);
}

#[test]
fn awardable_ids() {
    let award = gitlab::types::AwardEmoji {
        id: gitlab::types::AwardId::new(1),
        name: "thumbsup".to_string(),
        user: user(),
        created_at: Timestamp::now(),
        updated_at: Timestamp::now(),
        awardable_id: 77,
        awardable_type: AwardableType::Note,
    };
    assert_eq!(award.awardable_id(), AwardableId::Note(NoteId::new(77)));
}

#[test]
fn project_features_names() {
    let f = ProjectFeatures::Wiki(FeatureVisibilityLevel::Private);
    assert_eq!(f.name(), "wiki_access_level");
    assert_eq!(*f.access_level(), FeatureVisibilityLevel::Private);
    assert_eq!(
        ProjectFeatures::MergeRequests(FeatureVisibilityLevel::Public).name(),
        "merge_requests_access_level",
    );
}

#[test]
fn pipeline_variable_type_default() {
    assert_eq!(PipelineVariableType::default(), PipelineVariableType::EnvVar);
    assert_eq!(PipelineVariableType::File.as_str(), "file");
}

#[test]
fn issue_new_is_blank() {
    let issue = Issue::new(ProjectId::new(3), "title".to_string(), user())
        .with_iid(IssueInternalId::new(4))
        .with_labels(vec!["a".to_string()]);
    assert_eq!(issue.project_id, ProjectId::new(3));
    assert_eq!(issue.iid, IssueInternalId::new(4));
    assert_eq!(issue.state, IssueState::Opened);
    assert_eq!(issue.labels, vec!["a".to_string()]);
    assert!(!issue.has_links());
    assert_eq!(issue.web_url, "");
}

#[test]
fn milestones_belong_to_projects_or_groups() {
    let m = Milestone::new_for_project(ProjectId::new(2), "v1".to_string());
    assert_eq!(m.project_id, Some(ProjectId::new(2)));
    assert_eq!(m.group_id, None);
    assert_eq!(m.state, MilestoneState::Active);
    let m = Milestone::new_for_group(GroupId::new(5), "v2".to_string())
        .with_due_date(Date::from_ymd(2020, 2, 29).unwrap());
    assert_eq!(m.group_id, Some(GroupId::new(5)));
    assert_eq!(m.due_date.unwrap().to_string(), "2020-02-29");
}

#[test]
fn create_params_builders() {
    let p = CreateGroupParams::builder()
        .description("A description")
        .auto_devops_enabled(false)
        .project_creation_level(AccessLevel::Developer)
        .build()
        .unwrap();
    assert_eq!(p.description.as_deref(), Some("A description"));
    assert_eq!(p.auto_devops_enabled, Some(false));
    assert_eq!(p.project_creation_level.as_deref(), Some("developer"));
    assert_eq!(p.visibility, None);

    let p = CreateProjectParams::builder()
        .description("Splendid project")
        .import_url("https://example.com/repo.git")
        .build()
        .unwrap();
    assert_eq!(p.description.as_deref(), Some("Splendid project"));
    assert_eq!(p.import_url.as_deref(), Some("https://example.com/repo.git"));

    let p = CreateMergeRequestParams::builder()
        .source_branch("topic")
        .target_branch("master")
        .title("MR")
        .squash(true)
        .build()
        .unwrap();
    assert_eq!(p.source_branch, "topic");
    assert_eq!(p.squash, Some(true));
    assert_eq!(p.labels, None);
}

#[test]
fn dates_are_checked() {
    assert!(Date::from_ymd(2019, 2, 29).is_none());
    assert!(Date::from_ymd(2000, 2, 29).is_some());
    assert!(Date::from_ymd(1900, 2, 29).is_none());
    assert!(Date::from_ymd(2021, 4, 31).is_none());
    assert!(Date::from_ymd(2021, 13, 1).is_none());
    assert!(Date::from_ymd(2021, 1, 0).is_none());
    let d = Date::from_ymd(987, 12, 31).unwrap();
    assert_eq!((d.year(), d.month(), d.day()), (987, 12, 31));
    assert_eq!(d.to_string(), "0987-12-31");
    assert_eq!(Date::from_ymd(12345, 1, 2).unwrap().to_string(), "+12345-01-02");
    assert_eq!(Date::from_ymd(-5, 3, 4).unwrap().to_string(), "-0005-03-04");
}

#[test]
fn timestamps_are_written_in_rfc3339() {
    let t = Timestamp::from_unix(1609459200, 0).unwrap();
    assert_eq!(t.seconds(), 1609459200);
    assert_eq!(t.nanos(), 0);

    assert_eq!(t.as_value(), "2021-01-01T00:00:00Z");
    assert!(Timestamp::from_unix(i64::MAX, 0).is_none());
}

#[test]
fn timestamps_of_the_common_era_are_accepted() {
    let last = gitlab::common::Timestamp::from_unix(253_402_300_799, 999_999_999).unwrap();
    assert_eq!(last.seconds(), 253_402_300_799);
    assert_eq!(last.nanos(), 999_999_999);
    let first = gitlab::common::Timestamp::from_unix(-62_135_596_800, 0).unwrap();
    assert_eq!(first.seconds(), -62_135_596_800);
    assert!(gitlab::common::Timestamp::from_unix(0, 2_000_000_000).is_none());
}

#[test]
fn label_colors_parse_from_html_names() {
    assert_eq!(gitlab::types::LabelColor::from_str("red").unwrap().value(), "#FF0000");
    assert_eq!(gitlab::types::LabelColor::from_str("navy").unwrap().value(), "#000080");
    assert_eq!(gitlab::types::LabelColor::from_str("Red").unwrap().value(), "#808080");
    assert_eq!(gitlab::types::LabelColor::from_str("").unwrap().value(), "#808080");
}

#[test]
fn custom_attributes_keep_other_search_fields() {
    let users = Users::builder()
        .search("ben")
        .custom_attribute("key", "value")
        .custom_attributes(&[("a", "1"), ("key", "2")])
        .build()
        .unwrap();
    let params = users.parameters();
    let pairs: Vec<(String, String)> =
        (0..params.len()).map(|i| (params.key(i).clone(), params.value(i).clone())).collect();
    assert_eq!(
        pairs,
        vec![
            ("search".to_string(), "ben".to_string()),
            ("custom_attributes[a]".to_string(), "1".to_string()),
            ("custom_attributes[key]".to_string(), "2".to_string()),
        ]
    );
}

#[test]
fn custom_attributes_match_one_by_one() {
    let params = |u: Users| {
        let p = u.parameters();
        (0..p.len()).map(|i| (p.key(i).clone(), p.value(i).clone())).collect::<Vec<_>>()
    };
    let bulk = Users::builder()
        .search("x")
        .custom_attributes(&[("b", "1"), ("a", "2"), ("b", "3")])
        .build()
        .unwrap();
    let single = Users::builder()
        .search("x")
        .custom_attribute("b", "1")
        .custom_attribute("a", "2")
        .custom_attribute("b", "3")
        .build()
        .unwrap();
    assert_eq!(params(bulk), params(single));
}

#[test]
fn query_params_added_twice_match_once() {
    let twice = ExpectedUrl::builder().add_query_params(&[("a", "1")]).add_query_params(&[("b", "2")]);
    let once = ExpectedUrl::builder().add_query_params(&[("a", "1"), ("b", "2")]);
    assert_eq!(twice.query, once.query);
}
