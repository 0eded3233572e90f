use gitlab::api::projects::repository::commits::{CommitStatusState, LineType};
use gitlab::common::{Endpoint, Method, NameOrId};
use gitlab::gitlab::{
    add_user_to_project_by_name, award_merge_request_note, branch, close_issue, commit,
    commit_all_builds, commit_all_statuses, commit_latest_statuses,
    commit_latest_statuses_by_name, create_commit_line_comment, create_commit_status_by_name,
    create_file, create_issue_note_by_name, create_merge_request_note, create_pipeline,
    environment, get_issues_closed_by_merge_request_by_name, group_by_name, group_member,
    issue_notes, job_log, labels_with_counts, last_found, merge_request_note_awards_by_name,
    modify_merge_request_note, owned_projects, page_request, pipeline_jobs, project,
    project_by_name, read_answer, retry_pipeline, set_issue_labels, set_merge_request_labels,
    set_project_default_branch, set_project_description, unprotect_branch, user_by_name, users,
    AnswerError, ClientRequest, CommitStatusInfo,
};
use gitlab::json::JsonValue;
use gitlab::params::Params;
use gitlab::query::{no_answer_query_answer, single_query_answer};
use gitlab::types::{
    AccessLevel, EnvironmentId, GroupId, IssueInternalId, JobId, MergeRequestInternalId, NoteId,
    ObjectId, PipelineId, PipelineVariable, PipelineVariableType, ProjectId, StatusState, UserId,
};

fn pairs(p: &Params) -> Vec<(String, String)> {
    (0..p.len()).map(|i| (p.key(i).clone(), p.value(i).clone())).collect()
}

fn kv(items: &[(&str, &str)]) -> Vec<(String, String)> {
    items.iter().map(|(k, v)| (k.to_string(), v.to_string())).collect()
}

fn params(items: &[(&str, &str)]) -> Params {
    let mut p = Params::new();
    for (k, v) in items {
        p.push_str(k, v);
    }
    p
}

fn assert_get(r: &ClientRequest, endpoint: &str, query: &[(&str, &str)]) {
    assert_eq!(r.method, Method::Get);
    assert_eq!(r.endpoint, endpoint);
    assert_eq!(pairs(&r.query), kv(query));
    assert!(r.form.is_none());
}

fn assert_form(r: &ClientRequest, method: Method, endpoint: &str, form: &[(&str, &str)]) {
    assert_eq!(r.method, method);
    assert_eq!(r.endpoint, endpoint);
    assert_eq!(r.query.len(), 0);
    assert_eq!(pairs(r.form.as_ref().unwrap()), kv(form));
}

#[test]
fn listing_requests_keep_their_parameters() {
    let p = params(&[("search", "ben"), ("active", "true")]);
    assert_get(&users(&p), "users", &[("search", "ben"), ("active", "true")]);
    assert_get(&owned_projects(), "projects", &[("owned", "true")]);
    assert_get(&project(ProjectId::new(42), &Params::new()), "projects/42", &[]);
    assert_get(
        &environment(ProjectId::new(1), EnvironmentId::new(7), &Params::new()),
        "projects/1/environments/7",
        &[],
    );
    assert_get(
        &issue_notes(ProjectId::new(3), IssueInternalId::new(5), &params(&[("sort", "asc")])),
        "projects/3/issues/5/notes",
        &[("sort", "asc")],
    );
    assert_get(
        &pipeline_jobs(ProjectId::new(3), PipelineId::new(9), &Params::new()),
        "projects/3/pipelines/9/jobs",
        &[],
    );
    assert_get(&labels_with_counts(ProjectId::new(2)), "projects/2/labels", &[("with_counts", "true")]);
}

#[test]
fn names_are_escaped_as_one_segment() {
    assert_get(
        &project_by_name("group/sub project", &Params::new()),
        "projects/group%2Fsub%20project",
        &[],
    );
    assert_get(&group_by_name("a/b"), "groups/a%2Fb", &[]);
    assert_get(&branch(ProjectId::new(1), "feature/x"), "projects/1/repository/branches/feature%2Fx", &[]);
    assert_get(
        &merge_request_note_awards_by_name(
            "simple/project",
            MergeRequestInternalId::new(4),
            NoteId::new(8),
        ),
        "projects/simple%2Fproject/merge_requests/4/notes/8/award_emoji",
        &[],
    );
    assert_get(
        &get_issues_closed_by_merge_request_by_name("a/b", MergeRequestInternalId::new(2)),
        "projects/a%2Fb/merge_requests/2/closes_issues",
        &[],
    );
    let r = unprotect_branch(ProjectId::new(1), "release/1.0");
    assert_eq!(r.method, Method::Delete);
    assert_eq!(r.endpoint, "projects/1/protected_branches/release%2F1.0");
    assert!(r.form.is_none());
}

#[test]
fn commit_names_go_into_status_paths_unescaped() {
    assert_get(
        &commit_latest_statuses(ProjectId::new(1), "deadbeef", &params(&[("ref", "master")])),
        "projects/1/repository/commits/deadbeef/statuses",
        &[("ref", "master")],
    );
    assert_get(
        &commit_latest_statuses_by_name("a/b", "deadbeef", &Params::new()),
        "projects/a%2Fb/repository/commits/deadbeef/statuses",
        &[],
    );
    assert_get(
        &commit_all_builds(ProjectId::new(1), "deadbeef"),
        "projects/1/repository/commits/deadbeef/builds",
        &[("all", "true")],
    );
}

#[test]
fn page_request_appends_the_page() {
    let base = users(&params(&[("username", "ben")]));
    let r = page_request(&base, 3, 100);
    assert_get(&r, "users", &[("username", "ben"), ("page", "3"), ("per_page", "100")]);
}

#[test]
fn note_and_label_requests() {
    assert_form(
        &create_merge_request_note(ProjectId::new(1), MergeRequestInternalId::new(2), "Nice work"),
        Method::Post,
        "projects/1/merge_requests/2/notes",
        &[("body", "Nice work")],
    );
    assert_form(
        &modify_merge_request_note(ProjectId::new(1), MergeRequestInternalId::new(2), NoteId::new(3), "edit"),
        Method::Put,
        "projects/1/merge_requests/2/notes/3",
        &[("body", "edit")],
    );
    assert_form(
        &create_issue_note_by_name("a/b", IssueInternalId::new(6), "hi"),
        Method::Post,
        "projects/a%2Fb/issues/6/notes",
        &[("body", "hi")],
    );
    assert_form(
        &award_merge_request_note(ProjectId::new(1), MergeRequestInternalId::new(2), NoteId::new(3), "thumbsup"),
        Method::Post,
        "projects/1/merge_requests/2/notes/3/award_emoji",
        &[("name", "thumbsup")],
    );
    let labels = vec!["bug".to_string(), "area:api".to_string()];
    assert_form(
        &set_issue_labels(ProjectId::new(1), IssueInternalId::new(2), &labels),
        Method::Put,
        "projects/1/issues/2",
        &[("labels", "bug,area:api")],
    );
    assert_form(
        &set_merge_request_labels(ProjectId::new(1), MergeRequestInternalId::new(2), &Vec::new()),
        Method::Put,
        "projects/1/merge_requests/2",
        &[("labels", "")],
    );
    assert_form(&close_issue(ProjectId::new(1), IssueInternalId::new(2)), Method::Put, "projects/1/issues/2", &[("state_event", "close")]);
}

#[test]
fn project_edit_requests() {
    assert_form(
        &set_project_description(ProjectId::new(5), "A project"),
        Method::Put,
        "projects/5",
        &[("description", "A project")],
    );
    assert_form(
        &set_project_default_branch(ProjectId::new(5), "main"),
        Method::Put,
        "projects/5",
        &[("default_branch", "main")],
    );
    assert_form(
        &add_user_to_project_by_name("a/b", UserId::new(9), AccessLevel::Developer),
        Method::Post,
        "projects/a%2Fb/members",
        &[("user_id", "9"), ("access_level", "30")],
    );
    assert_get(&group_member(GroupId::new(2), UserId::new(3)), "groups/2/members/3", &[]);
}

#[test]
fn pipeline_requests() {
    let variables = vec![
        PipelineVariable {
            key: "KEY".to_string(),
            value: "value".to_string(),
            variable_type: PipelineVariableType::EnvVar,
        },
        PipelineVariable {
            key: "CONF".to_string(),
            value: "x".to_string(),
            variable_type: PipelineVariableType::File,
        },
    ];
    let r = create_pipeline(ProjectId::new(1), &ObjectId::new("master"), &variables);
    assert_eq!(r.method, Method::Post);
    assert_eq!(r.endpoint, "projects/1/pipeline");
    assert_eq!(pairs(&r.query), kv(&[("ref", "master")]));
    assert_eq!(
        pairs(r.form.as_ref().unwrap()),
        kv(&[
            ("variables[][key]", "KEY"),
            ("variables[][value]", "value"),
            ("variables[][variable_type]", "env_var"),
            ("variables[][key]", "CONF"),
            ("variables[][value]", "x"),
            ("variables[][variable_type]", "file"),
        ]),
    );
    let r = create_pipeline(ProjectId::new(1), &ObjectId::new("main"), &[]);
    assert_eq!(r.form.as_ref().unwrap().len(), 0);

    let r = retry_pipeline(ProjectId::new(1), PipelineId::new(2));
    assert_eq!(r.method, Method::Post);
    assert_eq!(r.endpoint, "projects/1/pipelines/2/retry");
    assert!(r.form.is_none());
    assert_get(&job_log(ProjectId::new(1), JobId::new(8)), "projects/1/jobs/8/trace", &[]);
}

#[test]
fn commit_endpoints() {
    let c = commit(ProjectId::new(1), "abc");
    assert_eq!(c.project, NameOrId::Id(1));
    assert_eq!(c.commit, "abc");
    assert_eq!(c.stats, Some(true));
    let params = c.parameters();
    assert_eq!(pairs(&params), kv(&[("stats", "true")]));

    let s = commit_all_statuses(ProjectId::new(1), "abc");
    assert_eq!(s.all, Some(true));

    let line = create_commit_line_comment(ProjectId::new(1), "abc", "note", "src/lib.rs", 12);
    assert_eq!(line.path.as_deref(), Some("src/lib.rs"));
    assert_eq!(line.line, Some(12));
    assert_eq!(line.line_type, Some(LineType::New));

    let info = CommitStatusInfo { refname: Some("master"), name: Some("ci"), target_url: None, description: None };
    let st = create_commit_status_by_name("a/b", "abc", StatusState::Success, &info).unwrap();
    assert_eq!(st.project, NameOrId::Name("a/b".to_string()));
    assert_eq!(st.state, CommitStatusState::Success);
    assert_eq!(st.endpoint(), "projects/a%2Fb/statuses/abc");
    assert!(matches!(
        create_commit_status_by_name("a/b", "abc", StatusState::Manual, &info),
        Err(StatusState::Manual)
    ));
}

#[test]
fn create_file_sends_the_text() {
    let f = create_file(ProjectId::new(1), "dir/file.txt", "master", "hello", "add a file");
    assert_eq!(f.content, b"hello".to_vec());
    assert_eq!(f.file_path, "dir/file.txt");
    assert_eq!(f.endpoint(), "projects/1/repository/files/dir%2Ffile.txt");
}

#[test]
fn user_lookup_by_name() {
    let u = user_by_name("kwrobot");
    assert_eq!(u.endpoint(), "users");
    assert_eq!(pairs(&u.parameters()), kv(&[("username", "kwrobot")]));
    assert_eq!(last_found(vec![1, 2, 3]), Some(3));
    assert_eq!(last_found(Vec::<u32>::new()), None);
}

fn message(msg: &str) -> JsonValue {
    JsonValue::Object(vec![("message".to_string(), JsonValue::String(msg.to_string()))])
}

#[test]
fn answers_of_the_client() {
    let ok: Result<JsonValue, ()> = Ok(JsonValue::Bool(true));
    assert!(matches!(read_answer(200, ok.clone()), Ok(JsonValue::Bool(true))));
    assert!(matches!(read_answer(502, ok.clone()), Err(AnswerError::Http { status: 502 })));
    assert!(matches!(read_answer(200, Err::<JsonValue, &str>("bad")), Err(AnswerError::Json { source: "bad" })));
    match read_answer::<()>(404, Ok(message("404 Not Found"))) {
        Err(AnswerError::Gitlab { msg }) => assert_eq!(msg, "404 Not Found"),
        other => panic!("unexpected {:?}", other),
    }
    match read_answer::<()>(400, Ok(JsonValue::Null)) {
        Err(AnswerError::Gitlab { msg }) => assert_eq!(msg, "<unknown error>"),
        other => panic!("unexpected {:?}", other),
    }
}

#[test]
fn answers_of_older_queries() {
    assert!(matches!(single_query_answer::<()>(200, Ok(JsonValue::UInt(1))), Ok(JsonValue::UInt(1))));
    match single_query_answer::<()>(500, Ok(message("boom"))) {
        Err(AnswerError::Gitlab { msg }) => assert_eq!(msg, "boom"),
        other => panic!("unexpected {:?}", other),
    }
    assert!(matches!(no_answer_query_answer(204, Err::<JsonValue, &str>("empty")), Ok(())));
    assert!(matches!(
        no_answer_query_answer(403, Err::<JsonValue, &str>("empty")),
        Err(AnswerError::Json { source: "empty" })
    ));
    match no_answer_query_answer::<()>(403, Ok(message("403 Forbidden"))) {
        Err(AnswerError::Gitlab { msg }) => assert_eq!(msg, "403 Forbidden"),
        other => panic!("unexpected {:?}", other),
    }
}
