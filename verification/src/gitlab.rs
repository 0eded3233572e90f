//! The requests of the Gitlab client, and its configuration.
//!
//! Each method of the client that changes or lists entities sends one
//! request; the functions here compute that request (method, path, query and
//! form parameters) from the method's arguments.  Sending it is left to the
//! caller; what the client makes of Gitlab's answer is decided here too.

use vstd::prelude::*;
use vstd::string::*;

use crate::api::projects::repository::commits::{
    CommentOnCommit, Commit, CommitComments, CommitStatusState, CommitStatuses, CreateCommitStatus,
    LineType,
};
use crate::auth::Auth;
use crate::common::{date_text, rfc3339_seconds, str_eq, Date, Endpoint, Method, NameOrId};
use crate::json::{first_member, JsonValue};
use crate::params::{
    lemma_values_of_concat, lemma_values_of_opt_pair, lemma_values_of_single, opt_pair, opt_value,
    u64_text, values_of, ParamValue, ParamView, Params,
};
use crate::text::{ascii_chars, decimal, decimal_string};
use crate::types::{
    AccessLevel, BuildGitStrategy, CreateGroupParams, CreateMergeRequestParams,
    CreateProjectParams, FeatureVisibilityLevel, GroupId, Issue, Label, MergeMethod, Milestone,
    ProjectFeatures, ProjectId, StatusState, UserBasic, UserId, VisibilityLevel, WebhookEvents,
    EnvironmentId, HookId, IssueInternalId, JobId, LabelId, MergeRequestInternalId, NoteId,
    ObjectId, PipelineId, PipelineVariable,
};
use crate::api::projects::repository::files::CreateFile;
use crate::api::users::{attribute_params, CustomAttributes, Users};

verus! {

/// Optional information for commit statuses.
#[derive(Debug)]
pub struct CommitStatusInfo<'a> {
    /// The refname of the commit being tested.
    pub refname: Option<&'a str>,
    /// The name of the status (defaults to `"default"` on the Gitlab side).
    pub name: Option<&'a str>,
    /// A URL to associate with the status.
    pub target_url: Option<&'a str>,
    /// A description of the status check.
    pub description: Option<&'a str>,
}

/// Optional information for merge requests.
#[derive(Debug, Clone, Copy, PartialEq, Eq, Structural)]
pub enum MergeRequestStateFilter {
    /// Get the opened/reopened merge requests.
    Opened,
    /// Get the closes merge requests.
    Closed,
    /// Get the merged merge requests.
    Merged,
}

impl MergeRequestStateFilter {
    /// The name of the variant, as Gitlab writes it.
    pub open spec fn spec_as_str(self) -> Seq<char> {
        match self {
            MergeRequestStateFilter::Opened => "opened"@,
            MergeRequestStateFilter::Closed => "closed"@,
            MergeRequestStateFilter::Merged => "merged"@,
        }
    }

    /// The variant that Gitlab means by `name`, if any.
    pub open spec fn spec_from_name(name: Seq<char>) -> Option<MergeRequestStateFilter> {
        if name == "opened"@ {
            Some(MergeRequestStateFilter::Opened)
        } else if name == "closed"@ {
            Some(MergeRequestStateFilter::Closed)
        } else if name == "merged"@ {
            Some(MergeRequestStateFilter::Merged)
        } else {
            None
        }
    }

    /// String representation of the variant.
    pub fn as_str(&self) -> (r: &'static str)
        ensures
            r@ == self.spec_as_str(),
    {
        match self {
            MergeRequestStateFilter::Opened => "opened",
            MergeRequestStateFilter::Closed => "closed",
            MergeRequestStateFilter::Merged => "merged",
        }
    }

    /// The variant that Gitlab means by `name`, if any.
    pub fn from_name(name: &str) -> (r: Option<MergeRequestStateFilter>)
        ensures
            r == MergeRequestStateFilter::spec_from_name(name@),
    {
        if str_eq(name, "opened") {
            Some(MergeRequestStateFilter::Opened)
        } else if str_eq(name, "closed") {
            Some(MergeRequestStateFilter::Closed)
        } else if str_eq(name, "merged") {
            Some(MergeRequestStateFilter::Merged)
        } else {
            None
        }
    }

    /// Reading the name of a variant gives the variant back.
    pub proof fn lemma_name_round_trip(self)
        ensures
            MergeRequestStateFilter::spec_from_name(self.spec_as_str()) == Some(self),
    {
        reveal_strlit("opened");
        reveal_strlit("closed");
        reveal_strlit("merged");
        assert("opened"@.len() == 6);
        assert("closed"@.len() == 6);
        assert("merged"@.len() == 6);
        assert("opened"@[0] == 'o');
        assert("closed"@[0] == 'c');
        assert("merged"@[0] == 'm');
    }
}

/// Should a certificate be validated in tls connections.
/// The Insecure option is used for self-signed certificates.
#[derive(Debug, Clone, Copy, PartialEq, Eq, Structural)]
pub enum CertPolicy {
    /// Certificates are validated.
    Default,
    /// Certificates are accepted without validation.
    Insecure,
}

/// The settings with which a Gitlab client is created.
#[derive(Debug, Clone)]
pub struct GitlabBuilder {
    /// The protocol of the URLs: `https`, or `http` when insecure.
    pub protocol: &'static str,
    /// The host of the Gitlab instance.
    pub host: String,
    /// The token to authenticate with.
    pub token: Auth,
    /// Whether certificates are validated.
    pub cert_validation: CertPolicy,
}

impl GitlabBuilder {
    /// Create a new Gitlab API client builder.
    pub fn new(host: &str, token: &str) -> (r: Self)
        ensures
            r.protocol@ == "https"@,
            r.host@ == host@,
            r.token matches Auth::Token(t) && t@ == token@,
            r.cert_validation == CertPolicy::Default,
    {
        GitlabBuilder {
            protocol: "https",
            host: host.to_owned(),
            token: Auth::Token(token.to_owned()),
            cert_validation: CertPolicy::Default,
        }
    }

    /// Switch to an insecure protocol (http instead of https).
    pub fn insecure(self) -> (r: Self)
        ensures
            r.protocol@ == "http"@,
            r.host == self.host,
            r.token == self.token,
            r.cert_validation == self.cert_validation,
    {
        let mut r = self;
        r.protocol = "http";
        r
    }

    /// Accept certificates without validating them.
    pub fn cert_insecure(self) -> (r: Self)
        ensures
            r.protocol == self.protocol,
            r.host == self.host,
            r.token == self.token,
            r.cert_validation == CertPolicy::Insecure,
    {
        let mut r = self;
        r.cert_validation = CertPolicy::Insecure;
        r
    }

    /// Switch to using an OAuth2 token instead of a personal access token
    pub fn oauth2_token(self) -> (r: Self)
        ensures
            r.protocol == self.protocol,
            r.host == self.host,
            r.cert_validation == self.cert_validation,
            match self.token {
                Auth::Token(t) => r.token == Auth::OAuth2(t),
                _ => r.token == self.token,
            },
    {
        let mut r = self;
        r.token = match r.token {
            Auth::Token(t) => Auth::OAuth2(t),
            other => other,
        };
        r
    }
}

/// The message of an error that Gitlab answered with: its `message`, or
/// else its `error`, when that is a string.
pub open spec fn spec_gitlab_error_message(value: JsonValue) -> Seq<char> {
    let found = match value {
        JsonValue::Object(members) => match first_member(members@, "message"@) {
            Some(i) => Some(members@[i].1),
            None => match first_member(members@, "error"@) {
                Some(i) => Some(members@[i].1),
                None => None,
            },
        },
        _ => None,
    };
    match found {
        Some(JsonValue::String(s)) => s@,
        _ => "<unknown error>"@,
    }
}

/// The message of an error that Gitlab answered with (`<unknown error>`
/// when it gave none).
pub fn gitlab_error_message(value: &JsonValue) -> (r: String)
    ensures
        r@ == spec_gitlab_error_message(*value),
{
    let found = match value.get("message") {
        Some(v) => Some(v),
        None => value.get("error"),
    };
    match found {
        Some(v) => match v.as_str() {
            Some(s) => s.to_owned(),
            None => "<unknown error>".to_owned(),
        },
        None => "<unknown error>".to_owned(),
    }
}

/// A request which the Gitlab client sends: its method, its path, its query
/// parameters and, when it has a body, its form parameters.
#[derive(Debug)]
pub struct ClientRequest {
    /// The HTTP method.
    pub method: Method,
    /// The path below the API root.
    pub endpoint: String,
    /// The query parameters.
    pub query: Params,
    /// The form parameters of the body, if there is a body.
    pub form: Option<Params>,
}

impl Endpoint for ClientRequest {
    open spec fn spec_method(&self) -> Method {
        self.method
    }

    open spec fn spec_endpoint(&self) -> Seq<char> {
        self.endpoint@
    }

    open spec fn spec_parameters(&self) -> Seq<ParamView> {
        self.query@
    }

    open spec fn spec_body(&self) -> Option<Seq<ParamView>> {
        match self.form {
            Some(f) => Some(f@),
            None => None,
        }
    }

    fn method(&self) -> (r: Method) {
        self.method
    }

    fn endpoint(&self) -> (r: String) {
        self.endpoint.as_str().to_owned()
    }

    fn parameters(&self) -> (r: Params) {
        self.query.duplicate()
    }

    fn body(&self) -> (r: Option<(&'static str, Vec<u8>)>) {
        match &self.form {
            Some(f) => crate::common::form_request_body(f),
            None => None,
        }
    }
}

/// How a feature access level is sent: `Public` is sent as `enabled`.
pub open spec fn feature_access_text(level: FeatureVisibilityLevel) -> Seq<char> {
    match level {
        FeatureVisibilityLevel::Disabled => "disabled"@,
        FeatureVisibilityLevel::Private => "private"@,
        FeatureVisibilityLevel::Enabled => "enabled"@,
        FeatureVisibilityLevel::Public => "enabled"@,
    }
}

/// How a feature access level is sent: `Public` is sent as `enabled`.
pub fn feature_access_str(level: FeatureVisibilityLevel) -> (r: &'static str)
    ensures
        r@ == feature_access_text(level),
{
    match level {
        FeatureVisibilityLevel::Disabled => "disabled",
        FeatureVisibilityLevel::Private => "private",
        FeatureVisibilityLevel::Enabled => "enabled",
        FeatureVisibilityLevel::Public => "enabled",
    }
}

/// How an optional feature access level is sent.
pub open spec fn opt_map_feature(level: Option<FeatureVisibilityLevel>) -> Option<Seq<char>> {
    match level {
        Some(l) => Some(feature_access_text(l)),
        None => None,
    }
}

/// How an optional access level of pages is sent (all four levels exist).
pub open spec fn opt_map_feature_public(level: Option<FeatureVisibilityLevel>) -> Option<Seq<char>> {
    match level {
        Some(l) => Some(l.spec_as_str()),
        None => None,
    }
}

impl ParamValue for VisibilityLevel {
    open spec fn spec_value(&self) -> Seq<char> {
        self.spec_as_str()
    }

    fn as_value(&self) -> (r: String) {
        self.as_str().to_owned()
    }
}

impl ParamValue for MergeMethod {
    open spec fn spec_value(&self) -> Seq<char> {
        self.spec_as_str()
    }

    fn as_value(&self) -> (r: String) {
        self.as_str().to_owned()
    }
}

impl ParamValue for BuildGitStrategy {
    open spec fn spec_value(&self) -> Seq<char> {
        self.spec_as_str()
    }

    fn as_value(&self) -> (r: String) {
        self.as_str().to_owned()
    }
}

/// One parameter `key` for each value of a list.
pub open spec fn list_pairs(key: Seq<char>, values: Option<Vec<String>>) -> Seq<ParamView> {
    match values {
        Some(v) => v@.map_values(|s: String| (key, s@)),
        None => Seq::empty(),
    }
}

/// Adds one parameter `key` for each value of a list.
fn push_list(params: &mut Params, key: &str, values: &Option<Vec<String>>)
    ensures
        final(params)@ == old(params)@ + list_pairs(key@, *values),
{
    match values {
        Some(v) => {
            let ghost start = params@;
            let mut i: usize = 0;
            while i < v.len()
                invariant
                    i <= v@.len(),
                    params@ =~= start + v@.take(i as int).map_values(|s: String| (key@, s@)),
                decreases v@.len() - i,
            {
                params.push_str(key, v[i].as_str());
                assert(v@.take(i + 1).map_values(|s: String| (key@, s@)) =~= v@.take(
                    i as int,
                ).map_values(|s: String| (key@, s@)).push((key@, v@[i as int]@)));
                i = i + 1;
            }
            assert(v@.take(v@.len() as int) =~= v@);
        },
        None => {
            assert(params@ =~= old(params)@ + list_pairs(key@, *values));
        },
    }
}

/// The deployment strategies Gitlab knows; others are not sent.
pub open spec fn deploy_strategy_text(strategy: Option<String>) -> Option<Seq<char>> {
    match strategy {
        Some(s) => if s@ == "continuous"@ || s@ == "manual"@ || s@ == "timed_incremental"@ {
            Some(s@)
        } else {
            None
        },
        None => None,
    }
}

/// The deployment strategy, if Gitlab knows it.
fn deploy_strategy_str(strategy: &str) -> (r: Option<&'static str>)
    ensures
        match r {
            Some(s) => s@ == strategy@ && (s@ == "continuous"@ || s@ == "manual"@ || s@
                == "timed_incremental"@),
            None => !(strategy@ == "continuous"@ || strategy@ == "manual"@ || strategy@
                == "timed_incremental"@),
        },
{
    if str_eq(strategy, "continuous") {
        Some("continuous")
    } else if str_eq(strategy, "manual") {
        Some("manual")
    } else if str_eq(strategy, "timed_incremental") {
        Some("timed_incremental")
    } else {
        None
    }
}

/// How an optional group ID is sent.
pub open spec fn opt_group_id(id: Option<GroupId>) -> Option<Seq<char>> {
    match id {
        Some(g) => Some(u64_text(g@)),
        None => None,
    }
}

/// The level that may create projects in a group, for the name of an
/// access level: administrators and owners mean nobody else, maintainers and
/// developers are sent, and lower levels are not sent.
pub open spec fn project_creation_text(level: Seq<char>) -> Option<Seq<char>> {
    if level == "admin"@ || level == "owner"@ {
        Some("noone"@)
    } else if level == "maintainer"@ {
        Some("maintainer"@)
    } else if level == "developer"@ {
        Some("developer"@)
    } else {
        None
    }
}

/// How an optional level that may create projects is sent.
pub open spec fn opt_project_creation(level: Option<String>) -> Option<Seq<char>> {
    match level {
        Some(l) => project_creation_text(l@),
        None => None,
    }
}

/// The level that may create projects in a group.
fn project_creation_str(level: &str) -> (r: Option<&'static str>)
    ensures
        match project_creation_text(level@) {
            Some(t) => r matches Some(s) && s@ == t,
            None => r is None,
        },
{
    if str_eq(level, "admin") || str_eq(level, "owner") {
        Some("noone")
    } else if str_eq(level, "maintainer") {
        Some("maintainer")
    } else if str_eq(level, "developer") {
        Some("developer")
    } else {
        None
    }
}

/// The level that may create subgroups, for the name of an access level:
/// administrators are sent as owners, owners and maintainers are sent, and
/// lower levels are not sent.
pub open spec fn subgroup_creation_text(level: Seq<char>) -> Option<Seq<char>> {
    if level == "admin"@ || level == "owner"@ {
        Some("owner"@)
    } else if level == "maintainer"@ {
        Some("maintainer"@)
    } else {
        None
    }
}

/// How an optional level that may create subgroups is sent.
pub open spec fn opt_subgroup_creation(level: Option<String>) -> Option<Seq<char>> {
    match level {
        Some(l) => subgroup_creation_text(l@),
        None => None,
    }
}

/// The level that may create subgroups.
fn subgroup_creation_str(level: &str) -> (r: Option<&'static str>)
    ensures
        match subgroup_creation_text(level@) {
            Some(t) => r matches Some(s) && s@ == t,
            None => r is None,
        },
{
    if str_eq(level, "admin") || str_eq(level, "owner") {
        Some("owner")
    } else if str_eq(level, "maintainer") {
        Some("maintainer")
    } else {
        None
    }
}

/// Adds a feature access level, when there is one.
fn push_feature(params: &mut Params, key: &str, level: &Option<FeatureVisibilityLevel>)
    ensures
        final(params)@ == old(params)@ + opt_pair(key@, opt_map_feature(*level)),
{
    match level {
        Some(l) => params.push_str(key, feature_access_str(*l)),
        None => {},
    }
    assert(params@ =~= old(params)@ + opt_pair(key@, opt_map_feature(*level)));
}

/// Adds the access level of pages, when there is one.
fn push_feature_public(params: &mut Params, key: &str, level: &Option<FeatureVisibilityLevel>)
    ensures
        final(params)@ == old(params)@ + opt_pair(key@, opt_map_feature_public(*level)),
{
    match level {
        Some(l) => params.push_str(key, l.as_str()),
        None => {},
    }
    assert(params@ =~= old(params)@ + opt_pair(key@, opt_map_feature_public(*level)));
}

/// Adds the deployment strategy, when Gitlab knows it.
fn push_deploy_strategy(params: &mut Params, key: &str, strategy: &Option<String>)
    ensures
        final(params)@ == old(params)@ + opt_pair(key@, deploy_strategy_text(*strategy)),
{
    match strategy {
        Some(s) => match deploy_strategy_str(s.as_str()) {
            Some(t) => params.push_str(key, t),
            None => {},
        },
        None => {},
    }
    assert(params@ =~= old(params)@ + opt_pair(key@, deploy_strategy_text(*strategy)));
}

/// Adds a group ID, when there is one.
fn push_group_id(params: &mut Params, key: &str, id: &Option<GroupId>)
    ensures
        final(params)@ == old(params)@ + opt_pair(key@, opt_group_id(*id)),
{
    match id {
        Some(g) => params.push_string(key, g.to_string()),
        None => {},
    }
    assert(params@ =~= old(params)@ + opt_pair(key@, opt_group_id(*id)));
}

/// Adds the level that may create projects, when it is sent.
fn push_project_creation(params: &mut Params, key: &str, level: &Option<String>)
    ensures
        final(params)@ == old(params)@ + opt_pair(key@, opt_project_creation(*level)),
{
    match level {
        Some(l) => match project_creation_str(l.as_str()) {
            Some(t) => params.push_str(key, t),
            None => {},
        },
        None => {},
    }
    assert(params@ =~= old(params)@ + opt_pair(key@, opt_project_creation(*level)));
}

/// Adds the level that may create subgroups, when it is sent.
fn push_subgroup_creation(params: &mut Params, key: &str, level: &Option<String>)
    ensures
        final(params)@ == old(params)@ + opt_pair(key@, opt_subgroup_creation(*level)),
{
    match level {
        Some(l) => match subgroup_creation_str(l.as_str()) {
            Some(t) => params.push_str(key, t),
            None => {},
        },
        None => {},
    }
    assert(params@ =~= old(params)@ + opt_pair(key@, opt_subgroup_creation(*level)));
}

/// The form parameters which the optional settings of a new project give (part 1).
pub open spec fn project_form_0(p: CreateProjectParams) -> Seq<ParamView> {
    opt_pair("namespace_id"@, opt_value(p.namespace_id))
        + opt_pair("default_branch"@, opt_value(p.default_branch))
        + opt_pair("description"@, opt_value(p.description))
        + opt_pair("issues_access_level"@, opt_map_feature(p.issues_access_level))
        + opt_pair("repository_access_level"@, opt_map_feature(p.repository_access_level))
        + opt_pair("merge_requests_access_level"@, opt_map_feature(p.merge_requests_access_level))
        + opt_pair("builds_access_level"@, opt_map_feature(p.builds_access_level))
}

/// Adds the parameters of [`project_form_0`].
#[verifier::spinoff_prover]
fn push_project_form_0(params: &mut Params, p: &CreateProjectParams)
    ensures
        final(params)@ == old(params)@ + project_form_0(*p),
{
    let ghost start = params@;
    params.push_opt("namespace_id", &p.namespace_id);
    params.push_opt("default_branch", &p.default_branch);
    params.push_opt("description", &p.description);
    push_feature(params, "issues_access_level", &p.issues_access_level);
    push_feature(params, "repository_access_level", &p.repository_access_level);
    push_feature(params, "merge_requests_access_level", &p.merge_requests_access_level);
    push_feature(params, "builds_access_level", &p.builds_access_level);
    assert(params@ =~= start + project_form_0(*p));
}

/// The form parameters which the optional settings of a new project give (part 2).
pub open spec fn project_form_1(p: CreateProjectParams) -> Seq<ParamView> {
    opt_pair("wiki_access_level"@, opt_map_feature(p.wiki_access_level))
        + opt_pair("snippets_access_level"@, opt_map_feature(p.snippets_access_level))
        + opt_pair("pages_access_level"@, opt_map_feature_public(p.pages_access_level))
        + opt_pair("resolve_outdated_diff_discussions"@, opt_value(p.resolve_outdated_diff_discussions))
        + opt_pair("container_registry_enabled"@, opt_value(p.container_registry_enabled))
        + opt_pair("shared_runners_enabled"@, opt_value(p.shared_runners_enabled))
        + opt_pair("visibility"@, opt_value(p.visibility))
}

/// Adds the parameters of [`project_form_1`].
#[verifier::spinoff_prover]
fn push_project_form_1(params: &mut Params, p: &CreateProjectParams)
    ensures
        final(params)@ == old(params)@ + project_form_1(*p),
{
    let ghost start = params@;
    push_feature(params, "wiki_access_level", &p.wiki_access_level);
    push_feature(params, "snippets_access_level", &p.snippets_access_level);
    push_feature_public(params, "pages_access_level", &p.pages_access_level);
    params.push_opt("resolve_outdated_diff_discussions", &p.resolve_outdated_diff_discussions);
    params.push_opt("container_registry_enabled", &p.container_registry_enabled);
    params.push_opt("shared_runners_enabled", &p.shared_runners_enabled);
    params.push_opt("visibility", &p.visibility);
    assert(params@ =~= start + project_form_1(*p));
}

/// The form parameters which the optional settings of a new project give (part 3).
pub open spec fn project_form_2(p: CreateProjectParams) -> Seq<ParamView> {
    opt_pair("import_url"@, opt_value(p.import_url))
        + opt_pair("public_builds"@, opt_value(p.public_builds))
        + opt_pair("only_allow_merge_if_pipeline_succeeds"@, opt_value(p.only_allow_merge_if_pipeline_succeeds))
        + opt_pair("only_allow_merge_if_all_discussions_are_resolved"@, opt_value(p.only_allow_merge_if_all_discussions_are_resolved))
        + opt_pair("merge_method"@, opt_value(p.merge_method))
        + opt_pair("autoclose_referenced_issues"@, opt_value(p.autoclose_referenced_issues))
        + opt_pair("lfs_enabled"@, opt_value(p.lfs_enabled))
}

/// Adds the parameters of [`project_form_2`].
#[verifier::spinoff_prover]
fn push_project_form_2(params: &mut Params, p: &CreateProjectParams)
    ensures
        final(params)@ == old(params)@ + project_form_2(*p),
{
    let ghost start = params@;
    params.push_opt("import_url", &p.import_url);
    params.push_opt("public_builds", &p.public_builds);
    params.push_opt("only_allow_merge_if_pipeline_succeeds", &p.only_allow_merge_if_pipeline_succeeds);
    params.push_opt("only_allow_merge_if_all_discussions_are_resolved", &p.only_allow_merge_if_all_discussions_are_resolved);
    params.push_opt("merge_method", &p.merge_method);
    params.push_opt("autoclose_referenced_issues", &p.autoclose_referenced_issues);
    params.push_opt("lfs_enabled", &p.lfs_enabled);
    assert(params@ =~= start + project_form_2(*p));
}

/// The form parameters which the optional settings of a new project give (part 4).
pub open spec fn project_form_3(p: CreateProjectParams) -> Seq<ParamView> {
    opt_pair("request_access_enabled"@, opt_value(p.request_access_enabled))
        + list_pairs("tag_list[]"@, p.tag_list)
        + opt_pair("printing_merge_request_link_enabled"@, opt_value(p.printing_merge_request_link_enabled))
        + opt_pair("build_git_strategy"@, opt_value(p.build_git_strategy))
        + opt_pair("build_timeout"@, opt_value(p.build_timeout))
        + opt_pair("auto_cancel_pending_pipelines"@, opt_value(p.auto_cancel_pending_pipelines))
        + opt_pair("build_coverage_regex"@, opt_value(p.build_coverage_regex))
}

/// Adds the parameters of [`project_form_3`].
#[verifier::spinoff_prover]
fn push_project_form_3(params: &mut Params, p: &CreateProjectParams)
    ensures
        final(params)@ == old(params)@ + project_form_3(*p),
{
    let ghost start = params@;
    params.push_opt("request_access_enabled", &p.request_access_enabled);
    push_list(params, "tag_list[]", &p.tag_list);
    params.push_opt("printing_merge_request_link_enabled", &p.printing_merge_request_link_enabled);
    params.push_opt("build_git_strategy", &p.build_git_strategy);
    params.push_opt("build_timeout", &p.build_timeout);
    params.push_opt("auto_cancel_pending_pipelines", &p.auto_cancel_pending_pipelines);
    params.push_opt("build_coverage_regex", &p.build_coverage_regex);
    assert(params@ =~= start + project_form_3(*p));
}

/// The form parameters which the optional settings of a new project give (part 5).
pub open spec fn project_form_4(p: CreateProjectParams) -> Seq<ParamView> {
    opt_pair("ci_config_path"@, opt_value(p.ci_config_path))
        + opt_pair("auto_devops_enabled"@, opt_value(p.auto_devops_enabled))
        + opt_pair("auto_devops_deploy_strategy"@, deploy_strategy_text(p.auto_devops_deploy_strategy))
        + opt_pair("repository_storage"@, opt_value(p.repository_storage))
        + opt_pair("approvals_before_merge"@, opt_value(p.approvals_before_merge))
        + opt_pair("external_authorization_classification_label"@, opt_value(p.external_authorization_classification_label))
        + opt_pair("mirror"@, opt_value(p.mirror))
}

/// Adds the parameters of [`project_form_4`].
#[verifier::spinoff_prover]
fn push_project_form_4(params: &mut Params, p: &CreateProjectParams)
    ensures
        final(params)@ == old(params)@ + project_form_4(*p),
{
    let ghost start = params@;
    params.push_opt("ci_config_path", &p.ci_config_path);
    params.push_opt("auto_devops_enabled", &p.auto_devops_enabled);
    push_deploy_strategy(params, "auto_devops_deploy_strategy", &p.auto_devops_deploy_strategy);
    params.push_opt("repository_storage", &p.repository_storage);
    params.push_opt("approvals_before_merge", &p.approvals_before_merge);
    params.push_opt("external_authorization_classification_label", &p.external_authorization_classification_label);
    params.push_opt("mirror", &p.mirror);
    assert(params@ =~= start + project_form_4(*p));
}

/// The form parameters which the optional settings of a new project give (part 6).
pub open spec fn project_form_5(p: CreateProjectParams) -> Seq<ParamView> {
    opt_pair("mirror_trigger_builds"@, opt_value(p.mirror_trigger_builds))
        + opt_pair("template_name"@, opt_value(p.template_name))
        + opt_pair("template_project_id"@, opt_value(p.template_project_id))
        + opt_pair("use_custom_template"@, opt_value(p.use_custom_template))
        + opt_pair("group_with_project_templates_id"@, opt_value(p.group_with_project_templates_id))
        + opt_pair("packages_enabled"@, opt_value(p.packages_enabled))
}

/// Adds the parameters of [`project_form_5`].
#[verifier::spinoff_prover]
fn push_project_form_5(params: &mut Params, p: &CreateProjectParams)
    ensures
        final(params)@ == old(params)@ + project_form_5(*p),
{
    let ghost start = params@;
    params.push_opt("mirror_trigger_builds", &p.mirror_trigger_builds);
    params.push_opt("template_name", &p.template_name);
    params.push_opt("template_project_id", &p.template_project_id);
    params.push_opt("use_custom_template", &p.use_custom_template);
    params.push_opt("group_with_project_templates_id", &p.group_with_project_templates_id);
    params.push_opt("packages_enabled", &p.packages_enabled);
    assert(params@ =~= start + project_form_5(*p));
}

/// The form parameters which the optional settings of a new project give.
pub open spec fn project_form(p: CreateProjectParams) -> Seq<ParamView> {
    project_form_0(p)
        + project_form_1(p)
        + project_form_2(p)
        + project_form_3(p)
        + project_form_4(p)
        + project_form_5(p)
}

/// Adds the parameters of [`project_form`].
fn push_project_form(params: &mut Params, p: &CreateProjectParams)
    ensures
        final(params)@ == old(params)@ + project_form(*p),
{
    let ghost start = params@;
    push_project_form_0(params, p);
    push_project_form_1(params, p);
    push_project_form_2(params, p);
    push_project_form_3(params, p);
    push_project_form_4(params, p);
    push_project_form_5(params, p);
    assert(params@ =~= start + project_form(*p));
}

/// The form parameters which the optional settings of a new group give (part 1).
pub open spec fn group_form_0(p: CreateGroupParams) -> Seq<ParamView> {
    opt_pair("description"@, opt_value(p.description))
        + opt_pair("visibility"@, opt_value(p.visibility))
        + opt_pair("share_with_group_lock"@, opt_value(p.share_with_group_lock))
        + opt_pair("require_two_factor_authentication"@, opt_value(p.require_two_factor_authentication))
        + opt_pair("project_creation_level"@, opt_project_creation(p.project_creation_level))
        + opt_pair("auto_devops_enabled"@, opt_value(p.auto_devops_enabled))
        + opt_pair("subgroup_creation_level"@, opt_subgroup_creation(p.subgroup_creation_level))
}

/// Adds the parameters of [`group_form_0`].
#[verifier::spinoff_prover]
fn push_group_form_0(params: &mut Params, p: &CreateGroupParams)
    ensures
        final(params)@ == old(params)@ + group_form_0(*p),
{
    let ghost start = params@;
    params.push_opt("description", &p.description);
    params.push_opt("visibility", &p.visibility);
    params.push_opt("share_with_group_lock", &p.share_with_group_lock);
    params.push_opt("require_two_factor_authentication", &p.require_two_factor_authentication);
    push_project_creation(params, "project_creation_level", &p.project_creation_level);
    params.push_opt("auto_devops_enabled", &p.auto_devops_enabled);
    push_subgroup_creation(params, "subgroup_creation_level", &p.subgroup_creation_level);
    assert(params@ =~= start + group_form_0(*p));
}

/// The form parameters which the optional settings of a new group give (part 2).
pub open spec fn group_form_1(p: CreateGroupParams) -> Seq<ParamView> {
    opt_pair("emails_disabled"@, opt_value(p.emails_disabled))
        + opt_pair("mentions_disabled"@, opt_value(p.mentions_disabled))
        + opt_pair("lfs_enabled"@, opt_value(p.lfs_enabled))
        + opt_pair("request_access_enabled"@, opt_value(p.request_access_enabled))
        + opt_pair("parent_id"@, opt_group_id(p.parent_id))
        + opt_pair("shared_runners_minutes_limit"@, opt_value(p.shared_runners_minutes_limit))
        + opt_pair("extra_shared_runners_minutes_limit"@, opt_value(p.extra_shared_runners_minutes_limit))
}

/// Adds the parameters of [`group_form_1`].
#[verifier::spinoff_prover]
fn push_group_form_1(params: &mut Params, p: &CreateGroupParams)
    ensures
        final(params)@ == old(params)@ + group_form_1(*p),
{
    let ghost start = params@;
    params.push_opt("emails_disabled", &p.emails_disabled);
    params.push_opt("mentions_disabled", &p.mentions_disabled);
    params.push_opt("lfs_enabled", &p.lfs_enabled);
    params.push_opt("request_access_enabled", &p.request_access_enabled);
    push_group_id(params, "parent_id", &p.parent_id);
    params.push_opt("shared_runners_minutes_limit", &p.shared_runners_minutes_limit);
    params.push_opt("extra_shared_runners_minutes_limit", &p.extra_shared_runners_minutes_limit);
    assert(params@ =~= start + group_form_1(*p));
}

/// The form parameters which the optional settings of a new group give.
pub open spec fn group_form(p: CreateGroupParams) -> Seq<ParamView> {
    group_form_0(p)
        + group_form_1(p)
}

/// Adds the parameters of [`group_form`].
fn push_group_form(params: &mut Params, p: &CreateGroupParams)
    ensures
        final(params)@ == old(params)@ + group_form(*p),
{
    let ghost start = params@;
    push_group_form_0(params, p);
    push_group_form_1(params, p);
    assert(params@ =~= start + group_form(*p));
}

/// The path of a project, or of something below it.
pub open spec fn project_path(project: ProjectId, rest: Seq<char>) -> Seq<char> {
    "projects/"@ + u64_text(project@) + rest
}

/// The path of a project, or of something below it.
fn project_path_string(project: ProjectId, rest: &str) -> (r: String)
    ensures
        r@ == project_path(project, rest@),
{
    let mut r = "projects/".to_owned();
    r.append(project.to_string().as_str());
    r.append(rest);
    r
}

/// The characters of an optional string.
pub open spec fn opt_str(s: Option<&str>) -> Option<Seq<char>> {
    match s {
        Some(v) => Some(v@),
        None => None,
    }
}

/// Whether `r` is a request with a form body.
pub open spec fn is_form_request(r: ClientRequest, method: Method, endpoint: Seq<char>, form: Seq<ParamView>) -> bool {
    &&& r.method == method
    &&& r.endpoint@ == endpoint
    &&& r.query@ == Seq::<ParamView>::empty()
    &&& r.form matches Some(f) && f@ == form
}

/// A request with a form body.
fn form_request(method: Method, endpoint: String, form: Params) -> (r: ClientRequest)
    ensures
        is_form_request(r, method, endpoint@, form@),
{
    ClientRequest { method, endpoint, query: Params::new(), form: Some(form) }
}

/// The form parameters of a new project.
pub open spec fn create_project_form(name: Seq<char>, path: Option<Seq<char>>, params: Option<CreateProjectParams>) -> Seq<ParamView> {
    seq![("name"@, name)] + opt_pair("path"@, path) + match params {
        Some(p) => project_form(p),
        None => Seq::empty(),
    }
}

/// The request which creates a project.
#[verifier::spinoff_prover]
pub fn create_project(name: &str, path: Option<&str>, params: Option<&CreateProjectParams>) -> (r: ClientRequest)
    ensures
        is_form_request(
            r,
            Method::Post,
            "projects"@,
            create_project_form(
                name@,
                opt_str(path),
                match params {
                    Some(p) => Some(*p),
                    None => None,
                },
            ),
        ),
{
    let mut form = Params::new();
    form.push_str("name", name);
    match path {
        Some(p) => form.push_str("path", p),
        None => {},
    }
    let ghost before = form@;
    match params {
        Some(p) => push_project_form(&mut form, p),
        None => {},
    }
    proof {
        assert(form@ =~= create_project_form(
            name@,
            opt_str(path),
            match params {
                Some(p) => Some(*p),
                None => None,
            },
        ));
    }
    form_request(Method::Post, "projects".to_owned(), form)
}

/// The form parameters of a new group.
pub open spec fn create_group_form(name: Seq<char>, path: Seq<char>, params: Option<CreateGroupParams>) -> Seq<ParamView> {
    seq![("name"@, name), ("path"@, path)] + match params {
        Some(p) => group_form(p),
        None => Seq::empty(),
    }
}

/// The request which creates a group.
#[verifier::spinoff_prover]
pub fn create_group(name: &str, path: &str, params: Option<&CreateGroupParams>) -> (r: ClientRequest)
    ensures
        is_form_request(
            r,
            Method::Post,
            "groups"@,
            create_group_form(
                name@,
                path@,
                match params {
                    Some(p) => Some(*p),
                    None => None,
                },
            ),
        ),
{
    let mut form = Params::new();
    form.push_str("name", name);
    form.push_str("path", path);
    match params {
        Some(p) => push_group_form(&mut form, p),
        None => {},
    }
    proof {
        assert(form@ =~= create_group_form(
            name@,
            path@,
            match params {
                Some(p) => Some(*p),
                None => None,
            },
        ));
    }
    form_request(Method::Post, "groups".to_owned(), form)
}

/// The IDs of users, one parameter `key` for each.
pub open spec fn user_id_pairs(key: Seq<char>, ids: Seq<UserId>) -> Seq<ParamView> {
    ids.map_values(|u: UserId| (key, u64_text(u@)))
}

/// Adds one parameter `key` for each user.
fn push_user_ids(params: &mut Params, key: &str, ids: &Vec<UserId>)
    ensures
        final(params)@ == old(params)@ + user_id_pairs(key@, ids@),
{
    let ghost start = params@;
    let mut i: usize = 0;
    while i < ids.len()
        invariant
            i <= ids@.len(),
            params@ =~= start + user_id_pairs(key@, ids@.take(i as int)),
        decreases ids@.len() - i,
    {
        params.push_string(key, ids[i].to_string());
        assert(user_id_pairs(key@, ids@.take(i + 1)) =~= user_id_pairs(key@, ids@.take(i as int)).push(
            (key@, u64_text(ids@[i as int]@)),
        ));
        i = i + 1;
    }
    assert(ids@.take(ids@.len() as int) =~= ids@);
}

/// How the assignees of a new merge request are sent: a list of IDs (an
/// empty list unassigns everybody) wins over a single ID.
pub open spec fn assignee_pairs(p: CreateMergeRequestParams) -> Seq<ParamView> {
    match p.assignee_ids {
        Some(ids) => if ids@.len() == 0 {
            seq![("assignee_ids"@, "0"@)]
        } else {
            user_id_pairs("assignee_ids[]"@, ids@)
        },
        None => match p.assignee_id {
            Some(id) => seq![("assignee_id"@, u64_text(id@))],
            None => Seq::empty(),
        },
    }
}

/// How an optional ID of a project is sent.
pub open spec fn opt_project_id(id: Option<ProjectId>) -> Option<Seq<char>> {
    match id {
        Some(p) => Some(u64_text(p@)),
        None => None,
    }
}

/// The form parameters of a new merge request.
pub open spec fn create_merge_request_form(p: CreateMergeRequestParams) -> Seq<ParamView> {
    seq![
        ("source_branch"@, p.source_branch@),
        ("target_branch"@, p.target_branch@),
        ("title"@, p.title@),
    ] + assignee_pairs(p) + opt_pair("description"@, opt_value(p.description)) + opt_pair(
        "target_project_id"@,
        opt_project_id(p.target_project_id),
    ) + opt_pair("labels"@, opt_value(p.labels)) + opt_pair(
        "milestone_id"@,
        match p.milestone_id {
            Some(m) => Some(u64_text(m@)),
            None => None,
        },
    ) + opt_pair("remove_source_branch"@, opt_value(p.remove_source_branch)) + opt_pair(
        "allow_collaboration"@,
        opt_value(p.allow_collaboration),
    ) + opt_pair("squash"@, opt_value(p.squash))
}

/// The `key` parameters among parameters for users: one per user, with the
/// user's ID, when the parameters are named `key`.
proof fn lemma_values_of_user_ids(k: Seq<char>, ids: Seq<UserId>, key: Seq<char>)
    ensures
        values_of(user_id_pairs(k, ids), key) == if k == key {
            ids.map_values(|u: UserId| u64_text(u@))
        } else {
            Seq::<Seq<char>>::empty()
        },
    decreases ids.len(),
{
    if ids.len() > 0 {
        lemma_values_of_user_ids(k, ids.drop_last(), key);
        assert(user_id_pairs(k, ids).drop_last() =~= user_id_pairs(k, ids.drop_last()));
        assert(ids.map_values(|u: UserId| u64_text(u@)) =~= ids.drop_last().map_values(
            |u: UserId| u64_text(u@),
        ).push(u64_text(ids.last()@)));
    } else {
        assert(ids.map_values(|u: UserId| u64_text(u@)) =~= Seq::<Seq<char>>::empty());
    }
}

/// The parameters of a new merge request named `key`, for a key that none of
/// its fixed parameters has.
proof fn lemma_merge_request_values(p: CreateMergeRequestParams, key: Seq<char>)
    requires
        key != "source_branch"@,
        key != "target_branch"@,
        key != "title"@,
        key != "description"@,
        key != "target_project_id"@,
        key != "labels"@,
        key != "milestone_id"@,
        key != "remove_source_branch"@,
        key != "allow_collaboration"@,
        key != "squash"@,
    ensures
        values_of(create_merge_request_form(p), key) == values_of(assignee_pairs(p), key),
{
    let head = seq![
        ("source_branch"@, p.source_branch@),
        ("target_branch"@, p.target_branch@),
        ("title"@, p.title@),
    ];
    assert(head =~= seq![("source_branch"@, p.source_branch@)] + seq![("target_branch"@, p.target_branch@)] + seq![("title"@, p.title@)]);
    lemma_values_of_single("source_branch"@, p.source_branch@, key);
    lemma_values_of_single("target_branch"@, p.target_branch@, key);
    lemma_values_of_single("title"@, p.title@, key);
    lemma_values_of_concat(seq![("source_branch"@, p.source_branch@)], seq![("target_branch"@, p.target_branch@)], key);
    lemma_values_of_concat(
        seq![("source_branch"@, p.source_branch@)] + seq![("target_branch"@, p.target_branch@)],
        seq![("title"@, p.title@)],
        key,
    );
    let o1 = opt_pair("description"@, opt_value(p.description));
    let o2 = opt_pair("target_project_id"@, opt_project_id(p.target_project_id));
    let o3 = opt_pair("labels"@, opt_value(p.labels));
    let o4 = opt_pair(
        "milestone_id"@,
        match p.milestone_id {
            Some(m) => Some(u64_text(m@)),
            None => None,
        },
    );
    let o5 = opt_pair("remove_source_branch"@, opt_value(p.remove_source_branch));
    let o6 = opt_pair("allow_collaboration"@, opt_value(p.allow_collaboration));
    let o7 = opt_pair("squash"@, opt_value(p.squash));
    lemma_values_of_opt_pair("description"@, opt_value(p.description), key);
    lemma_values_of_opt_pair("target_project_id"@, opt_project_id(p.target_project_id), key);
    lemma_values_of_opt_pair("labels"@, opt_value(p.labels), key);
    lemma_values_of_opt_pair(
        "milestone_id"@,
        match p.milestone_id {
            Some(m) => Some(u64_text(m@)),
            None => None,
        },
        key,
    );
    lemma_values_of_opt_pair("remove_source_branch"@, opt_value(p.remove_source_branch), key);
    lemma_values_of_opt_pair("allow_collaboration"@, opt_value(p.allow_collaboration), key);
    lemma_values_of_opt_pair("squash"@, opt_value(p.squash), key);
    let a = assignee_pairs(p);
    lemma_values_of_concat(head, a, key);
    lemma_values_of_concat(head + a, o1, key);
    lemma_values_of_concat(head + a + o1, o2, key);
    lemma_values_of_concat(head + a + o1 + o2, o3, key);
    lemma_values_of_concat(head + a + o1 + o2 + o3, o4, key);
    lemma_values_of_concat(head + a + o1 + o2 + o3 + o4, o5, key);
    lemma_values_of_concat(head + a + o1 + o2 + o3 + o4 + o5, o6, key);
    lemma_values_of_concat(head + a + o1 + o2 + o3 + o4 + o5 + o6, o7, key);
    assert(values_of(head, key) =~= Seq::<Seq<char>>::empty());
    assert(values_of(create_merge_request_form(p), key) =~= values_of(a, key));
}

/// A new merge request assigned to a list of users sends one
/// `assignee_ids[]` parameter for each of them, in order, with the user's
/// ID, and neither a single `assignee_id` nor the `assignee_ids` that
/// unassigns everybody.
pub proof fn lemma_merge_request_assigns_every_user(p: CreateMergeRequestParams)
    requires
        p.assignee_ids matches Some(ids) && ids@.len() > 0,
    ensures
        values_of(create_merge_request_form(p), "assignee_ids[]"@) == p.assignee_ids->0@.map_values(
            |u: UserId| u64_text(u@),
        ),
        values_of(create_merge_request_form(p), "assignee_id"@) == Seq::<Seq<char>>::empty(),
        values_of(create_merge_request_form(p), "assignee_ids"@) == Seq::<Seq<char>>::empty(),
{
    reveal_strlit("source_branch");
    reveal_strlit("target_branch");
    reveal_strlit("title");
    reveal_strlit("description");
    reveal_strlit("target_project_id");
    reveal_strlit("labels");
    reveal_strlit("milestone_id");
    reveal_strlit("remove_source_branch");
    reveal_strlit("allow_collaboration");
    reveal_strlit("squash");
    reveal_strlit("assignee_ids[]");
    reveal_strlit("assignee_id");
    reveal_strlit("assignee_ids");
    let ids = p.assignee_ids->0@;
    assert("source_branch"@.len() == 13 && "target_branch"@.len() == 13 && "title"@.len() == 5);
    assert("description"@.len() == 11 && "target_project_id"@.len() == 17 && "labels"@.len() == 6);
    assert("milestone_id"@.len() == 12 && "remove_source_branch"@.len() == 20);
    assert("allow_collaboration"@.len() == 19 && "squash"@.len() == 6);
    assert("assignee_ids[]"@.len() == 14 && "assignee_id"@.len() == 11 && "assignee_ids"@.len() == 12);
    assert("assignee_id"@[0] != "description"@[0]);
    assert("assignee_ids"@[0] != "milestone_id"@[0]);
    lemma_merge_request_values(p, "assignee_ids[]"@);
    lemma_merge_request_values(p, "assignee_id"@);
    lemma_merge_request_values(p, "assignee_ids"@);
    lemma_values_of_user_ids("assignee_ids[]"@, ids, "assignee_ids[]"@);
    lemma_values_of_user_ids("assignee_ids[]"@, ids, "assignee_id"@);
    lemma_values_of_user_ids("assignee_ids[]"@, ids, "assignee_ids"@);
}

/// The parameters named `key` among those that say who a new merge request
/// is assigned to, for a key that names no assignee parameter.
proof fn lemma_assignee_values_elsewhere(p: CreateMergeRequestParams, key: Seq<char>)
    requires
        key != "assignee_ids"@,
        key != "assignee_ids[]"@,
        key != "assignee_id"@,
    ensures
        values_of(assignee_pairs(p), key) == Seq::<Seq<char>>::empty(),
{
    match p.assignee_ids {
        Some(ids) => if ids@.len() == 0 {
            lemma_values_of_single("assignee_ids"@, "0"@, key);
        } else {
            lemma_values_of_user_ids("assignee_ids[]"@, ids@, key);
        },
        None => match p.assignee_id {
            Some(id) => lemma_values_of_single("assignee_id"@, u64_text(id@), key),
            None => {
                assert(values_of(Seq::<ParamView>::empty(), key) =~= Seq::<Seq<char>>::empty());
            },
        },
    }
}

/// A new merge request always sends its source branch, its target branch
/// and its title, each as the one parameter of that name.
pub proof fn lemma_merge_request_names_its_branches(p: CreateMergeRequestParams)
    ensures
        values_of(create_merge_request_form(p), "source_branch"@) == seq![p.source_branch@],
        values_of(create_merge_request_form(p), "target_branch"@) == seq![p.target_branch@],
        values_of(create_merge_request_form(p), "title"@) == seq![p.title@],
{
    reveal_strlit("source_branch");
    reveal_strlit("target_branch");
    reveal_strlit("title");
    reveal_strlit("description");
    reveal_strlit("target_project_id");
    reveal_strlit("labels");
    reveal_strlit("milestone_id");
    reveal_strlit("remove_source_branch");
    reveal_strlit("allow_collaboration");
    reveal_strlit("squash");
    reveal_strlit("assignee_ids[]");
    reveal_strlit("assignee_id");
    reveal_strlit("assignee_ids");
    assert("source_branch"@.len() == 13 && "target_branch"@.len() == 13 && "title"@.len() == 5);
    assert("description"@.len() == 11 && "target_project_id"@.len() == 17 && "labels"@.len() == 6);
    assert("milestone_id"@.len() == 12 && "remove_source_branch"@.len() == 20);
    assert("allow_collaboration"@.len() == 19 && "squash"@.len() == 6);
    assert("assignee_ids[]"@.len() == 14 && "assignee_id"@.len() == 11 && "assignee_ids"@.len() == 12);
    assert("source_branch"@[0] != "target_branch"@[0]);
    let keys = seq!["source_branch"@, "target_branch"@, "title"@];
    let vals = seq![p.source_branch@, p.target_branch@, p.title@];
    assert forall|i: int| 0 <= i < 3 implies values_of(create_merge_request_form(p), #[trigger] keys[i])
        == seq![vals[i]] by {
        let key = keys[i];
        let head = seq![
            ("source_branch"@, p.source_branch@),
            ("target_branch"@, p.target_branch@),
            ("title"@, p.title@),
        ];
        assert(head =~= seq![("source_branch"@, p.source_branch@)] + seq![("target_branch"@, p.target_branch@)] + seq![("title"@, p.title@)]);
        lemma_values_of_single("source_branch"@, p.source_branch@, key);
        lemma_values_of_single("target_branch"@, p.target_branch@, key);
        lemma_values_of_single("title"@, p.title@, key);
        lemma_values_of_concat(seq![("source_branch"@, p.source_branch@)], seq![("target_branch"@, p.target_branch@)], key);
        lemma_values_of_concat(
            seq![("source_branch"@, p.source_branch@)] + seq![("target_branch"@, p.target_branch@)],
            seq![("title"@, p.title@)],
            key,
        );
        let o1 = opt_pair("description"@, opt_value(p.description));
        let o2 = opt_pair("target_project_id"@, opt_project_id(p.target_project_id));
        let o3 = opt_pair("labels"@, opt_value(p.labels));
        let mid = match p.milestone_id {
            Some(m) => Some(u64_text(m@)),
            None => None,
        };
        let o4 = opt_pair("milestone_id"@, mid);
        let o5 = opt_pair("remove_source_branch"@, opt_value(p.remove_source_branch));
        let o6 = opt_pair("allow_collaboration"@, opt_value(p.allow_collaboration));
        let o7 = opt_pair("squash"@, opt_value(p.squash));
        lemma_values_of_opt_pair("description"@, opt_value(p.description), key);
        lemma_values_of_opt_pair("target_project_id"@, opt_project_id(p.target_project_id), key);
        lemma_values_of_opt_pair("labels"@, opt_value(p.labels), key);
        lemma_values_of_opt_pair("milestone_id"@, mid, key);
        lemma_values_of_opt_pair("remove_source_branch"@, opt_value(p.remove_source_branch), key);
        lemma_values_of_opt_pair("allow_collaboration"@, opt_value(p.allow_collaboration), key);
        lemma_values_of_opt_pair("squash"@, opt_value(p.squash), key);
        let a = assignee_pairs(p);
        lemma_assignee_values_elsewhere(p, key);
        lemma_values_of_concat(head, a, key);
        lemma_values_of_concat(head + a, o1, key);
        lemma_values_of_concat(head + a + o1, o2, key);
        lemma_values_of_concat(head + a + o1 + o2, o3, key);
        lemma_values_of_concat(head + a + o1 + o2 + o3, o4, key);
        lemma_values_of_concat(head + a + o1 + o2 + o3 + o4, o5, key);
        lemma_values_of_concat(head + a + o1 + o2 + o3 + o4 + o5, o6, key);
        lemma_values_of_concat(head + a + o1 + o2 + o3 + o4 + o5 + o6, o7, key);
        assert(create_merge_request_form(p) == head + a + o1 + o2 + o3 + o4 + o5 + o6 + o7);
        let z = Seq::<Seq<char>>::empty();
        assert(values_of(create_merge_request_form(p), key) =~= values_of(head, key));
        if i == 0 {
            assert(seq![vals[0]] + z + z =~= seq![vals[0]]);
        } else if i == 1 {
            assert(z + seq![vals[1]] + z =~= seq![vals[1]]);
        } else {
            assert(z + z + seq![vals[2]] =~= seq![vals[2]]);
        }
    }
    assert(keys[0] == "source_branch"@ && keys[1] == "target_branch"@ && keys[2] == "title"@);
}

/// The request which creates a merge request.
#[verifier::spinoff_prover]
pub fn create_merge_request(project: ProjectId, params: &CreateMergeRequestParams) -> (r: ClientRequest)
    ensures
        is_form_request(
            r,
            Method::Post,
            project_path(project, "/merge_requests"@),
            create_merge_request_form(*params),
        ),
{
    let mut form = Params::new();
    form.push_str("source_branch", params.source_branch.as_str());
    form.push_str("target_branch", params.target_branch.as_str());
    form.push_str("title", params.title.as_str());
    let ghost after_title = form@;
    match &params.assignee_ids {
        Some(ids) => {
            if ids.len() == 0 {
                form.push_str("assignee_ids", "0");
            } else {
                push_user_ids(&mut form, "assignee_ids[]", ids);
            }
        },
        None => match params.assignee_id {
            Some(id) => form.push_string("assignee_id", id.to_string()),
            None => {},
        },
    }
    assert(form@ =~= after_title + assignee_pairs(*params));
    form.push_opt("description", &params.description);
    match params.target_project_id {
        Some(id) => form.push_string("target_project_id", id.to_string()),
        None => {},
    }
    form.push_opt("labels", &params.labels);
    match params.milestone_id {
        Some(id) => form.push_string("milestone_id", id.to_string()),
        None => {},
    }
    form.push_opt("remove_source_branch", &params.remove_source_branch);
    form.push_opt("allow_collaboration", &params.allow_collaboration);
    form.push_opt("squash", &params.squash);
    proof {
        reveal_strlit("0");
        assert(form@ =~= create_merge_request_form(*params));
    }
    form_request(Method::Post, project_path_string(project, "/merge_requests"), form)
}

/// The form parameters of a new label.
pub open spec fn create_label_form(label: Label) -> Seq<ParamView> {
    seq![("name"@, label.name@), ("color"@, label.color@)] + opt_pair(
        "description"@,
        opt_value(label.description),
    ) + opt_pair("priority"@, opt_value(label.priority))
}

/// The request which creates a label in a project.
#[verifier::spinoff_prover]
pub fn create_label(project: ProjectId, label: &Label) -> (r: ClientRequest)
    ensures
        is_form_request(r, Method::Post, project_path(project, "/labels"@), create_label_form(*label)),
{
    let mut form = Params::new();
    form.push_str("name", label.name.as_str());
    form.push_str("color", label.color.value_str());
    form.push_opt("description", &label.description);
    form.push_opt("priority", &label.priority);
    assert(form@ =~= create_label_form(*label));
    form_request(Method::Post, project_path_string(project, "/labels"), form)
}

impl ParamValue for Date {
    open spec fn spec_value(&self) -> Seq<char> {
        date_text(self.spec_year() as int, self.spec_month() as int, self.spec_day() as int)
    }

    fn as_value(&self) -> (r: String) {
        self.to_string()
    }
}

/// The form parameters of a new milestone.
pub open spec fn create_milestone_form(m: Milestone) -> Seq<ParamView> {
    seq![("title"@, m.title@)] + opt_pair("description"@, opt_value(m.description)) + opt_pair(
        "due_date"@,
        opt_value(m.due_date),
    ) + opt_pair("start_date"@, opt_value(m.start_date))
}

/// The request which creates a milestone in its project, or else in its
/// group; none when the milestone has neither.
#[verifier::spinoff_prover]
pub fn create_milestone(milestone: &Milestone) -> (r: Option<ClientRequest>)
    ensures
        match milestone.project_id {
            Some(p) => r matches Some(q) && is_form_request(
                q,
                Method::Post,
                project_path(p, "/milestones"@),
                create_milestone_form(*milestone),
            ),
            None => match milestone.group_id {
                Some(g) => r matches Some(q) && is_form_request(
                    q,
                    Method::Post,
                    "groups/"@ + u64_text(g@) + "/milestones"@,
                    create_milestone_form(*milestone),
                ),
                None => r is None,
            },
        },
{
    let mut form = Params::new();
    form.push_str("title", milestone.title.as_str());
    form.push_opt("description", &milestone.description);
    form.push_opt("due_date", &milestone.due_date);
    form.push_opt("start_date", &milestone.start_date);
    assert(form@ =~= create_milestone_form(*milestone));
    match milestone.project_id {
        Some(p) => Some(form_request(Method::Post, project_path_string(p, "/milestones"), form)),
        None => match milestone.group_id {
            Some(g) => {
                let mut path = "groups/".to_owned();
                path.append(g.to_string().as_str());
                path.append("/milestones");
                Some(form_request(Method::Post, path, form))
            },
            None => None,
        },
    }
}

/// The labels, separated by commas.
pub open spec fn comma_joined(labels: Seq<String>) -> Seq<char>
    decreases labels.len(),
{
    if labels.len() == 0 {
        Seq::empty()
    } else if labels.len() == 1 {
        labels[0]@
    } else {
        comma_joined(labels.drop_last()) + ","@ + labels.last()@
    }
}

/// The labels, separated by commas.
fn comma_join(labels: &Vec<String>) -> (r: String)
    ensures
        r@ == comma_joined(labels@),
{
    let mut r = String::new();
    let mut i: usize = 0;
    proof {
        reveal_strlit(",");
    }
    while i < labels.len()
        invariant
            i <= labels@.len(),
            r@ == comma_joined(labels@.take(i as int)),
            ","@ == seq![','],
        decreases labels@.len() - i,
    {
        proof {
            assert(labels@.take(i + 1).drop_last() =~= labels@.take(i as int));
        }
        if i > 0 {
            r.append(",");
        }
        r.append(labels[i].as_str());
        proof {
            if i == 0 {
                assert(r@ =~= comma_joined(labels@.take(1)));
            }
        }
        i = i + 1;
    }
    proof {
        assert(labels@.take(labels@.len() as int) =~= labels@);
    }
    r
}

/// The IDs of users.
pub open spec fn user_ids(users: Seq<UserBasic>) -> Seq<UserId> {
    Seq::new(users.len(), |i: int| users[i].id)
}

/// The form parameters of a new issue: the ID within the project is only
/// sent when it is not zero, and the labels only when there are some.
pub open spec fn create_issue_form(issue: Issue) -> Seq<ParamView> {
    seq![
        ("title"@, issue.title@),
        ("confidential"@, crate::params::bool_text(issue.confidential)),
        ("created_at"@, rfc3339_seconds(issue.created_at.spec_seconds(), issue.created_at.spec_nanos())),
    ] + (if issue.iid@ != 0 {
        seq![("iid"@, u64_text(issue.iid@))]
    } else {
        Seq::empty()
    }) + opt_pair("description"@, opt_value(issue.description)) + match issue.assignees {
        Some(users) => user_id_pairs("assignee_ids[]"@, user_ids(users@)),
        None => Seq::empty(),
    } + opt_pair(
        "milestone_id"@,
        match issue.milestone {
            Some(m) => Some(u64_text(m.id@)),
            None => None,
        },
    ) + (if issue.labels@.len() > 0 {
        seq![("labels"@, comma_joined(issue.labels@))]
    } else {
        Seq::empty()
    }) + opt_pair("due_date"@, opt_value(issue.due_date))
}

/// A new issue that belongs to a milestone sends that milestone's ID as its
/// one `milestone_id` parameter; an issue without a milestone sends none.
pub proof fn lemma_issue_keeps_its_milestone(issue: Issue)
    ensures
        values_of(create_issue_form(issue), "milestone_id"@) == match issue.milestone {
            Some(m) => seq![u64_text(m.id@)],
            None => Seq::<Seq<char>>::empty(),
        },
{
    reveal_strlit("title");
    reveal_strlit("confidential");
    reveal_strlit("created_at");
    reveal_strlit("iid");
    reveal_strlit("description");
    reveal_strlit("assignee_ids[]");
    reveal_strlit("milestone_id");
    reveal_strlit("labels");
    reveal_strlit("due_date");
    assert("title"@.len() == 5 && "confidential"@.len() == 12 && "created_at"@.len() == 10);
    assert("iid"@.len() == 3 && "description"@.len() == 11 && "assignee_ids[]"@.len() == 14);
    assert("milestone_id"@.len() == 12 && "labels"@.len() == 6 && "due_date"@.len() == 8);
    assert("milestone_id"@[0] != "confidential"@[0]);
    let key = "milestone_id"@;
    let created = rfc3339_seconds(issue.created_at.spec_seconds(), issue.created_at.spec_nanos());
    let conf = crate::params::bool_text(issue.confidential);
    let head = seq![("title"@, issue.title@), ("confidential"@, conf), ("created_at"@, created)];
    assert(head =~= seq![("title"@, issue.title@)] + seq![("confidential"@, conf)] + seq![("created_at"@, created)]);
    lemma_values_of_single("title"@, issue.title@, key);
    lemma_values_of_single("confidential"@, conf, key);
    lemma_values_of_single("created_at"@, created, key);
    lemma_values_of_concat(seq![("title"@, issue.title@)], seq![("confidential"@, conf)], key);
    lemma_values_of_concat(
        seq![("title"@, issue.title@)] + seq![("confidential"@, conf)],
        seq![("created_at"@, created)],
        key,
    );
    let iid = if issue.iid@ != 0 {
        seq![("iid"@, u64_text(issue.iid@))]
    } else {
        Seq::empty()
    };
    if issue.iid@ != 0 {
        lemma_values_of_single("iid"@, u64_text(issue.iid@), key);
    } else {
        assert(values_of(iid, key) =~= Seq::<Seq<char>>::empty());
    }
    let desc = opt_pair("description"@, opt_value(issue.description));
    lemma_values_of_opt_pair("description"@, opt_value(issue.description), key);
    let assignees = match issue.assignees {
        Some(users) => user_id_pairs("assignee_ids[]"@, user_ids(users@)),
        None => Seq::empty(),
    };
    match issue.assignees {
        Some(users) => lemma_values_of_user_ids("assignee_ids[]"@, user_ids(users@), key),
        None => {
            assert(values_of(assignees, key) =~= Seq::<Seq<char>>::empty());
        },
    }
    let mid = match issue.milestone {
        Some(m) => Some(u64_text(m.id@)),
        None => None,
    };
    let milestone = opt_pair("milestone_id"@, mid);
    lemma_values_of_opt_pair("milestone_id"@, mid, key);
    let labels = if issue.labels@.len() > 0 {
        seq![("labels"@, comma_joined(issue.labels@))]
    } else {
        Seq::empty()
    };
    if issue.labels@.len() > 0 {
        lemma_values_of_single("labels"@, comma_joined(issue.labels@), key);
    } else {
        assert(values_of(labels, key) =~= Seq::<Seq<char>>::empty());
    }
    let due = opt_pair("due_date"@, opt_value(issue.due_date));
    lemma_values_of_opt_pair("due_date"@, opt_value(issue.due_date), key);
    lemma_values_of_concat(head, iid, key);
    lemma_values_of_concat(head + iid, desc, key);
    lemma_values_of_concat(head + iid + desc, assignees, key);
    lemma_values_of_concat(head + iid + desc + assignees, milestone, key);
    lemma_values_of_concat(head + iid + desc + assignees + milestone, labels, key);
    lemma_values_of_concat(head + iid + desc + assignees + milestone + labels, due, key);
    assert(create_issue_form(issue) == head + iid + desc + assignees + milestone + labels + due);
    assert(values_of(head, key) =~= Seq::<Seq<char>>::empty());
    assert(values_of(create_issue_form(issue), key) =~= values_of(milestone, key));
}

/// Adds one `assignee_ids[]` parameter for each assignee.
fn push_assignees(params: &mut Params, users: &Vec<UserBasic>)
    ensures
        final(params)@ == old(params)@ + user_id_pairs(
            "assignee_ids[]"@,
            user_ids(users@),
        ),
{
    let ghost start = params@;
    let ghost ids = user_ids(users@);
    let mut i: usize = 0;
    while i < users.len()
        invariant
            i <= users@.len(),
            ids == user_ids(users@),
            params@ =~= start + user_id_pairs("assignee_ids[]"@, ids.take(i as int)),
        decreases users@.len() - i,
    {
        params.push_string("assignee_ids[]", users[i].id.to_string());
        assert(user_id_pairs("assignee_ids[]"@, ids.take(i + 1)) =~= user_id_pairs(
            "assignee_ids[]"@,
            ids.take(i as int),
        ).push(("assignee_ids[]"@, u64_text(users@[i as int].id@))));
        i = i + 1;
    }
    assert(ids.take(ids.len() as int) =~= ids);
}

/// The request which creates an issue in a project.
#[verifier::spinoff_prover]
#[verifier::rlimit(40)]
pub fn create_issue(project: ProjectId, issue: &Issue) -> (r: ClientRequest)
    ensures
        is_form_request(r, Method::Post, project_path(project, "/issues"@), create_issue_form(*issue)),
{
    let mut form = Params::new();
    form.push_str("title", issue.title.as_str());
    form.push("confidential", &issue.confidential);
    form.push("created_at", &issue.created_at);
    if issue.iid.value() != 0 {
        form.push_string("iid", issue.iid.to_string());
    }
    form.push_opt("description", &issue.description);
    match &issue.assignees {
        Some(users) => push_assignees(&mut form, users),
        None => {},
    }
    match &issue.milestone {
        Some(m) => form.push_string("milestone_id", m.id.to_string()),
        None => {},
    }
    if issue.labels.len() > 0 {
        form.push_string("labels", comma_join(&issue.labels));
    }
    form.push_opt("due_date", &issue.due_date);
    assert(form@ =~= create_issue_form(*issue));
    form_request(Method::Post, project_path_string(project, "/issues"), form)
}

/// The level of a protected branch for an access level: below developers
/// nobody, owners as maintainers.
pub open spec fn protected_access_text(level: AccessLevel) -> Seq<char> {
    match level {
        AccessLevel::Anonymous | AccessLevel::Guest | AccessLevel::Reporter => "0"@,
        AccessLevel::Developer => "30"@,
        AccessLevel::Maintainer | AccessLevel::Owner => "40"@,
        AccessLevel::Admin => "60"@,
    }
}

/// The level of a protected branch for an access level.
fn protected_access_str(level: AccessLevel) -> (r: &'static str)
    ensures
        r@ == protected_access_text(level),
{
    match level {
        AccessLevel::Anonymous | AccessLevel::Guest | AccessLevel::Reporter => "0",
        AccessLevel::Developer => "30",
        AccessLevel::Maintainer | AccessLevel::Owner => "40",
        AccessLevel::Admin => "60",
    }
}

/// How an optional protected branch level is sent.
pub open spec fn opt_protected_access(level: Option<AccessLevel>) -> Option<Seq<char>> {
    match level {
        Some(l) => Some(protected_access_text(l)),
        None => None,
    }
}

/// Adds a protected branch level, when there is one.
fn push_protected_access(params: &mut Params, key: &str, level: Option<AccessLevel>)
    ensures
        final(params)@ == old(params)@ + opt_pair(key@, opt_protected_access(level)),
{
    match level {
        Some(l) => params.push_str(key, protected_access_str(l)),
        None => {},
    }
    assert(params@ =~= old(params)@ + opt_pair(key@, opt_protected_access(level)));
}

/// The form parameters which protect a branch.
pub open spec fn protect_branch_form(branch: Seq<char>, push: Option<AccessLevel>, merge: Option<AccessLevel>, unprotect: Option<AccessLevel>) -> Seq<ParamView> {
    seq![("name"@, branch)] + opt_pair("push_access_level"@, opt_protected_access(push))
        + opt_pair("merge_access_level"@, opt_protected_access(merge)) + opt_pair(
        "unprotect_access_level"@,
        opt_protected_access(unprotect),
    )
}

/// The decimal text of a number of two digits.
proof fn lemma_two_digit_text(n: u64)
    requires
        10 <= n <= 99,
    ensures
        u64_text(n) =~= seq![(48 + n / 10) as char, (48 + n % 10) as char],
{
    reveal_with_fuel(decimal, 2);
    assert(decimal((n / 10) as nat) =~= seq![(48 + n / 10) as u8]);
    assert(decimal(n as nat) =~= seq![(48 + n / 10) as u8, (48 + n % 10) as u8]);
}

/// The level sent for a protected branch is the access level's number in
/// Gitlab (30 for developers, 40 for maintainers, 60 for administrators),
/// owners count as maintainers, and every level below developer is sent
/// as 0, so that nobody at that level has the access.
pub proof fn lemma_protected_access_is_the_level(level: AccessLevel)
    ensures
        level.spec_value() < AccessLevel::Developer.spec_value() ==> protected_access_text(level)
            == u64_text(0),
        level.spec_value() >= AccessLevel::Developer.spec_value() && level != AccessLevel::Owner
            ==> protected_access_text(level) == u64_text(level.spec_value()),
        level == AccessLevel::Owner ==> protected_access_text(level) == u64_text(
            AccessLevel::Maintainer.spec_value(),
        ),
{
    reveal_strlit("0");
    reveal_strlit("30");
    reveal_strlit("40");
    reveal_strlit("60");
    assert(decimal(0) =~= seq![48u8]);
    assert(u64_text(0) =~= seq!['0']);
    lemma_two_digit_text(30);
    lemma_two_digit_text(40);
    lemma_two_digit_text(60);
    assert("30"@ =~= seq!['3', '0']);
    assert("40"@ =~= seq!['4', '0']);
    assert("60"@ =~= seq!['6', '0']);
    assert("0"@ =~= seq!['0']);
}

/// A protected branch sends its name, and each level that is given as its
/// one parameter, with the level's protected value.
pub proof fn lemma_protect_branch_sends_the_levels(
    branch: Seq<char>,
    push: Option<AccessLevel>,
    merge: Option<AccessLevel>,
    unprotect: Option<AccessLevel>,
)
    ensures
        values_of(protect_branch_form(branch, push, merge, unprotect), "name"@) == seq![branch],
        values_of(protect_branch_form(branch, push, merge, unprotect), "push_access_level"@)
            == match push {
            Some(l) => seq![protected_access_text(l)],
            None => Seq::<Seq<char>>::empty(),
        },
        values_of(protect_branch_form(branch, push, merge, unprotect), "merge_access_level"@)
            == match merge {
            Some(l) => seq![protected_access_text(l)],
            None => Seq::<Seq<char>>::empty(),
        },
        values_of(protect_branch_form(branch, push, merge, unprotect), "unprotect_access_level"@)
            == match unprotect {
            Some(l) => seq![protected_access_text(l)],
            None => Seq::<Seq<char>>::empty(),
        },
{
    reveal_strlit("name");
    reveal_strlit("push_access_level");
    reveal_strlit("merge_access_level");
    reveal_strlit("unprotect_access_level");
    assert("name"@.len() == 4 && "push_access_level"@.len() == 17);
    assert("merge_access_level"@.len() == 18 && "unprotect_access_level"@.len() == 22);
    let keys = seq!["name"@, "push_access_level"@, "merge_access_level"@, "unprotect_access_level"@];
    assert forall|i: int| 0 <= i < 4 implies {
        let key = #[trigger] keys[i];
        let a = seq![("name"@, branch)];
        let b = opt_pair("push_access_level"@, opt_protected_access(push));
        let c = opt_pair("merge_access_level"@, opt_protected_access(merge));
        let d = opt_pair("unprotect_access_level"@, opt_protected_access(unprotect));
        values_of(a + b + c + d, key) == values_of(a, key) + values_of(b, key) + values_of(c, key)
            + values_of(d, key)
    } by {
        let key = keys[i];
        let a = seq![("name"@, branch)];
        let b = opt_pair("push_access_level"@, opt_protected_access(push));
        let c = opt_pair("merge_access_level"@, opt_protected_access(merge));
        let d = opt_pair("unprotect_access_level"@, opt_protected_access(unprotect));
        lemma_values_of_concat(a, b, key);
        lemma_values_of_concat(a + b, c, key);
        lemma_values_of_concat(a + b + c, d, key);
    }
    assert forall|i: int| 0 <= i < 4 implies {
        let key = #[trigger] keys[i];
        &&& values_of(seq![("name"@, branch)], key) == if key == "name"@ { seq![branch] } else { Seq::<Seq<char>>::empty() }
        &&& values_of(opt_pair("push_access_level"@, opt_protected_access(push)), key) == match opt_protected_access(push) {
            Some(x) => if key == "push_access_level"@ { seq![x] } else { Seq::<Seq<char>>::empty() },
            None => Seq::<Seq<char>>::empty(),
        }
        &&& values_of(opt_pair("merge_access_level"@, opt_protected_access(merge)), key) == match opt_protected_access(merge) {
            Some(x) => if key == "merge_access_level"@ { seq![x] } else { Seq::<Seq<char>>::empty() },
            None => Seq::<Seq<char>>::empty(),
        }
        &&& values_of(opt_pair("unprotect_access_level"@, opt_protected_access(unprotect)), key) == match opt_protected_access(unprotect) {
            Some(x) => if key == "unprotect_access_level"@ { seq![x] } else { Seq::<Seq<char>>::empty() },
            None => Seq::<Seq<char>>::empty(),
        }
    } by {
        let key = keys[i];
        lemma_values_of_single("name"@, branch, key);
        lemma_values_of_opt_pair("push_access_level"@, opt_protected_access(push), key);
        lemma_values_of_opt_pair("merge_access_level"@, opt_protected_access(merge), key);
        lemma_values_of_opt_pair("unprotect_access_level"@, opt_protected_access(unprotect), key);
    }
    assert(keys[0] == "name"@);
    assert(keys[1] == "push_access_level"@);
    assert(keys[2] == "merge_access_level"@);
    assert(keys[3] == "unprotect_access_level"@);
    let e = Seq::<Seq<char>>::empty();
    assert(seq![branch] + e + e + e =~= seq![branch]);
    assert forall|x: Seq<char>| e + seq![x] + e + e =~= seq![x] && e + e + seq![x] + e =~= seq![x] && e + e + e + seq![x] =~= seq![x] by {}
    assert(e + e + e + e =~= e);
}

/// A commit status can be created in every state but `created`, `skipped`
/// and `manual`, and the status created carries the state of the same name.
pub proof fn lemma_new_status_keeps_the_state(state: StatusState)
    ensures
        new_status_state(state) is None <==> (state == StatusState::Created || state
            == StatusState::Skipped || state == StatusState::Manual),
        new_status_state(state) matches Some(s) ==> s.spec_as_str() == state.spec_as_str(),
{
}

/// The request which protects a branch (or a wildcard) of a project.
#[verifier::spinoff_prover]
pub fn protect_branch(
    project: ProjectId,
    branch: &str,
    push_access_level: Option<AccessLevel>,
    merge_access_level: Option<AccessLevel>,
    unprotect_access_level: Option<AccessLevel>,
) -> (r: ClientRequest)
    ensures
        is_form_request(
            r,
            Method::Post,
            project_path(project, "/protected_branches"@),
            protect_branch_form(branch@, push_access_level, merge_access_level, unprotect_access_level),
        ),
{
    let mut form = Params::new();
    form.push_str("name", branch);
    push_protected_access(&mut form, "push_access_level", push_access_level);
    push_protected_access(&mut form, "merge_access_level", merge_access_level);
    push_protected_access(&mut form, "unprotect_access_level", unprotect_access_level);
    assert(form@ =~= protect_branch_form(
        branch@,
        push_access_level,
        merge_access_level,
        unprotect_access_level,
    ));
    form_request(Method::Post, project_path_string(project, "/protected_branches"), form)
}

/// The request which sets the access level of a feature of a project.
pub fn set_project_feature_access_level(project: ProjectId, feature: &ProjectFeatures) -> (r: ClientRequest)
    ensures
        is_form_request(
            r,
            Method::Put,
            project_path(project, ""@),
            seq![(feature.spec_name(), feature_access_text(feature.spec_access_level()))],
        ),
{
    let mut form = Params::new();
    form.push_str(feature.name(), feature_access_str(*feature.access_level()));
    assert(form@ =~= seq![(feature.spec_name(), feature_access_text(feature.spec_access_level()))]);
    form_request(Method::Put, project_path_string(project, ""), form)
}

/// The request which lists the merge requests of a project in a state.
pub fn merge_requests_with_state(project: ProjectId, state: MergeRequestStateFilter) -> (r: ClientRequest)
    ensures
        r.method == Method::Get,
        r.endpoint@ == project_path(project, "/merge_requests"@),
        r.query@ == seq![("state"@, state.spec_as_str())],
        r.form is None,
{
    let mut query = Params::new();
    query.push_str("state", state.as_str());
    ClientRequest {
        method: Method::Get,
        endpoint: project_path_string(project, "/merge_requests"),
        query,
        form: None,
    }
}

/// The form parameters of a new hook.
pub open spec fn add_hook_form(url: Seq<char>, enable_ssl_verification: Option<bool>, token: Option<Seq<char>>, events: WebhookEvents) -> Seq<ParamView> {
    seq![
        ("url"@, url),
        ("job_events"@, crate::params::bool_text(events@.job)),
        ("issues_events"@, crate::params::bool_text(events@.issues)),
        ("confidential_issues_events"@, crate::params::bool_text(events@.confidential_issues)),
        ("merge_requests_events"@, crate::params::bool_text(events@.merge_requests)),
        ("note_events"@, crate::params::bool_text(events@.note)),
        ("pipeline_events"@, crate::params::bool_text(events@.pipeline)),
        ("push_events"@, crate::params::bool_text(events@.push)),
        ("wiki_page_events"@, crate::params::bool_text(events@.wiki_page)),
    ] + opt_pair("enable_ssl_verification"@, opt_value(enable_ssl_verification)) + opt_pair(
        "token"@,
        token,
    )
}

/// The request which adds a hook to a project.
#[verifier::spinoff_prover]
pub fn add_hook(
    project: ProjectId,
    url: &str,
    enable_ssl_verification: Option<bool>,
    token: Option<&str>,
    events: WebhookEvents,
) -> (r: ClientRequest)
    ensures
        is_form_request(
            r,
            Method::Post,
            project_path(project, "/hooks"@),
            add_hook_form(url@, enable_ssl_verification, opt_str(token), events),
        ),
{
    let mut form = Params::new();
    form.push_str("url", url);
    form.push("job_events", &events.job());
    form.push("issues_events", &events.issues());
    form.push("confidential_issues_events", &events.confidential_issues());
    form.push("merge_requests_events", &events.merge_requests());
    form.push("note_events", &events.note());
    form.push("pipeline_events", &events.pipeline());
    form.push("push_events", &events.push());
    form.push("wiki_page_events", &events.wiki_page());
    form.push_opt("enable_ssl_verification", &enable_ssl_verification);
    match token {
        Some(t) => form.push_str("token", t),
        None => {},
    }
    assert(form@ =~= add_hook_form(url@, enable_ssl_verification, opt_str(token), events));
    form_request(Method::Post, project_path_string(project, "/hooks"), form)
}

/// The request which adds a user to a project with an access level.
pub fn add_user_to_project(project: ProjectId, user: UserId, access: AccessLevel) -> (r: ClientRequest)
    ensures
        is_form_request(
            r,
            Method::Post,
            project_path(project, "/members"@),
            seq![("user_id"@, u64_text(user@)), ("access_level"@, u64_text(access.spec_value()))],
        ),
{
    let mut form = Params::new();
    form.push_string("user_id", user.to_string());
    form.push_string("access_level", access.to_string());
    assert(form@ =~= seq![("user_id"@, u64_text(user@)), ("access_level"@, u64_text(access.spec_value()))]);
    form_request(Method::Post, project_path_string(project, "/members"), form)
}

/// The state which a new commit status may be created in: only pending,
/// running, successful, failed and canceled statuses can be created.
pub open spec fn new_status_state(state: StatusState) -> Option<CommitStatusState> {
    match state {
        StatusState::Pending => Some(CommitStatusState::Pending),
        StatusState::Running => Some(CommitStatusState::Running),
        StatusState::Success => Some(CommitStatusState::Success),
        StatusState::Failed => Some(CommitStatusState::Failed),
        StatusState::Canceled => Some(CommitStatusState::Canceled),
        _ => None,
    }
}

/// The characters of an optional borrowed string, as an owned string.
fn opt_owned(s: Option<&str>) -> (r: Option<String>)
    ensures
        match s {
            Some(v) => r matches Some(o) && o@ == v@,
            None => r is None,
        },
{
    match s {
        Some(v) => Some(v.to_owned()),
        None => None,
    }
}

/// Whether `r` is the endpoint which creates a status with the given state
/// and information for a commit, or, for a state that statuses cannot be
/// created in, that state as the error.
pub open spec fn is_new_commit_status(
    r: Result<CreateCommitStatus, StatusState>,
    sha: Seq<char>,
    state: StatusState,
    info: CommitStatusInfo,
) -> bool {
    match new_status_state(state) {
        None => r == Err::<CreateCommitStatus, StatusState>(state),
        Some(s) => r matches Ok(e) && e.commit@ == sha && e.state == s && opt_str(info.refname)
            == crate::params::opt_text(e.ref_) && opt_str(info.name) == crate::params::opt_text(
            e.name,
        ) && opt_str(info.target_url) == crate::params::opt_text(e.target_url) && opt_str(
            info.description,
        ) == crate::params::opt_text(e.description) && e.coverage is None && e.pipeline_id is None,
    }
}

/// The endpoint which creates a status for a commit; the state is given
/// back as the error when a status cannot be created in it.
pub fn create_commit_status(project: ProjectId, sha: &str, state: StatusState, info: &CommitStatusInfo) -> (r: Result<CreateCommitStatus, StatusState>)
    ensures
        is_new_commit_status(r, sha@, state, *info),
        r matches Ok(e) ==> e.project == NameOrId::Id(project@),
{
    new_commit_status(NameOrId::Id(project.value()), sha, state, info)
}

/// The endpoint which creates a status for a commit of a project given by
/// name; the state is given back as the error when a status cannot be
/// created in it.
pub fn create_commit_status_by_name(project: &str, sha: &str, state: StatusState, info: &CommitStatusInfo) -> (r: Result<CreateCommitStatus, StatusState>)
    ensures
        is_new_commit_status(r, sha@, state, *info),
        r matches Ok(e) ==> e.project matches NameOrId::Name(n) && n@ == project@,
{
    new_commit_status(NameOrId::Name(project.to_owned()), sha, state, info)
}

/// The endpoint which creates a status for a commit.
fn new_commit_status(project: NameOrId, sha: &str, state: StatusState, info: &CommitStatusInfo) -> (r: Result<CreateCommitStatus, StatusState>)
    ensures
        match new_status_state(state) {
            None => r == Err::<CreateCommitStatus, StatusState>(state),
            Some(s) => r matches Ok(e) && e.project == project && e.commit@ == sha@
                && e.state == s && opt_str(info.refname) == crate::params::opt_text(e.ref_)
                && opt_str(info.name) == crate::params::opt_text(e.name) && opt_str(info.target_url)
                == crate::params::opt_text(e.target_url) && opt_str(info.description)
                == crate::params::opt_text(e.description) && e.coverage is None
                && e.pipeline_id is None,
        },
{
    let s = match state {
        StatusState::Pending => CommitStatusState::Pending,
        StatusState::Running => CommitStatusState::Running,
        StatusState::Success => CommitStatusState::Success,
        StatusState::Failed => CommitStatusState::Failed,
        StatusState::Canceled => CommitStatusState::Canceled,
        _ => return Err(state),
    };
    Ok(
        CreateCommitStatus {
            project,
            commit: sha.to_owned(),
            state: s,
            name: opt_owned(info.name),
            ref_: opt_owned(info.refname),
            target_url: opt_owned(info.target_url),
            description: opt_owned(info.description),
            coverage: None,
            pipeline_id: None,
        },
    )
}

/// What to do after fetching a page of a listing with `per_page` items per
/// page: a full page means that another page may follow.
pub open spec fn spec_next_page(page: u64, page_len: usize, per_page: usize) -> Option<u64> {
    if page_len == per_page {
        Some((page + 1) as u64)
    } else {
        None
    }
}

/// The number of the page to fetch after `page`, if any.
pub fn next_page(page: u64, page_len: usize, per_page: usize) -> (r: Option<u64>)
    requires
        page < u64::MAX,
    ensures
        r == spec_next_page(page, page_len, per_page),
{
    if page_len == per_page {
        Some(page + 1)
    } else {
        None
    }
}

/// How a name appears as one segment of a request path.
pub open spec fn name_segment(name: Seq<char>) -> Seq<char> {
    ascii_chars(crate::text::path_escape(vstd::utf8::encode_utf8(name)))
}

/// The path of a project given by name, or of something below it.
pub open spec fn named_project_path(name: Seq<char>, rest: Seq<char>) -> Seq<char> {
    "projects/"@ + name_segment(name) + rest
}

/// The path of a project given by name, or of something below it.
fn named_project_path_string(name: &str, rest: &str) -> (r: String)
    ensures
        r@ == named_project_path(name@, rest@),
{
    let mut r = "projects/".to_owned();
    r.append(crate::text::path_escaped(name).as_str());
    r.append(rest);
    r
}

/// `path`, followed by an ID in decimal and by `tail`.
fn append_id(path: String, id: u64, tail: &str) -> (r: String)
    ensures
        r@ == path@ + u64_text(id) + tail@,
{
    let mut r = path;
    r.append(decimal_string(id).as_str());
    r.append(tail);
    r
}

/// Whether `r` is a `GET` request with the query parameters `query`.
pub open spec fn is_get_request(r: ClientRequest, endpoint: Seq<char>, query: Seq<ParamView>) -> bool {
    &&& r.method == Method::Get
    &&& r.endpoint@ == endpoint
    &&& r.query@ == query
    &&& r.form is None
}

/// Whether `r` is a request with neither parameters nor a body.
pub open spec fn is_bare_request(r: ClientRequest, method: Method, endpoint: Seq<char>) -> bool {
    &&& r.method == method
    &&& r.endpoint@ == endpoint
    &&& r.query@ == Seq::<ParamView>::empty()
    &&& r.form is None
}

/// A `GET` request of `endpoint` with the query parameters `params`.
pub fn get_request(endpoint: String, params: &Params) -> (r: ClientRequest)
    ensures
        is_get_request(r, endpoint@, params@),
{
    ClientRequest { method: Method::Get, endpoint, query: params.duplicate(), form: None }
}

/// A request with neither parameters nor a body.
fn bare_request(method: Method, endpoint: String) -> (r: ClientRequest)
    ensures
        is_bare_request(r, method, endpoint@),
{
    ClientRequest { method, endpoint, query: Params::new(), form: None }
}

/// The parameters which select one page of a listing.
pub open spec fn page_params(page: u64, per_page: u64) -> Seq<ParamView> {
    seq![("page"@, u64_text(page)), ("per_page"@, u64_text(per_page))]
}

/// The request for page `page` of a listing, with `per_page` items on each
/// page: the page parameters follow the request's own.
pub fn page_request(request: &ClientRequest, page: u64, per_page: u64) -> (r: ClientRequest)
    ensures
        r.method == request.method,
        r.endpoint@ == request.endpoint@,
        r.query@ == request.query@ + page_params(page, per_page),
        match request.form {
            Some(f) => r.form matches Some(g) && g@ == f@,
            None => r.form is None,
        },
{
    let mut query = request.query.duplicate();
    query.push_string("page", decimal_string(page));
    query.push_string("per_page", decimal_string(per_page));
    assert(query@ =~= request.query@ + page_params(page, per_page));
    let form = match &request.form {
        Some(f) => Some(f.duplicate()),
        None => None,
    };
    ClientRequest { method: request.method, endpoint: request.endpoint.as_str().to_owned(), query, form }
}

/// The request which lists user accounts.
pub fn users(params: &Params) -> (r: ClientRequest)
    ensures
        is_get_request(r, "users"@, params@),
{
    get_request("users".to_owned(), params)
}

/// The request which lists the accessible projects.
pub fn projects(params: &Params) -> (r: ClientRequest)
    ensures
        is_get_request(r, "projects"@, params@),
{
    get_request("projects".to_owned(), params)
}

/// The request which lists the projects owned by the user.
pub fn owned_projects() -> (r: ClientRequest)
    ensures
        is_get_request(r, "projects"@, seq![("owned"@, "true"@)]),
{
    let mut query = Params::new();
    query.push_str("owned", "true");
    ClientRequest { method: Method::Get, endpoint: "projects".to_owned(), query, form: None }
}

/// The request which finds a project by ID.
pub fn project(id: ProjectId, params: &Params) -> (r: ClientRequest)
    ensures
        is_get_request(r, project_path(id, ""@), params@),
{
    get_request(project_path_string(id, ""), params)
}

/// The request which finds a project by name.
pub fn project_by_name(name: &str, params: &Params) -> (r: ClientRequest)
    ensures
        is_get_request(r, named_project_path(name@, ""@), params@),
{
    get_request(named_project_path_string(name, ""), params)
}

/// The request which lists the environments of a project.
pub fn environments(project: ProjectId, params: &Params) -> (r: ClientRequest)
    ensures
        is_get_request(r, project_path(project, "/environments"@), params@),
{
    get_request(project_path_string(project, "/environments"), params)
}

/// The request which finds an environment of a project.
pub fn environment(project: ProjectId, env: EnvironmentId, params: &Params) -> (r: ClientRequest)
    ensures
        is_get_request(r, project_path(project, "/environments/"@) + u64_text(env@) + ""@, params@),
{
    get_request(append_id(project_path_string(project, "/environments/"), env.value(), ""), params)
}

/// The request which lists the accessible groups.
pub fn groups(params: &Params) -> (r: ClientRequest)
    ensures
        is_get_request(r, "groups"@, params@),
{
    get_request("groups".to_owned(), params)
}

/// The request which finds a group by name.
pub fn group_by_name(name: &str) -> (r: ClientRequest)
    ensures
        is_bare_request(r, Method::Get, "groups/"@ + name_segment(name@)),
{
    let mut path = "groups/".to_owned();
    path.append(crate::text::path_escaped(name).as_str());
    bare_request(Method::Get, path)
}

/// The request which lists the hooks of a project.
pub fn hooks(project: ProjectId, params: &Params) -> (r: ClientRequest)
    ensures
        is_get_request(r, project_path(project, "/hooks"@), params@),
{
    get_request(project_path_string(project, "/hooks"), params)
}

/// The request which finds a hook of a project.
pub fn hook(project: ProjectId, id: HookId) -> (r: ClientRequest)
    ensures
        is_bare_request(r, Method::Get, project_path(project, "/hooks/"@) + u64_text(id@) + ""@),
{
    bare_request(Method::Get, append_id(project_path_string(project, "/hooks/"), id.value(), ""))
}

/// The request which lists the members of a group.
pub fn group_members(group: GroupId, params: &Params) -> (r: ClientRequest)
    ensures
        is_get_request(r, "groups/"@ + u64_text(group@) + "/members"@, params@),
{
    get_request(append_id("groups/".to_owned(), group.value(), "/members"), params)
}

/// The request which finds a member of a group.
pub fn group_member(group: GroupId, user: UserId) -> (r: ClientRequest)
    ensures
        is_bare_request(
            r,
            Method::Get,
            "groups/"@ + u64_text(group@) + "/members/"@ + u64_text(user@) + ""@,
        ),
{
    bare_request(
        Method::Get,
        append_id(append_id("groups/".to_owned(), group.value(), "/members/"), user.value(), ""),
    )
}

/// The request which lists the members of a project.
pub fn project_members(project: ProjectId, params: &Params) -> (r: ClientRequest)
    ensures
        is_get_request(r, project_path(project, "/members"@), params@),
{
    get_request(project_path_string(project, "/members"), params)
}

/// The request which finds a member of a project.
pub fn project_member(project: ProjectId, user: UserId) -> (r: ClientRequest)
    ensures
        is_bare_request(r, Method::Get, project_path(project, "/members/"@) + u64_text(user@) + ""@),
{
    bare_request(Method::Get, append_id(project_path_string(project, "/members/"), user.value(), ""))
}

/// The request which lists the branches of a project.
pub fn branches(project: ProjectId, params: &Params) -> (r: ClientRequest)
    ensures
        is_get_request(r, project_path(project, "/repository/branches"@), params@),
{
    get_request(project_path_string(project, "/repository/branches"), params)
}

/// The request which finds a branch of a project.
pub fn branch(project: ProjectId, name: &str) -> (r: ClientRequest)
    ensures
        is_bare_request(
            r,
            Method::Get,
            project_path(project, "/repository/branches/"@) + name_segment(name@),
        ),
{
    let mut path = project_path_string(project, "/repository/branches/");
    path.append(crate::text::path_escaped(name).as_str());
    bare_request(Method::Get, path)
}

/// The request which removes the protection of a branch.
pub fn unprotect_branch(project: ProjectId, branch: &str) -> (r: ClientRequest)
    ensures
        is_bare_request(
            r,
            Method::Delete,
            project_path(project, "/protected_branches/"@) + name_segment(branch@),
        ),
{
    let mut path = project_path_string(project, "/protected_branches/");
    path.append(crate::text::path_escaped(branch).as_str());
    bare_request(Method::Delete, path)
}

/// The endpoint which gets a commit of a project, with its statistics.
pub fn commit(project: ProjectId, sha: &str) -> (r: Commit)
    ensures
        r.project == NameOrId::Id(project@),
        r.commit@ == sha@,
        r.stats == Some(true),
{
    Commit { project: NameOrId::Id(project.value()), commit: sha.to_owned(), stats: Some(true) }
}

/// The endpoint which lists the comments on a commit.
pub fn commit_comments(project: ProjectId, commit: &str) -> (r: CommitComments)
    ensures
        r.project == NameOrId::Id(project@),
        r.commit@ == commit@,
{
    CommitComments { project: NameOrId::Id(project.value()), commit: commit.to_owned() }
}

/// A comment on a whole commit.
fn commit_comment(project: NameOrId, commit: &str, body: &str) -> (r: CommentOnCommit)
    ensures
        r.project == project,
        r.commit@ == commit@,
        r.note@ == body@,
        r.path is None,
        r.line is None,
        r.line_type is None,
{
    CommentOnCommit {
        project,
        commit: commit.to_owned(),
        note: body.to_owned(),
        path: None,
        line: None,
        line_type: None,
    }
}

/// The endpoint which comments on a commit.
pub fn create_commit_comment(project: ProjectId, commit: &str, body: &str) -> (r: CommentOnCommit)
    ensures
        r.project == NameOrId::Id(project@),
        r.commit@ == commit@,
        r.note@ == body@,
        r.path is None,
        r.line is None,
        r.line_type is None,
{
    commit_comment(NameOrId::Id(project.value()), commit, body)
}

/// The endpoint which comments on a commit of a project given by name.
pub fn create_commit_comment_by_name(project: &str, commit: &str, body: &str) -> (r: CommentOnCommit)
    ensures
        r.project matches NameOrId::Name(n) && n@ == project@,
        r.commit@ == commit@,
        r.note@ == body@,
        r.path is None,
        r.line is None,
        r.line_type is None,
{
    commit_comment(NameOrId::Name(project.to_owned()), commit, body)
}

/// The endpoint which comments on a line of a file, as it is after a commit.
pub fn create_commit_line_comment(project: ProjectId, commit: &str, body: &str, path: &str, line: u64) -> (r: CommentOnCommit)
    ensures
        r.project == NameOrId::Id(project@),
        r.commit@ == commit@,
        r.note@ == body@,
        r.path matches Some(p) && p@ == path@,
        r.line == Some(line),
        r.line_type == Some(LineType::New),
{
    CommentOnCommit {
        project: NameOrId::Id(project.value()),
        commit: commit.to_owned(),
        note: body.to_owned(),
        path: Some(path.to_owned()),
        line: Some(line),
        line_type: Some(LineType::New),
    }
}

/// The request which lists the latest statuses of a commit; the commit is
/// put into the path as it is given.
pub fn commit_latest_statuses(project: ProjectId, commit: &str, params: &Params) -> (r: ClientRequest)
    ensures
        is_get_request(
            r,
            project_path(project, "/repository/commits/"@) + commit@ + "/statuses"@,
            params@,
        ),
{
    let mut path = project_path_string(project, "/repository/commits/");
    path.append(commit);
    path.append("/statuses");
    get_request(path, params)
}

/// The request which lists the latest statuses of a commit of a project
/// given by name.
pub fn commit_latest_statuses_by_name(project: &str, commit: &str, params: &Params) -> (r: ClientRequest)
    ensures
        is_get_request(
            r,
            named_project_path(project@, "/repository/commits/"@) + commit@ + "/statuses"@,
            params@,
        ),
{
    let mut path = named_project_path_string(project, "/repository/commits/");
    path.append(commit);
    path.append("/statuses");
    get_request(path, params)
}

/// The endpoint which lists all statuses of a commit, not only the latest.
pub fn commit_all_statuses(project: ProjectId, commit: &str) -> (r: CommitStatuses)
    ensures
        r.project == NameOrId::Id(project@),
        r.commit@ == commit@,
        r.ref_ is None,
        r.stage is None,
        r.name is None,
        r.all == Some(true),
{
    CommitStatuses {
        project: NameOrId::Id(project.value()),
        commit: commit.to_owned(),
        ref_: None,
        stage: None,
        name: None,
        all: Some(true),
    }
}

/// The path listing the jobs of a commit.
fn commit_builds_path(project: ProjectId, commit: &str) -> (r: String)
    ensures
        r@ == project_path(project, "/repository/commits/"@) + commit@ + "/builds"@,
{
    let mut path = project_path_string(project, "/repository/commits/");
    path.append(commit);
    path.append("/builds");
    path
}

/// The request which lists the latest jobs of a commit.
pub fn commit_latest_builds(project: ProjectId, commit: &str, params: &Params) -> (r: ClientRequest)
    ensures
        is_get_request(
            r,
            project_path(project, "/repository/commits/"@) + commit@ + "/builds"@,
            params@,
        ),
{
    get_request(commit_builds_path(project, commit), params)
}

/// The request which lists all jobs of a commit.
pub fn commit_all_builds(project: ProjectId, commit: &str) -> (r: ClientRequest)
    ensures
        is_get_request(
            r,
            project_path(project, "/repository/commits/"@) + commit@ + "/builds"@,
            seq![("all"@, "true"@)],
        ),
{
    let mut query = Params::new();
    query.push_str("all", "true");
    ClientRequest { method: Method::Get, endpoint: commit_builds_path(project, commit), query, form: None }
}

/// The request which lists the labels of a project.
pub fn labels(project: ProjectId) -> (r: ClientRequest)
    ensures
        is_bare_request(r, Method::Get, project_path(project, "/labels"@)),
{
    bare_request(Method::Get, project_path_string(project, "/labels"))
}

/// The request which lists the labels of a project with their counts.
pub fn labels_with_counts(project: ProjectId) -> (r: ClientRequest)
    ensures
        is_get_request(r, project_path(project, "/labels"@), seq![("with_counts"@, "true"@)]),
{
    let mut query = Params::new();
    query.push_str("with_counts", "true");
    ClientRequest {
        method: Method::Get,
        endpoint: project_path_string(project, "/labels"),
        query,
        form: None,
    }
}

/// The request which finds a label of a project.
pub fn label(project: ProjectId, id: LabelId) -> (r: ClientRequest)
    ensures
        is_bare_request(r, Method::Get, project_path(project, "/labels/"@) + u64_text(id@) + ""@),
{
    bare_request(Method::Get, append_id(project_path_string(project, "/labels/"), id.value(), ""))
}

/// The request which lists the issues of a project.
pub fn issues(project: ProjectId, params: &Params) -> (r: ClientRequest)
    ensures
        is_get_request(r, project_path(project, "/issues"@), params@),
{
    get_request(project_path_string(project, "/issues"), params)
}

/// The request which finds an issue of a project.
pub fn issue(project: ProjectId, id: IssueInternalId) -> (r: ClientRequest)
    ensures
        is_bare_request(r, Method::Get, project_path(project, "/issues/"@) + u64_text(id@) + ""@),
{
    bare_request(Method::Get, append_id(project_path_string(project, "/issues/"), id.value(), ""))
}

/// The request which lists the notes on an issue.
pub fn issue_notes(project: ProjectId, issue: IssueInternalId, params: &Params) -> (r: ClientRequest)
    ensures
        is_get_request(r, project_path(project, "/issues/"@) + u64_text(issue@) + "/notes"@, params@),
{
    get_request(append_id(project_path_string(project, "/issues/"), issue.value(), "/notes"), params)
}

/// The request which lists the notes on an issue of a project given by name.
pub fn issue_notes_by_name(project: &str, issue: IssueInternalId, params: &Params) -> (r: ClientRequest)
    ensures
        is_get_request(
            r,
            named_project_path(project@, "/issues/"@) + u64_text(issue@) + "/notes"@,
            params@,
        ),
{
    get_request(append_id(named_project_path_string(project, "/issues/"), issue.value(), "/notes"), params)
}

/// The request which lists the label events of an issue.
pub fn issue_label_events(project: ProjectId, issue: IssueInternalId) -> (r: ClientRequest)
    ensures
        is_bare_request(
            r,
            Method::Get,
            project_path(project, "/issues/"@) + u64_text(issue@) + "/resource_label_events"@,
        ),
{
    bare_request(
        Method::Get,
        append_id(project_path_string(project, "/issues/"), issue.value(), "/resource_label_events"),
    )
}

/// A request whose form holds only the text of a note.
fn note_request(method: Method, endpoint: String, content: &str) -> (r: ClientRequest)
    ensures
        is_form_request(r, method, endpoint@, seq![("body"@, content@)]),
{
    let mut form = Params::new();
    form.push_str("body", content);
    assert(form@ =~= seq![("body"@, content@)]);
    form_request(method, endpoint, form)
}

/// The request which adds a note to an issue.
pub fn create_issue_note(project: ProjectId, issue: IssueInternalId, content: &str) -> (r: ClientRequest)
    ensures
        is_form_request(
            r,
            Method::Post,
            project_path(project, "/issues/"@) + u64_text(issue@) + "/notes"@,
            seq![("body"@, content@)],
        ),
{
    note_request(Method::Post, append_id(project_path_string(project, "/issues/"), issue.value(), "/notes"), content)
}

/// The request which adds a note to an issue of a project given by name.
pub fn create_issue_note_by_name(project: &str, issue: IssueInternalId, content: &str) -> (r: ClientRequest)
    ensures
        is_form_request(
            r,
            Method::Post,
            named_project_path(project@, "/issues/"@) + u64_text(issue@) + "/notes"@,
            seq![("body"@, content@)],
        ),
{
    note_request(
        Method::Post,
        append_id(named_project_path_string(project, "/issues/"), issue.value(), "/notes"),
        content,
    )
}

/// The request which replaces the text of a note on an issue.
pub fn set_issue_note(project: ProjectId, issue: IssueInternalId, note: NoteId, content: &str) -> (r: ClientRequest)
    ensures
        is_form_request(
            r,
            Method::Put,
            project_path(project, "/issues/"@) + u64_text(issue@) + "/notes/"@ + u64_text(note@) + ""@,
            seq![("body"@, content@)],
        ),
{
    let path = append_id(append_id(project_path_string(project, "/issues/"), issue.value(), "/notes/"), note.value(), "");
    note_request(Method::Put, path, content)
}

/// The path of a merge request below the path of its project, followed by
/// `tail`.
pub open spec fn merge_request_path(project: Seq<char>, mr: MergeRequestInternalId, tail: Seq<char>) -> Seq<char> {
    project + "/merge_requests/"@ + u64_text(mr@) + tail
}

/// The path of a merge request below the path of its project, followed by
/// `tail`.
fn merge_request_path_string(project: String, mr: MergeRequestInternalId, tail: &str) -> (r: String)
    ensures
        r@ == merge_request_path(project@, mr, tail@),
{
    let mut r = project;
    r.append("/merge_requests/");
    append_id(r, mr.value(), tail)
}

/// The path of a note on a merge request below the path of its project,
/// followed by `tail`.
pub open spec fn merge_request_note_path(project: Seq<char>, mr: MergeRequestInternalId, note: NoteId, tail: Seq<char>) -> Seq<char> {
    merge_request_path(project, mr, "/notes/"@) + u64_text(note@) + tail
}

/// The path of a note on a merge request below the path of its project,
/// followed by `tail`.
fn merge_request_note_path_string(project: String, mr: MergeRequestInternalId, note: NoteId, tail: &str) -> (r: String)
    ensures
        r@ == merge_request_note_path(project@, mr, note, tail@),
{
    append_id(merge_request_path_string(project, mr, "/notes/"), note.value(), tail)
}

/// The request which lists the merge requests of a project.
pub fn merge_requests(project: ProjectId, params: &Params) -> (r: ClientRequest)
    ensures
        is_get_request(r, project_path(project, "/merge_requests"@), params@),
{
    get_request(project_path_string(project, "/merge_requests"), params)
}

/// The request which finds a merge request of a project.
pub fn merge_request(project: ProjectId, mr: MergeRequestInternalId, params: &Params) -> (r: ClientRequest)
    ensures
        is_get_request(r, merge_request_path(project_path(project, ""@), mr, ""@), params@),
{
    get_request(merge_request_path_string(project_path_string(project, ""), mr, ""), params)
}

/// The request which lists the issues that a merge request closes.
pub fn merge_request_closes_issues(project: ProjectId, mr: MergeRequestInternalId) -> (r: ClientRequest)
    ensures
        is_bare_request(r, Method::Get, merge_request_path(project_path(project, ""@), mr, "/closes_issues"@)),
{
    bare_request(Method::Get, merge_request_path_string(project_path_string(project, ""), mr, "/closes_issues"))
}

/// The request which lists the issues that a merge request closes.
pub fn get_issues_closed_by_merge_request(project: ProjectId, mr: MergeRequestInternalId) -> (r: ClientRequest)
    ensures
        is_bare_request(r, Method::Get, merge_request_path(project_path(project, ""@), mr, "/closes_issues"@)),
{
    merge_request_closes_issues(project, mr)
}

/// The request which lists the issues that a merge request of a project
/// given by name closes.
pub fn get_issues_closed_by_merge_request_by_name(project: &str, mr: MergeRequestInternalId) -> (r: ClientRequest)
    ensures
        is_bare_request(
            r,
            Method::Get,
            merge_request_path(named_project_path(project@, ""@), mr, "/closes_issues"@),
        ),
{
    bare_request(Method::Get, merge_request_path_string(named_project_path_string(project, ""), mr, "/closes_issues"))
}

/// The request which lists the discussions on a merge request.
pub fn merge_request_discussions(project: ProjectId, mr: MergeRequestInternalId) -> (r: ClientRequest)
    ensures
        is_bare_request(r, Method::Get, merge_request_path(project_path(project, ""@), mr, "/discussions"@)),
{
    bare_request(Method::Get, merge_request_path_string(project_path_string(project, ""), mr, "/discussions"))
}

/// The request which lists the notes on a merge request.
pub fn merge_request_notes(project: ProjectId, mr: MergeRequestInternalId, params: &Params) -> (r: ClientRequest)
    ensures
        is_get_request(r, merge_request_path(project_path(project, ""@), mr, "/notes"@), params@),
{
    get_request(merge_request_path_string(project_path_string(project, ""), mr, "/notes"), params)
}

/// The request which lists the notes on a merge request of a project given
/// by name.
pub fn merge_request_notes_by_name(project: &str, mr: MergeRequestInternalId, params: &Params) -> (r: ClientRequest)
    ensures
        is_get_request(r, merge_request_path(named_project_path(project@, ""@), mr, "/notes"@), params@),
{
    get_request(merge_request_path_string(named_project_path_string(project, ""), mr, "/notes"), params)
}

/// The request which awards an emoji to a note on a merge request.
pub fn award_merge_request_note(project: ProjectId, mr: MergeRequestInternalId, note: NoteId, award: &str) -> (r: ClientRequest)
    ensures
        is_form_request(
            r,
            Method::Post,
            merge_request_note_path(project_path(project, ""@), mr, note, "/award_emoji"@),
            seq![("name"@, award@)],
        ),
{
    let mut form = Params::new();
    form.push_str("name", award);
    assert(form@ =~= seq![("name"@, award@)]);
    form_request(
        Method::Post,
        merge_request_note_path_string(project_path_string(project, ""), mr, note, "/award_emoji"),
        form,
    )
}

/// The request which awards an emoji to a note on a merge request of a
/// project given by name.
pub fn award_merge_request_note_by_name(project: &str, mr: MergeRequestInternalId, note: NoteId, award: &str) -> (r: ClientRequest)
    ensures
        is_form_request(
            r,
            Method::Post,
            merge_request_note_path(named_project_path(project@, ""@), mr, note, "/award_emoji"@),
            seq![("name"@, award@)],
        ),
{
    let mut form = Params::new();
    form.push_str("name", award);
    assert(form@ =~= seq![("name"@, award@)]);
    form_request(
        Method::Post,
        merge_request_note_path_string(named_project_path_string(project, ""), mr, note, "/award_emoji"),
        form,
    )
}

/// The request which lists the emoji awarded to a merge request.
pub fn merge_request_awards(project: ProjectId, mr: MergeRequestInternalId) -> (r: ClientRequest)
    ensures
        is_bare_request(r, Method::Get, merge_request_path(project_path(project, ""@), mr, "/award_emoji"@)),
{
    bare_request(Method::Get, merge_request_path_string(project_path_string(project, ""), mr, "/award_emoji"))
}

/// The request which lists the emoji awarded to a merge request of a project
/// given by name.
pub fn merge_request_awards_by_name(project: &str, mr: MergeRequestInternalId) -> (r: ClientRequest)
    ensures
        is_bare_request(
            r,
            Method::Get,
            merge_request_path(named_project_path(project@, ""@), mr, "/award_emoji"@),
        ),
{
    bare_request(Method::Get, merge_request_path_string(named_project_path_string(project, ""), mr, "/award_emoji"))
}

/// The request which lists the emoji awarded to a note on a merge request.
pub fn merge_request_note_awards(project: ProjectId, mr: MergeRequestInternalId, note: NoteId) -> (r: ClientRequest)
    ensures
        is_bare_request(
            r,
            Method::Get,
            merge_request_note_path(project_path(project, ""@), mr, note, "/award_emoji"@),
        ),
{
    bare_request(
        Method::Get,
        merge_request_note_path_string(project_path_string(project, ""), mr, note, "/award_emoji"),
    )
}

/// The request which lists the emoji awarded to a note on a merge request of
/// a project given by name.
pub fn merge_request_note_awards_by_name(project: &str, mr: MergeRequestInternalId, note: NoteId) -> (r: ClientRequest)
    ensures
        is_bare_request(
            r,
            Method::Get,
            merge_request_note_path(named_project_path(project@, ""@), mr, note, "/award_emoji"@),
        ),
{
    bare_request(
        Method::Get,
        merge_request_note_path_string(named_project_path_string(project, ""), mr, note, "/award_emoji"),
    )
}

/// The request which lists the label events of a merge request.
pub fn merge_request_label_events(project: ProjectId, mr: MergeRequestInternalId) -> (r: ClientRequest)
    ensures
        is_bare_request(
            r,
            Method::Get,
            merge_request_path(project_path(project, ""@), mr, "/resource_label_events"@),
        ),
{
    bare_request(
        Method::Get,
        merge_request_path_string(project_path_string(project, ""), mr, "/resource_label_events"),
    )
}

/// The request which starts a discussion on a merge request.
pub fn create_merge_request_discussion(project: ProjectId, mr: MergeRequestInternalId, content: &str) -> (r: ClientRequest)
    ensures
        is_form_request(
            r,
            Method::Post,
            merge_request_path(project_path(project, ""@), mr, "/discussions"@),
            seq![("body"@, content@)],
        ),
{
    note_request(
        Method::Post,
        merge_request_path_string(project_path_string(project, ""), mr, "/discussions"),
        content,
    )
}

/// The request which adds a note to a merge request.
pub fn create_merge_request_note(project: ProjectId, mr: MergeRequestInternalId, content: &str) -> (r: ClientRequest)
    ensures
        is_form_request(
            r,
            Method::Post,
            merge_request_path(project_path(project, ""@), mr, "/notes"@),
            seq![("body"@, content@)],
        ),
{
    note_request(Method::Post, merge_request_path_string(project_path_string(project, ""), mr, "/notes"), content)
}

/// The request which adds a note to a merge request of a project given by
/// name.
pub fn create_merge_request_note_by_name(project: &str, mr: MergeRequestInternalId, content: &str) -> (r: ClientRequest)
    ensures
        is_form_request(
            r,
            Method::Post,
            merge_request_path(named_project_path(project@, ""@), mr, "/notes"@),
            seq![("body"@, content@)],
        ),
{
    note_request(
        Method::Post,
        merge_request_path_string(named_project_path_string(project, ""), mr, "/notes"),
        content,
    )
}

/// The request which replaces the text of a note on a merge request.
pub fn set_merge_request_note(project: ProjectId, mr: MergeRequestInternalId, note: NoteId, content: &str) -> (r: ClientRequest)
    ensures
        is_form_request(
            r,
            Method::Put,
            merge_request_note_path(project_path(project, ""@), mr, note, ""@),
            seq![("body"@, content@)],
        ),
{
    note_request(
        Method::Put,
        merge_request_note_path_string(project_path_string(project, ""), mr, note, ""),
        content,
    )
}

/// The request which replaces the text of a note on a merge request.
pub fn modify_merge_request_note(project: ProjectId, mr: MergeRequestInternalId, note: NoteId, content: &str) -> (r: ClientRequest)
    ensures
        is_form_request(
            r,
            Method::Put,
            merge_request_note_path(project_path(project, ""@), mr, note, ""@),
            seq![("body"@, content@)],
        ),
{
    set_merge_request_note(project, mr, note, content)
}

/// A request whose form holds only the labels, separated by commas.
fn labels_request(endpoint: String, labels: &Vec<String>) -> (r: ClientRequest)
    ensures
        is_form_request(r, Method::Put, endpoint@, seq![("labels"@, comma_joined(labels@))]),
{
    let mut form = Params::new();
    form.push_string("labels", comma_join(labels));
    assert(form@ =~= seq![("labels"@, comma_joined(labels@))]);
    form_request(Method::Put, endpoint, form)
}

/// The request which replaces the labels of a merge request.
pub fn set_merge_request_labels(project: ProjectId, mr: MergeRequestInternalId, labels: &Vec<String>) -> (r: ClientRequest)
    ensures
        is_form_request(
            r,
            Method::Put,
            merge_request_path(project_path(project, ""@), mr, ""@),
            seq![("labels"@, comma_joined(labels@))],
        ),
{
    labels_request(merge_request_path_string(project_path_string(project, ""), mr, ""), labels)
}

/// The request which closes an issue.
pub fn close_issue(project: ProjectId, issue: IssueInternalId) -> (r: ClientRequest)
    ensures
        is_form_request(
            r,
            Method::Put,
            project_path(project, "/issues/"@) + u64_text(issue@) + ""@,
            seq![("state_event"@, "close"@)],
        ),
{
    let mut form = Params::new();
    form.push_str("state_event", "close");
    assert(form@ =~= seq![("state_event"@, "close"@)]);
    form_request(Method::Put, append_id(project_path_string(project, "/issues/"), issue.value(), ""), form)
}

/// The request which replaces the labels of an issue.
pub fn set_issue_labels(project: ProjectId, issue: IssueInternalId, labels: &Vec<String>) -> (r: ClientRequest)
    ensures
        is_form_request(
            r,
            Method::Put,
            project_path(project, "/issues/"@) + u64_text(issue@) + ""@,
            seq![("labels"@, comma_joined(labels@))],
        ),
{
    labels_request(append_id(project_path_string(project, "/issues/"), issue.value(), ""), labels)
}

/// The request which replaces the labels of an issue of a project given by
/// name.
pub fn set_issue_labels_by_name(project: &str, issue: IssueInternalId, labels: &Vec<String>) -> (r: ClientRequest)
    ensures
        is_form_request(
            r,
            Method::Put,
            named_project_path(project@, "/issues/"@) + u64_text(issue@) + ""@,
            seq![("labels"@, comma_joined(labels@))],
        ),
{
    labels_request(append_id(named_project_path_string(project, "/issues/"), issue.value(), ""), labels)
}

/// The request which sets the description of a project.
pub fn set_project_description(project: ProjectId, description: &str) -> (r: ClientRequest)
    ensures
        is_form_request(r, Method::Put, project_path(project, ""@), seq![("description"@, description@)]),
{
    let mut form = Params::new();
    form.push_str("description", description);
    assert(form@ =~= seq![("description"@, description@)]);
    form_request(Method::Put, project_path_string(project, ""), form)
}

/// The request which sets the default branch of a project.
pub fn set_project_default_branch(project: ProjectId, branch: &str) -> (r: ClientRequest)
    ensures
        is_form_request(r, Method::Put, project_path(project, ""@), seq![("default_branch"@, branch@)]),
{
    let mut form = Params::new();
    form.push_str("default_branch", branch);
    assert(form@ =~= seq![("default_branch"@, branch@)]);
    form_request(Method::Put, project_path_string(project, ""), form)
}

/// The request which adds a user to a project given by name with an access
/// level.
pub fn add_user_to_project_by_name(project: &str, user: UserId, access: AccessLevel) -> (r: ClientRequest)
    ensures
        is_form_request(
            r,
            Method::Post,
            named_project_path(project@, "/members"@),
            seq![("user_id"@, u64_text(user@)), ("access_level"@, u64_text(access.spec_value()))],
        ),
{
    let mut form = Params::new();
    form.push_string("user_id", user.to_string());
    form.push_string("access_level", access.to_string());
    assert(form@ =~= seq![("user_id"@, u64_text(user@)), ("access_level"@, u64_text(access.spec_value()))]);
    form_request(Method::Post, named_project_path_string(project, "/members"), form)
}

/// The request which lists the pipelines of a project.
pub fn pipelines(project: ProjectId, params: &Params) -> (r: ClientRequest)
    ensures
        is_get_request(r, project_path(project, "/pipelines"@), params@),
{
    get_request(project_path_string(project, "/pipelines"), params)
}

/// The request which finds a pipeline of a project.
pub fn pipeline(project: ProjectId, id: PipelineId) -> (r: ClientRequest)
    ensures
        is_bare_request(r, Method::Get, project_path(project, "/pipelines/"@) + u64_text(id@) + ""@),
{
    bare_request(Method::Get, append_id(project_path_string(project, "/pipelines/"), id.value(), ""))
}

/// The request which lists the variables of a pipeline.
pub fn pipeline_variables(project: ProjectId, id: PipelineId) -> (r: ClientRequest)
    ensures
        is_bare_request(
            r,
            Method::Get,
            project_path(project, "/pipelines/"@) + u64_text(id@) + "/variables"@,
        ),
{
    bare_request(Method::Get, append_id(project_path_string(project, "/pipelines/"), id.value(), "/variables"))
}

/// The form parameters of one variable of a new pipeline.
pub open spec fn pipeline_variable_params(v: PipelineVariable) -> Seq<ParamView> {
    seq![
        ("variables[][key]"@, v.key@),
        ("variables[][value]"@, v.value@),
        ("variables[][variable_type]"@, v.variable_type.spec_as_str()),
    ]
}

/// The form parameters of the variables of a new pipeline, in order.
pub open spec fn pipeline_variables_form(vs: Seq<PipelineVariable>) -> Seq<ParamView>
    decreases vs.len(),
{
    if vs.len() == 0 {
        Seq::empty()
    } else {
        pipeline_variables_form(vs.drop_last()) + pipeline_variable_params(vs.last())
    }
}

/// The request which starts a pipeline for a ref with the given variables:
/// the ref is a query parameter and the variables make up the form.
pub fn create_pipeline(project: ProjectId, ref_: &ObjectId, variables: &[PipelineVariable]) -> (r: ClientRequest)
    ensures
        r.method == Method::Post,
        r.endpoint@ == project_path(project, "/pipeline"@),
        r.query@ == seq![("ref"@, ref_@)],
        r.form matches Some(f) && f@ == pipeline_variables_form(variables@),
{
    let mut query = Params::new();
    query.push_str("ref", ref_.value().as_str());
    let mut form = Params::new();
    let mut i: usize = 0;
    while i < variables.len()
        invariant
            i <= variables@.len(),
            form@ == pipeline_variables_form(variables@.take(i as int)),
        decreases variables@.len() - i,
    {
        let v = &variables[i];
        form.push_str("variables[][key]", v.key.as_str());
        form.push_str("variables[][value]", v.value.as_str());
        form.push_str("variables[][variable_type]", v.variable_type.as_str());
        proof {
            assert(variables@.take(i + 1).drop_last() =~= variables@.take(i as int));
            assert(form@ =~= pipeline_variables_form(variables@.take(i + 1)));
        }
        i = i + 1;
    }
    proof {
        assert(variables@.take(variables@.len() as int) =~= variables@);
    }
    assert(query@ =~= seq![("ref"@, ref_@)]);
    ClientRequest {
        method: Method::Post,
        endpoint: project_path_string(project, "/pipeline"),
        query,
        form: Some(form),
    }
}

/// The request which retries the failed jobs of a pipeline.
pub fn retry_pipeline(project: ProjectId, id: PipelineId) -> (r: ClientRequest)
    ensures
        is_bare_request(r, Method::Post, project_path(project, "/pipelines/"@) + u64_text(id@) + "/retry"@),
{
    bare_request(Method::Post, append_id(project_path_string(project, "/pipelines/"), id.value(), "/retry"))
}

/// The request which cancels the jobs of a pipeline.
pub fn cancel_pipeline(project: ProjectId, id: PipelineId) -> (r: ClientRequest)
    ensures
        is_bare_request(
            r,
            Method::Post,
            project_path(project, "/pipelines/"@) + u64_text(id@) + "/cancel"@,
        ),
{
    bare_request(Method::Post, append_id(project_path_string(project, "/pipelines/"), id.value(), "/cancel"))
}

/// The request which lists the jobs of a pipeline.
pub fn pipeline_jobs(project: ProjectId, id: PipelineId, params: &Params) -> (r: ClientRequest)
    ensures
        is_get_request(r, project_path(project, "/pipelines/"@) + u64_text(id@) + "/jobs"@, params@),
{
    get_request(append_id(project_path_string(project, "/pipelines/"), id.value(), "/jobs"), params)
}

/// The request which gets the log of a job; its answer is the raw log.
pub fn job_log(project: ProjectId, job: JobId) -> (r: ClientRequest)
    ensures
        is_bare_request(r, Method::Get, project_path(project, "/jobs/"@) + u64_text(job@) + "/trace"@),
{
    bare_request(Method::Get, append_id(project_path_string(project, "/jobs/"), job.value(), "/trace"))
}

/// The endpoint which creates a file in a branch of a project, with the
/// text `content`.
pub fn create_file(project: ProjectId, file_path: &str, branch: &str, content: &str, commit_message: &str) -> (r: CreateFile)
    ensures
        r.project == NameOrId::Id(project@),
        r.file_path@ == file_path@,
        r.branch@ == branch@,
        r.content@ == content.spec_bytes(),
        r.commit_message@ == commit_message@,
        r.start_branch is None,
        r.encoding is None,
        r.author_email is None,
        r.author_name is None,
{
    CreateFile {
        project: NameOrId::Id(project.value()),
        file_path: file_path.to_owned(),
        branch: branch.to_owned(),
        content: crate::text::bytes_to_vec(content.as_bytes()),
        commit_message: commit_message.to_owned(),
        start_branch: None,
        encoding: None,
        author_email: None,
        author_name: None,
    }
}

/// The endpoint which looks users up by username.
pub fn user_by_name(name: &str) -> (r: Users)
    ensures
        r.spec_method() == Method::Get,
        r.spec_endpoint() == "users"@,
        r.spec_parameters() == seq![("username"@, name@)],
        r.spec_body() is None,
{
    let r = Users {
        search: None,
        username: Some(name.to_owned()),
        active: None,
        blocked: None,
        external_provider: None,
        external: None,
        created_before: None,
        created_after: None,
        custom_attributes: CustomAttributes::new(),
        with_custom_attributes: None,
        order_by: None,
        sort: None,
        two_factor: None,
        without_projects: None,
        exclude_internal: None,
        admins: None,
    };
    assert(attribute_params(r.custom_attributes@) =~= Seq::<ParamView>::empty());
    assert(r.spec_parameters() =~= seq![("username"@, name@)]);
    r
}

/// The user that a lookup by name gives among the users found: the last
/// one, if any.
pub fn last_found<T>(found: Vec<T>) -> (r: Option<T>)
    ensures
        r == if found@.len() == 0 {
            None
        } else {
            Some(found@.last())
        },
{
    let mut found = found;
    found.pop()
}

/// Why an answer of Gitlab does not give the value asked for.
#[derive(Debug)]
pub enum AnswerError<E> {
    /// Gitlab answered with a server error status.
    Http { status: u16 },
    /// The answer is not JSON; `source` says why.
    Json { source: E },
    /// Gitlab refused the request with a message.
    Gitlab { msg: String },
}

/// What an answer of Gitlab gives: a server error status fails whatever the
/// body; otherwise the body must be JSON, and a status other than success
/// turns it into Gitlab's message.
pub fn read_answer<E>(status: u16, parsed: Result<JsonValue, E>) -> (r: Result<JsonValue, AnswerError<E>>)
    ensures
        crate::api::retry::spec_is_server_error(status) ==> r == Err::<JsonValue, AnswerError<E>>(
            AnswerError::Http { status },
        ),
        !crate::api::retry::spec_is_server_error(status) ==> match parsed {
            Err(e) => r == Err::<JsonValue, AnswerError<E>>(AnswerError::Json { source: e }),
            Ok(v) => if 200 <= status <= 299 {
                r == Ok::<JsonValue, AnswerError<E>>(v)
            } else {
                r matches Err(AnswerError::Gitlab { msg }) && msg@ == spec_gitlab_error_message(v)
            },
        },
{
    if crate::api::retry::is_server_error(status) {
        return Err(AnswerError::Http { status });
    }
    match parsed {
        Err(e) => Err(AnswerError::Json { source: e }),
        Ok(v) => {
            if 200 <= status && status <= 299 {
                Ok(v)
            } else {
                let msg = gitlab_error_message(&v);
                Err(AnswerError::Gitlab { msg })
            }
        },
    }
}

} // verus!
