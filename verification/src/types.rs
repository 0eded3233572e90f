//! API entities
//!
//! These entities are exposed by Gitlab via its API.
//!
//! There are some places where Gitlab does not completely specify its types. This causes
//! problems when the types and names change inside of those. If found, issues should be filed
//! upstream.
//!
//! Times are held as [`Timestamp`], calendar days as [`Date`], URLs as their text, fields whose
//! JSON type varies as [`JsonValue`], and fractional numbers (coverage, durations) as the
//! decimal text that Gitlab sent.

use std::str::FromStr;

use vstd::prelude::*;
use vstd::std_specs::convert::FromSpecImpl;
use vstd::string::*;

use crate::common::{concat_str, str_eq, BuilderError, Date, Timestamp};
use crate::json::JsonValue;
use crate::params::u64_text;
use crate::text::{decimal_string, hex_upper, string_push};

verus! {

/// Type alias for slice of string two-tuples
pub type QueryParamSlice<'a> = &'a [(&'a str, &'a str)];

/// Type alias for Vec of string two-tuples
pub type QueryParamVec<'a> = Vec<(&'a str, &'a str)>;

/// Type-safe user ID.
#[derive(Debug, Clone, Copy, Hash, PartialEq, Eq, Structural, PartialOrd, Ord)]
pub struct UserId(u64);

impl UserId {
    /// Create a new id.
    pub fn new(id: u64) -> (r: Self)
        ensures
            r@ == id,
    {
        UserId(id)
    }

    /// The value of the id.
    pub fn value(&self) -> (r: u64)
        ensures
            r == self@,
    {
        self.0
    }

    /// The id written in decimal.
    pub fn to_string(&self) -> (r: String)
        ensures
            r@ == u64_text(self@),
    {
        decimal_string(self.0)
    }
}

impl View for UserId {
    type V = u64;

    closed spec fn view(&self) -> u64 {
        self.0
    }
}

/// The states a user account can be in.
#[derive(Debug, Clone, Copy, PartialEq, Eq, Structural)]
pub enum UserState {
    /// The user is active and may perform actions.
    Active,
    /// Blocked from logging in.
    Blocked,
    /// Blocked from logging in via LDAP.
    LdapBlocked,
}

impl UserState {
    /// The name of the variant, as Gitlab writes it.
    pub open spec fn spec_as_str(self) -> Seq<char> {
        match self {
            UserState::Active => "active"@,
            UserState::Blocked => "blocked"@,
            UserState::LdapBlocked => "ldap_blocked"@,
        }
    }

    /// The variant that Gitlab means by `name`, if any.
    pub open spec fn spec_from_name(name: Seq<char>) -> Option<UserState> {
        if name == "active"@ {
            Some(UserState::Active)
        } else if name == "blocked"@ {
            Some(UserState::Blocked)
        } else if name == "ldap_blocked"@ {
            Some(UserState::LdapBlocked)
        } else {
            None
        }
    }

    /// String representation of the variant.
    pub fn as_str(&self) -> (r: &'static str)
        ensures
            r@ == self.spec_as_str(),
    {
        match self {
            UserState::Active => "active",
            UserState::Blocked => "blocked",
            UserState::LdapBlocked => "ldap_blocked",
        }
    }

    /// The variant that Gitlab means by `name`, if any.
    pub fn from_name(name: &str) -> (r: Option<UserState>)
        ensures
            r == UserState::spec_from_name(name@),
    {
        if str_eq(name, "active") {
            Some(UserState::Active)
        } else if str_eq(name, "blocked") {
            Some(UserState::Blocked)
        } else if str_eq(name, "ldap_blocked") {
            Some(UserState::LdapBlocked)
        } else {
            None
        }
    }

    /// Reading the name of a variant gives the variant back.
    pub proof fn lemma_name_round_trip(self)
        ensures
            UserState::spec_from_name(self.spec_as_str()) == Some(self),
    {
        reveal_strlit("active");
        reveal_strlit("blocked");
        reveal_strlit("ldap_blocked");
        assert("active"@.len() == 6);
        assert("blocked"@.len() == 7);
        assert("ldap_blocked"@.len() == 12);
    }
}

/// Basic user information.
#[derive(Debug, Clone)]
pub struct UserBasic {
    /// The username.
    pub username: String,
    /// The display name.
    pub name: String,
    /// The user's ID.
    pub id: UserId,
    /// The state of the user account.
    pub state: UserState,
    /// The URL of the user's avatar.
    pub avatar_url: Option<String>,
    /// The URL of the user's profile page.
    pub web_url: String,
}

/// A unifying trait for all user types.
///
/// This is used to allow (direct) user queries to return the right information because
/// administrator users receive additional information for all user queries versus
/// non-administrator users.
pub trait UserResult {}

/// More detailed information only accessible to administrators.
#[derive(Debug, Clone)]
pub struct User {
    /// The username.
    pub username: String,
    /// The display name.
    pub name: String,
    /// The user's ID.
    pub id: UserId,
    /// The state of the user account.
    pub state: UserState,
    /// The URL of the user's avatar.
    pub avatar_url: Option<String>,
    /// The URL of the user's profile page.
    pub web_url: String,
    /// When the account was created.
    pub created_at: Option<Timestamp>,
    /// Whether the user is an administrator or not.
    ///
    /// Only available when talking to GitLab as an admin.
    pub is_admin: Option<bool>,
    /// The highest access level available to the user.
    ///
    /// Only available when talking to GitLab as an admin.
    pub highest_role: Option<AccessLevel>,
    /// Self-described biography of the user.
    pub bio: Option<String>,
    /// Whether the account has a private profile.
    pub private_profile: Option<bool>,
    /// Geographic location of the user.
    pub location: Option<String>,
    /// User public email address, if any.
    pub public_email: Option<String>,

    /// Skype contact information.
    pub skype: String,
    /// LinkedIn contact information.
    pub linkedin: String,
    /// Twitter contact information.
    pub twitter: String,
    /// Custom URL for the user's website.
    pub website_url: String,
    /// Organization the user belongs to.
    pub organization: Option<String>,
}

/// External authentication tokens.
#[derive(Debug, Clone)]
pub struct Identity {
    /// The provider of the token.
    pub provider: String,
    /// The UID for the provider.
    pub extern_uid: String,
}

/// Type-safe theme ID.
#[derive(Debug, Clone, Copy, Hash, PartialEq, Eq, Structural, PartialOrd, Ord)]
pub struct ThemeId(u64);

impl ThemeId {
    /// Create a new id.
    pub fn new(id: u64) -> (r: Self)
        ensures
            r@ == id,
    {
        ThemeId(id)
    }

    /// The value of the id.
    pub fn value(&self) -> (r: u64)
        ensures
            r == self@,
    {
        self.0
    }

    /// The id written in decimal.
    pub fn to_string(&self) -> (r: String)
        ensures
            r@ == u64_text(self@),
    {
        decimal_string(self.0)
    }
}

impl View for ThemeId {
    type V = u64;

    closed spec fn view(&self) -> u64 {
        self.0
    }
}

/// Type-safe color scheme ID.
#[derive(Debug, Clone, Copy, Hash, PartialEq, Eq, Structural, PartialOrd, Ord)]
pub struct ColorSchemeId(u64);

impl ColorSchemeId {
    /// Create a new id.
    pub fn new(id: u64) -> (r: Self)
        ensures
            r@ == id,
    {
        ColorSchemeId(id)
    }

    /// The value of the id.
    pub fn value(&self) -> (r: u64)
        ensures
            r == self@,
    {
        self.0
    }

    /// The id written in decimal.
    pub fn to_string(&self) -> (r: String)
        ensures
            r@ == u64_text(self@),
    {
        decimal_string(self.0)
    }
}

impl View for ColorSchemeId {
    type V = u64;

    closed spec fn view(&self) -> u64 {
        self.0
    }
}

/// Full user structure information.
#[derive(Debug, Clone)]
pub struct UserPublic {
    /// The username.
    pub username: String,
    /// The display name.
    pub name: String,
    /// The user's ID.
    pub id: UserId,
    /// The state of the user account.
    pub state: UserState,
    /// The URL of the user's avatar.
    pub avatar_url: Option<String>,
    /// The URL of the user's profile page.
    pub web_url: String,
    /// When the account was created.
    pub created_at: Option<Timestamp>,
    /// Whether the user is an administrator or not.
    ///
    /// Only available when talking to GitLab as an admin.
    pub is_admin: Option<bool>,
    /// The highest access level available to the user.
    ///
    /// Only available when talking to GitLab as an admin.
    pub highest_role: Option<AccessLevel>,
    /// Self-described biography of the user.
    pub bio: Option<String>,
    /// Whether the account has a private profile.
    pub private_profile: Option<bool>,
    /// Geographic location of the user.
    pub location: Option<String>,
    /// User public email address, if any.
    pub public_email: Option<String>,

    /// Skype contact information.
    pub skype: String,
    /// LinkedIn contact information.
    pub linkedin: String,
    /// Twitter contact information.
    pub twitter: String,
    /// Custom URL for the user's website.
    pub website_url: String,
    /// Organization the user belongs to.
    pub organization: Option<String>,

    /// When the user last logged in.
    pub last_sign_in_at: Option<Timestamp>,
    /// When the user last made an action.
    pub last_activity_on: Option<Date>,
    /// When the user's account was confirmed.
    pub confirmed_at: Option<Timestamp>,
    /// The primary email address for the user.
    pub email: String,

    /// The theme used by the user, if configured.
    pub theme_id: Option<ThemeId>,
    /// The color scheme used by the user.
    pub color_scheme_id: ColorSchemeId,
    /// The number of projects the user may create.
    pub projects_limit: u64,
    /// When the user's current session started.
    pub current_sign_in_at: Option<Timestamp>,

    /// List of identities associated with the user.
    pub identities: Vec<Identity>,

    /// Whether the user can create groups.
    pub can_create_group: bool,
    /// Whether the user can create a new project.
    pub can_create_project: bool,
    /// Whether the user has two-factor authentication enabled.
    pub two_factor_enabled: bool,
    /// Whether the account is externally controlled.
    pub external: bool,
}

/// Type-safe email ID.
#[derive(Debug, Clone, Copy, Hash, PartialEq, Eq, Structural, PartialOrd, Ord)]
pub struct EmailId(u64);

impl EmailId {
    /// Create a new id.
    pub fn new(id: u64) -> (r: Self)
        ensures
            r@ == id,
    {
        EmailId(id)
    }

    /// The value of the id.
    pub fn value(&self) -> (r: u64)
        ensures
            r == self@,
    {
        self.0
    }

    /// The id written in decimal.
    pub fn to_string(&self) -> (r: String)
        ensures
            r@ == u64_text(self@),
    {
        decimal_string(self.0)
    }
}

impl View for EmailId {
    type V = u64;

    closed spec fn view(&self) -> u64 {
        self.0
    }
}

/// Email address.
#[derive(Debug, Clone)]
pub struct Email {
    /// ID of the email.
    pub id: EmailId,
    /// The email address.
    pub email: String,
}

/// Type-safe hook ID.
#[derive(Debug, Clone, Copy, Hash, PartialEq, Eq, Structural, PartialOrd, Ord)]
pub struct HookId(u64);

impl HookId {
    /// Create a new id.
    pub fn new(id: u64) -> (r: Self)
        ensures
            r@ == id,
    {
        HookId(id)
    }

    /// The value of the id.
    pub fn value(&self) -> (r: u64)
        ensures
            r == self@,
    {
        self.0
    }

    /// The id written in decimal.
    pub fn to_string(&self) -> (r: String)
        ensures
            r@ == u64_text(self@),
    {
        decimal_string(self.0)
    }
}

impl View for HookId {
    type V = u64;

    closed spec fn view(&self) -> u64 {
        self.0
    }
}

/// A web hook to notify of events.
#[derive(Debug, Clone)]
pub struct Hook {
    /// The ID of the hook.
    pub id: HookId,
    /// The URL to contact.
    pub url: String,
    /// When the hook was created.
    pub created_at: Timestamp,
    /// Whether the hook is contacted for push events.
    pub push_events: bool,
    /// Whether the hook is contacted for tag push events.
    pub tag_push_events: bool,
    /// Whether the communication with the hook is verified using TLS certificates.
    pub enable_ssl_verification: bool,
}

/// A web hook to notify of project events.
#[derive(Debug, Clone)]
pub struct ProjectHook {
    /// The ID of the hook.
    pub id: HookId,
    /// The URL to contact.
    pub url: String,
    /// When the hook was created.
    pub created_at: Timestamp,
    /// The project associated with the hook.
    pub project_id: ProjectId,
    /// Whether the hook is contacted for push events.
    pub push_events: bool,
    /// Filter branches for which the hook is contacted for push events.
    pub push_events_branch_filter: Option<String>,
    /// Whether the hook is contacted for tag push events.
    pub tag_push_events: bool,
    /// Whether the hook is contacted for issue events.
    pub issues_events: bool,
    /// Whether the hook is contacted for confidential issue events.
    pub confidential_issues_events: Option<bool>,
    /// Whether the hook is contacted for merge request events.
    pub merge_requests_events: bool,
    /// Whether the hook is contacted for note events.
    pub note_events: bool,
    /// Whether the hook is contacted for confidential note events.
    pub confidential_note_events: Option<bool>,
    /// Whether the hook is contacted for repository update events.
    pub repository_update_events: bool,
    /// Whether the communication with the hook is verified using TLS certificates.
    pub enable_ssl_verification: bool,
    /// Whether the hook is contacted for job events.
    pub job_events: bool,
    /// Whether the hook is contacted for pipeline events.
    pub pipeline_events: bool,
    /// Whether the hook is contacted for wiki page events.
    pub wiki_page_events: bool,
    /// Secret token to validate received payloads
    pub token: Option<String>,
}

/// The events a webhook listener may receive.
#[derive(Debug, Default, Clone, Copy)]
pub struct WebhookEvents {
    /// Whether to receive job events of not.
    job: bool,
    /// Whether to receive issue events of not.
    issues: bool,
    /// Whether to receive confidential issue events of not.
    confidential_issues: bool,
    /// Whether to receive merge request events of not.
    merge_requests: bool,
    /// Whether to receive note (comment) events of not.
    note: bool,
    /// Whether to receive pipeline events of not.
    pipeline: bool,
    /// Whether to receive push events of not.
    push: bool,
    /// Whether to receive wiki events of not.
    wiki_page: bool,
}

/// Type-safe project ID.
#[derive(Debug, Clone, Copy, Hash, PartialEq, Eq, Structural, PartialOrd, Ord)]
pub struct ProjectId(u64);

impl ProjectId {
    /// Create a new id.
    pub fn new(id: u64) -> (r: Self)
        ensures
            r@ == id,
    {
        ProjectId(id)
    }

    /// The value of the id.
    pub fn value(&self) -> (r: u64)
        ensures
            r == self@,
    {
        self.0
    }

    /// The id written in decimal.
    pub fn to_string(&self) -> (r: String)
        ensures
            r@ == u64_text(self@),
    {
        decimal_string(self.0)
    }
}

impl View for ProjectId {
    type V = u64;

    closed spec fn view(&self) -> u64 {
        self.0
    }
}

/// Basic project information.
#[derive(Debug, Clone)]
pub struct BasicProjectDetails {
    /// The ID of the project.
    pub id: ProjectId,
    /// The display name of the project.
    pub name: String,
    /// The display name of the project with the namespace.
    pub name_with_namespace: String,
    /// The path to the project's repository.
    pub path: String,
    /// The path to the project's repository with its namespace.
    pub path_with_namespace: String,
    /// The URL to the main page of the repository.
    pub http_url_to_repo: String,
    /// The URL to the main page of the repository.
    pub web_url: String,
}

/// Visibility levels of projects.
#[derive(Debug, Clone, Copy, PartialEq, Eq, Structural, PartialOrd, Ord)]
pub enum VisibilityLevel {
    /// The project is visible to anonymous users.
    Public,
    /// The project is visible to logged in users.
    Internal,
    /// The project is visible only to users with explicit access.
    Private,
}

impl VisibilityLevel {
    /// The name of the variant, as Gitlab writes it.
    pub open spec fn spec_as_str(self) -> Seq<char> {
        match self {
            VisibilityLevel::Public => "public"@,
            VisibilityLevel::Internal => "internal"@,
            VisibilityLevel::Private => "private"@,
        }
    }

    /// The variant that Gitlab means by `name`, if any.
    pub open spec fn spec_from_name(name: Seq<char>) -> Option<VisibilityLevel> {
        if name == "public"@ {
            Some(VisibilityLevel::Public)
        } else if name == "internal"@ {
            Some(VisibilityLevel::Internal)
        } else if name == "private"@ {
            Some(VisibilityLevel::Private)
        } else {
            None
        }
    }

    /// String representation of the variant.
    pub fn as_str(&self) -> (r: &'static str)
        ensures
            r@ == self.spec_as_str(),
    {
        match self {
            VisibilityLevel::Public => "public",
            VisibilityLevel::Internal => "internal",
            VisibilityLevel::Private => "private",
        }
    }

    /// The variant that Gitlab means by `name`, if any.
    pub fn from_name(name: &str) -> (r: Option<VisibilityLevel>)
        ensures
            r == VisibilityLevel::spec_from_name(name@),
    {
        if str_eq(name, "public") {
            Some(VisibilityLevel::Public)
        } else if str_eq(name, "internal") {
            Some(VisibilityLevel::Internal)
        } else if str_eq(name, "private") {
            Some(VisibilityLevel::Private)
        } else {
            None
        }
    }

    /// Reading the name of a variant gives the variant back.
    pub proof fn lemma_name_round_trip(self)
        ensures
            VisibilityLevel::spec_from_name(self.spec_as_str()) == Some(self),
    {
        reveal_strlit("public");
        reveal_strlit("internal");
        reveal_strlit("private");
        assert("public"@.len() == 6);
        assert("internal"@.len() == 8);
        assert("private"@.len() == 7);
    }
}

/// Visibility levels for project features.
#[derive(Debug, Clone, Copy, PartialEq, Eq, Structural, PartialOrd, Ord)]
pub enum FeatureVisibilityLevel {
    /// Feature is disabled.
    Disabled,
    /// Feature is enabled and accessible privately.
    Private,
    /// Feature is enabled and accessible with project-wide visibility level.
    Enabled,
    /// Feature is enabled and accessible publicly.
    Public,
}

impl FeatureVisibilityLevel {
    /// The name of the variant, as Gitlab writes it.
    pub open spec fn spec_as_str(self) -> Seq<char> {
        match self {
            FeatureVisibilityLevel::Disabled => "disabled"@,
            FeatureVisibilityLevel::Private => "private"@,
            FeatureVisibilityLevel::Enabled => "enabled"@,
            FeatureVisibilityLevel::Public => "public"@,
        }
    }

    /// The variant that Gitlab means by `name`, if any.
    pub open spec fn spec_from_name(name: Seq<char>) -> Option<FeatureVisibilityLevel> {
        if name == "disabled"@ {
            Some(FeatureVisibilityLevel::Disabled)
        } else if name == "private"@ {
            Some(FeatureVisibilityLevel::Private)
        } else if name == "enabled"@ {
            Some(FeatureVisibilityLevel::Enabled)
        } else if name == "public"@ {
            Some(FeatureVisibilityLevel::Public)
        } else {
            None
        }
    }

    /// String representation of the variant.
    pub fn as_str(&self) -> (r: &'static str)
        ensures
            r@ == self.spec_as_str(),
    {
        match self {
            FeatureVisibilityLevel::Disabled => "disabled",
            FeatureVisibilityLevel::Private => "private",
            FeatureVisibilityLevel::Enabled => "enabled",
            FeatureVisibilityLevel::Public => "public",
        }
    }

    /// The variant that Gitlab means by `name`, if any.
    pub fn from_name(name: &str) -> (r: Option<FeatureVisibilityLevel>)
        ensures
            r == FeatureVisibilityLevel::spec_from_name(name@),
    {
        if str_eq(name, "disabled") {
            Some(FeatureVisibilityLevel::Disabled)
        } else if str_eq(name, "private") {
            Some(FeatureVisibilityLevel::Private)
        } else if str_eq(name, "enabled") {
            Some(FeatureVisibilityLevel::Enabled)
        } else if str_eq(name, "public") {
            Some(FeatureVisibilityLevel::Public)
        } else {
            None
        }
    }

    /// Reading the name of a variant gives the variant back.
    pub proof fn lemma_name_round_trip(self)
        ensures
            FeatureVisibilityLevel::spec_from_name(self.spec_as_str()) == Some(self),
    {
        reveal_strlit("disabled");
        reveal_strlit("private");
        reveal_strlit("enabled");
        reveal_strlit("public");
        assert("disabled"@.len() == 8);
        assert("private"@.len() == 7);
        assert("enabled"@.len() == 7);
        assert("public"@.len() == 6);
        assert("private"@[0] == 'p');
        assert("enabled"@[0] == 'e');
    }
}

/// Structure for a group a project has been shared with.
#[derive(Debug, Clone)]
pub struct SharedGroup {
    /// The ID of the group.
    pub group_id: GroupId,
    /// The name of the group.
    pub group_name: String,
    /// The access level of the group.
    pub group_access_level: u64,
}

/// Access information to a project.
#[derive(Debug, Clone, Copy)]
pub struct MemberAccess {
    /// The access level of the membership (see `VisibilityLevel`).
    pub access_level: u64,
    /// The notification level of the current user.
    pub notification_level: Option<u64>,
}

/// Permissions granted to the current user to a project.
#[derive(Debug, Clone, Copy)]
pub struct Permissions {
    /// The access granted by the project to the current user.
    pub project_access: Option<MemberAccess>,
    /// The access granted by the group to the current user.
    pub group_access: Option<MemberAccess>,
}

/// The avatar of a project's namespace.
#[derive(Debug, Clone)]
pub struct ProjectNamespaceAvatar {
    /// The URL of the namespace avatar.
    pub url: Option<String>,
}

#[derive(Debug, Clone)]
pub struct ProjectLinks {
    /// API URL of project itself.
    pub self_: String,
    /// API URL of project issues, if enabled.
    pub issues: Option<String>,
    /// API URL of project merge requests, if enabled.
    pub merge_requests: Option<String>,
    /// API URL of project repository branches.
    pub repo_branches: String,
    /// API URL of project labels.
    pub labels: String,
    /// API URL of project events.
    pub events: String,
    /// API URL of project members.
    pub members: String,
}

/// Project information.
#[derive(Debug, Clone)]
pub struct Project {
    /// The ID of the project.
    pub id: ProjectId,
    /// The description of the project.
    pub description: Option<String>,
    /// The default branch for the project.
    pub default_branch: Option<String>,
    /// A list of tags for the project.
    pub tag_list: Vec<String>,
    /// Whether the project is archived or not.
    pub archived: bool,
    /// Whether the project has an empty repository or not.
    pub empty_repo: bool,
    /// Whether the project is public, internal, or private.
    pub visibility: VisibilityLevel,
    /// The URL to clone the repository over SSH.
    pub ssh_url_to_repo: String,
    /// The URL to clone the repository over HTTPS.
    pub http_url_to_repo: String,
    /// The URL for the project's homepage.
    pub web_url: String,
    /// The URL for the project's readme.
    pub readme_url: Option<String>,
    /// The owner of the project (`None` for a group-owned project).
    pub owner: Option<UserBasic>,
    /// The display name of the project.
    pub name: String,
    /// The display name of the project with the namespace.
    pub name_with_namespace: String,
    /// The path to the project's repository.
    pub path: String,
    /// The path to the project's repository with its namespace.
    pub path_with_namespace: String,
    /// Whether the continuous integration container registry is enabled.
    ///
    /// This is supposed to be just `bool`, but projects created before the registry was
    /// supported appear to return `null`.
    pub container_registry_enabled: Option<bool>,
    /// When the repository was created.
    pub created_at: Timestamp,
    /// When the last activity on the project occurred.
    pub last_activity_at: Timestamp,
    /// Whether continuous integration shared runners are enabled.
    pub shared_runners_enabled: bool,
    /// Whether LFS object storage is enabled.
    pub lfs_enabled: bool,
    /// The user who created the repository.
    pub creator_id: UserId,
    /// The namespace the project lives in.
    pub namespace: Namespace,
    /// If the project is a fork, details about it.
    pub forked_from_project: Option<BasicProjectDetails>,
    /// The URL to the project avatar.
    pub avatar_url: Option<String>,
    /// The path to CI config file.
    pub ci_config_path: Option<String>,
    /// Description of error if project failed to import.
    pub import_error: Option<String>,
    /// The number of stars for the project.
    pub star_count: u64,
    /// The number of forks.
    pub forks_count: u64,
    /// The number of open issues (if issues are enabled).
    pub open_issues_count: Option<u64>,
    /// The continuous integration runner token (if enabled).
    pub runners_token: Option<String>,
    /// Whether jobs are publicly visible.
    pub public_jobs: bool,
    /// Groups the project is shared with.
    pub shared_with_groups: Vec<SharedGroup>,
    /// Whether the project only enables the merge button if all pipelines are passing.
    pub only_allow_merge_if_pipeline_succeeds: Option<bool>,
    /// Whether the project only enables the merge button if all discussions are resolved.
    pub only_allow_merge_if_all_discussions_are_resolved: Option<bool>,
    /// Whether enable 'Delete source branch' option by default for all new merge requests.
    pub remove_source_branch_after_merge: Option<bool>,
    /// Whether to show the link to create/view merge request when pusing from command line.
    pub printing_merge_request_link_enabled: Option<bool>,
    /// Whether access to the project may be requested.
    pub request_access_enabled: bool,
    /// Whether to automatically resolve merge request diff discussions when they become outdated,
    /// if configured.
    pub resolve_outdated_diff_discussions: Option<bool>,

    /// Whether jobs are enabled or not.
    pub jobs_enabled: bool,
    /// Whether issues are enabled or not.
    pub issues_enabled: bool,
    /// Whether merge requests are enabled or not.
    pub merge_requests_enabled: bool,
    /// Whether snippets are enabled or not.
    pub snippets_enabled: bool,
    /// Whether the project wiki is enabled or not.
    pub wiki_enabled: bool,

    /// Visibility of builds.
    pub builds_access_level: FeatureVisibilityLevel,
    /// Visibility of issues.
    pub issues_access_level: FeatureVisibilityLevel,
    /// Visibility of merge requests.
    pub merge_requests_access_level: FeatureVisibilityLevel,
    /// Visibility of repository.
    pub repository_access_level: FeatureVisibilityLevel,
    /// Visibility of snippets.
    pub snippets_access_level: FeatureVisibilityLevel,
    /// Visibility of wiki.
    pub wiki_access_level: FeatureVisibilityLevel,

    /// The merge method used when merging merge request.
    pub merge_method: Option<String>,
    /// Statistics about the project.
    pub statistics: Option<ProjectStatistics>,

    /// If this is present, it is `ProjectWithAccess`, but since it is so similar, just have it be
    /// optional here.
    pub permissions: Option<Permissions>,

    /// Links to related API URLs provided by GitLab in response to
    /// direct project lookup.  We do not expose this because our
    /// clients do not need them.
    pub _links: Option<ProjectLinks>,
}

/// Statistics about a project.
#[derive(Debug, Clone, Copy)]
pub struct ProjectStatistics {
    /// The number of commits in the repository.
    pub commit_count: u64,
    /// The size, in bytes, of the total storage required for the project.
    pub storage_size: u64,
    /// The size, in bytes, of the repository.
    pub repository_size: u64,
    /// The size, in bytes, of uploaded LFS files.
    pub lfs_objects_size: u64,
    /// The size, in bytes, of uploaded job artifacts.
    pub job_artifacts_size: u64,
}

/// Access levels for groups and projects.
#[derive(Debug, Clone, Copy, PartialEq, Eq, Structural, PartialOrd, Ord)]
pub enum AccessLevel {
    /// Anonymous access.
    Anonymous,
    /// Guest access (can see the project).
    Guest,
    /// Reporter access (can open issues).
    Reporter,
    /// Developer access (can push branches, handle issues and merge requests).
    Developer,
    /// Maintainer access (can push to protected branches).
    Maintainer,
    /// Owner access (full rights).
    Owner,
    /// Admin access (full rights).
    Admin,
}

/// A member with extra permissions on a project.
#[derive(Debug, Clone)]
pub struct Member {
    /// The username.
    pub username: String,
    /// The display name.
    pub name: String,
    /// The user's ID.
    pub id: UserId,
    /// The state of the user account.
    pub state: UserState,
    /// The URL of the user's avatar.
    pub avatar_url: Option<String>,
    /// The URL of the user's profile page.
    pub web_url: String,
    /// The access level of the user.
    pub access_level: u64,
    /// When the membership expires.
    pub expires_at: Option<Date>,
}

/// A member with extra permissions on a project.
#[derive(Debug, Clone)]
pub struct AccessRequester {
    /// The username.
    pub username: String,
    /// The display name.
    pub name: String,
    /// The user's ID.
    pub id: UserId,
    /// The state of the user account.
    pub state: UserState,
    /// The URL of the user's avatar.
    pub avatar_url: Option<String>,
    /// The URL of the user's profile page.
    pub web_url: String,
    /// When the membership request was created.
    pub requested_at: Timestamp,
}

/// Type-safe group ID.
#[derive(Debug, Clone, Copy, Hash, PartialEq, Eq, Structural, PartialOrd, Ord)]
pub struct GroupId(u64);

impl GroupId {
    /// Create a new id.
    pub fn new(id: u64) -> (r: Self)
        ensures
            r@ == id,
    {
        GroupId(id)
    }

    /// The value of the id.
    pub fn value(&self) -> (r: u64)
        ensures
            r == self@,
    {
        self.0
    }

    /// The id written in decimal.
    pub fn to_string(&self) -> (r: String)
        ensures
            r@ == u64_text(self@),
    {
        decimal_string(self.0)
    }
}

impl View for GroupId {
    type V = u64;

    closed spec fn view(&self) -> u64 {
        self.0
    }
}

/// Group information.
#[derive(Debug, Clone)]
pub struct Group {
    /// The ID of the group.
    pub id: GroupId,
    /// The name of the group.
    pub name: String,
    /// The path to the group.
    pub path: String,
    /// The description of the group.
    pub description: Option<String>,
    /// Whether the project is public, internal, or private.
    pub visibility: VisibilityLevel,
    /// Whether LFS is enabled for the group.
    pub lfs_enabled: bool,
    /// The URL to the group avatar.
    pub avatar_url: Option<String>,
    /// The URL to the group's profile page.
    pub web_url: String,
    /// Whether membership requests are allowed for the group.
    pub request_access_enabled: bool,
    pub full_name: String,
    pub full_path: String,
    pub parent_id: Option<GroupId>,
    /// Statistics about the group.
    pub statistics: Option<GroupStatistics>,
}

/// Statistics about a group.
#[derive(Debug, Clone, Copy)]
pub struct GroupStatistics {
    /// The size, in bytes, of the total storage required for the group.
    pub storage_size: u64,
    /// The size, in bytes, of all repositories in the group.
    pub repository_size: u64,
    /// The size, in bytes, of uploaded LFS files in the group.
    pub lfs_objects_size: u64,
    /// The size, in bytes, of uploaded job artifacts in the group.
    pub job_artifacts_size: u64,
}

/// Group information with a project listing.
#[derive(Debug, Clone)]
pub struct GroupDetail {
    /// The ID of the group.
    pub id: GroupId,
    /// The name of the group.
    pub name: String,
    /// The path to the group.
    pub path: String,
    /// The description of the group.
    pub description: Option<String>,
    /// Whether the project is public, internal, or private.
    pub visibility: VisibilityLevel,
    /// Whether LFS is enabled for the group.
    pub lfs_enabled: bool,
    /// The URL to the group avatar.
    pub avatar_url: Option<String>,
    /// The URL to the group's profile page.
    pub web_url: String,
    /// The projects in a group.
    pub projects: Vec<Project>,
    /// Projects the group shares with other groups or users.
    pub shared_projects: Vec<Project>,
    /// Whether membership requests are allowed for the group.
    pub request_access_enabled: bool,
    pub full_name: String,
    pub full_path: String,
    pub parent_id: Option<GroupId>,
    /// Statistics about the group.
    pub statistics: Option<GroupStatistics>,
}

/// A branch on a repository.
#[derive(Debug, Clone)]
pub struct RepoBranch {
    /// The name of the branch.
    pub name: String,
    /// The commit of the branch.
    pub commit: Option<RepoCommit>,
    /// Whether the branch is merged into the main branch or not.
    pub merged: Option<bool>,
    /// Whether the branch is protected or not.
    pub protected: Option<bool>,
    /// Whether the developers can push directly to the branch or not.
    pub developers_can_push: Option<bool>,
    /// Whether the developers can merge into the branch or not.
    pub developers_can_merge: Option<bool>,
    /// Whether the current user can push to the branch.
    pub can_push: Option<bool>,
    /// Whether the branch is the repository default branch.
    pub default: Option<bool>,
}

#[derive(Debug, Clone)]
pub struct PRBAccessLevel {
    pub access_level: u64,
    pub access_level_description: String,
}

/// A protected branch on a repository
#[derive(Debug, Clone)]
pub struct ProtectedRepoBranch {
    pub name: String,
    pub push_access_levels: Vec<PRBAccessLevel>,
    pub merge_access_levels: Vec<PRBAccessLevel>,
    pub code_owner_approval_required: bool,
}

/// The ID of a git object.
#[derive(Debug, Clone, Hash, PartialEq, Eq)]
pub struct ObjectId(String);

/// The kinds of objects Gitlab can return.
#[derive(Debug, Clone, Copy, PartialEq, Eq, Structural)]
pub enum ObjectType {
    /// A `tree` object.
    Tree,
    /// A `blob` object.
    Blob,
}

impl ObjectType {
    /// The name of the variant, as Gitlab writes it.
    pub open spec fn spec_as_str(self) -> Seq<char> {
        match self {
            ObjectType::Tree => "tree"@,
            ObjectType::Blob => "blob"@,
        }
    }

    /// The variant that Gitlab means by `name`, if any.
    pub open spec fn spec_from_name(name: Seq<char>) -> Option<ObjectType> {
        if name == "tree"@ {
            Some(ObjectType::Tree)
        } else if name == "blob"@ {
            Some(ObjectType::Blob)
        } else {
            None
        }
    }

    /// String representation of the variant.
    pub fn as_str(&self) -> (r: &'static str)
        ensures
            r@ == self.spec_as_str(),
    {
        match self {
            ObjectType::Tree => "tree",
            ObjectType::Blob => "blob",
        }
    }

    /// The variant that Gitlab means by `name`, if any.
    pub fn from_name(name: &str) -> (r: Option<ObjectType>)
        ensures
            r == ObjectType::spec_from_name(name@),
    {
        if str_eq(name, "tree") {
            Some(ObjectType::Tree)
        } else if str_eq(name, "blob") {
            Some(ObjectType::Blob)
        } else {
            None
        }
    }

    /// Reading the name of a variant gives the variant back.
    pub proof fn lemma_name_round_trip(self)
        ensures
            ObjectType::spec_from_name(self.spec_as_str()) == Some(self),
    {
        reveal_strlit("tree");
        reveal_strlit("blob");
        assert("tree"@.len() == 4);
        assert("blob"@.len() == 4);
        assert("tree"@[0] == 't');
        assert("blob"@[0] == 'b');
    }
}

/// An object inside of a repository.
#[derive(Debug, Clone)]
pub struct RepoTreeObject {
    /// The ID of the object.
    pub id: ObjectId,
    /// The name of the object.
    pub name: String,
    /// The type of the object.
    pub type_: ObjectType,
    /// The path to the object inside of the repository.
    pub path: String,
    /// The mode of the object.
    pub mode: String,
}

/// A commit in a project.
#[derive(Debug, Clone)]
pub struct RepoCommit {
    /// The ID of the commit.
    pub id: ObjectId,
    /// The short ID of the commit.
    pub short_id: ObjectId,
    /// The summary of the commit.
    pub title: String,
    /// The commit ID of the parents of the commit.
    pub parent_ids: Vec<ObjectId>,
    /// The commit author's name.
    pub author_name: String,
    /// The commit author's email address.
    pub author_email: String,
    /// The commit's authorship date.
    pub authored_date: Timestamp,
    /// The committer's name.
    pub committer_name: String,
    /// The committer's email address.
    pub committer_email: String,
    /// The commit's commit date.
    pub committed_date: Timestamp,
    pub created_at: Timestamp,
    /// The full commit message.
    pub message: String,
}

/// Stats about a commit.
#[derive(Debug, Clone, Copy)]
pub struct RepoCommitStats {
    /// The number of lines added by the commit.
    pub additions: u64,
    /// The number of lines deleted by the commit.
    pub deletions: u64,
    /// The number of lines changed by the commit.
    pub total: u64,
}

/// A commit in a project with statistics.
#[derive(Debug, Clone)]
pub struct RepoCommitDetail {
    /// The ID of the commit.
    pub id: ObjectId,
    /// The short ID of the commit.
    pub short_id: ObjectId,
    /// The summary of the commit.
    pub title: String,
    /// The commit ID of the parents of the commit.
    pub parent_ids: Vec<ObjectId>,
    /// The commit author's name.
    pub author_name: String,
    /// The commit author's email address.
    pub author_email: String,
    /// The commit's authorship date.
    pub authored_date: Timestamp,
    /// The committer's name.
    pub committer_name: String,
    /// The committer's email address.
    pub committer_email: String,
    /// The commit's commit date.
    pub committed_date: Timestamp,
    pub created_at: Timestamp,
    /// The full commit message.
    pub message: String,
    /// Statistics about the commit.
    pub stats: Option<RepoCommitStats>,
    /// The last pipeline for this commit, if any.
    pub last_pipeline: Option<PipelineBasic>,
    /// The project associated with the commit.
    pub project_id: ProjectId,
    /// This looks to be CI related; ignoring without better docs.
    pub status: JsonValue,
}

/// Type-safe snippet ID.
#[derive(Debug, Clone, Copy, Hash, PartialEq, Eq, Structural, PartialOrd, Ord)]
pub struct SnippetId(u64);

impl SnippetId {
    /// Create a new id.
    pub fn new(id: u64) -> (r: Self)
        ensures
            r@ == id,
    {
        SnippetId(id)
    }

    /// The value of the id.
    pub fn value(&self) -> (r: u64)
        ensures
            r == self@,
    {
        self.0
    }

    /// The id written in decimal.
    pub fn to_string(&self) -> (r: String)
        ensures
            r@ == u64_text(self@),
    {
        decimal_string(self.0)
    }
}

impl View for SnippetId {
    type V = u64;

    closed spec fn view(&self) -> u64 {
        self.0
    }
}

/// A project-specific snippet.
#[derive(Debug, Clone)]
pub struct ProjectSnippet {
    /// The ID of the snippet.
    pub id: SnippetId,
    /// The title of the snippet.
    pub title: String,
    /// The name of the snippet.
    pub file_name: String,
    /// The author of the snippet.
    pub author: UserBasic,
    /// When the snippet was last updated.
    pub updated_at: Timestamp,
    /// When the snippet was created.
    pub created_at: Timestamp,
    /// When the snippet was created.
    pub expires_at: Option<Timestamp>,
    /// The URL of the snippet.
    pub web_url: String,
}

/// A diff within a repository.
#[derive(Debug, Clone)]
pub struct RepoDiff {
    /// The path on the old side of the diff.
    pub old_path: String,
    /// The path on the new side of the diff.
    pub new_path: String,
    /// The mode on the old side of the diff.
    pub a_mode: String,
    /// The mode on the new side of the diff.
    pub b_mode: String,
    pub diff: String,
    /// Whether the diff indicates the addition of a file.
    pub new_file: bool,
    /// Whether the diff indicates the rename of a file.
    pub renamed_file: bool,
    /// Whether the diff indicates the deletion of a file.
    pub deleted_file: bool,
}

#[derive(Debug, Clone, PartialEq, Eq)]
pub struct DiffRefs {
    /// SHA referencing base commit in the source branch
    pub base_sha: Option<ObjectId>,
    /// SHA referencing head commit in the source branch
    pub head_sha: Option<ObjectId>,
    /// SHA referencing commit in target branch
    pub start_sha: Option<ObjectId>,
}

/// Type-safe milestone ID.
#[derive(Debug, Clone, Copy, Hash, PartialEq, Eq, Structural, PartialOrd, Ord)]
pub struct MilestoneId(u64);

impl MilestoneId {
    /// Create a new id.
    pub fn new(id: u64) -> (r: Self)
        ensures
            r@ == id,
    {
        MilestoneId(id)
    }

    /// The value of the id.
    pub fn value(&self) -> (r: u64)
        ensures
            r == self@,
    {
        self.0
    }

    /// The id written in decimal.
    pub fn to_string(&self) -> (r: String)
        ensures
            r@ == u64_text(self@),
    {
        decimal_string(self.0)
    }
}

impl View for MilestoneId {
    type V = u64;

    closed spec fn view(&self) -> u64 {
        self.0
    }
}

/// Type-safe milestone internal ID (internal to a project).
#[derive(Debug, Clone, Copy, Hash, PartialEq, Eq, Structural, PartialOrd, Ord)]
pub struct MilestoneInternalId(u64);

impl MilestoneInternalId {
    /// Create a new id.
    pub fn new(id: u64) -> (r: Self)
        ensures
            r@ == id,
    {
        MilestoneInternalId(id)
    }

    /// The value of the id.
    pub fn value(&self) -> (r: u64)
        ensures
            r == self@,
    {
        self.0
    }

    /// The id written in decimal.
    pub fn to_string(&self) -> (r: String)
        ensures
            r@ == u64_text(self@),
    {
        decimal_string(self.0)
    }
}

impl View for MilestoneInternalId {
    type V = u64;

    closed spec fn view(&self) -> u64 {
        self.0
    }
}

/// The states a milestone may be in.
#[derive(Debug, Clone, Copy, PartialEq, Eq, Structural)]
pub enum MilestoneState {
    /// The milestone is active.
    Active,
    /// The milestone has been closed.
    Closed,
}

impl MilestoneState {
    /// The name of the variant, as Gitlab writes it.
    pub open spec fn spec_as_str(self) -> Seq<char> {
        match self {
            MilestoneState::Active => "active"@,
            MilestoneState::Closed => "closed"@,
        }
    }

    /// The variant that Gitlab means by `name`, if any.
    pub open spec fn spec_from_name(name: Seq<char>) -> Option<MilestoneState> {
        if name == "active"@ {
            Some(MilestoneState::Active)
        } else if name == "closed"@ {
            Some(MilestoneState::Closed)
        } else {
            None
        }
    }

    /// String representation of the variant.
    pub fn as_str(&self) -> (r: &'static str)
        ensures
            r@ == self.spec_as_str(),
    {
        match self {
            MilestoneState::Active => "active",
            MilestoneState::Closed => "closed",
        }
    }

    /// The variant that Gitlab means by `name`, if any.
    pub fn from_name(name: &str) -> (r: Option<MilestoneState>)
        ensures
            r == MilestoneState::spec_from_name(name@),
    {
        if str_eq(name, "active") {
            Some(MilestoneState::Active)
        } else if str_eq(name, "closed") {
            Some(MilestoneState::Closed)
        } else {
            None
        }
    }

    /// Reading the name of a variant gives the variant back.
    pub proof fn lemma_name_round_trip(self)
        ensures
            MilestoneState::spec_from_name(self.spec_as_str()) == Some(self),
    {
        reveal_strlit("active");
        reveal_strlit("closed");
        assert("active"@.len() == 6);
        assert("closed"@.len() == 6);
        assert("active"@[0] == 'a');
        assert("closed"@[0] == 'c');
    }
}

/// A milestone in a project.
#[derive(Debug, Clone)]
pub struct Milestone {
    /// The ID of the milestone.
    pub id: MilestoneId,
    /// The user-visible ID of the milestone.
    pub iid: MilestoneInternalId,
    /// The ID of the project if this is a project milestone.
    pub project_id: Option<ProjectId>,
    /// The ID of the group if this is a group milestone.
    pub group_id: Option<GroupId>,
    /// The title of the milestone.
    pub title: String,
    /// The description of the milestone.
    pub description: Option<String>,
    /// The state of the milestone.
    pub state: MilestoneState,
    /// When the milestone was created.
    pub created_at: Timestamp,
    /// When the milestone was last updated.
    pub updated_at: Timestamp,
    /// When the milestone is due.
    pub due_date: Option<Date>,
    /// When the milestone was started.
    pub start_date: Option<Date>,
}

/// Type-safe label ID.
#[derive(Debug, Clone, Copy, Hash, PartialEq, Eq, Structural, PartialOrd, Ord)]
pub struct LabelId(u64);

impl LabelId {
    /// Create a new id.
    pub fn new(id: u64) -> (r: Self)
        ensures
            r@ == id,
    {
        LabelId(id)
    }

    /// The value of the id.
    pub fn value(&self) -> (r: u64)
        ensures
            r == self@,
    {
        self.0
    }

    /// The id written in decimal.
    pub fn to_string(&self) -> (r: String)
        ensures
            r@ == u64_text(self@),
    {
        decimal_string(self.0)
    }
}

impl View for LabelId {
    type V = u64;

    closed spec fn view(&self) -> u64 {
        self.0
    }
}

/// Type-safe label color.
#[derive(Debug, Clone, PartialEq, Eq)]
pub struct LabelColor(String);

/// An label on a project.
#[derive(Debug, Clone)]
pub struct Label {
    /// The Id of the label.
    pub id: LabelId,
    /// The name of the label.
    pub name: String,
    /// The color of the label.
    pub color: LabelColor,
    /// The description of the label.
    pub description: Option<String>,
    /// The number of opened issues associated with the label.
    pub open_issues_count: Option<u64>,
    /// the number of closed issues associated with the label.
    pub closed_issues_count: Option<u64>,
    /// The number of open merge request associated with the label.
    pub open_merge_requests_count: Option<u64>,
    /// Whether or not the account connecting has subscribed to the label.
    pub subscribed: bool,
    /// The priority of the label.
    pub priority: Option<u64>,
}

/// Type-safe issue ID.
#[derive(Debug, Clone, Copy, Hash, PartialEq, Eq, Structural, PartialOrd, Ord)]
pub struct IssueId(u64);

impl IssueId {
    /// Create a new id.
    pub fn new(id: u64) -> (r: Self)
        ensures
            r@ == id,
    {
        IssueId(id)
    }

    /// The value of the id.
    pub fn value(&self) -> (r: u64)
        ensures
            r == self@,
    {
        self.0
    }

    /// The id written in decimal.
    pub fn to_string(&self) -> (r: String)
        ensures
            r@ == u64_text(self@),
    {
        decimal_string(self.0)
    }
}

impl View for IssueId {
    type V = u64;

    closed spec fn view(&self) -> u64 {
        self.0
    }
}

/// Type-safe issue internal ID (internal to a project).
#[derive(Debug, Clone, Copy, Hash, PartialEq, Eq, Structural, PartialOrd, Ord)]
pub struct IssueInternalId(u64);

impl IssueInternalId {
    /// Create a new id.
    pub fn new(id: u64) -> (r: Self)
        ensures
            r@ == id,
    {
        IssueInternalId(id)
    }

    /// The value of the id.
    pub fn value(&self) -> (r: u64)
        ensures
            r == self@,
    {
        self.0
    }

    /// The id written in decimal.
    pub fn to_string(&self) -> (r: String)
        ensures
            r@ == u64_text(self@),
    {
        decimal_string(self.0)
    }
}

impl View for IssueInternalId {
    type V = u64;

    closed spec fn view(&self) -> u64 {
        self.0
    }
}

/// The states an issue may be in.
#[derive(Debug, Clone, Copy, PartialEq, Eq, Structural)]
pub enum IssueState {
    /// The issue is open.
    Opened,
    /// The issue has been closed.
    Closed,
    /// The issue has been opened after being closed.
    Reopened,
}

impl IssueState {
    /// The name of the variant, as Gitlab writes it.
    pub open spec fn spec_as_str(self) -> Seq<char> {
        match self {
            IssueState::Opened => "opened"@,
            IssueState::Closed => "closed"@,
            IssueState::Reopened => "reopened"@,
        }
    }

    /// The variant that Gitlab means by `name`, if any.
    pub open spec fn spec_from_name(name: Seq<char>) -> Option<IssueState> {
        if name == "opened"@ {
            Some(IssueState::Opened)
        } else if name == "closed"@ {
            Some(IssueState::Closed)
        } else if name == "reopened"@ {
            Some(IssueState::Reopened)
        } else {
            None
        }
    }

    /// String representation of the variant.
    pub fn as_str(&self) -> (r: &'static str)
        ensures
            r@ == self.spec_as_str(),
    {
        match self {
            IssueState::Opened => "opened",
            IssueState::Closed => "closed",
            IssueState::Reopened => "reopened",
        }
    }

    /// The variant that Gitlab means by `name`, if any.
    pub fn from_name(name: &str) -> (r: Option<IssueState>)
        ensures
            r == IssueState::spec_from_name(name@),
    {
        if str_eq(name, "opened") {
            Some(IssueState::Opened)
        } else if str_eq(name, "closed") {
            Some(IssueState::Closed)
        } else if str_eq(name, "reopened") {
            Some(IssueState::Reopened)
        } else {
            None
        }
    }

    /// Reading the name of a variant gives the variant back.
    pub proof fn lemma_name_round_trip(self)
        ensures
            IssueState::spec_from_name(self.spec_as_str()) == Some(self),
    {
        reveal_strlit("opened");
        reveal_strlit("closed");
        reveal_strlit("reopened");
        assert("opened"@.len() == 6);
        assert("closed"@.len() == 6);
        assert("reopened"@.len() == 8);
        assert("opened"@[0] == 'o');
        assert("closed"@[0] == 'c');
    }
}

#[derive(Debug, Clone)]
pub struct IssueLinks {
    /// API URL of issue itself.
    pub self_: String,
    /// API URL of issue notes.
    pub notes: String,
    /// API URL of issue award emoji.
    pub award_emoji: String,
    /// API URL of issue project.
    pub project: String,
}

/// An issue on a project.
#[derive(Debug, Clone)]
pub struct Issue {
    /// The ID of the issue.
    pub id: IssueId,
    /// The user-visible ID of the issue.
    pub iid: IssueInternalId,
    /// The ID of the project.
    pub project_id: ProjectId,
    /// The title of the issue.
    pub title: String,
    /// The description of the issue.
    pub description: Option<String>,
    /// The state of the issue.
    pub state: IssueState,
    /// When the issue was created.
    pub created_at: Timestamp,
    /// When the issue was last updated.
    pub updated_at: Timestamp,
    /// When the issue was closed, if closed.
    pub closed_at: Option<Timestamp>,
    /// The user that closed the issue.
    pub closed_by: Option<UserBasic>,
    /// The labels attached to the issue.
    pub labels: Vec<String>,
    /// The milestone of the issue.
    pub milestone: Option<Milestone>,
    /// The author of the issue.
    pub author: UserBasic,
    /// The assignee of the issue.
    pub assignee: Option<UserBasic>,
    /// The assignees of the issue.
    pub assignees: Option<Vec<UserBasic>>,
    /// Whether the current user is subscribed or not.
    /// GitLab does not include this in responses with lists of issues but
    /// does on an individual issue.
    pub subscribed: Option<bool>,
    /// Time estimates.
    pub time_stats: IssuableTimeStats,
    /// The number of comments on the issue.
    pub user_notes_count: u64,
    /// The number of merge requests referencing the issue.
    pub merge_requests_count: u64,
    /// The number of upvotes for the issue.
    pub upvotes: u64,
    /// The number of downvotes against the issue.
    pub downvotes: u64,
    /// When the issue is due.
    pub due_date: Option<Date>,
    /// Whether the issue is has a non-empty task list.
    /// GitLab does not include this in issue references.
    pub has_tasks: Option<bool>,
    /// Whether the issue is confidential or not.
    pub confidential: bool,
    /// Whether the discussion has been locked.
    pub discussion_locked: Option<bool>,
    /// The URL of the issue.
    pub web_url: String,

    /// Links to related API URLs provided by GitLab in response to
    /// direct issue lookup.  We do not expose this because our
    /// clients do not need them.
    pub _links: Option<IssueLinks>,
}

/// A time estimate on an issue or merge request.
#[derive(Debug, Clone)]
pub struct IssuableTimeStats {
    /// The time estimate, in seconds.
    pub time_estimate: u64,
    /// The total time spent, in seconds.
    pub total_time_spent: u64,
    /// The time estimate, as a human-readable string.
    pub human_time_estimate: Option<String>,
    /// The total time spent, as a human-readable string.
    pub human_total_time_spent: Option<String>,
}

/// Type-safe external issue ID.
#[derive(Debug, Clone, Copy, Hash, PartialEq, Eq, PartialOrd, Ord)]
pub struct ExternalIssueId(u64);

/// An external issue reference.
#[derive(Debug, Clone)]
pub struct ExternalIssue {
    /// The ID of the issue.
    pub id: ExternalIssueId,
    /// The title of the issue.
    pub title: String,
}

/// A reference to an issue.
#[derive(Debug, Clone)]
pub enum IssueReference {
    /// A reference to an issue on the same Gitlab host.
    Internal(Box<Issue>),
    /// An external issue reference.
    External(ExternalIssue),
}

/// Type-safe merge request ID.
#[derive(Debug, Clone, Copy, Hash, PartialEq, Eq, Structural, PartialOrd, Ord)]
pub struct MergeRequestId(u64);

impl MergeRequestId {
    /// Create a new id.
    pub fn new(id: u64) -> (r: Self)
        ensures
            r@ == id,
    {
        MergeRequestId(id)
    }

    /// The value of the id.
    pub fn value(&self) -> (r: u64)
        ensures
            r == self@,
    {
        self.0
    }

    /// The id written in decimal.
    pub fn to_string(&self) -> (r: String)
        ensures
            r@ == u64_text(self@),
    {
        decimal_string(self.0)
    }
}

impl View for MergeRequestId {
    type V = u64;

    closed spec fn view(&self) -> u64 {
        self.0
    }
}

/// Type-safe merge request internal ID (internal to a project).
#[derive(Debug, Clone, Copy, Hash, PartialEq, Eq, Structural, PartialOrd, Ord)]
pub struct MergeRequestInternalId(u64);

impl MergeRequestInternalId {
    /// Create a new id.
    pub fn new(id: u64) -> (r: Self)
        ensures
            r@ == id,
    {
        MergeRequestInternalId(id)
    }

    /// The value of the id.
    pub fn value(&self) -> (r: u64)
        ensures
            r == self@,
    {
        self.0
    }

    /// The id written in decimal.
    pub fn to_string(&self) -> (r: String)
        ensures
            r@ == u64_text(self@),
    {
        decimal_string(self.0)
    }
}

impl View for MergeRequestInternalId {
    type V = u64;

    closed spec fn view(&self) -> u64 {
        self.0
    }
}

/// The status of the possible merge for a merge request.
#[derive(Debug, Clone, Copy, PartialEq, Eq, Structural)]
pub enum MergeStatus {
    /// The merge request has not been checked yet.
    Unchecked,
    /// The merge request is currently being checked.
    Checking,
    /// The merge request may be merged.
    CanBeMerged,
    /// The merge request may not be merged yet.
    CannotBeMerged,
    /// The merge request has not been checked but previously could not be merged.
    CannotBeMergedRecheck,
    /// The merge request could not be merged previously, but is being rechecked.
    CannotBeMergedRechecking,
}

impl MergeStatus {
    /// The name of the variant, as Gitlab writes it.
    pub open spec fn spec_as_str(self) -> Seq<char> {
        match self {
            MergeStatus::Unchecked => "unchecked"@,
            MergeStatus::Checking => "checking"@,
            MergeStatus::CanBeMerged => "can_be_merged"@,
            MergeStatus::CannotBeMerged => "cannot_be_merged"@,
            MergeStatus::CannotBeMergedRecheck => "cannot_be_merged_recheck"@,
            MergeStatus::CannotBeMergedRechecking => "cannot_be_merged_rechecking"@,
        }
    }

    /// The variant that Gitlab means by `name`, if any.
    pub open spec fn spec_from_name(name: Seq<char>) -> Option<MergeStatus> {
        if name == "unchecked"@ {
            Some(MergeStatus::Unchecked)
        } else if name == "checking"@ {
            Some(MergeStatus::Checking)
        } else if name == "can_be_merged"@ {
            Some(MergeStatus::CanBeMerged)
        } else if name == "cannot_be_merged"@ {
            Some(MergeStatus::CannotBeMerged)
        } else if name == "cannot_be_merged_recheck"@ {
            Some(MergeStatus::CannotBeMergedRecheck)
        } else if name == "cannot_be_merged_rechecking"@ {
            Some(MergeStatus::CannotBeMergedRechecking)
        } else {
            None
        }
    }

    /// String representation of the variant.
    pub fn as_str(&self) -> (r: &'static str)
        ensures
            r@ == self.spec_as_str(),
    {
        match self {
            MergeStatus::Unchecked => "unchecked",
            MergeStatus::Checking => "checking",
            MergeStatus::CanBeMerged => "can_be_merged",
            MergeStatus::CannotBeMerged => "cannot_be_merged",
            MergeStatus::CannotBeMergedRecheck => "cannot_be_merged_recheck",
            MergeStatus::CannotBeMergedRechecking => "cannot_be_merged_rechecking",
        }
    }

    /// The variant that Gitlab means by `name`, if any.
    pub fn from_name(name: &str) -> (r: Option<MergeStatus>)
        ensures
            r == MergeStatus::spec_from_name(name@),
    {
        if str_eq(name, "unchecked") {
            Some(MergeStatus::Unchecked)
        } else if str_eq(name, "checking") {
            Some(MergeStatus::Checking)
        } else if str_eq(name, "can_be_merged") {
            Some(MergeStatus::CanBeMerged)
        } else if str_eq(name, "cannot_be_merged") {
            Some(MergeStatus::CannotBeMerged)
        } else if str_eq(name, "cannot_be_merged_recheck") {
            Some(MergeStatus::CannotBeMergedRecheck)
        } else if str_eq(name, "cannot_be_merged_rechecking") {
            Some(MergeStatus::CannotBeMergedRechecking)
        } else {
            None
        }
    }

    /// Reading the name of a variant gives the variant back.
    pub proof fn lemma_name_round_trip(self)
        ensures
            MergeStatus::spec_from_name(self.spec_as_str()) == Some(self),
    {
        reveal_strlit("unchecked");
        reveal_strlit("checking");
        reveal_strlit("can_be_merged");
        reveal_strlit("cannot_be_merged");
        reveal_strlit("cannot_be_merged_recheck");
        reveal_strlit("cannot_be_merged_rechecking");
        assert("unchecked"@.len() == 9);
        assert("checking"@.len() == 8);
        assert("can_be_merged"@.len() == 13);
        assert("cannot_be_merged"@.len() == 16);
        assert("cannot_be_merged_recheck"@.len() == 24);
        assert("cannot_be_merged_rechecking"@.len() == 27);
    }
}

/// The states a merge request may be in.
#[derive(Debug, Clone, Copy, PartialEq, Eq, Structural)]
pub enum MergeRequestState {
    /// The merge request is open.
    Opened,
    /// The merge request has been closed before merging.
    Closed,
    /// The merge request has been opened after closing.
    Reopened,
    /// The merge request has been merged.
    Merged,
    /// The merge request is locked from further discussion or updates.
    Locked,
}

impl MergeRequestState {
    /// The name of the variant, as Gitlab writes it.
    pub open spec fn spec_as_str(self) -> Seq<char> {
        match self {
            MergeRequestState::Opened => "opened"@,
            MergeRequestState::Closed => "closed"@,
            MergeRequestState::Reopened => "reopened"@,
            MergeRequestState::Merged => "merged"@,
            MergeRequestState::Locked => "locked"@,
        }
    }

    /// The variant that Gitlab means by `name`, if any.
    pub open spec fn spec_from_name(name: Seq<char>) -> Option<MergeRequestState> {
        if name == "opened"@ {
            Some(MergeRequestState::Opened)
        } else if name == "closed"@ {
            Some(MergeRequestState::Closed)
        } else if name == "reopened"@ {
            Some(MergeRequestState::Reopened)
        } else if name == "merged"@ {
            Some(MergeRequestState::Merged)
        } else if name == "locked"@ {
            Some(MergeRequestState::Locked)
        } else {
            None
        }
    }

    /// String representation of the variant.
    pub fn as_str(&self) -> (r: &'static str)
        ensures
            r@ == self.spec_as_str(),
    {
        match self {
            MergeRequestState::Opened => "opened",
            MergeRequestState::Closed => "closed",
            MergeRequestState::Reopened => "reopened",
            MergeRequestState::Merged => "merged",
            MergeRequestState::Locked => "locked",
        }
    }

    /// The variant that Gitlab means by `name`, if any.
    pub fn from_name(name: &str) -> (r: Option<MergeRequestState>)
        ensures
            r == MergeRequestState::spec_from_name(name@),
    {
        if str_eq(name, "opened") {
            Some(MergeRequestState::Opened)
        } else if str_eq(name, "closed") {
            Some(MergeRequestState::Closed)
        } else if str_eq(name, "reopened") {
            Some(MergeRequestState::Reopened)
        } else if str_eq(name, "merged") {
            Some(MergeRequestState::Merged)
        } else if str_eq(name, "locked") {
            Some(MergeRequestState::Locked)
        } else {
            None
        }
    }

    /// Reading the name of a variant gives the variant back.
    pub proof fn lemma_name_round_trip(self)
        ensures
            MergeRequestState::spec_from_name(self.spec_as_str()) == Some(self),
    {
        reveal_strlit("opened");
        reveal_strlit("closed");
        reveal_strlit("reopened");
        reveal_strlit("merged");
        reveal_strlit("locked");
        assert("opened"@.len() == 6);
        assert("closed"@.len() == 6);
        assert("reopened"@.len() == 8);
        assert("merged"@.len() == 6);
        assert("locked"@.len() == 6);
        assert("opened"@[0] == 'o');
        assert("closed"@[0] == 'c');
        assert("merged"@[0] == 'm');
        assert("locked"@[0] == 'l');
    }
}

/// Information about current user's access to the merge request.
#[derive(Debug, Clone)]
pub struct MergeRequestUser {
    /// Whether the current user can merge the MR.
    pub can_merge: bool,
}

/// A merge request.
#[derive(Debug, Clone)]
pub struct MergeRequest {
    /// The ID of the merge request.
    pub id: MergeRequestId,
    /// The user-visible ID of the merge request.
    pub iid: MergeRequestInternalId,
    /// The ID of the project.
    pub project_id: ProjectId,
    /// The title of the merge request.
    pub title: String,
    /// The description of the merge request.
    pub description: Option<String>,
    /// The state of the merge request.
    pub state: MergeRequestState,
    /// When the merge request was created.
    pub created_at: Timestamp,
    /// When the merge request was last updated.
    pub updated_at: Timestamp,
    /// When the merge request was merged.
    pub merged_at: Option<Timestamp>,
    /// When the merge request was closed.
    pub closed_at: Option<Timestamp>,
    /// The user that merged the merge request.
    pub merged_by: Option<UserBasic>,
    /// The user that closed the merge request.
    pub closed_by: Option<UserBasic>,
    /// The target branch of the merge request.
    pub target_branch: String,
    /// The source branch of the merge request.
    pub source_branch: String,
    /// The number of upvotes for the merge request.
    pub upvotes: u64,
    /// The number of downvotes against the merge request.
    pub downvotes: u64,
    /// The author of the merge request.
    pub author: UserBasic,
    /// The assignee of the merge request.
    pub assignee: Option<UserBasic>,
    /// The assignees of the merge request.
    pub assignees: Option<Vec<UserBasic>>,
    /// The ID of the project hosting the source branch.
    pub source_project_id: ProjectId,
    /// The ID of the project hosting the target branch.
    pub target_project_id: ProjectId,
    /// The labels attached to the merge request.
    pub labels: Vec<String>,
    /// Whether the merge request is a work-in-progress or not.
    pub work_in_progress: bool,
    /// Whether the merge request allows a maintainer to collaborate.
    pub allow_collaboration: Option<bool>,
    /// Whether the merge request allows a maintainer to push (deprecated).
    pub allow_maintainer_to_push: Option<bool>,
    /// The milestone of the merge request.
    pub milestone: Option<Milestone>,
    /// Whether to squash commits on merge.
    pub squash: bool,
    /// Whether the merge request will be merged once all pipelines succeed or not.
    pub merge_when_pipeline_succeeds: bool,
    /// The status of the merge request.
    pub merge_status: MergeStatus,
    /// The object ID of the head of the source branch.
    ///
    /// This is `None` if the source branch has been deleted.
    pub sha: Option<ObjectId>,
    /// The commits used to construct the merge request diffs.
    pub diff_refs: Option<DiffRefs>,
    /// Description of error if MR failed to merge.
    pub merge_error: Option<String>,
    /// Whether a rebase is in progress.
    pub rebase_in_progress: Option<bool>,
    /// The object ID of the commit which merged the merge request.
    pub merge_commit_sha: Option<ObjectId>,
    /// The object ID of the merge request squash commit.
    pub squash_commit_sha: Option<ObjectId>,
    /// Whether the current user is subscribed or not.
    /// GitLab does not include this in responses with lists of merge requests but
    /// does on an individual merge request.
    pub subscribed: Option<bool>,
    /// Time estimates.
    pub time_stats: IssuableTimeStats,
    /// Whether or not all blocking discussions are resolved.
    pub blocking_discussions_resolved: bool,
    /// The number of paths changed by the merge request.
    ///
    /// This is an integer suffixed by `+` if there are more files changed than some threshold
    /// (probably determined by a timeout).
    pub changes_count: Option<String>,
    /// The number of comments on the merge request.
    pub user_notes_count: u64,
    /// Whether the discussion has been locked.
    pub discussion_locked: Option<bool>,
    /// Whether the merge request should be deleted or not (set by the merger).
    pub should_remove_source_branch: Option<bool>,
    /// Whether the merge request should be deleted or not (set by the author).
    pub force_remove_source_branch: Option<bool>,
    /// Whether the merge request currently has conflicts with the target branch.
    pub has_conflicts: bool,
    /// Information about current user's access to the merge request.
    pub user: Option<MergeRequestUser>,
    /// The URL of the merge request.
    pub web_url: String,
    /// Basic pipeline information for the MR.
    pub pipeline: Option<PipelineBasic>,
}

/// A merge request with changes.
#[derive(Debug, Clone)]
pub struct MergeRequestChanges {
    /// The ID of the merge request.
    pub id: MergeRequestId,
    /// The user-visible ID of the merge request.
    pub iid: MergeRequestInternalId,
    /// The ID of the project.
    pub project_id: ProjectId,
    /// The title of the merge request.
    pub title: String,
    /// The description of the merge request.
    pub description: Option<String>,
    /// The state of the merge request.
    pub state: MergeRequestState,
    /// When the merge request was created.
    pub created_at: Timestamp,
    /// When the merge request was last updated.
    pub updated_at: Timestamp,
    /// When the merge request was merged.
    pub merged_at: Option<Timestamp>,
    /// When the merge request was closed.
    pub closed_at: Option<Timestamp>,
    /// The user that merged the merge request.
    pub merged_by: Option<UserBasic>,
    /// The user that closed the merge request.
    pub closed_by: Option<UserBasic>,
    /// The target branch of the merge request.
    pub target_branch: String,
    /// The source branch of the merge request.
    pub source_branch: String,
    /// The number of upvotes for the merge request.
    pub upvotes: u64,
    /// The number of downvotes against the merge request.
    pub downvotes: u64,
    /// The author of the merge request.
    pub author: UserBasic,
    /// The assignee of the merge request.
    pub assignee: Option<UserBasic>,
    /// The assignees of the merge request.
    pub assignees: Option<Vec<UserBasic>>,
    /// The ID of the project hosting the source branch.
    pub source_project_id: ProjectId,
    /// The ID of the project hosting the target branch.
    pub target_project_id: ProjectId,
    /// The labels attached to the merge request.
    pub labels: Vec<String>,
    /// Whether the merge request is a work-in-progress or not.
    pub work_in_progress: bool,
    /// Whether the merge request allows a maintainer to collaborate.
    pub allow_collaboration: Option<bool>,
    /// Whether the merge request allows a maintainer to push (deprecated).
    pub allow_maintainer_to_push: Option<bool>,
    /// The milestone of the merge request.
    pub milestone: Option<Milestone>,
    /// Whether to squash commits on merge.
    pub squash: bool,
    /// Whether the merge request will be merged once all jobs succeed or not.
    pub merge_when_pipeline_succeeds: bool,
    /// The status of the merge request.
    pub merge_status: MergeStatus,
    /// The object ID of the head of the source branch.
    ///
    /// This is `None` if the source branch has been deleted.
    pub sha: Option<ObjectId>,
    /// The commits used to construct the merge request diffs.
    pub diff_refs: Option<DiffRefs>,
    /// Description of error if MR failed to merge.
    pub merge_error: Option<String>,
    /// Whether a rebase is in progress.
    pub rebase_in_progress: Option<bool>,
    /// The object ID of the commit which merged the merge request.
    pub merge_commit_sha: Option<ObjectId>,
    /// The object ID of the merge request squash commit.
    pub squash_commit_sha: Option<ObjectId>,
    /// GitLab does not include this in responses with lists of merge requests but
    /// does on an individual merge request.
    pub subscribed: Option<bool>,
    /// Time estimates.
    pub time_stats: IssuableTimeStats,
    /// Whether or not all blocking discussions are resolved.
    pub blocking_discussions_resolved: bool,
    /// The number of paths changed by the merge request.
    pub changes_count: Option<String>,
    /// The number of comments on the merge request.
    pub user_notes_count: u64,
    /// Whether the discussion has been locked.
    pub discussion_locked: Option<bool>,
    /// Whether the merge request should be deleted or not (set by the merger).
    pub should_remove_source_branch: Option<bool>,
    /// Whether the merge request should be deleted or not (set by the author).
    pub force_remove_source_branch: Option<bool>,
    /// Whether the merge request currently has conflicts with the target branch.
    pub has_conflicts: bool,
    /// Information about current user's access to the merge request.
    pub user: MergeRequestUser,
    /// The URL of the merge request.
    pub web_url: String,
    /// Basic pipeline information for the MR.
    pub pipeline: Option<PipelineBasic>,
    pub changes: Vec<RepoDiff>,
}

/// param to create a merge request.
#[derive(Debug, Clone, Default)]
pub struct CreateMergeRequestParams {
    /// The source branch on source project
    pub source_branch: String,
    /// The target branch
    pub target_branch: String,
    /// Title of MR
    pub title: String,
    /// assignee user ID
    pub assignee_id: Option<UserId>,
    /// The ID of the user(s) to assign the MR to.
    /// Set to 0 or provide an empty value to unassign all assignees.
    pub assignee_ids: Option<Vec<UserId>>,
    /// Description of MR
    pub description: Option<String>,
    /// The target project (numeric id) if different from source project
    pub target_project_id: Option<ProjectId>,
    /// Labels for MR as a comma-separated list
    pub labels: Option<String>,
    /// The global ID of a milestone
    pub milestone_id: Option<MilestoneId>,
    /// Flag indicating if a merge request should remove the source branch when merging
    pub remove_source_branch: Option<bool>,
    /// Allow commits from members who can merge to the target branch
    pub allow_collaboration: Option<bool>,
    /// Squash commits into a single commit when merging
    pub squash: Option<bool>,
}

/// Type-safe SSH key ID.
#[derive(Debug, Clone, Copy, Hash, PartialEq, Eq, Structural, PartialOrd, Ord)]
pub struct SshKeyId(u64);

impl SshKeyId {
    /// Create a new id.
    pub fn new(id: u64) -> (r: Self)
        ensures
            r@ == id,
    {
        SshKeyId(id)
    }

    /// The value of the id.
    pub fn value(&self) -> (r: u64)
        ensures
            r == self@,
    {
        self.0
    }

    /// The id written in decimal.
    pub fn to_string(&self) -> (r: String)
        ensures
            r@ == u64_text(self@),
    {
        decimal_string(self.0)
    }
}

impl View for SshKeyId {
    type V = u64;

    closed spec fn view(&self) -> u64 {
        self.0
    }
}

/// An uploaded SSH key.
#[derive(Debug, Clone)]
pub struct SshKey {
    /// The ID of the SSH key.
    pub id: SshKeyId,
    /// The title of the key.
    pub title: String,
    /// The public half of the SSH key.
    pub key: String,
    /// When the key was created.
    pub created_at: Timestamp,
    /// Whether the key may push to repositories or not.
    pub can_push: bool,
}

/// An uploaded SSH key with its owner.
#[derive(Debug, Clone)]
pub struct SshKeyWithUser {
    /// The ID of the SSH key.
    pub id: SshKeyId,
    /// The title of the key.
    pub title: String,
    /// The public half of the SSH key.
    pub key: String,
    /// When the key was created.
    pub created_at: Timestamp,
    /// The user associated with the SSH key.
    pub user: UserPublic,
}

/// The entities a note may be added to.
#[derive(Debug, Clone, Copy, PartialEq, Eq, Structural)]
pub enum NoteType {
    /// A note on a commit.
    Commit,
    /// A note on an issue.
    Issue,
    /// A note on a merge request.
    MergeRequest,
    /// A note on a snippet.
    Snippet,
}

impl NoteType {
    /// The name of the variant, as Gitlab writes it.
    pub open spec fn spec_as_str(self) -> Seq<char> {
        match self {
            NoteType::Commit => "Commit"@,
            NoteType::Issue => "Issue"@,
            NoteType::MergeRequest => "MergeRequest"@,
            NoteType::Snippet => "Snippet"@,
        }
    }

    /// The variant that Gitlab means by `name`, if any.
    pub open spec fn spec_from_name(name: Seq<char>) -> Option<NoteType> {
        if name == "Commit"@ {
            Some(NoteType::Commit)
        } else if name == "Issue"@ {
            Some(NoteType::Issue)
        } else if name == "MergeRequest"@ {
            Some(NoteType::MergeRequest)
        } else if name == "Snippet"@ {
            Some(NoteType::Snippet)
        } else {
            None
        }
    }

    /// String representation of the variant.
    pub fn as_str(&self) -> (r: &'static str)
        ensures
            r@ == self.spec_as_str(),
    {
        match self {
            NoteType::Commit => "Commit",
            NoteType::Issue => "Issue",
            NoteType::MergeRequest => "MergeRequest",
            NoteType::Snippet => "Snippet",
        }
    }

    /// The variant that Gitlab means by `name`, if any.
    pub fn from_name(name: &str) -> (r: Option<NoteType>)
        ensures
            r == NoteType::spec_from_name(name@),
    {
        if str_eq(name, "Commit") {
            Some(NoteType::Commit)
        } else if str_eq(name, "Issue") {
            Some(NoteType::Issue)
        } else if str_eq(name, "MergeRequest") {
            Some(NoteType::MergeRequest)
        } else if str_eq(name, "Snippet") {
            Some(NoteType::Snippet)
        } else {
            None
        }
    }

    /// Reading the name of a variant gives the variant back.
    pub proof fn lemma_name_round_trip(self)
        ensures
            NoteType::spec_from_name(self.spec_as_str()) == Some(self),
    {
        reveal_strlit("Commit");
        reveal_strlit("Issue");
        reveal_strlit("MergeRequest");
        reveal_strlit("Snippet");
        assert("Commit"@.len() == 6);
        assert("Issue"@.len() == 5);
        assert("MergeRequest"@.len() == 12);
        assert("Snippet"@.len() == 7);
    }
}

/// The various types a note can have
#[derive(Debug, Clone, Copy, PartialEq, Eq, Structural)]
pub enum DiscussionNoteType {
    /// A note in a standard discussion
    DiscussionNote,
    /// A note attached to a diff
    DiffNote,
}

impl DiscussionNoteType {
    /// The name of the variant, as Gitlab writes it.
    pub open spec fn spec_as_str(self) -> Seq<char> {
        match self {
            DiscussionNoteType::DiscussionNote => "DiscussionNote"@,
            DiscussionNoteType::DiffNote => "DiffNote"@,
        }
    }

    /// The variant that Gitlab means by `name`, if any.
    pub open spec fn spec_from_name(name: Seq<char>) -> Option<DiscussionNoteType> {
        if name == "DiscussionNote"@ {
            Some(DiscussionNoteType::DiscussionNote)
        } else if name == "DiffNote"@ {
            Some(DiscussionNoteType::DiffNote)
        } else {
            None
        }
    }

    /// String representation of the variant.
    pub fn as_str(&self) -> (r: &'static str)
        ensures
            r@ == self.spec_as_str(),
    {
        match self {
            DiscussionNoteType::DiscussionNote => "DiscussionNote",
            DiscussionNoteType::DiffNote => "DiffNote",
        }
    }

    /// The variant that Gitlab means by `name`, if any.
    pub fn from_name(name: &str) -> (r: Option<DiscussionNoteType>)
        ensures
            r == DiscussionNoteType::spec_from_name(name@),
    {
        if str_eq(name, "DiscussionNote") {
            Some(DiscussionNoteType::DiscussionNote)
        } else if str_eq(name, "DiffNote") {
            Some(DiscussionNoteType::DiffNote)
        } else {
            None
        }
    }

    /// Reading the name of a variant gives the variant back.
    pub proof fn lemma_name_round_trip(self)
        ensures
            DiscussionNoteType::spec_from_name(self.spec_as_str()) == Some(self),
    {
        reveal_strlit("DiscussionNote");
        reveal_strlit("DiffNote");
        assert("DiscussionNote"@.len() == 14);
        assert("DiffNote"@.len() == 8);
    }
}

/// The ID of an entity a note is attached to.
#[derive(Debug, Clone, PartialEq, Eq)]
pub enum NoteableId {
    /// The ID of the commit for a commit note.
    Commit(ObjectId),
    /// The ID of the issue for an issue note.
    Issue(IssueId),
    /// The ID of the merge request for a merge request note.
    MergeRequest(MergeRequestId),
    /// The ID of the snippet for a snippet note.
    Snippet(SnippetId),
}

/// The internal ID of an entity a note is attached to (internal to a project).
/// GitLab only has this for notes attached to issues and merge requests.
#[derive(Debug, Clone, PartialEq, Eq, Structural)]
pub enum NoteableInternalId {
    /// The internal ID of the issue for an issue note.
    Issue(IssueInternalId),
    /// The internal ID of the merge request for a merge request note.
    MergeRequest(MergeRequestInternalId),
}

/// Type-safe note (comment) ID.
#[derive(Debug, Clone, Copy, Hash, PartialEq, Eq, Structural, PartialOrd, Ord)]
pub struct NoteId(u64);

impl NoteId {
    /// Create a new id.
    pub fn new(id: u64) -> (r: Self)
        ensures
            r@ == id,
    {
        NoteId(id)
    }

    /// The value of the id.
    pub fn value(&self) -> (r: u64)
        ensures
            r == self@,
    {
        self.0
    }

    /// The id written in decimal.
    pub fn to_string(&self) -> (r: String)
        ensures
            r@ == u64_text(self@),
    {
        decimal_string(self.0)
    }
}

impl View for NoteId {
    type V = u64;

    closed spec fn view(&self) -> u64 {
        self.0
    }
}

/// A note can be attached to text or an image
#[derive(Debug, Clone, PartialEq, Eq, Structural)]
pub enum NotePositionType {
    Text,
    Image,
}

impl NotePositionType {
    /// The name of the variant, as Gitlab writes it.
    pub open spec fn spec_as_str(self) -> Seq<char> {
        match self {
            NotePositionType::Text => "text"@,
            NotePositionType::Image => "image"@,
        }
    }

    /// The variant that Gitlab means by `name`, if any.
    pub open spec fn spec_from_name(name: Seq<char>) -> Option<NotePositionType> {
        if name == "text"@ {
            Some(NotePositionType::Text)
        } else if name == "image"@ {
            Some(NotePositionType::Image)
        } else {
            None
        }
    }

    /// String representation of the variant.
    pub fn as_str(&self) -> (r: &'static str)
        ensures
            r@ == self.spec_as_str(),
    {
        match self {
            NotePositionType::Text => "text",
            NotePositionType::Image => "image",
        }
    }

    /// The variant that Gitlab means by `name`, if any.
    pub fn from_name(name: &str) -> (r: Option<NotePositionType>)
        ensures
            r == NotePositionType::spec_from_name(name@),
    {
        if str_eq(name, "text") {
            Some(NotePositionType::Text)
        } else if str_eq(name, "image") {
            Some(NotePositionType::Image)
        } else {
            None
        }
    }

    /// Reading the name of a variant gives the variant back.
    pub proof fn lemma_name_round_trip(self)
        ensures
            NotePositionType::spec_from_name(self.spec_as_str()) == Some(self),
    {
        reveal_strlit("text");
        reveal_strlit("image");
        assert("text"@.len() == 4);
        assert("image"@.len() == 5);
    }
}

/// When a note is against a diff, the position of the note
#[derive(Debug, Clone)]
pub struct NotePosition {
    /// Base commit in the source branch
    pub base_sha: ObjectId,
    /// SHA referencing the commit in the target branch
    pub start_sha: ObjectId,
    /// The HEAD of the merge request
    pub head_sha: ObjectId,
    /// Whether this note is against text or image
    /// FIXME: image not supported yet.
    pub position_type: NotePositionType,
    /// File path before change
    pub old_path: String,
    /// File path after change
    pub new_path: String,
    /// Line number before the change
    pub old_line: Option<u64>,
    /// Line number after the change
    pub new_line: Option<u64>,
}

/// A comment on an entity.
#[derive(Debug, Clone)]
pub struct Note {
    /// The ID of the note.
    pub id: NoteId,
    /// The type of the note.
    pub note_type: Option<DiscussionNoteType>,
    /// The content of the note.
    pub body: String,
    /// The URL of an attachment to the note.
    pub attachment: Option<String>,
    /// The author of the note.
    pub author: UserBasic,
    /// When the note was created.
    pub created_at: Timestamp,
    /// When the note was last updated.
    pub updated_at: Timestamp,
    /// Whether the note can be resolved.
    pub resolvable: bool,
    /// Whether the note has been resolved.
    pub resolved: Option<bool>,
    /// The user that resolved the note.
    pub resolved_by: Option<UserBasic>,
    /// Whether the note was created by a user or in response to an external action.
    ///
    /// System notes include indications that the commit, issue, etc. was referenced elsewhere, a
    /// milestone, assignee, or label change, status chages, and so on.
    pub system: bool,
    pub noteable_id: JsonValue,
    pub noteable_iid: Option<JsonValue>,
    /// The type of entity the note is attached to.
    pub noteable_type: NoteType,
    /// If applicable, the diff data to which the note is attached
    pub position: Option<NotePosition>,
}

/// A threaded discussion
#[derive(Debug, Clone)]
pub struct Discussion {
    /// The discussion ID, a SHA hash
    pub id: ObjectId,
    /// True if the discussion only holds one note.
    pub individual_note: bool,
    /// The discussion notes
    pub notes: Vec<Note>,
}

/// Type-safe award ID.
#[derive(Debug, Clone, Copy, Hash, PartialEq, Eq, Structural, PartialOrd, Ord)]
pub struct AwardId(u64);

impl AwardId {
    /// Create a new id.
    pub fn new(id: u64) -> (r: Self)
        ensures
            r@ == id,
    {
        AwardId(id)
    }

    /// The value of the id.
    pub fn value(&self) -> (r: u64)
        ensures
            r == self@,
    {
        self.0
    }

    /// The id written in decimal.
    pub fn to_string(&self) -> (r: String)
        ensures
            r@ == u64_text(self@),
    {
        decimal_string(self.0)
    }
}

impl View for AwardId {
    type V = u64;

    closed spec fn view(&self) -> u64 {
        self.0
    }
}

/// An ID of an entity which may receive an award.
#[derive(Debug, Clone, Copy, PartialEq, Eq, Structural)]
pub enum AwardableId {
    /// The ID of an awarded issue.
    Issue(IssueId),
    /// The ID of an awarded merge request.
    MergeRequest(MergeRequestId),
    /// The ID of an awarded snippet.
    Snippet(SnippetId),
    /// The ID of an awarded note.
    Note(NoteId),
}

/// The entities which may be awarded.
#[derive(Debug, Clone, Copy, PartialEq, Eq, Structural)]
pub enum AwardableType {
    /// An award on an issue.
    Issue,
    /// An award on a merge request.
    MergeRequest,
    /// An award on a snippet.
    Snippet,
    /// An award on a note.
    Note,
}

impl AwardableType {
    /// The name of the variant, as Gitlab writes it.
    pub open spec fn spec_as_str(self) -> Seq<char> {
        match self {
            AwardableType::Issue => "Issue"@,
            AwardableType::MergeRequest => "MergeRequest"@,
            AwardableType::Snippet => "Snippet"@,
            AwardableType::Note => "Note"@,
        }
    }

    /// The variant that Gitlab means by `name`, if any.
    pub open spec fn spec_from_name(name: Seq<char>) -> Option<AwardableType> {
        if name == "Issue"@ {
            Some(AwardableType::Issue)
        } else if name == "MergeRequest"@ {
            Some(AwardableType::MergeRequest)
        } else if name == "Snippet"@ {
            Some(AwardableType::Snippet)
        } else if name == "Note"@ {
            Some(AwardableType::Note)
        } else {
            None
        }
    }

    /// String representation of the variant.
    pub fn as_str(&self) -> (r: &'static str)
        ensures
            r@ == self.spec_as_str(),
    {
        match self {
            AwardableType::Issue => "Issue",
            AwardableType::MergeRequest => "MergeRequest",
            AwardableType::Snippet => "Snippet",
            AwardableType::Note => "Note",
        }
    }

    /// The variant that Gitlab means by `name`, if any.
    pub fn from_name(name: &str) -> (r: Option<AwardableType>)
        ensures
            r == AwardableType::spec_from_name(name@),
    {
        if str_eq(name, "Issue") {
            Some(AwardableType::Issue)
        } else if str_eq(name, "MergeRequest") {
            Some(AwardableType::MergeRequest)
        } else if str_eq(name, "Snippet") {
            Some(AwardableType::Snippet)
        } else if str_eq(name, "Note") {
            Some(AwardableType::Note)
        } else {
            None
        }
    }

    /// Reading the name of a variant gives the variant back.
    pub proof fn lemma_name_round_trip(self)
        ensures
            AwardableType::spec_from_name(self.spec_as_str()) == Some(self),
    {
        reveal_strlit("Issue");
        reveal_strlit("MergeRequest");
        reveal_strlit("Snippet");
        reveal_strlit("Note");
        assert("Issue"@.len() == 5);
        assert("MergeRequest"@.len() == 12);
        assert("Snippet"@.len() == 7);
        assert("Note"@.len() == 4);
    }
}

/// An awarded emoji on an entity.
#[derive(Debug, Clone)]
pub struct AwardEmoji {
    /// The ID of the award.
    pub id: AwardId,
    /// The name of the awarded emoji.
    pub name: String,
    /// The user which created the award.
    pub user: UserBasic,
    /// When the award was created.
    pub created_at: Timestamp,
    /// When the award was last updated.
    pub updated_at: Timestamp,
    pub awardable_id: u64,
    /// The type of entity that is awarded.
    pub awardable_type: AwardableType,
}

/// The type of line commented on.
#[derive(Debug, Clone, Copy, PartialEq, Eq, Structural)]
pub enum LineType {
    /// An added line was commented on.
    New,
    /// An deleted line was commented on.
    Old,
}

impl LineType {
    /// The name of the variant, as Gitlab writes it.
    pub open spec fn spec_as_str(self) -> Seq<char> {
        match self {
            LineType::New => "new"@,
            LineType::Old => "old"@,
        }
    }

    /// The variant that Gitlab means by `name`, if any.
    pub open spec fn spec_from_name(name: Seq<char>) -> Option<LineType> {
        if name == "new"@ {
            Some(LineType::New)
        } else if name == "old"@ {
            Some(LineType::Old)
        } else {
            None
        }
    }

    /// String representation of the variant.
    pub fn as_str(&self) -> (r: &'static str)
        ensures
            r@ == self.spec_as_str(),
    {
        match self {
            LineType::New => "new",
            LineType::Old => "old",
        }
    }

    /// The variant that Gitlab means by `name`, if any.
    pub fn from_name(name: &str) -> (r: Option<LineType>)
        ensures
            r == LineType::spec_from_name(name@),
    {
        if str_eq(name, "new") {
            Some(LineType::New)
        } else if str_eq(name, "old") {
            Some(LineType::Old)
        } else {
            None
        }
    }

    /// Reading the name of a variant gives the variant back.
    pub proof fn lemma_name_round_trip(self)
        ensures
            LineType::spec_from_name(self.spec_as_str()) == Some(self),
    {
        reveal_strlit("new");
        reveal_strlit("old");
        assert("new"@.len() == 3);
        assert("old"@.len() == 3);
        assert("new"@[0] == 'n');
        assert("old"@[0] == 'o');
    }
}

/// A note on a commit diff.
#[derive(Debug, Clone)]
pub struct CommitNote {
    /// The content of the note.
    pub note: String,
    /// The path of the file commented on.
    pub path: Option<String>,
    /// The line of the file commented on.
    pub line: Option<u64>,
    /// The type of the line commented on.
    pub line_type: Option<LineType>,
    /// The author of the note.
    pub author: UserBasic,
    /// When the note was created.
    pub created_at: Timestamp,
}

/// Type-safe commit status ID.
#[derive(Debug, Clone, Copy, Hash, PartialEq, Eq, Structural, PartialOrd, Ord)]
pub struct CommitStatusId(u64);

impl CommitStatusId {
    /// Create a new id.
    pub fn new(id: u64) -> (r: Self)
        ensures
            r@ == id,
    {
        CommitStatusId(id)
    }

    /// The value of the id.
    pub fn value(&self) -> (r: u64)
        ensures
            r == self@,
    {
        self.0
    }

    /// The id written in decimal.
    pub fn to_string(&self) -> (r: String)
        ensures
            r@ == u64_text(self@),
    {
        decimal_string(self.0)
    }
}

impl View for CommitStatusId {
    type V = u64;

    closed spec fn view(&self) -> u64 {
        self.0
    }
}

/// States for commit statuses.
#[derive(Debug, Clone, Copy, PartialEq, Eq, Structural)]
pub enum StatusState {
    /// The check was created.
    Created,
    /// The check is queued.
    Pending,
    /// The check is currently running.
    Running,
    /// The check succeeded.
    Success,
    /// The check failed.
    Failed,
    /// The check was canceled.
    Canceled,
    /// The check was skipped.
    Skipped,
    /// The check is waiting for manual action.
    Manual,
}

impl StatusState {
    /// The name of the variant, as Gitlab writes it.
    pub open spec fn spec_as_str(self) -> Seq<char> {
        match self {
            StatusState::Created => "created"@,
            StatusState::Pending => "pending"@,
            StatusState::Running => "running"@,
            StatusState::Success => "success"@,
            StatusState::Failed => "failed"@,
            StatusState::Canceled => "canceled"@,
            StatusState::Skipped => "skipped"@,
            StatusState::Manual => "manual"@,
        }
    }

    /// The variant that Gitlab means by `name`, if any.
    pub open spec fn spec_from_name(name: Seq<char>) -> Option<StatusState> {
        if name == "created"@ {
            Some(StatusState::Created)
        } else if name == "pending"@ {
            Some(StatusState::Pending)
        } else if name == "running"@ {
            Some(StatusState::Running)
        } else if name == "success"@ {
            Some(StatusState::Success)
        } else if name == "failed"@ {
            Some(StatusState::Failed)
        } else if name == "canceled"@ {
            Some(StatusState::Canceled)
        } else if name == "skipped"@ {
            Some(StatusState::Skipped)
        } else if name == "manual"@ {
            Some(StatusState::Manual)
        } else {
            None
        }
    }

    /// String representation of the variant.
    pub fn as_str(&self) -> (r: &'static str)
        ensures
            r@ == self.spec_as_str(),
    {
        match self {
            StatusState::Created => "created",
            StatusState::Pending => "pending",
            StatusState::Running => "running",
            StatusState::Success => "success",
            StatusState::Failed => "failed",
            StatusState::Canceled => "canceled",
            StatusState::Skipped => "skipped",
            StatusState::Manual => "manual",
        }
    }

    /// The variant that Gitlab means by `name`, if any.
    pub fn from_name(name: &str) -> (r: Option<StatusState>)
        ensures
            r == StatusState::spec_from_name(name@),
    {
        if str_eq(name, "created") {
            Some(StatusState::Created)
        } else if str_eq(name, "pending") {
            Some(StatusState::Pending)
        } else if str_eq(name, "running") {
            Some(StatusState::Running)
        } else if str_eq(name, "success") {
            Some(StatusState::Success)
        } else if str_eq(name, "failed") {
            Some(StatusState::Failed)
        } else if str_eq(name, "canceled") {
            Some(StatusState::Canceled)
        } else if str_eq(name, "skipped") {
            Some(StatusState::Skipped)
        } else if str_eq(name, "manual") {
            Some(StatusState::Manual)
        } else {
            None
        }
    }

    /// Reading the name of a variant gives the variant back.
    pub proof fn lemma_name_round_trip(self)
        ensures
            StatusState::spec_from_name(self.spec_as_str()) == Some(self),
    {
        reveal_strlit("created");
        reveal_strlit("pending");
        reveal_strlit("running");
        reveal_strlit("success");
        reveal_strlit("failed");
        reveal_strlit("canceled");
        reveal_strlit("skipped");
        reveal_strlit("manual");
        assert("created"@.len() == 7);
        assert("pending"@.len() == 7);
        assert("running"@.len() == 7);
        assert("success"@.len() == 7);
        assert("failed"@.len() == 6);
        assert("canceled"@.len() == 8);
        assert("skipped"@.len() == 7);
        assert("manual"@.len() == 6);
        assert("created"@[0] == 'c');
        assert("pending"@[0] == 'p');
        assert("running"@[0] == 'r');
        assert("success"@[0] == 's');
        assert("skipped"@[0] == 's');
        assert("success"@[1] == 'u');
        assert("skipped"@[1] == 'k');
        assert("failed"@[0] == 'f');
        assert("manual"@[0] == 'm');
    }
}

/// A status of a commit.
#[derive(Debug, Clone)]
pub struct CommitStatus {
    /// The ID of the commit status.
    pub id: CommitStatusId,
    /// The object ID of the commit this status is for.
    pub sha: ObjectId,
    /// The name of the reference the status was created for.
    pub ref_: Option<String>,
    /// The state of the commit status.
    pub status: StatusState,
    /// The name of the commit status.
    pub name: String,
    /// The URL associated with the commit status.
    pub target_url: Option<String>,
    /// The description of the commit status.
    pub description: Option<String>,
    /// When the commit status was created.
    pub created_at: Timestamp,
    /// When the commit status started.
    pub started_at: Option<Timestamp>,
    /// When the commit status completed.
    pub finished_at: Option<Timestamp>,
    /// Whether the commit status is allowed to fail.
    pub allow_failure: bool,
    pub coverage: Option<String>,
    /// The author of the commit status.
    pub author: UserBasic,
}

/// Type-safe environment ID.
#[derive(Debug, Clone, Copy, PartialEq, Eq, Structural, Hash, PartialOrd, Ord)]
pub struct EnvironmentId(u64);

impl EnvironmentId {
    /// Create a new id.
    pub fn new(id: u64) -> (r: Self)
        ensures
            r@ == id,
    {
        EnvironmentId(id)
    }

    /// The value of the id.
    pub fn value(&self) -> (r: u64)
        ensures
            r == self@,
    {
        self.0
    }

    /// The id written in decimal.
    pub fn to_string(&self) -> (r: String)
        ensures
            r@ == u64_text(self@),
    {
        decimal_string(self.0)
    }
}

impl View for EnvironmentId {
    type V = u64;

    closed spec fn view(&self) -> u64 {
        self.0
    }
}

#[derive(Debug, Clone)]
pub struct Environment {
    pub id: EnvironmentId,
    pub name: String,
    pub slug: String,
    pub external_url: Option<String>,
    pub state: Option<String>,
    pub last_deployment: Option<Deployment>,
}

/// Type-safe deployment ID.
#[derive(Debug, Clone, Copy, PartialEq, Eq, Structural, Hash, PartialOrd, Ord)]
pub struct DeploymentId(u64);

impl DeploymentId {
    /// Create a new id.
    pub fn new(id: u64) -> (r: Self)
        ensures
            r@ == id,
    {
        DeploymentId(id)
    }

    /// The value of the id.
    pub fn value(&self) -> (r: u64)
        ensures
            r == self@,
    {
        self.0
    }

    /// The id written in decimal.
    pub fn to_string(&self) -> (r: String)
        ensures
            r@ == u64_text(self@),
    {
        decimal_string(self.0)
    }
}

impl View for DeploymentId {
    type V = u64;

    closed spec fn view(&self) -> u64 {
        self.0
    }
}

#[derive(Debug, Clone)]
pub struct Deployment {
    pub id: DeploymentId,
    pub iid: u64,
    pub ref_: String,
    pub sha: String,
    pub created_at: String,
    pub status: Option<String>,
    pub user: UserBasic,
    pub deployable: Deployable,
}

#[derive(Debug, Clone)]
pub struct Deployable {
    pub commit: Commit,
    pub status: Option<String>,
}

#[derive(Debug, Clone)]
pub struct Commit {
    pub id: Option<String>,
    pub short_id: Option<String>,
    pub created_at: Option<String>,
    pub title: Option<String>,
}

/// The target of an event.
#[derive(Debug, Clone, Copy, PartialEq, Eq, Structural)]
pub enum EventTargetType {
    /// An event targeted a commit.
    Commit,
    /// An event targeted an issue.
    Issue,
    /// An event targeted a merge request.
    MergeRequest,
    /// An event targeted a snippet.
    Snippet,
    /// An event targeted a project snippet.
    ProjectSnippet,
}

impl EventTargetType {
    /// The name of the variant, as Gitlab writes it.
    pub open spec fn spec_as_str(self) -> Seq<char> {
        match self {
            EventTargetType::Commit => "commit"@,
            EventTargetType::Issue => "issue"@,
            EventTargetType::MergeRequest => "merge_request"@,
            EventTargetType::Snippet => "snippet"@,
            EventTargetType::ProjectSnippet => "project_snippet"@,
        }
    }

    /// The variant that Gitlab means by `name`, if any.
    pub open spec fn spec_from_name(name: Seq<char>) -> Option<EventTargetType> {
        if name == "commit"@ {
            Some(EventTargetType::Commit)
        } else if name == "issue"@ {
            Some(EventTargetType::Issue)
        } else if name == "merge_request"@ {
            Some(EventTargetType::MergeRequest)
        } else if name == "snippet"@ {
            Some(EventTargetType::Snippet)
        } else if name == "project_snippet"@ {
            Some(EventTargetType::ProjectSnippet)
        } else {
            None
        }
    }

    /// String representation of the variant.
    pub fn as_str(&self) -> (r: &'static str)
        ensures
            r@ == self.spec_as_str(),
    {
        match self {
            EventTargetType::Commit => "commit",
            EventTargetType::Issue => "issue",
            EventTargetType::MergeRequest => "merge_request",
            EventTargetType::Snippet => "snippet",
            EventTargetType::ProjectSnippet => "project_snippet",
        }
    }

    /// The variant that Gitlab means by `name`, if any.
    pub fn from_name(name: &str) -> (r: Option<EventTargetType>)
        ensures
            r == EventTargetType::spec_from_name(name@),
    {
        if str_eq(name, "commit") {
            Some(EventTargetType::Commit)
        } else if str_eq(name, "issue") {
            Some(EventTargetType::Issue)
        } else if str_eq(name, "merge_request") {
            Some(EventTargetType::MergeRequest)
        } else if str_eq(name, "snippet") {
            Some(EventTargetType::Snippet)
        } else if str_eq(name, "project_snippet") {
            Some(EventTargetType::ProjectSnippet)
        } else {
            None
        }
    }

    /// Reading the name of a variant gives the variant back.
    pub proof fn lemma_name_round_trip(self)
        ensures
            EventTargetType::spec_from_name(self.spec_as_str()) == Some(self),
    {
        reveal_strlit("commit");
        reveal_strlit("issue");
        reveal_strlit("merge_request");
        reveal_strlit("snippet");
        reveal_strlit("project_snippet");
        assert("commit"@.len() == 6);
        assert("issue"@.len() == 5);
        assert("merge_request"@.len() == 13);
        assert("snippet"@.len() == 7);
        assert("project_snippet"@.len() == 15);
    }
}

/// The ID of an event target.
#[derive(Debug, Clone, PartialEq, Eq)]
pub enum EventTargetId {
    /// The object ID of a commit event target.
    Commit(ObjectId),
    /// The ID of an issue event target.
    Issue(IssueId),
    /// The ID of a merge request event target.
    MergeRequest(MergeRequestId),
    /// The ID of a snippet event target.
    Snippet(SnippetId),
}

/// An event on a project.
#[derive(Debug, Clone)]
pub struct Event {
    /// The title of the event.
    pub title: Option<String>,
    /// The ID of the project.
    pub project_id: ProjectId,
    /// The action which triggered the event.
    pub action_name: String,
    pub target_id: JsonValue,
    /// The type of the event target.
    pub target_type: EventTargetType,
    /// The ID of the author of the event.
    pub author_id: UserId,
    pub data: Option<JsonValue>,
    /// The title of the target.
    pub target_title: String,
    /// When the event was created.
    pub created_at: Timestamp,
    pub note: Option<Note>,
    /// The author of the event.
    pub author: Option<UserBasic>,
    /// The handle of the author.
    pub author_username: Option<String>,
}

/// The kinds of namespaces supported by Gitlab.
#[derive(Debug, Clone, Copy, PartialEq, Eq, Structural)]
pub enum NamespaceKind {
    /// A user namespace.
    User,
    /// A group namespace.
    Group,
}

impl NamespaceKind {
    /// The name of the variant, as Gitlab writes it.
    pub open spec fn spec_as_str(self) -> Seq<char> {
        match self {
            NamespaceKind::User => "user"@,
            NamespaceKind::Group => "group"@,
        }
    }

    /// The variant that Gitlab means by `name`, if any.
    pub open spec fn spec_from_name(name: Seq<char>) -> Option<NamespaceKind> {
        if name == "user"@ {
            Some(NamespaceKind::User)
        } else if name == "group"@ {
            Some(NamespaceKind::Group)
        } else {
            None
        }
    }

    /// String representation of the variant.
    pub fn as_str(&self) -> (r: &'static str)
        ensures
            r@ == self.spec_as_str(),
    {
        match self {
            NamespaceKind::User => "user",
            NamespaceKind::Group => "group",
        }
    }

    /// The variant that Gitlab means by `name`, if any.
    pub fn from_name(name: &str) -> (r: Option<NamespaceKind>)
        ensures
            r == NamespaceKind::spec_from_name(name@),
    {
        if str_eq(name, "user") {
            Some(NamespaceKind::User)
        } else if str_eq(name, "group") {
            Some(NamespaceKind::Group)
        } else {
            None
        }
    }

    /// Reading the name of a variant gives the variant back.
    pub proof fn lemma_name_round_trip(self)
        ensures
            NamespaceKind::spec_from_name(self.spec_as_str()) == Some(self),
    {
        reveal_strlit("user");
        reveal_strlit("group");
        assert("user"@.len() == 4);
        assert("group"@.len() == 5);
    }
}

/// The ID of a namespace.
#[derive(Debug, Clone, Copy, PartialEq, Eq, Structural)]
pub enum NamespaceId {
    /// A user namespace ID.
    User(UserId),
    /// A group namespace ID.
    Group(GroupId),
}

/// An entity which can own projects.
#[derive(Debug, Clone)]
pub struct Namespace {
    pub id: u64,
    /// The URL of the namespace.
    pub path: String,
    /// The name of the namespace.
    pub name: String,
    /// The kind of the namespace.
    pub kind: NamespaceKind,
    pub full_path: String,
    /// Number of members in the namespace and its descendants.
    ///
    /// Only available when talking to GitLab as a user that can admin the namespace.
    pub members_count_with_descendants: Option<u64>,
    /// The URL of the user's avatar if namespace is a user.
    pub avatar_url: Option<String>,
    /// The URL to the namespace page (user or group).
    pub web_url: String,
}

/// Type-safe runner ID.
#[derive(Debug, Clone, Copy, Hash, PartialEq, Eq, Structural, PartialOrd, Ord)]
pub struct RunnerId(u64);

impl RunnerId {
    /// Create a new id.
    pub fn new(id: u64) -> (r: Self)
        ensures
            r@ == id,
    {
        RunnerId(id)
    }

    /// The value of the id.
    pub fn value(&self) -> (r: u64)
        ensures
            r == self@,
    {
        self.0
    }

    /// The id written in decimal.
    pub fn to_string(&self) -> (r: String)
        ensures
            r@ == u64_text(self@),
    {
        decimal_string(self.0)
    }
}

impl View for RunnerId {
    type V = u64;

    closed spec fn view(&self) -> u64 {
        self.0
    }
}

/// A Gitlab CI runner.
#[derive(Debug, Clone)]
pub struct Runner {
    /// The ID of the runner.
    pub id: RunnerId,
    /// The description of the runner.
    pub description: Option<String>,
    /// Whether the runner is active or not.
    pub active: bool,
    /// Whether the runner is shared or not.
    pub is_shared: bool,
    /// The name of the runner.
    pub name: Option<String>,
}

/// An uploaded artifact from a job.
#[derive(Debug, Clone)]
pub struct JobArtifactFile {
    /// The name of the artifact.
    pub filename: String,
    /// The size (in bytes) of the artifact.
    pub size: u64,
}

/// An uploaded artifact from a job.
#[derive(Debug, Clone)]
pub struct JobArtifact {
    pub file_type: String,
    pub file_format: Option<String>,
    /// The name of the artifact.
    pub filename: String,
    /// The size (in bytes) of the artifact.
    pub size: u64,
}

/// Type-safe job ID.
#[derive(Debug, Clone, Copy, Hash, PartialEq, Eq, Structural, PartialOrd, Ord)]
pub struct JobId(u64);

impl JobId {
    /// Create a new id.
    pub fn new(id: u64) -> (r: Self)
        ensures
            r@ == id,
    {
        JobId(id)
    }

    /// The value of the id.
    pub fn value(&self) -> (r: u64)
        ensures
            r == self@,
    {
        self.0
    }

    /// The id written in decimal.
    pub fn to_string(&self) -> (r: String)
        ensures
            r@ == u64_text(self@),
    {
        decimal_string(self.0)
    }
}

impl View for JobId {
    type V = u64;

    closed spec fn view(&self) -> u64 {
        self.0
    }
}

/// Information about a job in Gitlab CI.
#[derive(Debug, Clone)]
pub struct Job {
    /// The ID of the job.
    pub id: JobId,
    /// The status of the job.
    pub status: StatusState,
    pub stage: String,
    /// The name of the job.
    pub name: String,
    /// The name of the reference that was tested.
    pub ref_: Option<String>,
    pub tag: bool,
    pub coverage: Option<String>,
    /// When the job was created or marked as pending.
    pub created_at: Timestamp,
    /// When the job was started.
    pub started_at: Option<Timestamp>,
    /// When the job completed.
    pub finished_at: Option<Timestamp>,
    /// The user which ran the job.
    pub user: Option<User>,
    /// The artifact file uploaded from the job.
    pub artifacts_file: Option<JobArtifactFile>,
    /// The commit the job tested.
    pub commit: RepoCommit,
    /// The runner which ran the job.
    pub runner: Option<Runner>,
    /// The pipeline the job belongs to.
    pub pipeline: PipelineBasic,
    pub allow_failure: bool,
    pub duration: Option<String>,
    pub artifacts: Vec<JobArtifact>,
    pub artifacts_expire_at: Option<Timestamp>,
    pub web_url: String,
}

/// Type-safe pipeline ID.
#[derive(Debug, Clone, Copy, Hash, PartialEq, Eq, Structural, PartialOrd, Ord)]
pub struct PipelineId(u64);

impl PipelineId {
    /// Create a new id.
    pub fn new(id: u64) -> (r: Self)
        ensures
            r@ == id,
    {
        PipelineId(id)
    }

    /// The value of the id.
    pub fn value(&self) -> (r: u64)
        ensures
            r == self@,
    {
        self.0
    }

    /// The id written in decimal.
    pub fn to_string(&self) -> (r: String)
        ensures
            r@ == u64_text(self@),
    {
        decimal_string(self.0)
    }
}

impl View for PipelineId {
    type V = u64;

    closed spec fn view(&self) -> u64 {
        self.0
    }
}

/// Information about a pipeline in Gitlab CI.
#[derive(Debug, Clone)]
pub struct PipelineBasic {
    /// The ID of the pipeline.
    pub id: PipelineId,
    /// The name of the reference that was tested.
    pub ref_: Option<String>,
    /// The object ID that was tested.
    pub sha: ObjectId,
    /// The status of the pipeline.
    pub status: StatusState,
    /// When the pipeline was created.
    pub created_at: Option<Timestamp>,
    /// When the pipeline was last updated.
    pub updated_at: Option<Timestamp>,
    /// The URL to the pipeline page.
    pub web_url: String,
}

/// More information about a pipeline in Gitlab CI.
#[derive(Debug, Clone)]
pub struct Pipeline {
    /// The ID of the pipeline.
    pub id: PipelineId,
    /// The object ID that was tested.
    pub sha: ObjectId,
    /// The name of the reference that was tested.
    pub ref_: Option<String>,
    /// The status of the pipeline.
    pub status: StatusState,
    /// The URL to the pipeline page.
    pub web_url: String,
    /// FIXME What are the semantics of this field?
    pub before_sha: Option<ObjectId>,
    /// Was this pipeline triggered by a tag.
    pub tag: bool,
    /// Error returned by the parser of `gitlab-ci.yml`, if any.
    pub yaml_errors: Option<String>,
    /// When the pipeline was created.
    pub created_at: Option<Timestamp>,
    /// When the pipeline was last updated.
    pub updated_at: Option<Timestamp>,
    /// When the pipeline began running.
    pub started_at: Option<Timestamp>,
    /// When the pipeline completed.
    pub finished_at: Option<Timestamp>,
    /// FIXME What are the semantics of this field?
    pub committed_at: Option<Timestamp>,
    /// Duration of pipeline in seconds.
    pub duration: Option<u64>,
    /// FIXME What are the semantics of this field?
    pub coverage: Option<String>,
    /// The user who triggered this pipeline.
    pub user: UserBasic,
    /// FIXME: What are the semantics of this field?
    /// See <https://gitlab.com/gitlab-org/gitlab-foss/blob/master/app/serializers/detailed_status_entity.rb>.
    pub detailed_status: JsonValue,
}

#[derive(Debug, Clone, Copy, PartialEq, Eq, Structural, PartialOrd, Ord)]
pub enum PipelineVariableType {
    EnvVar,
    File,
}

impl PipelineVariableType {
    /// The name of the variant, as Gitlab writes it.
    pub open spec fn spec_as_str(self) -> Seq<char> {
        match self {
            PipelineVariableType::EnvVar => "env_var"@,
            PipelineVariableType::File => "file"@,
        }
    }

    /// The variant that Gitlab means by `name`, if any.
    pub open spec fn spec_from_name(name: Seq<char>) -> Option<PipelineVariableType> {
        if name == "env_var"@ {
            Some(PipelineVariableType::EnvVar)
        } else if name == "file"@ {
            Some(PipelineVariableType::File)
        } else {
            None
        }
    }

    /// String representation of the variant.
    pub fn as_str(&self) -> (r: &'static str)
        ensures
            r@ == self.spec_as_str(),
    {
        match self {
            PipelineVariableType::EnvVar => "env_var",
            PipelineVariableType::File => "file",
        }
    }

    /// The variant that Gitlab means by `name`, if any.
    pub fn from_name(name: &str) -> (r: Option<PipelineVariableType>)
        ensures
            r == PipelineVariableType::spec_from_name(name@),
    {
        if str_eq(name, "env_var") {
            Some(PipelineVariableType::EnvVar)
        } else if str_eq(name, "file") {
            Some(PipelineVariableType::File)
        } else {
            None
        }
    }

    /// Reading the name of a variant gives the variant back.
    pub proof fn lemma_name_round_trip(self)
        ensures
            PipelineVariableType::spec_from_name(self.spec_as_str()) == Some(self),
    {
        reveal_strlit("env_var");
        reveal_strlit("file");
        assert("env_var"@.len() == 7);
        assert("file"@.len() == 4);
    }
}

/// A pipeline variable.
#[derive(Debug, Clone)]
pub struct PipelineVariable {
    /// Name of the variable.
    pub key: String,
    /// JsonValue of the variable.
    pub value: String,

    /// Type of the variable (eg. `env_var`).
    pub variable_type: PipelineVariableType,
}

/// Type-safe label event ID.
#[derive(Debug, Clone, Copy, Hash, PartialEq, Eq, Structural, PartialOrd, Ord)]
pub struct LabelEventId(u64);

impl LabelEventId {
    /// Create a new id.
    pub fn new(id: u64) -> (r: Self)
        ensures
            r@ == id,
    {
        LabelEventId(id)
    }

    /// The value of the id.
    pub fn value(&self) -> (r: u64)
        ensures
            r == self@,
    {
        self.0
    }

    /// The id written in decimal.
    pub fn to_string(&self) -> (r: String)
        ensures
            r@ == u64_text(self@),
    {
        decimal_string(self.0)
    }
}

impl View for LabelEventId {
    type V = u64;

    closed spec fn view(&self) -> u64 {
        self.0
    }
}

/// A resource label event
///
/// Note that resource events were added in Gitlab 11.2.  Any labels added or
/// removed before then will not be returned by the API.
#[derive(Debug, Clone)]
pub struct ResourceLabelEvent {
    /// The ID for the label event
    pub id: LabelEventId,
    pub user: UserBasic,
    pub created_at: Timestamp,
    /// The merge request id, or issue id (depending on the value of resource_type)
    pub resource_id: u64,
    /// Either "MergeRequest" or "Issue"
    pub resource_type: String,
    /// The label may be None if the label has been deleted.
    pub label: Option<EventLabel>,
    pub action: String,
}

/// The type of object that on which the resource label event was created
#[derive(Debug, Clone, PartialEq, Eq, Structural)]
pub enum ResourceLabelEventTarget {
    /// The ID of an issue event target.
    Issue(IssueId),
    /// The ID of a merge request event target.
    MergeRequest(MergeRequestId),
}

/// An label on a project.
///
/// This is like [Label], except that it doesn't have all the same fields
#[derive(Debug, Clone)]
pub struct EventLabel {
    /// The Id of the label.
    pub id: LabelId,
    /// The name of the label.
    pub name: String,
    /// The color of the label.
    pub color: LabelColor,
    /// The description of the label.
    pub description: Option<String>,
}

#[derive(Debug, Clone)]
pub struct RepoFile {
    pub file_path: String,
    pub branch: String,
}

#[derive(Debug, Clone)]
pub enum ProjectFeatures {
    Issues(FeatureVisibilityLevel),
    Repository(FeatureVisibilityLevel),
    MergeRequests(FeatureVisibilityLevel),
    Builds(FeatureVisibilityLevel),
    Wiki(FeatureVisibilityLevel),
    Snippets(FeatureVisibilityLevel),
}

/// Params for group creation.
///
/// Used with `create_group` method (see [doc here](../gitlab/struct.Gitlab.html#method.create_group))
#[derive(Debug, Clone, Default)]
pub struct CreateGroupParams {
    /// The group name
    pub name: Option<String>,
    /// The path of the group
    pub path: Option<String>,
    /// The group description
    pub description: Option<String>,
    /// The group visibility level, can be `private`, `internal` or `public`
    pub visibility: Option<VisibilityLevel>,
    /// Prevent sharing a project with another group within this group
    pub share_with_group_lock: Option<bool>,
    /// Require all users in this group to setup two-factor authentication
    pub require_two_factor_authentication: Option<bool>,
    /// Time before two-factor authentication is enforced
    pub two_factor_grace_period: Option<u64>,
    /// Determine if developers can create projects in the group
    pub project_creation_level: Option<String>,
    /// Default to Auto Devops pipeline for all projects within this group
    pub auto_devops_enabled: Option<bool>,
    /// Role allowed to create subgroups
    pub subgroup_creation_level: Option<String>,
    /// Disable email notification
    pub emails_disabled: Option<bool>,
    /// Disable the capability of a group from getting mentioned
    pub mentions_disabled: Option<bool>,
    /// Enable/disable Large File Storage (LFS) for the projects in this group
    pub lfs_enabled: Option<bool>,
    /// Allow users to request membership
    pub request_access_enabled: Option<bool>,
    /// The parent group ID for creating a nesting group
    pub parent_id: Option<GroupId>,
    /// [Gitlab Starter and higher] pipeline minutes quota for this group
    pub shared_runners_minutes_limit: Option<u64>,
    /// [Gitlab Starter and higher] extra pipeline minutes quota for this group
    pub extra_shared_runners_minutes_limit: Option<u64>,
}

/// Params for project creation.
///
/// Used with `create_project` method (see [doc here](../gitlab/struct.Gitlab.html#method.create_project))
#[derive(Debug, Clone, Default)]
pub struct CreateProjectParams {
    /// The name of the project
    pub name: Option<String>,
    /// The path of the project
    pub path: Option<String>,
    /// Namespace for the new projects (defaults to current user namespaces)
    pub namespace_id: Option<u64>,
    /// `master` by default
    pub default_branch: Option<String>,
    /// Short project description
    pub description: Option<String>,
    /// One of `disabled`, `private`, `enabled`
    pub issues_access_level: Option<FeatureVisibilityLevel>,
    /// One of `disabled`, `private`, `enabled`
    pub repository_access_level: Option<FeatureVisibilityLevel>,
    /// One of `disabled`, `private`, `enabled`
    pub merge_requests_access_level: Option<FeatureVisibilityLevel>,
    /// One of `disabled`, `private`, `enabled`
    pub builds_access_level: Option<FeatureVisibilityLevel>,
    /// One of `disabled`, `private`, `enabled`
    pub wiki_access_level: Option<FeatureVisibilityLevel>,
    /// One of `disabled`, `private`, `enabled`
    pub snippets_access_level: Option<FeatureVisibilityLevel>,
    /// One of `disabled`, `private`, `enabled`, `public`
    pub pages_access_level: Option<FeatureVisibilityLevel>,
    /// Automatically resolve merge requests diffs discussions on lines changed with a push
    pub resolve_outdated_diff_discussions: Option<bool>,
    /// Enable container registry for this project
    pub container_registry_enabled: Option<bool>,
    /// Update the container expiration for this project.
    pub container_expiration_policy_attributes: Option<Vec<String>>,
    /// Enable shared runners for this project
    pub shared_runners_enabled: Option<bool>,
    /// Project visibility level
    pub visibility: Option<VisibilityLevel>,
    /// URL to import repository from
    pub import_url: Option<String>,
    /// If `true` jobs can be viewed by non-project members
    pub public_builds: Option<bool>,
    /// Set wether merge requests can only be merged with successful jobs
    pub only_allow_merge_if_pipeline_succeeds: Option<bool>,
    /// Set wether merge requests can only be merged when all the discussions are resolved
    pub only_allow_merge_if_all_discussions_are_resolved: Option<bool>,
    /// Set the merge method used
    pub merge_method: Option<MergeMethod>,
    /// Set wether auto-closing referenced issues on default branch
    pub autoclose_referenced_issues: Option<bool>,
    /// Enable LFS
    pub lfs_enabled: Option<bool>,
    /// Allow user to request member access
    pub request_access_enabled: Option<bool>,
    /// The list of tags for a project
    pub tag_list: Option<Vec<String>>,
    /// Image file for avatar of the project
    pub avatar: Option<Vec<u8>>,
    /// Show link to create/view merge request wehen pushing from the command line
    pub printing_merge_request_link_enabled: Option<bool>,
    /// The git strategy. Defaults to fetch
    pub build_git_strategy: Option<BuildGitStrategy>,
    /// The maximum amount of time in minutes a job is allowed to run
    pub build_timeout: Option<u64>,
    /// Auto-cancel pending pipeline
    pub auto_cancel_pending_pipelines: Option<bool>,
    /// Test coverage parsing
    pub build_coverage_regex: Option<String>,
    /// The path to CI config file
    pub ci_config_path: Option<String>,
    /// Enable Auto DevOps for this project
    pub auto_devops_enabled: Option<bool>,
    /// Auto Deploy strategy (`continuous`, `manual` or `timed_incremental`)
    pub auto_devops_deploy_strategy: Option<String>,
    /// [Gitlab starter and higher]
    /// Which storage shard the repository is on. Available only to admins
    pub repository_storage: Option<String>,
    /// [Gitlab starter and higher]
    /// How many approvers should approve merge requests by default
    pub approvals_before_merge: Option<u64>,
    /// [Gitlab starter and higher]
    /// The classification label for the project
    pub external_authorization_classification_label: Option<String>,
    /// [Gitlab starter and higher] Enables pull mirroring in a project
    pub mirror: Option<bool>,
    /// [Gitlab starter and higher]
    /// Pull mirroring triggers builds
    pub mirror_trigger_builds: Option<String>,
    /// `false` by default
    pub initialize_with_readme: Option<bool>,
    /// When used without `use_custom_template`, name of a built-in project template.
    /// When used with `use_custom_template`, name of a custom project template
    pub template_name: Option<String>,
    /// [Gitlab silver and higher]
    /// When used with `use_custom_template`, project ID of a custom project template.
    /// This is preferable to using `template_name` since `template_name` may be ambiguous
    pub template_project_id: Option<u64>,
    /// [Gitlab silver and higher]
    /// When used with `use_custom_template`, project ID of a custom project template.
    /// This is preferable to using `template_name` since `template_name` may be ambiguous
    pub use_custom_template: Option<bool>,
    /// [Gitlab silver and higher]
    /// For group-level custom templates, specifies ID of group from which all the custom project templates are sourced.
    /// Leave empty for instance-level templates. Requires `use_custom_template` to be true
    pub group_with_project_templates_id: Option<u64>,
    /// [Gitlab silver and higher]
    /// Enable or disable packages repository feature
    pub packages_enabled: Option<bool>,
}

/// Merge methods
#[derive(Debug, Clone, Copy, PartialEq, Eq, Structural)]
pub enum MergeMethod {
    /// A merge commit is created for every merge,
    /// and merging is allowed as long as there are no conflicts
    Merge,
    /// A merge commit is created for every merge, but merging is possible only if
    /// fast-forward merge is possible
    RebaseMerge,
    /// No merge commit create, all merges are fast-forwarded
    FastForward,
}

impl MergeMethod {
    /// The name of the variant, as Gitlab writes it.
    pub open spec fn spec_as_str(self) -> Seq<char> {
        match self {
            MergeMethod::Merge => "merge"@,
            MergeMethod::RebaseMerge => "rebase_merge"@,
            MergeMethod::FastForward => "ff"@,
        }
    }

    /// The variant that Gitlab means by `name`, if any.
    pub open spec fn spec_from_name(name: Seq<char>) -> Option<MergeMethod> {
        if name == "merge"@ {
            Some(MergeMethod::Merge)
        } else if name == "rebase_merge"@ {
            Some(MergeMethod::RebaseMerge)
        } else if name == "ff"@ {
            Some(MergeMethod::FastForward)
        } else {
            None
        }
    }

    /// String representation of the variant.
    pub fn as_str(&self) -> (r: &'static str)
        ensures
            r@ == self.spec_as_str(),
    {
        match self {
            MergeMethod::Merge => "merge",
            MergeMethod::RebaseMerge => "rebase_merge",
            MergeMethod::FastForward => "ff",
        }
    }

    /// The variant that Gitlab means by `name`, if any.
    pub fn from_name(name: &str) -> (r: Option<MergeMethod>)
        ensures
            r == MergeMethod::spec_from_name(name@),
    {
        if str_eq(name, "merge") {
            Some(MergeMethod::Merge)
        } else if str_eq(name, "rebase_merge") {
            Some(MergeMethod::RebaseMerge)
        } else if str_eq(name, "ff") {
            Some(MergeMethod::FastForward)
        } else {
            None
        }
    }

    /// Reading the name of a variant gives the variant back.
    pub proof fn lemma_name_round_trip(self)
        ensures
            MergeMethod::spec_from_name(self.spec_as_str()) == Some(self),
    {
        reveal_strlit("merge");
        reveal_strlit("rebase_merge");
        reveal_strlit("ff");
        assert("merge"@.len() == 5);
        assert("rebase_merge"@.len() == 12);
        assert("ff"@.len() == 2);
    }
}

/// Build git strategy
#[derive(Debug, Clone, Copy, PartialEq, Eq, Structural)]
pub enum BuildGitStrategy {
    Fetch,
    Clone,
}

impl BuildGitStrategy {
    /// The name of the variant, as Gitlab writes it.
    pub open spec fn spec_as_str(self) -> Seq<char> {
        match self {
            BuildGitStrategy::Fetch => "fetch"@,
            BuildGitStrategy::Clone => "clone"@,
        }
    }

    /// The variant that Gitlab means by `name`, if any.
    pub open spec fn spec_from_name(name: Seq<char>) -> Option<BuildGitStrategy> {
        if name == "fetch"@ {
            Some(BuildGitStrategy::Fetch)
        } else if name == "clone"@ {
            Some(BuildGitStrategy::Clone)
        } else {
            None
        }
    }

    /// String representation of the variant.
    pub fn as_str(&self) -> (r: &'static str)
        ensures
            r@ == self.spec_as_str(),
    {
        match self {
            BuildGitStrategy::Fetch => "fetch",
            BuildGitStrategy::Clone => "clone",
        }
    }

    /// The variant that Gitlab means by `name`, if any.
    pub fn from_name(name: &str) -> (r: Option<BuildGitStrategy>)
        ensures
            r == BuildGitStrategy::spec_from_name(name@),
    {
        if str_eq(name, "fetch") {
            Some(BuildGitStrategy::Fetch)
        } else if str_eq(name, "clone") {
            Some(BuildGitStrategy::Clone)
        } else {
            None
        }
    }

    /// Reading the name of a variant gives the variant back.
    pub proof fn lemma_name_round_trip(self)
        ensures
            BuildGitStrategy::spec_from_name(self.spec_as_str()) == Some(self),
    {
        reveal_strlit("fetch");
        reveal_strlit("clone");
        assert("fetch"@.len() == 5);
        assert("clone"@.len() == 5);
        assert("fetch"@[0] == 'f');
        assert("clone"@[0] == 'c');
    }
}

/// Auto devops deply strategy
#[derive(Debug, Clone, Copy, PartialEq, Eq, Structural)]
pub enum AutoDeployStrategy {
    Continuous,
    Manual,
    TimedIncremental,
}

impl AutoDeployStrategy {
    /// The name of the variant, as Gitlab writes it.
    pub open spec fn spec_as_str(self) -> Seq<char> {
        match self {
            AutoDeployStrategy::Continuous => "continuous"@,
            AutoDeployStrategy::Manual => "manual"@,
            AutoDeployStrategy::TimedIncremental => "timed_incremental"@,
        }
    }

    /// The variant that Gitlab means by `name`, if any.
    pub open spec fn spec_from_name(name: Seq<char>) -> Option<AutoDeployStrategy> {
        if name == "continuous"@ {
            Some(AutoDeployStrategy::Continuous)
        } else if name == "manual"@ {
            Some(AutoDeployStrategy::Manual)
        } else if name == "timed_incremental"@ {
            Some(AutoDeployStrategy::TimedIncremental)
        } else {
            None
        }
    }

    /// String representation of the variant.
    pub fn as_str(&self) -> (r: &'static str)
        ensures
            r@ == self.spec_as_str(),
    {
        match self {
            AutoDeployStrategy::Continuous => "continuous",
            AutoDeployStrategy::Manual => "manual",
            AutoDeployStrategy::TimedIncremental => "timed_incremental",
        }
    }

    /// The variant that Gitlab means by `name`, if any.
    pub fn from_name(name: &str) -> (r: Option<AutoDeployStrategy>)
        ensures
            r == AutoDeployStrategy::spec_from_name(name@),
    {
        if str_eq(name, "continuous") {
            Some(AutoDeployStrategy::Continuous)
        } else if str_eq(name, "manual") {
            Some(AutoDeployStrategy::Manual)
        } else if str_eq(name, "timed_incremental") {
            Some(AutoDeployStrategy::TimedIncremental)
        } else {
            None
        }
    }

    /// Reading the name of a variant gives the variant back.
    pub proof fn lemma_name_round_trip(self)
        ensures
            AutoDeployStrategy::spec_from_name(self.spec_as_str()) == Some(self),
    {
        reveal_strlit("continuous");
        reveal_strlit("manual");
        reveal_strlit("timed_incremental");
        assert("continuous"@.len() == 10);
        assert("manual"@.len() == 6);
        assert("timed_incremental"@.len() == 17);
    }
}

/// Builder for [`CreateMergeRequestParams`].
#[derive(Debug, Clone)]
pub struct CreateMergeRequestParamsBuilder {
    params: CreateMergeRequestParams,
}

impl CreateMergeRequestParams {
    /// Create a builder for the parameters, with every parameter unset.
    pub fn builder() -> (r: CreateMergeRequestParamsBuilder)
        ensures
            ({
                &&& r.spec_params().source_branch@ == Seq::<char>::empty()
                &&& r.spec_params().target_branch@ == Seq::<char>::empty()
                &&& r.spec_params().title@ == Seq::<char>::empty()
                &&& r.spec_params().assignee_id is None
                &&& r.spec_params().assignee_ids is None
                &&& r.spec_params().description is None
                &&& r.spec_params().target_project_id is None
                &&& r.spec_params().labels is None
                &&& r.spec_params().milestone_id is None
                &&& r.spec_params().remove_source_branch is None
                &&& r.spec_params().allow_collaboration is None
                &&& r.spec_params().squash is None
            }),
    {
        CreateMergeRequestParamsBuilder {
            params: CreateMergeRequestParams {
                source_branch: String::new(),
                target_branch: String::new(),
                title: String::new(),
                assignee_id: None,
                assignee_ids: None,
                description: None,
                target_project_id: None,
                labels: None,
                milestone_id: None,
                remove_source_branch: None,
                allow_collaboration: None,
                squash: None,
            },
        }
    }
}

impl CreateMergeRequestParamsBuilder {
    /// The parameters which `build` gives.
    pub closed spec fn spec_params(&self) -> CreateMergeRequestParams {
        self.params
    }

    /// The source branch on source project
    pub fn source_branch(self, value: &str) -> (r: Self)
        ensures
            r.spec_params().source_branch@ == value@,
            r.spec_params() == (CreateMergeRequestParams { source_branch: r.spec_params().source_branch, ..self.spec_params() }),
    {
        let mut r = self;
        r.params.source_branch = value.to_owned();
        r
    }

    /// The target branch
    pub fn target_branch(self, value: &str) -> (r: Self)
        ensures
            r.spec_params().target_branch@ == value@,
            r.spec_params() == (CreateMergeRequestParams { target_branch: r.spec_params().target_branch, ..self.spec_params() }),
    {
        let mut r = self;
        r.params.target_branch = value.to_owned();
        r
    }

    /// Title of MR
    pub fn title(self, value: &str) -> (r: Self)
        ensures
            r.spec_params().title@ == value@,
            r.spec_params() == (CreateMergeRequestParams { title: r.spec_params().title, ..self.spec_params() }),
    {
        let mut r = self;
        r.params.title = value.to_owned();
        r
    }

    /// assignee user ID
    pub fn assignee_id(self, value: UserId) -> (r: Self)
        ensures
            r.spec_params().assignee_id == Some(value),
            r.spec_params() == (CreateMergeRequestParams { assignee_id: r.spec_params().assignee_id, ..self.spec_params() }),
    {
        let mut r = self;
        r.params.assignee_id = Some(value);
        r
    }

    /// The ID of the user(s) to assign the MR to.
    /// Set to 0 or provide an empty value to unassign all assignees.
    pub fn assignee_ids(self, value: Vec<UserId>) -> (r: Self)
        ensures
            r.spec_params().assignee_ids == Some(value),
            r.spec_params() == (CreateMergeRequestParams { assignee_ids: r.spec_params().assignee_ids, ..self.spec_params() }),
    {
        let mut r = self;
        r.params.assignee_ids = Some(value);
        r
    }

    /// Description of MR
    pub fn description(self, value: &str) -> (r: Self)
        ensures
            r.spec_params().description matches Some(v) && v@ == value@,
            r.spec_params() == (CreateMergeRequestParams { description: r.spec_params().description, ..self.spec_params() }),
    {
        let mut r = self;
        r.params.description = Some(value.to_owned());
        r
    }

    /// The target project (numeric id) if different from source project
    pub fn target_project_id(self, value: ProjectId) -> (r: Self)
        ensures
            r.spec_params().target_project_id == Some(value),
            r.spec_params() == (CreateMergeRequestParams { target_project_id: r.spec_params().target_project_id, ..self.spec_params() }),
    {
        let mut r = self;
        r.params.target_project_id = Some(value);
        r
    }

    /// Labels for MR as a comma-separated list
    pub fn labels(self, value: &str) -> (r: Self)
        ensures
            r.spec_params().labels matches Some(v) && v@ == value@,
            r.spec_params() == (CreateMergeRequestParams { labels: r.spec_params().labels, ..self.spec_params() }),
    {
        let mut r = self;
        r.params.labels = Some(value.to_owned());
        r
    }

    /// The global ID of a milestone
    pub fn milestone_id(self, value: MilestoneId) -> (r: Self)
        ensures
            r.spec_params().milestone_id == Some(value),
            r.spec_params() == (CreateMergeRequestParams { milestone_id: r.spec_params().milestone_id, ..self.spec_params() }),
    {
        let mut r = self;
        r.params.milestone_id = Some(value);
        r
    }

    /// Flag indicating if a merge request should remove the source branch when merging
    pub fn remove_source_branch(self, value: bool) -> (r: Self)
        ensures
            r.spec_params().remove_source_branch == Some(value),
            r.spec_params() == (CreateMergeRequestParams { remove_source_branch: r.spec_params().remove_source_branch, ..self.spec_params() }),
    {
        let mut r = self;
        r.params.remove_source_branch = Some(value);
        r
    }

    /// Allow commits from members who can merge to the target branch
    pub fn allow_collaboration(self, value: bool) -> (r: Self)
        ensures
            r.spec_params().allow_collaboration == Some(value),
            r.spec_params() == (CreateMergeRequestParams { allow_collaboration: r.spec_params().allow_collaboration, ..self.spec_params() }),
    {
        let mut r = self;
        r.params.allow_collaboration = Some(value);
        r
    }

    /// Squash commits into a single commit when merging
    pub fn squash(self, value: bool) -> (r: Self)
        ensures
            r.spec_params().squash == Some(value),
            r.spec_params() == (CreateMergeRequestParams { squash: r.spec_params().squash, ..self.spec_params() }),
    {
        let mut r = self;
        r.params.squash = Some(value);
        r
    }

    /// Build the parameters.
    pub fn build(self) -> (r: Result<CreateMergeRequestParams, BuilderError>)
        ensures
            r matches Ok(p) && p == self.spec_params(),
    {
        Ok(self.params)
    }
}

/// Builder for [`CreateGroupParams`].
#[derive(Debug, Clone)]
pub struct CreateGroupParamsBuilder {
    params: CreateGroupParams,
}

impl CreateGroupParams {
    /// Create a builder for the parameters, with every parameter unset.
    pub fn builder() -> (r: CreateGroupParamsBuilder)
        ensures
            ({
                &&& r.spec_params().name is None
                &&& r.spec_params().path is None
                &&& r.spec_params().description is None
                &&& r.spec_params().visibility is None
                &&& r.spec_params().share_with_group_lock is None
                &&& r.spec_params().require_two_factor_authentication is None
                &&& r.spec_params().two_factor_grace_period is None
                &&& r.spec_params().project_creation_level is None
                &&& r.spec_params().auto_devops_enabled is None
                &&& r.spec_params().subgroup_creation_level is None
                &&& r.spec_params().emails_disabled is None
                &&& r.spec_params().mentions_disabled is None
                &&& r.spec_params().lfs_enabled is None
                &&& r.spec_params().request_access_enabled is None
                &&& r.spec_params().parent_id is None
                &&& r.spec_params().shared_runners_minutes_limit is None
                &&& r.spec_params().extra_shared_runners_minutes_limit is None
            }),
    {
        CreateGroupParamsBuilder {
            params: CreateGroupParams {
                name: None,
                path: None,
                description: None,
                visibility: None,
                share_with_group_lock: None,
                require_two_factor_authentication: None,
                two_factor_grace_period: None,
                project_creation_level: None,
                auto_devops_enabled: None,
                subgroup_creation_level: None,
                emails_disabled: None,
                mentions_disabled: None,
                lfs_enabled: None,
                request_access_enabled: None,
                parent_id: None,
                shared_runners_minutes_limit: None,
                extra_shared_runners_minutes_limit: None,
            },
        }
    }
}

impl CreateGroupParamsBuilder {
    /// The parameters which `build` gives.
    pub closed spec fn spec_params(&self) -> CreateGroupParams {
        self.params
    }

    /// The group description
    pub fn description(self, value: &str) -> (r: Self)
        ensures
            r.spec_params().description matches Some(v) && v@ == value@,
            r.spec_params() == (CreateGroupParams { description: r.spec_params().description, ..self.spec_params() }),
    {
        let mut r = self;
        r.params.description = Some(value.to_owned());
        r
    }

    /// The group visibility level, can be `private`, `internal` or `public`
    pub fn visibility(self, value: VisibilityLevel) -> (r: Self)
        ensures
            r.spec_params().visibility == Some(value),
            r.spec_params() == (CreateGroupParams { visibility: r.spec_params().visibility, ..self.spec_params() }),
    {
        let mut r = self;
        r.params.visibility = Some(value);
        r
    }

    /// Prevent sharing a project with another group within this group
    pub fn share_with_group_lock(self, value: bool) -> (r: Self)
        ensures
            r.spec_params().share_with_group_lock == Some(value),
            r.spec_params() == (CreateGroupParams { share_with_group_lock: r.spec_params().share_with_group_lock, ..self.spec_params() }),
    {
        let mut r = self;
        r.params.share_with_group_lock = Some(value);
        r
    }

    /// Require all users in this group to setup two-factor authentication
    pub fn require_two_factor_authentication(self, value: bool) -> (r: Self)
        ensures
            r.spec_params().require_two_factor_authentication == Some(value),
            r.spec_params() == (CreateGroupParams { require_two_factor_authentication: r.spec_params().require_two_factor_authentication, ..self.spec_params() }),
    {
        let mut r = self;
        r.params.require_two_factor_authentication = Some(value);
        r
    }

    /// Time before two-factor authentication is enforced
    pub fn two_factor_grace_period(self, value: u64) -> (r: Self)
        ensures
            r.spec_params().two_factor_grace_period == Some(value),
            r.spec_params() == (CreateGroupParams { two_factor_grace_period: r.spec_params().two_factor_grace_period, ..self.spec_params() }),
    {
        let mut r = self;
        r.params.two_factor_grace_period = Some(value);
        r
    }

    /// Determine if developers can create projects in the group
    pub fn _project_creation_level(self, value: &str) -> (r: Self)
        ensures
            r.spec_params().project_creation_level matches Some(v) && v@ == value@,
            r.spec_params() == (CreateGroupParams { project_creation_level: r.spec_params().project_creation_level, ..self.spec_params() }),
    {
        let mut r = self;
        r.params.project_creation_level = Some(value.to_owned());
        r
    }

    /// Default to Auto Devops pipeline for all projects within this group
    pub fn auto_devops_enabled(self, value: bool) -> (r: Self)
        ensures
            r.spec_params().auto_devops_enabled == Some(value),
            r.spec_params() == (CreateGroupParams { auto_devops_enabled: r.spec_params().auto_devops_enabled, ..self.spec_params() }),
    {
        let mut r = self;
        r.params.auto_devops_enabled = Some(value);
        r
    }

    /// Role allowed to create subgroups
    pub fn _subgroup_creation_level(self, value: &str) -> (r: Self)
        ensures
            r.spec_params().subgroup_creation_level matches Some(v) && v@ == value@,
            r.spec_params() == (CreateGroupParams { subgroup_creation_level: r.spec_params().subgroup_creation_level, ..self.spec_params() }),
    {
        let mut r = self;
        r.params.subgroup_creation_level = Some(value.to_owned());
        r
    }

    /// Disable email notification
    pub fn emails_disabled(self, value: bool) -> (r: Self)
        ensures
            r.spec_params().emails_disabled == Some(value),
            r.spec_params() == (CreateGroupParams { emails_disabled: r.spec_params().emails_disabled, ..self.spec_params() }),
    {
        let mut r = self;
        r.params.emails_disabled = Some(value);
        r
    }

    /// Disable the capability of a group from getting mentioned
    pub fn mentions_disabled(self, value: bool) -> (r: Self)
        ensures
            r.spec_params().mentions_disabled == Some(value),
            r.spec_params() == (CreateGroupParams { mentions_disabled: r.spec_params().mentions_disabled, ..self.spec_params() }),
    {
        let mut r = self;
        r.params.mentions_disabled = Some(value);
        r
    }

    /// Enable/disable Large File Storage (LFS) for the projects in this group
    pub fn lfs_enabled(self, value: bool) -> (r: Self)
        ensures
            r.spec_params().lfs_enabled == Some(value),
            r.spec_params() == (CreateGroupParams { lfs_enabled: r.spec_params().lfs_enabled, ..self.spec_params() }),
    {
        let mut r = self;
        r.params.lfs_enabled = Some(value);
        r
    }

    /// Allow users to request membership
    pub fn request_access_enabled(self, value: bool) -> (r: Self)
        ensures
            r.spec_params().request_access_enabled == Some(value),
            r.spec_params() == (CreateGroupParams { request_access_enabled: r.spec_params().request_access_enabled, ..self.spec_params() }),
    {
        let mut r = self;
        r.params.request_access_enabled = Some(value);
        r
    }

    /// The parent group ID for creating a nesting group
    pub fn parent_id(self, value: GroupId) -> (r: Self)
        ensures
            r.spec_params().parent_id == Some(value),
            r.spec_params() == (CreateGroupParams { parent_id: r.spec_params().parent_id, ..self.spec_params() }),
    {
        let mut r = self;
        r.params.parent_id = Some(value);
        r
    }

    /// [Gitlab Starter and higher] pipeline minutes quota for this group
    pub fn shared_runners_minutes_limit(self, value: u64) -> (r: Self)
        ensures
            r.spec_params().shared_runners_minutes_limit == Some(value),
            r.spec_params() == (CreateGroupParams { shared_runners_minutes_limit: r.spec_params().shared_runners_minutes_limit, ..self.spec_params() }),
    {
        let mut r = self;
        r.params.shared_runners_minutes_limit = Some(value);
        r
    }

    /// [Gitlab Starter and higher] extra pipeline minutes quota for this group
    pub fn extra_shared_runners_minutes_limit(self, value: u64) -> (r: Self)
        ensures
            r.spec_params().extra_shared_runners_minutes_limit == Some(value),
            r.spec_params() == (CreateGroupParams { extra_shared_runners_minutes_limit: r.spec_params().extra_shared_runners_minutes_limit, ..self.spec_params() }),
    {
        let mut r = self;
        r.params.extra_shared_runners_minutes_limit = Some(value);
        r
    }

    /// Determine if developers can create projects in the group.
    pub fn project_creation_level(self, level: AccessLevel) -> (r: Self)
        ensures
            r.spec_params().project_creation_level matches Some(v) && v@ == level.spec_as_str(),
            r.spec_params() == (CreateGroupParams {
                project_creation_level: r.spec_params().project_creation_level,
                ..self.spec_params()
            }),
    {
        let mut r = self;
        r.params.project_creation_level = Some(level.as_str().to_owned());
        r
    }

    /// Role allowed to create subgroups.
    pub fn subgroup_creation_level(self, level: AccessLevel) -> (r: Self)
        ensures
            r.spec_params().subgroup_creation_level matches Some(v) && v@ == level.spec_as_str(),
            r.spec_params() == (CreateGroupParams {
                subgroup_creation_level: r.spec_params().subgroup_creation_level,
                ..self.spec_params()
            }),
    {
        let mut r = self;
        r.params.subgroup_creation_level = Some(level.as_str().to_owned());
        r
    }

    /// Build the parameters.
    pub fn build(self) -> (r: Result<CreateGroupParams, BuilderError>)
        ensures
            r matches Ok(p) && p == self.spec_params(),
    {
        Ok(self.params)
    }
}

/// Builder for [`CreateProjectParams`].
#[derive(Debug, Clone)]
pub struct CreateProjectParamsBuilder {
    params: CreateProjectParams,
}

impl CreateProjectParams {
    /// Create a builder for the parameters, with every parameter unset.
    pub fn builder() -> (r: CreateProjectParamsBuilder)
        ensures
            ({
                &&& r.spec_params().name is None
                &&& r.spec_params().path is None
                &&& r.spec_params().namespace_id is None
                &&& r.spec_params().default_branch is None
                &&& r.spec_params().description is None
                &&& r.spec_params().issues_access_level is None
                &&& r.spec_params().repository_access_level is None
                &&& r.spec_params().merge_requests_access_level is None
                &&& r.spec_params().builds_access_level is None
                &&& r.spec_params().wiki_access_level is None
                &&& r.spec_params().snippets_access_level is None
                &&& r.spec_params().pages_access_level is None
                &&& r.spec_params().resolve_outdated_diff_discussions is None
                &&& r.spec_params().container_registry_enabled is None
                &&& r.spec_params().container_expiration_policy_attributes is None
                &&& r.spec_params().shared_runners_enabled is None
                &&& r.spec_params().visibility is None
                &&& r.spec_params().import_url is None
                &&& r.spec_params().public_builds is None
                &&& r.spec_params().only_allow_merge_if_pipeline_succeeds is None
                &&& r.spec_params().only_allow_merge_if_all_discussions_are_resolved is None
                &&& r.spec_params().merge_method is None
                &&& r.spec_params().autoclose_referenced_issues is None
                &&& r.spec_params().lfs_enabled is None
                &&& r.spec_params().request_access_enabled is None
                &&& r.spec_params().tag_list is None
                &&& r.spec_params().avatar is None
                &&& r.spec_params().printing_merge_request_link_enabled is None
                &&& r.spec_params().build_git_strategy is None
                &&& r.spec_params().build_timeout is None
                &&& r.spec_params().auto_cancel_pending_pipelines is None
                &&& r.spec_params().build_coverage_regex is None
                &&& r.spec_params().ci_config_path is None
                &&& r.spec_params().auto_devops_enabled is None
                &&& r.spec_params().auto_devops_deploy_strategy is None
                &&& r.spec_params().repository_storage is None
                &&& r.spec_params().approvals_before_merge is None
                &&& r.spec_params().external_authorization_classification_label is None
                &&& r.spec_params().mirror is None
                &&& r.spec_params().mirror_trigger_builds is None
                &&& r.spec_params().initialize_with_readme is None
                &&& r.spec_params().template_name is None
                &&& r.spec_params().template_project_id is None
                &&& r.spec_params().use_custom_template is None
                &&& r.spec_params().group_with_project_templates_id is None
                &&& r.spec_params().packages_enabled is None
            }),
    {
        CreateProjectParamsBuilder {
            params: CreateProjectParams {
                name: None,
                path: None,
                namespace_id: None,
                default_branch: None,
                description: None,
                issues_access_level: None,
                repository_access_level: None,
                merge_requests_access_level: None,
                builds_access_level: None,
                wiki_access_level: None,
                snippets_access_level: None,
                pages_access_level: None,
                resolve_outdated_diff_discussions: None,
                container_registry_enabled: None,
                container_expiration_policy_attributes: None,
                shared_runners_enabled: None,
                visibility: None,
                import_url: None,
                public_builds: None,
                only_allow_merge_if_pipeline_succeeds: None,
                only_allow_merge_if_all_discussions_are_resolved: None,
                merge_method: None,
                autoclose_referenced_issues: None,
                lfs_enabled: None,
                request_access_enabled: None,
                tag_list: None,
                avatar: None,
                printing_merge_request_link_enabled: None,
                build_git_strategy: None,
                build_timeout: None,
                auto_cancel_pending_pipelines: None,
                build_coverage_regex: None,
                ci_config_path: None,
                auto_devops_enabled: None,
                auto_devops_deploy_strategy: None,
                repository_storage: None,
                approvals_before_merge: None,
                external_authorization_classification_label: None,
                mirror: None,
                mirror_trigger_builds: None,
                initialize_with_readme: None,
                template_name: None,
                template_project_id: None,
                use_custom_template: None,
                group_with_project_templates_id: None,
                packages_enabled: None,
            },
        }
    }
}

impl CreateProjectParamsBuilder {
    /// The parameters which `build` gives.
    pub closed spec fn spec_params(&self) -> CreateProjectParams {
        self.params
    }

    /// Namespace for the new projects (defaults to current user namespaces)
    pub fn namespace_id(self, value: u64) -> (r: Self)
        ensures
            r.spec_params().namespace_id == Some(value),
            r.spec_params() == (CreateProjectParams { namespace_id: r.spec_params().namespace_id, ..self.spec_params() }),
    {
        let mut r = self;
        r.params.namespace_id = Some(value);
        r
    }

    /// `master` by default
    pub fn default_branch(self, value: &str) -> (r: Self)
        ensures
            r.spec_params().default_branch matches Some(v) && v@ == value@,
            r.spec_params() == (CreateProjectParams { default_branch: r.spec_params().default_branch, ..self.spec_params() }),
    {
        let mut r = self;
        r.params.default_branch = Some(value.to_owned());
        r
    }

    /// Short project description
    pub fn description(self, value: &str) -> (r: Self)
        ensures
            r.spec_params().description matches Some(v) && v@ == value@,
            r.spec_params() == (CreateProjectParams { description: r.spec_params().description, ..self.spec_params() }),
    {
        let mut r = self;
        r.params.description = Some(value.to_owned());
        r
    }

    /// One of `disabled`, `private`, `enabled`
    pub fn issues_access_level(self, value: FeatureVisibilityLevel) -> (r: Self)
        ensures
            r.spec_params().issues_access_level == Some(value),
            r.spec_params() == (CreateProjectParams { issues_access_level: r.spec_params().issues_access_level, ..self.spec_params() }),
    {
        let mut r = self;
        r.params.issues_access_level = Some(value);
        r
    }

    /// One of `disabled`, `private`, `enabled`
    pub fn repository_access_level(self, value: FeatureVisibilityLevel) -> (r: Self)
        ensures
            r.spec_params().repository_access_level == Some(value),
            r.spec_params() == (CreateProjectParams { repository_access_level: r.spec_params().repository_access_level, ..self.spec_params() }),
    {
        let mut r = self;
        r.params.repository_access_level = Some(value);
        r
    }

    /// One of `disabled`, `private`, `enabled`
    pub fn merge_requests_access_level(self, value: FeatureVisibilityLevel) -> (r: Self)
        ensures
            r.spec_params().merge_requests_access_level == Some(value),
            r.spec_params() == (CreateProjectParams { merge_requests_access_level: r.spec_params().merge_requests_access_level, ..self.spec_params() }),
    {
        let mut r = self;
        r.params.merge_requests_access_level = Some(value);
        r
    }

    /// One of `disabled`, `private`, `enabled`
    pub fn builds_access_level(self, value: FeatureVisibilityLevel) -> (r: Self)
        ensures
            r.spec_params().builds_access_level == Some(value),
            r.spec_params() == (CreateProjectParams { builds_access_level: r.spec_params().builds_access_level, ..self.spec_params() }),
    {
        let mut r = self;
        r.params.builds_access_level = Some(value);
        r
    }

    /// One of `disabled`, `private`, `enabled`
    pub fn wiki_access_level(self, value: FeatureVisibilityLevel) -> (r: Self)
        ensures
            r.spec_params().wiki_access_level == Some(value),
            r.spec_params() == (CreateProjectParams { wiki_access_level: r.spec_params().wiki_access_level, ..self.spec_params() }),
    {
        let mut r = self;
        r.params.wiki_access_level = Some(value);
        r
    }

    /// One of `disabled`, `private`, `enabled`
    pub fn snippets_access_level(self, value: FeatureVisibilityLevel) -> (r: Self)
        ensures
            r.spec_params().snippets_access_level == Some(value),
            r.spec_params() == (CreateProjectParams { snippets_access_level: r.spec_params().snippets_access_level, ..self.spec_params() }),
    {
        let mut r = self;
        r.params.snippets_access_level = Some(value);
        r
    }

    /// One of `disabled`, `private`, `enabled`, `public`
    pub fn pages_access_level(self, value: FeatureVisibilityLevel) -> (r: Self)
        ensures
            r.spec_params().pages_access_level == Some(value),
            r.spec_params() == (CreateProjectParams { pages_access_level: r.spec_params().pages_access_level, ..self.spec_params() }),
    {
        let mut r = self;
        r.params.pages_access_level = Some(value);
        r
    }

    /// Automatically resolve merge requests diffs discussions on lines changed with a push
    pub fn resolve_outdated_diff_discussions(self, value: bool) -> (r: Self)
        ensures
            r.spec_params().resolve_outdated_diff_discussions == Some(value),
            r.spec_params() == (CreateProjectParams { resolve_outdated_diff_discussions: r.spec_params().resolve_outdated_diff_discussions, ..self.spec_params() }),
    {
        let mut r = self;
        r.params.resolve_outdated_diff_discussions = Some(value);
        r
    }

    /// Enable container registry for this project
    pub fn container_registry_enabled(self, value: bool) -> (r: Self)
        ensures
            r.spec_params().container_registry_enabled == Some(value),
            r.spec_params() == (CreateProjectParams { container_registry_enabled: r.spec_params().container_registry_enabled, ..self.spec_params() }),
    {
        let mut r = self;
        r.params.container_registry_enabled = Some(value);
        r
    }

    /// Update the container expiration for this project.
    pub fn container_expiration_policy_attributes(self, value: Vec<String>) -> (r: Self)
        ensures
            r.spec_params().container_expiration_policy_attributes == Some(value),
            r.spec_params() == (CreateProjectParams { container_expiration_policy_attributes: r.spec_params().container_expiration_policy_attributes, ..self.spec_params() }),
    {
        let mut r = self;
        r.params.container_expiration_policy_attributes = Some(value);
        r
    }

    /// Enable shared runners for this project
    pub fn shared_runners_enabled(self, value: bool) -> (r: Self)
        ensures
            r.spec_params().shared_runners_enabled == Some(value),
            r.spec_params() == (CreateProjectParams { shared_runners_enabled: r.spec_params().shared_runners_enabled, ..self.spec_params() }),
    {
        let mut r = self;
        r.params.shared_runners_enabled = Some(value);
        r
    }

    /// Project visibility level
    pub fn visibility(self, value: VisibilityLevel) -> (r: Self)
        ensures
            r.spec_params().visibility == Some(value),
            r.spec_params() == (CreateProjectParams { visibility: r.spec_params().visibility, ..self.spec_params() }),
    {
        let mut r = self;
        r.params.visibility = Some(value);
        r
    }

    /// URL to import repository from
    pub fn _import_url(self, value: &str) -> (r: Self)
        ensures
            r.spec_params().import_url matches Some(v) && v@ == value@,
            r.spec_params() == (CreateProjectParams { import_url: r.spec_params().import_url, ..self.spec_params() }),
    {
        let mut r = self;
        r.params.import_url = Some(value.to_owned());
        r
    }

    /// If `true` jobs can be viewed by non-project members
    pub fn public_builds(self, value: bool) -> (r: Self)
        ensures
            r.spec_params().public_builds == Some(value),
            r.spec_params() == (CreateProjectParams { public_builds: r.spec_params().public_builds, ..self.spec_params() }),
    {
        let mut r = self;
        r.params.public_builds = Some(value);
        r
    }

    /// Set wether merge requests can only be merged with successful jobs
    pub fn only_allow_merge_if_pipeline_succeeds(self, value: bool) -> (r: Self)
        ensures
            r.spec_params().only_allow_merge_if_pipeline_succeeds == Some(value),
            r.spec_params() == (CreateProjectParams { only_allow_merge_if_pipeline_succeeds: r.spec_params().only_allow_merge_if_pipeline_succeeds, ..self.spec_params() }),
    {
        let mut r = self;
        r.params.only_allow_merge_if_pipeline_succeeds = Some(value);
        r
    }

    /// Set wether merge requests can only be merged when all the discussions are resolved
    pub fn only_allow_merge_if_all_discussions_are_resolved(self, value: bool) -> (r: Self)
        ensures
            r.spec_params().only_allow_merge_if_all_discussions_are_resolved == Some(value),
            r.spec_params() == (CreateProjectParams { only_allow_merge_if_all_discussions_are_resolved: r.spec_params().only_allow_merge_if_all_discussions_are_resolved, ..self.spec_params() }),
    {
        let mut r = self;
        r.params.only_allow_merge_if_all_discussions_are_resolved = Some(value);
        r
    }

    /// Set the merge method used
    pub fn merge_method(self, value: MergeMethod) -> (r: Self)
        ensures
            r.spec_params().merge_method == Some(value),
            r.spec_params() == (CreateProjectParams { merge_method: r.spec_params().merge_method, ..self.spec_params() }),
    {
        let mut r = self;
        r.params.merge_method = Some(value);
        r
    }

    /// Set wether auto-closing referenced issues on default branch
    pub fn autoclose_referenced_issues(self, value: bool) -> (r: Self)
        ensures
            r.spec_params().autoclose_referenced_issues == Some(value),
            r.spec_params() == (CreateProjectParams { autoclose_referenced_issues: r.spec_params().autoclose_referenced_issues, ..self.spec_params() }),
    {
        let mut r = self;
        r.params.autoclose_referenced_issues = Some(value);
        r
    }

    /// Enable LFS
    pub fn lfs_enabled(self, value: bool) -> (r: Self)
        ensures
            r.spec_params().lfs_enabled == Some(value),
            r.spec_params() == (CreateProjectParams { lfs_enabled: r.spec_params().lfs_enabled, ..self.spec_params() }),
    {
        let mut r = self;
        r.params.lfs_enabled = Some(value);
        r
    }

    /// Allow user to request member access
    pub fn request_access_enabled(self, value: bool) -> (r: Self)
        ensures
            r.spec_params().request_access_enabled == Some(value),
            r.spec_params() == (CreateProjectParams { request_access_enabled: r.spec_params().request_access_enabled, ..self.spec_params() }),
    {
        let mut r = self;
        r.params.request_access_enabled = Some(value);
        r
    }

    /// The list of tags for a project
    pub fn tag_list(self, value: Vec<String>) -> (r: Self)
        ensures
            r.spec_params().tag_list == Some(value),
            r.spec_params() == (CreateProjectParams { tag_list: r.spec_params().tag_list, ..self.spec_params() }),
    {
        let mut r = self;
        r.params.tag_list = Some(value);
        r
    }

    /// Show link to create/view merge request wehen pushing from the command line
    pub fn printing_merge_request_link_enabled(self, value: bool) -> (r: Self)
        ensures
            r.spec_params().printing_merge_request_link_enabled == Some(value),
            r.spec_params() == (CreateProjectParams { printing_merge_request_link_enabled: r.spec_params().printing_merge_request_link_enabled, ..self.spec_params() }),
    {
        let mut r = self;
        r.params.printing_merge_request_link_enabled = Some(value);
        r
    }

    /// The git strategy. Defaults to fetch
    pub fn build_git_strategy(self, value: BuildGitStrategy) -> (r: Self)
        ensures
            r.spec_params().build_git_strategy == Some(value),
            r.spec_params() == (CreateProjectParams { build_git_strategy: r.spec_params().build_git_strategy, ..self.spec_params() }),
    {
        let mut r = self;
        r.params.build_git_strategy = Some(value);
        r
    }

    /// The maximum amount of time in minutes a job is allowed to run
    pub fn build_timeout(self, value: u64) -> (r: Self)
        ensures
            r.spec_params().build_timeout == Some(value),
            r.spec_params() == (CreateProjectParams { build_timeout: r.spec_params().build_timeout, ..self.spec_params() }),
    {
        let mut r = self;
        r.params.build_timeout = Some(value);
        r
    }

    /// Auto-cancel pending pipeline
    pub fn auto_cancel_pending_pipelines(self, value: bool) -> (r: Self)
        ensures
            r.spec_params().auto_cancel_pending_pipelines == Some(value),
            r.spec_params() == (CreateProjectParams { auto_cancel_pending_pipelines: r.spec_params().auto_cancel_pending_pipelines, ..self.spec_params() }),
    {
        let mut r = self;
        r.params.auto_cancel_pending_pipelines = Some(value);
        r
    }

    /// Test coverage parsing
    pub fn build_coverage_regex(self, value: &str) -> (r: Self)
        ensures
            r.spec_params().build_coverage_regex matches Some(v) && v@ == value@,
            r.spec_params() == (CreateProjectParams { build_coverage_regex: r.spec_params().build_coverage_regex, ..self.spec_params() }),
    {
        let mut r = self;
        r.params.build_coverage_regex = Some(value.to_owned());
        r
    }

    /// The path to CI config file
    pub fn ci_config_path(self, value: &str) -> (r: Self)
        ensures
            r.spec_params().ci_config_path matches Some(v) && v@ == value@,
            r.spec_params() == (CreateProjectParams { ci_config_path: r.spec_params().ci_config_path, ..self.spec_params() }),
    {
        let mut r = self;
        r.params.ci_config_path = Some(value.to_owned());
        r
    }

    /// Enable Auto DevOps for this project
    pub fn auto_devops_enabled(self, value: bool) -> (r: Self)
        ensures
            r.spec_params().auto_devops_enabled == Some(value),
            r.spec_params() == (CreateProjectParams { auto_devops_enabled: r.spec_params().auto_devops_enabled, ..self.spec_params() }),
    {
        let mut r = self;
        r.params.auto_devops_enabled = Some(value);
        r
    }

    /// Auto Deploy strategy (`continuous`, `manual` or `timed_incremental`)
    pub fn auto_devops_deploy_strategy(self, value: &str) -> (r: Self)
        ensures
            r.spec_params().auto_devops_deploy_strategy matches Some(v) && v@ == value@,
            r.spec_params() == (CreateProjectParams { auto_devops_deploy_strategy: r.spec_params().auto_devops_deploy_strategy, ..self.spec_params() }),
    {
        let mut r = self;
        r.params.auto_devops_deploy_strategy = Some(value.to_owned());
        r
    }

    /// [Gitlab starter and higher]
    /// Which storage shard the repository is on. Available only to admins
    pub fn repository_storage(self, value: &str) -> (r: Self)
        ensures
            r.spec_params().repository_storage matches Some(v) && v@ == value@,
            r.spec_params() == (CreateProjectParams { repository_storage: r.spec_params().repository_storage, ..self.spec_params() }),
    {
        let mut r = self;
        r.params.repository_storage = Some(value.to_owned());
        r
    }

    /// [Gitlab starter and higher]
    /// How many approvers should approve merge requests by default
    pub fn approvals_before_merge(self, value: u64) -> (r: Self)
        ensures
            r.spec_params().approvals_before_merge == Some(value),
            r.spec_params() == (CreateProjectParams { approvals_before_merge: r.spec_params().approvals_before_merge, ..self.spec_params() }),
    {
        let mut r = self;
        r.params.approvals_before_merge = Some(value);
        r
    }

    /// [Gitlab starter and higher]
    /// The classification label for the project
    pub fn external_authorization_classification_label(self, value: &str) -> (r: Self)
        ensures
            r.spec_params().external_authorization_classification_label matches Some(v) && v@ == value@,
            r.spec_params() == (CreateProjectParams { external_authorization_classification_label: r.spec_params().external_authorization_classification_label, ..self.spec_params() }),
    {
        let mut r = self;
        r.params.external_authorization_classification_label = Some(value.to_owned());
        r
    }

    /// [Gitlab starter and higher] Enables pull mirroring in a project
    pub fn mirror(self, value: bool) -> (r: Self)
        ensures
            r.spec_params().mirror == Some(value),
            r.spec_params() == (CreateProjectParams { mirror: r.spec_params().mirror, ..self.spec_params() }),
    {
        let mut r = self;
        r.params.mirror = Some(value);
        r
    }

    /// [Gitlab starter and higher]
    /// Pull mirroring triggers builds
    pub fn mirror_trigger_builds(self, value: &str) -> (r: Self)
        ensures
            r.spec_params().mirror_trigger_builds matches Some(v) && v@ == value@,
            r.spec_params() == (CreateProjectParams { mirror_trigger_builds: r.spec_params().mirror_trigger_builds, ..self.spec_params() }),
    {
        let mut r = self;
        r.params.mirror_trigger_builds = Some(value.to_owned());
        r
    }

    /// `false` by default
    pub fn initialize_with_readme(self, value: bool) -> (r: Self)
        ensures
            r.spec_params().initialize_with_readme == Some(value),
            r.spec_params() == (CreateProjectParams { initialize_with_readme: r.spec_params().initialize_with_readme, ..self.spec_params() }),
    {
        let mut r = self;
        r.params.initialize_with_readme = Some(value);
        r
    }

    /// When used without `use_custom_template`, name of a built-in project template.
    /// When used with `use_custom_template`, name of a custom project template
    pub fn template_name(self, value: &str) -> (r: Self)
        ensures
            r.spec_params().template_name matches Some(v) && v@ == value@,
            r.spec_params() == (CreateProjectParams { template_name: r.spec_params().template_name, ..self.spec_params() }),
    {
        let mut r = self;
        r.params.template_name = Some(value.to_owned());
        r
    }

    /// [Gitlab silver and higher]
    /// When used with `use_custom_template`, project ID of a custom project template.
    /// This is preferable to using `template_name` since `template_name` may be ambiguous
    pub fn template_project_id(self, value: u64) -> (r: Self)
        ensures
            r.spec_params().template_project_id == Some(value),
            r.spec_params() == (CreateProjectParams { template_project_id: r.spec_params().template_project_id, ..self.spec_params() }),
    {
        let mut r = self;
        r.params.template_project_id = Some(value);
        r
    }

    /// [Gitlab silver and higher]
    /// When used with `use_custom_template`, project ID of a custom project template.
    /// This is preferable to using `template_name` since `template_name` may be ambiguous
    pub fn use_custom_template(self, value: bool) -> (r: Self)
        ensures
            r.spec_params().use_custom_template == Some(value),
            r.spec_params() == (CreateProjectParams { use_custom_template: r.spec_params().use_custom_template, ..self.spec_params() }),
    {
        let mut r = self;
        r.params.use_custom_template = Some(value);
        r
    }

    /// [Gitlab silver and higher]
    /// For group-level custom templates, specifies ID of group from which all the custom project templates are sourced.
    /// Leave empty for instance-level templates. Requires `use_custom_template` to be true
    pub fn group_with_project_templates_id(self, value: u64) -> (r: Self)
        ensures
            r.spec_params().group_with_project_templates_id == Some(value),
            r.spec_params() == (CreateProjectParams { group_with_project_templates_id: r.spec_params().group_with_project_templates_id, ..self.spec_params() }),
    {
        let mut r = self;
        r.params.group_with_project_templates_id = Some(value);
        r
    }

    /// [Gitlab silver and higher]
    /// Enable or disable packages repository feature
    pub fn packages_enabled(self, value: bool) -> (r: Self)
        ensures
            r.spec_params().packages_enabled == Some(value),
            r.spec_params() == (CreateProjectParams { packages_enabled: r.spec_params().packages_enabled, ..self.spec_params() }),
    {
        let mut r = self;
        r.params.packages_enabled = Some(value);
        r
    }

    /// URL to import repository from.
    pub fn import_url(self, url: &str) -> (r: Self)
        ensures
            r.spec_params().import_url matches Some(v) && v@ == url@,
            r.spec_params() == (CreateProjectParams {
                import_url: r.spec_params().import_url,
                ..self.spec_params()
            }),
    {
        let mut r = self;
        r.params.import_url = Some(url.to_owned());
        r
    }

    /// Build the parameters.
    pub fn build(self) -> (r: Result<CreateProjectParams, BuilderError>)
        ensures
            r matches Ok(p) && p == self.spec_params(),
    {
        Ok(self.params)
    }
}

impl<T: Into<UserBasic>> UserResult for T {}

impl From<User> for UserBasic {
    fn from(user: User) -> (r: Self) {
        UserBasic {
            username: user.username,
            name: user.name,
            id: user.id,
            state: user.state,
            avatar_url: user.avatar_url,
            web_url: user.web_url,
        }
    }
}

impl FromSpecImpl<User> for UserBasic {
    open spec fn obeys_from_spec() -> bool {
        true
    }

    open spec fn from_spec(user: User) -> UserBasic {
        UserBasic {
            username: user.username,
            name: user.name,
            id: user.id,
            state: user.state,
            avatar_url: user.avatar_url,
            web_url: user.web_url,
        }
    }
}

impl From<UserPublic> for UserBasic {
    fn from(user: UserPublic) -> (r: Self) {
        UserBasic {
            username: user.username,
            name: user.name,
            id: user.id,
            state: user.state,
            avatar_url: user.avatar_url,
            web_url: user.web_url,
        }
    }
}

impl FromSpecImpl<UserPublic> for UserBasic {
    open spec fn obeys_from_spec() -> bool {
        true
    }

    open spec fn from_spec(user: UserPublic) -> UserBasic {
        UserBasic {
            username: user.username,
            name: user.name,
            id: user.id,
            state: user.state,
            avatar_url: user.avatar_url,
            web_url: user.web_url,
        }
    }
}

impl From<UserPublic> for User {
    fn from(user: UserPublic) -> (r: Self) {
        User {
            username: user.username,
            name: user.name,
            id: user.id,
            state: user.state,
            avatar_url: user.avatar_url,
            web_url: user.web_url,
            created_at: user.created_at,
            is_admin: user.is_admin,
            highest_role: user.highest_role,
            bio: user.bio,
            private_profile: user.private_profile,
            location: user.location,
            public_email: user.public_email,
            skype: user.skype,
            linkedin: user.linkedin,
            twitter: user.twitter,
            website_url: user.website_url,
            organization: user.organization,
        }
    }
}

impl FromSpecImpl<UserPublic> for User {
    open spec fn obeys_from_spec() -> bool {
        true
    }

    open spec fn from_spec(user: UserPublic) -> User {
        User {
            username: user.username,
            name: user.name,
            id: user.id,
            state: user.state,
            avatar_url: user.avatar_url,
            web_url: user.web_url,
            created_at: user.created_at,
            is_admin: user.is_admin,
            highest_role: user.highest_role,
            bio: user.bio,
            private_profile: user.private_profile,
            location: user.location,
            public_email: user.public_email,
            skype: user.skype,
            linkedin: user.linkedin,
            twitter: user.twitter,
            website_url: user.website_url,
            organization: user.organization,
        }
    }
}

impl From<Member> for UserBasic {
    fn from(member: Member) -> (r: Self) {
        UserBasic {
            username: member.username,
            name: member.name,
            id: member.id,
            state: member.state,
            avatar_url: member.avatar_url,
            web_url: member.web_url,
        }
    }
}

impl FromSpecImpl<Member> for UserBasic {
    open spec fn obeys_from_spec() -> bool {
        true
    }

    open spec fn from_spec(member: Member) -> UserBasic {
        UserBasic {
            username: member.username,
            name: member.name,
            id: member.id,
            state: member.state,
            avatar_url: member.avatar_url,
            web_url: member.web_url,
        }
    }
}

impl From<AccessRequester> for UserBasic {
    fn from(member: AccessRequester) -> (r: Self) {
        UserBasic {
            username: member.username,
            name: member.name,
            id: member.id,
            state: member.state,
            avatar_url: member.avatar_url,
            web_url: member.web_url,
        }
    }
}

impl FromSpecImpl<AccessRequester> for UserBasic {
    open spec fn obeys_from_spec() -> bool {
        true
    }

    open spec fn from_spec(member: AccessRequester) -> UserBasic {
        UserBasic {
            username: member.username,
            name: member.name,
            id: member.id,
            state: member.state,
            avatar_url: member.avatar_url,
            web_url: member.web_url,
        }
    }
}

impl From<GroupDetail> for Group {
    fn from(detail: GroupDetail) -> (r: Self) {
        Group {
            id: detail.id,
            name: detail.name,
            path: detail.path,
            description: detail.description,
            visibility: detail.visibility,
            lfs_enabled: detail.lfs_enabled,
            avatar_url: detail.avatar_url,
            web_url: detail.web_url,
            request_access_enabled: detail.request_access_enabled,
            full_name: detail.full_name,
            full_path: detail.full_path,
            parent_id: detail.parent_id,
            statistics: detail.statistics,
        }
    }
}

impl FromSpecImpl<GroupDetail> for Group {
    open spec fn obeys_from_spec() -> bool {
        true
    }

    open spec fn from_spec(detail: GroupDetail) -> Group {
        Group {
            id: detail.id,
            name: detail.name,
            path: detail.path,
            description: detail.description,
            visibility: detail.visibility,
            lfs_enabled: detail.lfs_enabled,
            avatar_url: detail.avatar_url,
            web_url: detail.web_url,
            request_access_enabled: detail.request_access_enabled,
            full_name: detail.full_name,
            full_path: detail.full_path,
            parent_id: detail.parent_id,
            statistics: detail.statistics,
        }
    }
}

/// The events a webhook listener may receive, as the getters of
/// [`WebhookEvents`] report them.
pub struct WebhookEventSet {
    pub job: bool,
    pub issues: bool,
    pub confidential_issues: bool,
    pub merge_requests: bool,
    pub note: bool,
    pub pipeline: bool,
    pub push: bool,
    pub wiki_page: bool,
}

impl View for WebhookEvents {
    type V = WebhookEventSet;

    closed spec fn view(&self) -> WebhookEventSet {
        WebhookEventSet {
            job: self.job,
            issues: self.issues,
            confidential_issues: self.confidential_issues,
            merge_requests: self.merge_requests,
            note: self.note,
            pipeline: self.pipeline,
            push: self.push,
            wiki_page: self.wiki_page,
        }
    }
}

impl WebhookEvents {
    /// Create a new, empty webhook event set.
    pub fn new() -> (r: Self)
        ensures
            r@ == (WebhookEventSet {
                job: false,
                issues: false,
                confidential_issues: false,
                merge_requests: false,
                note: false,
                pipeline: false,
                push: false,
                wiki_page: false,
            }),
    {
        WebhookEvents {
            job: false,
            issues: false,
            confidential_issues: false,
            merge_requests: false,
            note: false,
            pipeline: false,
            push: false,
            wiki_page: false,
        }
    }

    /// Add job events to the set.
    pub fn with_job(self) -> (r: Self)
        ensures
            r@ == (WebhookEventSet { job: true, ..self@ }),
    {
        let mut r = self;
        r.job = true;
        r
    }

    /// Add issue events to the set.
    pub fn with_issues(self) -> (r: Self)
        ensures
            r@ == (WebhookEventSet { issues: true, ..self@ }),
    {
        let mut r = self;
        r.issues = true;
        r
    }

    /// Add confidential issue events to the set.
    ///
    /// This sets the same flag as `with_issues`.
    pub fn with_confidential_issues(self) -> (r: Self)
        ensures
            r@ == (WebhookEventSet { issues: true, ..self@ }),
    {
        let mut r = self;
        r.issues = true;
        r
    }

    /// Add merge request events to the set.
    pub fn with_merge_requests(self) -> (r: Self)
        ensures
            r@ == (WebhookEventSet { merge_requests: true, ..self@ }),
    {
        let mut r = self;
        r.merge_requests = true;
        r
    }

    /// Add note (comment) events to the set.
    pub fn with_note(self) -> (r: Self)
        ensures
            r@ == (WebhookEventSet { note: true, ..self@ }),
    {
        let mut r = self;
        r.note = true;
        r
    }

    /// Add pipeline events to the set.
    pub fn with_pipeline(self) -> (r: Self)
        ensures
            r@ == (WebhookEventSet { pipeline: true, ..self@ }),
    {
        let mut r = self;
        r.pipeline = true;
        r
    }

    /// Add push events to the set.
    pub fn with_push(self) -> (r: Self)
        ensures
            r@ == (WebhookEventSet { push: true, ..self@ }),
    {
        let mut r = self;
        r.push = true;
        r
    }

    /// Add wiki page events to the set.
    pub fn with_wiki_page(self) -> (r: Self)
        ensures
            r@ == (WebhookEventSet { wiki_page: true, ..self@ }),
    {
        let mut r = self;
        r.wiki_page = true;
        r
    }

    /// Whether job events are in the set.
    pub fn job(&self) -> (r: bool)
        ensures
            r == self@.job,
    {
        self.job
    }

    /// Whether issue events are in the set.
    pub fn issues(&self) -> (r: bool)
        ensures
            r == self@.issues,
    {
        self.issues
    }

    /// Whether confidential issue events are in the set.
    pub fn confidential_issues(&self) -> (r: bool)
        ensures
            r == self@.confidential_issues,
    {
        self.confidential_issues
    }

    /// Whether merge request events are in the set.
    pub fn merge_requests(&self) -> (r: bool)
        ensures
            r == self@.merge_requests,
    {
        self.merge_requests
    }

    /// Whether note (comment) events are in the set.
    pub fn note(&self) -> (r: bool)
        ensures
            r == self@.note,
    {
        self.note
    }

    /// Whether pipeline events are in the set.
    pub fn pipeline(&self) -> (r: bool)
        ensures
            r == self@.pipeline,
    {
        self.pipeline
    }

    /// Whether push events are in the set.
    pub fn push(&self) -> (r: bool)
        ensures
            r == self@.push,
    {
        self.push
    }

    /// Whether wiki page events are in the set.
    pub fn wiki_page(&self) -> (r: bool)
        ensures
            r == self@.wiki_page,
    {
        self.wiki_page
    }
}

impl Project {
    /// Whether Gitlab sent the links to related API URLs.
    pub fn has_links(&self) -> (r: bool)
        ensures
            r == self._links is Some,
    {
        self._links.is_some()
    }
}

impl AccessLevel {
    /// The number Gitlab uses for the access level.
    pub open spec fn spec_value(self) -> u64 {
        match self {
            AccessLevel::Anonymous => 0,
            AccessLevel::Guest => 10,
            AccessLevel::Reporter => 20,
            AccessLevel::Developer => 30,
            AccessLevel::Maintainer => 40,
            AccessLevel::Owner => 50,
            AccessLevel::Admin => 60,
        }
    }

    /// The highest access level whose number is at most `access`.
    pub open spec fn spec_from_value(access: u64) -> AccessLevel {
        if access >= 60 {
            AccessLevel::Admin
        } else if access >= 50 {
            AccessLevel::Owner
        } else if access >= 40 {
            AccessLevel::Maintainer
        } else if access >= 30 {
            AccessLevel::Developer
        } else if access >= 20 {
            AccessLevel::Reporter
        } else if access >= 10 {
            AccessLevel::Guest
        } else {
            AccessLevel::Anonymous
        }
    }

    /// The name of the access level.
    pub open spec fn spec_as_str(self) -> Seq<char> {
        match self {
            AccessLevel::Admin => "admin"@,
            AccessLevel::Owner => "owner"@,
            AccessLevel::Developer => "developer"@,
            AccessLevel::Anonymous => "anonymous"@,
            AccessLevel::Guest => "guest"@,
            AccessLevel::Maintainer => "maintainer"@,
            AccessLevel::Reporter => "reporter"@,
        }
    }

    /// The name of the access level.
    pub fn as_str(&self) -> (r: &'static str)
        ensures
            r@ == self.spec_as_str(),
    {
        match self {
            AccessLevel::Admin => "admin",
            AccessLevel::Owner => "owner",
            AccessLevel::Developer => "developer",
            AccessLevel::Anonymous => "anonymous",
            AccessLevel::Guest => "guest",
            AccessLevel::Maintainer => "maintainer",
            AccessLevel::Reporter => "reporter",
        }
    }

    /// The number of the access level, written in decimal.
    pub fn to_string(&self) -> (r: String)
        ensures
            r@ == u64_text(self.spec_value()),
    {
        decimal_string(u64::from(*self))
    }

    /// Reading the number of an access level gives the level back.
    pub proof fn lemma_value_round_trip(self)
        ensures
            AccessLevel::spec_from_value(self.spec_value()) == self,
    {
    }

    /// Reading a number gives the highest level whose number is at most it.
    pub proof fn lemma_from_value_is_floor(access: u64, level: AccessLevel)
        ensures
            AccessLevel::spec_from_value(access).spec_value() <= access || access < 10,
            level.spec_value() <= access ==> level.spec_value() <= AccessLevel::spec_from_value(
                access,
            ).spec_value(),
    {
    }

    /// Reading numbers keeps their order.
    pub proof fn lemma_from_value_monotonic(a: u64, b: u64)
        requires
            a <= b,
        ensures
            AccessLevel::spec_from_value(a).spec_value() <= AccessLevel::spec_from_value(
                b,
            ).spec_value(),
    {
    }
}

impl From<AccessLevel> for u64 {
    fn from(access: AccessLevel) -> (r: u64) {
        match access {
            AccessLevel::Anonymous => 0,
            AccessLevel::Guest => 10,
            AccessLevel::Reporter => 20,
            AccessLevel::Developer => 30,
            AccessLevel::Maintainer => 40,
            AccessLevel::Owner => 50,
            AccessLevel::Admin => 60,
        }
    }
}

impl FromSpecImpl<AccessLevel> for u64 {
    open spec fn obeys_from_spec() -> bool {
        true
    }

    open spec fn from_spec(access: AccessLevel) -> u64 {
        access.spec_value()
    }
}

impl From<u64> for AccessLevel {
    fn from(access: u64) -> (r: Self) {
        if access >= 60 {
            AccessLevel::Admin
        } else if access >= 50 {
            AccessLevel::Owner
        } else if access >= 40 {
            AccessLevel::Maintainer
        } else if access >= 30 {
            AccessLevel::Developer
        } else if access >= 20 {
            AccessLevel::Reporter
        } else if access >= 10 {
            AccessLevel::Guest
        } else {
            AccessLevel::Anonymous
        }
    }
}

impl FromSpecImpl<u64> for AccessLevel {
    open spec fn obeys_from_spec() -> bool {
        true
    }

    open spec fn from_spec(access: u64) -> AccessLevel {
        AccessLevel::spec_from_value(access)
    }
}

impl View for ObjectId {
    type V = Seq<char>;

    closed spec fn view(&self) -> Seq<char> {
        self.0@
    }
}

impl ObjectId {
    /// Construct a new `ObjectId`
    pub fn new(oid: &str) -> (r: Self)
        ensures
            r@ == oid@,
    {
        ObjectId(oid.to_owned())
    }

    /// The value of the id.
    pub fn value(&self) -> (r: &String)
        ensures
            r@ == self@,
    {
        &self.0
    }
}

impl Milestone {
    /// Create a new blank milestone: it needs at least the ProjectId and title
    /// ProjectId and title are mandatory for new milestone API of Gitlab
    pub fn new_for_project(project_id: ProjectId, title: String) -> (r: Milestone)
        ensures
            r.id@ == 0,
            r.iid@ == 0,
            r.project_id == Some(project_id),
            r.group_id is None,
            r.title == title,
            r.description is None,
            r.state == MilestoneState::Active,
            r.due_date is None,
            r.start_date is None,
    {
        Milestone {
            id: MilestoneId::new(0),
            iid: MilestoneInternalId::new(0),
            project_id: Some(project_id),
            group_id: None,
            title,
            description: None,
            state: MilestoneState::Active,
            created_at: Timestamp::now(),
            updated_at: Timestamp::now(),
            due_date: None,
            start_date: None,
        }
    }

    /// Create a new blank group milestone: it needs at least the GroupId and title
    /// GroupId and title are mandatory for new milestone API of Gitlab
    pub fn new_for_group(group_id: GroupId, title: String) -> (r: Milestone)
        ensures
            r.id@ == 0,
            r.iid@ == 0,
            r.project_id is None,
            r.group_id == Some(group_id),
            r.title == title,
            r.description is None,
            r.state == MilestoneState::Active,
            r.due_date is None,
            r.start_date is None,
    {
        Milestone {
            id: MilestoneId::new(0),
            iid: MilestoneInternalId::new(0),
            project_id: None,
            group_id: Some(group_id),
            title,
            description: None,
            state: MilestoneState::Active,
            created_at: Timestamp::now(),
            updated_at: Timestamp::now(),
            due_date: None,
            start_date: None,
        }
    }

    /// Complements the milestone with optional paramater: description
    pub fn with_description(self, description: String) -> (r: Milestone)
        ensures
            r == (Milestone { description: Some(description), ..self }),
    {
        let mut r = self;
        r.description = Some(description);
        r
    }

    /// Complements the milestone with optional parameter: due_date
    pub fn with_due_date(self, due_date: Date) -> (r: Milestone)
        ensures
            r == (Milestone { due_date: Some(due_date), ..self }),
    {
        let mut r = self;
        r.due_date = Some(due_date);
        r
    }

    /// Complements the milestone with optional parameter: start_date
    pub fn with_start_date(self, start_date: Date) -> (r: Milestone)
        ensures
            r == (Milestone { start_date: Some(start_date), ..self }),
    {
        let mut r = self;
        r.start_date = Some(start_date);
        r
    }
}

/// The uppercase hexadecimal digits of a byte.
pub open spec fn hex_pair(n: u8) -> Seq<char> {
    seq![hex_upper(n / 16) as char, hex_upper(n % 16) as char]
}

/// The color which an HTML color name stands for, as six hexadecimal digits
/// (gray for names that are not known).
pub open spec fn html_color_hex(name: Seq<char>) -> Seq<char> {
    if name == "white"@ {
        "FFFFFF"@
    } else if name == "silver"@ {
        "C0C0C0"@
    } else if name == "gray"@ {
        "808080"@
    } else if name == "black"@ {
        "000000"@
    } else if name == "red"@ {
        "FF0000"@
    } else if name == "maroon"@ {
        "800000"@
    } else if name == "yellow"@ {
        "FFFF00"@
    } else if name == "olive"@ {
        "808000"@
    } else if name == "lime"@ {
        "00FF00"@
    } else if name == "green"@ {
        "008000"@
    } else if name == "aqua"@ {
        "00FFFF"@
    } else if name == "teal"@ {
        "008080"@
    } else if name == "blue"@ {
        "0000FF"@
    } else if name == "navy"@ {
        "000080"@
    } else if name == "fuchsia"@ {
        "FF00FF"@
    } else if name == "purple"@ {
        "800080"@
    } else {
        "808080"@
    }
}

impl View for LabelColor {
    type V = Seq<char>;

    closed spec fn view(&self) -> Seq<char> {
        self.0@
    }
}

/// Appends the two uppercase hexadecimal digits of `n`.
fn push_hex_pair(s: &mut String, n: u8)
    ensures
        final(s)@ == old(s)@ + hex_pair(n),
{
    let hi = hex_digit(n / 16);
    let lo = hex_digit(n % 16);
    string_push(s, hi);
    string_push(s, lo);
}

/// The uppercase hexadecimal digit of a number below 16.
fn hex_digit(n: u8) -> (r: char)
    requires
        n < 16,
    ensures
        r == hex_upper(n) as char,
{
    if n < 10 {
        ((48u8 + n) as char)
    } else {
        ((65u8 + (n - 10)) as char)
    }
}

impl LabelColor {
    /// Creates a LabelColor from RGB values
    pub fn from_rgb(r: u8, g: u8, b: u8) -> (c: LabelColor)
        ensures
            c@ == seq!['#'] + hex_pair(r) + hex_pair(g) + hex_pair(b),
    {
        let mut s = String::new();
        string_push(&mut s, '#');
        push_hex_pair(&mut s, r);
        push_hex_pair(&mut s, g);
        push_hex_pair(&mut s, b);
        LabelColor(s)
    }

    /// The value of the color, borrowed.
    pub fn value_str(&self) -> (r: &str)
        ensures
            r@ == self@,
    {
        self.0.as_str()
    }

    /// Get the value from a LabelColor
    pub fn value(self) -> (r: String)
        ensures
            r@ == self@,
    {
        self.0
    }

    /// Creates a LabelColor from standard HTML values (gray for names that
    /// are not known).
    pub fn from_html_name(stdcolor: &str) -> (c: LabelColor)
        ensures
            c@ == seq!['#'] + html_color_hex(stdcolor@),
    {
        let hex = if str_eq(stdcolor, "white") {
            "FFFFFF"
        } else if str_eq(stdcolor, "silver") {
            "C0C0C0"
        } else if str_eq(stdcolor, "gray") {
            "808080"
        } else if str_eq(stdcolor, "black") {
            "000000"
        } else if str_eq(stdcolor, "red") {
            "FF0000"
        } else if str_eq(stdcolor, "maroon") {
            "800000"
        } else if str_eq(stdcolor, "yellow") {
            "FFFF00"
        } else if str_eq(stdcolor, "olive") {
            "808000"
        } else if str_eq(stdcolor, "lime") {
            "00FF00"
        } else if str_eq(stdcolor, "green") {
            "008000"
        } else if str_eq(stdcolor, "aqua") {
            "00FFFF"
        } else if str_eq(stdcolor, "teal") {
            "008080"
        } else if str_eq(stdcolor, "blue") {
            "0000FF"
        } else if str_eq(stdcolor, "navy") {
            "000080"
        } else if str_eq(stdcolor, "fuchsia") {
            "FF00FF"
        } else if str_eq(stdcolor, "purple") {
            "800080"
        } else {
            "808080"
        };
        proof {
            reveal_strlit("#");
        }
        LabelColor(concat_str("#", hex))
    }
}

impl FromStr for LabelColor {
    type Err = ();

    /// Creates a LabelColor from standard HTML values
    fn from_str(stdcolor: &str) -> (r: Result<Self, Self::Err>)
        ensures
            r matches Ok(c) && c@ == seq!['#'] + html_color_hex(stdcolor@),
    {
        Ok(LabelColor::from_html_name(stdcolor))
    }
}

impl Label {
    /// Create a new Label: it needs at least a name and a color.
    /// ProjectId is mandatory for Gitlab API
    pub fn new(name: String, color: LabelColor) -> (r: Label)
        ensures
            r.id@ == 0,
            r.name == name,
            r.color == color,
            r.description is None,
            r.open_issues_count is None,
            r.closed_issues_count is None,
            r.open_merge_requests_count is None,
            !r.subscribed,
            r.priority is None,
    {
        Label {
            id: LabelId::new(0),
            name,
            color,
            description: None,
            open_issues_count: None,
            closed_issues_count: None,
            open_merge_requests_count: None,
            subscribed: false,
            priority: None,
        }
    }

    /// Complements the label with optional parameter: description
    pub fn with_description(self, description: String) -> (r: Label)
        ensures
            r == (Label { description: Some(description), ..self }),
    {
        let mut r = self;
        r.description = Some(description);
        r
    }

    /// Complements the label with optional parameter: priority
    pub fn with_priority(self, priority: u64) -> (r: Label)
        ensures
            r == (Label { priority: Some(priority), ..self }),
    {
        let mut r = self;
        r.priority = Some(priority);
        r
    }
}

impl Issue {
    /// Creates a new blank issue: it needs at least the ProjectId, title and author
    /// ProjectId and author are mandatory in the Issue struct itself
    /// title is mandatory for the new issue API of Gitlab
    pub fn new(project_id: ProjectId, title: String, author: UserBasic) -> (r: Issue)
        ensures
            r.id@ == 0,
            r.iid@ == 0,
            r.project_id == project_id,
            r.title == title,
            r.description is None,
            r.state == IssueState::Opened,
            r.closed_at is None,
            r.closed_by is None,
            r.labels@.len() == 0,
            r.milestone is None,
            r.author == author,
            r.assignee is None,
            r.assignees is None,
            r.subscribed is None,
            r.time_stats.time_estimate == 0,
            r.time_stats.total_time_spent == 0,
            r.time_stats.human_time_estimate is None,
            r.time_stats.human_total_time_spent is None,
            r.user_notes_count == 0,
            r.merge_requests_count == 0,
            r.upvotes == 0,
            r.downvotes == 0,
            r.due_date is None,
            r.has_tasks is None,
            !r.confidential,
            r.discussion_locked is None,
            r.web_url@.len() == 0,
            r._links is None,
    {
        Issue {
            id: IssueId::new(0),
            iid: IssueInternalId::new(0),
            project_id,
            title,
            description: None,
            state: IssueState::Opened,
            created_at: Timestamp::now(),
            updated_at: Timestamp::now(),
            closed_at: None,
            closed_by: None,
            labels: Vec::new(),
            milestone: None,
            author,
            assignee: None,
            assignees: None,
            subscribed: None,
            time_stats: IssuableTimeStats {
                time_estimate: 0,
                total_time_spent: 0,
                human_time_estimate: None,
                human_total_time_spent: None,
            },
            user_notes_count: 0,
            merge_requests_count: 0,
            upvotes: 0,
            downvotes: 0,
            due_date: None,
            has_tasks: None,
            confidential: false,
            discussion_locked: None,
            web_url: String::new(),
            _links: None,
        }
    }

    /// Complements the issue with optional parameter: iid
    pub fn with_iid(self, iid: IssueInternalId) -> (r: Issue)
        ensures
            r == (Issue { iid, ..self }),
    {
        let mut r = self;
        r.iid = iid;
        r
    }

    /// Complements the issue with optional parameter: description
    pub fn with_description(self, description: String) -> (r: Issue)
        ensures
            r == (Issue { description: Some(description), ..self }),
    {
        let mut r = self;
        r.description = Some(description);
        r
    }

    /// Complements the issue with optional parameter: confidential
    pub fn with_confidential(self, confidential: bool) -> (r: Issue)
        ensures
            r == (Issue { confidential, ..self }),
    {
        let mut r = self;
        r.confidential = confidential;
        r
    }

    /// Complements the issue with optional parameter: assignees
    pub fn with_assignees(self, assignees: Vec<UserBasic>) -> (r: Issue)
        ensures
            r == (Issue { assignees: Some(assignees), ..self }),
    {
        let mut r = self;
        r.assignees = Some(assignees);
        r
    }

    /// Complements the issue with optional parameter: milestone
    pub fn with_milestone(self, milestone: Milestone) -> (r: Issue)
        ensures
            r == (Issue { milestone: Some(milestone), ..self }),
    {
        let mut r = self;
        r.milestone = Some(milestone);
        r
    }

    /// Complements the issue with optional parameter: labels
    pub fn with_labels(self, labels: Vec<String>) -> (r: Issue)
        ensures
            r == (Issue { labels, ..self }),
    {
        let mut r = self;
        r.labels = labels;
        r
    }

    /// Complements the issue with optional parameter: created_at
    pub fn with_created_at(self, created_at: Timestamp) -> (r: Issue)
        ensures
            r == (Issue { created_at, ..self }),
    {
        let mut r = self;
        r.created_at = created_at;
        r
    }

    /// Complements the issue with optional parameter: due_date
    pub fn with_due_date(self, due_date: Date) -> (r: Issue)
        ensures
            r == (Issue { due_date: Some(due_date), ..self }),
    {
        let mut r = self;
        r.due_date = Some(due_date);
        r
    }

    /// Whether Gitlab sent the links to related API URLs.
    pub fn has_links(&self) -> (r: bool)
        ensures
            r == self._links is Some,
    {
        self._links.is_some()
    }
}

impl From<MergeRequestChanges> for MergeRequest {
    fn from(mr: MergeRequestChanges) -> (r: Self) {
        MergeRequest {
            id: mr.id,
            iid: mr.iid,
            project_id: mr.project_id,
            title: mr.title,
            description: mr.description,
            state: mr.state,
            created_at: mr.created_at,
            updated_at: mr.updated_at,
            merged_at: mr.merged_at,
            closed_at: mr.closed_at,
            merged_by: mr.merged_by,
            closed_by: mr.closed_by,
            target_branch: mr.target_branch,
            source_branch: mr.source_branch,
            upvotes: mr.upvotes,
            downvotes: mr.downvotes,
            author: mr.author,
            assignee: mr.assignee,
            assignees: mr.assignees,
            source_project_id: mr.source_project_id,
            target_project_id: mr.target_project_id,
            labels: mr.labels,
            work_in_progress: mr.work_in_progress,
            allow_collaboration: mr.allow_collaboration,
            allow_maintainer_to_push: mr.allow_maintainer_to_push,
            milestone: mr.milestone,
            squash: mr.squash,
            merge_when_pipeline_succeeds: mr.merge_when_pipeline_succeeds,
            merge_status: mr.merge_status,
            sha: mr.sha,
            diff_refs: mr.diff_refs,
            merge_error: mr.merge_error,
            rebase_in_progress: mr.rebase_in_progress,
            merge_commit_sha: mr.merge_commit_sha,
            squash_commit_sha: mr.squash_commit_sha,
            subscribed: mr.subscribed,
            time_stats: mr.time_stats,
            blocking_discussions_resolved: mr.blocking_discussions_resolved,
            changes_count: mr.changes_count,
            user_notes_count: mr.user_notes_count,
            discussion_locked: mr.discussion_locked,
            should_remove_source_branch: mr.should_remove_source_branch,
            force_remove_source_branch: mr.force_remove_source_branch,
            has_conflicts: mr.has_conflicts,
            user: Some(mr.user),
            web_url: mr.web_url,
            pipeline: mr.pipeline,
        }
    }
}

impl FromSpecImpl<MergeRequestChanges> for MergeRequest {
    open spec fn obeys_from_spec() -> bool {
        true
    }

    open spec fn from_spec(mr: MergeRequestChanges) -> MergeRequest {
        MergeRequest {
            id: mr.id,
            iid: mr.iid,
            project_id: mr.project_id,
            title: mr.title,
            description: mr.description,
            state: mr.state,
            created_at: mr.created_at,
            updated_at: mr.updated_at,
            merged_at: mr.merged_at,
            closed_at: mr.closed_at,
            merged_by: mr.merged_by,
            closed_by: mr.closed_by,
            target_branch: mr.target_branch,
            source_branch: mr.source_branch,
            upvotes: mr.upvotes,
            downvotes: mr.downvotes,
            author: mr.author,
            assignee: mr.assignee,
            assignees: mr.assignees,
            source_project_id: mr.source_project_id,
            target_project_id: mr.target_project_id,
            labels: mr.labels,
            work_in_progress: mr.work_in_progress,
            allow_collaboration: mr.allow_collaboration,
            allow_maintainer_to_push: mr.allow_maintainer_to_push,
            milestone: mr.milestone,
            squash: mr.squash,
            merge_when_pipeline_succeeds: mr.merge_when_pipeline_succeeds,
            merge_status: mr.merge_status,
            sha: mr.sha,
            diff_refs: mr.diff_refs,
            merge_error: mr.merge_error,
            rebase_in_progress: mr.rebase_in_progress,
            merge_commit_sha: mr.merge_commit_sha,
            squash_commit_sha: mr.squash_commit_sha,
            subscribed: mr.subscribed,
            time_stats: mr.time_stats,
            blocking_discussions_resolved: mr.blocking_discussions_resolved,
            changes_count: mr.changes_count,
            user_notes_count: mr.user_notes_count,
            discussion_locked: mr.discussion_locked,
            should_remove_source_branch: mr.should_remove_source_branch,
            force_remove_source_branch: mr.force_remove_source_branch,
            has_conflicts: mr.has_conflicts,
            user: Some(mr.user),
            web_url: mr.web_url,
            pipeline: mr.pipeline,
        }
    }
}

impl Note {
    /// The ID of the entity the note is attached to.
    pub fn noteable_id(&self) -> (r: Option<NoteableId>)
        ensures
            match self.noteable_type {
                NoteType::Commit => match self.noteable_id.spec_as_str() {
                    Some(s) => r matches Some(NoteableId::Commit(o)) && o@ == s,
                    None => r is None,
                },
                NoteType::Issue => match self.noteable_id.spec_as_u64() {
                    Some(n) => r matches Some(NoteableId::Issue(i)) && i@ == n,
                    None => r is None,
                },
                NoteType::MergeRequest => match self.noteable_id.spec_as_u64() {
                    Some(n) => r matches Some(NoteableId::MergeRequest(i)) && i@ == n,
                    None => r is None,
                },
                NoteType::Snippet => match self.noteable_id.spec_as_u64() {
                    Some(n) => r matches Some(NoteableId::Snippet(i)) && i@ == n,
                    None => r is None,
                },
            },
    {
        match self.noteable_type {
            NoteType::Commit => match self.noteable_id.as_str() {
                Some(id) => Some(NoteableId::Commit(ObjectId::new(id))),
                None => None,
            },
            NoteType::Issue => match self.noteable_id.as_u64() {
                Some(id) => Some(NoteableId::Issue(IssueId::new(id))),
                None => None,
            },
            NoteType::MergeRequest => match self.noteable_id.as_u64() {
                Some(id) => Some(NoteableId::MergeRequest(MergeRequestId::new(id))),
                None => None,
            },
            NoteType::Snippet => match self.noteable_id.as_u64() {
                Some(id) => Some(NoteableId::Snippet(SnippetId::new(id))),
                None => None,
            },
        }
    }

    /// The internal ID of the entity the note is attached to (internal to a project).
    /// This is available only for notes attached to issues and merge requests.
    pub fn noteable_iid(&self) -> (r: Option<NoteableInternalId>)
        ensures
            match self.noteable_type {
                NoteType::Issue => match self.noteable_iid {
                    Some(v) => match v.spec_as_u64() {
                        Some(n) => r matches Some(NoteableInternalId::Issue(i)) && i@ == n,
                        None => r is None,
                    },
                    None => r is None,
                },
                NoteType::MergeRequest => match self.noteable_iid {
                    Some(v) => match v.spec_as_u64() {
                        Some(n) => r matches Some(NoteableInternalId::MergeRequest(i)) && i@
                            == n,
                        None => r is None,
                    },
                    None => r is None,
                },
                _ => r is None,
            },
    {
        match self.noteable_type {
            NoteType::Commit => None,
            NoteType::Issue => match &self.noteable_iid {
                Some(value) => match value.as_u64() {
                    Some(id) => Some(NoteableInternalId::Issue(IssueInternalId::new(id))),
                    None => None,
                },
                None => None,
            },
            NoteType::MergeRequest => match &self.noteable_iid {
                Some(value) => match value.as_u64() {
                    Some(id) => Some(
                        NoteableInternalId::MergeRequest(MergeRequestInternalId::new(id)),
                    ),
                    None => None,
                },
                None => None,
            },
            NoteType::Snippet => None,
        }
    }
}

impl AwardEmoji {
    /// The ID of the entity the award is attached to.
    pub fn awardable_id(&self) -> (r: AwardableId)
        ensures
            match self.awardable_type {
                AwardableType::Issue => r matches AwardableId::Issue(i) && i@ == self.awardable_id,
                AwardableType::MergeRequest => r matches AwardableId::MergeRequest(i) && i@
                    == self.awardable_id,
                AwardableType::Snippet => r matches AwardableId::Snippet(i) && i@
                    == self.awardable_id,
                AwardableType::Note => r matches AwardableId::Note(i) && i@ == self.awardable_id,
            },
    {
        match self.awardable_type {
            AwardableType::Issue => AwardableId::Issue(IssueId::new(self.awardable_id)),
            AwardableType::MergeRequest => {
                AwardableId::MergeRequest(MergeRequestId::new(self.awardable_id))
            },
            AwardableType::Snippet => AwardableId::Snippet(SnippetId::new(self.awardable_id)),
            AwardableType::Note => AwardableId::Note(NoteId::new(self.awardable_id)),
        }
    }
}

impl Event {
    /// The ID of an event's target.
    pub fn target_id(&self) -> (r: Option<EventTargetId>)
        ensures
            match self.target_type {
                EventTargetType::Commit => match self.target_id.spec_as_str() {
                    Some(s) => r matches Some(EventTargetId::Commit(o)) && o@ == s,
                    None => r is None,
                },
                EventTargetType::Issue => match self.target_id.spec_as_u64() {
                    Some(n) => r matches Some(EventTargetId::Issue(i)) && i@ == n,
                    None => r is None,
                },
                EventTargetType::MergeRequest => match self.target_id.spec_as_u64() {
                    Some(n) => r matches Some(EventTargetId::MergeRequest(i)) && i@ == n,
                    None => r is None,
                },
                EventTargetType::Snippet | EventTargetType::ProjectSnippet => match self.target_id.spec_as_u64() {
                    Some(n) => r matches Some(EventTargetId::Snippet(i)) && i@ == n,
                    None => r is None,
                },
            },
    {
        match self.target_type {
            EventTargetType::Commit => match self.target_id.as_str() {
                Some(id) => Some(EventTargetId::Commit(ObjectId::new(id))),
                None => None,
            },
            EventTargetType::Issue => match self.target_id.as_u64() {
                Some(id) => Some(EventTargetId::Issue(IssueId::new(id))),
                None => None,
            },
            EventTargetType::MergeRequest => match self.target_id.as_u64() {
                Some(id) => Some(EventTargetId::MergeRequest(MergeRequestId::new(id))),
                None => None,
            },
            EventTargetType::Snippet => match self.target_id.as_u64() {
                Some(id) => Some(EventTargetId::Snippet(SnippetId::new(id))),
                None => None,
            },
            EventTargetType::ProjectSnippet => match self.target_id.as_u64() {
                Some(id) => Some(EventTargetId::Snippet(SnippetId::new(id))),
                None => None,
            },
        }
    }
}

impl Namespace {
    /// The ID of the namespace.
    pub fn id(&self) -> (r: NamespaceId)
        ensures
            match self.kind {
                NamespaceKind::User => r matches NamespaceId::User(u) && u@ == self.id,
                NamespaceKind::Group => r matches NamespaceId::Group(g) && g@ == self.id,
            },
    {
        match self.kind {
            NamespaceKind::User => NamespaceId::User(UserId::new(self.id)),
            NamespaceKind::Group => NamespaceId::Group(GroupId::new(self.id)),
        }
    }
}

impl Default for PipelineVariableType {
    fn default() -> (r: Self)
        ensures
            r == PipelineVariableType::EnvVar,
    {
        PipelineVariableType::EnvVar
    }
}

impl ResourceLabelEvent {
    /// Returns the id of the merge request or issue that this event is from
    pub fn event_target(&self) -> (r: Option<ResourceLabelEventTarget>)
        ensures
            if self.resource_type@ == "MergeRequest"@ {
                r matches Some(ResourceLabelEventTarget::MergeRequest(i)) && i@ == self.resource_id
            } else if self.resource_type@ == "Issue"@ {
                r matches Some(ResourceLabelEventTarget::Issue(i)) && i@ == self.resource_id
            } else {
                r is None
            },
    {
        if str_eq(self.resource_type.as_str(), "MergeRequest") {
            Some(ResourceLabelEventTarget::MergeRequest(MergeRequestId::new(self.resource_id)))
        } else if str_eq(self.resource_type.as_str(), "Issue") {
            Some(ResourceLabelEventTarget::Issue(IssueId::new(self.resource_id)))
        } else {
            None
        }
    }
}

impl ProjectFeatures {
    /// The name of the parameter which sets the feature's access level.
    pub open spec fn spec_name(&self) -> Seq<char> {
        match self {
            ProjectFeatures::Issues(_) => "issues_access_level"@,
            ProjectFeatures::Repository(_) => "repository_access_level"@,
            ProjectFeatures::MergeRequests(_) => "merge_requests_access_level"@,
            ProjectFeatures::Builds(_) => "builds_access_level"@,
            ProjectFeatures::Wiki(_) => "wiki_access_level"@,
            ProjectFeatures::Snippets(_) => "snippets_access_level"@,
        }
    }

    /// The access level given to the feature.
    pub open spec fn spec_access_level(&self) -> FeatureVisibilityLevel {
        match self {
            ProjectFeatures::Issues(a) => *a,
            ProjectFeatures::Repository(a) => *a,
            ProjectFeatures::MergeRequests(a) => *a,
            ProjectFeatures::Builds(a) => *a,
            ProjectFeatures::Wiki(a) => *a,
            ProjectFeatures::Snippets(a) => *a,
        }
    }

    /// The name of the parameter which sets the feature's access level.
    pub fn name(&self) -> (r: &'static str)
        ensures
            r@ == self.spec_name(),
    {
        match self {
            ProjectFeatures::Issues(_) => "issues_access_level",
            ProjectFeatures::Repository(_) => "repository_access_level",
            ProjectFeatures::MergeRequests(_) => "merge_requests_access_level",
            ProjectFeatures::Builds(_) => "builds_access_level",
            ProjectFeatures::Wiki(_) => "wiki_access_level",
            ProjectFeatures::Snippets(_) => "snippets_access_level",
        }
    }

    /// The access level given to the feature.
    pub fn access_level(&self) -> (r: &FeatureVisibilityLevel)
        ensures
            *r == self.spec_access_level(),
    {
        match self {
            ProjectFeatures::Issues(a) => a,
            ProjectFeatures::Repository(a) => a,
            ProjectFeatures::MergeRequests(a) => a,
            ProjectFeatures::Builds(a) => a,
            ProjectFeatures::Wiki(a) => a,
            ProjectFeatures::Snippets(a) => a,
        }
    }
}

} // verus!
