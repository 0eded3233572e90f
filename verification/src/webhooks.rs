//! Web hook structures
//!
//! These hooks are received from Gitlab when registered as a web hook within a project.
//!
//! Gitlab does not have consistent structures for its hooks, so they often change from
//! version to version.
//!
//! Reading a payload into these structures is left to the caller; this module reads the parts
//! whose meaning depends on other fields: the kind of a hook, its dates, and the identifiers
//! whose JSON type varies.

use chrono::TimeZone;
use vstd::prelude::*;
use vstd::string::*;

use crate::common::{rfc3339_seconds, str_eq, Date, Timestamp};
use crate::json::{first_member, JsonValue};
use crate::types::{
    IssueId, IssueInternalId, IssueState, JobId, MergeRequestId, MergeRequestInternalId,
    MergeRequestState, MergeStatus, MilestoneId, NoteId, NoteType, NoteableId, ObjectId,
    PipelineId, ProjectId, RunnerId, SnippetId, StatusState, UserId,
};

verus! {

/// A wrapper struct for dates in web hooks.
///
/// Gitlab does not use a standard date format for dates in web hooks. This structure supports
/// deserializing the formats that have been observed.
#[derive(Debug, Clone)]
pub struct HookDate(Timestamp);

/// Project information exposed in hooks.
#[derive(Debug, Clone)]
pub struct ProjectHookAttrs {
    /// The display name of the project.
    pub name: String,
    /// The description of the project.
    pub description: Option<String>,
    /// The URL for the project's homepage.
    pub web_url: String,
    /// The URL to the project avatar.
    pub avatar_url: Option<String>,
    /// The URL to clone the repository over SSH.
    pub git_ssh_url: String,
    /// The URL to clone the repository over HTTPS.
    pub git_http_url: String,
    /// The namespace the project lives in.
    pub namespace: String,
    /// Integral value for the project's visibility.
    pub visibility_level: u64,
    /// The path to the project's repository with its namespace.
    pub path_with_namespace: String,
    /// The default branch for the project.
    pub default_branch: Option<String>,
    pub homepage: String,
    pub http_url: String,
    pub ssh_url: String,
    pub url: String,
}

/// Wiki project information exposed in hooks.
#[derive(Debug, Clone)]
pub struct ProjectWikiHookAttrs {
    /// The URL for the project's homepage.
    pub web_url: String,
    /// The URL to clone the repository over SSH.
    pub git_ssh_url: String,
    /// The URL to clone the repository over HTTPS.
    pub git_http_url: String,
    /// The path to the project's repository with its namespace.
    pub path_with_namespace: String,
    /// The default branch for the project.
    pub default_branch: String,
}

/// User information exposed in hooks.
#[derive(Debug, Clone)]
pub struct UserHookAttrs {
    /// The name of the user.
    pub name: String,
    /// The handle of the user.
    pub username: String,
    /// The URL to the avatar of the user.
    pub avatar_url: Option<String>,
}

/// The identity of a user exposed through a hook.
#[derive(Debug, Clone)]
pub struct HookCommitIdentity {
    /// The name of the author or committer.
    pub name: String,
    /// The email address of the author or committer.
    pub email: String,
}

/// Commit information exposed in hooks.
#[derive(Debug, Clone)]
pub struct CommitHookAttrs {
    /// The commit's ID.
    pub id: ObjectId,
    /// The commit message.
    pub message: String,
    pub timestamp: Timestamp,
    /// The URL of the commit.
    pub url: String,
    /// The author of the commit.
    pub author: HookCommitIdentity,
    pub added: Option<Vec<String>>,
    pub modified: Option<Vec<String>>,
    pub removed: Option<Vec<String>>,
}

/// A push hook.
#[derive(Debug, Clone)]
pub struct PushHook {
    /// The event which occurred.
    pub object_kind: String,
    /// XXX(gitlab): Bug in Gitlab; it should not send this.
    pub event_name: String,
    /// The old object ID of the ref before the push.
    pub before: ObjectId,
    /// The new object ID of the ref after the push.
    pub after: ObjectId,
    /// The name of the reference which has been pushed.
    pub ref_: String,
    /// The new object ID of the ref after the push.
    pub checkout_sha: Option<ObjectId>,
    /// The message for the push (used for annotated tags).
    pub message: Option<String>,
    /// The ID of the user who pushed.
    pub user_id: UserId,
    /// The name of the user who pushed.
    pub user_name: String,
    /// The username of the user who pushed.
    pub user_username: String,
    /// The email address of the user who pushed.
    pub user_email: Option<String>,
    /// The URL of the user's avatar.
    pub user_avatar: Option<String>,
    /// The ID of the project pushed to.
    pub project_id: ProjectId,
    /// Attributes of the project.
    pub project: ProjectHookAttrs,
    /// The commits pushed to the repository.
    ///
    /// Limited to 20 commits.
    pub commits: Vec<CommitHookAttrs>,
    /// The total number of commits pushed.
    pub total_commits_count: u64,
    pub repository: JsonValue,
}

/// Actions which may occur on an issue.
#[derive(Debug, Clone, Copy, PartialEq, Eq, Structural)]
pub enum IssueAction {
    /// The issue was updated.
    Update,
    /// The issue was opened.
    Open,
    /// The issue was closed.
    Close,
    /// The issue was reopened.
    Reopen,
}

impl IssueAction {
    /// The name of the variant, as Gitlab writes it.
    pub open spec fn spec_as_str(self) -> Seq<char> {
        match self {
            IssueAction::Update => "update"@,
            IssueAction::Open => "open"@,
            IssueAction::Close => "close"@,
            IssueAction::Reopen => "reopen"@,
        }
    }

    /// The variant that Gitlab means by `name`, if any.
    pub open spec fn spec_from_name(name: Seq<char>) -> Option<IssueAction> {
        if name == "update"@ {
            Some(IssueAction::Update)
        } else if name == "open"@ {
            Some(IssueAction::Open)
        } else if name == "close"@ {
            Some(IssueAction::Close)
        } else if name == "reopen"@ {
            Some(IssueAction::Reopen)
        } else {
            None
        }
    }

    /// String representation of the variant.
    pub fn as_str(&self) -> (r: &'static str)
        ensures
            r@ == self.spec_as_str(),
    {
        match self {
            IssueAction::Update => "update",
            IssueAction::Open => "open",
            IssueAction::Close => "close",
            IssueAction::Reopen => "reopen",
        }
    }

    /// The variant that Gitlab means by `name`, if any.
    pub fn from_name(name: &str) -> (r: Option<IssueAction>)
        ensures
            r == IssueAction::spec_from_name(name@),
    {
        if str_eq(name, "update") {
            Some(IssueAction::Update)
        } else if str_eq(name, "open") {
            Some(IssueAction::Open)
        } else if str_eq(name, "close") {
            Some(IssueAction::Close)
        } else if str_eq(name, "reopen") {
            Some(IssueAction::Reopen)
        } else {
            None
        }
    }

    /// Reading the name of a variant gives the variant back.
    pub proof fn lemma_name_round_trip(self)
        ensures
            IssueAction::spec_from_name(self.spec_as_str()) == Some(self),
    {
        reveal_strlit("update");
        reveal_strlit("open");
        reveal_strlit("close");
        reveal_strlit("reopen");
        assert("update"@.len() == 6);
        assert("open"@.len() == 4);
        assert("close"@.len() == 5);
        assert("reopen"@.len() == 6);
        assert("update"@[0] == 'u');
        assert("reopen"@[0] == 'r');
    }
}

/// Issue information exposed in hooks.
#[derive(Debug, Clone)]
pub struct IssueHookAttrs {
    /// The ID of the issue.
    pub id: IssueId,
    /// The title of the issue.
    pub title: String,
    /// The ID of the assignee of the issue.
    pub assignee_id: Option<UserId>,
    /// The ID of the author of the issue.
    pub author_id: UserId,
    /// The ID of the project.
    pub project_id: ProjectId,
    /// When the issue was created.
    pub created_at: HookDate,
    /// When the issue was last updated.
    pub updated_at: HookDate,
    /// When the issue was deleted.
    pub deleted_at: Option<HookDate>,
    /// When the issue was closed.
    pub closed_at: Option<HookDate>,
    /// When the issue is due.
    pub due_date: Option<Date>,
    /// The ID of the user which last updated the issue.
    pub updated_by_id: Option<UserId>,
    pub moved_to_id: Option<JsonValue>,
    /// The branch name for the issue.
    pub branch_name: Option<String>,
    /// The description of the issue.
    pub description: Option<String>,
    /// The ID of the milestone of the issue.
    pub milestone_id: Option<MilestoneId>,
    /// The state of the issue.
    pub state: IssueState,
    /// The user-visible ID of the issue.
    pub iid: IssueInternalId,
    /// Whether the issue is confidential or not.
    pub confidential: bool,
    /// The time estimate, in seconds.
    pub time_estimate: u64,
    /// The total time spent, in seconds.
    pub total_time_spent: u64,
    /// The time estimate, as a human-readable string.
    pub human_time_estimate: Option<String>,
    /// The total time spent, as a human-readable string.
    pub human_total_time_spent: Option<String>,

    /// The URL of the issue.
    pub url: Option<String>,
    /// The type of action which caused the hook.
    pub action: Option<IssueAction>,
}

/// An issue hook.
#[derive(Debug, Clone)]
pub struct IssueHook {
    /// The event which occurred.
    pub object_kind: String,
    /// The user which triggered the hook.
    pub user: UserHookAttrs,
    /// The project the hook was created for.
    pub project: ProjectHookAttrs,
    /// Attributes of the issue.
    pub object_attributes: IssueHookAttrs,
    /// The assignee of the issue.
    pub assignee: Option<UserHookAttrs>,
}

/// Actions which may occur on a merge request.
#[derive(Debug, Clone, Copy, PartialEq, Eq, Structural)]
pub enum MergeRequestAction {
    /// The merge request was updated.
    Update,
    /// The merge request was opened.
    Open,
    /// The merge request was closed.
    Close,
    /// The merge request was reopened.
    Reopen,
    /// The merge request was approved.
    Approved,
    /// A merge request approval was revoked.
    Unapproved,
    /// The merge request was merged.
    Merge,
}

impl MergeRequestAction {
    /// The name of the variant, as Gitlab writes it.
    pub open spec fn spec_as_str(self) -> Seq<char> {
        match self {
            MergeRequestAction::Update => "update"@,
            MergeRequestAction::Open => "open"@,
            MergeRequestAction::Close => "close"@,
            MergeRequestAction::Reopen => "reopen"@,
            MergeRequestAction::Approved => "approved"@,
            MergeRequestAction::Unapproved => "unapproved"@,
            MergeRequestAction::Merge => "merge"@,
        }
    }

    /// The variant that Gitlab means by `name`, if any.
    pub open spec fn spec_from_name(name: Seq<char>) -> Option<MergeRequestAction> {
        if name == "update"@ {
            Some(MergeRequestAction::Update)
        } else if name == "open"@ {
            Some(MergeRequestAction::Open)
        } else if name == "close"@ {
            Some(MergeRequestAction::Close)
        } else if name == "reopen"@ {
            Some(MergeRequestAction::Reopen)
        } else if name == "approved"@ {
            Some(MergeRequestAction::Approved)
        } else if name == "unapproved"@ {
            Some(MergeRequestAction::Unapproved)
        } else if name == "merge"@ {
            Some(MergeRequestAction::Merge)
        } else {
            None
        }
    }

    /// String representation of the variant.
    pub fn as_str(&self) -> (r: &'static str)
        ensures
            r@ == self.spec_as_str(),
    {
        match self {
            MergeRequestAction::Update => "update",
            MergeRequestAction::Open => "open",
            MergeRequestAction::Close => "close",
            MergeRequestAction::Reopen => "reopen",
            MergeRequestAction::Approved => "approved",
            MergeRequestAction::Unapproved => "unapproved",
            MergeRequestAction::Merge => "merge",
        }
    }

    /// The variant that Gitlab means by `name`, if any.
    pub fn from_name(name: &str) -> (r: Option<MergeRequestAction>)
        ensures
            r == MergeRequestAction::spec_from_name(name@),
    {
        if str_eq(name, "update") {
            Some(MergeRequestAction::Update)
        } else if str_eq(name, "open") {
            Some(MergeRequestAction::Open)
        } else if str_eq(name, "close") {
            Some(MergeRequestAction::Close)
        } else if str_eq(name, "reopen") {
            Some(MergeRequestAction::Reopen)
        } else if str_eq(name, "approved") {
            Some(MergeRequestAction::Approved)
        } else if str_eq(name, "unapproved") {
            Some(MergeRequestAction::Unapproved)
        } else if str_eq(name, "merge") {
            Some(MergeRequestAction::Merge)
        } else {
            None
        }
    }

    /// Reading the name of a variant gives the variant back.
    pub proof fn lemma_name_round_trip(self)
        ensures
            MergeRequestAction::spec_from_name(self.spec_as_str()) == Some(self),
    {
        reveal_strlit("update");
        reveal_strlit("open");
        reveal_strlit("close");
        reveal_strlit("reopen");
        reveal_strlit("approved");
        reveal_strlit("unapproved");
        reveal_strlit("merge");
        assert("update"@.len() == 6);
        assert("open"@.len() == 4);
        assert("close"@.len() == 5);
        assert("reopen"@.len() == 6);
        assert("approved"@.len() == 8);
        assert("unapproved"@.len() == 10);
        assert("merge"@.len() == 5);
        assert("update"@[0] == 'u');
        assert("reopen"@[0] == 'r');
        assert("close"@[0] == 'c');
        assert("merge"@[0] == 'm');
    }
}

/// Merge parameters for a merge request.
#[derive(Debug, Clone)]
pub struct MergeRequestParams {
    pub force_remove_source_branch: Option<JsonValue>,
}

/// Merge request information exposed in hooks.
#[derive(Debug, Clone)]
pub struct MergeRequestHookAttrs {
    /// The source project of the merge request.
    ///
    /// If this is `None`, the source repository has been deleted.
    pub source: Option<ProjectHookAttrs>,
    /// The target project of the merge request.
    pub target: ProjectHookAttrs,
    pub last_commit: Option<CommitHookAttrs>,
    /// Whether the merge request is a work-in-progress or not.
    pub work_in_progress: bool,
    /// The object ID of the merge commit which is currently being handled.
    pub in_progress_merge_commit_sha: Option<ObjectId>,

    /// The ID of the merge request.
    pub id: MergeRequestId,
    /// The target branch of the merge request.
    pub target_branch: String,
    /// The ID of the target project.
    pub target_project_id: ProjectId,
    /// The source branch of the merge request.
    pub source_branch: String,
    /// The ID of the source project.
    pub source_project_id: Option<ProjectId>,
    /// The ID of the author of the merge request.
    pub author_id: UserId,
    /// The ID of the assignee of the merge request.
    pub assignee_id: Option<UserId>,
    /// The title of the merge request.
    pub title: String,
    /// When the merge request was created.
    pub created_at: HookDate,
    /// When the merge request was last updated.
    pub updated_at: HookDate,
    /// When the merge request was deleted.
    pub deleted_at: Option<HookDate>,
    /// When the merge request was locked.
    pub locked_at: Option<HookDate>,
    /// The ID of the user which last updated the merge request.
    pub updated_by_id: Option<UserId>,
    /// The object ID of the commit which merged the merge request.
    pub merge_commit_sha: Option<ObjectId>,
    pub merge_error: Option<JsonValue>,
    /// The parameters for merging the merge request.
    pub merge_params: MergeRequestParams,
    /// The user which merged the merge request.
    pub merge_user_id: Option<UserId>,
    /// Whether the merge request will be merged once all builds succeed or not.
    pub merge_when_pipeline_succeeds: bool,
    /// The milestone of the merge request.
    pub milestone_id: Option<MilestoneId>,
    pub oldrev: Option<ObjectId>,
    /// The state of the merge request.
    pub state: MergeRequestState,
    /// The merge status of the merge request.
    pub merge_status: MergeStatus,
    /// The user-visible ID of the merge request.
    pub iid: MergeRequestInternalId,
    /// The description of the merge request.
    pub description: Option<String>,

    /// The newest pipeline, if any
    pub head_pipeline_id: Option<PipelineId>,

    /// The URL of the merge request.
    pub url: Option<String>,
    /// The type of action which caused the hook.
    pub action: Option<MergeRequestAction>,
    pub time_estimate: u64,
    pub lock_version: Option<u64>,
}

/// A merge request hook.
#[derive(Debug, Clone)]
pub struct MergeRequestHook {
    /// The event which occurred.
    pub object_kind: String,
    /// The user which triggered the hook.
    pub user: UserHookAttrs,
    /// The project the hook was created for.
    pub project: ProjectHookAttrs,
    /// Attributes of the merge request.
    pub object_attributes: MergeRequestHookAttrs,
    /// The assignee of the merge request.
    pub assignee: Option<UserHookAttrs>,
    pub repository: JsonValue,
}

/// The type of a snippet.
#[derive(Debug, Clone, Copy, PartialEq, Eq, Structural)]
pub enum SnippetType {
    /// A project-owned snippet.
    Project,
    /// A user-owned snippet.
    Personal,
}

impl SnippetType {
    /// The name of the variant, as Gitlab writes it.
    pub open spec fn spec_as_str(self) -> Seq<char> {
        match self {
            SnippetType::Project => "ProjectSnippet"@,
            SnippetType::Personal => "PersonalSnippet"@,
        }
    }

    /// The variant that Gitlab means by `name`, if any.
    pub open spec fn spec_from_name(name: Seq<char>) -> Option<SnippetType> {
        if name == "ProjectSnippet"@ {
            Some(SnippetType::Project)
        } else if name == "PersonalSnippet"@ {
            Some(SnippetType::Personal)
        } else {
            None
        }
    }

    /// String representation of the variant.
    pub fn as_str(&self) -> (r: &'static str)
        ensures
            r@ == self.spec_as_str(),
    {
        match self {
            SnippetType::Project => "ProjectSnippet",
            SnippetType::Personal => "PersonalSnippet",
        }
    }

    /// The variant that Gitlab means by `name`, if any.
    pub fn from_name(name: &str) -> (r: Option<SnippetType>)
        ensures
            r == SnippetType::spec_from_name(name@),
    {
        if str_eq(name, "ProjectSnippet") {
            Some(SnippetType::Project)
        } else if str_eq(name, "PersonalSnippet") {
            Some(SnippetType::Personal)
        } else {
            None
        }
    }

    /// Reading the name of a variant gives the variant back.
    pub proof fn lemma_name_round_trip(self)
        ensures
            SnippetType::spec_from_name(self.spec_as_str()) == Some(self),
    {
        reveal_strlit("ProjectSnippet");
        reveal_strlit("PersonalSnippet");
        assert("ProjectSnippet"@.len() == 14);
        assert("PersonalSnippet"@.len() == 15);
    }
}

/// Snippet information exposed in hooks.
#[derive(Debug, Clone)]
pub struct SnippetHookAttrs {
    /// The title of the snippet.
    pub title: String,
    /// The content of the snippet.
    pub content: String,
    /// The author of the snippet.
    pub author_id: UserId,
    /// The project the snippet belongs to.
    pub project_id: Option<ProjectId>,
    /// When the snippet was created.
    pub created_at: HookDate,
    /// When the snippet was last updated.
    pub updated_at: HookDate,
    /// The name of the snippet.
    pub file_name: String,
    /// The type of the snippet.
    pub type_: SnippetType,
    /// The visibility of the snippet.
    pub visibility_level: u64,
}

/// Actions which may occur on a wiki page.
#[derive(Debug, Clone, Copy, PartialEq, Eq, Structural)]
pub enum WikiPageAction {
    /// A wiki page was created.
    Create,
    /// A wiki page was updated.
    Update,
}

impl WikiPageAction {
    /// The name of the variant, as Gitlab writes it.
    pub open spec fn spec_as_str(self) -> Seq<char> {
        match self {
            WikiPageAction::Create => "create"@,
            WikiPageAction::Update => "update"@,
        }
    }

    /// The variant that Gitlab means by `name`, if any.
    pub open spec fn spec_from_name(name: Seq<char>) -> Option<WikiPageAction> {
        if name == "create"@ {
            Some(WikiPageAction::Create)
        } else if name == "update"@ {
            Some(WikiPageAction::Update)
        } else {
            None
        }
    }

    /// String representation of the variant.
    pub fn as_str(&self) -> (r: &'static str)
        ensures
            r@ == self.spec_as_str(),
    {
        match self {
            WikiPageAction::Create => "create",
            WikiPageAction::Update => "update",
        }
    }

    /// The variant that Gitlab means by `name`, if any.
    pub fn from_name(name: &str) -> (r: Option<WikiPageAction>)
        ensures
            r == WikiPageAction::spec_from_name(name@),
    {
        if str_eq(name, "create") {
            Some(WikiPageAction::Create)
        } else if str_eq(name, "update") {
            Some(WikiPageAction::Update)
        } else {
            None
        }
    }

    /// Reading the name of a variant gives the variant back.
    pub proof fn lemma_name_round_trip(self)
        ensures
            WikiPageAction::spec_from_name(self.spec_as_str()) == Some(self),
    {
        reveal_strlit("create");
        reveal_strlit("update");
        assert("create"@.len() == 6);
        assert("update"@.len() == 6);
        assert("create"@[0] == 'c');
        assert("update"@[0] == 'u');
    }
}

/// Wiki information exposed in hooks.
#[derive(Debug, Clone)]
pub struct WikiPageHookAttrs {
    /// The title of the wiki page.
    pub title: String,
    /// The content of the wiki page.
    pub content: String,
    pub format: String,
    pub message: String,
    /// The slug of the wiki page.
    pub slug: String,

    /// The URL of the wiki page.
    pub url: String,
    /// The type of action which caused the hook.
    pub action: WikiPageAction,
}

/// Diff information exposed in hooks.
#[derive(Debug, Clone)]
pub struct DiffHookAttrs {
    pub diff: String,
    /// The path on the new side of the diff.
    pub new_path: String,
    /// The path on the old side of the diff.
    pub old_path: String,
    /// The mode on the old side of the diff.
    pub a_mode: String,
    /// The mode on the new side of the diff.
    pub b_mode: String,
    /// Whether the diff indicates the addition of a file.
    pub new_file: bool,
    /// Whether the diff indicates the rename of a file.
    pub renamed_file: bool,
    /// Whether the diff indicates the deletion of a file.
    pub deleted_file: bool,
    pub too_large: bool,
}

#[derive(Debug, Clone)]
pub struct PositionHookAttrs {
    pub base_sha: ObjectId,
    pub head_sha: ObjectId,
    pub start_sha: ObjectId,
    pub old_line: Option<u64>,
    /// The path on the old side of the diff.
    pub old_path: String,
    pub new_line: Option<u64>,
    /// The path on the new side of the diff.
    pub new_path: String,
}

/// Note (comment) information exposed in hooks.
#[derive(Debug, Clone)]
pub struct NoteHookAttrs {
    /// The ID of the note.
    pub id: NoteId,
    /// The content of the note.
    pub note: String,
    /// The type of entity the note is attached to.
    pub noteable_type: NoteType,
    pub original_position: JsonValue,
    pub position: JsonValue,
    /// The author of the note.
    pub author_id: UserId,
    /// When the note was created.
    pub created_at: HookDate,
    /// When the note was last updated.
    pub updated_at: HookDate,
    /// The ID of the user who last updated the note.
    pub updated_by_id: Option<UserId>,
    /// When the note was marked as resolved.
    pub resolved_at: Option<HookDate>,
    /// The ID of the user who marked the note as resolved.
    pub resolved_by_id: Option<UserId>,
    /// The ID of the project.
    pub project_id: ProjectId,
    /// The URL of an attachment to the note.
    pub attachment: Option<String>,
    pub line_code: Option<String>,
    pub commit_id: Option<ObjectId>,
    pub discussion_id: ObjectId,
    pub original_discussion_id: Option<ObjectId>,
    pub noteable_id: JsonValue,
    /// Whether the note was created by a user or in response to an external action.
    pub system: bool,
    pub st_diff: Option<DiffHookAttrs>,
    /// The URL of the note.
    pub url: String,

    pub type_: Option<String>,
}

/// A note hook.
#[derive(Debug, Clone)]
pub struct NoteHook {
    /// The event which occurred.
    pub object_kind: String,
    /// The user who triggered the hook.
    pub user: UserHookAttrs,
    /// The ID of the project the note belongs to.
    pub project_id: ProjectId,
    /// The project the note belongs to.
    pub project: ProjectHookAttrs,
    /// The attributes on the note itself.
    pub object_attributes: NoteHookAttrs,
    /// The commit the note is associated with (for commit notes).
    pub commit: Option<CommitHookAttrs>,
    /// The issue the note is associated with (for issue notes).
    pub issue: Option<IssueHookAttrs>,
    /// The merge request the note is associated with (for merge request notes).
    pub merge_request: Option<MergeRequestHookAttrs>,
    /// The snippet the note is associated with (for snippet notes).
    pub snippet: Option<SnippetHookAttrs>,
    pub repository: JsonValue,
}

/// Build user information exposed in hooks.
#[derive(Debug, Clone)]
pub struct BuildUserHookAttrs {
    /// The ID of the user.
    pub id: Option<UserId>,
    /// The user's name.
    pub name: Option<String>,
    /// The user's email address.
    pub email: Option<String>,
}

/// Build commit information exposed in hooks.
#[derive(Debug, Clone)]
pub struct BuildCommitHookAttrs {
    pub id: String,
    /// The object ID of the commit.
    pub sha: ObjectId,
    /// The full commit message.
    pub message: String,
    /// The commit's author's name.
    pub author_name: String,
    /// The commit's author's email address.
    pub author_email: String,
    pub status: String,
    pub duration: u64,
    /// When the build started.
    pub started_at: Option<HookDate>,
    /// When the build completed.
    pub finished_at: Option<HookDate>,
}

/// Project information exposed in build hooks.
#[derive(Debug, Clone)]
pub struct BuildProjectHookAttrs {
    /// The display name of the project.
    pub name: String,
    /// The description of the project.
    pub description: Option<String>,
    /// The URL for the project's homepage.
    pub homepage: String,
    /// The URL to clone the repository over HTTPS.
    pub git_http_url: String,
    /// The URL to clone the repository over SSH.
    pub git_ssh_url: String,
    /// Integral value for the project's visibility.
    pub visibility_level: u64,
}

/// A build hook.
#[derive(Debug, Clone)]
pub struct BuildHook {
    /// The event which occurred.
    pub object_kind: String,
    /// The name of the reference that was tested.
    pub ref_: String,
    pub tag: String,
    pub before_sha: String,
    /// The object ID that was built.
    pub sha: String,
    /// The ID of the build.
    pub build_id: JobId,
    /// The name of the build.
    pub build_name: String,
    pub build_stage: String,
    /// When the build started.
    pub build_started_at: Option<HookDate>,
    /// When the build completed.
    pub build_finished_at: Option<HookDate>,
    pub build_duration: Option<u64>,
    /// Whether the build is allowed to fail.
    pub build_allow_failure: bool,
    /// The ID of the project.
    pub project_id: ProjectId,
    /// The user which owns the build.
    pub user: BuildUserHookAttrs,
    /// The commit which was built.
    pub commit: BuildCommitHookAttrs,
    /// The repository the build is for.
    pub repository: BuildProjectHookAttrs,
}

#[derive(Debug, Clone)]
pub struct PipelineVariable {
    /// Environment variable key
    pub key: String,
    /// Environment variable value
    pub value: String,
}

#[derive(Debug, Clone)]
pub struct PipelineHookAttrs {
    pub id: PipelineId,
    /// The object ID that was tested.
    pub sha: ObjectId,
    /// The name of the reference that was tested.
    pub ref_: Option<String>,
    /// The status of the pipeline.
    pub status: StatusState,
    pub before_sha: String,
    /// Was this pipeline triggered by a tag.
    pub tag: bool,
    /// When the pipeline was created.
    pub created_at: HookDate,
    /// When the pipeline completed.
    pub finished_at: Option<HookDate>,
    /// Duration of pipeline in seconds.
    pub duration: Option<u64>,
    /// What triggered the pipeline.
    pub source: String,
    /// The stages of the pipeline.
    pub stages: Vec<String>,
    /// Environment variables manually set by the user starting the pipeline.
    pub variables: Vec<PipelineVariable>,
}

#[derive(Debug, Clone)]
pub struct PipelineBuildRunner {
    /// The runner id.
    pub id: RunnerId,
    /// The runner description
    pub description: String,
    /// Whether the runner is active.
    pub active: bool,
    /// Whether the runner is shared.
    pub is_shared: bool,
}

#[derive(Debug, Clone)]
pub struct PipelineMergeRequestAttrs {
    pub id: MergeRequestId,
    pub iid: MergeRequestInternalId,
    /// The title of the merge request.
    pub title: String,
    /// The target branch of the merge request.
    pub target_branch: String,
    /// The ID of the target project.
    pub target_project_id: ProjectId,
    /// The source branch of the merge request.
    pub source_branch: String,
    /// The ID of the source project.
    pub source_project_id: Option<ProjectId>,
    pub state: MergeRequestState,
    pub merge_status: MergeStatus,
    pub url: String,
}

#[derive(Debug, Clone)]
pub struct PipelineProjectAttrs {
    pub id: ProjectId,
    /// The display name of the project.
    pub name: String,
    /// The description of the project.
    pub description: Option<String>,
    /// The URL for the project's homepage.
    pub web_url: String,
    /// The URL to the project avatar.
    pub avatar_url: Option<String>,
    /// The URL to clone the repository over SSH.
    pub git_ssh_url: String,
    /// The URL to clone the repository over HTTPS.
    pub git_http_url: String,
    /// The namespace the project lives in.
    pub namespace: String,
    /// Integral value for the project's visibility.
    pub visibility_level: u64,
    /// The path to the project's repository with its namespace.
    pub path_with_namespace: String,
    /// The default branch for the project.
    pub default_branch: Option<String>,
    /// The path to the ci config file.
    pub ci_config_path: Option<String>,
}

#[derive(Debug, Clone)]
pub struct PipelineHook {
    /// The event which occured.
    pub object_kind: String,
    /// The pipeline.
    pub object_attributes: PipelineHookAttrs,
    /// The merge request this pipeline is running for.
    pub merge_request: Option<PipelineMergeRequestAttrs>,
    /// The user that started the the pipeline.
    pub user: UserHookAttrs,
    /// The project this pipeline is running in.
    pub project: PipelineProjectAttrs,
    /// The commit this pipeline is running for
    pub commit: Option<CommitHookAttrs>,
}

/// A wiki page hook.
#[derive(Debug, Clone)]
pub struct WikiPageHook {
    /// The event which occurred.
    pub object_kind: String,
    /// The user who caused the hook.
    pub user: UserHookAttrs,
    /// The project the wiki belongs to.
    pub project: ProjectHookAttrs,
    /// The wiki the page belongs to.
    pub wiki: ProjectWikiHookAttrs,
    /// The wiki page.
    pub object_attributes: WikiPageHookAttrs,
}

/// A deserializable structure for all Gitlab web hooks.
#[derive(Debug, Clone)]
pub enum WebHook {
    /// A push hook.
    Push(Box<PushHook>),
    /// An issue hook.
    Issue(Box<IssueHook>),
    /// A merge request hook.
    MergeRequest(Box<MergeRequestHook>),
    /// A note hook.
    Note(Box<NoteHook>),
    /// A build hook.
    Build(Box<BuildHook>),
    /// A pipeline hook.
    Pipeline(Box<PipelineHook>),
    /// A wiki page hook.
    WikiPage(Box<WikiPageHook>),
}

/// The UTC time (seconds and nanoseconds after the UNIX epoch) that
/// `chrono::Utc.datetime_from_str` reads from `text` with the format
/// `%Y-%m-%d %H:%M:%S UTC`, if it reads one.
pub uninterp spec fn utc_hook_time(text: Seq<char>) -> Option<(i64, u32)>;

/// The UTC time that `chrono::DateTime::parse_from_rfc3339` reads from
/// `text`, if it reads one.
pub uninterp spec fn rfc3339_hook_time(text: Seq<char>) -> Option<(i64, u32)>;

/// The UTC time that `chrono::DateTime::parse_from_str` reads from `text`
/// with the format `%Y-%m-%d %H:%M:%S %z`, if it reads one.
pub uninterp spec fn offset_hook_time(text: Seq<char>) -> Option<(i64, u32)>;

/// Reads `text` through `chrono::Utc.datetime_from_str` with the format
/// `%Y-%m-%d %H:%M:%S UTC`; gives the time with its RFC 3339 text.
#[verifier::external_body]
#[allow(deprecated)]
fn read_utc_hook_time(text: &str) -> (r: Option<(i64, u32, String)>)
    ensures
        match r {
            Some(t) => utc_hook_time(text@) == Some((t.0, t.1)) && t.2@ == rfc3339_seconds(t.0, t.1),
            None => utc_hook_time(text@) is None,
        },
{
    match chrono::Utc.datetime_from_str(text, "%Y-%m-%d %H:%M:%S UTC") {
        Ok(t) => Some((t.timestamp(), t.timestamp_subsec_nanos(), t.to_rfc3339_opts(chrono::SecondsFormat::Secs, true))),
        Err(_) => None,
    }
}

/// Reads `text` through `chrono::DateTime::parse_from_rfc3339`; gives the
/// time in UTC with its RFC 3339 text.
#[verifier::external_body]
fn read_rfc3339_hook_time(text: &str) -> (r: Option<(i64, u32, String)>)
    ensures
        match r {
            Some(t) => rfc3339_hook_time(text@) == Some((t.0, t.1)) && t.2@ == rfc3339_seconds(t.0, t.1),
            None => rfc3339_hook_time(text@) is None,
        },
{
    match chrono::DateTime::parse_from_rfc3339(text) {
        Ok(t) => {
            let t = t.with_timezone(&chrono::Utc);
            Some((t.timestamp(), t.timestamp_subsec_nanos(), t.to_rfc3339_opts(chrono::SecondsFormat::Secs, true)))
        },
        Err(_) => None,
    }
}

/// Reads `text` through `chrono::DateTime::parse_from_str` with the format
/// `%Y-%m-%d %H:%M:%S %z`; gives the time in UTC with its RFC 3339 text.
#[verifier::external_body]
fn read_offset_hook_time(text: &str) -> (r: Option<(i64, u32, String)>)
    ensures
        match r {
            Some(t) => offset_hook_time(text@) == Some((t.0, t.1)) && t.2@ == rfc3339_seconds(t.0, t.1),
            None => offset_hook_time(text@) is None,
        },
{
    match chrono::DateTime::parse_from_str(text, "%Y-%m-%d %H:%M:%S %z") {
        Ok(t) => {
            let t = t.with_timezone(&chrono::Utc);
            Some((t.timestamp(), t.timestamp_subsec_nanos(), t.to_rfc3339_opts(chrono::SecondsFormat::Secs, true)))
        },
        Err(_) => None,
    }
}

/// The time which a hook date written as `text` stands for: the first of the
/// observed formats which reads it.
pub open spec fn hook_date_time(text: Seq<char>) -> Option<(i64, u32)> {
    match utc_hook_time(text) {
        Some(t) => Some(t),
        None => match rfc3339_hook_time(text) {
            Some(t) => Some(t),
            None => offset_hook_time(text),
        },
    }
}

impl View for HookDate {
    type V = (i64, u32);

    /// The seconds and nanoseconds after the UNIX epoch.
    closed spec fn view(&self) -> (i64, u32) {
        (self.0.spec_seconds(), self.0.spec_nanos())
    }
}

/// Whether a reading of a time carries the RFC 3339 text of that time.
pub open spec fn is_rendered(reading: Option<(i64, u32, String)>) -> bool {
    reading matches Some(t) ==> t.2@ == rfc3339_seconds(t.0, t.1)
}

/// The time of a reading.
pub open spec fn reading_time(reading: Option<(i64, u32, String)>) -> Option<(i64, u32)> {
    match reading {
        Some(t) => Some((t.0, t.1)),
        None => None,
    }
}

impl HookDate {
    /// The date given by the first of the readings in the observed formats
    /// that succeeded.
    pub fn from_readings(
        utc: Option<(i64, u32, String)>,
        rfc3339: Option<(i64, u32, String)>,
        offset: Option<(i64, u32, String)>,
    ) -> (r: Option<HookDate>)
        requires
            is_rendered(utc),
            is_rendered(rfc3339),
            is_rendered(offset),
        ensures
            match (if utc is Some {
                reading_time(utc)
            } else if rfc3339 is Some {
                reading_time(rfc3339)
            } else {
                reading_time(offset)
            }) {
                Some(t) => r matches Some(d) && d@ == t,
                None => r is None,
            },
    {
        let read = match utc {
            Some(t) => Some(t),
            None => match rfc3339 {
                Some(t) => Some(t),
                None => offset,
            },
        };
        match read {
            Some((seconds, nanos, rendered)) => Some(HookDate(Timestamp::from_parts(seconds, nanos, rendered))),
            None => None,
        }
    }

    /// Reads a date as Gitlab writes it in web hooks: `2019-01-31 12:00:00 UTC`,
    /// RFC 3339 text, or `2019-01-31 12:00:00 +0100`, in that order.
    pub fn parse(text: &str) -> (r: Option<HookDate>)
        ensures
            match hook_date_time(text@) {
                Some(t) => r matches Some(d) && d@ == t,
                None => r is None,
            },
    {
        let utc = read_utc_hook_time(text);
        let rfc3339 = read_rfc3339_hook_time(text);
        let offset = read_offset_hook_time(text);
        HookDate::from_readings(utc, rfc3339, offset)
    }

    /// The time of the date.
    pub fn timestamp(&self) -> (r: &Timestamp)
        ensures
            (r.spec_seconds(), r.spec_nanos()) == self@,
    {
        &self.0
    }
}

impl AsRef<Timestamp> for HookDate {
    fn as_ref(&self) -> &Timestamp {
        &self.0
    }
}

impl MergeRequestParams {
    /// Whether the author of the merge request indicated that the source branch should be deleted
    /// upon merge or not.
    ///
    /// Gitlab sends the flag either as the string `"1"` or as a boolean; any
    /// other value reads as `false`.
    pub fn force_remove_source_branch(&self) -> (r: bool)
        ensures
            r == match self.force_remove_source_branch {
                Some(JsonValue::String(s)) => s@ == "1"@,
                Some(JsonValue::Bool(b)) => b,
                _ => false,
            },
    {
        match &self.force_remove_source_branch {
            Some(val) => match val.as_str() {
                Some(as_str) => str_eq(as_str, "1"),
                None => match val {
                    JsonValue::Bool(as_bool) => *as_bool,
                    _ => false,
                },
            },
            None => false,
        }
    }
}

impl NoteHookAttrs {
    /// The ID of the object the note is for.
    pub fn noteable_id(&self) -> (r: Option<NoteableId>)
        ensures
            match self.noteable_type {
                NoteType::Commit => match self.noteable_id.spec_as_str() {
                    Some(s) => r matches Some(NoteableId::Commit(o)) && o@ == s,
                    None => r is None,
                },
                NoteType::Issue => match self.noteable_id.spec_as_u64() {
                    Some(n) => r matches Some(NoteableId::Issue(i)) && i@ == n,
                    None => r is None,
                },
                NoteType::MergeRequest => match self.noteable_id.spec_as_u64() {
                    Some(n) => r matches Some(NoteableId::MergeRequest(i)) && i@ == n,
                    None => r is None,
                },
                NoteType::Snippet => match self.noteable_id.spec_as_u64() {
                    Some(n) => r matches Some(NoteableId::Snippet(i)) && i@ == n,
                    None => r is None,
                },
            },
    {
        match self.noteable_type {
            NoteType::Commit => match self.noteable_id.as_str() {
                Some(id) => Some(NoteableId::Commit(ObjectId::new(id))),
                None => None,
            },
            NoteType::Issue => match self.noteable_id.as_u64() {
                Some(id) => Some(NoteableId::Issue(IssueId::new(id))),
                None => None,
            },
            NoteType::MergeRequest => match self.noteable_id.as_u64() {
                Some(id) => Some(NoteableId::MergeRequest(MergeRequestId::new(id))),
                None => None,
            },
            NoteType::Snippet => match self.noteable_id.as_u64() {
                Some(id) => Some(NoteableId::Snippet(SnippetId::new(id))),
                None => None,
            },
        }
    }
}

/// The kinds of web hooks that are told apart by their `object_kind`.
#[derive(Debug, Clone, Copy, PartialEq, Eq, Structural)]
pub enum WebHookKind {
    /// A push hook (`push` or `tag_push`).
    Push,
    /// An issue hook.
    Issue,
    /// A merge request hook.
    MergeRequest,
    /// A note hook.
    Note,
    /// A build hook.
    Build,
    /// A pipeline hook.
    Pipeline,
    /// A wiki page hook.
    WikiPage,
}

/// Why the kind of a web hook could not be read.
#[derive(Debug, Clone)]
pub enum WebHookKindError {
    /// The hook has no `object_kind` field.
    MissingObjectKind,
    /// The `object_kind` field is not a string.
    ObjectKindNotAString,
    /// The `object_kind` names no known kind of hook.
    UnrecognizedObjectKind(String),
}

/// The kind of hook that an `object_kind` names.
pub open spec fn spec_hook_kind(object_kind: Seq<char>) -> Option<WebHookKind> {
    if object_kind == "push"@ || object_kind == "tag_push"@ {
        Some(WebHookKind::Push)
    } else if object_kind == "issue"@ {
        Some(WebHookKind::Issue)
    } else if object_kind == "merge_request"@ {
        Some(WebHookKind::MergeRequest)
    } else if object_kind == "note"@ {
        Some(WebHookKind::Note)
    } else if object_kind == "build"@ {
        Some(WebHookKind::Build)
    } else if object_kind == "pipeline"@ {
        Some(WebHookKind::Pipeline)
    } else if object_kind == "wiki_page"@ {
        Some(WebHookKind::WikiPage)
    } else {
        None
    }
}

impl WebHook {
    /// The kind of hook that a JSON hook payload holds, read from its
    /// `object_kind` field.
    pub fn kind_of(value: &JsonValue) -> (r: Result<WebHookKind, WebHookKindError>)
        ensures
            match value {
                JsonValue::Object(members) => match first_member(members@, "object_kind"@) {
                    Some(i) => match members@[i].1 {
                        JsonValue::String(kind) => match spec_hook_kind(kind@) {
                            Some(k) => r == Ok::<WebHookKind, WebHookKindError>(k),
                            None => r matches Err(WebHookKindError::UnrecognizedObjectKind(s))
                                && s@ == kind@,
                        },
                        _ => r matches Err(WebHookKindError::ObjectKindNotAString),
                    },
                    None => r matches Err(WebHookKindError::MissingObjectKind),
                },
                _ => r matches Err(WebHookKindError::MissingObjectKind),
            },
    {
        match value.get("object_kind") {
            Some(JsonValue::String(kind)) => {
                let k = kind.as_str();
                if str_eq(k, "push") || str_eq(k, "tag_push") {
                    Ok(WebHookKind::Push)
                } else if str_eq(k, "issue") {
                    Ok(WebHookKind::Issue)
                } else if str_eq(k, "merge_request") {
                    Ok(WebHookKind::MergeRequest)
                } else if str_eq(k, "note") {
                    Ok(WebHookKind::Note)
                } else if str_eq(k, "build") {
                    Ok(WebHookKind::Build)
                } else if str_eq(k, "pipeline") {
                    Ok(WebHookKind::Pipeline)
                } else if str_eq(k, "wiki_page") {
                    Ok(WebHookKind::WikiPage)
                } else {
                    Err(WebHookKindError::UnrecognizedObjectKind(kind.clone()))
                }
            },
            Some(_) => Err(WebHookKindError::ObjectKindNotAString),
            None => Err(WebHookKindError::MissingObjectKind),
        }
    }
}

} // verus!
