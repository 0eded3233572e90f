//! Project repository commits API endpoints.

use vstd::prelude::*;
use vstd::string::StringExecFns;

use crate::common::{
    Timestamp,
    form_request_body, BuilderError, Endpoint, IntoNameOrId, Method, NameOrId, Pageable,
};
use crate::params::{opt_pair, opt_value, ParamValue, ParamView, Params};
use crate::text::{ascii_chars, bytes_to_vec, decimal, decimal_string, path_escape, path_escaped};

verus! {

/// Line types within a diff.
#[derive(Debug, Clone, Copy, PartialEq, Eq, Structural)]
pub enum LineType {
    /// A line added in the diff.
    New,
    /// A line removed in the diff.
    Old,
}

impl LineType {
    /// The name of the variant.
    pub open spec fn spec_as_str(self) -> Seq<char> {
        match self {
            LineType::New => "new"@,
            LineType::Old => "old"@,
        }
    }

    /// The name of the variant.
    pub fn as_str(self) -> (r: &'static str)
        ensures
            r@ == self.spec_as_str(),
    {
        match self {
            LineType::New => "new",
            LineType::Old => "old",
        }
    }
}

impl ParamValue for LineType {
    open spec fn spec_value(&self) -> Seq<char> {
        self.spec_as_str()
    }

    fn as_value(&self) -> (r: String) {
        self.as_str().to_owned()
    }
}

/// Post a comment on a specific commit in a project.
#[derive(Debug)]
pub struct CommentOnCommit {
    /// The project to get a commit from.
    pub project: NameOrId,
    /// The commit to comment on.
    pub commit: String,
    /// The text of the comment.
    pub note: String,
    /// The path to comment on.
    pub path: Option<String>,
    /// The line within the path to comment on.
    pub line: Option<u64>,
    /// Set the line type to comment on.
    pub line_type: Option<LineType>,
}

/// Builder for [`CommentOnCommit`].
#[derive(Debug)]
pub struct CommentOnCommitBuilder {
    pub project: Option<NameOrId>,
    pub commit: Option<String>,
    pub note: Option<String>,
    pub path: Option<String>,
    pub line: Option<u64>,
    pub line_type: Option<LineType>,
}

impl CommentOnCommit {
    /// Create a builder for the endpoint.
    pub fn builder() -> (r: CommentOnCommitBuilder)
        ensures
            r.project is None,
            r.commit is None,
            r.note is None,
            r.path is None,
            r.line is None,
            r.line_type is None,
    {
        CommentOnCommitBuilder { project: None, commit: None, note: None, path: None, line: None, line_type: None }
    }
}

impl CommentOnCommitBuilder {
    /// The project to get a commit from.
    pub fn project<P: IntoNameOrId>(self, project: P) -> (r: Self)
        ensures
            r.project matches Some(v) && project.denotes(v),
            r.commit == self.commit,
            r.note == self.note,
            r.path == self.path,
            r.line == self.line,
            r.line_type == self.line_type,
    {
        let mut r = self;
        r.project = Some(project.into_name_or_id());
        r
    }

    /// The commit to comment on.
    pub fn commit(self, commit: &str) -> (r: Self)
        ensures
            r.commit matches Some(v) && v@ == commit@,
            r.project == self.project,
            r.note == self.note,
            r.path == self.path,
            r.line == self.line,
            r.line_type == self.line_type,
    {
        let mut r = self;
        r.commit = Some(commit.to_owned());
        r
    }

    /// The text of the comment.
    pub fn note(self, note: &str) -> (r: Self)
        ensures
            r.note matches Some(v) && v@ == note@,
            r.project == self.project,
            r.commit == self.commit,
            r.path == self.path,
            r.line == self.line,
            r.line_type == self.line_type,
    {
        let mut r = self;
        r.note = Some(note.to_owned());
        r
    }

    /// The path to comment on.
    pub fn path(self, path: &str) -> (r: Self)
        ensures
            r.path matches Some(v) && v@ == path@,
            r.project == self.project,
            r.commit == self.commit,
            r.note == self.note,
            r.line == self.line,
            r.line_type == self.line_type,
    {
        let mut r = self;
        r.path = Some(path.to_owned());
        r
    }

    /// The line within the path to comment on.
    pub fn line(self, line: u64) -> (r: Self)
        ensures
            r.line == Some(line),
            r.project == self.project,
            r.commit == self.commit,
            r.note == self.note,
            r.path == self.path,
            r.line_type == self.line_type,
    {
        let mut r = self;
        r.line = Some(line);
        r
    }

    /// Set the line type to comment on.
    pub fn line_type(self, line_type: LineType) -> (r: Self)
        ensures
            r.line_type == Some(line_type),
            r.project == self.project,
            r.commit == self.commit,
            r.note == self.note,
            r.path == self.path,
            r.line == self.line,
    {
        let mut r = self;
        r.line_type = Some(line_type);
        r
    }

    /// Build the endpoint (`project`, `commit`, `note` must be set).
    pub fn build(self) -> (r: Result<CommentOnCommit, BuilderError>)
        ensures
            (self.project is None) ==> (r matches Err(e) && e.missing("project"@)),
            (self.project is Some && self.commit is None) ==> (r matches Err(e) && e.missing("commit"@)),
            (self.project is Some && self.commit is Some && self.note is None) ==> (r matches Err(e) && e.missing("note"@)),
            (self.project is Some && self.commit is Some && self.note is Some) ==> (r matches Ok(v) && v.project == self.project->0 && v.commit == self.commit->0 && v.note == self.note->0 && v.path == self.path && v.line == self.line && v.line_type == self.line_type),
    {
        match self.project {
            None => Err(BuilderError::UninitializedField("project")),
            Some(project) => {
                match self.commit {
                    None => Err(BuilderError::UninitializedField("commit")),
                    Some(commit) => {
                        match self.note {
                            None => Err(BuilderError::UninitializedField("note")),
                            Some(note) => {
                                Ok(CommentOnCommit { project, commit, note, path: self.path, line: self.line, line_type: self.line_type })
                            },
                        }
                    },
                }
            },
        }
    }
}

impl Endpoint for CommentOnCommit {
    open spec fn spec_method(&self) -> Method {
        Method::Post
    }

    open spec fn spec_endpoint(&self) -> Seq<char> {
        "projects/"@ + self.project.segment() + "/repository/commits/"@ + ascii_chars(path_escape(vstd::utf8::encode_utf8(self.commit@))) + "/comments"@
    }

    open spec fn spec_parameters(&self) -> Seq<ParamView> {
        Seq::<ParamView>::empty()
    }

    open spec fn spec_body(&self) -> Option<Seq<ParamView>> {
        Some(seq![("note"@, self.note.spec_value())] + opt_pair("path"@, opt_value(self.path)) + opt_pair("line"@, opt_value(self.line)) + opt_pair("line_type"@, opt_value(self.line_type)))
    }

    fn method(&self) -> (r: Method) {
        Method::Post
    }

    fn endpoint(&self) -> (r: String) {
        let mut r = "projects/".to_owned();
        r.append(self.project.to_segment().as_str());
        r.append("/repository/commits/");
        r.append(path_escaped(self.commit.as_str()).as_str());
        r.append("/comments");
        r
    }

    fn parameters(&self) -> (r: Params) {
        let mut p = Params::new();
        assert(p@ =~= Seq::<ParamView>::empty());
        p
    }

    fn body(&self) -> (r: Option<(&'static str, Vec<u8>)>) {
        let mut p = Params::new();
        p.push("note", &self.note);
        p.push_opt("path", &self.path);
        p.push_opt("line", &self.line);
        p.push_opt("line_type", &self.line_type);
        assert(p@ =~= seq![("note"@, self.note.spec_value())] + opt_pair("path"@, opt_value(self.path)) + opt_pair("line"@, opt_value(self.line)) + opt_pair("line_type"@, opt_value(self.line_type)));
        form_request_body(&p)
    }
}

/// Query for comments on a specific commit in a project.
#[derive(Debug)]
pub struct CommitComments {
    /// The project to get a commit from.
    pub project: NameOrId,
    /// The commit to get comments from.
    pub commit: String,
}

/// Builder for [`CommitComments`].
#[derive(Debug)]
pub struct CommitCommentsBuilder {
    pub project: Option<NameOrId>,
    pub commit: Option<String>,
}

impl CommitComments {
    /// Create a builder for the endpoint.
    pub fn builder() -> (r: CommitCommentsBuilder)
        ensures
            r.project is None,
            r.commit is None,
    {
        CommitCommentsBuilder { project: None, commit: None }
    }
}

impl CommitCommentsBuilder {
    /// The project to get a commit from.
    pub fn project<P: IntoNameOrId>(self, project: P) -> (r: Self)
        ensures
            r.project matches Some(v) && project.denotes(v),
            r.commit == self.commit,
    {
        let mut r = self;
        r.project = Some(project.into_name_or_id());
        r
    }

    /// The commit to get comments from.
    pub fn commit(self, commit: &str) -> (r: Self)
        ensures
            r.commit matches Some(v) && v@ == commit@,
            r.project == self.project,
    {
        let mut r = self;
        r.commit = Some(commit.to_owned());
        r
    }

    /// Build the endpoint (`project`, `commit` must be set).
    pub fn build(self) -> (r: Result<CommitComments, BuilderError>)
        ensures
            (self.project is None) ==> (r matches Err(e) && e.missing("project"@)),
            (self.project is Some && self.commit is None) ==> (r matches Err(e) && e.missing("commit"@)),
            (self.project is Some && self.commit is Some) ==> (r matches Ok(v) && v.project == self.project->0 && v.commit == self.commit->0),
    {
        match self.project {
            None => Err(BuilderError::UninitializedField("project")),
            Some(project) => {
                match self.commit {
                    None => Err(BuilderError::UninitializedField("commit")),
                    Some(commit) => {
                        Ok(CommitComments { project, commit })
                    },
                }
            },
        }
    }
}

impl Endpoint for CommitComments {
    open spec fn spec_method(&self) -> Method {
        Method::Get
    }

    open spec fn spec_endpoint(&self) -> Seq<char> {
        "projects/"@ + self.project.segment() + "/repository/commits/"@ + ascii_chars(path_escape(vstd::utf8::encode_utf8(self.commit@))) + "/comments"@
    }

    open spec fn spec_parameters(&self) -> Seq<ParamView> {
        Seq::<ParamView>::empty()
    }

    open spec fn spec_body(&self) -> Option<Seq<ParamView>> {
        None
    }

    fn method(&self) -> (r: Method) {
        Method::Get
    }

    fn endpoint(&self) -> (r: String) {
        let mut r = "projects/".to_owned();
        r.append(self.project.to_segment().as_str());
        r.append("/repository/commits/");
        r.append(path_escaped(self.commit.as_str()).as_str());
        r.append("/comments");
        r
    }

    fn parameters(&self) -> (r: Params) {
        let mut p = Params::new();
        assert(p@ =~= Seq::<ParamView>::empty());
        p
    }

    fn body(&self) -> (r: Option<(&'static str, Vec<u8>)>) {
        None
    }
}

impl Pageable for CommitComments {
    open spec fn spec_use_keyset_pagination(&self) -> bool {
        false
    }

    fn use_keyset_pagination(&self) -> (r: bool) {
        false
    }
}

/// Query for a specific commit in a project.
#[derive(Debug)]
pub struct Commit {
    /// The project to get a commit from.
    pub project: NameOrId,
    /// The commit to get.
    pub commit: String,
    /// Include commit stats.
    pub stats: Option<bool>,
}

/// Builder for [`Commit`].
#[derive(Debug)]
pub struct CommitBuilder {
    pub project: Option<NameOrId>,
    pub commit: Option<String>,
    pub stats: Option<bool>,
}

impl Commit {
    /// Create a builder for the endpoint.
    pub fn builder() -> (r: CommitBuilder)
        ensures
            r.project is None,
            r.commit is None,
            r.stats is None,
    {
        CommitBuilder { project: None, commit: None, stats: None }
    }
}

impl CommitBuilder {
    /// The project to get a commit from.
    pub fn project<P: IntoNameOrId>(self, project: P) -> (r: Self)
        ensures
            r.project matches Some(v) && project.denotes(v),
            r.commit == self.commit,
            r.stats == self.stats,
    {
        let mut r = self;
        r.project = Some(project.into_name_or_id());
        r
    }

    /// The commit to get.
    pub fn commit(self, commit: &str) -> (r: Self)
        ensures
            r.commit matches Some(v) && v@ == commit@,
            r.project == self.project,
            r.stats == self.stats,
    {
        let mut r = self;
        r.commit = Some(commit.to_owned());
        r
    }

    /// Include commit stats.
    pub fn stats(self, stats: bool) -> (r: Self)
        ensures
            r.stats == Some(stats),
            r.project == self.project,
            r.commit == self.commit,
    {
        let mut r = self;
        r.stats = Some(stats);
        r
    }

    /// Build the endpoint (`project`, `commit` must be set).
    pub fn build(self) -> (r: Result<Commit, BuilderError>)
        ensures
            (self.project is None) ==> (r matches Err(e) && e.missing("project"@)),
            (self.project is Some && self.commit is None) ==> (r matches Err(e) && e.missing("commit"@)),
            (self.project is Some && self.commit is Some) ==> (r matches Ok(v) && v.project == self.project->0 && v.commit == self.commit->0 && v.stats == self.stats),
    {
        match self.project {
            None => Err(BuilderError::UninitializedField("project")),
            Some(project) => {
                match self.commit {
                    None => Err(BuilderError::UninitializedField("commit")),
                    Some(commit) => {
                        Ok(Commit { project, commit, stats: self.stats })
                    },
                }
            },
        }
    }
}

impl Endpoint for Commit {
    open spec fn spec_method(&self) -> Method {
        Method::Get
    }

    open spec fn spec_endpoint(&self) -> Seq<char> {
        "projects/"@ + self.project.segment() + "/repository/commits/"@ + ascii_chars(path_escape(vstd::utf8::encode_utf8(self.commit@)))
    }

    open spec fn spec_parameters(&self) -> Seq<ParamView> {
        opt_pair("stats"@, opt_value(self.stats))
    }

    open spec fn spec_body(&self) -> Option<Seq<ParamView>> {
        None
    }

    fn method(&self) -> (r: Method) {
        Method::Get
    }

    fn endpoint(&self) -> (r: String) {
        let mut r = "projects/".to_owned();
        r.append(self.project.to_segment().as_str());
        r.append("/repository/commits/");
        r.append(path_escaped(self.commit.as_str()).as_str());
        r
    }

    fn parameters(&self) -> (r: Params) {
        let mut p = Params::new();
        p.push_opt("stats", &self.stats);
        assert(p@ =~= opt_pair("stats"@, opt_value(self.stats)));
        p
    }

    fn body(&self) -> (r: Option<(&'static str, Vec<u8>)>) {
        None
    }
}

/// Orders commits may be returned in.
#[derive(Debug, Clone, Copy, PartialEq, Eq, Structural)]
pub enum CommitsOrder {
    /// Commits are returned in reverse chronological order.
    Default,
    /// Commits are returned in topological order.
    Topo,
}

impl CommitsOrder {
    /// The name of the variant.
    pub open spec fn spec_as_str(self) -> Seq<char> {
        match self {
            CommitsOrder::Default => "default"@,
            CommitsOrder::Topo => "topo"@,
        }
    }

    /// The name of the variant.
    pub fn as_str(self) -> (r: &'static str)
        ensures
            r@ == self.spec_as_str(),
    {
        match self {
            CommitsOrder::Default => "default",
            CommitsOrder::Topo => "topo",
        }
    }
}

impl ParamValue for CommitsOrder {
    open spec fn spec_value(&self) -> Seq<char> {
        self.spec_as_str()
    }

    fn as_value(&self) -> (r: String) {
        self.as_str().to_owned()
    }
}

impl Default for CommitsOrder {
    fn default() -> (r: Self)
        ensures
            r == CommitsOrder::Default,
    {
        CommitsOrder::Default
    }
}

/// Query for commits in a project.
#[derive(Debug)]
pub struct Commits {
    /// The project to get commits from.
    pub project: NameOrId,
    /// The ref to get commits from (the default branch if not given).
    pub ref_name: Option<String>,
    /// Only return commits after a given date.
    pub since: Option<Timestamp>,
    /// Only return commits before a given date.
    pub until: Option<Timestamp>,
    /// Only return commits which affect a given path.
    pub path: Option<String>,
    /// If true, return every commit from the repository.
    pub all: Option<bool>,
    /// Include commit stats in each commit object.
    pub with_stats: Option<bool>,
    /// If true, only consider commits in the first parent history.
    pub first_parent: Option<bool>,
    /// The order in which commits are returned.
    pub order: Option<CommitsOrder>,
}

/// Builder for [`Commits`].
#[derive(Debug)]
pub struct CommitsBuilder {
    pub project: Option<NameOrId>,
    pub ref_name: Option<String>,
    pub since: Option<Timestamp>,
    pub until: Option<Timestamp>,
    pub path: Option<String>,
    pub all: Option<bool>,
    pub with_stats: Option<bool>,
    pub first_parent: Option<bool>,
    pub order: Option<CommitsOrder>,
}

impl Commits {
    /// Create a builder for the endpoint.
    pub fn builder() -> (r: CommitsBuilder)
        ensures
            r.project is None,
            r.ref_name is None,
            r.since is None,
            r.until is None,
            r.path is None,
            r.all is None,
            r.with_stats is None,
            r.first_parent is None,
            r.order is None,
    {
        CommitsBuilder { project: None, ref_name: None, since: None, until: None, path: None, all: None, with_stats: None, first_parent: None, order: None }
    }
}

impl CommitsBuilder {
    /// The project to get commits from.
    pub fn project<P: IntoNameOrId>(self, project: P) -> (r: Self)
        ensures
            r.project matches Some(v) && project.denotes(v),
            r.ref_name == self.ref_name,
            r.since == self.since,
            r.until == self.until,
            r.path == self.path,
            r.all == self.all,
            r.with_stats == self.with_stats,
            r.first_parent == self.first_parent,
            r.order == self.order,
    {
        let mut r = self;
        r.project = Some(project.into_name_or_id());
        r
    }

    /// The ref to get commits from (the default branch if not given).
    pub fn ref_name(self, ref_name: &str) -> (r: Self)
        ensures
            r.ref_name matches Some(v) && v@ == ref_name@,
            r.project == self.project,
            r.since == self.since,
            r.until == self.until,
            r.path == self.path,
            r.all == self.all,
            r.with_stats == self.with_stats,
            r.first_parent == self.first_parent,
            r.order == self.order,
    {
        let mut r = self;
        r.ref_name = Some(ref_name.to_owned());
        r
    }

    /// Only return commits after a given date.
    pub fn since(self, since: Timestamp) -> (r: Self)
        ensures
            r.since == Some(since),
            r.project == self.project,
            r.ref_name == self.ref_name,
            r.until == self.until,
            r.path == self.path,
            r.all == self.all,
            r.with_stats == self.with_stats,
            r.first_parent == self.first_parent,
            r.order == self.order,
    {
        let mut r = self;
        r.since = Some(since);
        r
    }

    /// Only return commits before a given date.
    pub fn until(self, until: Timestamp) -> (r: Self)
        ensures
            r.until == Some(until),
            r.project == self.project,
            r.ref_name == self.ref_name,
            r.since == self.since,
            r.path == self.path,
            r.all == self.all,
            r.with_stats == self.with_stats,
            r.first_parent == self.first_parent,
            r.order == self.order,
    {
        let mut r = self;
        r.until = Some(until);
        r
    }

    /// Only return commits which affect a given path.
    pub fn path(self, path: &str) -> (r: Self)
        ensures
            r.path matches Some(v) && v@ == path@,
            r.project == self.project,
            r.ref_name == self.ref_name,
            r.since == self.since,
            r.until == self.until,
            r.all == self.all,
            r.with_stats == self.with_stats,
            r.first_parent == self.first_parent,
            r.order == self.order,
    {
        let mut r = self;
        r.path = Some(path.to_owned());
        r
    }

    /// If true, return every commit from the repository.
    pub fn all(self, all: bool) -> (r: Self)
        ensures
            r.all == Some(all),
            r.project == self.project,
            r.ref_name == self.ref_name,
            r.since == self.since,
            r.until == self.until,
            r.path == self.path,
            r.with_stats == self.with_stats,
            r.first_parent == self.first_parent,
            r.order == self.order,
    {
        let mut r = self;
        r.all = Some(all);
        r
    }

    /// Include commit stats in each commit object.
    pub fn with_stats(self, with_stats: bool) -> (r: Self)
        ensures
            r.with_stats == Some(with_stats),
            r.project == self.project,
            r.ref_name == self.ref_name,
            r.since == self.since,
            r.until == self.until,
            r.path == self.path,
            r.all == self.all,
            r.first_parent == self.first_parent,
            r.order == self.order,
    {
        let mut r = self;
        r.with_stats = Some(with_stats);
        r
    }

    /// If true, only consider commits in the first parent history.
    pub fn first_parent(self, first_parent: bool) -> (r: Self)
        ensures
            r.first_parent == Some(first_parent),
            r.project == self.project,
            r.ref_name == self.ref_name,
            r.since == self.since,
            r.until == self.until,
            r.path == self.path,
            r.all == self.all,
            r.with_stats == self.with_stats,
            r.order == self.order,
    {
        let mut r = self;
        r.first_parent = Some(first_parent);
        r
    }

    /// The order in which commits are returned.
    pub fn order(self, order: CommitsOrder) -> (r: Self)
        ensures
            r.order == Some(order),
            r.project == self.project,
            r.ref_name == self.ref_name,
            r.since == self.since,
            r.until == self.until,
            r.path == self.path,
            r.all == self.all,
            r.with_stats == self.with_stats,
            r.first_parent == self.first_parent,
    {
        let mut r = self;
        r.order = Some(order);
        r
    }

    /// Build the endpoint (`project` must be set).
    pub fn build(self) -> (r: Result<Commits, BuilderError>)
        ensures
            (self.project is None) ==> (r matches Err(e) && e.missing("project"@)),
            (self.project is Some) ==> (r matches Ok(v) && v.project == self.project->0 && v.ref_name == self.ref_name && v.since == self.since && v.until == self.until && v.path == self.path && v.all == self.all && v.with_stats == self.with_stats && v.first_parent == self.first_parent && v.order == self.order),
    {
        match self.project {
            None => Err(BuilderError::UninitializedField("project")),
            Some(project) => {
                Ok(Commits { project, ref_name: self.ref_name, since: self.since, until: self.until, path: self.path, all: self.all, with_stats: self.with_stats, first_parent: self.first_parent, order: self.order })
            },
        }
    }
}

impl Endpoint for Commits {
    open spec fn spec_method(&self) -> Method {
        Method::Get
    }

    open spec fn spec_endpoint(&self) -> Seq<char> {
        "projects/"@ + self.project.segment() + "/repository/commits"@
    }

    open spec fn spec_parameters(&self) -> Seq<ParamView> {
        opt_pair("ref_name"@, opt_value(self.ref_name)) + opt_pair("since"@, opt_value(self.since)) + opt_pair("until"@, opt_value(self.until)) + opt_pair("path"@, opt_value(self.path)) + opt_pair("all"@, opt_value(self.all)) + opt_pair("with_stats"@, opt_value(self.with_stats)) + opt_pair("first_parent"@, opt_value(self.first_parent)) + opt_pair("order"@, opt_value(self.order))
    }

    open spec fn spec_body(&self) -> Option<Seq<ParamView>> {
        None
    }

    fn method(&self) -> (r: Method) {
        Method::Get
    }

    fn endpoint(&self) -> (r: String) {
        let mut r = "projects/".to_owned();
        r.append(self.project.to_segment().as_str());
        r.append("/repository/commits");
        r
    }

    fn parameters(&self) -> (r: Params) {
        let mut p = Params::new();
        p.push_opt("ref_name", &self.ref_name);
        p.push_opt("since", &self.since);
        p.push_opt("until", &self.until);
        p.push_opt("path", &self.path);
        p.push_opt("all", &self.all);
        p.push_opt("with_stats", &self.with_stats);
        p.push_opt("first_parent", &self.first_parent);
        p.push_opt("order", &self.order);
        assert(p@ =~= opt_pair("ref_name"@, opt_value(self.ref_name)) + opt_pair("since"@, opt_value(self.since)) + opt_pair("until"@, opt_value(self.until)) + opt_pair("path"@, opt_value(self.path)) + opt_pair("all"@, opt_value(self.all)) + opt_pair("with_stats"@, opt_value(self.with_stats)) + opt_pair("first_parent"@, opt_value(self.first_parent)) + opt_pair("order"@, opt_value(self.order)));
        p
    }

    fn body(&self) -> (r: Option<(&'static str, Vec<u8>)>) {
        None
    }
}

impl Pageable for Commits {
    open spec fn spec_use_keyset_pagination(&self) -> bool {
        false
    }

    fn use_keyset_pagination(&self) -> (r: bool) {
        false
    }
}

/// States for commit statuses.
#[derive(Debug, Clone, Copy, PartialEq, Eq, Structural)]
pub enum CommitStatusState {
    /// The status is expected, but has not started yet.
    Pending,
    /// The status is currently running.
    Running,
    /// The status completed successfully.
    Success,
    /// The status completed with an error.
    Failed,
    /// The status was canceled before it completed.
    Canceled,
}

impl CommitStatusState {
    /// The name of the variant.
    pub open spec fn spec_as_str(self) -> Seq<char> {
        match self {
            CommitStatusState::Pending => "pending"@,
            CommitStatusState::Running => "running"@,
            CommitStatusState::Success => "success"@,
            CommitStatusState::Failed => "failed"@,
            CommitStatusState::Canceled => "canceled"@,
        }
    }

    /// The name of the variant.
    pub fn as_str(self) -> (r: &'static str)
        ensures
            r@ == self.spec_as_str(),
    {
        match self {
            CommitStatusState::Pending => "pending",
            CommitStatusState::Running => "running",
            CommitStatusState::Success => "success",
            CommitStatusState::Failed => "failed",
            CommitStatusState::Canceled => "canceled",
        }
    }
}

impl ParamValue for CommitStatusState {
    open spec fn spec_value(&self) -> Seq<char> {
        self.spec_as_str()
    }

    fn as_value(&self) -> (r: String) {
        self.as_str().to_owned()
    }
}

/// Post a status on a specific commit in a project.
#[derive(Debug)]
pub struct CreateCommitStatus {
    /// The project to get a commit from.
    pub project: NameOrId,
    /// The commit to set a status on.
    pub commit: String,
    /// The state of the commit status.
    pub state: CommitStatusState,
    /// The name of the status.
    pub name: Option<String>,
    /// The name of the ref for the commit.
    pub ref_: Option<String>,
    /// The URL to use for more details.
    pub target_url: Option<String>,
    /// A description for the status.
    pub description: Option<String>,
    /// The total code coverage (as a percentage), as written in decimal.
    pub coverage: Option<String>,
    /// The ID of the pipeline to use (in case it is ambiguous).
    pub pipeline_id: Option<u64>,
}

/// Builder for [`CreateCommitStatus`].
#[derive(Debug)]
pub struct CreateCommitStatusBuilder {
    pub project: Option<NameOrId>,
    pub commit: Option<String>,
    pub state: Option<CommitStatusState>,
    pub name: Option<String>,
    pub ref_: Option<String>,
    pub target_url: Option<String>,
    pub description: Option<String>,
    pub coverage: Option<String>,
    pub pipeline_id: Option<u64>,
}

impl CreateCommitStatus {
    /// Create a builder for the endpoint.
    pub fn builder() -> (r: CreateCommitStatusBuilder)
        ensures
            r.project is None,
            r.commit is None,
            r.state is None,
            r.name is None,
            r.ref_ is None,
            r.target_url is None,
            r.description is None,
            r.coverage is None,
            r.pipeline_id is None,
    {
        CreateCommitStatusBuilder { project: None, commit: None, state: None, name: None, ref_: None, target_url: None, description: None, coverage: None, pipeline_id: None }
    }
}

impl CreateCommitStatusBuilder {
    /// The project to get a commit from.
    pub fn project<P: IntoNameOrId>(self, project: P) -> (r: Self)
        ensures
            r.project matches Some(v) && project.denotes(v),
            r.commit == self.commit,
            r.state == self.state,
            r.name == self.name,
            r.ref_ == self.ref_,
            r.target_url == self.target_url,
            r.description == self.description,
            r.coverage == self.coverage,
            r.pipeline_id == self.pipeline_id,
    {
        let mut r = self;
        r.project = Some(project.into_name_or_id());
        r
    }

    /// The commit to set a status on.
    pub fn commit(self, commit: &str) -> (r: Self)
        ensures
            r.commit matches Some(v) && v@ == commit@,
            r.project == self.project,
            r.state == self.state,
            r.name == self.name,
            r.ref_ == self.ref_,
            r.target_url == self.target_url,
            r.description == self.description,
            r.coverage == self.coverage,
            r.pipeline_id == self.pipeline_id,
    {
        let mut r = self;
        r.commit = Some(commit.to_owned());
        r
    }

    /// The state of the commit status.
    pub fn state(self, state: CommitStatusState) -> (r: Self)
        ensures
            r.state == Some(state),
            r.project == self.project,
            r.commit == self.commit,
            r.name == self.name,
            r.ref_ == self.ref_,
            r.target_url == self.target_url,
            r.description == self.description,
            r.coverage == self.coverage,
            r.pipeline_id == self.pipeline_id,
    {
        let mut r = self;
        r.state = Some(state);
        r
    }

    /// The name of the status.
    pub fn name(self, name: &str) -> (r: Self)
        ensures
            r.name matches Some(v) && v@ == name@,
            r.project == self.project,
            r.commit == self.commit,
            r.state == self.state,
            r.ref_ == self.ref_,
            r.target_url == self.target_url,
            r.description == self.description,
            r.coverage == self.coverage,
            r.pipeline_id == self.pipeline_id,
    {
        let mut r = self;
        r.name = Some(name.to_owned());
        r
    }

    /// The name of the ref for the commit.
    pub fn ref_(self, ref_: &str) -> (r: Self)
        ensures
            r.ref_ matches Some(v) && v@ == ref_@,
            r.project == self.project,
            r.commit == self.commit,
            r.state == self.state,
            r.name == self.name,
            r.target_url == self.target_url,
            r.description == self.description,
            r.coverage == self.coverage,
            r.pipeline_id == self.pipeline_id,
    {
        let mut r = self;
        r.ref_ = Some(ref_.to_owned());
        r
    }

    /// The URL to use for more details.
    pub fn target_url(self, target_url: &str) -> (r: Self)
        ensures
            r.target_url matches Some(v) && v@ == target_url@,
            r.project == self.project,
            r.commit == self.commit,
            r.state == self.state,
            r.name == self.name,
            r.ref_ == self.ref_,
            r.description == self.description,
            r.coverage == self.coverage,
            r.pipeline_id == self.pipeline_id,
    {
        let mut r = self;
        r.target_url = Some(target_url.to_owned());
        r
    }

    /// A description for the status.
    pub fn description(self, description: &str) -> (r: Self)
        ensures
            r.description matches Some(v) && v@ == description@,
            r.project == self.project,
            r.commit == self.commit,
            r.state == self.state,
            r.name == self.name,
            r.ref_ == self.ref_,
            r.target_url == self.target_url,
            r.coverage == self.coverage,
            r.pipeline_id == self.pipeline_id,
    {
        let mut r = self;
        r.description = Some(description.to_owned());
        r
    }

    /// The total code coverage (as a percentage), as written in decimal.
    pub fn coverage(self, coverage: &str) -> (r: Self)
        ensures
            r.coverage matches Some(v) && v@ == coverage@,
            r.project == self.project,
            r.commit == self.commit,
            r.state == self.state,
            r.name == self.name,
            r.ref_ == self.ref_,
            r.target_url == self.target_url,
            r.description == self.description,
            r.pipeline_id == self.pipeline_id,
    {
        let mut r = self;
        r.coverage = Some(coverage.to_owned());
        r
    }

    /// The ID of the pipeline to use (in case it is ambiguous).
    pub fn pipeline_id(self, pipeline_id: u64) -> (r: Self)
        ensures
            r.pipeline_id == Some(pipeline_id),
            r.project == self.project,
            r.commit == self.commit,
            r.state == self.state,
            r.name == self.name,
            r.ref_ == self.ref_,
            r.target_url == self.target_url,
            r.description == self.description,
            r.coverage == self.coverage,
    {
        let mut r = self;
        r.pipeline_id = Some(pipeline_id);
        r
    }

    /// Build the endpoint (`project`, `commit`, `state` must be set).
    pub fn build(self) -> (r: Result<CreateCommitStatus, BuilderError>)
        ensures
            (self.project is None) ==> (r matches Err(e) && e.missing("project"@)),
            (self.project is Some && self.commit is None) ==> (r matches Err(e) && e.missing("commit"@)),
            (self.project is Some && self.commit is Some && self.state is None) ==> (r matches Err(e) && e.missing("state"@)),
            (self.project is Some && self.commit is Some && self.state is Some) ==> (r matches Ok(v) && v.project == self.project->0 && v.commit == self.commit->0 && v.state == self.state->0 && v.name == self.name && v.ref_ == self.ref_ && v.target_url == self.target_url && v.description == self.description && v.coverage == self.coverage && v.pipeline_id == self.pipeline_id),
    {
        match self.project {
            None => Err(BuilderError::UninitializedField("project")),
            Some(project) => {
                match self.commit {
                    None => Err(BuilderError::UninitializedField("commit")),
                    Some(commit) => {
                        match self.state {
                            None => Err(BuilderError::UninitializedField("state")),
                            Some(state) => {
                                Ok(CreateCommitStatus { project, commit, state, name: self.name, ref_: self.ref_, target_url: self.target_url, description: self.description, coverage: self.coverage, pipeline_id: self.pipeline_id })
                            },
                        }
                    },
                }
            },
        }
    }
}

impl Endpoint for CreateCommitStatus {
    open spec fn spec_method(&self) -> Method {
        Method::Post
    }

    open spec fn spec_endpoint(&self) -> Seq<char> {
        "projects/"@ + self.project.segment() + "/statuses/"@ + ascii_chars(path_escape(vstd::utf8::encode_utf8(self.commit@)))
    }

    open spec fn spec_parameters(&self) -> Seq<ParamView> {
        Seq::<ParamView>::empty()
    }

    open spec fn spec_body(&self) -> Option<Seq<ParamView>> {
        Some(seq![("state"@, self.state.spec_value())] + opt_pair("name"@, opt_value(self.name)) + opt_pair("ref"@, opt_value(self.ref_)) + opt_pair("target_url"@, opt_value(self.target_url)) + opt_pair("description"@, opt_value(self.description)) + opt_pair("coverage"@, opt_value(self.coverage)) + opt_pair("pipeline_id"@, opt_value(self.pipeline_id)))
    }

    fn method(&self) -> (r: Method) {
        Method::Post
    }

    fn endpoint(&self) -> (r: String) {
        let mut r = "projects/".to_owned();
        r.append(self.project.to_segment().as_str());
        r.append("/statuses/");
        r.append(path_escaped(self.commit.as_str()).as_str());
        r
    }

    fn parameters(&self) -> (r: Params) {
        let mut p = Params::new();
        assert(p@ =~= Seq::<ParamView>::empty());
        p
    }

    fn body(&self) -> (r: Option<(&'static str, Vec<u8>)>) {
        let mut p = Params::new();
        p.push("state", &self.state);
        p.push_opt("name", &self.name);
        p.push_opt("ref", &self.ref_);
        p.push_opt("target_url", &self.target_url);
        p.push_opt("description", &self.description);
        p.push_opt("coverage", &self.coverage);
        p.push_opt("pipeline_id", &self.pipeline_id);
        assert(p@ =~= seq![("state"@, self.state.spec_value())] + opt_pair("name"@, opt_value(self.name)) + opt_pair("ref"@, opt_value(self.ref_)) + opt_pair("target_url"@, opt_value(self.target_url)) + opt_pair("description"@, opt_value(self.description)) + opt_pair("coverage"@, opt_value(self.coverage)) + opt_pair("pipeline_id"@, opt_value(self.pipeline_id)));
        form_request_body(&p)
    }
}

/// Query for the merge requests which hold a commit.
#[derive(Debug)]
pub struct MergeRequests {
    /// The project to get commits from.
    pub project: NameOrId,
    /// The commit SHA.
    pub sha: String,
}

/// Builder for [`MergeRequests`].
#[derive(Debug)]
pub struct MergeRequestsBuilder {
    pub project: Option<NameOrId>,
    pub sha: Option<String>,
}

impl MergeRequests {
    /// Create a builder for the endpoint.
    pub fn builder() -> (r: MergeRequestsBuilder)
        ensures
            r.project is None,
            r.sha is None,
    {
        MergeRequestsBuilder { project: None, sha: None }
    }
}

impl MergeRequestsBuilder {
    /// The project to get commits from.
    pub fn project<P: IntoNameOrId>(self, project: P) -> (r: Self)
        ensures
            r.project matches Some(v) && project.denotes(v),
            r.sha == self.sha,
    {
        let mut r = self;
        r.project = Some(project.into_name_or_id());
        r
    }

    /// The commit SHA.
    pub fn sha(self, sha: &str) -> (r: Self)
        ensures
            r.sha matches Some(v) && v@ == sha@,
            r.project == self.project,
    {
        let mut r = self;
        r.sha = Some(sha.to_owned());
        r
    }

    /// Build the endpoint (`project`, `sha` must be set).
    pub fn build(self) -> (r: Result<MergeRequests, BuilderError>)
        ensures
            (self.project is None) ==> (r matches Err(e) && e.missing("project"@)),
            (self.project is Some && self.sha is None) ==> (r matches Err(e) && e.missing("sha"@)),
            (self.project is Some && self.sha is Some) ==> (r matches Ok(v) && v.project == self.project->0 && v.sha == self.sha->0),
    {
        match self.project {
            None => Err(BuilderError::UninitializedField("project")),
            Some(project) => {
                match self.sha {
                    None => Err(BuilderError::UninitializedField("sha")),
                    Some(sha) => {
                        Ok(MergeRequests { project, sha })
                    },
                }
            },
        }
    }
}

impl Endpoint for MergeRequests {
    open spec fn spec_method(&self) -> Method {
        Method::Get
    }

    open spec fn spec_endpoint(&self) -> Seq<char> {
        "projects/"@ + self.project.segment() + "/repository/commits/"@ + self.sha@ + "/merge_requests"@
    }

    open spec fn spec_parameters(&self) -> Seq<ParamView> {
        Seq::<ParamView>::empty()
    }

    open spec fn spec_body(&self) -> Option<Seq<ParamView>> {
        None
    }

    fn method(&self) -> (r: Method) {
        Method::Get
    }

    fn endpoint(&self) -> (r: String) {
        let mut r = "projects/".to_owned();
        r.append(self.project.to_segment().as_str());
        r.append("/repository/commits/");
        r.append(self.sha.as_str());
        r.append("/merge_requests");
        r
    }

    fn parameters(&self) -> (r: Params) {
        let mut p = Params::new();
        assert(p@ =~= Seq::<ParamView>::empty());
        p
    }

    fn body(&self) -> (r: Option<(&'static str, Vec<u8>)>) {
        None
    }
}

impl Pageable for MergeRequests {
    open spec fn spec_use_keyset_pagination(&self) -> bool {
        false
    }

    fn use_keyset_pagination(&self) -> (r: bool) {
        false
    }
}

/// Query for the statuses of a specific commit in a project.
#[derive(Debug)]
pub struct CommitStatuses {
    /// The project to get a commit from.
    pub project: NameOrId,
    /// The commit to get statuses from.
    pub commit: String,
    /// The branch or tag to check.
    pub ref_: Option<String>,
    /// Filter by build stage.
    pub stage: Option<String>,
    /// Filter by job name.
    pub name: Option<String>,
    /// Return all statuses, not just the latest.
    pub all: Option<bool>,
}

/// Builder for [`CommitStatuses`].
#[derive(Debug)]
pub struct CommitStatusesBuilder {
    pub project: Option<NameOrId>,
    pub commit: Option<String>,
    pub ref_: Option<String>,
    pub stage: Option<String>,
    pub name: Option<String>,
    pub all: Option<bool>,
}

impl CommitStatuses {
    /// Create a builder for the endpoint.
    pub fn builder() -> (r: CommitStatusesBuilder)
        ensures
            r.project is None,
            r.commit is None,
            r.ref_ is None,
            r.stage is None,
            r.name is None,
            r.all is None,
    {
        CommitStatusesBuilder { project: None, commit: None, ref_: None, stage: None, name: None, all: None }
    }
}

impl CommitStatusesBuilder {
    /// The project to get a commit from.
    pub fn project<P: IntoNameOrId>(self, project: P) -> (r: Self)
        ensures
            r.project matches Some(v) && project.denotes(v),
            r.commit == self.commit,
            r.ref_ == self.ref_,
            r.stage == self.stage,
            r.name == self.name,
            r.all == self.all,
    {
        let mut r = self;
        r.project = Some(project.into_name_or_id());
        r
    }

    /// The commit to get statuses from.
    pub fn commit(self, commit: &str) -> (r: Self)
        ensures
            r.commit matches Some(v) && v@ == commit@,
            r.project == self.project,
            r.ref_ == self.ref_,
            r.stage == self.stage,
            r.name == self.name,
            r.all == self.all,
    {
        let mut r = self;
        r.commit = Some(commit.to_owned());
        r
    }

    /// The branch or tag to check.
    pub fn ref_(self, ref_: &str) -> (r: Self)
        ensures
            r.ref_ matches Some(v) && v@ == ref_@,
            r.project == self.project,
            r.commit == self.commit,
            r.stage == self.stage,
            r.name == self.name,
            r.all == self.all,
    {
        let mut r = self;
        r.ref_ = Some(ref_.to_owned());
        r
    }

    /// Filter by build stage.
    pub fn stage(self, stage: &str) -> (r: Self)
        ensures
            r.stage matches Some(v) && v@ == stage@,
            r.project == self.project,
            r.commit == self.commit,
            r.ref_ == self.ref_,
            r.name == self.name,
            r.all == self.all,
    {
        let mut r = self;
        r.stage = Some(stage.to_owned());
        r
    }

    /// Filter by job name.
    pub fn name(self, name: &str) -> (r: Self)
        ensures
            r.name matches Some(v) && v@ == name@,
            r.project == self.project,
            r.commit == self.commit,
            r.ref_ == self.ref_,
            r.stage == self.stage,
            r.all == self.all,
    {
        let mut r = self;
        r.name = Some(name.to_owned());
        r
    }

    /// Return all statuses, not just the latest.
    pub fn all(self, all: bool) -> (r: Self)
        ensures
            r.all == Some(all),
            r.project == self.project,
            r.commit == self.commit,
            r.ref_ == self.ref_,
            r.stage == self.stage,
            r.name == self.name,
    {
        let mut r = self;
        r.all = Some(all);
        r
    }

    /// Build the endpoint (`project`, `commit` must be set).
    pub fn build(self) -> (r: Result<CommitStatuses, BuilderError>)
        ensures
            (self.project is None) ==> (r matches Err(e) && e.missing("project"@)),
            (self.project is Some && self.commit is None) ==> (r matches Err(e) && e.missing("commit"@)),
            (self.project is Some && self.commit is Some) ==> (r matches Ok(v) && v.project == self.project->0 && v.commit == self.commit->0 && v.ref_ == self.ref_ && v.stage == self.stage && v.name == self.name && v.all == self.all),
    {
        match self.project {
            None => Err(BuilderError::UninitializedField("project")),
            Some(project) => {
                match self.commit {
                    None => Err(BuilderError::UninitializedField("commit")),
                    Some(commit) => {
                        Ok(CommitStatuses { project, commit, ref_: self.ref_, stage: self.stage, name: self.name, all: self.all })
                    },
                }
            },
        }
    }
}

impl Endpoint for CommitStatuses {
    open spec fn spec_method(&self) -> Method {
        Method::Get
    }

    open spec fn spec_endpoint(&self) -> Seq<char> {
        "projects/"@ + self.project.segment() + "/repository/commits/"@ + ascii_chars(path_escape(vstd::utf8::encode_utf8(self.commit@))) + "/statuses"@
    }

    open spec fn spec_parameters(&self) -> Seq<ParamView> {
        opt_pair("ref"@, opt_value(self.ref_)) + opt_pair("stage"@, opt_value(self.stage)) + opt_pair("name"@, opt_value(self.name)) + opt_pair("all"@, opt_value(self.all))
    }

    open spec fn spec_body(&self) -> Option<Seq<ParamView>> {
        None
    }

    fn method(&self) -> (r: Method) {
        Method::Get
    }

    fn endpoint(&self) -> (r: String) {
        let mut r = "projects/".to_owned();
        r.append(self.project.to_segment().as_str());
        r.append("/repository/commits/");
        r.append(path_escaped(self.commit.as_str()).as_str());
        r.append("/statuses");
        r
    }

    fn parameters(&self) -> (r: Params) {
        let mut p = Params::new();
        p.push_opt("ref", &self.ref_);
        p.push_opt("stage", &self.stage);
        p.push_opt("name", &self.name);
        p.push_opt("all", &self.all);
        assert(p@ =~= opt_pair("ref"@, opt_value(self.ref_)) + opt_pair("stage"@, opt_value(self.stage)) + opt_pair("name"@, opt_value(self.name)) + opt_pair("all"@, opt_value(self.all)));
        p
    }

    fn body(&self) -> (r: Option<(&'static str, Vec<u8>)>) {
        None
    }
}

impl Pageable for CommitStatuses {
    open spec fn spec_use_keyset_pagination(&self) -> bool {
        false
    }

    fn use_keyset_pagination(&self) -> (r: bool) {
        false
    }
}

} // verus!
