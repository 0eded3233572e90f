//! Project repository branches API endpoints.

use vstd::prelude::*;
use vstd::string::StringExecFns;

use crate::common::{
    form_request_body, BuilderError, Endpoint, IntoNameOrId, Method, NameOrId, Pageable,
};
use crate::params::{opt_pair, opt_value, ParamValue, ParamView, Params};
use crate::text::{ascii_chars, bytes_to_vec, decimal, decimal_string, path_escape, path_escaped};

verus! {

/// Query for the branches of a project.
#[derive(Debug)]
pub struct Branches {
    /// The project to get branches from.
    pub project: NameOrId,
    /// Filter branches by a search query.
    pub search: Option<String>,
}

/// Builder for [`Branches`].
#[derive(Debug)]
pub struct BranchesBuilder {
    pub project: Option<NameOrId>,
    pub search: Option<String>,
}

impl Branches {
    /// Create a builder for the endpoint.
    pub fn builder() -> (r: BranchesBuilder)
        ensures
            r.project is None,
            r.search is None,
    {
        BranchesBuilder { project: None, search: None }
    }
}

impl BranchesBuilder {
    /// The project to get branches from.
    pub fn project<P: IntoNameOrId>(self, project: P) -> (r: Self)
        ensures
            r.project matches Some(v) && project.denotes(v),
            r.search == self.search,
    {
        let mut r = self;
        r.project = Some(project.into_name_or_id());
        r
    }

    /// Filter branches by a search query.
    pub fn search(self, search: &str) -> (r: Self)
        ensures
            r.search matches Some(v) && v@ == search@,
            r.project == self.project,
    {
        let mut r = self;
        r.search = Some(search.to_owned());
        r
    }

    /// Build the endpoint (`project` must be set).
    pub fn build(self) -> (r: Result<Branches, BuilderError>)
        ensures
            (self.project is None) ==> (r matches Err(e) && e.missing("project"@)),
            (self.project is Some) ==> (r matches Ok(v) && v.project == self.project->0 && v.search == self.search),
    {
        match self.project {
            None => Err(BuilderError::UninitializedField("project")),
            Some(project) => {
                Ok(Branches { project, search: self.search })
            },
        }
    }
}

impl Endpoint for Branches {
    open spec fn spec_method(&self) -> Method {
        Method::Get
    }

    open spec fn spec_endpoint(&self) -> Seq<char> {
        "projects/"@ + self.project.segment() + "/repository/branches"@
    }

    open spec fn spec_parameters(&self) -> Seq<ParamView> {
        opt_pair("search"@, opt_value(self.search))
    }

    open spec fn spec_body(&self) -> Option<Seq<ParamView>> {
        None
    }

    fn method(&self) -> (r: Method) {
        Method::Get
    }

    fn endpoint(&self) -> (r: String) {
        let mut r = "projects/".to_owned();
        r.append(self.project.to_segment().as_str());
        r.append("/repository/branches");
        r
    }

    fn parameters(&self) -> (r: Params) {
        let mut p = Params::new();
        p.push_opt("search", &self.search);
        assert(p@ =~= opt_pair("search"@, opt_value(self.search)));
        p
    }

    fn body(&self) -> (r: Option<(&'static str, Vec<u8>)>) {
        None
    }
}

impl Pageable for Branches {
    open spec fn spec_use_keyset_pagination(&self) -> bool {
        false
    }

    fn use_keyset_pagination(&self) -> (r: bool) {
        false
    }
}

/// Create a branch on a project.
#[derive(Debug)]
pub struct CreateBranch {
    /// The project to create a branch on.
    pub project: NameOrId,
    /// The name of the new branch.
    pub branch: String,
    /// The ref to create the branch from.
    pub ref_: String,
}

/// Builder for [`CreateBranch`].
#[derive(Debug)]
pub struct CreateBranchBuilder {
    pub project: Option<NameOrId>,
    pub branch: Option<String>,
    pub ref_: Option<String>,
}

impl CreateBranch {
    /// Create a builder for the endpoint.
    pub fn builder() -> (r: CreateBranchBuilder)
        ensures
            r.project is None,
            r.branch is None,
            r.ref_ is None,
    {
        CreateBranchBuilder { project: None, branch: None, ref_: None }
    }
}

impl CreateBranchBuilder {
    /// The project to create a branch on.
    pub fn project<P: IntoNameOrId>(self, project: P) -> (r: Self)
        ensures
            r.project matches Some(v) && project.denotes(v),
            r.branch == self.branch,
            r.ref_ == self.ref_,
    {
        let mut r = self;
        r.project = Some(project.into_name_or_id());
        r
    }

    /// The name of the new branch.
    pub fn branch(self, branch: &str) -> (r: Self)
        ensures
            r.branch matches Some(v) && v@ == branch@,
            r.project == self.project,
            r.ref_ == self.ref_,
    {
        let mut r = self;
        r.branch = Some(branch.to_owned());
        r
    }

    /// The ref to create the branch from.
    pub fn ref_(self, ref_: &str) -> (r: Self)
        ensures
            r.ref_ matches Some(v) && v@ == ref_@,
            r.project == self.project,
            r.branch == self.branch,
    {
        let mut r = self;
        r.ref_ = Some(ref_.to_owned());
        r
    }

    /// Build the endpoint (`project` must be set).
    pub fn build(self) -> (r: Result<CreateBranch, BuilderError>)
        ensures
            (self.project is None) ==> (r matches Err(e) && e.missing("project"@)),
            (self.project is Some) ==> (r matches Ok(v) && v.project == self.project->0 && v.branch@ == (match self.branch { Some(s) => s@, None => Seq::<char>::empty() }) && v.ref_@ == (match self.ref_ { Some(s) => s@, None => Seq::<char>::empty() })),
    {
        match self.project {
            None => Err(BuilderError::UninitializedField("project")),
            Some(project) => {
                Ok(CreateBranch { project, branch: match self.branch { Some(s) => s, None => String::new() }, ref_: match self.ref_ { Some(s) => s, None => String::new() } })
            },
        }
    }
}

impl Endpoint for CreateBranch {
    open spec fn spec_method(&self) -> Method {
        Method::Post
    }

    open spec fn spec_endpoint(&self) -> Seq<char> {
        "projects/"@ + self.project.segment() + "/repository/branches"@
    }

    open spec fn spec_parameters(&self) -> Seq<ParamView> {
        Seq::<ParamView>::empty()
    }

    open spec fn spec_body(&self) -> Option<Seq<ParamView>> {
        Some(seq![("branch"@, self.branch.spec_value())] + seq![("ref"@, self.ref_.spec_value())])
    }

    fn method(&self) -> (r: Method) {
        Method::Post
    }

    fn endpoint(&self) -> (r: String) {
        let mut r = "projects/".to_owned();
        r.append(self.project.to_segment().as_str());
        r.append("/repository/branches");
        r
    }

    fn parameters(&self) -> (r: Params) {
        let mut p = Params::new();
        assert(p@ =~= Seq::<ParamView>::empty());
        p
    }

    fn body(&self) -> (r: Option<(&'static str, Vec<u8>)>) {
        let mut p = Params::new();
        p.push("branch", &self.branch);
        p.push("ref", &self.ref_);
        assert(p@ =~= seq![("branch"@, self.branch.spec_value())] + seq![("ref"@, self.ref_.spec_value())]);
        form_request_body(&p)
    }
}

} // verus!
