//! Project repository tree API endpoint.

use vstd::prelude::*;
use vstd::string::StringExecFns;

use crate::common::{
    form_request_body, BuilderError, Endpoint, IntoNameOrId, Method, NameOrId, Pageable,
};
use crate::params::{opt_pair, opt_value, ParamValue, ParamView, Params};
use crate::text::{ascii_chars, bytes_to_vec, decimal, decimal_string, path_escape, path_escaped};

verus! {

/// Query for the files and directories of a repository.
#[derive(Debug)]
pub struct Tree {
    /// The ID or URL-encoded path of the project.
    pub project: NameOrId,
    /// The path inside the repository, to get the content of subdirectories.
    pub path: Option<String>,
    /// The name of a repository branch or tag or, if not given, the default branch.
    pub ref_: Option<String>,
    /// Whether to get a recursive tree (false by default).
    pub recursive: Option<bool>,
}

/// Builder for [`Tree`].
#[derive(Debug)]
pub struct TreeBuilder {
    pub project: Option<NameOrId>,
    pub path: Option<String>,
    pub ref_: Option<String>,
    pub recursive: Option<bool>,
}

impl Tree {
    /// Create a builder for the endpoint.
    pub fn builder() -> (r: TreeBuilder)
        ensures
            r.project is None,
            r.path is None,
            r.ref_ is None,
            r.recursive is None,
    {
        TreeBuilder { project: None, path: None, ref_: None, recursive: None }
    }
}

impl TreeBuilder {
    /// The ID or URL-encoded path of the project.
    pub fn project<P: IntoNameOrId>(self, project: P) -> (r: Self)
        ensures
            r.project matches Some(v) && project.denotes(v),
            r.path == self.path,
            r.ref_ == self.ref_,
            r.recursive == self.recursive,
    {
        let mut r = self;
        r.project = Some(project.into_name_or_id());
        r
    }

    /// The path inside the repository, to get the content of subdirectories.
    pub fn path(self, path: &str) -> (r: Self)
        ensures
            r.path matches Some(v) && v@ == path@,
            r.project == self.project,
            r.ref_ == self.ref_,
            r.recursive == self.recursive,
    {
        let mut r = self;
        r.path = Some(path.to_owned());
        r
    }

    /// The name of a repository branch or tag or, if not given, the default branch.
    pub fn ref_(self, ref_: &str) -> (r: Self)
        ensures
            r.ref_ matches Some(v) && v@ == ref_@,
            r.project == self.project,
            r.path == self.path,
            r.recursive == self.recursive,
    {
        let mut r = self;
        r.ref_ = Some(ref_.to_owned());
        r
    }

    /// Whether to get a recursive tree (false by default).
    pub fn recursive(self, recursive: bool) -> (r: Self)
        ensures
            r.recursive == Some(recursive),
            r.project == self.project,
            r.path == self.path,
            r.ref_ == self.ref_,
    {
        let mut r = self;
        r.recursive = Some(recursive);
        r
    }

    /// Build the endpoint (`project` must be set).
    pub fn build(self) -> (r: Result<Tree, BuilderError>)
        ensures
            (self.project is None) ==> (r matches Err(e) && e.missing("project"@)),
            (self.project is Some) ==> (r matches Ok(v) && v.project == self.project->0 && v.path == self.path && v.ref_ == self.ref_ && v.recursive == self.recursive),
    {
        match self.project {
            None => Err(BuilderError::UninitializedField("project")),
            Some(project) => {
                Ok(Tree { project, path: self.path, ref_: self.ref_, recursive: self.recursive })
            },
        }
    }
}

impl Endpoint for Tree {
    open spec fn spec_method(&self) -> Method {
        Method::Get
    }

    open spec fn spec_endpoint(&self) -> Seq<char> {
        "projects/"@ + self.project.segment() + "/repository/tree"@
    }

    open spec fn spec_parameters(&self) -> Seq<ParamView> {
        Seq::<ParamView>::empty()
    }

    open spec fn spec_body(&self) -> Option<Seq<ParamView>> {
        Some(opt_pair("path"@, opt_value(self.path)) + opt_pair("ref"@, opt_value(self.ref_)) + opt_pair("recursive"@, opt_value(self.recursive)))
    }

    fn method(&self) -> (r: Method) {
        Method::Get
    }

    fn endpoint(&self) -> (r: String) {
        let mut r = "projects/".to_owned();
        r.append(self.project.to_segment().as_str());
        r.append("/repository/tree");
        r
    }

    fn parameters(&self) -> (r: Params) {
        let mut p = Params::new();
        assert(p@ =~= Seq::<ParamView>::empty());
        p
    }

    fn body(&self) -> (r: Option<(&'static str, Vec<u8>)>) {
        let mut p = Params::new();
        p.push_opt("path", &self.path);
        p.push_opt("ref", &self.ref_);
        p.push_opt("recursive", &self.recursive);
        assert(p@ =~= opt_pair("path"@, opt_value(self.path)) + opt_pair("ref"@, opt_value(self.ref_)) + opt_pair("recursive"@, opt_value(self.recursive)));
        form_request_body(&p)
    }
}

impl Pageable for Tree {
    open spec fn spec_use_keyset_pagination(&self) -> bool {
        false
    }

    fn use_keyset_pagination(&self) -> (r: bool) {
        false
    }
}

} // verus!
