//! Project repository tags API endpoints.

use vstd::prelude::*;
use vstd::string::StringExecFns;

use crate::common::{
    form_request_body, BuilderError, Endpoint, IntoNameOrId, Method, NameOrId, Pageable,
};
use crate::params::{opt_pair, opt_value, ParamValue, ParamView, Params};
use crate::text::{ascii_chars, bytes_to_vec, decimal, decimal_string, path_escape, path_escaped};
use crate::api::common::SortOrder;

verus! {

/// Create a tag on a project.
#[derive(Debug)]
pub struct CreateTag {
    /// The project to create a tag on.
    pub project: NameOrId,
    /// The name of the new tag.
    pub tag_name: String,
    /// The ref to create the tag from.
    pub ref_: String,
    /// Message creates an annotated tag if present.
    pub message: Option<String>,
}

/// Builder for [`CreateTag`].
#[derive(Debug)]
pub struct CreateTagBuilder {
    pub project: Option<NameOrId>,
    pub tag_name: Option<String>,
    pub ref_: Option<String>,
    pub message: Option<String>,
}

impl CreateTag {
    /// Create a builder for the endpoint.
    pub fn builder() -> (r: CreateTagBuilder)
        ensures
            r.project is None,
            r.tag_name is None,
            r.ref_ is None,
            r.message is None,
    {
        CreateTagBuilder { project: None, tag_name: None, ref_: None, message: None }
    }
}

impl CreateTagBuilder {
    /// The project to create a tag on.
    pub fn project<P: IntoNameOrId>(self, project: P) -> (r: Self)
        ensures
            r.project matches Some(v) && project.denotes(v),
            r.tag_name == self.tag_name,
            r.ref_ == self.ref_,
            r.message == self.message,
    {
        let mut r = self;
        r.project = Some(project.into_name_or_id());
        r
    }

    /// The name of the new tag.
    pub fn tag_name(self, tag_name: &str) -> (r: Self)
        ensures
            r.tag_name matches Some(v) && v@ == tag_name@,
            r.project == self.project,
            r.ref_ == self.ref_,
            r.message == self.message,
    {
        let mut r = self;
        r.tag_name = Some(tag_name.to_owned());
        r
    }

    /// The ref to create the tag from.
    pub fn ref_(self, ref_: &str) -> (r: Self)
        ensures
            r.ref_ matches Some(v) && v@ == ref_@,
            r.project == self.project,
            r.tag_name == self.tag_name,
            r.message == self.message,
    {
        let mut r = self;
        r.ref_ = Some(ref_.to_owned());
        r
    }

    /// Message creates an annotated tag if present.
    pub fn message(self, message: &str) -> (r: Self)
        ensures
            r.message matches Some(v) && v@ == message@,
            r.project == self.project,
            r.tag_name == self.tag_name,
            r.ref_ == self.ref_,
    {
        let mut r = self;
        r.message = Some(message.to_owned());
        r
    }

    /// Build the endpoint (`project`, `tag_name`, `ref_` must be set).
    pub fn build(self) -> (r: Result<CreateTag, BuilderError>)
        ensures
            (self.project is None) ==> (r matches Err(e) && e.missing("project"@)),
            (self.project is Some && self.tag_name is None) ==> (r matches Err(e) && e.missing("tag_name"@)),
            (self.project is Some && self.tag_name is Some && self.ref_ is None) ==> (r matches Err(e) && e.missing("ref_"@)),
            (self.project is Some && self.tag_name is Some && self.ref_ is Some) ==> (r matches Ok(v) && v.project == self.project->0 && v.tag_name == self.tag_name->0 && v.ref_ == self.ref_->0 && v.message == self.message),
    {
        match self.project {
            None => Err(BuilderError::UninitializedField("project")),
            Some(project) => {
                match self.tag_name {
                    None => Err(BuilderError::UninitializedField("tag_name")),
                    Some(tag_name) => {
                        match self.ref_ {
                            None => Err(BuilderError::UninitializedField("ref_")),
                            Some(ref_) => {
                                Ok(CreateTag { project, tag_name, ref_, message: self.message })
                            },
                        }
                    },
                }
            },
        }
    }
}

impl Endpoint for CreateTag {
    open spec fn spec_method(&self) -> Method {
        Method::Post
    }

    open spec fn spec_endpoint(&self) -> Seq<char> {
        "projects/"@ + self.project.segment() + "/repository/tags"@
    }

    open spec fn spec_parameters(&self) -> Seq<ParamView> {
        Seq::<ParamView>::empty()
    }

    open spec fn spec_body(&self) -> Option<Seq<ParamView>> {
        Some(seq![("tag_name"@, self.tag_name.spec_value())] + seq![("ref"@, self.ref_.spec_value())] + opt_pair("message"@, opt_value(self.message)))
    }

    fn method(&self) -> (r: Method) {
        Method::Post
    }

    fn endpoint(&self) -> (r: String) {
        let mut r = "projects/".to_owned();
        r.append(self.project.to_segment().as_str());
        r.append("/repository/tags");
        r
    }

    fn parameters(&self) -> (r: Params) {
        let mut p = Params::new();
        assert(p@ =~= Seq::<ParamView>::empty());
        p
    }

    fn body(&self) -> (r: Option<(&'static str, Vec<u8>)>) {
        let mut p = Params::new();
        p.push("tag_name", &self.tag_name);
        p.push("ref", &self.ref_);
        p.push_opt("message", &self.message);
        assert(p@ =~= seq![("tag_name"@, self.tag_name.spec_value())] + seq![("ref"@, self.ref_.spec_value())] + opt_pair("message"@, opt_value(self.message)));
        form_request_body(&p)
    }
}

/// Query for a specific tag in a project.
#[derive(Debug)]
pub struct Tag {
    /// The project to get a tag from.
    pub project: NameOrId,
    /// The tag to get.
    pub tag_name: String,
}

/// Builder for [`Tag`].
#[derive(Debug)]
pub struct TagBuilder {
    pub project: Option<NameOrId>,
    pub tag_name: Option<String>,
}

impl Tag {
    /// Create a builder for the endpoint.
    pub fn builder() -> (r: TagBuilder)
        ensures
            r.project is None,
            r.tag_name is None,
    {
        TagBuilder { project: None, tag_name: None }
    }
}

impl TagBuilder {
    /// The project to get a tag from.
    pub fn project<P: IntoNameOrId>(self, project: P) -> (r: Self)
        ensures
            r.project matches Some(v) && project.denotes(v),
            r.tag_name == self.tag_name,
    {
        let mut r = self;
        r.project = Some(project.into_name_or_id());
        r
    }

    /// The tag to get.
    pub fn tag_name(self, tag_name: &str) -> (r: Self)
        ensures
            r.tag_name matches Some(v) && v@ == tag_name@,
            r.project == self.project,
    {
        let mut r = self;
        r.tag_name = Some(tag_name.to_owned());
        r
    }

    /// Build the endpoint (`project`, `tag_name` must be set).
    pub fn build(self) -> (r: Result<Tag, BuilderError>)
        ensures
            (self.project is None) ==> (r matches Err(e) && e.missing("project"@)),
            (self.project is Some && self.tag_name is None) ==> (r matches Err(e) && e.missing("tag_name"@)),
            (self.project is Some && self.tag_name is Some) ==> (r matches Ok(v) && v.project == self.project->0 && v.tag_name == self.tag_name->0),
    {
        match self.project {
            None => Err(BuilderError::UninitializedField("project")),
            Some(project) => {
                match self.tag_name {
                    None => Err(BuilderError::UninitializedField("tag_name")),
                    Some(tag_name) => {
                        Ok(Tag { project, tag_name })
                    },
                }
            },
        }
    }
}

impl Endpoint for Tag {
    open spec fn spec_method(&self) -> Method {
        Method::Get
    }

    open spec fn spec_endpoint(&self) -> Seq<char> {
        "projects/"@ + self.project.segment() + "/repository/tags/"@ + ascii_chars(path_escape(vstd::utf8::encode_utf8(self.tag_name@)))
    }

    open spec fn spec_parameters(&self) -> Seq<ParamView> {
        Seq::<ParamView>::empty()
    }

    open spec fn spec_body(&self) -> Option<Seq<ParamView>> {
        None
    }

    fn method(&self) -> (r: Method) {
        Method::Get
    }

    fn endpoint(&self) -> (r: String) {
        let mut r = "projects/".to_owned();
        r.append(self.project.to_segment().as_str());
        r.append("/repository/tags/");
        r.append(path_escaped(self.tag_name.as_str()).as_str());
        r
    }

    fn parameters(&self) -> (r: Params) {
        let mut p = Params::new();
        assert(p@ =~= Seq::<ParamView>::empty());
        p
    }

    fn body(&self) -> (r: Option<(&'static str, Vec<u8>)>) {
        None
    }
}

/// Keys tags may be ordered by.
#[derive(Debug, Clone, Copy, PartialEq, Eq, Structural)]
pub enum TagsOrderBy {
    /// Tags are ordered by name.
    Name,
    /// Tags are ordered by their last update.
    Updated,
}

impl TagsOrderBy {
    /// The name of the variant.
    pub open spec fn spec_as_str(self) -> Seq<char> {
        match self {
            TagsOrderBy::Name => "name"@,
            TagsOrderBy::Updated => "updated"@,
        }
    }

    /// The name of the variant.
    pub fn as_str(self) -> (r: &'static str)
        ensures
            r@ == self.spec_as_str(),
    {
        match self {
            TagsOrderBy::Name => "name",
            TagsOrderBy::Updated => "updated",
        }
    }
}

impl ParamValue for TagsOrderBy {
    open spec fn spec_value(&self) -> Seq<char> {
        self.spec_as_str()
    }

    fn as_value(&self) -> (r: String) {
        self.as_str().to_owned()
    }
}

impl Default for TagsOrderBy {
    fn default() -> (r: Self)
        ensures
            r == TagsOrderBy::Name,
    {
        TagsOrderBy::Name
    }
}

/// Query for the tags of a project.
#[derive(Debug)]
pub struct Tags {
    /// The project to get tags from.
    pub project: NameOrId,
    /// What field to order returned tags by.
    pub order_by: Option<TagsOrderBy>,
    /// Which order to sort the results.
    pub sort: Option<SortOrder>,
    /// Filter tags by a search query.
    pub search: Option<String>,
}

/// Builder for [`Tags`].
#[derive(Debug)]
pub struct TagsBuilder {
    pub project: Option<NameOrId>,
    pub order_by: Option<TagsOrderBy>,
    pub sort: Option<SortOrder>,
    pub search: Option<String>,
}

impl Tags {
    /// Create a builder for the endpoint.
    pub fn builder() -> (r: TagsBuilder)
        ensures
            r.project is None,
            r.order_by is None,
            r.sort is None,
            r.search is None,
    {
        TagsBuilder { project: None, order_by: None, sort: None, search: None }
    }
}

impl TagsBuilder {
    /// The project to get tags from.
    pub fn project<P: IntoNameOrId>(self, project: P) -> (r: Self)
        ensures
            r.project matches Some(v) && project.denotes(v),
            r.order_by == self.order_by,
            r.sort == self.sort,
            r.search == self.search,
    {
        let mut r = self;
        r.project = Some(project.into_name_or_id());
        r
    }

    /// What field to order returned tags by.
    pub fn order_by(self, order_by: TagsOrderBy) -> (r: Self)
        ensures
            r.order_by == Some(order_by),
            r.project == self.project,
            r.sort == self.sort,
            r.search == self.search,
    {
        let mut r = self;
        r.order_by = Some(order_by);
        r
    }

    /// Which order to sort the results.
    pub fn sort(self, sort: SortOrder) -> (r: Self)
        ensures
            r.sort == Some(sort),
            r.project == self.project,
            r.order_by == self.order_by,
            r.search == self.search,
    {
        let mut r = self;
        r.sort = Some(sort);
        r
    }

    /// Filter tags by a search query.
    pub fn search(self, search: &str) -> (r: Self)
        ensures
            r.search matches Some(v) && v@ == search@,
            r.project == self.project,
            r.order_by == self.order_by,
            r.sort == self.sort,
    {
        let mut r = self;
        r.search = Some(search.to_owned());
        r
    }

    /// Build the endpoint (`project` must be set).
    pub fn build(self) -> (r: Result<Tags, BuilderError>)
        ensures
            (self.project is None) ==> (r matches Err(e) && e.missing("project"@)),
            (self.project is Some) ==> (r matches Ok(v) && v.project == self.project->0 && v.order_by == self.order_by && v.sort == self.sort && v.search == self.search),
    {
        match self.project {
            None => Err(BuilderError::UninitializedField("project")),
            Some(project) => {
                Ok(Tags { project, order_by: self.order_by, sort: self.sort, search: self.search })
            },
        }
    }
}

impl Endpoint for Tags {
    open spec fn spec_method(&self) -> Method {
        Method::Get
    }

    open spec fn spec_endpoint(&self) -> Seq<char> {
        "projects/"@ + self.project.segment() + "/repository/tags"@
    }

    open spec fn spec_parameters(&self) -> Seq<ParamView> {
        opt_pair("search"@, opt_value(self.search)) + opt_pair("order_by"@, opt_value(self.order_by)) + opt_pair("sort"@, opt_value(self.sort))
    }

    open spec fn spec_body(&self) -> Option<Seq<ParamView>> {
        None
    }

    fn method(&self) -> (r: Method) {
        Method::Get
    }

    fn endpoint(&self) -> (r: String) {
        let mut r = "projects/".to_owned();
        r.append(self.project.to_segment().as_str());
        r.append("/repository/tags");
        r
    }

    fn parameters(&self) -> (r: Params) {
        let mut p = Params::new();
        p.push_opt("search", &self.search);
        p.push_opt("order_by", &self.order_by);
        p.push_opt("sort", &self.sort);
        assert(p@ =~= opt_pair("search"@, opt_value(self.search)) + opt_pair("order_by"@, opt_value(self.order_by)) + opt_pair("sort"@, opt_value(self.sort)));
        p
    }

    fn body(&self) -> (r: Option<(&'static str, Vec<u8>)>) {
        None
    }
}

} // verus!
