//! Project variable API endpoints.

use vstd::prelude::*;
use vstd::string::StringExecFns;

use crate::common::{
    form_request_body, BuilderError, Endpoint, IntoNameOrId, Method, NameOrId, Pageable,
};
use crate::params::{opt_pair, opt_value, ParamValue, ParamView, Params};
use crate::text::{ascii_chars, bytes_to_vec, decimal, decimal_string, path_escape, path_escaped};

verus! {

/// The type of a project variable.
#[derive(Debug, Clone, Copy, PartialEq, Eq, Structural)]
pub enum ProjectVariableType {
    /// An environment variable.
    EnvVar,
    /// A file variable.
    File,
}

impl ProjectVariableType {
    /// The name of the variant.
    pub open spec fn spec_as_str(self) -> Seq<char> {
        match self {
            ProjectVariableType::EnvVar => "env_var"@,
            ProjectVariableType::File => "file"@,
        }
    }

    /// The name of the variant.
    pub fn as_str(self) -> (r: &'static str)
        ensures
            r@ == self.spec_as_str(),
    {
        match self {
            ProjectVariableType::EnvVar => "env_var",
            ProjectVariableType::File => "file",
        }
    }
}

impl ParamValue for ProjectVariableType {
    open spec fn spec_value(&self) -> Seq<char> {
        self.spec_as_str()
    }

    fn as_value(&self) -> (r: String) {
        self.as_str().to_owned()
    }
}

/// Add a variable to a project.
#[derive(Debug)]
pub struct CreateProjectVariable {
    /// The project to add the variable to.
    pub project: NameOrId,
    /// The key of the variable.
    pub key: String,
    /// The value of the variable.
    pub value: String,
    /// The type of the variable.
    pub variable_type: Option<ProjectVariableType>,
    /// Whether the variable is protected.
    pub protected: Option<bool>,
    /// Whether the variable is masked.
    pub masked: Option<bool>,
    /// The environment scope of the variable.
    pub environment_scope: Option<String>,
}

/// Builder for [`CreateProjectVariable`].
#[derive(Debug)]
pub struct CreateProjectVariableBuilder {
    pub project: Option<NameOrId>,
    pub key: Option<String>,
    pub value: Option<String>,
    pub variable_type: Option<ProjectVariableType>,
    pub protected: Option<bool>,
    pub masked: Option<bool>,
    pub environment_scope: Option<String>,
}

impl CreateProjectVariable {
    /// Create a builder for the endpoint.
    pub fn builder() -> (r: CreateProjectVariableBuilder)
        ensures
            r.project is None,
            r.key is None,
            r.value is None,
            r.variable_type is None,
            r.protected is None,
            r.masked is None,
            r.environment_scope is None,
    {
        CreateProjectVariableBuilder { project: None, key: None, value: None, variable_type: None, protected: None, masked: None, environment_scope: None }
    }
}

impl CreateProjectVariableBuilder {
    /// The project to add the variable to.
    pub fn project<P: IntoNameOrId>(self, project: P) -> (r: Self)
        ensures
            r.project matches Some(v) && project.denotes(v),
            r.key == self.key,
            r.value == self.value,
            r.variable_type == self.variable_type,
            r.protected == self.protected,
            r.masked == self.masked,
            r.environment_scope == self.environment_scope,
    {
        let mut r = self;
        r.project = Some(project.into_name_or_id());
        r
    }

    /// The key of the variable.
    pub fn key(self, key: &str) -> (r: Self)
        ensures
            r.key matches Some(v) && v@ == key@,
            r.project == self.project,
            r.value == self.value,
            r.variable_type == self.variable_type,
            r.protected == self.protected,
            r.masked == self.masked,
            r.environment_scope == self.environment_scope,
    {
        let mut r = self;
        r.key = Some(key.to_owned());
        r
    }

    /// The value of the variable.
    pub fn value(self, value: &str) -> (r: Self)
        ensures
            r.value matches Some(v) && v@ == value@,
            r.project == self.project,
            r.key == self.key,
            r.variable_type == self.variable_type,
            r.protected == self.protected,
            r.masked == self.masked,
            r.environment_scope == self.environment_scope,
    {
        let mut r = self;
        r.value = Some(value.to_owned());
        r
    }

    /// The type of the variable.
    pub fn variable_type(self, variable_type: ProjectVariableType) -> (r: Self)
        ensures
            r.variable_type == Some(variable_type),
            r.project == self.project,
            r.key == self.key,
            r.value == self.value,
            r.protected == self.protected,
            r.masked == self.masked,
            r.environment_scope == self.environment_scope,
    {
        let mut r = self;
        r.variable_type = Some(variable_type);
        r
    }

    /// Whether the variable is protected.
    pub fn protected(self, protected: bool) -> (r: Self)
        ensures
            r.protected == Some(protected),
            r.project == self.project,
            r.key == self.key,
            r.value == self.value,
            r.variable_type == self.variable_type,
            r.masked == self.masked,
            r.environment_scope == self.environment_scope,
    {
        let mut r = self;
        r.protected = Some(protected);
        r
    }

    /// Whether the variable is masked.
    pub fn masked(self, masked: bool) -> (r: Self)
        ensures
            r.masked == Some(masked),
            r.project == self.project,
            r.key == self.key,
            r.value == self.value,
            r.variable_type == self.variable_type,
            r.protected == self.protected,
            r.environment_scope == self.environment_scope,
    {
        let mut r = self;
        r.masked = Some(masked);
        r
    }

    /// The environment scope of the variable.
    pub fn environment_scope(self, environment_scope: &str) -> (r: Self)
        ensures
            r.environment_scope matches Some(v) && v@ == environment_scope@,
            r.project == self.project,
            r.key == self.key,
            r.value == self.value,
            r.variable_type == self.variable_type,
            r.protected == self.protected,
            r.masked == self.masked,
    {
        let mut r = self;
        r.environment_scope = Some(environment_scope.to_owned());
        r
    }

    /// Build the endpoint (`project`, `key`, `value` must be set).
    pub fn build(self) -> (r: Result<CreateProjectVariable, BuilderError>)
        ensures
            (self.project is None) ==> (r matches Err(e) && e.missing("project"@)),
            (self.project is Some && self.key is None) ==> (r matches Err(e) && e.missing("key"@)),
            (self.project is Some && self.key is Some && self.value is None) ==> (r matches Err(e) && e.missing("value"@)),
            (self.project is Some && self.key is Some && self.value is Some) ==> (r matches Ok(v) && v.project == self.project->0 && v.key == self.key->0 && v.value == self.value->0 && v.variable_type == self.variable_type && v.protected == self.protected && v.masked == self.masked && v.environment_scope == self.environment_scope),
    {
        match self.project {
            None => Err(BuilderError::UninitializedField("project")),
            Some(project) => {
                match self.key {
                    None => Err(BuilderError::UninitializedField("key")),
                    Some(key) => {
                        match self.value {
                            None => Err(BuilderError::UninitializedField("value")),
                            Some(value) => {
                                Ok(CreateProjectVariable { project, key, value, variable_type: self.variable_type, protected: self.protected, masked: self.masked, environment_scope: self.environment_scope })
                            },
                        }
                    },
                }
            },
        }
    }
}

impl Endpoint for CreateProjectVariable {
    open spec fn spec_method(&self) -> Method {
        Method::Post
    }

    open spec fn spec_endpoint(&self) -> Seq<char> {
        "projects/"@ + self.project.segment() + "/variables"@
    }

    open spec fn spec_parameters(&self) -> Seq<ParamView> {
        Seq::<ParamView>::empty()
    }

    open spec fn spec_body(&self) -> Option<Seq<ParamView>> {
        Some(seq![("key"@, self.key.spec_value())] + seq![("value"@, self.value.spec_value())] + opt_pair("variable_type"@, opt_value(self.variable_type)) + opt_pair("protected"@, opt_value(self.protected)) + opt_pair("masked"@, opt_value(self.masked)) + opt_pair("environment_scope"@, opt_value(self.environment_scope)))
    }

    fn method(&self) -> (r: Method) {
        Method::Post
    }

    fn endpoint(&self) -> (r: String) {
        let mut r = "projects/".to_owned();
        r.append(self.project.to_segment().as_str());
        r.append("/variables");
        r
    }

    fn parameters(&self) -> (r: Params) {
        let mut p = Params::new();
        assert(p@ =~= Seq::<ParamView>::empty());
        p
    }

    fn body(&self) -> (r: Option<(&'static str, Vec<u8>)>) {
        let mut p = Params::new();
        p.push("key", &self.key);
        p.push("value", &self.value);
        p.push_opt("variable_type", &self.variable_type);
        p.push_opt("protected", &self.protected);
        p.push_opt("masked", &self.masked);
        p.push_opt("environment_scope", &self.environment_scope);
        assert(p@ =~= seq![("key"@, self.key.spec_value())] + seq![("value"@, self.value.spec_value())] + opt_pair("variable_type"@, opt_value(self.variable_type)) + opt_pair("protected"@, opt_value(self.protected)) + opt_pair("masked"@, opt_value(self.masked)) + opt_pair("environment_scope"@, opt_value(self.environment_scope)));
        form_request_body(&p)
    }
}

/// Edit a variable of a project.
#[derive(Debug)]
pub struct UpdateProjectVariable {
    /// The project to edit the variable on.
    pub project: NameOrId,
    /// The name of the variable.
    pub key: String,
    /// The value of the variable.
    pub value: String,
    /// The type of the variable.
    pub variable_type: Option<ProjectVariableType>,
    /// Whether the variable is protected.
    pub protected: Option<bool>,
    /// Whether the variable is masked.
    pub masked: Option<bool>,
    /// The environment scope of the variable.
    pub environment_scope: Option<String>,
}

/// Builder for [`UpdateProjectVariable`].
#[derive(Debug)]
pub struct UpdateProjectVariableBuilder {
    pub project: Option<NameOrId>,
    pub key: Option<String>,
    pub value: Option<String>,
    pub variable_type: Option<ProjectVariableType>,
    pub protected: Option<bool>,
    pub masked: Option<bool>,
    pub environment_scope: Option<String>,
}

impl UpdateProjectVariable {
    /// Create a builder for the endpoint.
    pub fn builder() -> (r: UpdateProjectVariableBuilder)
        ensures
            r.project is None,
            r.key is None,
            r.value is None,
            r.variable_type is None,
            r.protected is None,
            r.masked is None,
            r.environment_scope is None,
    {
        UpdateProjectVariableBuilder { project: None, key: None, value: None, variable_type: None, protected: None, masked: None, environment_scope: None }
    }
}

impl UpdateProjectVariableBuilder {
    /// The project to edit the variable on.
    pub fn project<P: IntoNameOrId>(self, project: P) -> (r: Self)
        ensures
            r.project matches Some(v) && project.denotes(v),
            r.key == self.key,
            r.value == self.value,
            r.variable_type == self.variable_type,
            r.protected == self.protected,
            r.masked == self.masked,
            r.environment_scope == self.environment_scope,
    {
        let mut r = self;
        r.project = Some(project.into_name_or_id());
        r
    }

    /// The name of the variable.
    pub fn key(self, key: &str) -> (r: Self)
        ensures
            r.key matches Some(v) && v@ == key@,
            r.project == self.project,
            r.value == self.value,
            r.variable_type == self.variable_type,
            r.protected == self.protected,
            r.masked == self.masked,
            r.environment_scope == self.environment_scope,
    {
        let mut r = self;
        r.key = Some(key.to_owned());
        r
    }

    /// The value of the variable.
    pub fn value(self, value: &str) -> (r: Self)
        ensures
            r.value matches Some(v) && v@ == value@,
            r.project == self.project,
            r.key == self.key,
            r.variable_type == self.variable_type,
            r.protected == self.protected,
            r.masked == self.masked,
            r.environment_scope == self.environment_scope,
    {
        let mut r = self;
        r.value = Some(value.to_owned());
        r
    }

    /// The type of the variable.
    pub fn variable_type(self, variable_type: ProjectVariableType) -> (r: Self)
        ensures
            r.variable_type == Some(variable_type),
            r.project == self.project,
            r.key == self.key,
            r.value == self.value,
            r.protected == self.protected,
            r.masked == self.masked,
            r.environment_scope == self.environment_scope,
    {
        let mut r = self;
        r.variable_type = Some(variable_type);
        r
    }

    /// Whether the variable is protected.
    pub fn protected(self, protected: bool) -> (r: Self)
        ensures
            r.protected == Some(protected),
            r.project == self.project,
            r.key == self.key,
            r.value == self.value,
            r.variable_type == self.variable_type,
            r.masked == self.masked,
            r.environment_scope == self.environment_scope,
    {
        let mut r = self;
        r.protected = Some(protected);
        r
    }

    /// Whether the variable is masked.
    pub fn masked(self, masked: bool) -> (r: Self)
        ensures
            r.masked == Some(masked),
            r.project == self.project,
            r.key == self.key,
            r.value == self.value,
            r.variable_type == self.variable_type,
            r.protected == self.protected,
            r.environment_scope == self.environment_scope,
    {
        let mut r = self;
        r.masked = Some(masked);
        r
    }

    /// The environment scope of the variable.
    pub fn environment_scope(self, environment_scope: &str) -> (r: Self)
        ensures
            r.environment_scope matches Some(v) && v@ == environment_scope@,
            r.project == self.project,
            r.key == self.key,
            r.value == self.value,
            r.variable_type == self.variable_type,
            r.protected == self.protected,
            r.masked == self.masked,
    {
        let mut r = self;
        r.environment_scope = Some(environment_scope.to_owned());
        r
    }

    /// Build the endpoint (`project`, `key`, `value` must be set).
    pub fn build(self) -> (r: Result<UpdateProjectVariable, BuilderError>)
        ensures
            (self.project is None) ==> (r matches Err(e) && e.missing("project"@)),
            (self.project is Some && self.key is None) ==> (r matches Err(e) && e.missing("key"@)),
            (self.project is Some && self.key is Some && self.value is None) ==> (r matches Err(e) && e.missing("value"@)),
            (self.project is Some && self.key is Some && self.value is Some) ==> (r matches Ok(v) && v.project == self.project->0 && v.key == self.key->0 && v.value == self.value->0 && v.variable_type == self.variable_type && v.protected == self.protected && v.masked == self.masked && v.environment_scope == self.environment_scope),
    {
        match self.project {
            None => Err(BuilderError::UninitializedField("project")),
            Some(project) => {
                match self.key {
                    None => Err(BuilderError::UninitializedField("key")),
                    Some(key) => {
                        match self.value {
                            None => Err(BuilderError::UninitializedField("value")),
                            Some(value) => {
                                Ok(UpdateProjectVariable { project, key, value, variable_type: self.variable_type, protected: self.protected, masked: self.masked, environment_scope: self.environment_scope })
                            },
                        }
                    },
                }
            },
        }
    }
}

impl Endpoint for UpdateProjectVariable {
    open spec fn spec_method(&self) -> Method {
        Method::Put
    }

    open spec fn spec_endpoint(&self) -> Seq<char> {
        "projects/"@ + self.project.segment() + "/variables/"@ + ascii_chars(path_escape(vstd::utf8::encode_utf8(self.key@)))
    }

    open spec fn spec_parameters(&self) -> Seq<ParamView> {
        Seq::<ParamView>::empty()
    }

    open spec fn spec_body(&self) -> Option<Seq<ParamView>> {
        Some(seq![("value"@, self.value.spec_value())] + opt_pair("variable_type"@, opt_value(self.variable_type)) + opt_pair("protected"@, opt_value(self.protected)) + opt_pair("masked"@, opt_value(self.masked)) + opt_pair("environment_scope"@, opt_value(self.environment_scope)))
    }

    fn method(&self) -> (r: Method) {
        Method::Put
    }

    fn endpoint(&self) -> (r: String) {
        let mut r = "projects/".to_owned();
        r.append(self.project.to_segment().as_str());
        r.append("/variables/");
        r.append(path_escaped(self.key.as_str()).as_str());
        r
    }

    fn parameters(&self) -> (r: Params) {
        let mut p = Params::new();
        assert(p@ =~= Seq::<ParamView>::empty());
        p
    }

    fn body(&self) -> (r: Option<(&'static str, Vec<u8>)>) {
        let mut p = Params::new();
        p.push("value", &self.value);
        p.push_opt("variable_type", &self.variable_type);
        p.push_opt("protected", &self.protected);
        p.push_opt("masked", &self.masked);
        p.push_opt("environment_scope", &self.environment_scope);
        assert(p@ =~= seq![("value"@, self.value.spec_value())] + opt_pair("variable_type"@, opt_value(self.variable_type)) + opt_pair("protected"@, opt_value(self.protected)) + opt_pair("masked"@, opt_value(self.masked)) + opt_pair("environment_scope"@, opt_value(self.environment_scope)));
        form_request_body(&p)
    }
}

/// Filters for a project variable query.
#[derive(Debug)]
pub struct ProjectVariableFilter {
    /// Filter based on the environment scope.
    pub environment_scope: Option<String>,
}

/// Builder for [`ProjectVariableFilter`].
#[derive(Debug)]
pub struct ProjectVariableFilterBuilder {
    pub environment_scope: Option<String>,
}

impl ProjectVariableFilter {
    /// Create a builder for the endpoint.
    pub fn builder() -> (r: ProjectVariableFilterBuilder)
        ensures
            r.environment_scope is None,
    {
        ProjectVariableFilterBuilder { environment_scope: None }
    }
}

impl ProjectVariableFilterBuilder {
    /// Filter based on the environment scope.
    pub fn environment_scope(self, environment_scope: &str) -> (r: Self)
        ensures
            r.environment_scope matches Some(v) && v@ == environment_scope@,
    {
        let mut r = self;
        r.environment_scope = Some(environment_scope.to_owned());
        r
    }

    /// Build the endpoint.
    pub fn build(self) -> (r: Result<ProjectVariableFilter, BuilderError>)
        ensures
            r matches Ok(v) && v.environment_scope == self.environment_scope,
    {
        Ok(ProjectVariableFilter { environment_scope: self.environment_scope })
    }
}

impl ProjectVariableFilter {
    /// The parameters which the filter adds to a query.
    pub open spec fn spec_query(self) -> Seq<ParamView> {
        opt_pair("filter[environment_scope]"@, opt_value(self.environment_scope))
    }

    /// Add the filter's parameters to `params`.
    pub fn add_query(&self, params: &mut Params)
        ensures
            final(params)@ == old(params)@ + self.spec_query(),
    {
        params.push_opt("filter[environment_scope]", &self.environment_scope);
    }
}

/// Get a variable of a project.
#[derive(Debug)]
pub struct ProjectVariable {
    /// The project to get the variable from.
    pub project: NameOrId,
    /// The name of the variable.
    pub key: String,
    /// Filters for the variable.
    pub filter: Option<ProjectVariableFilter>,
}

/// Builder for [`ProjectVariable`].
#[derive(Debug)]
pub struct ProjectVariableBuilder {
    pub project: Option<NameOrId>,
    pub key: Option<String>,
    pub filter: Option<ProjectVariableFilter>,
}

impl ProjectVariable {
    /// Create a builder for the endpoint.
    pub fn builder() -> (r: ProjectVariableBuilder)
        ensures
            r.project is None,
            r.key is None,
            r.filter is None,
    {
        ProjectVariableBuilder { project: None, key: None, filter: None }
    }
}

impl ProjectVariableBuilder {
    /// The project to get the variable from.
    pub fn project<P: IntoNameOrId>(self, project: P) -> (r: Self)
        ensures
            r.project matches Some(v) && project.denotes(v),
            r.key == self.key,
            r.filter == self.filter,
    {
        let mut r = self;
        r.project = Some(project.into_name_or_id());
        r
    }

    /// The name of the variable.
    pub fn key(self, key: &str) -> (r: Self)
        ensures
            r.key matches Some(v) && v@ == key@,
            r.project == self.project,
            r.filter == self.filter,
    {
        let mut r = self;
        r.key = Some(key.to_owned());
        r
    }

    /// Filters for the variable.
    pub fn filter(self, filter: ProjectVariableFilter) -> (r: Self)
        ensures
            r.filter == Some(filter),
            r.project == self.project,
            r.key == self.key,
    {
        let mut r = self;
        r.filter = Some(filter);
        r
    }

    /// Build the endpoint (`project`, `key` must be set).
    pub fn build(self) -> (r: Result<ProjectVariable, BuilderError>)
        ensures
            (self.project is None) ==> (r matches Err(e) && e.missing("project"@)),
            (self.project is Some && self.key is None) ==> (r matches Err(e) && e.missing("key"@)),
            (self.project is Some && self.key is Some) ==> (r matches Ok(v) && v.project == self.project->0 && v.key == self.key->0 && v.filter == self.filter),
    {
        match self.project {
            None => Err(BuilderError::UninitializedField("project")),
            Some(project) => {
                match self.key {
                    None => Err(BuilderError::UninitializedField("key")),
                    Some(key) => {
                        Ok(ProjectVariable { project, key, filter: self.filter })
                    },
                }
            },
        }
    }
}

impl Endpoint for ProjectVariable {
    open spec fn spec_method(&self) -> Method {
        Method::Get
    }

    open spec fn spec_endpoint(&self) -> Seq<char> {
        "projects/"@ + self.project.segment() + "/variables/"@ + ascii_chars(path_escape(vstd::utf8::encode_utf8(self.key@)))
    }

    open spec fn spec_parameters(&self) -> Seq<ParamView> {
        Seq::<ParamView>::empty()
    }

    open spec fn spec_body(&self) -> Option<Seq<ParamView>> {
        Some((match self.filter { Some(f) => f.spec_query(), None => Seq::<ParamView>::empty() }))
    }

    fn method(&self) -> (r: Method) {
        Method::Get
    }

    fn endpoint(&self) -> (r: String) {
        let mut r = "projects/".to_owned();
        r.append(self.project.to_segment().as_str());
        r.append("/variables/");
        r.append(path_escaped(self.key.as_str()).as_str());
        r
    }

    fn parameters(&self) -> (r: Params) {
        let mut p = Params::new();
        assert(p@ =~= Seq::<ParamView>::empty());
        p
    }

    fn body(&self) -> (r: Option<(&'static str, Vec<u8>)>) {
        let mut p = Params::new();
        match &self.filter {
            Some(f) => f.add_query(&mut p),
            None => {},
        }
        assert(p@ =~= (match self.filter { Some(f) => f.spec_query(), None => Seq::<ParamView>::empty() }));
        form_request_body(&p)
    }
}

} // verus!
