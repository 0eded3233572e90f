//! Running endpoints as another user.

use vstd::prelude::*;

use crate::common::{Endpoint, Method, Pageable};
use crate::params::{ParamView, Params};

verus! {

/// A context for running several endpoints as another user.
#[derive(Debug, Clone)]
pub struct SudoContext {
    /// The username to use for the endpoints.
    pub sudo: String,
}

impl SudoContext {
    /// Create a new `sudo` context for API endpoints.
    pub fn new(sudo: &str) -> (r: Self)
        ensures
            r.sudo@ == sudo@,
    {
        SudoContext { sudo: sudo.to_owned() }
    }

    /// Apply the context to an endpoint.
    pub fn apply<E>(&self, endpoint: E) -> (r: Sudo<E>)
        ensures
            r.endpoint == endpoint,
            r.sudo@ == self.sudo@,
    {
        Sudo { endpoint, sudo: self.sudo.clone() }
    }
}

/// An endpoint run as another user.
#[derive(Debug, Clone)]
pub struct Sudo<E> {
    /// The endpoint to call with `sudo`.
    pub endpoint: E,
    /// The username to use for the endpoint.
    pub sudo: String,
}

/// Run an endpoint as another user.
pub fn sudo<E>(endpoint: E, username: &str) -> (r: Sudo<E>)
    ensures
        r.endpoint == endpoint,
        r.sudo@ == username@,
{
    Sudo { endpoint, sudo: username.to_owned() }
}

impl<E: Endpoint> Endpoint for Sudo<E> {
    open spec fn spec_method(&self) -> Method {
        self.endpoint.spec_method()
    }

    open spec fn spec_endpoint(&self) -> Seq<char> {
        self.endpoint.spec_endpoint()
    }

    open spec fn spec_parameters(&self) -> Seq<ParamView> {
        self.endpoint.spec_parameters().push(("sudo"@, self.sudo@))
    }

    open spec fn spec_body(&self) -> Option<Seq<ParamView>> {
        self.endpoint.spec_body()
    }

    fn method(&self) -> (r: Method) {
        self.endpoint.method()
    }

    fn endpoint(&self) -> (r: String) {
        self.endpoint.endpoint()
    }

    fn parameters(&self) -> (r: Params) {
        let mut params = self.endpoint.parameters();
        params.push_str("sudo", self.sudo.as_str());
        params
    }

    fn body(&self) -> (r: Option<(&'static str, Vec<u8>)>) {
        self.endpoint.body()
    }
}

impl<E: Pageable> Pageable for Sudo<E> {
    open spec fn spec_use_keyset_pagination(&self) -> bool {
        self.endpoint.spec_use_keyset_pagination()
    }

    fn use_keyset_pagination(&self) -> (r: bool) {
        self.endpoint.use_keyset_pagination()
    }
}

/// Running an endpoint as another user sends the same method, path and
/// body, with the `sudo` parameter added after the endpoint's own.
pub proof fn lemma_sudo_keeps_request<E: Endpoint>(endpoint: E, username: String)
    ensures
        (Sudo { endpoint, sudo: username }).spec_method() == endpoint.spec_method(),
        (Sudo { endpoint, sudo: username }).spec_endpoint() == endpoint.spec_endpoint(),
        (Sudo { endpoint, sudo: username }).spec_body() == endpoint.spec_body(),
        (Sudo { endpoint, sudo: username }).spec_parameters() == endpoint.spec_parameters() + seq![
            ("sudo"@, username@),
        ],
{
    assert(endpoint.spec_parameters().push(("sudo"@, username@)) =~= endpoint.spec_parameters()
        + seq![("sudo"@, username@)]);
}

} // verus!
