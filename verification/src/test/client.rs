//! Clients which check the requests that endpoints send against the
//! request a test expects, and answer with canned data.

use vstd::prelude::*;
use vstd::string::*;

use crate::api::client::{Client, RestRequest, RestResponse};
use crate::api::error::ApiError;
use crate::common::{str_eq, BuilderError, Method};
use crate::params::{form_body, lemma_form_body_ascii, ParamView, Params};
use crate::text::{
    ascii_chars, ascii_string, bytes_to_vec, decimal, decimal_string, is_ascii_bytes, parse_usize,
    spec_parse_usize,
};

verus! {

/// The root of the API that the test clients stand for.
pub const CLIENT_STUB: &'static str = "https://gitlab.host.invalid/api/v4";

/// The query parameter that the paged test client uses for its keyset.
pub const KEYSET_QUERY_PARAM: &'static str = "__test_keyset";

/// The number of items in a page when the request does not say.
pub const DEFAULT_PAGE_SIZE: usize = 20;

/// Why a request is not the one a test expects.
#[derive(Debug, Clone, Copy, PartialEq, Eq, Structural)]
pub enum TestClientError {
    /// The method differs.
    Method,
    /// The path differs.
    Endpoint,
    /// The query parameters differ.
    Query,
    /// The body differs.
    Body,
    /// The content type differs.
    ContentType,
    /// The pagination parameters cannot be read.
    Pagination,
}

/// The request a test expects, and the status of the answer.
#[derive(Debug)]
pub struct ExpectedUrl {
    /// The method of the request.
    pub method: Method,
    /// The path of the request below the API root.
    pub endpoint: String,
    /// The query parameters, in any order.
    pub query: Vec<(String, String)>,
    /// The content type of the body, if there is a body.
    pub content_type: Option<String>,
    /// The bytes of the body.
    pub body: Vec<u8>,
    /// The status of the answer.
    pub status: u16,
    /// Whether the pagination parameters are left out of the check.
    pub paginated: bool,
}

/// Builder for [`ExpectedUrl`].
#[derive(Debug)]
pub struct ExpectedUrlBuilder {
    pub method: Option<Method>,
    pub endpoint: Option<String>,
    pub query: Option<Vec<(String, String)>>,
    pub content_type: Option<String>,
    pub body: Option<Vec<u8>>,
    pub status: Option<u16>,
    pub paginated: Option<bool>,
}

/// The expected query parameters, as the characters of keys and values.
pub open spec fn query_view(query: Option<Vec<(String, String)>>) -> Seq<ParamView> {
    match query {
        Some(q) => q@.map_values(|p: (String, String)| (p.0@, p.1@)),
        None => Seq::empty(),
    }
}

/// Whether `after` is `before` expecting the query parameters `pairs` after
/// those it already expected, and otherwise unchanged.
pub open spec fn is_add_query_params_result(before: ExpectedUrlBuilder, pairs: Seq<ParamView>, after: ExpectedUrlBuilder) -> bool {
    &&& after.query is Some
    &&& query_view(after.query) == query_view(before.query) + pairs
    &&& after == (ExpectedUrlBuilder { query: after.query, ..before })
}

/// Adding two lists of query parameters, one after the other, expects the
/// same parameters as adding both lists at once, and leaves the rest of the
/// builder the same.
pub proof fn lemma_add_query_params_concatenate(
    b: ExpectedUrlBuilder,
    first: Seq<ParamView>,
    second: Seq<ParamView>,
    one: ExpectedUrlBuilder,
    two: ExpectedUrlBuilder,
    both: ExpectedUrlBuilder,
)
    requires
        is_add_query_params_result(b, first, one),
        is_add_query_params_result(one, second, two),
        is_add_query_params_result(b, first + second, both),
    ensures
        two.query is Some,
        query_view(two.query) == query_view(both.query),
        two == (ExpectedUrlBuilder { query: two.query, ..both }),
{
    assert(query_view(b.query) + first + second =~= query_view(b.query) + (first + second));
}

impl ExpectedUrl {
    /// Create a builder for the expected request, with nothing set.
    pub fn builder() -> (r: ExpectedUrlBuilder)
        ensures
            r.method is None,
            r.endpoint is None,
            r.query is None,
            r.content_type is None,
            r.body is None,
            r.status is None,
            r.paginated is None,
    {
        ExpectedUrlBuilder {
            method: None,
            endpoint: None,
            query: None,
            content_type: None,
            body: None,
            status: None,
            paginated: None,
        }
    }
}

impl ExpectedUrlBuilder {
    /// The method of the request (`GET` when not set).
    pub fn method(self, method: Method) -> (r: Self)
        ensures
            r == (ExpectedUrlBuilder { method: Some(method), ..self }),
    {
        let mut r = self;
        r.method = Some(method);
        r
    }

    /// The path of the request below the API root.
    pub fn endpoint(self, endpoint: &str) -> (r: Self)
        ensures
            r.endpoint matches Some(e) && e@ == endpoint@,
            r == (ExpectedUrlBuilder { endpoint: r.endpoint, ..self }),
    {
        let mut r = self;
        r.endpoint = Some(endpoint.to_owned());
        r
    }

    /// Add query parameters to those expected.
    pub fn add_query_params(self, pairs: &[(&str, &str)]) -> (r: Self)
        ensures
            r.query matches Some(q) && q@.len() == (match self.query {
                Some(old) => old@.len(),
                None => 0,
            }) + pairs@.len() && (forall|i: int|
                0 <= i < q@.len() ==> (#[trigger] q@[i]).0@ == (if i < q@.len() - pairs@.len() {
                    self.query->0@[i].0@
                } else {
                    pairs@[i - (q@.len() - pairs@.len())].0@
                }) && q@[i].1@ == (if i < q@.len() - pairs@.len() {
                    self.query->0@[i].1@
                } else {
                    pairs@[i - (q@.len() - pairs@.len())].1@
                })),
            r == (ExpectedUrlBuilder { query: r.query, ..self }),
            is_add_query_params_result(
                self,
                pairs@.map_values(|p: (&str, &str)| (p.0@, p.1@)),
                r,
            ),
    {
        let mut r = self;
        let mut query = match r.query {
            Some(q) => q,
            None => Vec::new(),
        };
        let ghost start = query@;
        let mut i: usize = 0;
        while i < pairs.len()
            invariant
                i <= pairs@.len(),
                query@.len() == start.len() + i,
                forall|j: int| 0 <= j < start.len() ==> (#[trigger] query@[j]) == start[j],
                forall|j: int|
                    start.len() <= j < query@.len() ==> (#[trigger] query@[j]).0@ == pairs@[j
                        - start.len()].0@ && query@[j].1@ == pairs@[j - start.len()].1@,
            decreases pairs@.len() - i,
        {
            let (k, v) = pairs[i];
            query.push((k.to_owned(), v.to_owned()));
            i = i + 1;
        }
        proof {
            let added = pairs@.map_values(|p: (&str, &str)| (p.0@, p.1@));
            assert(query_view(Some(query)) =~= query_view(self.query) + added);
        }
        r.query = Some(query);
        r
    }

    /// The content type of the body.
    pub fn content_type(self, content_type: &str) -> (r: Self)
        ensures
            r.content_type matches Some(c) && c@ == content_type@,
            r == (ExpectedUrlBuilder { content_type: r.content_type, ..self }),
    {
        let mut r = self;
        r.content_type = Some(content_type.to_owned());
        r
    }

    /// The bytes of the body.
    pub fn body(self, body: Vec<u8>) -> (r: Self)
        ensures
            r == (ExpectedUrlBuilder { body: Some(body), ..self }),
    {
        let mut r = self;
        r.body = Some(body);
        r
    }

    /// The body, as the UTF-8 bytes of a string.
    pub fn body_str(self, body: &str) -> (r: Self)
        ensures
            r.body matches Some(b) && b@ == vstd::utf8::encode_utf8(body@),
            r == (ExpectedUrlBuilder { body: r.body, ..self }),
    {
        let mut r = self;
        r.body = Some(bytes_to_vec(body.as_bytes()));
        r
    }

    /// The status of the answer (200 when not set).
    pub fn status(self, status: u16) -> (r: Self)
        ensures
            r == (ExpectedUrlBuilder { status: Some(status), ..self }),
    {
        let mut r = self;
        r.status = Some(status);
        r
    }

    /// Whether the pagination parameters are left out of the check.
    pub fn paginated(self, paginated: bool) -> (r: Self)
        ensures
            r == (ExpectedUrlBuilder { paginated: Some(paginated), ..self }),
    {
        let mut r = self;
        r.paginated = Some(paginated);
        r
    }

    /// Build the expected request (`endpoint` must be set).
    pub fn build(self) -> (r: Result<ExpectedUrl, BuilderError>)
        ensures
            self.endpoint is None ==> (r matches Err(e) && e.missing("endpoint"@)),
            self.endpoint matches Some(endpoint) ==> (r matches Ok(e) && e.endpoint == endpoint
                && e.method == (match self.method {
                Some(m) => m,
                None => Method::Get,
            }) && e.query@ == (match self.query {
                Some(q) => q@,
                None => Seq::empty(),
            }) && e.content_type == self.content_type && e.body@ == (match self.body {
                Some(b) => b@,
                None => Seq::empty(),
            }) && e.status == (match self.status {
                Some(s) => s,
                None => 200,
            }) && e.paginated == (match self.paginated {
                Some(p) => p,
                None => false,
            })),
    {
        match self.endpoint {
            None => Err(BuilderError::UninitializedField("endpoint")),
            Some(endpoint) => Ok(
                ExpectedUrl {
                    method: match self.method {
                        Some(m) => m,
                        None => Method::Get,
                    },
                    endpoint,
                    query: match self.query {
                        Some(q) => q,
                        None => Vec::new(),
                    },
                    content_type: self.content_type,
                    body: match self.body {
                        Some(b) => b,
                        None => Vec::new(),
                    },
                    status: match self.status {
                        Some(s) => s,
                        None => 200,
                    },
                    paginated: match self.paginated {
                        Some(p) => p,
                        None => false,
                    },
                },
            ),
        }
    }
}

/// Whether a query parameter belongs to pagination.
pub open spec fn is_pagination_key(key: Seq<char>) -> bool {
    key == "pagination"@ || key == "__test_keyset"@ || key == "page"@ || key == "per_page"@
}

/// Whether a parameter is checked against the expected ones.
pub open spec fn is_checked(paginated: bool, key: Seq<char>) -> bool {
    !(paginated && is_pagination_key(key))
}

/// Whether the expected parameters hold the pair.
pub open spec fn holds_pair(expected: Seq<(String, String)>, key: Seq<char>, value: Seq<char>) -> bool {
    exists|i: int| 0 <= i < expected.len() && (#[trigger] expected[i]).0@ == key && expected[i].1@ == value
}

/// The number of parameters that are checked.
pub open spec fn checked_count(paginated: bool, ps: Seq<ParamView>) -> nat
    decreases ps.len(),
{
    if ps.len() == 0 {
        0
    } else {
        checked_count(paginated, ps.drop_last()) + if is_checked(paginated, ps.last().0) {
            1nat
        } else {
            0nat
        }
    }
}

/// Whether the parameters of a request are those expected: every checked
/// parameter is among the expected ones, and there are as many checked
/// parameters as expected ones.
pub open spec fn query_matches(expected: ExpectedUrl, ps: Seq<ParamView>) -> bool {
    &&& forall|i: int|
        0 <= i < ps.len() && is_checked(expected.paginated, (#[trigger] ps[i]).0) ==> holds_pair(
            expected.query@,
            ps[i].0,
            ps[i].1,
        )
    &&& checked_count(expected.paginated, ps) == expected.query@.len()
}

/// The bytes of the body of a request (none when there is no body).
pub open spec fn body_bytes(body: Option<(&'static str, Vec<u8>)>) -> Seq<u8> {
    match body {
        Some(b) => b.1@,
        None => Seq::empty(),
    }
}

/// Whether the content type of a request is the one expected.
pub open spec fn content_type_matches(expected: Option<String>, body: Option<(&'static str, Vec<u8>)>) -> bool {
    match expected {
        Some(c) => body matches Some(b) && b.0@ == c@,
        None => body is None,
    }
}

/// The first difference between a request and the expected one: method,
/// path, query parameters, body, then content type.
pub open spec fn spec_check(expected: ExpectedUrl, request: RestRequest) -> Result<(), TestClientError> {
    if request.method != expected.method {
        Err(TestClientError::Method)
    } else if request.endpoint@ != expected.endpoint@ {
        Err(TestClientError::Endpoint)
    } else if !query_matches(expected, request.query@) {
        Err(TestClientError::Query)
    } else if body_bytes(request.body) != expected.body@ {
        Err(TestClientError::Body)
    } else if !content_type_matches(expected.content_type, request.body) {
        Err(TestClientError::ContentType)
    } else {
        Ok(())
    }
}

/// Without pagination, every parameter is checked.
proof fn lemma_all_checked(ps: Seq<ParamView>)
    ensures
        checked_count(false, ps) == ps.len(),
    decreases ps.len(),
{
    if ps.len() > 0 {
        lemma_all_checked(ps.drop_last());
    }
}

/// A request passes the check of an expectation that lists its method,
/// path, parameters, body and content type.
pub proof fn lemma_check_accepts_listed_request(expected: ExpectedUrl, request: RestRequest)
    requires
        request.method == expected.method,
        request.endpoint@ == expected.endpoint@,
        !expected.paginated,
        expected.query@.len() == request.query@.len(),
        forall|i: int|
            0 <= i < request.query@.len() ==> (#[trigger] expected.query@[i]).0@
                == request.query@[i].0 && expected.query@[i].1@ == request.query@[i].1,
        body_bytes(request.body) == expected.body@,
        content_type_matches(expected.content_type, request.body),
    ensures
        spec_check(expected, request) == Ok::<(), TestClientError>(()),
{
    let ps = request.query@;
    lemma_all_checked(ps);
    assert forall|i: int| 0 <= i < ps.len() && is_checked(expected.paginated, (#[trigger] ps[i]).0) implies holds_pair(
        expected.query@,
        ps[i].0,
        ps[i].1,
    ) by {
        assert(expected.query@[i].0@ == ps[i].0);
    }
}

/// Whether a query parameter belongs to pagination.
fn is_pagination_key_exec(key: &str) -> (r: bool)
    ensures
        r == is_pagination_key(key@),
{
    str_eq(key, "pagination") || str_eq(key, "__test_keyset") || str_eq(key, "page") || str_eq(
        key,
        "per_page",
    )
}

/// Whether the expected parameters hold the pair.
fn holds_pair_exec(expected: &Vec<(String, String)>, key: &str, value: &str) -> (r: bool)
    ensures
        r == holds_pair(expected@, key@, value@),
{
    let mut i: usize = 0;
    while i < expected.len()
        invariant
            i <= expected@.len(),
            forall|j: int|
                0 <= j < i ==> !((#[trigger] expected@[j]).0@ == key@ && expected@[j].1@
                    == value@),
        decreases expected@.len() - i,
    {
        if str_eq(expected[i].0.as_str(), key) && str_eq(expected[i].1.as_str(), value) {
            assert(expected@[i as int].0@ == key@);
            return true;
        }
        i = i + 1;
    }
    false
}

impl ExpectedUrl {
    /// Check the query parameters of a request.
    fn check_query(&self, query: &Params) -> (r: bool)
        ensures
            r == query_matches(*self, query@),
    {
        let mut count: usize = 0;
        let mut i: usize = 0;
        while i < query.len()
            invariant
                i <= query@.len(),
                count == checked_count(self.paginated, query@.take(i as int)),
                count <= i,
                forall|j: int|
                    0 <= j < i && is_checked(self.paginated, (#[trigger] query@[j]).0) ==> holds_pair(
                        self.query@,
                        query@[j].0,
                        query@[j].1,
                    ),
            decreases query@.len() - i,
        {
            let key = query.key(i);
            let value = query.value(i);
            proof {
                assert(query@.take(i + 1).drop_last() =~= query@.take(i as int));
            }
            if !(self.paginated && is_pagination_key_exec(key.as_str())) {
                if !holds_pair_exec(&self.query, key.as_str(), value.as_str()) {
                    return false;
                }
                count = count + 1;
            }
            i = i + 1;
        }
        proof {
            assert(query@.take(query@.len() as int) =~= query@);
        }
        count == self.query.len()
    }

    /// The first difference between a request and the expected one.
    pub fn check(&self, request: &RestRequest) -> (r: Result<(), TestClientError>)
        ensures
            r == spec_check(*self, *request),
    {
        if request.method != self.method {
            return Err(TestClientError::Method);
        }
        if !str_eq(request.endpoint.as_str(), self.endpoint.as_str()) {
            return Err(TestClientError::Endpoint);
        }
        if !self.check_query(&request.query) {
            return Err(TestClientError::Query);
        }
        let body_same = match &request.body {
            Some((_, data)) => bytes_eq(data.as_slice(), self.body.as_slice()),
            None => self.body.len() == 0,
        };
        if !body_same {
            proof {
                if request.body is None {
                    assert(body_bytes(request.body) =~= Seq::<u8>::empty());
                }
            }
            return Err(TestClientError::Body);
        }
        proof {
            if request.body is None {
                assert(self.body@ =~= Seq::<u8>::empty());
            }
        }
        let type_same = match (&self.content_type, &request.body) {
            (Some(c), Some((t, _))) => str_eq(t, c.as_str()),
            (None, None) => true,
            _ => false,
        };
        if !type_same {
            return Err(TestClientError::ContentType);
        }
        Ok(())
    }
}

/// Whether two byte strings are the same.
pub fn bytes_eq(a: &[u8], b: &[u8]) -> (r: bool)
    ensures
        r == (a@ == b@),
{
    if a.len() != b.len() {
        return false;
    }
    let mut i: usize = 0;
    while i < a.len()
        invariant
            a@.len() == b@.len(),
            i <= a@.len(),
            forall|j: int| 0 <= j < i ==> a@[j] == b@[j],
        decreases a@.len() - i,
    {
        if a[i] != b[i] {
            return false;
        }
        i = i + 1;
    }
    assert(a@ =~= b@);
    true
}

/// A client which expects one request and answers it with fixed data.
pub struct SingleTestClient {
    /// The request expected.
    pub expected: ExpectedUrl,
    /// The body of the answer.
    pub data: Vec<u8>,
}

impl SingleTestClient {
    /// A client which answers the expected request with the bytes of `data`.
    pub fn new_raw(expected: ExpectedUrl, data: &str) -> (r: Self)
        ensures
            r.expected == expected,
            r.data@ == vstd::utf8::encode_utf8(data@),
    {
        SingleTestClient { expected, data: bytes_to_vec(data.as_bytes()) }
    }
}

impl Client for SingleTestClient {
    type Error = TestClientError;

    open spec fn answers(&self, request: RestRequest, response: Result<RestResponse, ApiError<TestClientError>>) -> bool {
        match spec_check(self.expected, request) {
            Err(e) => response == Err::<RestResponse, ApiError<TestClientError>>(
                ApiError::Client { source: e },
            ),
            Ok(()) => response matches Ok(rsp) && rsp.status == self.expected.status && rsp.headers@.len()
                == 0 && rsp.body@ == self.data@,
        }
    }

    fn rest(&self, request: RestRequest) -> (r: Result<RestResponse, ApiError<TestClientError>>) {
        match self.expected.check(&request) {
            Err(e) => Err(ApiError::Client { source: e }),
            Ok(()) => Ok(
                RestResponse {
                    status: self.expected.status,
                    headers: Vec::new(),
                    body: bytes_to_vec(self.data.as_slice()),
                },
            ),
        }
    }
}

/// A page of results.
#[derive(Debug, Clone, Copy, PartialEq, Eq, Structural)]
pub enum Page {
    /// The page with the given number (from 1), of the given size.
    ByNumber { number: usize, size: usize },
    /// The page starting at the given item, of the given size.
    ByKeyset { start: usize, size: usize },
}

impl Page {
    /// The first item of the page and the item after its last.
    pub open spec fn spec_range(self) -> (int, int) {
        match self {
            Page::ByNumber { number, size } => (size * (number - 1), size * (number - 1) + size),
            Page::ByKeyset { start, size } => (start as int, start + size),
        }
    }

    /// The items of the page, as a range of positions.
    pub fn range(self) -> (r: (usize, usize))
        requires
            self matches Page::ByNumber { number, .. } ==> number != 0,
            self.spec_range().1 <= usize::MAX,
        ensures
            r.0 == self.spec_range().0,
            r.1 == self.spec_range().1,
    {
        match self {
            Page::ByNumber { number, size } => {
                assert(size * (number - 1) <= size * (number - 1) + size);
                let start = size * (number - 1);
                (start, start + size)
            },
            Page::ByKeyset { start, size } => (start, start + size),
        }
    }
}

/// The pagination that a request asks for, as the paged test client reads
/// its query parameters.
#[derive(Debug, Clone, Copy, PartialEq, Eq, Structural)]
pub struct PageQuery {
    /// Whether keyset pagination is asked for.
    pub pagination: bool,
    /// The first item of a keyset page.
    pub keyset: Option<usize>,
    /// The number of the page.
    pub page: Option<usize>,
    /// The size of a page.
    pub per_page: usize,
}

/// The pagination before any parameter is read.
pub open spec fn initial_page_query() -> PageQuery {
    PageQuery { pagination: false, keyset: None, page: None, per_page: DEFAULT_PAGE_SIZE }
}

/// Reads one query parameter; `None` when its value cannot be read.
pub open spec fn read_page_param(q: PageQuery, p: ParamView) -> Option<PageQuery> {
    if p.0 == "pagination"@ {
        if p.1 == "keyset"@ {
            Some(PageQuery { pagination: true, ..q })
        } else {
            None
        }
    } else if p.0 == "__test_keyset"@ {
        match spec_parse_usize(p.1) {
            Some(v) => Some(PageQuery { keyset: Some(v), ..q }),
            None => None,
        }
    } else if p.0 == "page"@ {
        match spec_parse_usize(p.1) {
            Some(v) => Some(PageQuery { page: Some(v), ..q }),
            None => None,
        }
    } else if p.0 == "per_page"@ {
        match spec_parse_usize(p.1) {
            Some(v) => Some(PageQuery { per_page: v, ..q }),
            None => None,
        }
    } else {
        Some(q)
    }
}

/// Reads the query parameters in order; later ones override earlier ones.
pub open spec fn read_page_query(ps: Seq<ParamView>) -> Option<PageQuery>
    decreases ps.len(),
{
    if ps.len() == 0 {
        Some(initial_page_query())
    } else {
        match read_page_query(ps.drop_last()) {
            Some(q) => read_page_param(q, ps.last()),
            None => None,
        }
    }
}

/// The page that the pagination asks for.
pub open spec fn page_of(q: PageQuery) -> Page {
    if q.pagination {
        Page::ByKeyset {
            start: match q.keyset {
                Some(k) => k,
                None => 0,
            },
            size: q.per_page,
        }
    } else {
        Page::ByNumber {
            number: match q.page {
                Some(n) => n,
                None => 1,
            },
            size: q.per_page,
        }
    }
}

/// The positions of the items answered for a page, when the page can be
/// answered: the range of the page cut at the end of the data.
pub open spec fn page_items(page: Page, len: int) -> Option<(int, int)> {
    let (start, end) = page.spec_range();
    let end = if end < len {
        end
    } else {
        len
    };
    if (page matches Page::ByNumber { number, .. } && number == 0) || page.spec_range().1
        > usize::MAX || start > end {
        None
    } else {
        Some((start, end))
    }
}

/// A JSON array of the given JSON texts.
pub open spec fn json_array(items: Seq<Seq<u8>>) -> Seq<u8>
    decreases items.len(),
{
    if items.len() == 0 {
        seq![0x5bu8, 0x5du8]
    } else if items.len() == 1 {
        seq![0x5bu8] + items[0] + seq![0x5du8]
    } else {
        json_array(items.drop_last()).drop_last() + seq![0x2cu8] + items.last() + seq![0x5du8]
    }
}

/// The parameters without the keyset parameter.
pub open spec fn without_keyset(ps: Seq<ParamView>) -> Seq<ParamView>
    decreases ps.len(),
{
    if ps.len() == 0 {
        ps
    } else if ps.last().0 == "__test_keyset"@ {
        without_keyset(ps.drop_last())
    } else {
        without_keyset(ps.drop_last()).push(ps.last())
    }
}

/// The parameters of a request with the keyset parameter replaced.
pub open spec fn next_page_params(ps: Seq<ParamView>, next: int) -> Seq<ParamView> {
    without_keyset(ps).push(
        ("__test_keyset"@, ascii_chars(decimal(next as nat))),
    )
}

/// The `Link` header that points at the next keyset page.
pub open spec fn next_link(endpoint: Seq<char>, ps: Seq<ParamView>, next: int) -> Seq<char> {
    "<"@ + CLIENT_STUB@ + "/"@ + endpoint + "?"@ + ascii_chars(form_body(next_page_params(ps, next)))
        + ">; rel=\"next\""@
}

/// A client which answers the expected request with a page of its items.
pub struct PagedTestClient {
    /// The request expected.
    pub expected: ExpectedUrl,
    /// The items, each as JSON text.
    pub data: Vec<String>,
}

impl PagedTestClient {
    /// A client which answers with pages of the given JSON items.
    pub fn new_raw(expected: ExpectedUrl, data: Vec<String>) -> (r: Self)
        ensures
            r.expected == expected,
            r.data == data,
    {
        PagedTestClient { expected, data }
    }

    /// The bytes of the items of the data.
    pub open spec fn item_bytes(&self) -> Seq<Seq<u8>> {
        self.data@.map_values(|s: String| vstd::utf8::encode_utf8(s@))
    }

    /// How the client answers a request that is the expected one.
    pub open spec fn page_answer(&self, request: RestRequest, rsp: RestResponse) -> bool {
        match read_page_query(request.query@) {
            None => false,
            Some(q) => match page_items(page_of(q), self.data@.len() as int) {
                None => false,
                Some((start, end)) => {
                    &&& request.method == Method::Get
                    &&& rsp.status == self.expected.status
                    &&& rsp.body@ == json_array(self.item_bytes().subrange(start, end))
                    &&& if q.pagination && end + 1 < self.data@.len() {
                        &&& rsp.headers@.len() == 1
                        &&& rsp.headers@[0].0@ == "Link"@
                        &&& rsp.headers@[0].1@ == next_link(
                            request.endpoint@,
                            request.query@,
                            end,
                        )
                    } else {
                        rsp.headers@.len() == 0
                    }
                },
            },
        }
    }

    /// Whether the pagination of a request can be answered.
    pub open spec fn can_answer(&self, request: RestRequest) -> bool {
        &&& request.method == Method::Get
        &&& read_page_query(request.query@) matches Some(q)
        &&& page_items(page_of(q), self.data@.len() as int) is Some
    }
}

impl Client for PagedTestClient {
    type Error = TestClientError;

    open spec fn answers(&self, request: RestRequest, response: Result<RestResponse, ApiError<TestClientError>>) -> bool {
        match spec_check(self.expected, request) {
            Err(e) => response == Err::<RestResponse, ApiError<TestClientError>>(
                ApiError::Client { source: e },
            ),
            Ok(()) => if self.can_answer(request) {
                response matches Ok(rsp) && self.page_answer(request, rsp)
            } else {
                response == Err::<RestResponse, ApiError<TestClientError>>(
                    ApiError::Client { source: TestClientError::Pagination },
                )
            },
        }
    }

    fn rest(&self, request: RestRequest) -> (r: Result<RestResponse, ApiError<TestClientError>>) {
        match self.expected.check(&request) {
            Err(e) => return Err(ApiError::Client { source: e }),
            Ok(()) => {},
        }
        let q = match read_page_query_exec(&request.query) {
            Some(q) => q,
            None => return Err(ApiError::Client { source: TestClientError::Pagination }),
        };
        let page = if q.pagination {
            Page::ByKeyset {
                start: match q.keyset {
                    Some(k) => k,
                    None => 0,
                },
                size: q.per_page,
            }
        } else {
            Page::ByNumber {
                number: match q.page {
                    Some(n) => n,
                    None => 1,
                },
                size: q.per_page,
            }
        };
        let (start, end) = match page_items_exec(page, self.data.len()) {
            Some(r) => r,
            None => return Err(ApiError::Client { source: TestClientError::Pagination }),
        };
        if request.method != Method::Get {
            return Err(ApiError::Client { source: TestClientError::Pagination });
        }
        let body = json_array_exec(&self.data, start, end);
        let mut headers: Vec<(String, String)> = Vec::new();
        if q.pagination && self.data.len() > 0 && end < self.data.len() - 1 {
            let link = next_link_exec(&request.endpoint, &request.query, end);
            headers.push((String::from_str("Link"), link));
        }
        proof {
            assert(self.page_answer(request, RestResponse { status: self.expected.status, headers, body }));
        }
        Ok(RestResponse { status: self.expected.status, headers, body })
    }
}

/// Reads the pagination of the query parameters.
fn read_page_query_exec(ps: &Params) -> (r: Option<PageQuery>)
    ensures
        r == read_page_query(ps@),
{
    let mut q = PageQuery { pagination: false, keyset: None, page: None, per_page: DEFAULT_PAGE_SIZE };
    let mut i: usize = 0;
    while i < ps.len()
        invariant
            i <= ps@.len(),
            read_page_query(ps@.take(i as int)) == Some(q),
        decreases ps@.len() - i,
    {
        proof {
            assert(ps@.take(i + 1).drop_last() =~= ps@.take(i as int));
        }
        let key = ps.key(i).as_str();
        let value = ps.value(i).as_str();
        if str_eq(key, "pagination") {
            if str_eq(value, "keyset") {
                q.pagination = true;
            } else {
                proof {
                    lemma_page_query_fails(ps@, i as int);
                }
                return None;
            }
        } else if str_eq(key, "__test_keyset") || str_eq(key, "page") || str_eq(key, "per_page") {
            match parse_usize(value) {
                Some(v) => {
                    if str_eq(key, "__test_keyset") {
                        q.keyset = Some(v);
                    } else if str_eq(key, "page") {
                        q.page = Some(v);
                    } else {
                        q.per_page = v;
                    }
                },
                None => {
                    proof {
                        lemma_page_query_fails(ps@, i as int);
                    }
                    return None;
                },
            }
        }
        i = i + 1;
    }
    proof {
        assert(ps@.take(ps@.len() as int) =~= ps@);
    }
    Some(q)
}

/// Once a parameter cannot be read, the pagination cannot be read.
proof fn lemma_page_query_fails(ps: Seq<ParamView>, i: int)
    requires
        0 <= i < ps.len(),
        read_page_query(ps.take(i + 1)) is None,
    ensures
        read_page_query(ps) is None,
    decreases ps.len() - i,
{
    if i + 1 < ps.len() {
        assert(ps.take(i + 2).drop_last() =~= ps.take(i + 1));
        lemma_page_query_fails(ps, i + 1);
    } else {
        assert(ps.take(i + 1) =~= ps);
    }
}

/// The positions of the items answered for a page.
fn page_items_exec(page: Page, len: usize) -> (r: Option<(usize, usize)>)
    ensures
        match page_items(page, len as int) {
            Some((start, end)) => r matches Some(x) && x.0 == start && x.1 == end,
            None => r is None,
        },
{
    let (number_ok, size, first) = match page {
        Page::ByNumber { number, size } => (number != 0, size, if number == 0 {
            0
        } else {
            number - 1
        }),
        Page::ByKeyset { start, size } => (true, size, start),
    };
    if !number_ok {
        return None;
    }
    let start = match page {
        Page::ByNumber { .. } => match size.checked_mul(first) {
            Some(s) => s,
            None => {
                proof {
                    assert(size * first > usize::MAX);
                    assert(size * first <= size * first + size);
                }
                return None;
            },
        },
        Page::ByKeyset { start, .. } => start,
    };
    assert(start == page.spec_range().0);
    let end = match start.checked_add(size) {
        Some(e) => e,
        None => return None,
    };
    let end = if end < len {
        end
    } else {
        len
    };
    if start > end {
        return None;
    }
    Some((start, end))
}

/// The JSON array of the items from `start` up to `end`.
fn json_array_exec(data: &Vec<String>, start: usize, end: usize) -> (r: Vec<u8>)
    requires
        start <= end <= data@.len(),
    ensures
        r@ == json_array(data@.map_values(|s: String| vstd::utf8::encode_utf8(s@)).subrange(start as int, end as int)),
{
    let ghost items = data@.map_values(|s: String| vstd::utf8::encode_utf8(s@));
    let mut out: Vec<u8> = Vec::new();
    out.push(0x5b);
    let mut i: usize = start;
    while i < end
        invariant
            start <= i <= end <= data@.len(),
            items == data@.map_values(|s: String| vstd::utf8::encode_utf8(s@)),
            out@ == json_array(items.subrange(start as int, i as int)).drop_last(),
        decreases end - i,
    {
        let ghost before = out@;
        if i > start {
            out.push(0x2c);
        }
        let bytes = data[i].as_str().as_bytes();
        let mut j: usize = 0;
        while j < bytes.len()
            invariant
                j <= bytes@.len(),
                out@ == (if i > start {
                    before + seq![0x2cu8]
                } else {
                    before
                }) + bytes@.take(j as int),
            decreases bytes@.len() - j,
        {
            out.push(bytes[j]);
            proof {
                assert(bytes@.take(j + 1) =~= bytes@.take(j as int).push(bytes@[j as int]));
            }
            j = j + 1;
        }
        proof {
            assert(bytes@.take(bytes@.len() as int) =~= bytes@);
            let s = items.subrange(start as int, i + 1);
            assert(s.drop_last() =~= items.subrange(start as int, i as int));
            assert(s.last() == bytes@);
            if i > start {
                assert(json_array(s) =~= json_array(s.drop_last()).drop_last() + seq![0x2cu8]
                    + bytes@ + seq![0x5du8]);
                assert(out@ =~= json_array(s).drop_last());
            } else {
                assert(s.len() == 1);
                assert(out@ =~= json_array(s).drop_last());
            }
        }
        i = i + 1;
    }
    out.push(0x5d);
    proof {
        let s = items.subrange(start as int, end as int);
        if s.len() == 0 {
            assert(out@ =~= json_array(s));
        } else {
            lemma_json_array_ends(s);
            assert(out@ =~= json_array(s));
        }
    }
    out
}

/// A non-empty JSON array ends with `]`.
proof fn lemma_json_array_ends(items: Seq<Seq<u8>>)
    requires
        items.len() > 0,
    ensures
        json_array(items).len() > 0,
        json_array(items).last() == 0x5du8,
        json_array(items) =~= json_array(items).drop_last().push(0x5du8),
{
}

/// The `Link` header that points at the next keyset page.
fn next_link_exec(endpoint: &String, query: &Params, next: usize) -> (r: String)
    ensures
        r@ == next_link(endpoint@, query@, next as int),
{
    let mut params = Params::new();
    let mut i: usize = 0;
    while i < query.len()
        invariant
            i <= query@.len(),
            params@ == without_keyset(query@.take(i as int)),
        decreases query@.len() - i,
    {
        proof {
            assert(query@.take(i + 1).drop_last() =~= query@.take(i as int));
        }
        let key = query.key(i).as_str();
        if !str_eq(key, "__test_keyset") {
            params.push_str(key, query.value(i).as_str());
        }
        i = i + 1;
    }
    proof {
        assert(query@.take(query@.len() as int) =~= query@);
    }
    params.push_string("__test_keyset", decimal_string(next as u64));
    let form = params.form_body();
    proof {
        lemma_form_body_ascii(params@);
    }
    let mut link = String::from_str("<");
    link.append(CLIENT_STUB);
    link.append("/");
    link.append(endpoint.as_str());
    link.append("?");
    link.append(ascii_string(form.as_slice()).as_str());
    link.append(">; rel=\"next\"");
    link
}

} // verus!
