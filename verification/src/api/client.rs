//! Sending endpoints through a client.
//!
//! A client receives the request that an endpoint describes and answers
//! with the status and the body of the response.  What a query makes of
//! that answer is stated for every answer the client may give.

use vstd::prelude::*;

use crate::api::error::{is_gitlab_error, ApiError};
use crate::json::JsonValue;
use crate::api::raw::Raw;
use crate::common::{body_matches, Endpoint, Method};
use crate::params::Params;

verus! {

/// A request as it is handed to a client.
#[derive(Debug)]
pub struct RestRequest {
    /// The HTTP method.
    pub method: Method,
    /// The path of the request below the API root.
    pub endpoint: String,
    /// The query parameters.
    pub query: Params,
    /// The content type and the bytes of the body, if there is a body.
    pub body: Option<(&'static str, Vec<u8>)>,
}

/// A response as a client hands it back.
#[derive(Debug, Clone)]
pub struct RestResponse {
    /// The HTTP status.
    pub status: u16,
    /// The headers, as names and values.
    pub headers: Vec<(String, String)>,
    /// The bytes of the body.
    pub body: Vec<u8>,
}

/// Whether an HTTP status reports success (2xx).
pub open spec fn spec_is_success(status: u16) -> bool {
    200 <= status <= 299
}

/// Whether `request` is the request that sends `endpoint`.
pub open spec fn sends<E: Endpoint>(endpoint: E, request: RestRequest) -> bool {
    &&& request.method == endpoint.spec_method()
    &&& request.endpoint@ == endpoint.spec_endpoint()
    &&& request.query@ == endpoint.spec_parameters()
    &&& body_matches(request.body, endpoint.spec_body())
}

/// A client which sends requests to a Gitlab instance.
pub trait Client {
    /// The errors which the client may encounter.
    type Error;

    /// Whether the client may answer `request` with `response`.
    spec fn answers(&self, request: RestRequest, response: Result<RestResponse, ApiError<Self::Error>>) -> bool;

    /// Send a request and get the response.
    fn rest(&self, request: RestRequest) -> (r: Result<RestResponse, ApiError<Self::Error>>)
        ensures
            self.answers(request, r),
    ;
}

/// The request which sends an endpoint.
pub fn rest_request<E: Endpoint>(endpoint: &E) -> (r: RestRequest)
    ensures
        sends(*endpoint, r),
{
    RestRequest {
        method: endpoint.method(),
        endpoint: endpoint.endpoint(),
        query: endpoint.parameters(),
        body: endpoint.body(),
    }
}

/// Whether `r` is what a query makes of an answer that is not a success,
/// given how its body reads as JSON: the error that Gitlab's JSON body stands
/// for, or, when the body is not JSON, the reading's error.
pub open spec fn is_error_answer<X, T>(r: Result<T, ApiError<X>>, parsed: Result<JsonValue, String>) -> bool {
    match parsed {
        Ok(v) => r matches Err(e) && is_gitlab_error(e, v),
        Err(m) => r matches Err(e) && e == (ApiError::Json::<X> { source: m }),
    }
}

/// What a query that ignores the data of the response makes of an answer;
/// `parsed` is how the body of the answer reads as JSON, and only counts
/// when the answer is not a success.
pub open spec fn ignore_outcome_is<X>(
    r: Result<(), ApiError<X>>,
    response: Result<RestResponse, ApiError<X>>,
    parsed: Result<JsonValue, String>,
) -> bool {
    match response {
        Err(e) => r == Err::<(), ApiError<X>>(e),
        Ok(rsp) => if spec_is_success(rsp.status) {
            r == Ok::<(), ApiError<X>>(())
        } else {
            is_error_answer(r, parsed)
        },
    }
}

/// What a query that keeps the raw data of the response makes of an answer;
/// `parsed` is how the body of the answer reads as JSON, and only counts
/// when the answer is not a success.
pub open spec fn raw_outcome_is<X>(
    r: Result<Vec<u8>, ApiError<X>>,
    response: Result<RestResponse, ApiError<X>>,
    parsed: Result<JsonValue, String>,
) -> bool {
    match response {
        Err(e) => r == Err::<Vec<u8>, ApiError<X>>(e),
        Ok(rsp) => if spec_is_success(rsp.status) {
            r == Ok::<Vec<u8>, ApiError<X>>(rsp.body)
        } else {
            is_error_answer(r, parsed)
        },
    }
}

/// The error of an answer that is not a success, from how its body reads as
/// JSON.
pub fn error_answer<X, T>(parsed: Result<JsonValue, String>) -> (r: Result<T, ApiError<X>>)
    ensures
        is_error_answer(r, parsed),
{
    match parsed {
        Ok(v) => Err(ApiError::from_gitlab(v)),
        Err(m) => Err(ApiError::Json { source: m }),
    }
}

/// Ignores the data of a successful response; the body of any other answer
/// is read as JSON (`parsed`) and gives the error.
pub fn ignore_outcome<X>(response: Result<RestResponse, ApiError<X>>, parsed: Result<JsonValue, String>) -> (r: Result<(), ApiError<X>>)
    ensures
        ignore_outcome_is(r, response, parsed),
{
    match response {
        Err(e) => Err(e),
        Ok(rsp) => if 200 <= rsp.status && rsp.status <= 299 {
            Ok(())
        } else {
            error_answer(parsed)
        },
    }
}

/// Keeps the raw data of a successful response; the body of any other
/// answer is read as JSON (`parsed`) and gives the error.
pub fn raw_outcome<X>(response: Result<RestResponse, ApiError<X>>, parsed: Result<JsonValue, String>) -> (r: Result<Vec<u8>, ApiError<X>>)
    ensures
        raw_outcome_is(r, response, parsed),
{
    match response {
        Err(e) => Err(e),
        Ok(rsp) => if 200 <= rsp.status && rsp.status <= 299 {
            Ok(rsp.body)
        } else {
            error_answer(parsed)
        },
    }
}

/// Whether `parsed` is a reading of the body of `response` by `read_json`,
/// where the body is read: only an answer that is not a success is read.
pub open spec fn reads_error_body<X, F: Fn(Vec<u8>) -> Result<JsonValue, String>>(
    read_json: F,
    response: Result<RestResponse, ApiError<X>>,
    parsed: Result<JsonValue, String>,
) -> bool {
    match response {
        Ok(rsp) => !spec_is_success(rsp.status) ==> call_ensures(read_json, (rsp.body,), parsed),
        Err(_) => true,
    }
}

/// Whether `parsed` is a reading of the body of `response` by `read_json`,
/// where the body is read: the body of every answer is read.
pub open spec fn reads_body<X, F: Fn(Vec<u8>) -> Result<JsonValue, String>>(
    read_json: F,
    response: Result<RestResponse, ApiError<X>>,
    parsed: Result<JsonValue, String>,
) -> bool {
    match response {
        Ok(rsp) => call_ensures(read_json, (rsp.body,), parsed),
        Err(_) => true,
    }
}

/// Whether `typed` is a reading by `read_value` of the JSON body of a
/// successful answer, where it is read.
pub open spec fn reads_value<X, U: Fn(JsonValue) -> Result<(), String>>(
    read_value: U,
    response: Result<RestResponse, ApiError<X>>,
    parsed: Result<JsonValue, String>,
    typed: Result<(), String>,
) -> bool {
    match (response, parsed) {
        (Ok(rsp), Ok(v)) => spec_is_success(rsp.status) ==> call_ensures(read_value, (v,), typed),
        _ => true,
    }
}

/// What a query for a value of a type makes of an answer, given how its
/// body reads as JSON (`parsed`) and how that JSON reads as the type
/// (`typed`, which only counts for a successful answer whose body is JSON):
/// a body that is not JSON fails, an answer that is not a success gives
/// Gitlab's error, and a value that is not of the type gives a data error
/// naming the type.
pub open spec fn typed_outcome_is<X>(
    r: Result<(), ApiError<X>>,
    response: Result<RestResponse, ApiError<X>>,
    parsed: Result<JsonValue, String>,
    typed: Result<(), String>,
    typename: Seq<char>,
) -> bool {
    match response {
        Err(e) => r == Err::<(), ApiError<X>>(e),
        Ok(rsp) => match parsed {
            Err(m) => r == Err::<(), ApiError<X>>(ApiError::Json { source: m }),
            Ok(v) => if !spec_is_success(rsp.status) {
                r matches Err(e) && is_gitlab_error(e, v)
            } else {
                match typed {
                    Ok(()) => r == Ok::<(), ApiError<X>>(()),
                    Err(m) => r matches Err(ApiError::DataType { source, typename: t }) && source
                        == m && t@ == typename,
                }
            },
        },
    }
}

/// A query modifier that ignores the data returned from an endpoint.
#[derive(Debug, Clone, Copy)]
pub struct Ignore<E> {
    /// The endpoint to query.
    pub endpoint: E,
}

/// Ignore the resulting data from an endpoint.
pub fn ignore<E>(endpoint: E) -> (r: Ignore<E>)
    ensures
        r.endpoint == endpoint,
{
    Ignore { endpoint }
}

impl<E: Endpoint> Ignore<E> {
    /// Send the endpoint and check that Gitlab answered with success; the
    /// body of any other answer is read as JSON by `read_json` and gives the
    /// error.
    pub fn query<C: Client, F: Fn(Vec<u8>) -> Result<JsonValue, String>>(&self, client: &C, read_json: F) -> (r: Result<(), ApiError<C::Error>>)
        requires
            forall|b: Vec<u8>| call_requires(read_json, (b,)),
        ensures
            exists|
                request: RestRequest,
                response: Result<RestResponse, ApiError<C::Error>>,
                parsed: Result<JsonValue, String>,
            |
                sends(self.endpoint, request) && client.answers(request, response)
                    && reads_error_body(read_json, response, parsed) && ignore_outcome_is(
                    r,
                    response,
                    parsed,
                ),
    {
        let request = rest_request(&self.endpoint);
        let ghost sent = request;
        let response = client.rest(request);
        let ghost answer = response;
        let ghost mut reading: Result<JsonValue, String> = arbitrary();
        let r = match response {
            Err(e) => Err(e),
            Ok(rsp) => if 200 <= rsp.status && rsp.status <= 299 {
                Ok(())
            } else {
                let parsed = read_json(rsp.body);
                proof {
                    reading = parsed;
                }
                error_answer(parsed)
            },
        };
        assert(sends(self.endpoint, sent) && client.answers(sent, answer) && reads_error_body(
            read_json,
            answer,
            reading,
        ) && ignore_outcome_is(r, answer, reading));
        r
    }
}

impl<E: Endpoint> Raw<E> {
    /// Send the endpoint and keep the raw data of a successful answer; the
    /// body of any other answer is read as JSON by `read_json` and gives the
    /// error.
    pub fn query<C: Client, F: Fn(Vec<u8>) -> Result<JsonValue, String>>(&self, client: &C, read_json: F) -> (r: Result<Vec<u8>, ApiError<C::Error>>)
        requires
            forall|b: Vec<u8>| call_requires(read_json, (b,)),
        ensures
            exists|
                request: RestRequest,
                response: Result<RestResponse, ApiError<C::Error>>,
                parsed: Result<JsonValue, String>,
            |
                sends(self.endpoint, request) && client.answers(request, response)
                    && reads_error_body(read_json, response, parsed) && raw_outcome_is(
                    r,
                    response,
                    parsed,
                ),
    {
        let request = rest_request(&self.endpoint);
        let ghost sent = request;
        let response = client.rest(request);
        let ghost answer = response;
        let ghost mut reading: Result<JsonValue, String> = arbitrary();
        let r = match response {
            Err(e) => Err(e),
            Ok(rsp) => if 200 <= rsp.status && rsp.status <= 299 {
                Ok(rsp.body)
            } else {
                let parsed = read_json(rsp.body);
                proof {
                    reading = parsed;
                }
                error_answer(parsed)
            },
        };
        assert(sends(self.endpoint, sent) && client.answers(sent, answer) && reads_error_body(
            read_json,
            answer,
            reading,
        ) && raw_outcome_is(r, answer, reading));
        r
    }
}

} // verus!
