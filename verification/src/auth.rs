//! The tokens with which requests are authenticated.

use vstd::prelude::*;
use vstd::string::*;

use crate::api::client::{reads_body, reads_value, rest_request, sends, typed_outcome_is, Client, RestRequest, RestResponse};
use crate::json::JsonValue;
use crate::api::error::ApiError;
use crate::api::users::CurrentUser;
use crate::common::concat_str;

verus! {

/// Errors when preparing the header which carries a token.
#[derive(Debug)]
pub enum AuthError {
    /// The token cannot be sent as a header value.
    HeaderValue,
}

/// Whether a byte may stand in a header value: a tab, or any byte from the
/// space on except DEL.
pub open spec fn is_header_byte(b: u8) -> bool {
    b == 9 || (b >= 32 && b != 127)
}

/// Whether a text may be sent as a header value: each byte of its UTF-8
/// encoding may.
pub open spec fn is_header_value(v: Seq<char>) -> bool {
    forall|i: int|
        0 <= i < vstd::utf8::encode_utf8(v).len() ==> is_header_byte(
            #[trigger] vstd::utf8::encode_utf8(v)[i],
        )
}

/// Whether a text may be sent as a header value.
pub fn header_value_ok(v: &str) -> (r: bool)
    ensures
        r == is_header_value(v@),
{
    let bytes = v.as_bytes();
    let mut i: usize = 0;
    while i < bytes.len()
        invariant
            i <= bytes@.len(),
            bytes@ == vstd::utf8::encode_utf8(v@),
            forall|j: int| 0 <= j < i ==> is_header_byte(#[trigger] bytes@[j]),
        decreases bytes@.len() - i,
    {
        let b = bytes[i];
        if !(b == 9 || (b >= 32 && b != 127)) {
            assert(!is_header_byte(vstd::utf8::encode_utf8(v@)[i as int]));
            return false;
        }
        i = i + 1;
    }
    true
}

/// A Gitlab API token
///
/// Gitlab supports two kinds of tokens
#[derive(Debug, Clone)]
pub enum Auth {
    /// A personal access token, obtained through Gitlab user settings
    Token(String),
    /// An OAuth2 token, obtained through the OAuth2 flow
    OAuth2(String),
    /// Unauthenticated access
    Unauthenticated,
}

impl Auth {
    /// The header which carries the token: `PRIVATE-TOKEN` for a personal
    /// access token, `Authorization: Bearer` for an OAuth2 token, and none
    /// for unauthenticated access.
    pub open spec fn spec_header(&self) -> Option<(Seq<char>, Seq<char>)> {
        match self {
            Auth::Token(token) => Some(("PRIVATE-TOKEN"@, token@)),
            Auth::OAuth2(token) => Some(("Authorization"@, "Bearer "@ + token@)),
            Auth::Unauthenticated => None,
        }
    }

    /// The name and the value of the header which carries the token.
    pub fn header(&self) -> (r: Option<(&'static str, String)>)
        ensures
            match self.spec_header() {
                Some((name, value)) => r matches Some(h) && h.0@ == name && h.1@ == value,
                None => r is None,
            },
    {
        match self {
            Auth::Token(token) => Some(("PRIVATE-TOKEN", token.as_str().to_owned())),
            Auth::OAuth2(token) => Some(("Authorization", concat_str("Bearer ", token.as_str()))),
            Auth::Unauthenticated => None,
        }
    }

    /// The header to add to a request: its name and value, or none for
    /// unauthenticated access.
    ///
    /// Returns an error if the token cannot be sent as a header value.
    pub fn set_header(&self) -> (r: Result<Option<(&'static str, String)>, AuthError>)
        ensures
            match self.spec_header() {
                Some((name, value)) => if is_header_value(value) {
                    r matches Ok(Some(h)) && h.0@ == name && h.1@ == value
                } else {
                    r matches Err(AuthError::HeaderValue)
                },
                None => r matches Ok(None),
            },
    {
        match self.header() {
            Some((name, value)) => {
                if header_value_ok(value.as_str()) {
                    Ok(Some((name, value)))
                } else {
                    Err(AuthError::HeaderValue)
                }
            },
            None => Ok(None),
        }
    }

    /// Check that the token is accepted, by asking for the current user:
    /// the answer's body is read as JSON by `read_json`, and that JSON as a
    /// public user by `read_user`.
    ///
    /// There is no request that reliably tells whether unauthenticated
    /// access works, so it is not checked.
    pub fn check_connection<
        C: Client,
        F: Fn(Vec<u8>) -> Result<JsonValue, String>,
        U: Fn(JsonValue) -> Result<(), String>,
    >(&self, api: &C, read_json: F, read_user: U) -> (r: Result<(), ApiError<C::Error>>)
        requires
            forall|b: Vec<u8>| call_requires(read_json, (b,)),
            forall|v: JsonValue| call_requires(read_user, (v,)),
        ensures
            self is Unauthenticated ==> r is Ok,
            !(self is Unauthenticated) ==> exists|
                request: RestRequest,
                response: Result<RestResponse, ApiError<C::Error>>,
                parsed: Result<JsonValue, String>,
                user: Result<(), String>,
            |
                {
                    &&& sends(CurrentUser {  }, request)
                    &&& api.answers(request, response)
                    &&& reads_body(read_json, response, parsed)
                    &&& reads_value(read_user, response, parsed, user)
                    &&& typed_outcome_is(r, response, parsed, user, USER_TYPE_NAME@)
                },
    {
        match self {
            Auth::Unauthenticated => Ok(()),
            _ => {
                let request = rest_request(&CurrentUser {  });
                let ghost sent = request;
                let response = api.rest(request);
                let ghost answer = response;
                let ghost mut reading: Result<JsonValue, String> = arbitrary();
                let ghost mut typed: Result<(), String> = arbitrary();
                let r = match response {
                    Err(e) => Err(e),
                    Ok(rsp) => {
                        let status = rsp.status;
                        let parsed = read_json(rsp.body);
                        proof {
                            reading = parsed;
                        }
                        match parsed {
                            Err(m) => Err(ApiError::Json { source: m }),
                            Ok(v) => {
                                if 200 <= status && status <= 299 {
                                    let t = read_user(v);
                                    proof {
                                        typed = t;
                                    }
                                    match t {
                                        Ok(()) => Ok(()),
                                        Err(m) => Err(
                                            ApiError::DataType { source: m, typename: USER_TYPE_NAME },
                                        ),
                                    }
                                } else {
                                    Err(ApiError::from_gitlab(v))
                                }
                            },
                        }
                    },
                };
                assert(sends(CurrentUser {  }, sent) && api.answers(sent, answer) && reads_body(
                    read_json,
                    answer,
                    reading,
                ) && reads_value(read_user, answer, reading, typed) && typed_outcome_is(
                    r,
                    answer,
                    reading,
                    typed,
                    USER_TYPE_NAME@,
                ));
                r
            },
        }
    }
}

/// The name of the type that the current user is read as.
pub const USER_TYPE_NAME: &'static str = "gitlab::types::UserPublic";

} // verus!
