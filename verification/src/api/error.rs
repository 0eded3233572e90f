//! Errors of queries.

use vstd::prelude::*;

use crate::json::{find_member, first_member, JsonValue};

verus! {

/// Errors which may occur when querying an endpoint.
#[derive(Debug)]
pub enum ApiError<E> {
    /// The client encountered an error.
    Client {
        /// The client error.
        source: E,
    },
    /// Gitlab answered with a status other than success; the body has not
    /// been read.
    GitlabService {
        /// The status of the response.
        status: u16,
        /// The body of the response.
        data: Vec<u8>,
    },
    /// Gitlab returned an error message.
    Gitlab {
        /// The error message from Gitlab.
        msg: String,
    },
    /// Gitlab returned an error object.
    GitlabObject {
        /// The error object from Gitlab.
        obj: JsonValue,
    },
    /// Gitlab returned an error without a message.
    GitlabUnrecognized {
        /// The full object from Gitlab.
        obj: JsonValue,
    },
    /// The body of the response is not JSON.
    Json {
        /// Why the body could not be read as JSON.
        source: String,
    },
    /// The JSON body does not hold the type asked for.
    DataType {
        /// Why the value could not be read as the type.
        source: String,
        /// The name of the type.
        typename: &'static str,
    },
}

/// The member that Gitlab puts its error in: `message`, or else `error`.
pub open spec fn error_member(value: JsonValue) -> Option<JsonValue> {
    match value {
        JsonValue::Object(members) => match first_member(members@, "message"@) {
            Some(i) => Some(members@[i].1),
            None => match first_member(members@, "error"@) {
                Some(i) => Some(members@[i].1),
                None => None,
            },
        },
        _ => None,
    }
}

/// Whether `r` is the error that Gitlab's JSON error body `value` stands
/// for: its message when it has one, else its error object, else the whole
/// body.
pub open spec fn is_gitlab_error<E>(r: ApiError<E>, value: JsonValue) -> bool {
    match error_member(value) {
        Some(JsonValue::String(msg)) => r matches ApiError::Gitlab { msg: m } && m@ == msg@,
        Some(obj) => r == (ApiError::GitlabObject::<E> { obj }),
        None => r == (ApiError::GitlabUnrecognized::<E> { obj: value }),
    }
}

impl<E> ApiError<E> {
    /// Create an API error from a client error.
    pub fn client(source: E) -> (r: Self)
        ensures
            r == (ApiError::Client::<E> { source }),
    {
        ApiError::Client { source }
    }

    /// Create an API error from the JSON body of an error response: its
    /// message when it has one, else its error object, else the whole body.
    pub fn from_gitlab(value: JsonValue) -> (r: Self)
        ensures
            is_gitlab_error(r, value),
    {
        match value {
            JsonValue::Object(members) => {
                let found = match find_member(&members, "message") {
                    Some(i) => Some(i),
                    None => find_member(&members, "error"),
                };
                match found {
                    Some(i) => {
                        let mut members = members;
                        let (_, member) = members.remove(i);
                        match member {
                            JsonValue::String(msg) => ApiError::Gitlab { msg },
                            obj => ApiError::GitlabObject { obj },
                        }
                    },
                    None => ApiError::GitlabUnrecognized { obj: JsonValue::Object(members) },
                }
            },
            obj => ApiError::GitlabUnrecognized { obj },
        }
    }

    /// The status of an error that Gitlab reported without the body being
    /// read, for deciding whether to try again.
    pub fn service_status(&self) -> (r: Option<u16>)
        ensures
            match self {
                ApiError::GitlabService { status, .. } => r == Some(*status),
                _ => r is None,
            },
    {
        match self {
            ApiError::GitlabService { status, .. } => Some(*status),
            _ => None,
        }
    }
}

} // verus!
