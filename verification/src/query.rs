//! What a query of the older kind makes of Gitlab's answer.
//!
//! Such a query reads the whole answer as JSON, without looking at server
//! error statuses first.

use vstd::prelude::*;

use crate::gitlab::{gitlab_error_message, spec_gitlab_error_message, AnswerError};
use crate::json::JsonValue;

verus! {

/// Whether an HTTP status reports success (2xx).
pub open spec fn is_success(status: u16) -> bool {
    200 <= status <= 299
}

/// What a query for one value makes of an answer: the body must be JSON,
/// and a status other than success turns it into Gitlab's message.
pub fn single_query_answer<E>(status: u16, parsed: Result<JsonValue, E>) -> (r: Result<JsonValue, AnswerError<E>>)
    ensures
        match parsed {
            Err(e) => r == Err::<JsonValue, AnswerError<E>>(AnswerError::Json { source: e }),
            Ok(v) => if is_success(status) {
                r == Ok::<JsonValue, AnswerError<E>>(v)
            } else {
                r matches Err(AnswerError::Gitlab { msg }) && msg@ == spec_gitlab_error_message(v)
            },
        },
{
    match parsed {
        Err(e) => Err(AnswerError::Json { source: e }),
        Ok(v) => {
            if 200 <= status && status <= 299 {
                Ok(v)
            } else {
                let msg = gitlab_error_message(&v);
                Err(AnswerError::Gitlab { msg })
            }
        },
    }
}

/// What a query without a value makes of an answer: success gives nothing,
/// whatever the body; otherwise the body must be JSON and holds Gitlab's
/// message.
pub fn no_answer_query_answer<E>(status: u16, parsed: Result<JsonValue, E>) -> (r: Result<(), AnswerError<E>>)
    ensures
        is_success(status) ==> r == Ok::<(), AnswerError<E>>(()),
        !is_success(status) ==> match parsed {
            Err(e) => r == Err::<(), AnswerError<E>>(AnswerError::Json { source: e }),
            Ok(v) => r matches Err(AnswerError::Gitlab { msg }) && msg@ == spec_gitlab_error_message(v),
        },
{
    if 200 <= status && status <= 299 {
        return Ok(());
    }
    match parsed {
        Err(e) => Err(AnswerError::Json { source: e }),
        Ok(v) => {
            let msg = gitlab_error_message(&v);
            Err(AnswerError::Gitlab { msg })
        },
    }
}

} // verus!
