//! A library for describing requests to Gitlab instances.
//!
//! Every endpoint knows its HTTP method, the path below the API root, the
//! query parameters and the form-encoded body that it sends.  All of these
//! are computed by verified code; sending the request is left to the caller.

pub mod api;
pub mod auth;
pub mod common;
pub mod gitlab;
pub mod hooks;
pub mod json;
pub mod order;
pub mod params;
pub mod query;
pub mod test;
pub mod text;
pub mod types;
pub mod webhooks;
