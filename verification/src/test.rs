//! Support for checking the requests that endpoints send.

pub mod client;
