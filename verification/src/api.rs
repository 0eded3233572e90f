//! Gitlab REST API endpoints.

pub mod client;
pub mod common;
pub mod error;
pub mod projects;
pub mod raw;
pub mod retry;
pub mod sudo;
pub mod users;

pub use self::client::{ignore, Client, Ignore, RestRequest, RestResponse};
pub use self::error::ApiError;
pub use self::raw::{raw, Raw};
pub use self::sudo::{sudo, Sudo, SudoContext};
