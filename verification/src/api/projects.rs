//! Project API endpoints.

pub mod repository;
pub mod variables;
