//! Project repository API endpoints.

pub mod branches;
pub mod commits;
pub mod files;
pub mod tags;
pub mod tree;
