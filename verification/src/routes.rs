//! What the request handlers compute.
pub mod users;
