//! Records of the database.
pub mod users;
