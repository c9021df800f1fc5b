//! Request-handling logic of the eris debate server: password and session
//! hashing, the decisions each endpoint takes on the outcome of its database
//! queries, and the JSON bodies it answers with.

pub mod response;
pub mod text;
pub mod json;
pub mod hashing_helper;
pub mod db;
pub mod session_helper;
pub mod arguments_helper;
pub mod admin_helper;
pub mod email_helper;
pub mod endpoints;
pub mod database;
pub mod laws;
