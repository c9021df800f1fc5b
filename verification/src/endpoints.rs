//! The decisions of each HTTP endpoint, from the outcomes of its queries to its answer.

pub mod login;
pub mod logout;
pub mod signup;
pub mod topic_get;
pub mod arguments_get;
pub mod topics;
pub mod arguments_post;
pub mod arguments_put;
pub mod arguments_delete;
pub mod topic_proposals_post;
pub mod topic_suggestion_put;
pub mod verify_email;
pub mod users_create;
pub mod account_signup;
pub mod users_login;
pub mod arguments;
