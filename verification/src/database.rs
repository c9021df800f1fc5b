//! Reading what the database returns.

pub mod topic;
