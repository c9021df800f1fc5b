//! What the logic reads of a database outcome.

use vstd::prelude::*;

verus! {

/// An error that the database itself reported.
pub struct DatabaseError {
    /// The SQLSTATE code, where the database gave one.
    pub code: Option<String>,
    /// The name of the violated constraint, where there is one.
    pub constraint: Option<String>,
    /// The error is a unique-constraint violation.
    pub unique_violation: bool,
    /// The database's own message.
    pub message: String,
}

/// `d` is a violation of the unique constraint named `name`.
pub open spec fn violates_unique(d: DatabaseError, name: Seq<char>) -> bool {
    &&& d.unique_violation
    &&& d.constraint is Some
    &&& d.constraint->Some_0@ == name
}

/// The kinds of query failure that the logic tells apart.
pub enum DbErrorKind {
    /// The query expected a row and found none.
    RowNotFound,
    /// The database refused the statement.
    Database(DatabaseError),
    /// Any other failure (connection, protocol, decoding).
    Other,
}

/// A failed query: its kind and the error's display text.
pub struct DbError {
    pub kind: DbErrorKind,
    pub text: String,
}

/// The outcome of a statement that returns no rows: the number of rows it
/// affected, or the error.
pub type ExecResult = Result<u64, DbError>;

} // verus!
