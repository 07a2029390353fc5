//! Storage rules: how rows read from the database become domain values, the
//! texts of storage failures, and the plans of the startup jobs (wallet
//! migration, seed data). The SQL itself runs outside this library.

pub mod migration_wallet;
pub mod orders;
pub mod payments;
pub mod products;
pub mod seed;
pub mod users;
pub mod wallet_ledger;

use vstd::prelude::*;

use crate::domain::DomainError;
use crate::text::{concat2, concat3, string_of};

verus! {

/// Most connections the pool keeps open.
pub const POOL_MAX_SIZE: u32 = 5;

/// Fewest idle connections the pool keeps.
pub const POOL_MIN_IDLE: u32 = 1;

/// Errors of the storage layer; callers turn them into domain errors.
#[derive(Debug)]
pub enum DbError {
    /// A connection-level failure (pool init, connection acquisition).
    Connection(String),
    /// An SQL query or execution failure.
    Query(String),
    /// A migration failure.
    Migration(String),
    /// The requested entity was not found.
    NotFound(String),
}

impl DbError {
    /// The text of the error (what its `Display` form shows).
    pub open spec fn message_spec(&self) -> Seq<char> {
        match self {
            DbError::Connection(m) => "DB connection error: "@ + m@,
            DbError::Query(m) => "DB query error: "@ + m@,
            DbError::Migration(m) => "DB migration error: "@ + m@,
            DbError::NotFound(m) => "DB not found: "@ + m@,
        }
    }

    /// The text of the error.
    pub fn message(&self) -> (r: String)
        ensures
            r@ == self.message_spec(),
    {
        match self {
            DbError::Connection(m) => concat2("DB connection error: ", m.as_str()),
            DbError::Query(m) => concat2("DB query error: ", m.as_str()),
            DbError::Migration(m) => concat2("DB migration error: ", m.as_str()),
            DbError::NotFound(m) => concat2("DB not found: ", m.as_str()),
        }
    }

    /// The storage error for a failed SQL call: a query that returned no rows
    /// is a missing entity, anything else a query error with the driver's text.
    pub fn from_sql_failure(no_rows: bool, text: String) -> (r: DbError)
        ensures
            no_rows ==> (r matches DbError::NotFound(m) && m@ == "query returned no rows"@),
            !no_rows ==> (r matches DbError::Query(m) && m@ == text@),
    {
        if no_rows {
            DbError::NotFound(string_of("query returned no rows"))
        } else {
            DbError::Query(text)
        }
    }
}

/// An internal domain error whose text is `context`, `: ` and the cause.
pub fn failure(context: &str, cause: &str) -> (r: DomainError)
    ensures
        r matches DomainError::Internal(m) && m@ == context@ + ": "@ + cause@,
{
    DomainError::Internal(concat3(context, ": ", cause))
}

/// The error when an update or delete touched no row: `{what} {id} not found`.
pub fn check_rows_affected(affected: usize, what: &str, id: &str) -> (r: Result<(), DomainError>)
    ensures
        r is Ok <==> affected > 0,
        r matches Err(e) ==> (e matches DomainError::NotFound(m) && m@ == what@ + " "@ + id@ + " not found"@),
{
    if affected == 0 {
        let mut m = concat3(what, " ", id);
        m.append(" not found");
        return Err(DomainError::NotFound(m));
    }
    Ok(())
}

} // verus!
