//! Follow-up policy shared by the pool-aware create and connect-or-create
//! helpers: a successful create, and a create that failed only because the
//! database already exists, both lead to the follow-up action (building the
//! pool, connecting to the target); any other failure surfaces the underlying
//! error unchanged.

use vstd::prelude::*;
use crate::errors::CustomError;
use crate::text::str_eq;

verus! {

/// The server's SQLSTATE code for "duplicate database": a create that failed
/// with this code means the database already exists, the desired end state.
pub open spec fn spec_duplicate_db_code() -> Seq<char> {
    "42P04"@
}

/// True exactly when `code` is the duplicate-database SQLSTATE code.
pub fn is_duplicate_db_code(code: &str) -> (r: bool)
    ensures
        r == (code@ == spec_duplicate_db_code()),
{
    str_eq(code, "42P04")
}

/// What follows a create attempt: `Ok` means proceed with the follow-up
/// action, `Err` carries the underlying driver error to surface.
pub open spec fn spec_create_followup(
    outcome: Result<u64, CustomError>,
) -> Result<(), tokio_postgres::Error> {
    match outcome {
        Result::Ok(_) => Result::Ok(()),
        Result::Err(e) => if e.code@ == spec_duplicate_db_code() {
            Result::Ok(())
        } else {
            Result::Err(e.pg_error)
        },
    }
}

/// Decides the follow-up of a create attempt: proceed on success and on the
/// duplicate-database code, surface the underlying error otherwise.
pub fn create_followup(outcome: Result<u64, CustomError>) -> (r: Result<
    (),
    tokio_postgres::Error,
>)
    ensures
        r == spec_create_followup(outcome),
{
    match outcome {
        Result::Ok(_) => Result::Ok(()),
        Result::Err(e) => {
            let CustomError { message: _, code, pg_error } = e;
            if is_duplicate_db_code(code.as_str()) {
                Result::Ok(())
            } else {
                Result::Err(pg_error)
            }
        },
    }
}

/// A create that succeeded always leads to the follow-up action, so a caller
/// that created a database can immediately connect to it or build a pool on
/// it.
pub proof fn lemma_created_then_proceed(outcome: Result<u64, CustomError>)
    requires
        outcome is Ok,
    ensures
        spec_create_followup(outcome) == Result::<(), tokio_postgres::Error>::Ok(()),
{
}

/// Creating an already-existing database is idempotent: an outcome carrying
/// the duplicate-database code leads to the follow-up action exactly as a
/// fresh create does, so running the same create-backed helper twice succeeds
/// both times.
pub proof fn lemma_duplicate_database_idempotent(outcome: Result<u64, CustomError>)
    requires
        outcome matches Err(e) && e.code@ == spec_duplicate_db_code(),
    ensures
        spec_create_followup(outcome) == Result::<(), tokio_postgres::Error>::Ok(()),
{
}

/// Any failure other than duplicate-database is surfaced: the follow-up is
/// refused and the underlying driver error comes out unchanged.
pub proof fn lemma_other_failure_surfaced(outcome: Result<u64, CustomError>)
    requires
        outcome matches Err(e) && e.code@ != spec_duplicate_db_code(),
    ensures
        outcome matches Err(e) ==> spec_create_followup(outcome) == Result::<
            (),
            tokio_postgres::Error,
        >::Err(e.pg_error),
{
}

} // verus!
