//! The error normalizer: converts a raw driver error into the uniform
//! [`CustomError`] shape, with a human-readable message, a machine-checkable
//! SQLSTATE code, and the untouched underlying error.

use vstd::prelude::*;
use crate::text::{lemma_without_quotes_no_quote, strip_quotes, without_quotes};

verus! {

#[verifier::external_type_specification]
#[verifier::external_body]
pub struct ExPgError(tokio_postgres::Error);

#[verifier::external_type_specification]
#[verifier::external_body]
pub struct ExDbError(tokio_postgres::error::DbError);

#[verifier::external_type_specification]
#[verifier::external_body]
pub struct ExSqlState(tokio_postgres::error::SqlState);

/// Name for what tokio_postgres::Error::as_db_error returns: the structured
/// server error stored in the driver error, present exactly for
/// server-reported failures, absent for connection-level ones. A deterministic
/// read of the error value alone.
pub uninterp spec fn pg_db_error(e: tokio_postgres::Error) -> Option<
    tokio_postgres::error::DbError,
>;

/// Name for what tokio_postgres::error::DbError::message returns: the primary
/// human-readable message of a server error, a field of the value.
pub uninterp spec fn db_message(d: tokio_postgres::error::DbError) -> Seq<char>;

/// Name for what tokio_postgres::error::DbError::code returns: the SQLSTATE
/// classification of a server error, a field of the value.
pub uninterp spec fn db_sqlstate(d: tokio_postgres::error::DbError) -> tokio_postgres::error::SqlState;

/// Name for what tokio_postgres::error::SqlState::code returns: the SQLSTATE
/// code as a string, such as "42P04"; a function of the value alone.
pub uninterp spec fn sqlstate_code(s: tokio_postgres::error::SqlState) -> Seq<char>;

/// Relies on tokio_postgres::Error::as_db_error: a downcast of the stored
/// cause, returning the structured server error exactly when one is present.
pub assume_specification[ tokio_postgres::Error::as_db_error ](
    e: &tokio_postgres::Error,
) -> (r: Option<&tokio_postgres::error::DbError>)
    ensures
        match r {
            Option::None => pg_db_error(*e) is None,
            Option::Some(db) => pg_db_error(*e) == Option::Some(*db),
        },
;

/// Relies on tokio_postgres::error::DbError::message: reads the message field.
pub assume_specification[ tokio_postgres::error::DbError::message ](
    e: &tokio_postgres::error::DbError,
) -> (r: &str)
    ensures
        r@ == db_message(*e),
;

/// Relies on tokio_postgres::error::DbError::code: reads the code field.
pub assume_specification[ tokio_postgres::error::DbError::code ](
    e: &tokio_postgres::error::DbError,
) -> (r: &tokio_postgres::error::SqlState)
    ensures
        *r == db_sqlstate(*e),
;

/// Relies on tokio_postgres::error::SqlState::code: the code string of the
/// classification value.
pub assume_specification[ tokio_postgres::error::SqlState::code ](
    s: &tokio_postgres::error::SqlState,
) -> (r: &str)
    ensures
        r@ == sqlstate_code(*s),
;

/// The normalized message of a driver error: empty when it carries no
/// structured server error, otherwise the server message with every double
/// quote stripped.
pub open spec fn spec_error_message(e: tokio_postgres::Error) -> Seq<char> {
    match pg_db_error(e) {
        Option::None => Seq::empty(),
        Option::Some(db) => without_quotes(db_message(db)),
    }
}

/// The normalized code of a driver error: empty when it carries no structured
/// server error, otherwise the SQLSTATE code exactly as the server reported
/// it.
pub open spec fn spec_error_code(e: tokio_postgres::Error) -> Seq<char> {
    match pg_db_error(e) {
        Option::None => Seq::empty(),
        Option::Some(db) => sqlstate_code(db_sqlstate(db)),
    }
}

/// The normalized message: empty when the server gave no structured detail,
/// otherwise the server message with every double quote stripped.
pub open spec fn spec_normalized_message(message: Option<Seq<char>>) -> Seq<char> {
    match message {
        Option::None => Seq::empty(),
        Option::Some(m) => without_quotes(m),
    }
}

/// The normalized code: empty when the failure carried no SQLSTATE code,
/// otherwise the code exactly as the server reported it.
pub open spec fn spec_normalized_code(code: Option<Seq<char>>) -> Seq<char> {
    match code {
        Option::None => Seq::empty(),
        Option::Some(c) => c,
    }
}

/// A server-reported SQLSTATE code passes through normalization unchanged, so
/// composed helpers see exactly the code the server sent (a repeated drop's
/// "3D000" as much as a duplicate create's "42P04").
pub proof fn lemma_server_code_surfaced(code: Seq<char>)
    ensures
        spec_normalized_code(Some(code)) == code,
{
}

/// Normalizes the two structured parts of a failure: the server message (if
/// any) and the SQLSTATE code (if any).
pub fn normalize_parts(message: Option<&str>, code: Option<&str>) -> (r: (String, String))
    ensures
        r.0@ == spec_normalized_message(
            match message {
                Option::None => Option::None,
                Option::Some(m) => Option::Some(m@),
            },
        ),
        r.1@ == spec_normalized_code(
            match code {
                Option::None => Option::None,
                Option::Some(c) => Option::Some(c@),
            },
        ),
{
    let msg = match message {
        Option::None => String::new(),
        Option::Some(m) => strip_quotes(m),
    };
    let cd = match code {
        Option::None => String::new(),
        Option::Some(c) => c.to_owned(),
    };
    (msg, cd)
}

/// Uniform shape of a failed operation: a human-readable message, the
/// machine-checkable SQLSTATE code, and the untouched underlying error.
/// Message and code are both empty for a connection-level failure that the
/// server never answered.
#[derive(Debug)]
pub struct CustomError {
    /// Error message, stripped of double quotes; empty when the server gave
    /// no structured detail.
    pub message: String,
    /// SQLSTATE code; empty when the failure was connection-level.
    pub code: String,
    /// The original driver error, preserved so nothing is lost.
    pub pg_error: tokio_postgres::Error,
}

/// `ce` is the normalization of `e`: the underlying error is kept whole, and
/// message and code are exactly the structured parts when the server reported
/// them, and empty otherwise.
pub open spec fn spec_normalized(ce: CustomError, e: tokio_postgres::Error) -> bool {
    &&& ce.pg_error == e
    &&& ce.message@ == spec_error_message(e)
    &&& ce.code@ == spec_error_code(e)
}

impl CustomError {
    /// The normalized message never carries a double quote.
    pub open spec fn message_stripped(self) -> bool {
        forall|i: int| 0 <= i < self.message@.len() ==> self.message@[i] != '"'
    }

    /// Normalizes a raw driver error. The underlying error is kept whole;
    /// message and code are extracted from the structured server error when
    /// one is present, and empty otherwise.
    pub fn new(error: tokio_postgres::Error) -> (r: CustomError)
        ensures
            spec_normalized(r, error),
            r.message_stripped(),
    {
        let (message, code) = match error.as_db_error() {
            Option::None => normalize_parts(Option::None, Option::None),
            Option::Some(db) => {
                let m = db.message();
                let parts = normalize_parts(Option::Some(m), Option::Some(db.code().code()));
                proof {
                    lemma_without_quotes_no_quote(m@);
                }
                parts
            },
        };
        CustomError { message, code, pg_error: error }
    }
}

} // verus!
