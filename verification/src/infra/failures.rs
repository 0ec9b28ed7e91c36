//! Failures of the outside world, told in the application's own terms.

use vstd::prelude::*;
use vstd::std_specs::convert::FromSpecImpl;
use vstd::string::StringExecFns;
use crate::error::{AppError, AppErrorView, ErrorKind};

verus! {

/// `sqlx::Error`, carried through as it is: nothing of what it holds is
/// known here.
#[verifier::external_type_specification]
#[verifier::external_body]
pub struct ExSqlxError(sqlx::Error);

/// `std::io::Error`, carried through as it is: nothing of what it holds is
/// known here.
#[verifier::external_type_specification]
#[verifier::external_body]
pub struct ExIoError(std::io::Error);

/// Tells `sqlx::Error::RowNotFound`, a query that had to return a row and
/// returned none, apart from the other failures of `sqlx`. A failure of
/// `sqlx` has no model here, so nothing is claimed of the answer; what is
/// made of it is `storage_failure`'s to say.
#[verifier::external_body]
fn reports_no_row(err: &sqlx::Error) -> (no_row: bool) {
    matches!(err, sqlx::Error::RowNotFound)
}

/// The text that `sqlx` gives for one of its failures, by its `Display`.
/// Nothing is claimed of the text.
#[verifier::external_body]
fn sqlx_error_text(err: &sqlx::Error) -> (text: String) {
    err.to_string()
}

/// The text that `std::io::Error` gives for itself, by its `Display`.
/// Nothing is claimed of the text: for a failure of the operating system
/// it is the system's own wording.
#[verifier::external_body]
fn io_error_text(err: &std::io::Error) -> (text: String) {
    err.to_string()
}

/// The detail of the failure that reports a query without its row.
pub open spec fn no_row_detail() -> Seq<char> {
    "Record not found"@
}

/// The detail of the failure that reports an unknown user identifier.
pub open spec fn user_not_found_detail(id: Seq<char>) -> Seq<char> {
    "User "@ + id + " not found"@
}

/// A failure of the store in the application's terms: a missing row is
/// `NotFound`, with a fixed detail; anything else is a `Database` failure
/// with the store's own text as its detail.
pub fn storage_failure(no_row: bool, text: String) -> (e: AppError)
    ensures
        no_row ==> e@ == (AppErrorView { kind: ErrorKind::NotFound, detail: no_row_detail() }),
        !no_row ==> e == AppError::Database(text),
{
    if no_row {
        AppError::NotFound("Record not found".to_owned())
    } else {
        AppError::Database(text)
    }
}

/// The failure that reports that no user has the identifier `id`.
pub fn user_not_found(id: &str) -> (e: AppError)
    ensures
        e@ == (AppErrorView { kind: ErrorKind::NotFound, detail: user_not_found_detail(id@) }),
{
    AppError::NotFound(String::from_str("User ").concat(id).concat(" not found"))
}

/// What a deletion by identifier came to, from the number of records it
/// removed: removing none means that the identifier does not exist, which is
/// an error and not a silent success.
pub fn deletion_outcome(id: &str, rows_affected: u64) -> (r: Result<(), AppError>)
    ensures
        rows_affected != 0 ==> r is Ok,
        rows_affected == 0 ==> (r matches Err(e) && e@ == (AppErrorView {
            kind: ErrorKind::NotFound,
            detail: user_not_found_detail(id@),
        })),
{
    if rows_affected == 0 {
        Err(user_not_found(id))
    } else {
        Ok(())
    }
}

impl From<sqlx::Error> for AppError {
    /// A missing row becomes `NotFound`; every other failure of `sqlx`
    /// becomes a `Database` failure that carries its text. Which of the two
    /// a given failure is, and what its text is, `sqlx` decides: the result
    /// is `storage_failure` of its two answers.
    fn from(err: sqlx::Error) -> (e: AppError)
        ensures
            e@ == (AppErrorView { kind: ErrorKind::NotFound, detail: no_row_detail() })
                || e@.kind == ErrorKind::Database,
    {
        storage_failure(reports_no_row(&err), sqlx_error_text(&err))
    }
}

impl FromSpecImpl<sqlx::Error> for AppError {
    /// The detail of a `Database` failure is the text of the outside
    /// failure, which has no model here: the conversion is specified by the
    /// clauses on `from`, not by a value.
    open spec fn obeys_from_spec() -> bool {
        false
    }

    open spec fn from_spec(err: sqlx::Error) -> AppError {
        arbitrary()
    }
}

impl From<std::io::Error> for AppError {
    /// A failure of a file or network operation becomes an `Io` failure
    /// that carries its text.
    fn from(err: std::io::Error) -> (e: AppError)
        ensures
            e@.kind == ErrorKind::Io,
    {
        AppError::Io(io_error_text(&err))
    }
}

impl FromSpecImpl<std::io::Error> for AppError {
    /// As for `sqlx::Error`: specified by the clause on `from`.
    open spec fn obeys_from_spec() -> bool {
        false
    }

    open spec fn from_spec(err: std::io::Error) -> AppError {
        arbitrary()
    }
}

} // verus!
