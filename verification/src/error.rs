//! The error taxonomy shared by every command and query.

use vstd::prelude::*;
use vstd::string::StringExecFns;

verus! {

/// The kinds of failure a caller can be told about.
#[derive(Clone, Copy, Debug, PartialEq, Eq, Structural)]
pub enum ErrorKind {
    /// The store could not complete a read or a write.
    Database,
    /// A file or network operation failed.
    Io,
    /// The input breaks a rule of the domain.
    Domain,
    /// The identifier that was asked for does not exist.
    NotFound,
    /// The desktop shell reported a failure.
    Tauri,
    /// Anything else.
    Unknown,
}

/// A failure: its kind and a human-readable detail.
#[derive(Debug, PartialEq, Eq)]
pub enum AppError {
    Database(String),
    Io(String),
    Domain(String),
    NotFound(String),
    Tauri(String),
    Unknown(String),
}

/// What an `AppError` is, as plain values.
pub struct AppErrorView {
    pub kind: ErrorKind,
    pub detail: Seq<char>,
}

impl View for AppError {
    type V = AppErrorView;

    open spec fn view(&self) -> AppErrorView {
        match self {
            AppError::Database(d) => AppErrorView { kind: ErrorKind::Database, detail: d@ },
            AppError::Io(d) => AppErrorView { kind: ErrorKind::Io, detail: d@ },
            AppError::Domain(d) => AppErrorView { kind: ErrorKind::Domain, detail: d@ },
            AppError::NotFound(d) => AppErrorView { kind: ErrorKind::NotFound, detail: d@ },
            AppError::Tauri(d) => AppErrorView { kind: ErrorKind::Tauri, detail: d@ },
            AppError::Unknown(d) => AppErrorView { kind: ErrorKind::Unknown, detail: d@ },
        }
    }
}

/// The name under which a kind is reported to callers.
pub open spec fn kind_name(kind: ErrorKind) -> Seq<char> {
    match kind {
        ErrorKind::Database => "Database"@,
        ErrorKind::Io => "Io"@,
        ErrorKind::Domain => "Domain"@,
        ErrorKind::NotFound => "NotFound"@,
        ErrorKind::Tauri => "Tauri"@,
        ErrorKind::Unknown => "Unknown"@,
    }
}

/// The words that introduce the detail in a failure's message.
pub open spec fn message_prefix(kind: ErrorKind) -> Seq<char> {
    match kind {
        ErrorKind::Database => "Database error: "@,
        ErrorKind::Io => "IO error: "@,
        ErrorKind::Domain => "Domain rule violation: "@,
        ErrorKind::NotFound => "Not found: "@,
        ErrorKind::Tauri => "Tauri error: "@,
        ErrorKind::Unknown => "Unknown error: "@,
    }
}

/// The human-readable message of a failure: the prefix of its kind, then its detail.
pub open spec fn message_text(e: AppErrorView) -> Seq<char> {
    message_prefix(e.kind) + e.detail
}

impl ErrorKind {
    /// The name under which this kind is reported to callers.
    pub fn name(&self) -> (r: &'static str)
        ensures
            r@ == kind_name(*self),
    {
        match self {
            ErrorKind::Database => "Database",
            ErrorKind::Io => "Io",
            ErrorKind::Domain => "Domain",
            ErrorKind::NotFound => "NotFound",
            ErrorKind::Tauri => "Tauri",
            ErrorKind::Unknown => "Unknown",
        }
    }

    /// The words that introduce the detail in a message of this kind.
    pub fn prefix(&self) -> (r: &'static str)
        ensures
            r@ == message_prefix(*self),
    {
        match self {
            ErrorKind::Database => "Database error: ",
            ErrorKind::Io => "IO error: ",
            ErrorKind::Domain => "Domain rule violation: ",
            ErrorKind::NotFound => "Not found: ",
            ErrorKind::Tauri => "Tauri error: ",
            ErrorKind::Unknown => "Unknown error: ",
        }
    }
}

impl Clone for AppError {
    fn clone(&self) -> (copy: Self)
        ensures
            copy@ == self@,
    {
        match self {
            AppError::Database(d) => AppError::Database(d.clone()),
            AppError::Io(d) => AppError::Io(d.clone()),
            AppError::Domain(d) => AppError::Domain(d.clone()),
            AppError::NotFound(d) => AppError::NotFound(d.clone()),
            AppError::Tauri(d) => AppError::Tauri(d.clone()),
            AppError::Unknown(d) => AppError::Unknown(d.clone()),
        }
    }
}

impl AppError {
    /// The kind of this failure.
    pub fn kind(&self) -> (k: ErrorKind)
        ensures
            k == self@.kind,
    {
        match self {
            AppError::Database(_) => ErrorKind::Database,
            AppError::Io(_) => ErrorKind::Io,
            AppError::Domain(_) => ErrorKind::Domain,
            AppError::NotFound(_) => ErrorKind::NotFound,
            AppError::Tauri(_) => ErrorKind::Tauri,
            AppError::Unknown(_) => ErrorKind::Unknown,
        }
    }

    /// The detail that the failure carries, without the prefix of its kind.
    pub fn detail(&self) -> (d: &str)
        ensures
            d@ == self@.detail,
    {
        match self {
            AppError::Database(d) => d.as_str(),
            AppError::Io(d) => d.as_str(),
            AppError::Domain(d) => d.as_str(),
            AppError::NotFound(d) => d.as_str(),
            AppError::Tauri(d) => d.as_str(),
            AppError::Unknown(d) => d.as_str(),
        }
    }

    /// The human-readable message shown to callers.
    pub fn message(&self) -> (m: String)
        ensures
            m@ == message_text(self@),
    {
        String::from_str(self.kind().prefix()).concat(self.detail())
    }
}

} // verus!
