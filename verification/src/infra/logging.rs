//! Log records that arrive from the user interface.

use vstd::prelude::*;
use crate::text::same_text;

verus! {

/// How much a log record matters.
#[derive(Clone, Copy, Debug, PartialEq, Eq, Structural)]
pub enum LogLevel {
    Trace,
    Debug,
    Info,
    Warn,
    Error,
}

/// The target under which a record is logged when it names none.
pub open spec fn default_target() -> Seq<char> {
    "frontend"@
}

/// The level that a lower-case name stands for. A name that is not a
/// level's stands for `Info`.
pub open spec fn level_named(name: Seq<char>) -> LogLevel {
    if name == "trace"@ {
        LogLevel::Trace
    } else if name == "debug"@ {
        LogLevel::Debug
    } else if name == "warn"@ {
        LogLevel::Warn
    } else if name == "error"@ {
        LogLevel::Error
    } else {
        LogLevel::Info
    }
}

/// The lower-case form of a text, as `str::to_lowercase` gives it.
pub uninterp spec fn lowercase_of(text: Seq<char>) -> Seq<char>;

/// The lower-case form of `text`: `str::to_lowercase`.
///
/// Believed of the standard library, not proved: the result depends on the
/// text alone. What it is, character by character, is Unicode's business
/// and is not stated here.
#[verifier::external_body]
fn lowercase(text: &str) -> (lower: String)
    ensures
        lower@ == lowercase_of(text@),
{
    text.to_lowercase()
}

impl LogLevel {
    /// The level that the lower-case name `name` stands for; `Info` when it
    /// is no level's name.
    pub fn from_lowercase(name: &str) -> (level: LogLevel)
        ensures
            level == level_named(name@),
    {
        if same_text(name, "trace") {
            LogLevel::Trace
        } else if same_text(name, "debug") {
            LogLevel::Debug
        } else if same_text(name, "warn") {
            LogLevel::Warn
        } else if same_text(name, "error") {
            LogLevel::Error
        } else {
            LogLevel::Info
        }
    }

    /// The level that `name` stands for, whatever its case; `Info` when it
    /// is no level's name.
    pub fn parse(name: &str) -> (level: LogLevel)
        ensures
            level == level_named(lowercase_of(name@)),
    {
        let lower = lowercase(name);
        LogLevel::from_lowercase(lower.as_str())
    }
}

/// The target under which a record is logged: the one it names, or
/// `"frontend"` when it names none.
pub fn log_target(named: Option<String>) -> (target: String)
    ensures
        target@ == (match named {
            Some(name) => name@,
            None => default_target(),
        }),
{
    match named {
        Some(name) => name,
        None => "frontend".to_owned(),
    }
}

} // verus!
