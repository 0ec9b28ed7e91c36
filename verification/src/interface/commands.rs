//! Requests of the user interface that need no handler.

use vstd::prelude::*;
use vstd::string::StringExecFns;

verus! {

/// The greeting for `name`.
pub open spec fn greeting(name: Seq<char>) -> Seq<char> {
    "Hello, "@ + name + "! Welcome to Tauri + React!"@
}

/// Greets `name`. This never fails.
pub fn greet(name: String) -> (r: Result<String, String>)
    ensures
        r matches Ok(text) && text@ == greeting(name@),
{
    Ok(String::from_str("Hello, ").concat(name.as_str()).concat("! Welcome to Tauri + React!"))
}

} // verus!
