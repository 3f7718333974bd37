//! Key-value storage of a browsing context: the function calls that read
//! and write `localStorage`, and the decoding of the read result.
//!
//! Key and value travel as protocol string values, not as script text, so
//! neither needs escaping.

use vstd::prelude::*;

use crate::error::BrowserError;
use crate::protocol::{EvaluationOutcome, FunctionCall, ScriptValue};
use crate::text::joined;

verus! {

/// The function a storage write calls.
pub open spec fn set_declaration_view() -> Seq<char> {
    "(key, value) => localStorage.setItem(key, value)"@
}

/// The function a storage read calls.
pub open spec fn get_declaration_view() -> Seq<char> {
    "(key) => localStorage.getItem(key)"@
}

/// Builds the call that sets `key` to `value` in the context's storage.
/// Both arguments are passed as protocol values.
pub fn set_storage_call(context: String, key: &str, value: &str) -> (c: FunctionCall)
    ensures
        c.context@ == context@,
        c.declaration@ == set_declaration_view(),
        c.arguments@.len() == 2,
        c.arguments@[0]@ == key@,
        c.arguments@[1]@ == value@,
{
    let mut arguments: Vec<String> = Vec::new();
    arguments.push(String::from_str(key));
    arguments.push(String::from_str(value));
    FunctionCall {
        context,
        declaration: String::from_str("(key, value) => localStorage.setItem(key, value)"),
        arguments,
    }
}

/// Builds the call that reads `key` from the context's storage.
pub fn get_storage_call(context: String, key: &str) -> (c: FunctionCall)
    ensures
        c.context@ == context@,
        c.declaration@ == get_declaration_view(),
        c.arguments@.len() == 1,
        c.arguments@[0]@ == key@,
{
    let mut arguments: Vec<String> = Vec::new();
    arguments.push(String::from_str(key));
    FunctionCall {
        context,
        declaration: String::from_str("(key) => localStorage.getItem(key)"),
        arguments,
    }
}

/// The message for a storage write the transport could not carry out.
pub open spec fn set_failure_message(detail: Seq<char>) -> Seq<char> {
    "Setting the local storage value failed: "@ + detail
}

/// The message for a storage read the transport could not carry out.
pub open spec fn get_failure_message(detail: Seq<char>) -> Seq<char> {
    "Getting the local storage value failed: "@ + detail
}

/// Maps a failed storage write to a storage error.
pub fn set_storage_failure(detail: &str) -> (e: BrowserError)
    ensures
        e matches BrowserError::LocalStorage(m) && m@ == set_failure_message(detail@),
{
    BrowserError::LocalStorage(joined("Setting the local storage value failed: ", detail))
}

/// Maps a failed storage read to a storage error.
pub fn get_storage_failure(detail: &str) -> (e: BrowserError)
    ensures
        e matches BrowserError::LocalStorage(m) && m@ == get_failure_message(detail@),
{
    BrowserError::LocalStorage(joined("Getting the local storage value failed: ", detail))
}

/// Decodes the outcome of a storage read.  A string is the stored value;
/// every other outcome — an explicit `null`, an exception, an empty result
/// — reads as no value.  A missing key and one holding an empty string are
/// not told apart beyond what the store itself reports.
pub fn decode_storage_read(outcome: EvaluationOutcome) -> (r: Option<String>)
    ensures
        match outcome {
            EvaluationOutcome::Success(ScriptValue::Text(s)) => r matches Some(v) && v@ == s@,
            _ => r is None,
        },
{
    match outcome {
        EvaluationOutcome::Success(value) => match value {
            ScriptValue::Text(s) => Some(s),
            _ => None,
        },
        _ => None,
    }
}

} // verus!
