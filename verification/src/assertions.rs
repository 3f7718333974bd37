//! Element presence assertion: the presence-check script and the decoding
//! of its boolean result.

use vstd::prelude::*;

use crate::error::BrowserError;
use crate::protocol::{EvaluationOutcome, ScriptValue};
use crate::text::{escape_quotes, escaped, joined};

verus! {

/// The opening of the presence script.
pub open spec fn presence_prefix() -> Seq<char> {
    "document.querySelector(\""@
}

/// The closing of the presence script.
pub open spec fn presence_suffix() -> Seq<char> {
    "\") !== null"@
}

/// The script that reports whether any element matches `sel`.
pub open spec fn presence_script_view(sel: Seq<char>) -> Seq<char> {
    presence_prefix() + escaped(sel) + presence_suffix()
}

/// Builds the presence-check script for a selector, interpolated in
/// escaped form only.
pub fn presence_script(selector: &str) -> (script: String)
    ensures
        script@ == presence_script_view(selector@),
{
    let mut s = String::from_str("document.querySelector(\"");
    let esc = escape_quotes(selector);
    s.append(esc.as_str());
    s.append("\") !== null");
    s
}

/// The message for a script exception raised during a presence check.
pub open spec fn assertion_exception_message(details: Seq<char>) -> Seq<char> {
    "Script exception: "@ + details
}

/// The message for an empty presence-check result.
pub open spec fn assertion_empty_message() -> Seq<char> {
    "Empty result from script evaluation"@
}

/// Maps a transport failure during a presence check to an assertion error.
pub fn assertion_eval_failure(detail: &str) -> (e: BrowserError)
    ensures
        e matches BrowserError::Assertion(m) && m@ == crate::extract::eval_failed_message(detail@),
{
    BrowserError::Assertion(joined("Script evaluation failed: ", detail))
}

/// Decodes the outcome of the presence script.  A boolean passes through;
/// any other successful shape reads as absent rather than failing; a script
/// exception or an empty result is an assertion error.
pub fn decode_presence(outcome: EvaluationOutcome) -> (r: Result<bool, BrowserError>)
    ensures
        match outcome {
            EvaluationOutcome::Success(ScriptValue::Truth(b)) => r matches Ok(v) && v == b,
            EvaluationOutcome::Success(_) => r matches Ok(v) && v == false,
            EvaluationOutcome::Exception(d) => r matches Err(e) && e
                matches BrowserError::Assertion(m) && m@ == assertion_exception_message(d@),
            EvaluationOutcome::Empty => r matches Err(e) && e matches BrowserError::Assertion(m)
                && m@ == assertion_empty_message(),
        },
{
    match outcome {
        EvaluationOutcome::Success(value) => match value {
            ScriptValue::Truth(b) => Ok(b),
            _ => Ok(false),
        },
        EvaluationOutcome::Exception(d) => Err(
            BrowserError::Assertion(joined("Script exception: ", d.as_str())),
        ),
        EvaluationOutcome::Empty => Err(
            BrowserError::Assertion(String::from_str("Empty result from script evaluation")),
        ),
    }
}

} // verus!
