//! Element interaction: the click script, its result decoding, and the
//! decisions of the clickability-polling loop.
//!
//! Waiting for clickability polls a predicate script at a fixed interval.
//! A poll that fails or returns an unexpected shape counts as "not yet
//! clickable" and polling continues; only the deadline ends the wait with a
//! timeout error.  The click itself fires only after one poll has observed
//! the predicate true.

use vstd::prelude::*;

use crate::error::BrowserError;
use crate::protocol::{EvaluationOutcome, ScriptValue};
use crate::text::{append_decimal, decimal, escape_quotes, escaped, joined};

verus! {

/// How long the clickability wait sleeps between polls, in milliseconds.
pub const CLICK_POLL_INTERVAL_MS: u64 = 100;

/// The clickability wait used when the caller names no timeout.
pub const DEFAULT_CLICK_TIMEOUT_MS: u64 = 5000;

/// The closing of the click script: scroll the element into view, click it,
/// and report `true`; report `false` when no element matches.
pub open spec fn click_suffix() -> Seq<char> {
    "\"); if (element) { element.scrollIntoView({ behavior: 'auto', block: 'center' }); element.click(); return true; } else { return false; } })()"@
}

/// The closing of the clickability-predicate script: `true` exactly when
/// the element exists, has a non-zero box, is not hidden away by computed
/// style, and is not disabled.
pub open spec fn clickable_suffix() -> Seq<char> {
    "\"); if (element) { const rect = element.getBoundingClientRect(); const style = window.getComputedStyle(element); const isVisible = rect.width > 0 && rect.height > 0 && style.visibility !== 'hidden' && style.display !== 'none'; const isEnabled = !element.disabled; return isVisible && isEnabled; } return false; })()"@
}

/// The script that clicks the first element matching `sel` and reports
/// whether one was found.
pub open spec fn click_script_view(sel: Seq<char>) -> Seq<char> {
    crate::extract::query_prefix() + escaped(sel) + click_suffix()
}

/// The script that evaluates the clickability predicate for `sel`.
pub open spec fn clickable_script_view(sel: Seq<char>) -> Seq<char> {
    crate::extract::query_prefix() + escaped(sel) + clickable_suffix()
}

/// Builds the click script for a selector, interpolated in escaped form
/// only.
pub fn click_script(selector: &str) -> (script: String)
    ensures
        script@ == click_script_view(selector@),
{
    let mut s = String::from_str("(() => { const element = document.querySelector(\"");
    let esc = escape_quotes(selector);
    s.append(esc.as_str());
    s.append(
        "\"); if (element) { element.scrollIntoView({ behavior: 'auto', block: 'center' }); element.click(); return true; } else { return false; } })()",
    );
    s
}

/// Builds the clickability-predicate script for a selector, interpolated in
/// escaped form only.
pub fn clickable_script(selector: &str) -> (script: String)
    ensures
        script@ == clickable_script_view(selector@),
{
    let mut s = String::from_str("(() => { const element = document.querySelector(\"");
    let esc = escape_quotes(selector);
    s.append(esc.as_str());
    s.append(
        "\"); if (element) { const rect = element.getBoundingClientRect(); const style = window.getComputedStyle(element); const isVisible = rect.width > 0 && rect.height > 0 && style.visibility !== 'hidden' && style.display !== 'none'; const isEnabled = !element.disabled; return isVisible && isEnabled; } return false; })()",
    );
    s
}

/// The message for a click whose result shape no click script produces.
pub open spec fn unexpected_click_message() -> Seq<char> {
    "Unexpected result type from click operation"@
}

/// The message for a script exception raised during a click.
pub open spec fn click_exception_message(details: Seq<char>) -> Seq<char> {
    "Script exception during click: "@ + details
}

/// The message for an empty click result.
pub open spec fn empty_click_message() -> Seq<char> {
    "Empty result from click script evaluation"@
}

/// Maps a transport failure during an interaction to an action error.
pub fn action_eval_failure(detail: &str) -> (e: BrowserError)
    ensures
        e matches BrowserError::Action(m) && m@ == crate::extract::eval_failed_message(detail@),
{
    BrowserError::Action(joined("Script evaluation failed: ", detail))
}

/// Decodes the outcome of the click script.  `true` is a successful click;
/// `false` means no element matched the selector; every other shape is
/// unexpected and an error.
pub fn decode_click(outcome: EvaluationOutcome, selector: &str) -> (r: Result<(), BrowserError>)
    ensures
        match outcome {
            EvaluationOutcome::Success(ScriptValue::Truth(b)) => if b {
                r is Ok
            } else {
                r matches Err(e) && e matches BrowserError::Action(m) && m@
                    == crate::extract::not_found_message(selector@)
            },
            EvaluationOutcome::Success(_) => r matches Err(e) && e matches BrowserError::Action(m)
                && m@ == unexpected_click_message(),
            EvaluationOutcome::Exception(d) => r matches Err(e) && e matches BrowserError::Action(
                m,
            ) && m@ == click_exception_message(d@),
            EvaluationOutcome::Empty => r matches Err(e) && e matches BrowserError::Action(m) && m@
                == empty_click_message(),
        },
{
    match outcome {
        EvaluationOutcome::Success(value) => match value {
            ScriptValue::Truth(b) => {
                if b {
                    Ok(())
                } else {
                    Err(BrowserError::Action(joined("Element not found with selector: ", selector)))
                }
            },
            _ => Err(
                BrowserError::Action(String::from_str("Unexpected result type from click operation")),
            ),
        },
        EvaluationOutcome::Exception(d) => Err(
            BrowserError::Action(joined("Script exception during click: ", d.as_str())),
        ),
        EvaluationOutcome::Empty => Err(
            BrowserError::Action(String::from_str("Empty result from click script evaluation")),
        ),
    }
}

/// Whether one poll of the clickability predicate observed the element
/// clickable.  A missing outcome (the transport failed) or any shape other
/// than the boolean `true` counts as not yet clickable.
pub open spec fn clickable_observed(obs: Option<EvaluationOutcome>) -> bool {
    match obs {
        Some(EvaluationOutcome::Success(ScriptValue::Truth(b))) => b,
        _ => false,
    }
}

/// Decides one poll of the clickability wait: the element may be clicked
/// exactly when the poll observed the predicate true.
pub fn clickable_now(obs: &Option<EvaluationOutcome>) -> (r: bool)
    ensures
        r == clickable_observed(*obs),
{
    match obs {
        Some(EvaluationOutcome::Success(ScriptValue::Truth(b))) => *b,
        _ => false,
    }
}

/// The clickability timeout to use: the caller's, or the default.
pub fn click_timeout_or_default(timeout_ms: Option<u64>) -> (t: u64)
    ensures
        t == match timeout_ms {
            Some(v) => v,
            None => DEFAULT_CLICK_TIMEOUT_MS,
        },
{
    match timeout_ms {
        Some(v) => v,
        None => DEFAULT_CLICK_TIMEOUT_MS,
    }
}

/// The message of the clickability timeout error, naming the selector and
/// the elapsed milliseconds.
pub open spec fn click_timeout_message(sel: Seq<char>, timeout_ms: u64) -> Seq<char> {
    "Element with selector '"@ + sel + "' did not become clickable within "@ + decimal(
        timeout_ms as int,
    ) + " milliseconds"@
}

/// The terminal error of a clickability wait whose deadline elapsed.
pub fn click_timeout_error(selector: &str, timeout_ms: u64) -> (e: BrowserError)
    ensures
        e matches BrowserError::Action(m) && m@ == click_timeout_message(selector@, timeout_ms),
{
    let mut m = String::from_str("Element with selector '");
    m.append(selector);
    m.append("' did not become clickable within ");
    append_decimal(&mut m, timeout_ms);
    m.append(" milliseconds");
    BrowserError::Action(m)
}

/// The clickability wait over a recorded sequence of poll outcomes: poll
/// `observations[i]` is what the predicate script reported at elapsed time
/// `i` times the poll interval (`None` when that poll failed outright).
///
/// The click is never invoked before a poll has observed the predicate
/// true: the wait ends in `Ok(i)` only when poll `i` observed the element
/// clickable, every earlier poll did not, and the deadline had not yet
/// elapsed.  When no poll before the deadline observes it, the wait ends in
/// the timeout error after the configured duration, to within one poll
/// interval.
pub fn run_click_wait(
    observations: &Vec<Option<EvaluationOutcome>>,
    selector: &str,
    timeout_ms: u64,
) -> (r: Result<usize, BrowserError>)
    requires
        observations@.len() * (CLICK_POLL_INTERVAL_MS as int) >= timeout_ms as int,
    ensures
        match r {
            Ok(i) => i < observations@.len() && (i as int) * (CLICK_POLL_INTERVAL_MS as int)
                < timeout_ms as int && clickable_observed(observations@[i as int]) && (forall|j: int|
                0 <= j < i ==> !clickable_observed(#[trigger] observations@[j])),
            Err(e) => e matches BrowserError::Action(m) && m@ == click_timeout_message(
                selector@,
                timeout_ms,
            ) && (forall|j: int|
                0 <= j && j * (CLICK_POLL_INTERVAL_MS as int) < timeout_ms as int
                    ==> !clickable_observed(#[trigger] observations@[j])),
        },
{
    let n = observations.len();
    let mut i: usize = 0;
    loop
        invariant
            n == observations@.len(),
            i <= n,
            observations@.len() * (CLICK_POLL_INTERVAL_MS as int) >= timeout_ms as int,
            forall|j: int| 0 <= j < i ==> !clickable_observed(#[trigger] observations@[j]),
        decreases observations@.len() - i,
    {
        if !((i as u128) * (CLICK_POLL_INTERVAL_MS as u128) < (timeout_ms as u128)) {
            proof {
                assert forall|j: int|
                    0 <= j && j * (CLICK_POLL_INTERVAL_MS as int) < timeout_ms as int implies
                    !clickable_observed(#[trigger] observations@[j]) by {
                    assert(j < i as int) by (nonlinear_arith)
                        requires
                            j * 100 < timeout_ms as int,
                            (i as int) * 100 >= timeout_ms as int,
                    ;
                }
            }
            return Err(click_timeout_error(selector, timeout_ms));
        }
        proof {
            assert((i as int) < observations@.len()) by (nonlinear_arith)
                requires
                    (i as int) * 100 < timeout_ms as int,
                    observations@.len() * 100 >= timeout_ms as int,
            ;
        }
        let obs = &observations[i];
        if clickable_now(obs) {
            return Ok(i);
        }
        i = i + 1;
    }
}

} // verus!
