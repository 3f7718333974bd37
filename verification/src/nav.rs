//! Navigation: the navigate, reload and history-traversal commands, and the
//! decisions of the page-load readiness wait.
//!
//! Loading waits poll `document.readyState` at a fixed interval until it
//! reports `"complete"`.  A poll that fails, or reports `"loading"` or
//! `"interactive"`, keeps the wait going; only the deadline ends it with a
//! navigation timeout error.

use vstd::prelude::*;

use crate::error::BrowserError;
use crate::protocol::{EvaluationOutcome, NavigateCommand, Readiness, ReloadCommand, ScriptValue,
    TraverseHistoryCommand};
use crate::text::{append_decimal, decimal, joined};

verus! {

/// The history delta of one step back.
pub const BACK_DELTA: i64 = -1;

/// The history delta of one step forward.
pub const FORWARD_DELTA: i64 = 1;

/// How long the load wait sleeps between readiness polls, in milliseconds.
pub const LOAD_POLL_INTERVAL_MS: u64 = 200;

/// The load wait used when the caller names no timeout.
pub const DEFAULT_LOAD_TIMEOUT_MS: u64 = 10000;

/// Builds the navigation command for a URL: the protocol is asked to reach
/// the `Complete` readiness state before reporting the navigation done.
pub fn navigate_command(context: String, url: &str) -> (c: NavigateCommand)
    ensures
        c.context@ == context@,
        c.url@ == url@,
        c.readiness == Readiness::Complete,
{
    NavigateCommand { context, url: String::from_str(url), readiness: Readiness::Complete }
}

/// Builds the reload command, with the `Complete` readiness requirement.
pub fn reload_command(context: String) -> (c: ReloadCommand)
    ensures
        c.context@ == context@,
        c.readiness == Readiness::Complete,
{
    ReloadCommand { context, readiness: Readiness::Complete }
}

/// Builds the history-traversal command for one step back.
pub fn go_back_command(context: String) -> (c: TraverseHistoryCommand)
    ensures
        c.context@ == context@,
        c.delta == BACK_DELTA,
{
    TraverseHistoryCommand { context, delta: BACK_DELTA }
}

/// Builds the history-traversal command for one step forward.
pub fn go_forward_command(context: String) -> (c: TraverseHistoryCommand)
    ensures
        c.context@ == context@,
        c.delta == FORWARD_DELTA,
{
    TraverseHistoryCommand { context, delta: FORWARD_DELTA }
}

/// Maps a failed navigate or reload command to a navigation error carrying
/// the transport's failure text.
pub fn navigation_failure(detail: &str) -> (e: BrowserError)
    ensures
        e matches BrowserError::Navigation(m) && m@ == detail@,
{
    BrowserError::Navigation(String::from_str(detail))
}

/// The message for a failed history traversal.
pub open spec fn history_failure_message(detail: Seq<char>) -> Seq<char> {
    "Navigating the history failed: "@ + detail
}

/// Maps a failed history traversal to a navigation error.
pub fn history_failure(detail: &str) -> (e: BrowserError)
    ensures
        e matches BrowserError::Navigation(m) && m@ == history_failure_message(detail@),
{
    BrowserError::Navigation(joined("Navigating the history failed: ", detail))
}

/// The script each readiness poll evaluates.
pub open spec fn ready_state_script_view() -> Seq<char> {
    "document.readyState"@
}

/// Builds the readiness-poll script.
pub fn ready_state_script() -> (s: String)
    ensures
        s@ == ready_state_script_view(),
{
    String::from_str("document.readyState")
}

/// The readiness value that ends the load wait.
pub open spec fn ready_complete() -> Seq<char> {
    "complete"@
}

/// Whether one readiness poll reported the document fully loaded.  A
/// missing outcome (the transport failed), a non-string shape, or any
/// readiness other than `"complete"` keeps the wait going.
pub open spec fn load_observed(obs: Option<EvaluationOutcome>) -> bool {
    match obs {
        Some(EvaluationOutcome::Success(ScriptValue::Text(s))) => s@ == ready_complete(),
        _ => false,
    }
}

/// Decides one poll of the load wait: the page is loaded exactly when the
/// poll reported the readiness `"complete"`.
pub fn page_load_satisfied(obs: &Option<EvaluationOutcome>) -> (r: bool)
    ensures
        r == load_observed(*obs),
{
    match obs {
        Some(EvaluationOutcome::Success(ScriptValue::Text(s))) => {
            let complete = String::from_str("complete");
            *s == complete
        },
        _ => false,
    }
}

/// The load timeout to use: the caller's, or the default.
pub fn load_timeout_or_default(timeout_ms: Option<u64>) -> (t: u64)
    ensures
        t == match timeout_ms {
            Some(v) => v,
            None => DEFAULT_LOAD_TIMEOUT_MS,
        },
{
    match timeout_ms {
        Some(v) => v,
        None => DEFAULT_LOAD_TIMEOUT_MS,
    }
}

/// The message of the load timeout error, naming the elapsed milliseconds.
pub open spec fn load_timeout_message(timeout_ms: u64) -> Seq<char> {
    "Page load timeout after "@ + decimal(timeout_ms as int) + " milliseconds"@
}

/// The terminal error of a load wait whose deadline elapsed.
pub fn load_timeout_error(timeout_ms: u64) -> (e: BrowserError)
    ensures
        e matches BrowserError::Navigation(m) && m@ == load_timeout_message(timeout_ms),
{
    let mut m = String::from_str("Page load timeout after ");
    append_decimal(&mut m, timeout_ms);
    m.append(" milliseconds");
    BrowserError::Navigation(m)
}

/// The load wait over a recorded sequence of readiness polls: poll
/// `observations[i]` is what the readiness script reported at elapsed time
/// `i` times the poll interval (`None` when that poll failed outright).
///
/// The wait succeeds at the first poll that reports `"complete"`, without
/// exhausting the timeout: `Ok(i)` says poll `i` reported it, no earlier
/// poll did, and the deadline had not yet elapsed.  When no poll before the
/// deadline reports `"complete"`, the wait ends in the timeout error after
/// the configured duration, to within one poll interval.
pub fn run_load_wait(observations: &Vec<Option<EvaluationOutcome>>, timeout_ms: u64) -> (r: Result<
    usize,
    BrowserError,
>)
    requires
        observations@.len() * (LOAD_POLL_INTERVAL_MS as int) >= timeout_ms as int,
    ensures
        match r {
            Ok(i) => i < observations@.len() && (i as int) * (LOAD_POLL_INTERVAL_MS as int)
                < timeout_ms as int && load_observed(observations@[i as int]) && (forall|j: int|
                0 <= j < i ==> !load_observed(#[trigger] observations@[j])),
            Err(e) => e matches BrowserError::Navigation(m) && m@ == load_timeout_message(
                timeout_ms,
            ) && (forall|j: int|
                0 <= j && j * (LOAD_POLL_INTERVAL_MS as int) < timeout_ms as int ==> !load_observed(
                    #[trigger] observations@[j],
                )),
        },
{
    let n = observations.len();
    let mut i: usize = 0;
    loop
        invariant
            n == observations@.len(),
            i <= n,
            observations@.len() * (LOAD_POLL_INTERVAL_MS as int) >= timeout_ms as int,
            forall|j: int| 0 <= j < i ==> !load_observed(#[trigger] observations@[j]),
        decreases observations@.len() - i,
    {
        if !((i as u128) * (LOAD_POLL_INTERVAL_MS as u128) < (timeout_ms as u128)) {
            proof {
                assert forall|j: int|
                    0 <= j && j * (LOAD_POLL_INTERVAL_MS as int) < timeout_ms as int implies
                    !load_observed(#[trigger] observations@[j]) by {
                    assert(j < i as int) by (nonlinear_arith)
                        requires
                            j * 200 < timeout_ms as int,
                            (i as int) * 200 >= timeout_ms as int,
                    ;
                }
            }
            return Err(load_timeout_error(timeout_ms));
        }
        proof {
            assert((i as int) < observations@.len()) by (nonlinear_arith)
                requires
                    (i as int) * 200 < timeout_ms as int,
                    observations@.len() * 200 >= timeout_ms as int,
            ;
        }
        let obs = &observations[i];
        if page_load_satisfied(obs) {
            return Ok(i);
        }
        i = i + 1;
    }
}

} // verus!
