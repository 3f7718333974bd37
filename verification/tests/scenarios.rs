//! End-to-end walks through the verified decision logic, with the protocol
//! round trips replaced by recorded outcomes.

use bidi_browser::error::BrowserError;
use bidi_browser::extract::{decode_attribute, decode_text_extraction, inner_html_script};
use bidi_browser::input::{click_script, decode_click};
use bidi_browser::nav::{load_timeout_or_default, navigate_command, run_load_wait};
use bidi_browser::protocol::{EvaluationOutcome, Readiness, ScriptValue};
use bidi_browser::SessionManager;

fn ready(state: &str) -> Option<EvaluationOutcome> {
    Some(EvaluationOutcome::Success(ScriptValue::Text(state.to_string())))
}

#[test]
fn open_load_wait_extract_close() {
    // open: the session starts and the first context of the tree is adopted.
    let mut manager = SessionManager::new("localhost", 4444);
    manager.record_started();
    manager.adopt_first_context(vec!["ctx-7".to_string()]).unwrap();
    let ctx = manager.get_context().unwrap();

    // load("https://example.com"): a navigate command with Complete readiness.
    let nav = navigate_command(ctx.clone(), "https://example.com");
    assert_eq!(nav.url, "https://example.com");
    assert_eq!(nav.readiness, Readiness::Complete);

    // wait_for_page_load(5000): readiness reaches "complete" on the second
    // poll, well before the deadline.
    let timeout = load_timeout_or_default(Some(5000));
    let mut trace = vec![ready("loading"), ready("complete")];
    while (trace.len() as u64) * 200 < timeout {
        trace.push(None);
    }
    assert_eq!(run_load_wait(&trace, timeout).unwrap(), 1);

    // extract_inner_html("h1") returns the element's literal markup.
    let script = inner_html_script("h1");
    assert!(script.contains("document.querySelector(\"h1\")"));
    let outcome = EvaluationOutcome::Success(ScriptValue::Text("Example Domain".to_string()));
    assert_eq!(
        decode_text_extraction(outcome, "h1", "innerHTML").unwrap(),
        "Example Domain"
    );

    // extract_inner_html("div.nonexistent") is an element-not-found error.
    match decode_text_extraction(
        EvaluationOutcome::Success(ScriptValue::Null),
        "div.nonexistent",
        "innerHTML",
    ) {
        Err(BrowserError::Element(m)) => {
            assert_eq!(m, "Element not found with selector: div.nonexistent");
        }
        other => panic!("expected an element error, got {:?}", other),
    }

    // extract_attribute("a", "href") on a link without an href is None.
    let absent = decode_attribute(EvaluationOutcome::Success(ScriptValue::Null), "a");
    assert_eq!(absent.unwrap(), None);

    // close succeeds and the context stays cached.
    manager.record_closed();
    assert_eq!(manager.get_context().unwrap(), "ctx-7");
}

#[test]
fn click_and_wait_completes_after_the_click() {
    let mut manager = SessionManager::new("localhost", 4444);
    manager.record_started();
    manager.adopt_first_context(vec!["ctx-7".to_string()]).unwrap();
    let ctx = manager.get_context().unwrap();
    assert_eq!(ctx, "ctx-7");

    // The click fires and reports the element found.
    let script = click_script("a#next");
    assert!(script.contains("document.querySelector(\"a#next\")"));
    decode_click(
        EvaluationOutcome::Success(ScriptValue::Truth(true)),
        "a#next",
    )
    .unwrap();

    // The ensuing navigation completes at 600ms, within the 10s budget.
    let timeout = load_timeout_or_default(Some(10000));
    let mut trace = vec![ready("loading"), None, ready("loading"), ready("complete")];
    while (trace.len() as u64) * 200 < timeout {
        trace.push(None);
    }
    assert_eq!(run_load_wait(&trace, timeout).unwrap(), 3);
}

#[test]
fn click_and_wait_times_out_when_no_navigation_completes() {
    // The click fires, but readiness never reaches "complete": the wait is
    // the terminal navigation timeout.
    decode_click(
        EvaluationOutcome::Success(ScriptValue::Truth(true)),
        "a#next",
    )
    .unwrap();

    let timeout = load_timeout_or_default(Some(10000));
    let mut trace: Vec<Option<EvaluationOutcome>> = Vec::new();
    while (trace.len() as u64) * 200 < timeout {
        trace.push(ready("loading"));
    }
    match run_load_wait(&trace, timeout) {
        Err(BrowserError::Navigation(m)) => {
            assert_eq!(m, "Page load timeout after 10000 milliseconds");
        }
        other => panic!("expected a navigation timeout, got {:?}", other),
    }
}

#[test]
fn click_failure_short_circuits_before_the_wait() {
    // click_and_wait: a failed click is reported as the action error and
    // the load wait never begins.
    match decode_click(
        EvaluationOutcome::Success(ScriptValue::Truth(false)),
        "a#next",
    ) {
        Err(BrowserError::Action(m)) => {
            assert_eq!(m, "Element not found with selector: a#next");
        }
        other => panic!("expected an action error, got {:?}", other),
    }
}
