//! Content extraction: scripts that read a property of the first element
//! matching a CSS selector, and the decoding of their results.
//!
//! The scripts return the property value when the element exists and an
//! explicit `null` (or, for attributes, `undefined`) when it does not, so
//! the decoder can tell the cases apart.  For attributes the three-way
//! distinction is deliberate: `null` means the element exists but the
//! attribute is absent, `undefined` means the element itself is absent.

use vstd::prelude::*;

use crate::error::BrowserError;
use crate::protocol::{EvaluationOutcome, ScriptValue};
use crate::text::{escape_quotes, escaped, joined};

verus! {

/// The opening of every selector script: an arrow function that resolves
/// the first element matching the interpolated, escaped selector.
pub open spec fn query_prefix() -> Seq<char> {
    "(() => { const element = document.querySelector(\""@
}

/// The closing of the inner-HTML script.
pub open spec fn inner_html_suffix() -> Seq<char> {
    "\"); if (element) { return element.innerHTML; } else { return null; } })()"@
}

/// The closing of the inner-text script.
pub open spec fn inner_text_suffix() -> Seq<char> {
    "\"); if (element) { return element.innerText; } else { return null; } })()"@
}

/// The middle of the attribute script, between selector and attribute name.
pub open spec fn attribute_infix() -> Seq<char> {
    "\"); if (element) { return element.getAttribute(\""@
}

/// The closing of the attribute script.
pub open spec fn attribute_suffix() -> Seq<char> {
    "\"); } else { return undefined; } })()"@
}

/// The script that reads the inner HTML of the element matching `sel`, or
/// yields `null` when no element matches.
pub open spec fn inner_html_script_view(sel: Seq<char>) -> Seq<char> {
    query_prefix() + escaped(sel) + inner_html_suffix()
}

/// The script that reads the inner text of the element matching `sel`, or
/// yields `null` when no element matches.
pub open spec fn inner_text_script_view(sel: Seq<char>) -> Seq<char> {
    query_prefix() + escaped(sel) + inner_text_suffix()
}

/// The script that reads attribute `attr` of the element matching `sel`:
/// the attribute value (a string or `null`) when the element exists,
/// `undefined` when it does not.
pub open spec fn attribute_script_view(sel: Seq<char>, attr: Seq<char>) -> Seq<char> {
    query_prefix() + escaped(sel) + attribute_infix() + escaped(attr) + attribute_suffix()
}

/// Builds the inner-HTML extraction script for a selector.  The selector is
/// interpolated in escaped form only.
pub fn inner_html_script(selector: &str) -> (script: String)
    ensures
        script@ == inner_html_script_view(selector@),
{
    let mut s = String::from_str("(() => { const element = document.querySelector(\"");
    let esc = escape_quotes(selector);
    s.append(esc.as_str());
    s.append("\"); if (element) { return element.innerHTML; } else { return null; } })()");
    s
}

/// Builds the inner-text extraction script for a selector.  The selector is
/// interpolated in escaped form only.
pub fn inner_text_script(selector: &str) -> (script: String)
    ensures
        script@ == inner_text_script_view(selector@),
{
    let mut s = String::from_str("(() => { const element = document.querySelector(\"");
    let esc = escape_quotes(selector);
    s.append(esc.as_str());
    s.append("\"); if (element) { return element.innerText; } else { return null; } })()");
    s
}

/// Builds the attribute extraction script for a selector and an attribute
/// name.  Both are interpolated in escaped form only.
pub fn attribute_script(selector: &str, attribute: &str) -> (script: String)
    ensures
        script@ == attribute_script_view(selector@, attribute@),
{
    let mut s = String::from_str("(() => { const element = document.querySelector(\"");
    let esc_sel = escape_quotes(selector);
    s.append(esc_sel.as_str());
    s.append("\"); if (element) { return element.getAttribute(\"");
    let esc_attr = escape_quotes(attribute);
    s.append(esc_attr.as_str());
    s.append("\"); } else { return undefined; } })()");
    s
}

/// The message for a script that reported no matching element.
pub open spec fn not_found_message(sel: Seq<char>) -> Seq<char> {
    "Element not found with selector: "@ + sel
}

/// The message for a result shape no extraction script produces.
pub open spec fn unexpected_message(property: Seq<char>) -> Seq<char> {
    "Unexpected result type from "@ + property + " extraction"@
}

/// The message for a script exception raised during extraction.
pub open spec fn exception_message(property: Seq<char>, details: Seq<char>) -> Seq<char> {
    "Script exception during "@ + property + " extraction: "@ + details
}

/// The message for an empty evaluation result, which no extraction script
/// returns on purpose.
pub open spec fn empty_message(property: Seq<char>) -> Seq<char> {
    "Empty result from "@ + property + " extraction script"@
}

/// The message for a script evaluation the transport could not carry out.
pub open spec fn eval_failed_message(detail: Seq<char>) -> Seq<char> {
    "Script evaluation failed: "@ + detail
}

/// Maps a transport failure during extraction to an element error.
pub fn extraction_eval_failure(detail: &str) -> (e: BrowserError)
    ensures
        e matches BrowserError::Element(m) && m@ == eval_failed_message(detail@),
{
    BrowserError::Element(joined("Script evaluation failed: ", detail))
}

fn unexpected_text(property: &str) -> (m: String)
    ensures
        m@ == unexpected_message(property@),
{
    let mut m = String::from_str("Unexpected result type from ");
    m.append(property);
    m.append(" extraction");
    m
}

fn exception_text(property: &str, details: &str) -> (m: String)
    ensures
        m@ == exception_message(property@, details@),
{
    let mut m = String::from_str("Script exception during ");
    m.append(property);
    m.append(" extraction: ");
    m.append(details);
    m
}

fn empty_text(property: &str) -> (m: String)
    ensures
        m@ == empty_message(property@),
{
    let mut m = String::from_str("Empty result from ");
    m.append(property);
    m.append(" extraction script");
    m
}

/// Decodes the outcome of an inner-HTML or inner-text extraction script.
/// A string is the property value; `null` means the element was not found;
/// every other shape is unexpected and an error.  `property` names the
/// property read, for the messages.
pub fn decode_text_extraction(outcome: EvaluationOutcome, selector: &str, property: &str) -> (r:
    Result<String, BrowserError>)
    ensures
        match outcome {
            EvaluationOutcome::Success(ScriptValue::Text(s)) => r matches Ok(v) && v@ == s@,
            EvaluationOutcome::Success(ScriptValue::Null) => r matches Err(e) && e
                matches BrowserError::Element(m) && m@ == not_found_message(selector@),
            EvaluationOutcome::Success(_) => r matches Err(e) && e matches BrowserError::Element(m)
                && m@ == unexpected_message(property@),
            EvaluationOutcome::Exception(d) => r matches Err(e) && e matches BrowserError::Element(
                m,
            ) && m@ == exception_message(property@, d@),
            EvaluationOutcome::Empty => r matches Err(e) && e matches BrowserError::Element(m) && m@
                == empty_message(property@),
        },
{
    match outcome {
        EvaluationOutcome::Success(value) => match value {
            ScriptValue::Text(s) => Ok(s),
            ScriptValue::Null => Err(
                BrowserError::Element(joined("Element not found with selector: ", selector)),
            ),
            _ => Err(BrowserError::Element(unexpected_text(property))),
        },
        EvaluationOutcome::Exception(d) => Err(
            BrowserError::Element(exception_text(property, d.as_str())),
        ),
        EvaluationOutcome::Empty => Err(BrowserError::Element(empty_text(property))),
    }
}

/// Decodes the outcome of an attribute extraction script.  A string is the
/// attribute value; `null` means the element exists but the attribute is
/// absent; `undefined` means the element itself was not found.  The last
/// two are never conflated: absence of the attribute is a plain `None`,
/// absence of the element is an element error.
pub fn decode_attribute(outcome: EvaluationOutcome, selector: &str) -> (r: Result<
    Option<String>,
    BrowserError,
>)
    ensures
        match outcome {
            EvaluationOutcome::Success(ScriptValue::Text(s)) => r matches Ok(v) && v matches Some(a)
                && a@ == s@,
            EvaluationOutcome::Success(ScriptValue::Null) => r matches Ok(v) && v is None,
            EvaluationOutcome::Success(ScriptValue::Undefined) => r matches Err(e) && e
                matches BrowserError::Element(m) && m@ == not_found_message(selector@),
            EvaluationOutcome::Success(_) => r matches Err(e) && e matches BrowserError::Element(m)
                && m@ == unexpected_message("attribute"@),
            EvaluationOutcome::Exception(d) => r matches Err(e) && e matches BrowserError::Element(
                m,
            ) && m@ == exception_message("attribute"@, d@),
            EvaluationOutcome::Empty => r matches Err(e) && e matches BrowserError::Element(m) && m@
                == empty_message("attribute"@),
        },
{
    match outcome {
        EvaluationOutcome::Success(value) => match value {
            ScriptValue::Text(s) => Ok(Some(s)),
            ScriptValue::Null => Ok(None),
            ScriptValue::Undefined => Err(
                BrowserError::Element(joined("Element not found with selector: ", selector)),
            ),
            _ => Err(BrowserError::Element(unexpected_text("attribute"))),
        },
        EvaluationOutcome::Exception(d) => Err(
            BrowserError::Element(exception_text("attribute", d.as_str())),
        ),
        EvaluationOutcome::Empty => Err(BrowserError::Element(empty_text("attribute"))),
    }
}

} // verus!
