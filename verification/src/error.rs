//! Error taxonomy of the browser facade.
//!
//! Every fallible operation returns one of these kinds; the payload is a
//! human-readable message that includes the failure text reported by the
//! protocol transport where there is one.

use vstd::prelude::*;

verus! {

/// The error kinds a browser operation can report.
#[derive(Debug)]
pub enum BrowserError {
    SessionCreation(String),
    SessionClosing(String),
    Navigation(String),
    Action(String),
    Element(String),
    Cookie(String),
    JavaScript(String),
    LocalStorage(String),
    Screenshot(String),
    Assertion(String),
    Unknown(String),
}

/// The full text of an error: a kind prefix followed by the message.
pub open spec fn describe_spec(e: &BrowserError) -> Seq<char> {
    match e {
        BrowserError::SessionCreation(m) => "Session creation error: "@ + m@,
        BrowserError::SessionClosing(m) => "Session closing error: "@ + m@,
        BrowserError::Navigation(m) => "Navigation error: "@ + m@,
        BrowserError::Action(m) => "Action error: "@ + m@,
        BrowserError::Element(m) => "Element error: "@ + m@,
        BrowserError::Cookie(m) => "Cookie error: "@ + m@,
        BrowserError::JavaScript(m) => "JavaScript error: "@ + m@,
        BrowserError::LocalStorage(m) => "LocalStorage error: "@ + m@,
        BrowserError::Screenshot(m) => "Screenshot error: "@ + m@,
        BrowserError::Assertion(m) => "Assertion error: "@ + m@,
        BrowserError::Unknown(m) => "Unknown error: "@ + m@,
    }
}

impl BrowserError {
    /// Renders the error as text, kind prefix first.
    pub fn describe(&self) -> (r: String)
        ensures
            r@ == describe_spec(self),
    {
        match self {
            BrowserError::SessionCreation(m) => {
                String::from_str("Session creation error: ").concat(m.as_str())
            },
            BrowserError::SessionClosing(m) => {
                String::from_str("Session closing error: ").concat(m.as_str())
            },
            BrowserError::Navigation(m) => {
                String::from_str("Navigation error: ").concat(m.as_str())
            },
            BrowserError::Action(m) => String::from_str("Action error: ").concat(m.as_str()),
            BrowserError::Element(m) => String::from_str("Element error: ").concat(m.as_str()),
            BrowserError::Cookie(m) => String::from_str("Cookie error: ").concat(m.as_str()),
            BrowserError::JavaScript(m) => {
                String::from_str("JavaScript error: ").concat(m.as_str())
            },
            BrowserError::LocalStorage(m) => {
                String::from_str("LocalStorage error: ").concat(m.as_str())
            },
            BrowserError::Screenshot(m) => {
                String::from_str("Screenshot error: ").concat(m.as_str())
            },
            BrowserError::Assertion(m) => {
                String::from_str("Assertion error: ").concat(m.as_str())
            },
            BrowserError::Unknown(m) => String::from_str("Unknown error: ").concat(m.as_str()),
        }
    }
}

} // verus!
