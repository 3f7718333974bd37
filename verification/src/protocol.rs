//! Plain-value model of the protocol round trips the facade performs.
//!
//! The transport itself (connection, framing, command correlation) lives
//! outside this crate.  What the verified logic needs from it is captured
//! here: the commands the controllers emit, and the tagged outcome of a
//! remotely evaluated script, which every decoder consumes.

use vstd::prelude::*;

verus! {

/// A primitive value produced by a successfully evaluated script.
///
/// Scripts used by this crate return strings, booleans, `null` or
/// `undefined`; every other protocol value shape is carried as `Other` and
/// treated by each decoder as unexpected.
#[derive(Debug)]
pub enum ScriptValue {
    Text(String),
    Truth(bool),
    Null,
    Undefined,
    Other,
}

/// The tagged result of running a script in a browsing context: success with
/// a primitive value, a script exception with its rendered details, or an
/// empty result carrying no value.
#[derive(Debug)]
pub enum EvaluationOutcome {
    Success(ScriptValue),
    Exception(String),
    Empty,
}

/// A script-evaluation command: run `script` in the browsing context named
/// `context`, without awaiting promises.
#[derive(Debug)]
pub struct EvalRequest {
    pub context: String,
    pub script: String,
}

/// A function-call command: call `declaration` in the browsing context named
/// `context`, passing `arguments` as protocol string values, without
/// awaiting promises.  The arguments travel as values, not as script text,
/// so they need no escaping.
#[derive(Debug)]
pub struct FunctionCall {
    pub context: String,
    pub declaration: String,
    pub arguments: Vec<String>,
}

/// The document readiness a navigation command is asked to reach before it
/// reports completion.
#[derive(Debug, PartialEq, Eq, Structural)]
pub enum Readiness {
    NoWait,
    Interactive,
    Complete,
}

/// A navigation command against a browsing context.
#[derive(Debug)]
pub struct NavigateCommand {
    pub context: String,
    pub url: String,
    pub readiness: Readiness,
}

/// A reload command against a browsing context.
#[derive(Debug)]
pub struct ReloadCommand {
    pub context: String,
    pub readiness: Readiness,
}

/// A history-traversal command: move `delta` entries through the history of
/// a browsing context.
#[derive(Debug)]
pub struct TraverseHistoryCommand {
    pub context: String,
    pub delta: i64,
}

/// A screenshot-capture command: capture the document of a browsing context
/// in the given image format.
#[derive(Debug)]
pub struct ScreenshotCommand {
    pub context: String,
    pub image_format: String,
}

} // verus!
