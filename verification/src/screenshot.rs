//! Screenshot capture: the capture command and its failure mapping.
//!
//! The capture returns a base64-encoded image payload; this crate does not
//! decode or persist it — that is the caller's concern.

use vstd::prelude::*;

use crate::error::BrowserError;
use crate::protocol::ScreenshotCommand;
use crate::text::joined;

verus! {

/// The image format every capture asks for.
pub open spec fn screenshot_format() -> Seq<char> {
    "png"@
}

/// Builds the capture command for a browsing context: the full document,
/// as a PNG.
pub fn screenshot_command(context: String) -> (c: ScreenshotCommand)
    ensures
        c.context@ == context@,
        c.image_format@ == screenshot_format(),
{
    ScreenshotCommand { context, image_format: String::from_str("png") }
}

/// The message for a capture the transport could not carry out.
pub open spec fn screenshot_failure_message(detail: Seq<char>) -> Seq<char> {
    "Taking the screenshot failed: "@ + detail
}

/// Maps a failed capture to a screenshot error.
pub fn screenshot_failure(detail: &str) -> (e: BrowserError)
    ensures
        e matches BrowserError::Screenshot(m) && m@ == screenshot_failure_message(detail@),
{
    BrowserError::Screenshot(joined("Taking the screenshot failed: ", detail))
}

} // verus!
