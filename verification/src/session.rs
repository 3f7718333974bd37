//! Session lifecycle and browsing-context resolution.
//!
//! A `SessionManager` owns what the facade knows about its protocol session:
//! the transport address it was created for, the lifecycle stage, and the one
//! browsing context adopted when the session is opened.  Every other
//! operation resolves the context through `get_context` first and fails fast
//! when none is available.

use vstd::prelude::*;

use crate::error::BrowserError;

verus! {

/// The lifecycle stage of the underlying protocol session.
#[derive(Debug, Clone, Copy, PartialEq, Eq, Structural)]
pub enum SessionStage {
    NotStarted,
    Started,
    Closed,
}

/// The message reported when an operation runs before a context exists.
pub open spec fn no_context_message() -> Seq<char> {
    "No browsing context available"@
}

/// The message reported when the context tree comes back without any entry.
pub open spec fn empty_tree_message() -> Seq<char> {
    "The browsing context tree holds no context"@
}

/// The session state owned by the facade: transport address, lifecycle
/// stage, and the current browsing context, if one has been adopted.
pub struct SessionManager {
    host: String,
    port: u16,
    stage: SessionStage,
    browsing_context: Option<String>,
}

impl SessionManager {
    /// The host the session was created for.
    pub closed spec fn host_view(&self) -> Seq<char> {
        self.host@
    }

    /// The port the session was created for.
    pub closed spec fn port_view(&self) -> u16 {
        self.port
    }

    /// The lifecycle stage of the session.
    pub closed spec fn stage_view(&self) -> SessionStage {
        self.stage
    }

    /// The current browsing context, if one has been adopted.
    pub closed spec fn context_view(&self) -> Option<Seq<char>> {
        match self.browsing_context {
            Some(c) => Some(c@),
            None => None,
        }
    }

    /// A context is only ever adopted once the session has started.
    pub open spec fn wf(&self) -> bool {
        self.context_view() is Some ==> self.stage_view() != SessionStage::NotStarted
    }

    /// A fresh manager: nothing started, no context adopted.
    pub fn new(host: &str, port: u16) -> (s: Self)
        ensures
            s.host_view() == host@,
            s.port_view() == port,
            s.stage_view() == SessionStage::NotStarted,
            s.context_view() is None,
            s.wf(),
    {
        SessionManager {
            host: String::from_str(host),
            port,
            stage: SessionStage::NotStarted,
            browsing_context: None,
        }
    }

    /// Records that the underlying session started successfully.
    pub fn record_started(&mut self)
        ensures
            final(self).stage_view() == SessionStage::Started,
            final(self).context_view() == old(self).context_view(),
            final(self).host_view() == old(self).host_view(),
            final(self).port_view() == old(self).port_view(),
            final(self).wf(),
    {
        self.stage = SessionStage::Started;
    }

    /// Adopts the first entry of the context tree as the current browsing
    /// context.  An empty tree means no context is available: the session
    /// cannot be used, which is a session-creation failure.
    pub fn adopt_first_context(&mut self, contexts: Vec<String>) -> (r: Result<(), BrowserError>)
        requires
            old(self).stage_view() == SessionStage::Started,
        ensures
            final(self).stage_view() == old(self).stage_view(),
            final(self).host_view() == old(self).host_view(),
            final(self).port_view() == old(self).port_view(),
            final(self).wf(),
            contexts@.len() == 0 ==> (r matches Err(e) && e matches BrowserError::SessionCreation(
                m,
            ) && m@ == empty_tree_message() && final(self).context_view() == old(
                self,
            ).context_view()),
            contexts@.len() > 0 ==> r is Ok && final(self).context_view() == Some(contexts@[0]@),
    {
        if contexts.len() == 0 {
            Err(BrowserError::SessionCreation(String::from_str(
                "The browsing context tree holds no context",
            )))
        } else {
            let mut contexts = contexts;
            let first = contexts.remove(0);
            self.browsing_context = Some(first);
            Ok(())
        }
    }

    /// Records that the underlying session was closed.  The adopted context
    /// is kept as it is: the manager is not meant to be reused after this.
    pub fn record_closed(&mut self)
        ensures
            final(self).stage_view() == SessionStage::Closed,
            final(self).context_view() == old(self).context_view(),
            final(self).host_view() == old(self).host_view(),
            final(self).port_view() == old(self).port_view(),
            final(self).wf(),
    {
        self.stage = SessionStage::Closed;
    }

    /// The lifecycle stage, for callers outside the proof.
    pub fn current_stage(&self) -> (s: SessionStage)
        ensures
            s == self.stage_view(),
    {
        self.stage
    }

    /// Returns the current browsing context, or fails with a navigation
    /// error when none was ever adopted.
    pub fn get_context(&self) -> (r: Result<String, BrowserError>)
        ensures
            match self.context_view() {
                Some(v) => r matches Ok(c) && c@ == v,
                None => r matches Err(e) && e matches BrowserError::Navigation(m) && m@
                    == no_context_message(),
            },
    {
        match &self.browsing_context {
            Some(c) => Ok(c.clone()),
            None => Err(BrowserError::Navigation(String::from_str(
                "No browsing context available",
            ))),
        }
    }
}

/// The message for a session the transport could not start.
pub open spec fn start_failure_message(detail: Seq<char>) -> Seq<char> {
    "Starting the WebDriverBiDi session failed: "@ + detail
}

/// Maps a failed session start to a session-creation error.
pub fn start_failure(detail: &str) -> (e: BrowserError)
    ensures
        e matches BrowserError::SessionCreation(m) && m@ == start_failure_message(detail@),
{
    BrowserError::SessionCreation(
        crate::text::joined("Starting the WebDriverBiDi session failed: ", detail),
    )
}

/// The message for a context tree the transport could not fetch.
pub open spec fn tree_fetch_failure_message(detail: Seq<char>) -> Seq<char> {
    "The browsingContext.getTree command failed: "@ + detail
}

/// Maps a failed context-tree fetch to a session-creation error.
pub fn tree_fetch_failure(detail: &str) -> (e: BrowserError)
    ensures
        e matches BrowserError::SessionCreation(m) && m@ == tree_fetch_failure_message(detail@),
{
    BrowserError::SessionCreation(
        crate::text::joined("The browsingContext.getTree command failed: ", detail),
    )
}

/// The message for a session the transport could not close.
pub open spec fn close_failure_message(detail: Seq<char>) -> Seq<char> {
    "Closing the WebDriver BiDi session failed: "@ + detail
}

/// Maps a failed session close to a session-closing error.
pub fn close_failure(detail: &str) -> (e: BrowserError)
    ensures
        e matches BrowserError::SessionClosing(m) && m@ == close_failure_message(detail@),
{
    BrowserError::SessionClosing(
        crate::text::joined("Closing the WebDriver BiDi session failed: ", detail),
    )
}

/// Before the session has been opened no context exists, so every
/// context-resolving operation fails with a navigation error rather than
/// reaching the transport.
pub proof fn lemma_no_context_before_open(s: SessionManager)
    requires
        s.wf(),
        s.stage_view() == SessionStage::NotStarted,
    ensures
        s.context_view() is None,
{
}

} // verus!
