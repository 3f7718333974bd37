//! Verified core of a remote-browser automation client.
//!
//! The crate holds the decision logic of a browser-driving facade: building
//! escaped scripts from CSS selectors, decoding the tagged results that come
//! back from remotely evaluated scripts, resolving the current browsing
//! context, and deciding each step of the readiness- and clickability-polling
//! loops.  The asynchronous protocol transport that carries the commands is
//! not part of this crate; a thin driver hands plain values in and out.

pub mod assertions;
pub mod error;
pub mod extract;
pub mod input;
pub mod local_storage;
pub mod nav;
pub mod protocol;
pub mod screenshot;
pub mod session;
pub mod text;

pub use error::BrowserError;
pub use session::SessionManager;
