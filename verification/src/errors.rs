//! The watcher's error taxonomy. None of these ever terminates the poll
//! loop; each names how one iteration or one review session ends early.

use vstd::prelude::*;
use vstd::string::*;

verus! {

#[derive(Debug, PartialEq)]
pub enum WatchError {
    /// Transient transport failure; retried by waiting for the next poll.
    Network(String),
    /// The feed state holds no usable asset reference; this poll's
    /// change is skipped and retried on the next poll.
    MalformedAsset,
    /// The wallpaper or notification mechanism failed; logged, never
    /// aborts the loop.
    Backend(String),
    /// An action id that does not decode; the session is abandoned with
    /// a diagnostic.
    ProtocolViolation,
    /// The image changed during review; the reaction is discarded and
    /// the user notified.
    StaleReaction,
    /// No real credential is configured; the response is dropped and the
    /// user notified.
    Unauthorized,
}

impl WatchError {
    /// A short description, for logs and user-visible notifications.
    pub fn message(&self) -> (r: String)
        ensures
            match self {
                WatchError::Network(m) => r@ == "network error: "@ + m@,
                WatchError::MalformedAsset => r@ == "feed state holds no usable asset reference"@,
                WatchError::Backend(m) => r@ == "backend error: "@ + m@,
                WatchError::ProtocolViolation => r@ == "action id does not decode"@,
                WatchError::StaleReaction => r@
                    == "image is no longer current and cannot be reviewed"@,
                WatchError::Unauthorized => r@ == "no credential is configured"@,
            },
    {
        match self {
            WatchError::Network(m) => {
                let mut out = String::from_str("network error: ");
                out.append(m.as_str());
                out
            },
            WatchError::MalformedAsset => String::from_str(
                "feed state holds no usable asset reference",
            ),
            WatchError::Backend(m) => {
                let mut out = String::from_str("backend error: ");
                out.append(m.as_str());
                out
            },
            WatchError::ProtocolViolation => String::from_str("action id does not decode"),
            WatchError::StaleReaction => String::from_str(
                "image is no longer current and cannot be reviewed",
            ),
            WatchError::Unauthorized => String::from_str("no credential is configured"),
        }
    }
}

} // verus!
