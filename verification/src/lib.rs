//! Watches a remote image feed, detects genuinely new images across
//! polls, and lets the user review a just-applied image through a
//! desktop notification whose delayed action is correlated back to the
//! image that was current when the notification was shown.
//!
//! The crate holds the coordination core: the change detector, the
//! poll-loop state machine and the review-session rules. Network
//! transport, configuration storage and the platform notification or
//! wallpaper mechanisms sit outside, behind the narrow interfaces
//! declared here.

pub mod config;
pub mod constants;
pub mod desktop;
pub mod detector;
pub mod errors;
pub mod gnome;
pub mod link;
pub mod poll;
pub mod response;
pub mod session;
pub mod text;
pub mod windows;
