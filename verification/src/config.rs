//! Typed configuration, read-only to the core: the feed to watch, the
//! credential, and the user's polling and staging preferences. Loading,
//! importing and the first-run wizard live outside the library.

use vstd::prelude::*;
use vstd::string::*;

verus! {

/// Base section: the feed endpoint the configuration was exported for.
#[derive(Debug, Clone)]
pub struct BaseConfig {
    pub base: Option<String>,
}

/// Feed section: which link id to watch, and the credential.
#[derive(Debug, Clone)]
pub struct FeedConfig {
    pub feed: Option<i64>,
    pub token: Option<String>,
}

#[derive(Debug, Clone, PartialEq)]
pub enum ResizeMode {
    Fit,
    Crop,
}

/// Preferences section for various user settings.
#[derive(Debug, Clone)]
pub struct Preferences {
    pub interval: Option<u64>,
    pub mode: Option<ResizeMode>,
    pub discord_presence: Option<bool>,
    pub discord_client_id: Option<String>,
    pub save_locally: Option<bool>,
    pub notifications: Option<bool>,
}

/// Top-level typed configuration.
#[derive(Debug, Clone)]
pub struct Config {
    pub base: BaseConfig,
    pub feed: FeedConfig,
    pub preferences: Preferences,
}

/// The placeholder credential shipped in example configurations; a
/// configuration holding it is treated as having no credential.
pub open spec fn spec_placeholder_token() -> Seq<char> {
    "your_token"@
}

impl Config {
    /// Seconds to wait between polls.
    pub open spec fn spec_interval(&self) -> u64 {
        match self.preferences.interval {
            Some(v) => v,
            None => 60,
        }
    }

    /// Whether downloaded images are kept under the user's pictures
    /// rather than staged in a transient directory.
    pub open spec fn spec_retain_images(&self) -> bool {
        match self.preferences.save_locally {
            Some(v) => v,
            None => false,
        }
    }

    /// The usable credential: the configured token, unless it is absent
    /// or still the placeholder.
    pub open spec fn spec_credential(&self) -> Option<Seq<char>> {
        match self.feed.token {
            Some(t) => if t@ == spec_placeholder_token() {
                None
            } else {
                Some(t@)
            },
            None => None,
        }
    }

    /// Seconds to wait between polls; 60 when the configuration does not
    /// say.
    pub fn effective_interval(&self) -> (r: u64)
        ensures
            r == self.spec_interval(),
    {
        match self.preferences.interval {
            Some(v) => v,
            None => 60,
        }
    }

    /// Whether downloaded images are retained; false when the
    /// configuration does not say.
    pub fn retain_images(&self) -> (r: bool)
        ensures
            r == self.spec_retain_images(),
    {
        match self.preferences.save_locally {
            Some(v) => v,
            None => false,
        }
    }

    /// The watched link id, when one is configured.
    pub fn feed_id(&self) -> (r: Option<i64>)
        ensures
            r == self.feed.feed,
    {
        self.feed.feed
    }

    /// The configured credential, with the placeholder treated as
    /// absent. A response may be posted only when this returns a value.
    pub fn credential(&self) -> (r: Option<String>)
        ensures
            match r {
                Some(k) => self.spec_credential() == Some(k@),
                None => self.spec_credential() is None,
            },
    {
        match &self.feed.token {
            Some(t) => {
                if *t == String::from_str("your_token") {
                    None
                } else {
                    Some(t.clone())
                }
            },
            None => None,
        }
    }
}

} // verus!
