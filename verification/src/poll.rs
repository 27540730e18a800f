//! The poll loop orchestrator, as a state machine over plain events:
//! fetch the feed state, run the change detector, and on a genuine
//! change download, commit the new identity and apply. The driver that
//! performs the network and desktop work feeds events in and carries
//! the returned actions out; every failure inside one iteration is
//! non-fatal and ends in sleeping until the next poll.
//!
//! The current identity is written only here — on the commit step after
//! a successful download — and only ever to a value that differs from
//! the one it replaces, so review sessions reading it can tell a moved-on
//! image from the one they were opened for. On a failed download it is
//! left untouched, so the same change is retried on the next poll rather
//! than silently skipped.

use crate::detector::{identity_of, spec_identity, spec_staged_name, staged_file_name, HASH_MOD,
    NO_IMAGE};
use crate::errors::WatchError;
use crate::link::Link;
use vstd::prelude::*;
use vstd::string::*;

verus! {

/// The states of the poll loop.
#[derive(Debug, Clone, Copy, PartialEq, Eq, Structural)]
pub enum PollPhase {
    Idle,
    Fetching,
    Detecting,
    Downloading,
    Applying,
    Sleeping,
}

/// An accepted change on its way to being applied.
#[derive(Debug)]
pub struct PendingChange {
    /// The identity the change will commit.
    pub identity: i64,
    /// The asset URL being downloaded.
    pub url: String,
    /// The filename the asset is staged under.
    pub file_name: String,
    /// Who set the image, handed to the review session.
    pub setter: String,
}

/// What the loop driver observed since the last step.
#[derive(Debug)]
pub enum PollEvent {
    /// The timer fired, or an internal stage is ready to proceed.
    Tick,
    FetchSucceeded(Link),
    FetchFailed,
    DownloadSucceeded,
    DownloadFailed,
    Applied,
}

/// What the loop driver must do next.
#[derive(Debug)]
pub enum PollAction {
    /// Fetch the feed state.
    Fetch,
    /// Hand the fetched state to the detector: step again.
    Detect,
    /// Download the asset at `url` and stage it under `file_name`.
    Download { url: String, file_name: String },
    /// Set the staged image as the background and open a review session
    /// for `identity`; the new identity is already committed.
    Apply { identity: i64, file_name: String, setter: String },
    /// Skip this poll's change and sleep; carries why.
    Skip { error: WatchError },
    /// Sleep for the configured interval.
    Sleep,
    /// Leave the sleeping state: step again.
    Continue,
    /// The event did not fit the phase; nothing changed.
    Ignore,
}

/// Which events fit which phases; anything else leaves the loop
/// untouched.
pub open spec fn spec_event_fits(phase: PollPhase, event: PollEvent) -> bool {
    match event {
        PollEvent::Tick => phase is Idle || phase is Sleeping || phase is Detecting,
        PollEvent::FetchSucceeded(_) => phase is Fetching,
        PollEvent::FetchFailed => phase is Fetching,
        PollEvent::DownloadSucceeded => phase is Downloading,
        PollEvent::DownloadFailed => phase is Downloading,
        PollEvent::Applied => phase is Applying,
    }
}

/// The poll loop's state: its phase, the identity of the image whose
/// application was last committed (`NO_IMAGE` before the first), the
/// fetched snapshot awaiting detection, and the accepted change being
/// downloaded or applied.
#[derive(Debug)]
pub struct PollLoop {
    pub phase: PollPhase,
    pub current: i64,
    pub fetched: Option<Link>,
    pub pending: Option<PendingChange>,
}

impl PollLoop {
    /// Well-formedness, established by `new` and preserved by `step`:
    /// the current identity is the sentinel or a real identity; a
    /// snapshot is at hand while detecting; a pending change is at hand
    /// while downloading or applying, is consistent with its URL, and is
    /// committed — equal to the current identity — exactly from the
    /// applying phase on.
    pub open spec fn wf(&self) -> bool {
        &&& self.current == NO_IMAGE || 0 <= self.current < HASH_MOD
        &&& self.phase is Detecting ==> self.fetched is Some
        &&& (self.phase is Downloading || self.phase is Applying) ==> match self.pending {
            Some(p) => {
                &&& p.identity == spec_identity(p.url@)
                &&& p.file_name@ == spec_staged_name(p.url@)
                &&& 0 <= p.identity < HASH_MOD
                &&& (self.phase is Downloading ==> p.identity != self.current)
                &&& (self.phase is Applying ==> p.identity == self.current)
            },
            None => false,
        }
    }

    /// A fresh loop: idle, with no image seen yet.
    pub fn new() -> (r: Self)
        ensures
            r.wf(),
            r.phase is Idle,
            r.current == NO_IMAGE,
            r.fetched is None,
            r.pending is None,
    {
        PollLoop { phase: PollPhase::Idle, current: NO_IMAGE, fetched: None, pending: None }
    }

    /// Advance the loop by one observed event and say what to do next.
    ///
    /// The clauses follow the transition table: the timer starts a
    /// fetch; a fetched snapshot goes to the detector; an unchanged
    /// identity is a no-op poll — no download, no new session; a missing
    /// asset reference skips the poll; a genuine change downloads; a
    /// successful download commits the new identity and applies; a
    /// failed download leaves the current identity untouched so the same
    /// change is retried; every path ends in sleeping and the next tick.
    pub fn step(&mut self, event: PollEvent) -> (r: PollAction)
        requires
            old(self).wf(),
        ensures
            final(self).wf(),
            !spec_event_fits(old(self).phase, event) ==> *final(self) == *old(self)
                && r is Ignore,
            old(self).phase is Idle && event is Tick ==> final(self).phase is Fetching && r
                is Fetch && final(self).current == old(self).current,
            old(self).phase is Sleeping && event is Tick ==> final(self).phase is Idle && r
                is Continue && final(self).current == old(self).current,
            old(self).phase is Fetching ==> match event {
                PollEvent::FetchSucceeded(link) => final(self).phase is Detecting && final(self).fetched == Some(link) && r is Detect && final(self).current == old(self).current,
                PollEvent::FetchFailed => final(self).phase is Sleeping && r is Sleep && final(self).current == old(self).current,
                _ => true,
            },
            old(self).phase is Detecting && event is Tick ==> match old(self).fetched {
                Some(link) => match link.post_url {
                    None => final(self).phase is Sleeping && final(self).current == old(self).current && (r matches PollAction::Skip { error } && error
                        is MalformedAsset),
                    Some(url) => {
                        if spec_identity(url@) == old(self).current {
                            // the same image again: a no-op poll
                            final(self).phase is Sleeping && final(self).current == old(self).current && r is Sleep
                        } else {
                            &&& final(self).phase is Downloading
                            &&& final(self).current == old(self).current
                            &&& (r matches PollAction::Download { url: u, file_name: f } && u@
                                == url@ && f@ == spec_staged_name(url@))
                            &&& match final(self).pending {
                                Some(p) => {
                                    &&& p.identity == spec_identity(url@)
                                    &&& p.url@ == url@
                                    &&& p.setter@ == match link.set_by {
                                        Some(sb) => sb@,
                                        None => "unknown"@,
                                    }
                                },
                                None => false,
                            }
                        }
                    },
                },
                None => true,
            },
            old(self).phase is Downloading && event is DownloadSucceeded ==> match old(self).pending {
                Some(p) => final(self).phase is Applying && final(self).current == p.identity && (r
                    matches PollAction::Apply { identity, file_name, setter } && identity
                    == p.identity && file_name == p.file_name && setter == p.setter) && final(self).current != old(self).current,
                None => true,
            },
            old(self).phase is Downloading && event is DownloadFailed ==> final(self).phase
                is Sleeping && final(self).current == old(self).current && final(self).pending
                is None && r is Sleep,
            old(self).phase is Applying && event is Applied ==> final(self).phase is Sleeping
                && final(self).current == old(self).current && r is Sleep,
    {
        match event {
            PollEvent::Tick => {
                match self.phase {
                    PollPhase::Idle => {
                        self.phase = PollPhase::Fetching;
                        PollAction::Fetch
                    },
                    PollPhase::Sleeping => {
                        self.phase = PollPhase::Idle;
                        PollAction::Continue
                    },
                    PollPhase::Detecting => {
                        let (post_url, setter) = match &self.fetched {
                            Some(link) => (
                                match &link.post_url {
                                    Some(u) => Some(u.clone()),
                                    None => None,
                                },
                                match &link.set_by {
                                    Some(sb) => sb.clone(),
                                    None => String::from_str("unknown"),
                                },
                            ),
                            None => {
                                proof {
                                    assert(false);
                                }
                                (None, String::new())
                            },
                        };
                        self.fetched = None;
                        match post_url {
                            None => {
                                self.phase = PollPhase::Sleeping;
                                PollAction::Skip { error: WatchError::MalformedAsset }
                            },
                            Some(url) => {
                                let identity = identity_of(url.as_str());
                                if identity == self.current {
                                    self.phase = PollPhase::Sleeping;
                                    PollAction::Sleep
                                } else {
                                    let file_name = staged_file_name(url.as_str());
                                    self.pending = Some(
                                        PendingChange {
                                            identity,
                                            url: url.clone(),
                                            file_name: file_name.clone(),
                                            setter,
                                        },
                                    );
                                    self.phase = PollPhase::Downloading;
                                    PollAction::Download { url, file_name }
                                }
                            },
                        }
                    },
                    _ => PollAction::Ignore,
                }
            },
            PollEvent::FetchSucceeded(link) => {
                match self.phase {
                    PollPhase::Fetching => {
                        self.fetched = Some(link);
                        self.phase = PollPhase::Detecting;
                        PollAction::Detect
                    },
                    _ => PollAction::Ignore,
                }
            },
            PollEvent::FetchFailed => {
                match self.phase {
                    PollPhase::Fetching => {
                        self.phase = PollPhase::Sleeping;
                        PollAction::Sleep
                    },
                    _ => PollAction::Ignore,
                }
            },
            PollEvent::DownloadSucceeded => {
                match self.phase {
                    PollPhase::Downloading => {
                        match &self.pending {
                            Some(p) => {
                                let act = PollAction::Apply {
                                    identity: p.identity,
                                    file_name: p.file_name.clone(),
                                    setter: p.setter.clone(),
                                };
                                self.current = p.identity;
                                self.phase = PollPhase::Applying;
                                act
                            },
                            None => {
                                proof {
                                    assert(false);
                                }
                                PollAction::Ignore
                            },
                        }
                    },
                    _ => PollAction::Ignore,
                }
            },
            PollEvent::DownloadFailed => {
                match self.phase {
                    PollPhase::Downloading => {
                        self.pending = None;
                        self.phase = PollPhase::Sleeping;
                        PollAction::Sleep
                    },
                    _ => PollAction::Ignore,
                }
            },
            PollEvent::Applied => {
                match self.phase {
                    PollPhase::Applying => {
                        self.pending = None;
                        self.phase = PollPhase::Sleeping;
                        PollAction::Sleep
                    },
                    _ => PollAction::Ignore,
                }
            },
        }
    }
}

} // verus!
