//! Review sessions: one per accepted image change, run concurrently and
//! independently of the poll loop. A session shows a notification whose
//! action ids carry the identity of the triggering image, waits for at
//! most one of action, dismissal or timeout, and — when an action
//! arrives — re-reads the current identity at the moment of processing,
//! so that a stale reaction is discarded rather than mis-attributed to
//! whatever image is current by then.

use crate::desktop::Notification;
use crate::errors::WatchError;
use crate::link::{spec_kind_canonical, spec_kind_text, ResponseType};
use crate::response::Response;
use crate::text::{
    find_char, i64_text, is_digit_char, lemma_digits_roundtrip, lemma_digits_value_nonneg,
    lemma_find_char_located, lemma_find_char_missing, lemma_nat_digits_are_digits, parse_nat_text,
    spec_i64_text, spec_nat_digits, spec_parse_nat,
};
use vstd::prelude::*;
use vstd::string::*;

verus! {

/// How long a review session waits for the user, in seconds.
pub const REVIEW_TIMEOUT_SECS: u64 = 300;

/// The wire form of a reaction action id: the kind, `-`, and the decimal
/// identity of the image the notification was shown for.
pub open spec fn spec_action_id(kind: Seq<char>, identity: int) -> Seq<char> {
    kind + "-"@ + spec_i64_text(identity)
}

/// Build one action id.
pub fn action_id(kind: &str, identity: i64) -> (r: String)
    ensures
        r@ == spec_action_id(kind@, identity as int),
{
    let mut out = kind.to_owned();
    out.append("-");
    let digits = i64_text(identity);
    out.append(digits.as_str());
    proof {
        assert(out@ =~= spec_action_id(kind@, identity as int));
    }
    out
}

/// The decoded form of an action id: defined when the id has exactly two
/// `-`-separated parts and the second is a decimal number that fits
/// `i64`; the parts are then the reaction kind and the claimed identity.
pub open spec fn spec_parse_action(s: Seq<char>) -> Option<(Seq<char>, int)> {
    let i = find_char(s, 0, set!['-']);
    if i == s.len() {
        None
    } else if find_char(s, i + 1, set!['-']) != s.len() {
        None
    } else {
        match spec_parse_nat(s.subrange(i + 1, s.len() as int)) {
            Some(v) => Some((s.subrange(0, i), v)),
            None => None,
        }
    }
}

/// Decode an action id into the reaction kind and the claimed identity.
/// Fails with `ProtocolViolation` exactly when the id does not have two
/// `-`-separated parts with a valid decimal identity.
pub fn parse_action_id(s: &str) -> (r: Result<(ResponseType, i64), WatchError>)
    ensures
        match r {
            Ok(p) => spec_parse_action(s@) == Some((spec_kind_text(p.0), p.1 as int)) && p.1 >= 0
                && spec_kind_canonical(p.0),
            Err(e) => e is ProtocolViolation && spec_parse_action(s@) is None,
        },
{
    let n = s.unicode_len();
    let mut i: usize = 0;
    loop
        invariant
            i <= n,
            n == s@.len(),
            forall|j: int| 0 <= j < i ==> s@[j] != '-',
        ensures
            n == s@.len(),
            i < n,
            find_char(s@, 0, set!['-']) == i as int,
        decreases n - i,
    {
        if i >= n {
            proof {
                lemma_find_char_missing(s@, 0, set!['-']);
            }
            return Err(WatchError::ProtocolViolation);
        }
        if s.get_char(i) == '-' {
            proof {
                lemma_find_char_located(s@, 0, set!['-'], i as int);
            }
            break ;
        }
        i += 1;
    }
    let sep = i;
    let mut i: usize = sep + 1;
    loop
        invariant
            sep < i <= n,
            n == s@.len(),
            find_char(s@, 0, set!['-']) == sep as int,
            forall|j: int| sep < j < i ==> s@[j] != '-',
        ensures
            n == s@.len(),
            find_char(s@, sep + 1 as int, set!['-']) == n as int,
        decreases n - i,
    {
        if i >= n {
            proof {
                lemma_find_char_missing(s@, sep + 1 as int, set!['-']);
            }
            break ;
        }
        if s.get_char(i) == '-' {
            proof {
                lemma_find_char_located(s@, sep + 1 as int, set!['-'], i as int);
            }
            return Err(WatchError::ProtocolViolation);
        }
        i += 1;
    }
    let number = s.substring_char(sep + 1, n);
    match parse_nat_text(number) {
        Some(v) => {
            let kind_text = s.substring_char(0, sep);
            let kind = ResponseType::from_kind(kind_text);
            proof {
                lemma_digits_value_nonneg(number@);
            }
            Ok((kind, v))
        },
        None => Err(WatchError::ProtocolViolation),
    }
}

/// One review session: ephemeral, owned by its own concurrent task,
/// opened for the image that was current when its notification was
/// built. Terminates on user action, dismissal, timeout, or a
/// notification-display failure.
#[derive(Debug)]
pub struct ReviewSession {
    /// The identity of the image this session reviews.
    pub identity: i64,
    /// Where the image was staged, for the courtesy open.
    pub staged_path: String,
    /// Who set the image, named in the notification body.
    pub setter: String,
    /// Seconds the session waits for a user action.
    pub timeout_secs: u64,
}

/// What a waiting session observes: exactly one of a named action, an
/// explicit dismissal, or the timeout. Whichever comes first wins.
#[derive(Debug, PartialEq)]
pub enum SessionEvent {
    Action(String),
    Dismissed,
    TimedOut,
}

/// What a session decides to do with what it observed.
#[derive(Debug, PartialEq)]
pub enum SessionOutcome {
    /// The action was valid and the image is still current: post this
    /// reaction upstream, exactly once.
    Post(ResponseType),
    /// The image moved on during review: discard the reaction and show
    /// the user a critical "no longer current" notification.
    Stale,
    /// The action id does not decode: abandon silently with a
    /// diagnostic.
    Abandon,
    /// Dismissal or timeout: open the staged file for inspection as a
    /// courtesy.
    Inspect,
}

/// The verdict a session must reach for an event, stated over views.
pub enum ReviewVerdict {
    Post { kind: Seq<char> },
    Stale,
    Abandon,
    Inspect,
}

/// The decision rule of a review session, as a function of the observed
/// event and of the identity that is current at the moment of
/// processing.
pub open spec fn spec_verdict(event: SessionEvent, current: int) -> ReviewVerdict {
    match event {
        SessionEvent::Action(id) => match spec_parse_action(id@) {
            None => ReviewVerdict::Abandon,
            Some(p) => if p.1 == current {
                ReviewVerdict::Post { kind: p.0 }
            } else {
                ReviewVerdict::Stale
            },
        },
        SessionEvent::Dismissed => ReviewVerdict::Inspect,
        SessionEvent::TimedOut => ReviewVerdict::Inspect,
    }
}

/// The executable outcome agrees with the spec-level verdict.
pub open spec fn matches_verdict(r: SessionOutcome, v: ReviewVerdict) -> bool {
    match v {
        ReviewVerdict::Post { kind } => r matches SessionOutcome::Post(k) && spec_kind_text(k)
            == kind,
        ReviewVerdict::Stale => r == SessionOutcome::Stale,
        ReviewVerdict::Abandon => r == SessionOutcome::Abandon,
        ReviewVerdict::Inspect => r == SessionOutcome::Inspect,
    }
}

impl ReviewSession {
    /// Open a session for the image that was just applied.
    pub fn open(identity: i64, staged_path: String, setter: String) -> (s: Self)
        ensures
            s.identity == identity,
            s.staged_path == staged_path,
            s.setter == setter,
            s.timeout_secs == REVIEW_TIMEOUT_SECS,
    {
        ReviewSession { identity, staged_path, setter, timeout_secs: REVIEW_TIMEOUT_SECS }
    }

    /// The review notification: exactly three named reaction actions,
    /// each tagged with this session's identity so a delayed action is
    /// self-describing.
    pub fn notification(&self) -> (n: Notification)
        ensures
            n.title@ == "Background change pending"@,
            n.body matches Some(b) && b@ == "Your background will soon change to an image provided by "@
                + self.setter@ + ". You may review it from here."@,
            n.actions@.len() == 3,
            n.actions@[0].id@ == spec_action_id("horny"@, self.identity as int),
            n.actions@[0].title@ == "Horny"@,
            n.actions@[1].id@ == spec_action_id("disgust"@, self.identity as int),
            n.actions@[1].title@ == "Disgust"@,
            n.actions@[2].id@ == spec_action_id("came"@, self.identity as int),
            n.actions@[2].title@ == "Came"@,
    {
        let mut body = String::from_str("Your background will soon change to an image provided by ");
        body.append(self.setter.as_str());
        body.append(". You may review it from here.");
        Notification::builder(String::from_str("Background change pending")).body(body).action(
            action_id("horny", self.identity),
            String::from_str("Horny"),
        ).action(action_id("disgust", self.identity), String::from_str("Disgust")).action(
            action_id("came", self.identity),
            String::from_str("Came"),
        ).build()
    }

    /// Decide what to do with one observed event, against the identity
    /// that is current at the moment of processing. A claimed identity
    /// that no longer matches is answered with `Stale`, never with a
    /// post.
    pub fn evaluate(&self, event: &SessionEvent, current_identity: i64) -> (r: SessionOutcome)
        ensures
            matches_verdict(r, spec_verdict(*event, current_identity as int)),
            r matches SessionOutcome::Post(k) ==> spec_kind_canonical(k),
    {
        match event {
            SessionEvent::Action(id) => {
                match parse_action_id(id.as_str()) {
                    Ok((kind, claimed)) => {
                        if claimed == current_identity {
                            SessionOutcome::Post(kind)
                        } else {
                            SessionOutcome::Stale
                        }
                    },
                    Err(_) => SessionOutcome::Abandon,
                }
            },
            SessionEvent::Dismissed => SessionOutcome::Inspect,
            SessionEvent::TimedOut => SessionOutcome::Inspect,
        }
    }
}

/// Build the response a session posts for an accepted reaction. Fails
/// with `Unauthorized` exactly when no usable credential was configured.
pub fn reaction_response(credential: Option<String>, kind: &ResponseType, text: String) -> (r:
    Result<Response, WatchError>)
    ensures
        match r {
            Ok(resp) => credential matches Some(k) && resp.api_key == k && resp.kind@
                == spec_kind_text(*kind) && resp.text == text,
            Err(e) => e is Unauthorized && credential is None,
        },
{
    match credential {
        Some(k) => Ok(Response::new(k, kind.kind_string(), text)),
        None => Err(WatchError::Unauthorized),
    }
}

/// Round trip: an action id built for kind `k` and identity `x` decodes
/// back to exactly `(k, x)`, provided the kind itself holds no `-` —
/// as the three reaction kinds do not.
pub proof fn lemma_action_id_roundtrip(kind: Seq<char>, x: int)
    requires
        0 <= x <= i64::MAX,
        forall|j: int| 0 <= j < kind.len() ==> kind[j] != '-',
    ensures
        spec_parse_action(spec_action_id(kind, x)) == Some((kind, x)),
{
    reveal_strlit("-");
    let s = spec_action_id(kind, x);
    let k = kind.len() as int;
    let digits = spec_nat_digits(x);
    lemma_nat_digits_are_digits(x);
    assert(s[k] == '-');
    assert(forall|j: int| 0 <= j < k ==> s[j] == kind[j]);
    lemma_find_char_located(s, 0, set!['-'], k);
    assert forall|j: int| k < j < s.len() implies s[j] != '-' by {
        assert(s[j] == digits[j - k - 1]);
        assert(is_digit_char(digits[j - k - 1]));
    }
    lemma_find_char_missing(s, k + 1, set!['-']);
    assert(s.subrange(k + 1, s.len() as int) =~= digits);
    lemma_digits_roundtrip(x);
    assert(s.subrange(0, k) =~= kind);
}

/// Stale reactions are discarded, never posted: when a session was
/// opened for identity `x` but the poll loop has moved the current
/// identity to `y != x` by the time the user's action is processed, the
/// verdict on that action is `Stale`.
pub proof fn lemma_stale_reaction_discarded(event: SessionEvent, kind: Seq<char>, x: int, y: int)
    requires
        0 <= x <= i64::MAX,
        forall|j: int| 0 <= j < kind.len() ==> kind[j] != '-',
        event matches SessionEvent::Action(id) && id@ == spec_action_id(kind, x),
        y != x,
    ensures
        spec_verdict(event, y) is Stale,
{
    lemma_action_id_roundtrip(kind, x);
}

/// With no concurrent write — the current identity still the one the
/// session was opened for — a valid action is accepted for posting, with
/// exactly the kind the action named.
pub proof fn lemma_current_reaction_posted(event: SessionEvent, kind: Seq<char>, x: int)
    requires
        0 <= x <= i64::MAX,
        forall|j: int| 0 <= j < kind.len() ==> kind[j] != '-',
        event matches SessionEvent::Action(id) && id@ == spec_action_id(kind, x),
    ensures
        spec_verdict(event, x) == (ReviewVerdict::Post { kind }),
{
    lemma_action_id_roundtrip(kind, x);
}

} // verus!
