use loxerpaper::config::{BaseConfig, Config, FeedConfig, Preferences};
use loxerpaper::desktop::{DesktopApiError, Notification, Urgency};
use loxerpaper::detector::{identity_of, identity_of_link};
use loxerpaper::errors::WatchError;
use loxerpaper::gnome::GnomeDesktopApi;
use loxerpaper::link::{Link, ResponseType};
use loxerpaper::poll::{PollAction, PollEvent, PollLoop, PollPhase};
use loxerpaper::session::{
    parse_action_id, reaction_response, ReviewSession, SessionEvent, SessionOutcome,
};
use loxerpaper::windows::WindowsDesktopApi;

fn sample_link(post_url: Option<&str>) -> Link {
    Link {
        id: 1,
        expires: None,
        username: "gray".to_string(),
        terms: None,
        blacklist: None,
        post_url: post_url.map(|u| u.to_string()),
        post_thumbnail_url: None,
        post_description: None,
        created_at: None,
        updated_at: None,
        set_by: Some("name".to_string()),
        response_type: None,
        response_text: None,
        online: Some(true),
    }
}

fn sample_config(token: Option<&str>) -> Config {
    Config {
        base: BaseConfig {
            base: Some("https://walltaker.joi.how/api/".to_string()),
        },
        feed: FeedConfig {
            feed: Some(7),
            token: token.map(|t| t.to_string()),
        },
        preferences: Preferences {
            interval: None,
            mode: None,
            discord_presence: None,
            discord_client_id: None,
            save_locally: None,
            notifications: None,
        },
    }
}

#[test]
fn matching_action_is_posted_with_its_kind() {
    let session = ReviewSession::open(42, "/tmp/x.png".to_string(), "alice".to_string());
    let outcome = session.evaluate(&SessionEvent::Action("horny-42".to_string()), 42);
    assert_eq!(outcome, SessionOutcome::Post(ResponseType::Horny));
}

#[test]
fn stale_action_is_discarded_not_posted() {
    let session = ReviewSession::open(42, "/tmp/x.png".to_string(), "alice".to_string());
    let outcome = session.evaluate(&SessionEvent::Action("horny-42".to_string()), 99);
    assert_eq!(outcome, SessionOutcome::Stale);
}

#[test]
fn malformed_action_id_abandons_the_session() {
    let session = ReviewSession::open(42, "/tmp/x.png".to_string(), "alice".to_string());
    let outcome = session.evaluate(&SessionEvent::Action("horny".to_string()), 42);
    assert_eq!(outcome, SessionOutcome::Abandon);
    assert_eq!(
        parse_action_id("horny"),
        Err(WatchError::ProtocolViolation)
    );
}

#[test]
fn dismissal_and_timeout_open_the_staged_file() {
    let session = ReviewSession::open(42, "/tmp/x.png".to_string(), "alice".to_string());
    assert_eq!(
        session.evaluate(&SessionEvent::Dismissed, 42),
        SessionOutcome::Inspect
    );
    assert_eq!(
        session.evaluate(&SessionEvent::TimedOut, 42),
        SessionOutcome::Inspect
    );
}

#[test]
fn action_ids_decode_exactly() {
    assert_eq!(
        parse_action_id("disgust-0"),
        Ok((ResponseType::Disgust, 0))
    );
    assert_eq!(
        parse_action_id("shrug-17"),
        Ok((ResponseType::Other("shrug".to_string()), 17))
    );
    assert_eq!(parse_action_id("a-b-c"), Err(WatchError::ProtocolViolation));
    assert_eq!(parse_action_id("horny-"), Err(WatchError::ProtocolViolation));
    assert_eq!(parse_action_id("horny-4x"), Err(WatchError::ProtocolViolation));
    assert_eq!(parse_action_id(""), Err(WatchError::ProtocolViolation));
    assert_eq!(
        parse_action_id("horny-99999999999999999999"),
        Err(WatchError::ProtocolViolation)
    );
}

#[test]
fn review_notification_carries_three_tagged_actions() {
    let session = ReviewSession::open(42, "/tmp/x.png".to_string(), "alice".to_string());
    let n = session.notification();
    assert_eq!(n.title, "Background change pending");
    assert_eq!(
        n.body.as_deref(),
        Some("Your background will soon change to an image provided by alice. You may review it from here.")
    );
    assert_eq!(n.actions.len(), 3);
    assert_eq!(n.actions[0].id, "horny-42");
    assert_eq!(n.actions[0].title, "Horny");
    assert_eq!(n.actions[1].id, "disgust-42");
    assert_eq!(n.actions[1].title, "Disgust");
    assert_eq!(n.actions[2].id, "came-42");
    assert_eq!(n.actions[2].title, "Came");
}

#[test]
fn missing_credential_is_unauthorized() {
    assert_eq!(
        reaction_response(None, &ResponseType::Horny, "".to_string()),
        Err(WatchError::Unauthorized)
    );
    let resp = reaction_response(
        Some("secret".to_string()),
        &ResponseType::Horny,
        "".to_string(),
    )
    .unwrap();
    assert_eq!(resp.api_key, "secret");
    assert_eq!(resp.kind, "horny");
}

#[test]
fn placeholder_token_counts_as_absent() {
    assert_eq!(sample_config(None).credential(), None);
    assert_eq!(sample_config(Some("your_token")).credential(), None);
    assert_eq!(
        sample_config(Some("real-key")).credential(),
        Some("real-key".to_string())
    );
}

#[test]
fn preferences_fall_back_to_defaults() {
    let cfg = sample_config(None);
    assert_eq!(cfg.effective_interval(), 60);
    assert!(!cfg.retain_images());
    assert_eq!(cfg.feed_id(), Some(7));
}

#[test]
fn poll_loop_applies_a_new_image_once() {
    let url = "https://static1.e621.net/data/5d/87/5d87428c4839b0dc7d585b87a25af61a.png";
    let mut poll = PollLoop::new();
    assert!(matches!(poll.step(PollEvent::Tick), PollAction::Fetch));
    assert!(matches!(
        poll.step(PollEvent::FetchSucceeded(sample_link(Some(url)))),
        PollAction::Detect
    ));
    match poll.step(PollEvent::Tick) {
        PollAction::Download { url: u, file_name } => {
            assert_eq!(u, url);
            assert_eq!(file_name, "5d87428c4839b0dc7d585b87a25af61a.png");
        }
        other => panic!("expected a download, got {other:?}"),
    }
    match poll.step(PollEvent::DownloadSucceeded) {
        PollAction::Apply {
            identity,
            file_name,
            setter,
        } => {
            assert_eq!(identity, identity_of(url));
            assert_eq!(file_name, "5d87428c4839b0dc7d585b87a25af61a.png");
            assert_eq!(setter, "name");
        }
        other => panic!("expected an apply, got {other:?}"),
    }
    assert!(matches!(poll.step(PollEvent::Applied), PollAction::Sleep));
}

#[test]
fn second_poll_with_identical_asset_is_a_no_op() {
    let url = "https://static1.e621.net/data/5d/87/5d87428c4839b0dc7d585b87a25af61a.png";
    let mut poll = PollLoop::new();
    poll.step(PollEvent::Tick);
    poll.step(PollEvent::FetchSucceeded(sample_link(Some(url))));
    poll.step(PollEvent::Tick);
    poll.step(PollEvent::DownloadSucceeded);
    poll.step(PollEvent::Applied);
    // next iteration returns the identical asset URL
    assert!(matches!(poll.step(PollEvent::Tick), PollAction::Continue));
    assert!(matches!(poll.step(PollEvent::Tick), PollAction::Fetch));
    poll.step(PollEvent::FetchSucceeded(sample_link(Some(url))));
    assert!(matches!(poll.step(PollEvent::Tick), PollAction::Sleep));
    assert_eq!(poll.phase, PollPhase::Sleeping);
}

#[test]
fn query_churn_between_polls_is_a_no_op() {
    let mut poll = PollLoop::new();
    poll.step(PollEvent::Tick);
    poll.step(PollEvent::FetchSucceeded(sample_link(Some(
        "https://h/x.png?sig=1",
    ))));
    poll.step(PollEvent::Tick);
    poll.step(PollEvent::DownloadSucceeded);
    poll.step(PollEvent::Applied);
    poll.step(PollEvent::Tick);
    poll.step(PollEvent::Tick);
    poll.step(PollEvent::FetchSucceeded(sample_link(Some(
        "https://h/x.png?sig=2",
    ))));
    assert!(matches!(poll.step(PollEvent::Tick), PollAction::Sleep));
}

#[test]
fn failed_download_retries_the_same_change() {
    let url = "https://h/y.png";
    let mut poll = PollLoop::new();
    poll.step(PollEvent::Tick);
    poll.step(PollEvent::FetchSucceeded(sample_link(Some(url))));
    assert!(matches!(
        poll.step(PollEvent::Tick),
        PollAction::Download { .. }
    ));
    assert!(matches!(
        poll.step(PollEvent::DownloadFailed),
        PollAction::Sleep
    ));
    // the identity was not committed, so the same change is detected again
    poll.step(PollEvent::Tick);
    poll.step(PollEvent::Tick);
    poll.step(PollEvent::FetchSucceeded(sample_link(Some(url))));
    assert!(matches!(
        poll.step(PollEvent::Tick),
        PollAction::Download { .. }
    ));
}

#[test]
fn fetch_failure_and_missing_asset_sleep_without_crashing() {
    let mut poll = PollLoop::new();
    poll.step(PollEvent::Tick);
    assert!(matches!(poll.step(PollEvent::FetchFailed), PollAction::Sleep));
    poll.step(PollEvent::Tick);
    poll.step(PollEvent::Tick);
    poll.step(PollEvent::FetchSucceeded(sample_link(None)));
    match poll.step(PollEvent::Tick) {
        PollAction::Skip { error } => assert_eq!(error, WatchError::MalformedAsset),
        other => panic!("expected a skip, got {other:?}"),
    }
}

#[test]
fn detector_rejects_a_state_without_an_asset() {
    assert_eq!(
        identity_of_link(&sample_link(None)),
        Err(WatchError::MalformedAsset)
    );
    let url = "https://h/x.png";
    assert_eq!(
        identity_of_link(&sample_link(Some(url))),
        Ok(identity_of(url))
    );
}

#[test]
fn mismatched_events_are_ignored() {
    let mut poll = PollLoop::new();
    assert!(matches!(
        poll.step(PollEvent::DownloadSucceeded),
        PollAction::Ignore
    ));
    assert_eq!(poll.phase, PollPhase::Idle);
}

#[test]
fn notification_builder_sets_every_field() {
    let n = Notification::builder("Title".to_string())
        .body("Body".to_string())
        .urgency(Urgency::Critical)
        .timeout(1500)
        .action("id-1".to_string(), "Label".to_string())
        .build();
    assert_eq!(n.title, "Title");
    assert_eq!(n.body.as_deref(), Some("Body"));
    assert_eq!(n.urgency, Urgency::Critical);
    assert_eq!(n.timeout_millis, Some(1500));
    assert_eq!(n.actions.len(), 1);
    assert_eq!(n.actions[0].id, "id-1");
}

#[test]
fn capability_sets_match_the_platforms() {
    let gnome = GnomeDesktopApi::new().capabilities();
    assert!(gnome.notifications && gnome.actions && gnome.set_wallpaper);
    assert!(gnome.raw_icon_bytes && gnome.open_file);
    let win = WindowsDesktopApi::new().capabilities();
    assert!(win.notifications && win.set_wallpaper && win.open_file);
    assert!(!win.actions && !win.raw_icon_bytes);
}

#[test]
fn error_messages_name_their_cause() {
    assert_eq!(
        DesktopApiError::Backend("boom".to_string()).message(),
        "backend error: boom"
    );
    assert_eq!(
        DesktopApiError::Unsupported.message(),
        "operation not supported on this platform"
    );
    assert_eq!(
        WatchError::StaleReaction.message(),
        "image is no longer current and cannot be reviewed"
    );
}

#[test]
fn response_kinds_round_trip_through_wire_text() {
    assert_eq!(ResponseType::from_kind("horny"), ResponseType::Horny);
    assert_eq!(ResponseType::from_kind("disgust"), ResponseType::Disgust);
    assert_eq!(ResponseType::from_kind("came"), ResponseType::Came);
    assert_eq!(
        ResponseType::from_kind("shrug"),
        ResponseType::Other("shrug".to_string())
    );
    assert_eq!(ResponseType::Came.kind_string(), "came");
}
