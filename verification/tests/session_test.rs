use scribe_client::error::{ScribeError, SESSION_EXPIRED_MESSAGE};
use scribe_client::session::{is_unauthorized, AuthAction, AuthPhase, AuthedRequest};
use scribe_client::token::{TokenSet, NANOS_PER_SECOND};

const NOW: i128 = 1_700_000_000 * NANOS_PER_SECOND;
const SEC: i128 = NANOS_PER_SECOND;

fn tokens(access: &str, refresh: Option<&str>, expires_at: Option<i128>) -> TokenSet {
    TokenSet {
        access_token: access.into(),
        refresh_token: refresh.map(str::to_owned),
        expires_at,
    }
}

#[test]
fn a_valid_token_is_sent_as_it_is() {
    let t = tokens("at-valid", Some("rt"), Some(NOW + 3600 * SEC));
    let mut req = AuthedRequest::new();
    assert_eq!(req.phase(), AuthPhase::Start);
    assert_eq!(req.begin(&t, NOW), AuthAction::Send { access_token: "at-valid".into() });
    assert_eq!(req.responded(&t, false), AuthAction::Finish);
    assert_eq!(req.phase(), AuthPhase::Done);
}

#[test]
fn a_token_about_to_expire_is_refreshed_first() {
    let mut t = tokens("at-stale", Some("rt-stale"), Some(NOW + 5 * SEC));
    let mut req = AuthedRequest::new();
    assert_eq!(req.begin(&t, NOW), AuthAction::Refresh { refresh_token: "rt-stale".into() });
    let fresh = tokens("at-fresh", Some("rt-fresh"), Some(NOW + 3600 * SEC));
    assert_eq!(req.refreshed(&mut t, Ok(fresh.clone())), AuthAction::Send { access_token: "at-fresh".into() });
    assert_eq!(t, fresh);
    assert_eq!(req.responded(&t, false), AuthAction::Finish);
}

#[test]
fn a_refusal_forces_one_refresh_and_one_retry() {
    let mut t = tokens("at-1", Some("rt-1"), None);
    let mut req = AuthedRequest::new();
    assert_eq!(req.begin(&t, NOW), AuthAction::Send { access_token: "at-1".into() });
    assert_eq!(req.responded(&t, true), AuthAction::Refresh { refresh_token: "rt-1".into() });
    let fresh = tokens("at-2", Some("rt-2"), None);
    assert_eq!(req.refreshed(&mut t, Ok(fresh)), AuthAction::Send { access_token: "at-2".into() });
    assert_eq!(req.phase(), AuthPhase::Retry);
    // A second refusal is the answer: no further refresh.
    assert_eq!(req.responded(&t, true), AuthAction::Finish);
    assert_eq!(req.phase(), AuthPhase::Done);
}

#[test]
fn a_refusal_without_a_refresh_token_is_an_expired_session() {
    let t = tokens("at-1", None, None);
    let mut req = AuthedRequest::new();
    assert_eq!(req.begin(&t, NOW), AuthAction::Send { access_token: "at-1".into() });
    assert_eq!(
        req.responded(&t, true),
        AuthAction::Fail(ScribeError::InvalidGrant { message: SESSION_EXPIRED_MESSAGE.into() })
    );
}

#[test]
fn a_failed_refresh_ends_the_request_with_its_error() {
    let mut t = tokens("at", Some("rt-revoked"), Some(NOW - 10 * SEC));
    let mut req = AuthedRequest::new();
    assert_eq!(req.begin(&t, NOW), AuthAction::Refresh { refresh_token: "rt-revoked".into() });
    let failed = ScribeError::InvalidGrant { message: "invalid_grant".into() };
    assert_eq!(req.refreshed(&mut t, Err(failed.clone())), AuthAction::Fail(failed));
    assert_eq!(t.access_token, "at");
}

#[test]
fn an_expired_token_without_a_refresh_token_is_still_sent() {
    let t = tokens("at-old", None, Some(NOW - 10 * SEC));
    let mut req = AuthedRequest::new();
    assert_eq!(req.begin(&t, NOW), AuthAction::Send { access_token: "at-old".into() });
}

#[test]
fn only_401_refuses_the_token() {
    assert!(is_unauthorized(401));
    assert!(!is_unauthorized(403));
    assert!(!is_unauthorized(200));
}

#[test]
fn only_a_failed_connection_refuses_the_channel_token() {
    let refused: Result<(), ScribeError> = Err(ScribeError::WebSocket);
    assert!(scribe_client::session::connection_refused(&refused));
    let closed: Result<(), ScribeError> = Err(ScribeError::ChannelClosed);
    assert!(!scribe_client::session::connection_refused(&closed));
    let not_found: Result<(), ScribeError> = Err(ScribeError::NotFound { message: "x".into() });
    assert!(!scribe_client::session::connection_refused(&not_found));
    assert!(!scribe_client::session::connection_refused(&Ok::<u8, ScribeError>(1)));
}
