use scribe_client::error::{ScribeError, GENERIC_MESSAGE};
use scribe_client::token::{
    now_unix_nanos, parse_token_response, token_error, token_response_outcome, whole_seconds,
    TokenResponse, TokenSet, MAX_UNIX_NANOS, NANOS_PER_SECOND,
};

fn tokens_expiring_at(expires_at: Option<i128>) -> TokenSet {
    TokenSet {
        access_token: "at".into(),
        refresh_token: None,
        expires_at,
    }
}

#[test]
fn token_with_no_expiry_never_needs_refresh() {
    let tokens = tokens_expiring_at(None);
    assert!(!tokens.needs_refresh(30));
}

#[test]
fn token_well_outside_skew_does_not_need_refresh() {
    let tokens = tokens_expiring_at(Some(now_unix_nanos() + 3600 * NANOS_PER_SECOND));
    assert!(!tokens.needs_refresh(30));
}

#[test]
fn token_within_skew_of_expiry_needs_refresh() {
    let tokens = tokens_expiring_at(Some(now_unix_nanos() + 5 * NANOS_PER_SECOND));
    assert!(tokens.needs_refresh(30));
}

#[test]
fn already_expired_token_needs_refresh() {
    let tokens = tokens_expiring_at(Some(now_unix_nanos() - 3600 * NANOS_PER_SECOND));
    assert!(tokens.needs_refresh(30));
}

#[test]
fn refresh_is_due_exactly_at_the_edge_of_the_skew() {
    let now: i128 = 1_000_000 * NANOS_PER_SECOND;
    let tokens = tokens_expiring_at(Some(now + 300 * NANOS_PER_SECOND));
    assert!(tokens.needs_refresh_at(300, now));
    assert!(!tokens.needs_refresh_at(299, now));
    // Time is kept below the second: one nanosecond past the edge is not due.
    let later = tokens_expiring_at(Some(now + 300 * NANOS_PER_SECOND + 1));
    assert!(!later.needs_refresh_at(300, now));
    assert!(!tokens_expiring_at(None).needs_refresh_at(300, now));
    assert!(tokens.needs_refresh_at(300, i128::MAX));
}

#[test]
fn token_set_from_response_counts_expiry_from_now() {
    let response = TokenResponse {
        access_token: "at-123".into(),
        refresh_token: Some("rt-456".into()),
        expires_in: Some(3600),
    };
    let tokens = TokenSet::from_response(response, 1_000_000 * NANOS_PER_SECOND + 7);
    assert_eq!(tokens.access_token, "at-123");
    assert_eq!(tokens.refresh_token.as_deref(), Some("rt-456"));
    assert_eq!(tokens.expires_at, Some(1_003_600 * NANOS_PER_SECOND + 7));
}

#[test]
fn whole_seconds_round_down() {
    assert_eq!(whole_seconds(1_500_000_000), 1);
    assert_eq!(whole_seconds(-1), -1);
    assert_eq!(whole_seconds(-1_000_000_000), -1);
    assert_eq!(whole_seconds(-1_000_000_001), -2);
    assert_eq!(whole_seconds(0), 0);
}

#[test]
fn token_response_body_is_read_with_optional_fields() {
    let r = parse_token_response(r#"{"access_token":"at","expires_in":60}"#).unwrap();
    assert_eq!(r.access_token, "at");
    assert_eq!(r.refresh_token, None);
    assert_eq!(r.expires_in, Some(60));
    assert!(parse_token_response(r#"{"refresh_token":"rt"}"#).is_none());
    assert!(parse_token_response("not json").is_none());
}

#[test]
fn successful_token_response_becomes_a_token_set() {
    let outcome = token_response_outcome(
        200,
        r#"{"access_token":"at-new","refresh_token":"rt-new","expires_in":3600}"#,
        2_000_000 * NANOS_PER_SECOND,
    );
    match outcome {
        Some(Ok(tokens)) => {
            assert_eq!(tokens.access_token, "at-new");
            assert_eq!(tokens.refresh_token.as_deref(), Some("rt-new"));
            assert_eq!(tokens.expires_at, Some(2_003_600 * NANOS_PER_SECOND));
        }
        other => panic!("expected a token set, got {other:?}"),
    }
}

#[test]
fn undecodable_success_body_is_a_transport_error() {
    assert_eq!(token_response_outcome(200, "<html>", 0), Some(Err(ScribeError::Http)));
}

#[test]
fn expiry_beyond_any_date_is_refused() {
    let outcome = token_response_outcome(
        200,
        r#"{"access_token":"at","expires_in":9223372036854775807}"#,
        MAX_UNIX_NANOS,
    );
    assert_eq!(outcome, None);
}

#[test]
fn invalid_grant_token_error_is_its_own_variant() {
    let e = token_error(
        400,
        r#"{"error":"invalid_grant","error_description":"PKCE verification failed"}"#,
    );
    assert!(matches!(e, ScribeError::InvalidGrant { .. }));
}

#[test]
fn unrecognized_token_error_is_an_api_error() {
    match token_error(400, r#"{"error":"unsupported_grant_type"}"#) {
        ScribeError::Api { status, code, .. } => {
            assert_eq!(status, 400);
            assert_eq!(code, "unsupported_grant_type");
        }
        other => panic!("expected Api error, got {other:?}"),
    }
}

#[test]
fn non_json_token_error_body_is_an_api_error() {
    match token_error(502, "upstream timeout") {
        ScribeError::Api { status, code, .. } => {
            assert_eq!(status, 502);
            assert_eq!(code, "upstream timeout");
        }
        other => panic!("expected Api error, got {other:?}"),
    }
}

#[test]
fn failed_token_request_outcome_is_the_token_error() {
    let outcome = token_response_outcome(400, r#"{"error":"invalid_grant"}"#, 0);
    assert!(matches!(outcome, Some(Err(ScribeError::InvalidGrant { .. }))));
}

#[test]
fn token_errors_show_the_description_or_the_generic_sentence() {
    assert_eq!(
        token_error(400, r#"{"error":"invalid_grant","error_description":"PKCE verification failed"}"#),
        ScribeError::InvalidGrant { message: "PKCE verification failed".into() }
    );
    assert_eq!(
        token_error(400, r#"{"error":"unsupported_grant_type"}"#),
        ScribeError::Api {
            status: 400,
            code: "unsupported_grant_type".into(),
            message: GENERIC_MESSAGE.into()
        }
    );
    assert_eq!(
        token_error(502, "<html>upstream timeout</html>"),
        ScribeError::Api {
            status: 502,
            code: "<html>upstream timeout</html>".into(),
            message: GENERIC_MESSAGE.into()
        }
    );
}
