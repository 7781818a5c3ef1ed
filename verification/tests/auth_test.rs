use std::collections::HashMap;

use scribe_client::pkce::PkceChallenge;
use scribe_client::error::{ScribeError, GENERIC_MESSAGE};
use scribe_client::requests::{
    authorization_url, authorization_url_with_challenge, exchange_code_form, refresh_form,
    revoke, revoke_form, token, Method,
};
use scribe_client::token::revoke_outcome;

fn query_pairs(url: &str) -> HashMap<String, String> {
    url::Url::parse(url)
        .unwrap()
        .query_pairs()
        .map(|(k, v)| (k.into_owned(), v.into_owned()))
        .collect()
}

#[test]
fn authorization_url_includes_pkce_challenge() {
    let pkce = PkceChallenge::generate();

    let url = authorization_url(
        "https://scribe.example/",
        "test-client-id",
        "myapp://callback",
        &pkce,
    )
    .unwrap();

    assert_eq!(url::Url::parse(&url).unwrap().path(), "/oauth/authorize");
    let pairs = query_pairs(&url);
    assert_eq!(pairs.get("code_challenge").unwrap(), pkce.challenge());
    assert_eq!(pairs.get("code_challenge_method").unwrap(), "S256");
    assert_eq!(pairs.get("redirect_uri").unwrap(), "myapp://callback");
    assert_eq!(pairs.get("client_id").unwrap(), "test-client-id");
}

#[test]
fn authorization_url_is_exactly_the_five_pairs_in_order() {
    let url = authorization_url_with_challenge(
        "https://scribe.example/base/path",
        "cid",
        "myapp://callback",
        "CHALLENGE",
    )
    .unwrap();
    assert_eq!(
        url,
        "https://scribe.example/oauth/authorize?response_type=code&client_id=cid\
         &redirect_uri=myapp%3A%2F%2Fcallback&code_challenge=CHALLENGE&code_challenge_method=S256"
    );
}

#[test]
fn authorization_url_needs_a_base_url() {
    assert_eq!(
        authorization_url_with_challenge("not a url", "cid", "myapp://callback", "c"),
        None
    );
}

#[test]
fn code_exchange_form_names_every_field() {
    let form = exchange_code_form("cid", "myapp://callback", "auth-code", "the-verifier");
    let expected: Vec<(String, String)> = vec![
        ("grant_type".into(), "authorization_code".into()),
        ("client_id".into(), "cid".into()),
        ("redirect_uri".into(), "myapp://callback".into()),
        ("code".into(), "auth-code".into()),
        ("code_verifier".into(), "the-verifier".into()),
    ];
    assert_eq!(form, expected);
}

#[test]
fn refresh_form_names_every_field() {
    let form = refresh_form("cid", "rt-old");
    let expected: Vec<(String, String)> = vec![
        ("grant_type".into(), "refresh_token".into()),
        ("client_id".into(), "cid".into()),
        ("refresh_token".into(), "rt-old".into()),
    ];
    assert_eq!(form, expected);
}

#[test]
fn token_requests_post_to_the_token_endpoint() {
    let e = token();
    assert_eq!(e.method, Method::Post);
    assert_eq!(e.path, "/oauth/token");
    assert!(e.query.is_empty());
}

#[test]
fn revocation_posts_the_token_and_client() {
    let e = revoke();
    assert_eq!(e.method, Method::Post);
    assert_eq!(e.path, "/oauth/revoke");
    let expected: Vec<(String, String)> =
        vec![("token".into(), "rt-1".into()), ("client_id".into(), "cid".into())];
    assert_eq!(revoke_form("cid", "rt-1"), expected);
}

#[test]
fn revocation_outcome_follows_the_status() {
    assert_eq!(revoke_outcome(200, ""), Ok(()));
    assert_eq!(
        revoke_outcome(400, r#"{"error":"invalid_grant"}"#),
        Err(ScribeError::InvalidGrant { message: GENERIC_MESSAGE.into() })
    );
}
