use scribe_client::api::{is_success, response_error};
use scribe_client::error::{ScribeError, GENERIC_MESSAGE};

#[test]
fn known_codes_get_their_own_variants() {
    let e = response_error(404, r#"{"error":{"code":"not_found","message":"We couldn't find that."}}"#);
    assert_eq!(e, ScribeError::NotFound { message: "We couldn't find that.".into() });
    let e = response_error(403, r#"{"error":{"code":"forbidden","message":"No."}}"#);
    assert_eq!(e, ScribeError::Forbidden { message: "No.".into() });
    let e = response_error(422, r#"{"error":{"code":"not_trashed","message":"Trash it first."}}"#);
    assert_eq!(e, ScribeError::NotTrashed { message: "Trash it first.".into() });
    let e = response_error(409, r#"{"error":{"code":"conversion_not_complete","message":"Wait."}}"#);
    assert_eq!(e, ScribeError::ConversionNotComplete { message: "Wait.".into() });
}

#[test]
fn unrecognized_codes_are_api_errors() {
    let e = response_error(
        500,
        r#"{"error":{"code":"internal_error","message":"Something broke upstream."}}"#,
    );
    assert_eq!(
        e,
        ScribeError::Api {
            status: 500,
            code: "internal_error".into(),
            message: "Something broke upstream.".into()
        }
    );
}

#[test]
fn a_missing_message_gets_the_generic_sentence() {
    let e = response_error(404, r#"{"error":{"code":"not_found"}}"#);
    assert_eq!(e, ScribeError::NotFound { message: GENERIC_MESSAGE.into() });
    let e = response_error(404, r#"{"error":{"code":"not_found","message":null}}"#);
    assert_eq!(e, ScribeError::NotFound { message: GENERIC_MESSAGE.into() });
}

#[test]
fn a_body_that_is_not_the_envelope_never_surfaces() {
    let e = response_error(502, "<html>Bad Gateway</html>");
    assert_eq!(
        e,
        ScribeError::Api { status: 502, code: "server_error".into(), message: GENERIC_MESSAGE.into() }
    );
    let e = response_error(500, r#"{"error":{"message":"no code"}}"#);
    assert_eq!(
        e,
        ScribeError::Api { status: 500, code: "server_error".into(), message: GENERIC_MESSAGE.into() }
    );
}

#[test]
fn a_bare_error_code_is_read_as_the_code() {
    let e = response_error(404, r#"{"error":"not_found"}"#);
    assert_eq!(e, ScribeError::NotFound { message: GENERIC_MESSAGE.into() });
    let e = response_error(403, r#"{"error":"forbidden"}"#);
    assert_eq!(e, ScribeError::Forbidden { message: GENERIC_MESSAGE.into() });
    let e = response_error(500, r#"{"error":"flat string"}"#);
    assert_eq!(
        e,
        ScribeError::Api { status: 500, code: "flat string".into(), message: GENERIC_MESSAGE.into() }
    );
}

#[test]
fn success_is_the_2xx_range() {
    assert!(is_success(200));
    assert!(is_success(204));
    assert!(!is_success(199));
    assert!(!is_success(300));
    assert!(!is_success(401));
}

#[test]
fn error_messages_are_what_users_read() {
    assert_eq!(ScribeError::Http.message(), "Couldn't connect to Scribe. Check your connection and try again.");
    assert_eq!(ScribeError::Decode.message(), GENERIC_MESSAGE);
    assert_eq!(ScribeError::ChannelClosed.message(), "channel closed before a reply arrived");
    assert_eq!(ScribeError::NotFound { message: "Gone.".into() }.message(), "Gone.");
}

#[test]
fn download_url_reports_where_the_file_really_lives() {
    assert_eq!(
        scribe_client::api::download_location(
            302,
            Some("https://storage.example/doc-1.mp3?signature=abc"),
            ""
        ),
        Ok(Some("https://storage.example/doc-1.mp3?signature=abc".to_owned()))
    );
}

#[test]
fn download_url_is_none_when_the_server_sends_the_file() {
    assert_eq!(scribe_client::api::download_location(200, None, "ID3"), Ok(None));
}

#[test]
fn download_url_maps_conversion_not_complete() {
    let result = scribe_client::api::download_location(
        409,
        None,
        r#"{"error":{"code":"conversion_not_complete","message":"This file isn't ready yet."}}"#,
    );
    assert_eq!(
        result,
        Err(ScribeError::ConversionNotComplete { message: "This file isn't ready yet.".into() })
    );
}

#[test]
fn a_redirect_without_a_location_is_an_error() {
    assert_eq!(
        scribe_client::api::download_location(302, None, ""),
        Err(ScribeError::Api { status: 302, code: "server_error".into(), message: GENERIC_MESSAGE.into() })
    );
}
