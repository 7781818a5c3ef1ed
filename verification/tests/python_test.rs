use scribe_client::error::ScribeError;
use scribe_client::model::OutputFormat;
use scribe_client::python::{exception_for, parse_format, ExceptionKind};

#[test]
fn named_errors_raise_their_own_class() {
    let e = exception_for(ScribeError::NotFound { message: "Gone.".into() });
    assert_eq!(e.kind, ExceptionKind::NotFoundError);
    assert_eq!(e.message, "Gone.");
    let e = exception_for(ScribeError::InvalidGrant { message: "expired".into() });
    assert_eq!(e.kind, ExceptionKind::InvalidGrantError);
    let e = exception_for(ScribeError::PasswordRequired { message: "pw".into() });
    assert_eq!(e.kind, ExceptionKind::PasswordRequiredError);
}

#[test]
fn needs_purchase_names_the_purchase_page() {
    let e = exception_for(ScribeError::NeedsPurchase {
        message: "Out of credits.".into(),
        purchase_url: "https://scribe.example/buy".into(),
    });
    assert_eq!(e.kind, ExceptionKind::NeedsPurchaseError);
    assert_eq!(e.message, "Out of credits. (https://scribe.example/buy)");
}

#[test]
fn other_errors_raise_the_base_class_with_their_text() {
    let e = exception_for(ScribeError::Http);
    assert_eq!(e.kind, ExceptionKind::ScribeApiError);
    assert_eq!(e.message, "Couldn't connect to Scribe. Check your connection and try again.");
    let e = exception_for(ScribeError::Api { status: 500, code: "x".into(), message: "Broke.".into() });
    assert_eq!(e.kind, ExceptionKind::ScribeApiError);
    assert_eq!(e.message, "Broke.");
}

#[test]
fn formats_are_read_by_name() {
    assert_eq!(parse_format("brf"), Ok(OutputFormat::Brf));
    assert_eq!(
        parse_format("tiff"),
        Err("unrecognized output format \"tiff\"".to_owned())
    );
    assert_eq!(
        parse_format("a\"b"),
        Err("unrecognized output format \"a\\\"b\"".to_owned())
    );
}
