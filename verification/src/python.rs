//! What the Python bindings raise for each error, and how they read an
//! output format given by name.

use vstd::prelude::*;

use crate::error::{error_text, ScribeError, ScribeErrorView};
use crate::model::{format_named, OutputFormat};
use crate::text::push_str;

verus! {

/// The Python exception classes. Every one but `ScribeApiError` derives from
/// `ScribeApiError`.
#[derive(Debug, Clone, Copy, PartialEq, Eq)]
pub enum ExceptionKind {
    ScribeApiError,
    InvalidGrantError,
    NotFoundError,
    ForbiddenError,
    NotTrashedError,
    ConversionNotCompleteError,
    ConversionInProgressError,
    RateLimitedError,
    NeedsPurchaseError,
    PasswordRequiredError,
}

/// An exception to raise: its class and its message.
#[derive(Debug, Clone, PartialEq, Eq)]
pub struct Exception {
    pub kind: ExceptionKind,
    pub message: String,
}

/// Which class an error is raised as: the one named after it, or the base
/// class for the errors that have none.
pub open spec fn exception_kind(e: ScribeErrorView) -> ExceptionKind {
    match e {
        ScribeErrorView::InvalidGrant { .. } => ExceptionKind::InvalidGrantError,
        ScribeErrorView::NotFound { .. } => ExceptionKind::NotFoundError,
        ScribeErrorView::Forbidden { .. } => ExceptionKind::ForbiddenError,
        ScribeErrorView::NotTrashed { .. } => ExceptionKind::NotTrashedError,
        ScribeErrorView::ConversionNotComplete { .. } => ExceptionKind::ConversionNotCompleteError,
        ScribeErrorView::ConversionInProgress { .. } => ExceptionKind::ConversionInProgressError,
        ScribeErrorView::RateLimited { .. } => ExceptionKind::RateLimitedError,
        ScribeErrorView::NeedsPurchase { .. } => ExceptionKind::NeedsPurchaseError,
        ScribeErrorView::PasswordRequired { .. } => ExceptionKind::PasswordRequiredError,
        _ => ExceptionKind::ScribeApiError,
    }
}

/// The exception's message: the error's own text, with the purchase page in
/// brackets after it when credits must be bought.
pub open spec fn exception_message(e: ScribeErrorView) -> Seq<char> {
    match e {
        ScribeErrorView::NeedsPurchase { message, purchase_url } => message + " ("@ + purchase_url
            + ")"@,
        _ => error_text(e),
    }
}

/// The exception a Python caller sees for `e`.
pub fn exception_for(e: ScribeError) -> (r: Exception)
    ensures
        r.kind == exception_kind(e@),
        r.message@ == exception_message(e@),
{
    match e {
        ScribeError::InvalidGrant { message } => Exception {
            kind: ExceptionKind::InvalidGrantError,
            message,
        },
        ScribeError::NotFound { message } => Exception { kind: ExceptionKind::NotFoundError, message },
        ScribeError::Forbidden { message } => Exception {
            kind: ExceptionKind::ForbiddenError,
            message,
        },
        ScribeError::NotTrashed { message } => Exception {
            kind: ExceptionKind::NotTrashedError,
            message,
        },
        ScribeError::ConversionNotComplete { message } => Exception {
            kind: ExceptionKind::ConversionNotCompleteError,
            message,
        },
        ScribeError::ConversionInProgress { message } => Exception {
            kind: ExceptionKind::ConversionInProgressError,
            message,
        },
        ScribeError::RateLimited { message } => Exception {
            kind: ExceptionKind::RateLimitedError,
            message,
        },
        ScribeError::NeedsPurchase { message, purchase_url } => {
            let mut text = message;
            push_str(&mut text, " (");
            push_str(&mut text, purchase_url.as_str());
            push_str(&mut text, ")");
            Exception { kind: ExceptionKind::NeedsPurchaseError, message: text }
        },
        ScribeError::PasswordRequired { message } => Exception {
            kind: ExceptionKind::PasswordRequiredError,
            message,
        },
        other => {
            let message = other.message();
            Exception { kind: ExceptionKind::ScribeApiError, message }
        },
    }
}

/// How Rust's `Debug` writes the string `s`: in double quotes, with quotes,
/// backslashes and unprintable characters escaped.
pub uninterp spec fn debug_literal(s: Seq<char>) -> Seq<char>;

/// `format!("{s:?}")`: `s` as Rust's `Debug` writes it.
#[verifier::external_body]
fn debug_quote(s: &str) -> (r: String)
    ensures
        r@ == debug_literal(s@),
{
    format!("{s:?}")
}

/// An output format given by name, or the message of the `ValueError` a
/// Python caller sees for a name that is none: `unrecognized output format`
/// and the name as `Debug` writes it.
pub fn parse_format(raw: &str) -> (r: Result<OutputFormat, String>)
    ensures
        match r {
            Ok(f) => format_named(raw@) == Some(f),
            Err(m) => format_named(raw@) is None && m@ == "unrecognized output format "@
                + debug_literal(raw@),
        },
{
    match OutputFormat::parse(raw) {
        Some(f) => Ok(f),
        None => {
            let mut m = "unrecognized output format ".to_owned();
            let quoted = debug_quote(raw);
            push_str(&mut m, quoted.as_str());
            Err(m)
        },
    }
}

} // verus!
