//! How a REST response's status and body become the library's errors.

use vstd::prelude::*;

use crate::error::{ScribeError, ScribeErrorView, GENERIC_MESSAGE};
use crate::json::{
    field, field_ref, get_opt_string, get_string, is_record_shaped, parse_json, parsed_json,
    read_defaulted_opt_string, read_string, record_shaped, Json,
};
use crate::text::str_eq;

verus! {

/// Whether an HTTP status is a success (`2xx`).
pub open spec fn success_status(status: u16) -> bool {
    200 <= status <= 299
}

pub fn is_success(status: u16) -> (r: bool)
    ensures
        r == success_status(status),
{
    200 <= status && status <= 299
}

/// The body of an API error, `{"error": {"code": ..., "message": ...}}`, or
/// its bare form `{"error": <code>}`: its code and its message (none in the
/// bare form), if the body has one of those shapes.
pub open spec fn api_error_body(j: Json) -> Option<(Seq<char>, Option<Seq<char>>)> {
    if record_shaped(j, 1) {
        match field(j, 0, "error"@) {
            Some(Json::Str(code)) => Some((code@, None)),
            Some(inner) => if record_shaped(inner, 2) {
                match (
                    read_string(field(inner, 0, "code"@)),
                    read_defaulted_opt_string(field(inner, 1, "message"@)),
                ) {
                    (Some(code), Some(message)) => Some((code, message)),
                    _ => None,
                }
            } else {
                None
            },
            None => None,
        }
    } else {
        None
    }
}

/// The error a non-success response stands for. A body that is not the API's
/// JSON error envelope (nested or bare) (an HTML error page, a proxy's plain text) is never
/// shown: it becomes a generic `server_error`. Otherwise the server's own
/// message is passed through (or the generic sentence when it sent none), and
/// the known codes get their own variants.
pub open spec fn response_error_spec(status: u16, body: Seq<char>) -> ScribeErrorView {
    let parsed = match parsed_json(body) {
        Some(j) => api_error_body(j),
        None => None,
    };
    match parsed {
        None => ScribeErrorView::Api {
            status,
            code: "server_error"@,
            message: GENERIC_MESSAGE@,
        },
        Some((code, m)) => {
            let message = match m {
                Some(m) => m,
                None => GENERIC_MESSAGE@,
            };
            if code == "not_found"@ {
                ScribeErrorView::NotFound { message }
            } else if code == "forbidden"@ {
                ScribeErrorView::Forbidden { message }
            } else if code == "not_trashed"@ {
                ScribeErrorView::NotTrashed { message }
            } else if code == "conversion_not_complete"@ {
                ScribeErrorView::ConversionNotComplete { message }
            } else {
                ScribeErrorView::Api { status, code, message }
            }
        },
    }
}

/// Reads an API error body out of a parsed JSON value.
fn decode_api_error(j: &Json) -> (r: Option<(String, Option<String>)>)
    ensures
        r.deep_view() == api_error_body(*j),
{
    if !is_record_shaped(j, 1) {
        return None;
    }
    let inner = match field_ref(j, 0, "error") {
        Some(Json::Str(code)) => {
            return Some((code.clone(), None));
        },
        Some(inner) => inner,
        None => {
            return None;
        },
    };
    if !is_record_shaped(inner, 2) {
        return None;
    }
    let code = get_string(field_ref(inner, 0, "code"));
    let message = get_opt_string(field_ref(inner, 1, "message"), false);
    match (code, message) {
        (Some(code), Some(message)) => Some((code, message)),
        _ => None,
    }
}

/// The error a non-success response stands for (see [`response_error_spec`]).
pub fn response_error(status: u16, body: &str) -> (r: ScribeError)
    ensures
        r@ == response_error_spec(status, body@),
{
    let parsed = match parse_json(body) {
        Some(j) => decode_api_error(&j),
        None => None,
    };
    match parsed {
        None => ScribeError::Api {
            status,
            code: "server_error".to_owned(),
            message: GENERIC_MESSAGE.to_owned(),
        },
        Some((code, m)) => {
            let message = match m {
                Some(m) => m,
                None => GENERIC_MESSAGE.to_owned(),
            };
            if str_eq(code.as_str(), "not_found") {
                ScribeError::NotFound { message }
            } else if str_eq(code.as_str(), "forbidden") {
                ScribeError::Forbidden { message }
            } else if str_eq(code.as_str(), "not_trashed") {
                ScribeError::NotTrashed { message }
            } else if str_eq(code.as_str(), "conversion_not_complete") {
                ScribeError::ConversionNotComplete { message }
            } else {
                ScribeError::Api { status, code, message }
            }
        },
    }
}

/// Whether an HTTP status is a redirection (`3xx`).
pub open spec fn redirect_status(status: u16) -> bool {
    300 <= status <= 399
}

/// Where a download really lives, from a response read without following
/// redirects: the `Location` of a redirect; nothing when the server sends the
/// file itself (a success); otherwise the error the response stands for (a
/// redirect without a `Location` included).
pub open spec fn download_location_spec(
    status: u16,
    location: Option<Seq<char>>,
    body: Seq<char>,
) -> Result<Option<Seq<char>>, ScribeErrorView> {
    if success_status(status) {
        Ok(None)
    } else if redirect_status(status) && location is Some {
        Ok(location)
    } else {
        Err(response_error_spec(status, body))
    }
}

pub fn download_location(status: u16, location: Option<&str>, body: &str) -> (r: Result<
    Option<String>,
    ScribeError,
>)
    ensures
        match r {
            Ok(l) => download_location_spec(status, location.deep_view(), body@) == Ok::<
                Option<Seq<char>>,
                ScribeErrorView,
            >(l.deep_view()),
            Err(e) => download_location_spec(status, location.deep_view(), body@) == Err::<
                Option<Seq<char>>,
                ScribeErrorView,
            >(e@),
        },
{
    if is_success(status) {
        Ok(None)
    } else if 300 <= status && status <= 399 && location.is_some() {
        match location {
            Some(l) => Ok(Some(l.to_owned())),
            None => Ok(None),
        }
    } else {
        Err(response_error(status, body))
    }
}

} // verus!
