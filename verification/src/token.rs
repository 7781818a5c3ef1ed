//! OAuth token sets: when one needs refreshing, and how a token endpoint
//! response becomes one.

use vstd::prelude::*;

use crate::api::{is_success, success_status};
use crate::error::{ScribeError, ScribeErrorView, GENERIC_MESSAGE};
use crate::json::{
    field, field_ref, get_opt_i64, get_opt_string, get_string, is_record_shaped, parse_json,
    parsed_json, read_opt_i64, read_opt_string, read_string, record_shaped, Json,
};
use crate::text::str_eq;

verus! {

/// The earliest instant a date-time can hold, as Unix seconds
/// (`-9999-01-01T00:00:00Z`).
pub const MIN_UNIX_TIME: i64 = -377705116800;

/// The latest whole second a date-time can hold, as Unix seconds
/// (`9999-12-31T23:59:59Z`).
pub const MAX_UNIX_TIME: i64 = 253402300799;

/// Whether a Unix time lies in the range a date-time can hold
/// (`OffsetDateTime::from_unix_timestamp` succeeds exactly there).
pub open spec fn representable(t: int) -> bool {
    MIN_UNIX_TIME <= t <= MAX_UNIX_TIME
}

pub fn is_representable(t: i64) -> (r: bool)
    ensures
        r == representable(t as int),
{
    MIN_UNIX_TIME <= t && t <= MAX_UNIX_TIME
}

/// Nanoseconds in a second.
pub const NANOS_PER_SECOND: i128 = 1000000000;

/// The earliest instant a date-time can hold, as Unix nanoseconds.
pub const MIN_UNIX_NANOS: i128 = -377705116800000000000;

/// The latest instant a date-time can hold, as Unix nanoseconds
/// (`9999-12-31T23:59:59.999999999Z`).
pub const MAX_UNIX_NANOS: i128 = 253402300799999999999;

/// Whether an instant in Unix nanoseconds is one a date-time can hold.
pub open spec fn representable_nanos(t: int) -> bool {
    MIN_UNIX_NANOS <= t <= MAX_UNIX_NANOS
}

pub fn is_representable_nanos(t: i128) -> (r: bool)
    ensures
        r == representable_nanos(t as int),
{
    MIN_UNIX_NANOS <= t && t <= MAX_UNIX_NANOS
}

/// `time::OffsetDateTime::now_utc().unix_timestamp_nanos()`: the current time
/// in Unix nanoseconds. The clock decides the value; it is always one a
/// date-time can hold.
#[verifier::external_body]
pub fn now_unix_nanos() -> (r: i128)
    ensures
        representable_nanos(r as int),
{
    time::OffsetDateTime::now_utc().unix_timestamp_nanos()
}

/// The whole Unix seconds of an instant (`OffsetDateTime::unix_timestamp`):
/// its nanoseconds divided by a billion, rounded down.
pub fn whole_seconds(nanos: i128) -> (r: i64)
    requires
        representable_nanos(nanos as int),
    ensures
        r as int == nanos as int / NANOS_PER_SECOND as int,
        representable(r as int),
{
    let q: i128 = if nanos >= 0 {
        nanos / NANOS_PER_SECOND
    } else {
        let m: i128 = -(nanos + 1);
        let mq: i128 = m / NANOS_PER_SECOND;
        proof {
            let d = NANOS_PER_SECOND as int;
            vstd::arithmetic::div_mod::lemma_fundamental_div_mod(m as int, d);
            let mr = (m as int) % d;
            assert(nanos as int == (-(mq as int) - 1) * d + (d - 1 - mr)) by (nonlinear_arith)
                requires
                    m as int == -(nanos as int + 1),
                    m as int == d * (mq as int) + mr,
            ;
            vstd::arithmetic::div_mod::lemma_fundamental_div_mod_converse(
                nanos as int,
                d,
                -(mq as int) - 1,
                d - 1 - mr,
            );
        }
        -mq - 1
    };
    proof {
        let d = NANOS_PER_SECOND as int;
        assert(MIN_UNIX_NANOS as int / d == MIN_UNIX_TIME as int);
        assert(MAX_UNIX_NANOS as int / d == MAX_UNIX_TIME as int);
        vstd::arithmetic::div_mod::lemma_div_is_ordered(MIN_UNIX_NANOS as int, nanos as int, d);
        vstd::arithmetic::div_mod::lemma_div_is_ordered(nanos as int, MAX_UNIX_NANOS as int, d);
    }
    q as i64
}

/// The instant a whole number of Unix seconds stands for, in nanoseconds.
pub fn nanos_of_seconds(secs: i64) -> (r: i128)
    ensures
        r as int == secs as int * NANOS_PER_SECOND as int,
{
    (secs as i128) * NANOS_PER_SECOND
}

/// An access/refresh token pair returned by `POST /oauth/token`.
/// `expires_at` is the access token's expiry in Unix nanoseconds, or `None`
/// when the server gave none.
#[derive(Debug, Clone, PartialEq, Eq)]
pub struct TokenSet {
    pub access_token: String,
    pub refresh_token: Option<String>,
    pub expires_at: Option<i128>,
}

pub struct TokenSetView {
    pub access_token: Seq<char>,
    pub refresh_token: Option<Seq<char>>,
    pub expires_at: Option<i128>,
}

impl View for TokenSet {
    type V = TokenSetView;

    open spec fn view(&self) -> TokenSetView {
        TokenSetView {
            access_token: self.access_token@,
            refresh_token: self.refresh_token.deep_view(),
            expires_at: self.expires_at,
        }
    }
}

/// Whether a token expiring at `expires_at` (Unix nanoseconds) is due for a
/// refresh at `now`, allowing `skew` seconds of headroom: it is when it
/// expires within `skew` of `now` (or already has), and never when it has no
/// expiry.
pub open spec fn refresh_due(expires_at: Option<i128>, now: int, skew: int) -> bool {
    match expires_at {
        None => false,
        Some(t) => t <= now + skew * NANOS_PER_SECOND,
    }
}

impl TokenSet {
    /// Whether this token will expire within `skew_secs` of `now` (Unix
    /// nanoseconds).
    pub fn needs_refresh_at(&self, skew_secs: u64, now: i128) -> (r: bool)
        requires
            skew_secs <= i64::MAX,
        ensures
            r == refresh_due(self.expires_at, now as int, skew_secs as int),
    {
        match self.expires_at {
            None => false,
            Some(t) => {
                let headroom: i128 = (skew_secs as i128) * NANOS_PER_SECOND;
                match now.checked_add(headroom) {
                    Some(limit) => t <= limit,
                    None => true,
                }
            },
        }
    }

    /// Whether this token will expire within `skew_secs` of the current time.
    /// True of every token with an expiry that has passed; never true of a
    /// token without one.
    pub fn needs_refresh(&self, skew_secs: u64) -> (r: bool)
        requires
            skew_secs <= i64::MAX,
        ensures
            self.expires_at is None ==> !r,
            exists|now: i128| representable_nanos(now as int) && r == refresh_due(
                self.expires_at,
                now as int,
                skew_secs as int,
            ),
    {
        let now = now_unix_nanos();
        self.needs_refresh_at(skew_secs, now)
    }
}

/// The fields of a successful `POST /oauth/token` response.
#[derive(Debug, Clone, PartialEq, Eq)]
pub struct TokenResponse {
    pub access_token: String,
    pub refresh_token: Option<String>,
    /// Seconds until the access token expires.
    pub expires_in: Option<i64>,
}

/// Whether the expiry a response gives, counted from `now` (Unix
/// nanoseconds), is one a date-time can hold.
pub open spec fn expiry_in_range(now: int, expires_in: Option<i64>) -> bool {
    match expires_in {
        None => true,
        Some(secs) => representable_nanos(now + secs * NANOS_PER_SECOND),
    }
}

/// The expiry `secs` seconds after `now`.
pub open spec fn expiry_after(now: int, secs: i64) -> i128 {
    (now + secs * NANOS_PER_SECOND) as i128
}

impl TokenSet {
    /// The token set a response describes, its expiry counted from `now`
    /// (Unix nanoseconds).
    pub fn from_response(response: TokenResponse, now: i128) -> (r: TokenSet)
        requires
            expiry_in_range(now as int, response.expires_in),
        ensures
            r.access_token == response.access_token,
            r.refresh_token == response.refresh_token,
            r.expires_at == (match response.expires_in {
                None => None,
                Some(secs) => Some(expiry_after(now as int, secs)),
            }),
    {
        let expires_at = match response.expires_in {
            None => None,
            Some(secs) => Some(now + (secs as i128) * NANOS_PER_SECOND),
        };
        TokenSet {
            access_token: response.access_token,
            refresh_token: response.refresh_token,
            expires_at,
        }
    }
}

/// A token response body: `access_token` (a string), `refresh_token` (an
/// optional string) and `expires_in` (an optional integer).
pub open spec fn token_response_body(j: Json) -> Option<TokenResponseView> {
    if record_shaped(j, 3) {
        match (
            read_string(field(j, 0, "access_token"@)),
            read_opt_string(field(j, 1, "refresh_token"@), j is Array),
            read_opt_i64(field(j, 2, "expires_in"@), j is Array),
        ) {
            (Some(a), Some(r), Some(e)) => Some(
                TokenResponseView { access_token: a, refresh_token: r, expires_in: e },
            ),
            _ => None,
        }
    } else {
        None
    }
}

pub struct TokenResponseView {
    pub access_token: Seq<char>,
    pub refresh_token: Option<Seq<char>>,
    pub expires_in: Option<i64>,
}

impl View for TokenResponse {
    type V = TokenResponseView;

    open spec fn view(&self) -> TokenResponseView {
        TokenResponseView {
            access_token: self.access_token@,
            refresh_token: self.refresh_token.deep_view(),
            expires_in: self.expires_in,
        }
    }
}

/// The token response a body holds, if it holds one.
pub open spec fn token_response_text(body: Seq<char>) -> Option<TokenResponseView> {
    match parsed_json(body) {
        Some(j) => token_response_body(j),
        None => None,
    }
}

/// Reads a token response out of a response body.
pub fn parse_token_response(body: &str) -> (r: Option<TokenResponse>)
    ensures
        match r {
            Some(t) => token_response_text(body@) == Some(t@),
            None => token_response_text(body@) is None,
        },
{
    let j = match parse_json(body) {
        Some(j) => j,
        None => {
            return None;
        },
    };
    if !is_record_shaped(&j, 3) {
        return None;
    }
    let in_array = match &j {
        Json::Array(_) => true,
        _ => false,
    };
    let access_token = get_string(field_ref(&j, 0, "access_token"));
    let refresh_token = get_opt_string(field_ref(&j, 1, "refresh_token"), in_array);
    let expires_in = get_opt_i64(field_ref(&j, 2, "expires_in"), in_array);
    match (access_token, refresh_token, expires_in) {
        (Some(a), Some(r), Some(e)) => Some(
            TokenResponse { access_token: a, refresh_token: r, expires_in: e },
        ),
        _ => None,
    }
}

/// The error a failed token request stands for. `message` is the server's
/// own sentence, its `error_description`, or the generic sentence when it
/// sent none; the OAuth `error` code (or, for a body that is not an OAuth
/// error, the body itself) goes in `code` only, never in what is shown.
/// `invalid_grant` gets its own variant.
pub open spec fn token_error_spec(status: u16, body: Seq<char>) -> ScribeErrorView {
    let error = match parsed_json(body) {
        Some(j) => token_error_body(j),
        None => None,
    };
    match error {
        Some((e, d)) => {
            let message = match d {
                Some(d) => d,
                None => GENERIC_MESSAGE@,
            };
            if e == "invalid_grant"@ {
                ScribeErrorView::InvalidGrant { message }
            } else {
                ScribeErrorView::Api { status, code: e, message }
            }
        },
        None => ScribeErrorView::Api { status, code: body, message: GENERIC_MESSAGE@ },
    }
}

/// The `error` code and `error_description` of an OAuth error body
/// `{"error": ..., "error_description": ...}`.
pub open spec fn token_error_body(j: Json) -> Option<(Seq<char>, Option<Seq<char>>)> {
    if record_shaped(j, 2) {
        match (
            read_string(field(j, 0, "error"@)),
            read_opt_string(field(j, 1, "error_description"@), j is Array),
        ) {
            (Some(e), Some(d)) => Some((e, d)),
            _ => None,
        }
    } else {
        None
    }
}

pub fn token_error(status: u16, body: &str) -> (r: ScribeError)
    ensures
        r@ == token_error_spec(status, body@),
{
    let error = match parse_json(body) {
        Some(j) => {
            if !is_record_shaped(&j, 2) {
                None
            } else {
                let in_array = match &j {
                    Json::Array(_) => true,
                    _ => false,
                };
                let e = get_string(field_ref(&j, 0, "error"));
                let d = get_opt_string(field_ref(&j, 1, "error_description"), in_array);
                match (e, d) {
                    (Some(e), Some(d)) => Some((e, d)),
                    _ => None,
                }
            }
        },
        None => None,
    };
    match error {
        Some((e, d)) => {
            let message = match d {
                Some(d) => d,
                None => GENERIC_MESSAGE.to_owned(),
            };
            if str_eq(e.as_str(), "invalid_grant") {
                ScribeError::InvalidGrant { message }
            } else {
                ScribeError::Api { status, code: e, message }
            }
        },
        None => ScribeError::Api {
            status,
            code: body.to_owned(),
            message: GENERIC_MESSAGE.to_owned(),
        },
    }
}

/// What a token endpoint response comes to, the expiry counted from `now`:
/// on a success status, the token set its body describes (a body that is not
/// a token response is a transport-level `Http` failure, as reading it as JSON
/// failed); on any other status, the error [`token_error_spec`] gives. `None`
/// when the server gives an expiry too far off for a date-time to hold.
pub open spec fn token_outcome(status: u16, body: Seq<char>, now: int) -> Option<
    Result<TokenSetView, ScribeErrorView>,
> {
    if success_status(status) {
        match token_response_text(body) {
            Some(t) => if expiry_in_range(now, t.expires_in) {
                Some(
                    Ok(
                        TokenSetView {
                            access_token: t.access_token,
                            refresh_token: t.refresh_token,
                            expires_at: match t.expires_in {
                                None => None,
                                Some(secs) => Some(expiry_after(now, secs)),
                            },
                        },
                    ),
                )
            } else {
                None
            },
            None => Some(Err(ScribeErrorView::Http)),
        }
    } else {
        Some(Err(token_error_spec(status, body)))
    }
}

pub fn token_response_outcome(status: u16, body: &str, now: i128) -> (r: Option<
    Result<TokenSet, ScribeError>,
>)
    ensures
        match r {
            None => token_outcome(status, body@, now as int) is None,
            Some(Ok(t)) => token_outcome(status, body@, now as int) == Some(
                Ok::<TokenSetView, ScribeErrorView>(t@),
            ),
            Some(Err(e)) => token_outcome(status, body@, now as int) == Some(
                Err::<TokenSetView, ScribeErrorView>(e@),
            ),
        },
{
    if is_success(status) {
        match parse_token_response(body) {
            Some(t) => {
                let in_range = match t.expires_in {
                    None => true,
                    Some(secs) => match now.checked_add((secs as i128) * NANOS_PER_SECOND) {
                        Some(t) => is_representable_nanos(t),
                        None => false,
                    },
                };
                if in_range {
                    Some(Ok(TokenSet::from_response(t, now)))
                } else {
                    None
                }
            },
            None => Some(Err(ScribeError::Http)),
        }
    } else {
        Some(Err(token_error(status, body)))
    }
}

/// What a revocation response comes to: nothing on success, else the error
/// its body describes, read as the token endpoint's errors are.
pub fn revoke_outcome(status: u16, body: &str) -> (r: Result<(), ScribeError>)
    ensures
        success_status(status) ==> r is Ok,
        !success_status(status) ==> (r matches Err(e) && e@ == token_error_spec(status, body@)),
{
    if is_success(status) {
        Ok(())
    } else {
        Err(token_error(status, body))
    }
}

} // verus!
