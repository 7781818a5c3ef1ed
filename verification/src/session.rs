//! The life of one authenticated request: refreshing the token first when it
//! is about to expire, and refreshing it once more and retrying once when the
//! server refuses it anyway. The requests themselves are sent from outside;
//! this decides what to do next after each of them.

use vstd::prelude::*;

use crate::error::{ScribeError, ScribeErrorView, SESSION_EXPIRED_MESSAGE};
use crate::token::{refresh_due, TokenSet, TokenSetView};

verus! {

/// How early to proactively refresh a token before it actually expires.
/// 5 minutes gives enough headroom for slow mobile networks and cold starts.
pub const REFRESH_SKEW_SECS: u64 = 300;

/// Where a request stands.
#[derive(Debug, Clone, Copy, PartialEq, Eq, Structural)]
pub enum AuthPhase {
    /// Nothing done yet.
    Start,
    /// Refreshing a token that is about to expire, before the first attempt.
    ProactiveRefresh,
    /// The first attempt is out.
    FirstAttempt,
    /// The first attempt was refused; refreshing before the retry.
    ForcedRefresh,
    /// The retry is out.
    Retry,
    /// Finished, one way or the other.
    Done,
}

/// What to do next.
#[derive(Debug, PartialEq, Eq)]
pub enum AuthAction {
    /// Exchange this refresh token for a new token set.
    Refresh { refresh_token: String },
    /// Send the request with this access token.
    Send { access_token: String },
    /// Stop: the last response (or connection attempt) is the answer.
    Finish,
    /// Stop with this error.
    Fail(ScribeError),
}

pub enum AuthActionView {
    Refresh { refresh_token: Seq<char> },
    Send { access_token: Seq<char> },
    Finish,
    Fail(ScribeErrorView),
}

impl View for AuthAction {
    type V = AuthActionView;

    open spec fn view(&self) -> AuthActionView {
        match self {
            AuthAction::Refresh { refresh_token } => AuthActionView::Refresh {
                refresh_token: refresh_token@,
            },
            AuthAction::Send { access_token } => AuthActionView::Send {
                access_token: access_token@,
            },
            AuthAction::Finish => AuthActionView::Finish,
            AuthAction::Fail(e) => AuthActionView::Fail(e@),
        }
    }
}

/// The first step: refresh first when the token expires within
/// [`REFRESH_SKEW_SECS`] of `now` and there is a refresh token to do it with;
/// otherwise send the current access token.
pub open spec fn begin_step(tokens: TokenSetView, now: int) -> (AuthPhase, AuthActionView) {
    if refresh_due(tokens.expires_at, now, REFRESH_SKEW_SECS as int) && tokens.refresh_token is Some {
        (
            AuthPhase::ProactiveRefresh,
            AuthActionView::Refresh { refresh_token: tokens.refresh_token->0 },
        )
    } else {
        (AuthPhase::FirstAttempt, AuthActionView::Send { access_token: tokens.access_token })
    }
}

/// After a refresh: on success, send the new access token (the first attempt
/// after a proactive refresh, the retry after a forced one); on failure, stop
/// with its error.
pub open spec fn refreshed_step(phase: AuthPhase, result: Result<TokenSetView, ScribeErrorView>) -> (
    AuthPhase,
    AuthActionView,
) {
    match result {
        Ok(t) => (
            if phase == AuthPhase::ProactiveRefresh {
                AuthPhase::FirstAttempt
            } else {
                AuthPhase::Retry
            },
            AuthActionView::Send { access_token: t.access_token },
        ),
        Err(e) => (AuthPhase::Done, AuthActionView::Fail(e)),
    }
}

/// After a response: a refusal of the first attempt forces a refresh with the
/// current refresh token, or fails as an expired session when there is none;
/// any other response, and any response to the retry, is the answer.
pub open spec fn responded_step(phase: AuthPhase, tokens: TokenSetView, rejected: bool) -> (
    AuthPhase,
    AuthActionView,
) {
    if phase == AuthPhase::FirstAttempt && rejected {
        match tokens.refresh_token {
            Some(rt) => (AuthPhase::ForcedRefresh, AuthActionView::Refresh { refresh_token: rt }),
            None => (
                AuthPhase::Done,
                AuthActionView::Fail(
                    ScribeErrorView::InvalidGrant { message: SESSION_EXPIRED_MESSAGE@ },
                ),
            ),
        }
    } else {
        (AuthPhase::Done, AuthActionView::Finish)
    }
}

/// Whether a response status refuses the token (`401 Unauthorized`).
pub open spec fn unauthorized(status: u16) -> bool {
    status == 401
}

pub fn is_unauthorized(status: u16) -> (r: bool)
    ensures
        r == unauthorized(status),
{
    status == 401
}

/// Whether an attempt to open the document channel was refused: a failed
/// WebSocket connection or handshake is how the server turns a token away
/// there, so it counts as a refusal; any other outcome does not.
pub fn connection_refused<T>(result: &Result<T, ScribeError>) -> (r: bool)
    ensures
        r <==> (result matches Err(e) && e is WebSocket),
{
    match result {
        Err(ScribeError::WebSocket) => true,
        _ => false,
    }
}

/// One authenticated request in progress.
#[derive(Debug)]
pub struct AuthedRequest {
    phase: AuthPhase,
}

impl AuthedRequest {
    pub closed spec fn phase_of(&self) -> AuthPhase {
        self.phase
    }

    pub fn new() -> (r: AuthedRequest)
        ensures
            r.phase_of() == AuthPhase::Start,
    {
        AuthedRequest { phase: AuthPhase::Start }
    }

    pub fn phase(&self) -> (r: AuthPhase)
        ensures
            r == self.phase_of(),
    {
        self.phase
    }

    /// The first step, with the current token set and time (Unix nanoseconds).
    pub fn begin(&mut self, tokens: &TokenSet, now: i128) -> (r: AuthAction)
        requires
            old(self).phase_of() == AuthPhase::Start,
        ensures
            (final(self).phase_of(), r@) == begin_step(tokens@, now as int),
    {
        if tokens.needs_refresh_at(REFRESH_SKEW_SECS, now) {
            match &tokens.refresh_token {
                Some(rt) => {
                    self.phase = AuthPhase::ProactiveRefresh;
                    return AuthAction::Refresh { refresh_token: rt.clone() };
                },
                None => {},
            }
        }
        self.phase = AuthPhase::FirstAttempt;
        AuthAction::Send { access_token: tokens.access_token.clone() }
    }

    /// After a refresh finished: a new token set replaces `tokens`.
    pub fn refreshed(&mut self, tokens: &mut TokenSet, result: Result<TokenSet, ScribeError>) -> (r:
        AuthAction)
        requires
            old(self).phase_of() == AuthPhase::ProactiveRefresh || old(self).phase_of()
                == AuthPhase::ForcedRefresh,
        ensures
            (final(self).phase_of(), r@) == refreshed_step(
                old(self).phase_of(),
                match result {
                    Ok(t) => Ok(t@),
                    Err(e) => Err(e@),
                },
            ),
            match result {
                Ok(t) => *final(tokens) == t,
                Err(_) => *final(tokens) == *old(tokens),
            },
    {
        match result {
            Ok(t) => {
                let access_token = t.access_token.clone();
                *tokens = t;
                self.phase = if self.phase == AuthPhase::ProactiveRefresh {
                    AuthPhase::FirstAttempt
                } else {
                    AuthPhase::Retry
                };
                AuthAction::Send { access_token }
            },
            Err(e) => {
                self.phase = AuthPhase::Done;
                AuthAction::Fail(e)
            },
        }
    }

    /// After a response (or connection attempt): `rejected` when it refused
    /// the token. `tokens` is the current token set.
    pub fn responded(&mut self, tokens: &TokenSet, rejected: bool) -> (r: AuthAction)
        requires
            old(self).phase_of() == AuthPhase::FirstAttempt || old(self).phase_of()
                == AuthPhase::Retry,
        ensures
            (final(self).phase_of(), r@) == responded_step(old(self).phase_of(), tokens@, rejected),
    {
        if self.phase == AuthPhase::FirstAttempt && rejected {
            match &tokens.refresh_token {
                Some(rt) => {
                    self.phase = AuthPhase::ForcedRefresh;
                    AuthAction::Refresh { refresh_token: rt.clone() }
                },
                None => {
                    self.phase = AuthPhase::Done;
                    AuthAction::Fail(
                        ScribeError::InvalidGrant { message: SESSION_EXPIRED_MESSAGE.to_owned() },
                    )
                },
            }
        } else {
            self.phase = AuthPhase::Done;
            AuthAction::Finish
        }
    }
}

/// A refusal of the retry is not retried again: whatever it was, the request
/// is over.
pub proof fn lemma_second_refusal_is_final(tokens: TokenSetView, rejected: bool)
    ensures
        responded_step(AuthPhase::Retry, tokens, rejected) == (
            AuthPhase::Done,
            AuthActionView::Finish,
        ),
{
}

/// A request is retried at most once, and only after a refusal: the retry is
/// reached only from a forced refresh, a forced refresh only from a refused
/// first attempt, and nothing leads back to the first attempt or the forced
/// refresh once the retry is out.
pub proof fn lemma_retry_only_after_refusal(
    phase: AuthPhase,
    tokens: TokenSetView,
    now: int,
    rejected: bool,
    result: Result<TokenSetView, ScribeErrorView>,
)
    ensures
        begin_step(tokens, now).0 != AuthPhase::Retry,
        begin_step(tokens, now).0 != AuthPhase::ForcedRefresh,
        (phase == AuthPhase::ProactiveRefresh || phase == AuthPhase::ForcedRefresh) && refreshed_step(
            phase,
            result,
        ).0 == AuthPhase::Retry ==> phase == AuthPhase::ForcedRefresh,
        (phase == AuthPhase::FirstAttempt || phase == AuthPhase::Retry) && responded_step(
            phase,
            tokens,
            rejected,
        ).0 == AuthPhase::ForcedRefresh ==> phase == AuthPhase::FirstAttempt && rejected,
        phase == AuthPhase::Retry ==> responded_step(phase, tokens, rejected).0 == AuthPhase::Done,
{
}

/// A refusal with no refresh token to recover with ends the request as an
/// expired session.
pub proof fn lemma_refusal_without_refresh_token(tokens: TokenSetView)
    requires
        tokens.refresh_token is None,
    ensures
        responded_step(AuthPhase::FirstAttempt, tokens, true) == (
            AuthPhase::Done,
            AuthActionView::Fail(ScribeErrorView::InvalidGrant { message: SESSION_EXPIRED_MESSAGE@ }),
        ),
{
}

/// A token that is about to expire is refreshed before the first attempt when
/// it can be; a token that is not is sent as it is.
pub proof fn lemma_proactive_refresh(tokens: TokenSetView, now: int)
    ensures
        refresh_due(tokens.expires_at, now, REFRESH_SKEW_SECS as int) && tokens.refresh_token is Some
            ==> begin_step(tokens, now).1 == (AuthActionView::Refresh {
            refresh_token: tokens.refresh_token->0,
        }),
        !refresh_due(tokens.expires_at, now, REFRESH_SKEW_SECS as int) ==> begin_step(tokens, now).1
            == (AuthActionView::Send { access_token: tokens.access_token }),
{
}

/// How many more times a request in `phase` may still go out.
pub open spec fn sends_left(phase: AuthPhase) -> nat {
    match phase {
        AuthPhase::Start => 2,
        AuthPhase::ProactiveRefresh => 2,
        AuthPhase::FirstAttempt => 1,
        AuthPhase::ForcedRefresh => 1,
        AuthPhase::Retry => 0,
        AuthPhase::Done => 0,
    }
}

/// How many steps a request in `phase` may still take.
pub open spec fn steps_left(phase: AuthPhase) -> nat {
    match phase {
        AuthPhase::Start => 5,
        AuthPhase::ProactiveRefresh => 4,
        AuthPhase::FirstAttempt => 3,
        AuthPhase::ForcedRefresh => 2,
        AuthPhase::Retry => 1,
        AuthPhase::Done => 0,
    }
}

pub open spec fn sent(a: AuthActionView) -> nat {
    if a is Send {
        1
    } else {
        0
    }
}

/// Every step moves a request strictly forward, so it ends within five
/// steps; and a step that sends the request uses up one of the two sends it
/// started with, so a request goes out at most twice.
pub proof fn lemma_at_most_two_sends(
    phase: AuthPhase,
    tokens: TokenSetView,
    now: int,
    rejected: bool,
    result: Result<TokenSetView, ScribeErrorView>,
)
    ensures
        steps_left(begin_step(tokens, now).0) < steps_left(AuthPhase::Start),
        sends_left(begin_step(tokens, now).0) + sent(begin_step(tokens, now).1) <= sends_left(
            AuthPhase::Start,
        ),
        (phase == AuthPhase::ProactiveRefresh || phase == AuthPhase::ForcedRefresh) ==> steps_left(
            refreshed_step(phase, result).0,
        ) < steps_left(phase) && sends_left(refreshed_step(phase, result).0) + sent(
            refreshed_step(phase, result).1,
        ) <= sends_left(phase),
        (phase == AuthPhase::FirstAttempt || phase == AuthPhase::Retry) ==> steps_left(
            responded_step(phase, tokens, rejected).0,
        ) < steps_left(phase) && sends_left(responded_step(phase, tokens, rejected).0) + sent(
            responded_step(phase, tokens, rejected).1,
        ) <= sends_left(phase),
{
}

} // verus!
