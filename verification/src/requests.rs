//! What each request of the API is made of: its method, its path and query,
//! and its body. The values here are decided by the library; sending them is
//! the caller's part.

use vstd::prelude::*;

use crate::error::{ScribeError, ScribeErrorView, GENERIC_MESSAGE};
use crate::json::{json_string_literal, quote_json};
use crate::model::{format_name, DocumentSource, OutputFormat};
use crate::pkce::PkceChallenge;
use crate::text::{push_str, str_eq};

verus! {

/// Path of the web page where a user requests, or cancels, deletion of their
/// own account. Mounted under `/settings`; reach it through
/// [`delete_account_url`] so the browser arrives already signed in.
pub const DELETE_ACCOUNT_PATH: &'static str = "/settings/delete_account";

/// `Url::parse(url)`, then `set_path(path)`, read back with `Url::as_str`;
/// `None` when `url` does not parse.
pub uninterp spec fn url_with_path(url: Seq<char>, path: Seq<char>) -> Option<Seq<char>>;

/// `Url::parse(url)`, then `query_pairs_mut().extend_pairs(pairs)` (each pair
/// form-urlencoded and appended in order), read back with `Url::as_str`;
/// `None` when `url` does not parse.
pub uninterp spec fn url_with_query(
    url: Seq<char>,
    pairs: Seq<(Seq<char>, Seq<char>)>,
) -> Option<Seq<char>>;

/// `Url::parse(url)`, then `set_scheme(scheme)`, read back with `Url::as_str`;
/// `None` when `url` does not parse or the scheme cannot be set on it.
pub uninterp spec fn url_with_scheme(url: Seq<char>, scheme: Seq<char>) -> Option<Seq<char>>;

/// `Url::parse(url)`, then `Url::scheme`; `None` when `url` does not parse.
pub uninterp spec fn url_scheme_of(url: Seq<char>) -> Option<Seq<char>>;

/// Sets the path of the URL `url` (`url::Url::set_path`, which percent-encodes
/// what a path cannot hold). The result is named, not stated.
#[verifier::external_body]
fn set_url_path(url: &str, path: &str) -> (r: Option<String>)
    ensures
        r.deep_view() == url_with_path(url@, path@),
{
    let mut u = url::Url::parse(url).ok()?;
    u.set_path(path);
    Some(u.into())
}

/// Appends `pairs` to the query of the URL `url`
/// (`url::Url::query_pairs_mut().extend_pairs`). The result is named, not stated.
#[verifier::external_body]
fn append_url_query(url: &str, pairs: &Vec<(String, String)>) -> (r: Option<String>)
    ensures
        r.deep_view() == url_with_query(url@, pairs.deep_view()),
{
    let mut u = url::Url::parse(url).ok()?;
    u.query_pairs_mut().extend_pairs(pairs.iter());
    Some(u.into())
}

/// Replaces the scheme of the URL `url` (`url::Url::set_scheme`, which refuses
/// to move between a special scheme such as `https` and a non-special one).
/// The result is named, not stated.
#[verifier::external_body]
fn set_url_scheme(url: &str, scheme: &str) -> (r: Option<String>)
    ensures
        r.deep_view() == url_with_scheme(url@, scheme@),
{
    let mut u = url::Url::parse(url).ok()?;
    u.set_scheme(scheme).ok()?;
    Some(u.into())
}

/// The scheme of the URL `url` (`url::Url::scheme`, lower-cased by parsing).
/// The result is named, not stated.
#[verifier::external_body]
fn url_scheme(url: &str) -> (r: Option<String>)
    ensures
        r.deep_view() == url_scheme_of(url@),
{
    url::Url::parse(url).ok().map(|u| u.scheme().to_owned())
}

/// An HTTP method.
#[derive(Debug, Clone, Copy, PartialEq, Eq)]
pub enum Method {
    Get,
    Post,
    Patch,
    Delete,
}

/// Where a request goes, relative to the server's base URL.
#[derive(Debug, Clone, PartialEq, Eq)]
pub struct Endpoint {
    pub method: Method,
    pub path: String,
    pub query: Vec<(String, String)>,
}

pub struct EndpointView {
    pub method: Method,
    pub path: Seq<char>,
    pub query: Seq<(Seq<char>, Seq<char>)>,
}

impl View for Endpoint {
    type V = EndpointView;

    open spec fn view(&self) -> EndpointView {
        EndpointView { method: self.method, path: self.path@, query: self.query.deep_view() }
    }
}

/// The base URL with its path replaced by `path` and, when there is any
/// query, `query` appended to it.
pub open spec fn resolved_url(
    base: Seq<char>,
    path: Seq<char>,
    query: Seq<(Seq<char>, Seq<char>)>,
) -> Option<Seq<char>> {
    match url_with_path(base, path) {
        None => None,
        Some(u) => if query.len() == 0 {
            Some(u)
        } else {
            url_with_query(u, query)
        },
    }
}

/// The absolute URL of `endpoint` on the server at `base`, or `None` when
/// `base` is not a URL.
pub fn endpoint_url(base: &str, endpoint: &Endpoint) -> (r: Option<String>)
    ensures
        r.deep_view() == resolved_url(base@, endpoint@.path, endpoint@.query),
{
    match set_url_path(base, &endpoint.path) {
        None => None,
        Some(u) => {
            if endpoint.query.len() == 0 {
                Some(u)
            } else {
                append_url_query(&u, &endpoint.query)
            }
        },
    }
}

fn endpoint(method: Method, path: String) -> (r: Endpoint)
    ensures
        r@.method == method,
        r@.path == path@,
        r@.query == Seq::<(Seq<char>, Seq<char>)>::empty(),
{
    let query: Vec<(String, String)> = Vec::new();
    let r = Endpoint { method, path, query };
    assert(r@.query =~= Seq::<(Seq<char>, Seq<char>)>::empty());
    r
}

/// `"/api/documents/" + document_id + suffix`.
pub open spec fn document_path(document_id: Seq<char>, suffix: Seq<char>) -> Seq<char> {
    "/api/documents/"@ + document_id + suffix
}

fn document_path_text(document_id: &str, suffix: &str) -> (r: String)
    ensures
        r@ == document_path(document_id@, suffix@),
{
    let mut s = "/api/documents/".to_owned();
    push_str(&mut s, document_id);
    push_str(&mut s, suffix);
    s
}

/// `POST /api/documents`, with the form of [`document_form`].
pub fn create_document() -> (r: Endpoint)
    ensures
        r@.method == Method::Post,
        r@.path == "/api/documents"@,
        r@.query.len() == 0,
{
    endpoint(Method::Post, "/api/documents".to_owned())
}

/// `GET /api/documents`.
pub fn list_documents() -> (r: Endpoint)
    ensures
        r@.method == Method::Get,
        r@.path == "/api/documents"@,
        r@.query.len() == 0,
{
    endpoint(Method::Get, "/api/documents".to_owned())
}

/// `POST /api/documents/{document_id}/trash`.
pub fn trash_document(document_id: &str) -> (r: Endpoint)
    ensures
        r@.method == Method::Post,
        r@.path == document_path(document_id@, "/trash"@),
        r@.query.len() == 0,
{
    endpoint(Method::Post, document_path_text(document_id, "/trash"))
}

/// `DELETE /api/documents/{document_id}`.
pub fn delete_document_permanently(document_id: &str) -> (r: Endpoint)
    ensures
        r@.method == Method::Delete,
        r@.path == document_path(document_id@, ""@),
        r@.query.len() == 0,
{
    endpoint(Method::Delete, document_path_text(document_id, ""))
}

/// `POST /api/documents/{document_id}/recover`.
pub fn recover_document(document_id: &str) -> (r: Endpoint)
    ensures
        r@.method == Method::Post,
        r@.path == document_path(document_id@, "/recover"@),
        r@.query.len() == 0,
{
    endpoint(Method::Post, document_path_text(document_id, "/recover"))
}

/// `GET /api/documents/trash`.
pub fn list_trashed_documents() -> (r: Endpoint)
    ensures
        r@.method == Method::Get,
        r@.path == "/api/documents/trash"@,
        r@.query.len() == 0,
{
    endpoint(Method::Get, "/api/documents/trash".to_owned())
}

/// `POST /api/documents/{document_id}/feedback`, with the body of
/// [`feedback_body`].
pub fn submit_document_feedback(document_id: &str) -> (r: Endpoint)
    ensures
        r@.method == Method::Post,
        r@.path == document_path(document_id@, "/feedback"@),
        r@.query.len() == 0,
{
    endpoint(Method::Post, document_path_text(document_id, "/feedback"))
}

/// `GET /api/documents/{document_id}/outputs`.
pub fn list_outputs(document_id: &str) -> (r: Endpoint)
    ensures
        r@.method == Method::Get,
        r@.path == document_path(document_id@, "/outputs"@),
        r@.query.len() == 0,
{
    endpoint(Method::Get, document_path_text(document_id, "/outputs"))
}

/// `GET /api/documents/{document_id}/outputs/{format}/download`.
pub fn download_output(document_id: &str, format: OutputFormat) -> (r: Endpoint)
    ensures
        r@.method == Method::Get,
        r@.path == document_path(document_id@, "/outputs/"@ + format_name(format) + "/download"@),
        r@.query.len() == 0,
{
    let mut suffix = "/outputs/".to_owned();
    push_str(&mut suffix, format.as_str());
    push_str(&mut suffix, "/download");
    endpoint(Method::Get, document_path_text(document_id, &suffix))
}

/// `GET /api/documents/{document_id}/settings`.
pub fn get_settings(document_id: &str) -> (r: Endpoint)
    ensures
        r@.method == Method::Get,
        r@.path == document_path(document_id@, "/settings"@),
        r@.query.len() == 0,
{
    endpoint(Method::Get, document_path_text(document_id, "/settings"))
}

/// `PATCH /api/documents/{document_id}/settings`.
pub fn update_settings(document_id: &str) -> (r: Endpoint)
    ensures
        r@.method == Method::Patch,
        r@.path == document_path(document_id@, "/settings"@),
        r@.query.len() == 0,
{
    endpoint(Method::Patch, document_path_text(document_id, "/settings"))
}

/// `PATCH /api/documents/{document_id}`, with the body of [`rename_body`].
pub fn rename_document(document_id: &str) -> (r: Endpoint)
    ensures
        r@.method == Method::Patch,
        r@.path == document_path(document_id@, ""@),
        r@.query.len() == 0,
{
    endpoint(Method::Patch, document_path_text(document_id, ""))
}

/// `GET /api/document_settings`: the account's default settings.
pub fn default_settings() -> (r: Endpoint)
    ensures
        r@.method == Method::Get,
        r@.path == "/api/document_settings"@,
        r@.query.len() == 0,
{
    endpoint(Method::Get, "/api/document_settings".to_owned())
}

/// `PATCH /api/document_settings`.
pub fn update_default_settings() -> (r: Endpoint)
    ensures
        r@.method == Method::Patch,
        r@.path == "/api/document_settings"@,
        r@.query.len() == 0,
{
    endpoint(Method::Patch, "/api/document_settings".to_owned())
}

/// `POST /api/devices`, with the body of [`register_device_body`].
pub fn register_device() -> (r: Endpoint)
    ensures
        r@.method == Method::Post,
        r@.path == "/api/devices"@,
        r@.query.len() == 0,
{
    endpoint(Method::Post, "/api/devices".to_owned())
}

/// `DELETE /api/devices/{token}`.
pub fn unregister_device(token: &str) -> (r: Endpoint)
    ensures
        r@.method == Method::Delete,
        r@.path == "/api/devices/"@ + token@,
        r@.query.len() == 0,
{
    let mut path = "/api/devices/".to_owned();
    push_str(&mut path, token);
    endpoint(Method::Delete, path)
}

/// `GET /api/notification_settings`.
pub fn get_notification_settings() -> (r: Endpoint)
    ensures
        r@.method == Method::Get,
        r@.path == "/api/notification_settings"@,
        r@.query.len() == 0,
{
    endpoint(Method::Get, "/api/notification_settings".to_owned())
}

/// `PATCH /api/notification_settings`, with the body of
/// [`notification_settings_body`].
pub fn update_notification_settings() -> (r: Endpoint)
    ensures
        r@.method == Method::Patch,
        r@.path == "/api/notification_settings"@,
        r@.query.len() == 0,
{
    endpoint(Method::Patch, "/api/notification_settings".to_owned())
}

/// `GET /api/account_info`.
pub fn get_account_info() -> (r: Endpoint)
    ensures
        r@.method == Method::Get,
        r@.path == "/api/account_info"@,
        r@.query.len() == 0,
{
    endpoint(Method::Get, "/api/account_info".to_owned())
}

/// Which list of conversion options to fetch from `/api/settings/...`.
#[derive(Debug, Clone, Copy, PartialEq, Eq)]
pub enum SettingsCatalog {
    Languages,
    Dialects,
    BrailleTables,
    Voices,
}

pub open spec fn catalog_name(c: SettingsCatalog) -> Seq<char> {
    match c {
        SettingsCatalog::Languages => "languages"@,
        SettingsCatalog::Dialects => "dialects"@,
        SettingsCatalog::BrailleTables => "braille_tables"@,
        SettingsCatalog::Voices => "voices"@,
    }
}

/// `GET /api/settings/{languages|dialects|braille_tables|voices}`.
pub fn settings_catalog(catalog: SettingsCatalog) -> (r: Endpoint)
    ensures
        r@.method == Method::Get,
        r@.path == "/api/settings/"@ + catalog_name(catalog),
        r@.query.len() == 0,
{
    let mut path = "/api/settings/".to_owned();
    let name = match catalog {
        SettingsCatalog::Languages => "languages",
        SettingsCatalog::Dialects => "dialects",
        SettingsCatalog::BrailleTables => "braille_tables",
        SettingsCatalog::Voices => "voices",
    };
    push_str(&mut path, name);
    endpoint(Method::Get, path)
}

/// A name/value pair, as text.
fn pair(name: &str, value: &str) -> (r: (String, String))
    ensures
        r.deep_view() == (name@, value@),
{
    (name.to_owned(), value.to_owned())
}

/// The query of the authorization URL.
pub open spec fn authorization_query(
    client_id: Seq<char>,
    redirect_uri: Seq<char>,
    challenge: Seq<char>,
) -> Seq<(Seq<char>, Seq<char>)> {
    seq![
        ("response_type"@, "code"@),
        ("client_id"@, client_id),
        ("redirect_uri"@, redirect_uri),
        ("code_challenge"@, challenge),
        ("code_challenge_method"@, "S256"@),
    ]
}

/// `GET /oauth/authorize`, asking for an authorization code for `client_id`,
/// returned to `redirect_uri`, bound to the S256 `challenge`.
pub fn authorization(client_id: &str, redirect_uri: &str, challenge: &str) -> (r: Endpoint)
    ensures
        r@.method == Method::Get,
        r@.path == "/oauth/authorize"@,
        r@.query == authorization_query(client_id@, redirect_uri@, challenge@),
{
    let mut query: Vec<(String, String)> = Vec::new();
    query.push(pair("response_type", "code"));
    query.push(pair("client_id", client_id));
    query.push(pair("redirect_uri", redirect_uri));
    query.push(pair("code_challenge", challenge));
    query.push(pair("code_challenge_method", "S256"));
    let r = Endpoint { method: Method::Get, path: "/oauth/authorize".to_owned(), query };
    assert(r@.query =~= authorization_query(client_id@, redirect_uri@, challenge@));
    r
}

/// The URL the user's browser should be sent to, on the server at `base`, to
/// authorize `client_id` with the PKCE `challenge`; `None` when `base` is not
/// a URL. `redirect_uri` must be one registered for `client_id` server-side.
pub fn authorization_url_with_challenge(
    base: &str,
    client_id: &str,
    redirect_uri: &str,
    challenge: &str,
) -> (r: Option<String>)
    ensures
        r.deep_view() == resolved_url(
            base@,
            "/oauth/authorize"@,
            authorization_query(client_id@, redirect_uri@, challenge@),
        ),
{
    endpoint_url(base, &authorization(client_id, redirect_uri, challenge))
}

/// As [`authorization_url_with_challenge`], with the challenge of `pkce`.
pub fn authorization_url(base: &str, client_id: &str, redirect_uri: &str, pkce: &PkceChallenge) -> (r:
    Option<String>)
    ensures
        r.deep_view() == resolved_url(
            base@,
            "/oauth/authorize"@,
            authorization_query(client_id@, redirect_uri@, pkce.challenge_text()),
        ),
{
    authorization_url_with_challenge(base, client_id, redirect_uri, pkce.challenge())
}

/// `POST /oauth/token`, with a form of [`exchange_code_form`] or
/// [`refresh_form`].
pub fn token() -> (r: Endpoint)
    ensures
        r@.method == Method::Post,
        r@.path == "/oauth/token"@,
        r@.query.len() == 0,
{
    endpoint(Method::Post, "/oauth/token".to_owned())
}

pub open spec fn exchange_code_pairs(
    client_id: Seq<char>,
    redirect_uri: Seq<char>,
    code: Seq<char>,
    verifier: Seq<char>,
) -> Seq<(Seq<char>, Seq<char>)> {
    seq![
        ("grant_type"@, "authorization_code"@),
        ("client_id"@, client_id),
        ("redirect_uri"@, redirect_uri),
        ("code"@, code),
        ("code_verifier"@, verifier),
    ]
}

/// The form that exchanges an authorization `code` for tokens; `verifier` is
/// the one whose challenge went into the authorization URL.
pub fn exchange_code_form(client_id: &str, redirect_uri: &str, code: &str, verifier: &str) -> (r:
    Vec<(String, String)>)
    ensures
        r.deep_view() == exchange_code_pairs(client_id@, redirect_uri@, code@, verifier@),
{
    let mut form: Vec<(String, String)> = Vec::new();
    form.push(pair("grant_type", "authorization_code"));
    form.push(pair("client_id", client_id));
    form.push(pair("redirect_uri", redirect_uri));
    form.push(pair("code", code));
    form.push(pair("code_verifier", verifier));
    assert(form.deep_view() =~= exchange_code_pairs(client_id@, redirect_uri@, code@, verifier@));
    form
}

pub open spec fn refresh_pairs(client_id: Seq<char>, refresh_token: Seq<char>) -> Seq<
    (Seq<char>, Seq<char>),
> {
    seq![
        ("grant_type"@, "refresh_token"@),
        ("client_id"@, client_id),
        ("refresh_token"@, refresh_token),
    ]
}

/// The form that exchanges a refresh token for a new token set.
pub fn refresh_form(client_id: &str, refresh_token: &str) -> (r: Vec<(String, String)>)
    ensures
        r.deep_view() == refresh_pairs(client_id@, refresh_token@),
{
    let mut form: Vec<(String, String)> = Vec::new();
    form.push(pair("grant_type", "refresh_token"));
    form.push(pair("client_id", client_id));
    form.push(pair("refresh_token", refresh_token));
    assert(form.deep_view() =~= refresh_pairs(client_id@, refresh_token@));
    form
}

/// `POST /oauth/revoke` (RFC 7009), with the form of [`revoke_form`].
pub fn revoke() -> (r: Endpoint)
    ensures
        r@.method == Method::Post,
        r@.path == "/oauth/revoke"@,
        r@.query.len() == 0,
{
    endpoint(Method::Post, "/oauth/revoke".to_owned())
}

pub open spec fn revoke_pairs(client_id: Seq<char>, token: Seq<char>) -> Seq<
    (Seq<char>, Seq<char>),
> {
    seq![("token"@, token), ("client_id"@, client_id)]
}

/// The form that asks the server to invalidate `token` (a refresh token
/// takes the access tokens issued with it along).
pub fn revoke_form(client_id: &str, token: &str) -> (r: Vec<(String, String)>)
    ensures
        r.deep_view() == revoke_pairs(client_id@, token@),
{
    let mut form: Vec<(String, String)> = Vec::new();
    form.push(pair("token", token));
    form.push(pair("client_id", client_id));
    assert(form.deep_view() =~= revoke_pairs(client_id@, token@));
    form
}

/// `{"return_to":<path>}`: where the browser lands once signed in.
pub open spec fn browser_state(return_to: Seq<char>) -> Seq<char> {
    "{\"return_to\":"@ + json_string_literal(return_to) + "}"@
}

pub open spec fn browser_entry_query(token: Seq<char>, return_to: Seq<char>) -> Seq<
    (Seq<char>, Seq<char>),
> {
    seq![("token"@, token), ("state"@, browser_state(return_to))]
}

/// A URL that signs the system browser in with the access `token`, then
/// lands on `return_to_path`: `/auth/browser_from_oauth` trades the token for
/// a browser session and redirects. `None` when `base` is not a URL.
pub fn browser_entry_url(base: &str, token: &str, return_to_path: &str) -> (r: Option<String>)
    ensures
        r.deep_view() == resolved_url(
            base@,
            "/auth/browser_from_oauth"@,
            browser_entry_query(token@, return_to_path@),
        ),
{
    let mut state = "{\"return_to\":".to_owned();
    let literal = quote_json(return_to_path);
    push_str(&mut state, literal.as_str());
    push_str(&mut state, "}");
    let mut query: Vec<(String, String)> = Vec::new();
    query.push(pair("token", token));
    query.push(pair("state", state.as_str()));
    let e = Endpoint { method: Method::Get, path: "/auth/browser_from_oauth".to_owned(), query };
    assert(e@.query =~= browser_entry_query(token@, return_to_path@));
    endpoint_url(base, &e)
}

/// The account-deletion page, signed in with `token`.
pub fn delete_account_url(base: &str, token: &str) -> (r: Option<String>)
    ensures
        r.deep_view() == resolved_url(
            base@,
            "/auth/browser_from_oauth"@,
            browser_entry_query(token@, DELETE_ACCOUNT_PATH@),
        ),
{
    browser_entry_url(base, token, DELETE_ACCOUNT_PATH)
}

/// The scheme of the document channel's socket: secure exactly when the API
/// itself is served over `https`.
pub open spec fn websocket_scheme(base_scheme: Seq<char>) -> Seq<char> {
    if base_scheme == "https"@ {
        "wss"@
    } else {
        "ws"@
    }
}

pub open spec fn websocket_query(token: Seq<char>) -> Seq<(Seq<char>, Seq<char>)> {
    seq![("vsn"@, "2.0.0"@), ("token"@, token)]
}

/// The socket URL for the server at `base`, authenticated with `token`, or the
/// error its construction fails with.
pub open spec fn websocket_url_spec(base: Seq<char>, token: Seq<char>) -> Result<
    Seq<char>,
    ScribeErrorView,
> {
    match url_scheme_of(base) {
        None => Err(ScribeErrorView::Url),
        Some(scheme) => match url_with_scheme(base, websocket_scheme(scheme)) {
            None => Err(ScribeErrorView::Channel { message: GENERIC_MESSAGE@ }),
            Some(u) => match resolved_url(u, "/socket/websocket"@, websocket_query(token)) {
                None => Err(ScribeErrorView::Url),
                Some(url) => Ok(url),
            },
        },
    }
}

/// The document channel's socket URL: the base URL with `ws`/`wss` for its
/// scheme, the path `/socket/websocket`, and the protocol version and access
/// `token` in its query.
pub fn websocket_url(base: &str, token: &str) -> (r: Result<String, ScribeError>)
    ensures
        match r {
            Ok(url) => websocket_url_spec(base@, token@) == Ok::<Seq<char>, ScribeErrorView>(url@),
            Err(e) => websocket_url_spec(base@, token@) == Err::<Seq<char>, ScribeErrorView>(e@),
        },
{
    let scheme = match url_scheme(base) {
        None => return Err(ScribeError::Url),
        Some(s) => s,
    };
    let ws = if str_eq(scheme.as_str(), "https") {
        "wss"
    } else {
        "ws"
    };
    let with_scheme = match set_url_scheme(base, ws) {
        None => return Err(ScribeError::Channel { message: GENERIC_MESSAGE.to_owned() }),
        Some(u) => u,
    };
    let mut query: Vec<(String, String)> = Vec::new();
    query.push(pair("vsn", "2.0.0"));
    query.push(pair("token", token));
    let e = Endpoint { method: Method::Get, path: "/socket/websocket".to_owned(), query };
    assert(e@.query =~= websocket_query(token@));
    match endpoint_url(with_scheme.as_str(), &e) {
        None => Err(ScribeError::Url),
        Some(url) => Ok(url),
    }
}

/// `{"comment":<comment>}`.
pub open spec fn feedback_json(comment: Seq<char>) -> Seq<char> {
    "{\"comment\":"@ + json_string_literal(comment) + "}"@
}

/// The body of a feedback submission.
pub fn feedback_body(comment: &str) -> (r: String)
    ensures
        r@ == feedback_json(comment@),
{
    let mut s = "{\"comment\":".to_owned();
    let literal = quote_json(comment);
    push_str(&mut s, literal.as_str());
    push_str(&mut s, "}");
    s
}

/// `{"document":{"title":<title>}}`.
pub open spec fn rename_json(title: Seq<char>) -> Seq<char> {
    "{\"document\":{\"title\":"@ + json_string_literal(title) + "}}"@
}

/// The body of a rename.
pub fn rename_body(title: &str) -> (r: String)
    ensures
        r@ == rename_json(title@),
{
    let mut s = "{\"document\":{\"title\":".to_owned();
    let literal = quote_json(title);
    push_str(&mut s, literal.as_str());
    push_str(&mut s, "}}");
    s
}

/// `{"platform":<platform>,"token":<token>}` (keys in the order JSON objects
/// are written in).
pub open spec fn register_device_json(token: Seq<char>, platform: Seq<char>) -> Seq<char> {
    "{\"platform\":"@ + json_string_literal(platform) + ",\"token\":"@ + json_string_literal(token)
        + "}"@
}

/// The body that registers the push-notification device `token` for
/// `platform`.
pub fn register_device_body(token: &str, platform: &str) -> (r: String)
    ensures
        r@ == register_device_json(token@, platform@),
{
    let mut s = "{\"platform\":".to_owned();
    let p = quote_json(platform);
    push_str(&mut s, p.as_str());
    push_str(&mut s, ",\"token\":");
    let t = quote_json(token);
    push_str(&mut s, t.as_str());
    push_str(&mut s, "}");
    s
}

/// `{"push_notify_when_complete":true}` or `...false}`.
pub open spec fn notification_settings_json(push_notify_when_complete: bool) -> Seq<char> {
    if push_notify_when_complete {
        "{\"push_notify_when_complete\":true}"@
    } else {
        "{\"push_notify_when_complete\":false}"@
    }
}

/// The body that turns push notifications on completion on or off.
pub fn notification_settings_body(push_notify_when_complete: bool) -> (r: String)
    ensures
        r@ == notification_settings_json(push_notify_when_complete),
{
    if push_notify_when_complete {
        "{\"push_notify_when_complete\":true}".to_owned()
    } else {
        "{\"push_notify_when_complete\":false}".to_owned()
    }
}

/// One part of a `multipart/form-data` body.
#[derive(Debug, Clone, PartialEq, Eq)]
pub enum FormPart {
    Text { name: String, value: String },
    File { name: String, file_name: String, bytes: Vec<u8> },
}

pub enum FormPartView {
    Text { name: Seq<char>, value: Seq<char> },
    File { name: Seq<char>, file_name: Seq<char>, bytes: Seq<u8> },
}

impl View for FormPart {
    type V = FormPartView;

    open spec fn view(&self) -> FormPartView {
        match self {
            FormPart::Text { name, value } => FormPartView::Text { name: name@, value: value@ },
            FormPart::File { name, file_name, bytes } => FormPartView::File {
                name: name@,
                file_name: file_name@,
                bytes: bytes@,
            },
        }
    }
}

/// The parts of a document upload: the file, or the URL to fetch it from,
/// then the password when one is given.
pub open spec fn document_form_parts(
    source: DocumentSource,
    password: Option<Seq<char>>,
) -> Seq<FormPartView> {
    let first = match source {
        DocumentSource::File { file_name, bytes } => FormPartView::File {
            name: "document[file]"@,
            file_name: file_name@,
            bytes: bytes@,
        },
        DocumentSource::Url(url) => FormPartView::Text { name: "document[url]"@, value: url@ },
    };
    match password {
        None => seq![first],
        Some(p) => seq![first, FormPartView::Text { name: "document[password]"@, value: p }],
    }
}

/// The form that creates a document from `source`; `password` unlocks a
/// password-protected source file.
pub fn document_form(source: DocumentSource, password: Option<&str>) -> (r: Vec<FormPart>)
    ensures
        r@.map_values(|p: FormPart| p@) == document_form_parts(
            source,
            match password {
                Some(p) => Some(p@),
                None => None,
            },
        ),
{
    let ghost src = source;
    let first = match source {
        DocumentSource::File { file_name, bytes } => FormPart::File {
            name: "document[file]".to_owned(),
            file_name,
            bytes,
        },
        DocumentSource::Url(url) => FormPart::Text { name: "document[url]".to_owned(), value: url },
    };
    let mut parts: Vec<FormPart> = Vec::new();
    parts.push(first);
    match password {
        None => {},
        Some(p) => {
            parts.push(FormPart::Text { name: "document[password]".to_owned(), value: p.to_owned() });
        },
    }
    let ghost pw = match password {
        Some(p) => Some(p@),
        None => None,
    };
    assert(parts@.map_values(|p: FormPart| p@) =~= document_form_parts(src, pw));
    parts
}

/// Each settings catalog is fetched from its own path, named after it:
/// languages, dialects, Braille tables and voices each from
/// `/api/settings/<catalog>`, and no two catalogs from the same one.
pub proof fn lemma_catalog_paths(c: SettingsCatalog, d: SettingsCatalog)
    ensures
        c == SettingsCatalog::Languages ==> "/api/settings/"@ + catalog_name(c)
            == "/api/settings/languages"@,
        c == SettingsCatalog::Dialects ==> "/api/settings/"@ + catalog_name(c)
            == "/api/settings/dialects"@,
        c == SettingsCatalog::BrailleTables ==> "/api/settings/"@ + catalog_name(c)
            == "/api/settings/braille_tables"@,
        c == SettingsCatalog::Voices ==> "/api/settings/"@ + catalog_name(c)
            == "/api/settings/voices"@,
        c != d ==> "/api/settings/"@ + catalog_name(c) != "/api/settings/"@ + catalog_name(d),
{
    reveal_strlit("/api/settings/");
    reveal_strlit("/api/settings/languages");
    reveal_strlit("/api/settings/dialects");
    reveal_strlit("/api/settings/braille_tables");
    reveal_strlit("/api/settings/voices");
    reveal_strlit("languages");
    reveal_strlit("dialects");
    reveal_strlit("braille_tables");
    reveal_strlit("voices");
    assert("/api/settings/"@ + "languages"@ =~= "/api/settings/languages"@);
    assert("/api/settings/"@ + "dialects"@ =~= "/api/settings/dialects"@);
    assert("/api/settings/"@ + "braille_tables"@ =~= "/api/settings/braille_tables"@);
    assert("/api/settings/"@ + "voices"@ =~= "/api/settings/voices"@);
}

/// An upload's form carries the document first (the file under
/// `document[file]` with its name and bytes, or the URL under
/// `document[url]`), and then, whatever the source, the password under
/// `document[password]` exactly when one is given; nothing else.
pub proof fn lemma_upload_form(source: DocumentSource, password: Option<Seq<char>>)
    ensures
        password is None ==> document_form_parts(source, password).len() == 1,
        password matches Some(p) ==> document_form_parts(source, password).len() == 2
            && document_form_parts(source, password)[1] == (FormPartView::Text {
            name: "document[password]"@,
            value: p,
        }),
        source matches DocumentSource::File { file_name, bytes } ==> document_form_parts(
            source,
            password,
        )[0] == (FormPartView::File {
            name: "document[file]"@,
            file_name: file_name@,
            bytes: bytes@,
        }),
        source matches DocumentSource::Url(url) ==> document_form_parts(source, password)[0] == (
        FormPartView::Text { name: "document[url]"@, value: url@ }),
{
}

} // verus!
