//! The library's error type, the fixed texts it shows, and the narrower error
//! type handed across the mobile bindings.

use vstd::prelude::*;

verus! {

/// Shown when no response arrived at all.
pub const CONNECT_MESSAGE: &'static str = "Couldn't connect to Scribe. Check your connection and try again.";

/// Shown when a response arrived but could not be understood.
pub const GENERIC_MESSAGE: &'static str = "Something went wrong. Please try again.";

/// Shown when a request was refused and there is no refresh token to recover with.
pub const SESSION_EXPIRED_MESSAGE: &'static str = "Your session has expired. Please sign in again.";

/// The text of [`ScribeError::ChannelClosed`].
pub const CHANNEL_CLOSED_MESSAGE: &'static str = "channel closed before a reply arrived";

/// Every variant that can originate from a server response carries a
/// `message`: the server's own human-readable sentence, passed through
/// unchanged. Transport failures carry nothing: their details are for logs,
/// never for users.
#[derive(Debug, Clone, PartialEq, Eq)]
pub enum ScribeError {
    /// The request could not be sent or its response not read.
    Http,
    /// A response body was not the JSON it should have been.
    Decode,
    /// A URL could not be built.
    Url,
    Api { status: u16, code: String, message: String },
    InvalidGrant { message: String },
    ConversionNotComplete { message: String },
    NotFound { message: String },
    Forbidden { message: String },
    NotTrashed { message: String },
    /// The document channel's WebSocket connection failed or was closed
    /// unexpectedly.
    WebSocket,
    ChannelClosed,
    ConversionInProgress { message: String },
    RateLimited { message: String },
    NeedsPurchase { message: String, purchase_url: String },
    PasswordRequired { message: String },
    Channel { message: String },
}

/// [`ScribeError`] with its texts as character sequences.
pub enum ScribeErrorView {
    Http,
    Decode,
    Url,
    Api { status: u16, code: Seq<char>, message: Seq<char> },
    InvalidGrant { message: Seq<char> },
    ConversionNotComplete { message: Seq<char> },
    NotFound { message: Seq<char> },
    Forbidden { message: Seq<char> },
    NotTrashed { message: Seq<char> },
    WebSocket,
    ChannelClosed,
    ConversionInProgress { message: Seq<char> },
    RateLimited { message: Seq<char> },
    NeedsPurchase { message: Seq<char>, purchase_url: Seq<char> },
    PasswordRequired { message: Seq<char> },
    Channel { message: Seq<char> },
}

impl View for ScribeError {
    type V = ScribeErrorView;

    open spec fn view(&self) -> ScribeErrorView {
        match self {
            ScribeError::Http => ScribeErrorView::Http,
            ScribeError::Decode => ScribeErrorView::Decode,
            ScribeError::Url => ScribeErrorView::Url,
            ScribeError::Api { status, code, message } => ScribeErrorView::Api {
                status: *status,
                code: code@,
                message: message@,
            },
            ScribeError::InvalidGrant { message } => ScribeErrorView::InvalidGrant {
                message: message@,
            },
            ScribeError::ConversionNotComplete { message } =>
                ScribeErrorView::ConversionNotComplete { message: message@ },
            ScribeError::NotFound { message } => ScribeErrorView::NotFound { message: message@ },
            ScribeError::Forbidden { message } => ScribeErrorView::Forbidden { message: message@ },
            ScribeError::NotTrashed { message } => ScribeErrorView::NotTrashed {
                message: message@,
            },
            ScribeError::WebSocket => ScribeErrorView::WebSocket,
            ScribeError::ChannelClosed => ScribeErrorView::ChannelClosed,
            ScribeError::ConversionInProgress { message } =>
                ScribeErrorView::ConversionInProgress { message: message@ },
            ScribeError::RateLimited { message } => ScribeErrorView::RateLimited {
                message: message@,
            },
            ScribeError::NeedsPurchase { message, purchase_url } =>
                ScribeErrorView::NeedsPurchase { message: message@, purchase_url: purchase_url@ },
            ScribeError::PasswordRequired { message } => ScribeErrorView::PasswordRequired {
                message: message@,
            },
            ScribeError::Channel { message } => ScribeErrorView::Channel { message: message@ },
        }
    }
}

/// The text a user is shown for an error (what `Display` prints).
pub open spec fn error_text(e: ScribeErrorView) -> Seq<char> {
    match e {
        ScribeErrorView::Http => CONNECT_MESSAGE@,
        ScribeErrorView::Decode => GENERIC_MESSAGE@,
        ScribeErrorView::Url => GENERIC_MESSAGE@,
        ScribeErrorView::Api { message, .. } => message,
        ScribeErrorView::InvalidGrant { message } => message,
        ScribeErrorView::ConversionNotComplete { message } => message,
        ScribeErrorView::NotFound { message } => message,
        ScribeErrorView::Forbidden { message } => message,
        ScribeErrorView::NotTrashed { message } => message,
        ScribeErrorView::WebSocket => CONNECT_MESSAGE@,
        ScribeErrorView::ChannelClosed => CHANNEL_CLOSED_MESSAGE@,
        ScribeErrorView::ConversionInProgress { message } => message,
        ScribeErrorView::RateLimited { message } => message,
        ScribeErrorView::NeedsPurchase { message, .. } => message,
        ScribeErrorView::PasswordRequired { message } => message,
        ScribeErrorView::Channel { message } => message,
    }
}

impl ScribeError {
    /// The text a user is shown for this error. Transport failures get a fixed
    /// friendly sentence; everything the server said is passed through.
    pub fn message(&self) -> (r: String)
        ensures
            r@ == error_text(self@),
    {
        match self {
            ScribeError::Http => CONNECT_MESSAGE.to_owned(),
            ScribeError::Decode => GENERIC_MESSAGE.to_owned(),
            ScribeError::Url => GENERIC_MESSAGE.to_owned(),
            ScribeError::Api { message, .. } => message.clone(),
            ScribeError::InvalidGrant { message } => message.clone(),
            ScribeError::ConversionNotComplete { message } => message.clone(),
            ScribeError::NotFound { message } => message.clone(),
            ScribeError::Forbidden { message } => message.clone(),
            ScribeError::NotTrashed { message } => message.clone(),
            ScribeError::WebSocket => CONNECT_MESSAGE.to_owned(),
            ScribeError::ChannelClosed => CHANNEL_CLOSED_MESSAGE.to_owned(),
            ScribeError::ConversionInProgress { message } => message.clone(),
            ScribeError::RateLimited { message } => message.clone(),
            ScribeError::NeedsPurchase { message, .. } => message.clone(),
            ScribeError::PasswordRequired { message } => message.clone(),
            ScribeError::Channel { message } => message.clone(),
        }
    }
}

} // verus!
