//! The shapes handed across the mobile (Swift/Kotlin) bindings, and the
//! conversions between them and the library's own types. They are plain data,
//! copied across the boundary rather than held by handle.

use vstd::prelude::*;

use crate::channel::{ChannelEvent as CoreChannelEvent, ChannelEventView as CoreChannelEventView};
use crate::error::{
    ScribeError as CoreError, ScribeErrorView as CoreErrorView, CHANNEL_CLOSED_MESSAGE,
    CONNECT_MESSAGE, GENERIC_MESSAGE,
};
use crate::json::JsonNumber;
use crate::model::{
    BrailleTable as CoreBrailleTable, Dialect as CoreDialect, Language as CoreLanguage,
    OutputFormat as CoreOutputFormat, Stage as CoreStage, Voice as CoreVoice,
};
use crate::token::{
    is_representable, is_representable_nanos, nanos_of_seconds, representable, representable_nanos,
    whole_seconds, TokenSet as CoreTokenSet, MAX_UNIX_NANOS, MAX_UNIX_TIME, MIN_UNIX_NANOS,
    MIN_UNIX_TIME, NANOS_PER_SECOND,
};

verus! {

/// The error type that crosses the mobile boundary. Every variant carries the
/// text to show; transport failures carry a fixed friendly sentence, never the
/// internals of the failure.
#[derive(Debug, Clone, PartialEq, Eq)]
pub enum ScribeError {
    Http { message: String },
    Api { status: u16, code: String, message: String },
    InvalidGrant { message: String },
    ConversionNotComplete { message: String },
    NotFound { message: String },
    Forbidden { message: String },
    NotTrashed { message: String },
    ConversionInProgress { message: String },
    RateLimited { message: String },
    NeedsPurchase { message: String, purchase_url: String },
    PasswordRequired { message: String },
    ChannelClosed,
    Other { message: String },
}

pub enum ScribeErrorView {
    Http { message: Seq<char> },
    Api { status: u16, code: Seq<char>, message: Seq<char> },
    InvalidGrant { message: Seq<char> },
    ConversionNotComplete { message: Seq<char> },
    NotFound { message: Seq<char> },
    Forbidden { message: Seq<char> },
    NotTrashed { message: Seq<char> },
    ConversionInProgress { message: Seq<char> },
    RateLimited { message: Seq<char> },
    NeedsPurchase { message: Seq<char>, purchase_url: Seq<char> },
    PasswordRequired { message: Seq<char> },
    ChannelClosed,
    Other { message: Seq<char> },
}

impl View for ScribeError {
    type V = ScribeErrorView;

    open spec fn view(&self) -> ScribeErrorView {
        match self {
            ScribeError::Http { message } => ScribeErrorView::Http { message: message@ },
            ScribeError::Api { status, code, message } => ScribeErrorView::Api {
                status: *status,
                code: code@,
                message: message@,
            },
            ScribeError::InvalidGrant { message } => ScribeErrorView::InvalidGrant {
                message: message@,
            },
            ScribeError::ConversionNotComplete { message } =>
                ScribeErrorView::ConversionNotComplete { message: message@ },
            ScribeError::NotFound { message } => ScribeErrorView::NotFound { message: message@ },
            ScribeError::Forbidden { message } => ScribeErrorView::Forbidden { message: message@ },
            ScribeError::NotTrashed { message } => ScribeErrorView::NotTrashed {
                message: message@,
            },
            ScribeError::ConversionInProgress { message } =>
                ScribeErrorView::ConversionInProgress { message: message@ },
            ScribeError::RateLimited { message } => ScribeErrorView::RateLimited {
                message: message@,
            },
            ScribeError::NeedsPurchase { message, purchase_url } =>
                ScribeErrorView::NeedsPurchase { message: message@, purchase_url: purchase_url@ },
            ScribeError::PasswordRequired { message } => ScribeErrorView::PasswordRequired {
                message: message@,
            },
            ScribeError::ChannelClosed => ScribeErrorView::ChannelClosed,
            ScribeError::Other { message } => ScribeErrorView::Other { message: message@ },
        }
    }
}

/// How a library error crosses the boundary. Transport failures get the fixed
/// texts (connection or generic); what the server said passes through
/// unchanged; channel failures that have no variant of their own become
/// `Other` with their text.
pub open spec fn crossing_error(e: CoreErrorView) -> ScribeErrorView {
    match e {
        CoreErrorView::Http => ScribeErrorView::Http { message: CONNECT_MESSAGE@ },
        CoreErrorView::Decode => ScribeErrorView::Other { message: GENERIC_MESSAGE@ },
        CoreErrorView::Url => ScribeErrorView::Other { message: GENERIC_MESSAGE@ },
        CoreErrorView::Api { status, code, message } => ScribeErrorView::Api {
            status,
            code,
            message,
        },
        CoreErrorView::InvalidGrant { message } => ScribeErrorView::InvalidGrant { message },
        CoreErrorView::ConversionNotComplete { message } =>
            ScribeErrorView::ConversionNotComplete { message },
        CoreErrorView::NotFound { message } => ScribeErrorView::NotFound { message },
        CoreErrorView::Forbidden { message } => ScribeErrorView::Forbidden { message },
        CoreErrorView::NotTrashed { message } => ScribeErrorView::NotTrashed { message },
        CoreErrorView::WebSocket => ScribeErrorView::Other { message: CONNECT_MESSAGE@ },
        CoreErrorView::ChannelClosed => ScribeErrorView::ChannelClosed,
        CoreErrorView::ConversionInProgress { message } =>
            ScribeErrorView::ConversionInProgress { message },
        CoreErrorView::RateLimited { message } => ScribeErrorView::RateLimited { message },
        CoreErrorView::NeedsPurchase { message, purchase_url } =>
            ScribeErrorView::NeedsPurchase { message, purchase_url },
        CoreErrorView::PasswordRequired { message } => ScribeErrorView::PasswordRequired {
            message,
        },
        CoreErrorView::Channel { message } => ScribeErrorView::Other { message },
    }
}

/// The text shown for a crossing error (what `Display` prints).
pub open spec fn crossing_error_text(e: ScribeErrorView) -> Seq<char> {
    match e {
        ScribeErrorView::Http { message } => message,
        ScribeErrorView::Api { message, .. } => message,
        ScribeErrorView::InvalidGrant { message } => message,
        ScribeErrorView::ConversionNotComplete { message } => message,
        ScribeErrorView::NotFound { message } => message,
        ScribeErrorView::Forbidden { message } => message,
        ScribeErrorView::NotTrashed { message } => message,
        ScribeErrorView::ConversionInProgress { message } => message,
        ScribeErrorView::RateLimited { message } => message,
        ScribeErrorView::NeedsPurchase { message, .. } => message,
        ScribeErrorView::PasswordRequired { message } => message,
        ScribeErrorView::ChannelClosed => CHANNEL_CLOSED_MESSAGE@,
        ScribeErrorView::Other { message } => message,
    }
}

impl ScribeError {
    /// The boundary's form of a library error.
    pub fn from_core(e: CoreError) -> (r: ScribeError)
        ensures
            r@ == crossing_error(e@),
    {
        match e {
            CoreError::Http => ScribeError::Http { message: CONNECT_MESSAGE.to_owned() },
            CoreError::Decode => ScribeError::Other { message: GENERIC_MESSAGE.to_owned() },
            CoreError::Url => ScribeError::Other { message: GENERIC_MESSAGE.to_owned() },
            CoreError::Api { status, code, message } => ScribeError::Api { status, code, message },
            CoreError::InvalidGrant { message } => ScribeError::InvalidGrant { message },
            CoreError::ConversionNotComplete { message } => ScribeError::ConversionNotComplete {
                message,
            },
            CoreError::NotFound { message } => ScribeError::NotFound { message },
            CoreError::Forbidden { message } => ScribeError::Forbidden { message },
            CoreError::NotTrashed { message } => ScribeError::NotTrashed { message },
            CoreError::WebSocket => ScribeError::Other { message: CONNECT_MESSAGE.to_owned() },
            CoreError::ChannelClosed => ScribeError::ChannelClosed,
            CoreError::ConversionInProgress { message } => ScribeError::ConversionInProgress {
                message,
            },
            CoreError::RateLimited { message } => ScribeError::RateLimited { message },
            CoreError::NeedsPurchase { message, purchase_url } => ScribeError::NeedsPurchase {
                message,
                purchase_url,
            },
            CoreError::PasswordRequired { message } => ScribeError::PasswordRequired { message },
            CoreError::Channel { message } => ScribeError::Other { message },
        }
    }

    /// The text shown for this error.
    pub fn message(&self) -> (r: String)
        ensures
            r@ == crossing_error_text(self@),
    {
        match self {
            ScribeError::Http { message } => message.clone(),
            ScribeError::Api { message, .. } => message.clone(),
            ScribeError::InvalidGrant { message } => message.clone(),
            ScribeError::ConversionNotComplete { message } => message.clone(),
            ScribeError::NotFound { message } => message.clone(),
            ScribeError::Forbidden { message } => message.clone(),
            ScribeError::NotTrashed { message } => message.clone(),
            ScribeError::ConversionInProgress { message } => message.clone(),
            ScribeError::RateLimited { message } => message.clone(),
            ScribeError::NeedsPurchase { message, .. } => message.clone(),
            ScribeError::PasswordRequired { message } => message.clone(),
            ScribeError::ChannelClosed => CHANNEL_CLOSED_MESSAGE.to_owned(),
            ScribeError::Other { message } => message.clone(),
        }
    }
}

/// A conversion output format, as the bindings name it.
#[derive(Debug, Clone, Copy, PartialEq, Eq)]
pub enum OutputFormat {
    Html,
    Pdf,
    Epub,
    Daisy,
    Docx,
    Brf,
    Mp3,
    OfflineHtml,
    Mobi,
    HtmlStream,
}

/// The library's format for a bindings format, variant for variant.
pub open spec fn core_format(f: OutputFormat) -> CoreOutputFormat {
    match f {
        OutputFormat::Html => CoreOutputFormat::Html,
        OutputFormat::Pdf => CoreOutputFormat::Pdf,
        OutputFormat::Epub => CoreOutputFormat::Epub,
        OutputFormat::Daisy => CoreOutputFormat::Daisy,
        OutputFormat::Docx => CoreOutputFormat::Docx,
        OutputFormat::Brf => CoreOutputFormat::Brf,
        OutputFormat::Mp3 => CoreOutputFormat::Mp3,
        OutputFormat::OfflineHtml => CoreOutputFormat::OfflineHtml,
        OutputFormat::Mobi => CoreOutputFormat::Mobi,
        OutputFormat::HtmlStream => CoreOutputFormat::HtmlStream,
    }
}

/// The bindings format for a library format, variant for variant.
pub open spec fn crossing_format(f: CoreOutputFormat) -> OutputFormat {
    match f {
        CoreOutputFormat::Html => OutputFormat::Html,
        CoreOutputFormat::Pdf => OutputFormat::Pdf,
        CoreOutputFormat::Epub => OutputFormat::Epub,
        CoreOutputFormat::Daisy => OutputFormat::Daisy,
        CoreOutputFormat::Docx => OutputFormat::Docx,
        CoreOutputFormat::Brf => OutputFormat::Brf,
        CoreOutputFormat::Mp3 => OutputFormat::Mp3,
        CoreOutputFormat::OfflineHtml => OutputFormat::OfflineHtml,
        CoreOutputFormat::Mobi => OutputFormat::Mobi,
        CoreOutputFormat::HtmlStream => OutputFormat::HtmlStream,
    }
}

impl OutputFormat {
    pub fn from_core(f: CoreOutputFormat) -> (r: OutputFormat)
        ensures
            r == crossing_format(f),
    {
        match f {
            CoreOutputFormat::Html => OutputFormat::Html,
            CoreOutputFormat::Pdf => OutputFormat::Pdf,
            CoreOutputFormat::Epub => OutputFormat::Epub,
            CoreOutputFormat::Daisy => OutputFormat::Daisy,
            CoreOutputFormat::Docx => OutputFormat::Docx,
            CoreOutputFormat::Brf => OutputFormat::Brf,
            CoreOutputFormat::Mp3 => OutputFormat::Mp3,
            CoreOutputFormat::OfflineHtml => OutputFormat::OfflineHtml,
            CoreOutputFormat::Mobi => OutputFormat::Mobi,
            CoreOutputFormat::HtmlStream => OutputFormat::HtmlStream,
        }
    }

    pub fn to_core(self) -> (r: CoreOutputFormat)
        ensures
            r == core_format(self),
    {
        match self {
            OutputFormat::Html => CoreOutputFormat::Html,
            OutputFormat::Pdf => CoreOutputFormat::Pdf,
            OutputFormat::Epub => CoreOutputFormat::Epub,
            OutputFormat::Daisy => CoreOutputFormat::Daisy,
            OutputFormat::Docx => CoreOutputFormat::Docx,
            OutputFormat::Brf => CoreOutputFormat::Brf,
            OutputFormat::Mp3 => CoreOutputFormat::Mp3,
            OutputFormat::OfflineHtml => CoreOutputFormat::OfflineHtml,
            OutputFormat::Mobi => CoreOutputFormat::Mobi,
            OutputFormat::HtmlStream => CoreOutputFormat::HtmlStream,
        }
    }
}

/// Crossing the boundary and back gives every format back, both ways round.
pub proof fn lemma_format_crossing_round_trip(f: OutputFormat, c: CoreOutputFormat)
    ensures
        crossing_format(core_format(f)) == f,
        core_format(crossing_format(c)) == c,
{
}

/// A conversion stage, as the bindings name it.
#[derive(Debug, Clone, Copy, PartialEq, Eq)]
pub enum Stage {
    Queue,
    Start,
    Convert,
    AddImageDescriptions,
    Complete,
}

pub open spec fn crossing_stage(s: CoreStage) -> Stage {
    match s {
        CoreStage::Queue => Stage::Queue,
        CoreStage::Start => Stage::Start,
        CoreStage::Convert => Stage::Convert,
        CoreStage::AddImageDescriptions => Stage::AddImageDescriptions,
        CoreStage::Complete => Stage::Complete,
    }
}

impl Stage {
    pub fn from_core(s: CoreStage) -> (r: Stage)
        ensures
            r == crossing_stage(s),
    {
        match s {
            CoreStage::Queue => Stage::Queue,
            CoreStage::Start => Stage::Start,
            CoreStage::Convert => Stage::Convert,
            CoreStage::AddImageDescriptions => Stage::AddImageDescriptions,
            CoreStage::Complete => Stage::Complete,
        }
    }
}

/// An OAuth 2.0 token pair. `expires_at_unix_secs` is when the access token
/// expires, in Unix seconds, or `None` if the server didn't report an expiry.
#[derive(Debug, Clone, PartialEq, Eq)]
pub struct TokenSet {
    pub access_token: String,
    pub refresh_token: Option<String>,
    pub expires_at_unix_secs: Option<i64>,
}

/// The expiry a Unix time restores to: itself when a date-time can hold it,
/// else the Unix epoch.
pub open spec fn restored_expiry(secs: i64) -> i64 {
    if representable(secs as int) {
        secs
    } else {
        0
    }
}

/// An expiry in Unix seconds as the library keeps it, in nanoseconds: a time
/// no date-time can hold becomes the Unix epoch, which is long past, so the
/// token is refreshed before its next use.
pub fn unix_expiry(secs: i64) -> (r: i128)
    ensures
        r as int == restored_expiry(secs) as int * NANOS_PER_SECOND as int,
{
    if is_representable(secs) {
        nanos_of_seconds(secs)
    } else {
        0
    }
}

/// Whether a library token set can cross the boundary: its expiry, if any, is
/// an instant a date-time can hold (every token set the library builds has
/// one).
pub open spec fn crossable(t: crate::token::TokenSetView) -> bool {
    t.expires_at matches Some(n) ==> representable_nanos(n as int)
}

pub fn is_crossable(t: &CoreTokenSet) -> (r: bool)
    ensures
        r == crossable(t@),
{
    match t.expires_at {
        Some(n) => is_representable_nanos(n),
        None => true,
    }
}

impl TokenSet {
    /// The boundary's form of a token set: its expiry in whole Unix seconds.
    pub fn from_core(t: CoreTokenSet) -> (r: TokenSet)
        requires
            crossable(t@),
        ensures
            r.access_token@ == t@.access_token,
            r.refresh_token.deep_view() == t@.refresh_token,
            r.expires_at_unix_secs == match t@.expires_at {
                Some(n) => Some((n as int / NANOS_PER_SECOND as int) as i64),
                None => None,
            },
    {
        let expires_at_unix_secs = match t.expires_at {
            Some(n) => Some(whole_seconds(n)),
            None => None,
        };
        TokenSet { access_token: t.access_token, refresh_token: t.refresh_token, expires_at_unix_secs }
    }

    pub fn to_core(self) -> (r: CoreTokenSet)
        ensures
            r@.access_token == self.access_token@,
            r@.refresh_token == self.refresh_token.deep_view(),
            r@.expires_at == match self.expires_at_unix_secs {
                Some(secs) => Some((restored_expiry(secs) as int * NANOS_PER_SECOND as int) as i128),
                None => None,
            },
            crossable(r@),
    {
        let expires_at = match self.expires_at_unix_secs {
            Some(secs) => Some(unix_expiry(secs)),
            None => None,
        };
        CoreTokenSet { access_token: self.access_token, refresh_token: self.refresh_token, expires_at }
    }
}

/// A TTS narration language.
#[derive(Debug, Clone, PartialEq, Eq)]
pub struct Language {
    pub display_name: String,
    pub code: String,
}

impl Language {
    pub fn from_core(l: CoreLanguage) -> (r: Language)
        ensures
            r.display_name == l.0,
            r.code == l.1,
    {
        Language { display_name: l.0, code: l.1 }
    }
}

/// A TTS narration dialect.
#[derive(Debug, Clone, PartialEq, Eq)]
pub struct Dialect {
    pub display_name: String,
    pub locale: String,
}

impl Dialect {
    pub fn from_core(d: CoreDialect) -> (r: Dialect)
        ensures
            r.display_name == d.0,
            r.locale == d.1,
    {
        Dialect { display_name: d.0, locale: d.1 }
    }
}

/// A Braille translation table for `brf` output.
#[derive(Debug, Clone, PartialEq, Eq)]
pub struct BrailleTable {
    pub display_name: String,
    pub id: String,
}

impl BrailleTable {
    pub fn from_core(t: CoreBrailleTable) -> (r: BrailleTable)
        ensures
            r.display_name == t.0,
            r.id == t.1,
    {
        BrailleTable { display_name: t.0, id: t.1 }
    }
}

/// A TTS voice.
#[derive(Debug, Clone, PartialEq, Eq)]
pub struct Voice {
    pub display_name: String,
    pub short_name: String,
    pub has_sample: bool,
}

impl Voice {
    pub fn from_core(v: CoreVoice) -> (r: Voice)
        ensures
            r.display_name == v.0,
            r.short_name == v.1,
            r.has_sample == v.2,
    {
        Voice { display_name: v.0, short_name: v.1, has_sample: v.2 }
    }
}

/// An event pushed over a document channel, as the bindings deliver it.
/// `progress` is the number the server sent, kept exactly.
#[derive(Debug, Clone, PartialEq, Eq)]
pub enum ChannelEvent {
    Status { format: OutputFormat, stage: Stage, progress: JsonNumber },
    Chunk { content: String },
    ConversionComplete { format: OutputFormat, output_id: String },
    Error { reason: String },
    PasswordRequired,
}

pub enum ChannelEventView {
    Status { format: OutputFormat, stage: Stage, progress: JsonNumber },
    Chunk { content: Seq<char> },
    ConversionComplete { format: OutputFormat, output_id: Seq<char> },
    Error { reason: Seq<char> },
    PasswordRequired,
}

impl View for ChannelEvent {
    type V = ChannelEventView;

    open spec fn view(&self) -> ChannelEventView {
        match self {
            ChannelEvent::Status { format, stage, progress } => ChannelEventView::Status {
                format: *format,
                stage: *stage,
                progress: *progress,
            },
            ChannelEvent::Chunk { content } => ChannelEventView::Chunk { content: content@ },
            ChannelEvent::ConversionComplete { format, output_id } =>
                ChannelEventView::ConversionComplete { format: *format, output_id: output_id@ },
            ChannelEvent::Error { reason } => ChannelEventView::Error { reason: reason@ },
            ChannelEvent::PasswordRequired => ChannelEventView::PasswordRequired,
        }
    }
}

pub open spec fn crossing_event(e: CoreChannelEventView) -> ChannelEventView {
    match e {
        CoreChannelEventView::Status { format, stage, progress } => ChannelEventView::Status {
            format: crossing_format(format),
            stage: crossing_stage(stage),
            progress,
        },
        CoreChannelEventView::Chunk { content } => ChannelEventView::Chunk { content },
        CoreChannelEventView::ConversionComplete { format, output_id } =>
            ChannelEventView::ConversionComplete { format: crossing_format(format), output_id },
        CoreChannelEventView::Error { reason } => ChannelEventView::Error { reason },
        CoreChannelEventView::PasswordRequired => ChannelEventView::PasswordRequired,
    }
}

impl ChannelEvent {
    pub fn from_core(e: CoreChannelEvent) -> (r: ChannelEvent)
        ensures
            r@ == crossing_event(e@),
    {
        match e {
            CoreChannelEvent::Status { format, stage, progress } => ChannelEvent::Status {
                format: OutputFormat::from_core(format),
                stage: Stage::from_core(stage),
                progress,
            },
            CoreChannelEvent::Chunk { content } => ChannelEvent::Chunk { content },
            CoreChannelEvent::ConversionComplete { format, output_id } =>
                ChannelEvent::ConversionComplete {
                    format: OutputFormat::from_core(format),
                    output_id,
                },
            CoreChannelEvent::Error { reason } => ChannelEvent::Error { reason },
            CoreChannelEvent::PasswordRequired => ChannelEvent::PasswordRequired,
        }
    }
}

/// An error shows the same text on both sides of the boundary: crossing it
/// changes an error's shape, never what the user reads.
pub proof fn lemma_crossing_keeps_text(e: CoreErrorView)
    ensures
        crossing_error_text(crossing_error(e)) == crate::error::error_text(e),
{
}

/// An expiry survives a trip into the library and back whenever a date-time
/// can hold it; a trip out of the library and back keeps it to the whole
/// second, rounded down.
pub proof fn lemma_token_crossing_round_trip(secs: i64, nanos: i128)
    ensures
        representable(secs as int) ==> (restored_expiry(secs) as int * NANOS_PER_SECOND as int)
            / NANOS_PER_SECOND as int == secs,
        representable_nanos(nanos as int) ==> {
            let back = (nanos as int / NANOS_PER_SECOND as int) * NANOS_PER_SECOND as int;
            back <= nanos < back + NANOS_PER_SECOND && representable(
                nanos as int / NANOS_PER_SECOND as int,
            )
        },
{
    let d = NANOS_PER_SECOND as int;
    vstd::arithmetic::div_mod::lemma_div_multiples_vanish(secs as int, d);
    vstd::arithmetic::div_mod::lemma_fundamental_div_mod(nanos as int, d);
    assert(MIN_UNIX_NANOS as int / d == MIN_UNIX_TIME as int);
    assert(MAX_UNIX_NANOS as int / d == MAX_UNIX_TIME as int);
    if representable_nanos(nanos as int) {
        vstd::arithmetic::div_mod::lemma_div_is_ordered(MIN_UNIX_NANOS as int, nanos as int, d);
        vstd::arithmetic::div_mod::lemma_div_is_ordered(nanos as int, MAX_UNIX_NANOS as int, d);
    }
    assert((nanos as int / d) * d == d * (nanos as int / d)) by (nonlinear_arith);
}

/// Crossing the boundary keeps every format and stage what it is: each
/// bindings format is the library format of the same name (and so goes out
/// under the same wire name), both ways round, and each stage likewise.
pub proof fn lemma_crossing_keeps_names(f: OutputFormat, c: CoreOutputFormat, s: CoreStage)
    ensures
        f == OutputFormat::Html <==> core_format(f) == CoreOutputFormat::Html,
        f == OutputFormat::Pdf <==> core_format(f) == CoreOutputFormat::Pdf,
        f == OutputFormat::Epub <==> core_format(f) == CoreOutputFormat::Epub,
        f == OutputFormat::Daisy <==> core_format(f) == CoreOutputFormat::Daisy,
        f == OutputFormat::Docx <==> core_format(f) == CoreOutputFormat::Docx,
        f == OutputFormat::Brf <==> core_format(f) == CoreOutputFormat::Brf,
        f == OutputFormat::Mp3 <==> core_format(f) == CoreOutputFormat::Mp3,
        f == OutputFormat::OfflineHtml <==> core_format(f) == CoreOutputFormat::OfflineHtml,
        f == OutputFormat::Mobi <==> core_format(f) == CoreOutputFormat::Mobi,
        f == OutputFormat::HtmlStream <==> core_format(f) == CoreOutputFormat::HtmlStream,
        c == CoreOutputFormat::Html <==> crossing_format(c) == OutputFormat::Html,
        c == CoreOutputFormat::Pdf <==> crossing_format(c) == OutputFormat::Pdf,
        c == CoreOutputFormat::Epub <==> crossing_format(c) == OutputFormat::Epub,
        c == CoreOutputFormat::Daisy <==> crossing_format(c) == OutputFormat::Daisy,
        c == CoreOutputFormat::Docx <==> crossing_format(c) == OutputFormat::Docx,
        c == CoreOutputFormat::Brf <==> crossing_format(c) == OutputFormat::Brf,
        c == CoreOutputFormat::Mp3 <==> crossing_format(c) == OutputFormat::Mp3,
        c == CoreOutputFormat::OfflineHtml <==> crossing_format(c) == OutputFormat::OfflineHtml,
        c == CoreOutputFormat::Mobi <==> crossing_format(c) == OutputFormat::Mobi,
        c == CoreOutputFormat::HtmlStream <==> crossing_format(c) == OutputFormat::HtmlStream,
        s == CoreStage::Queue <==> crossing_stage(s) == Stage::Queue,
        s == CoreStage::Start <==> crossing_stage(s) == Stage::Start,
        s == CoreStage::Convert <==> crossing_stage(s) == Stage::Convert,
        s == CoreStage::AddImageDescriptions <==> crossing_stage(s) == Stage::AddImageDescriptions,
        s == CoreStage::Complete <==> crossing_stage(s) == Stage::Complete,
        f == OutputFormat::Epub ==> crate::model::format_name(core_format(f)) == "epub"@,
        f == OutputFormat::Daisy ==> crate::model::format_name(core_format(f)) == "daisy"@,
{
}

} // verus!
