//! The value types of the conversion API: output formats and conversion stages.

use vstd::prelude::*;

use crate::text::str_eq;

verus! {

/// A document conversion output format.
#[derive(Debug, Clone, Copy, PartialEq, Eq, Hash, Structural)]
pub enum OutputFormat {
    Html,
    Pdf,
    Epub,
    Daisy,
    Docx,
    Brf,
    Mp3,
    OfflineHtml,
    Mobi,
    HtmlStream,
}

/// The wire name of each output format.
pub open spec fn format_name(f: OutputFormat) -> Seq<char> {
    match f {
        OutputFormat::Html => "html"@,
        OutputFormat::Pdf => "pdf"@,
        OutputFormat::Epub => "epub"@,
        OutputFormat::Daisy => "daisy"@,
        OutputFormat::Docx => "docx"@,
        OutputFormat::Brf => "brf"@,
        OutputFormat::Mp3 => "mp3"@,
        OutputFormat::OfflineHtml => "offline_html"@,
        OutputFormat::Mobi => "mobi"@,
        OutputFormat::HtmlStream => "html_stream"@,
    }
}

/// The format whose wire name is `s`, if there is one.
pub open spec fn format_named(s: Seq<char>) -> Option<OutputFormat> {
    if s == "html"@ {
        Some(OutputFormat::Html)
    } else if s == "pdf"@ {
        Some(OutputFormat::Pdf)
    } else if s == "epub"@ {
        Some(OutputFormat::Epub)
    } else if s == "daisy"@ {
        Some(OutputFormat::Daisy)
    } else if s == "docx"@ {
        Some(OutputFormat::Docx)
    } else if s == "brf"@ {
        Some(OutputFormat::Brf)
    } else if s == "mp3"@ {
        Some(OutputFormat::Mp3)
    } else if s == "offline_html"@ {
        Some(OutputFormat::OfflineHtml)
    } else if s == "mobi"@ {
        Some(OutputFormat::Mobi)
    } else if s == "html_stream"@ {
        Some(OutputFormat::HtmlStream)
    } else {
        None
    }
}

impl OutputFormat {
    #[must_use]
    pub fn as_str(&self) -> (r: &'static str)
        ensures
            r@ == format_name(*self),
    {
        match self {
            OutputFormat::Html => "html",
            OutputFormat::Pdf => "pdf",
            OutputFormat::Epub => "epub",
            OutputFormat::Daisy => "daisy",
            OutputFormat::Docx => "docx",
            OutputFormat::Brf => "brf",
            OutputFormat::Mp3 => "mp3",
            OutputFormat::OfflineHtml => "offline_html",
            OutputFormat::Mobi => "mobi",
            OutputFormat::HtmlStream => "html_stream",
        }
    }

    #[must_use]
    pub fn parse(s: &str) -> (r: Option<Self>)
        ensures
            r == format_named(s@),
    {
        if str_eq(s, "html") {
            Some(OutputFormat::Html)
        } else if str_eq(s, "pdf") {
            Some(OutputFormat::Pdf)
        } else if str_eq(s, "epub") {
            Some(OutputFormat::Epub)
        } else if str_eq(s, "daisy") {
            Some(OutputFormat::Daisy)
        } else if str_eq(s, "docx") {
            Some(OutputFormat::Docx)
        } else if str_eq(s, "brf") {
            Some(OutputFormat::Brf)
        } else if str_eq(s, "mp3") {
            Some(OutputFormat::Mp3)
        } else if str_eq(s, "offline_html") {
            Some(OutputFormat::OfflineHtml)
        } else if str_eq(s, "mobi") {
            Some(OutputFormat::Mobi)
        } else if str_eq(s, "html_stream") {
            Some(OutputFormat::HtmlStream)
        } else {
            None
        }
    }
}

/// No two formats share a wire name.
proof fn lemma_format_name_injective(f: OutputFormat, g: OutputFormat)
    ensures
        format_name(f) == format_name(g) ==> f == g,
{
    reveal_strlit("html");
    reveal_strlit("pdf");
    reveal_strlit("epub");
    reveal_strlit("daisy");
    reveal_strlit("docx");
    reveal_strlit("brf");
    reveal_strlit("mp3");
    reveal_strlit("offline_html");
    reveal_strlit("mobi");
    reveal_strlit("html_stream");
    if format_name(f) == format_name(g) {
        assert(format_name(f).len() == format_name(g).len());
        assert(format_name(f)[0] == format_name(g)[0]);
    }
}

/// Parsing the wire name of a format gives back that format, and a name that
/// parses is the wire name of what it parses to.
pub proof fn lemma_format_name_round_trip(f: OutputFormat, s: Seq<char>)
    ensures
        format_named(format_name(f)) == Some(f),
        format_named(s) matches Some(g) ==> format_name(g) == s,
{
    lemma_format_name_injective(f, OutputFormat::Html);
    lemma_format_name_injective(f, OutputFormat::Pdf);
    lemma_format_name_injective(f, OutputFormat::Epub);
    lemma_format_name_injective(f, OutputFormat::Daisy);
    lemma_format_name_injective(f, OutputFormat::Docx);
    lemma_format_name_injective(f, OutputFormat::Brf);
    lemma_format_name_injective(f, OutputFormat::Mp3);
    lemma_format_name_injective(f, OutputFormat::OfflineHtml);
    lemma_format_name_injective(f, OutputFormat::Mobi);
    lemma_format_name_injective(f, OutputFormat::HtmlStream);
}

/// The current stage of a document conversion.
#[derive(Debug, Clone, Copy, PartialEq, Eq, Hash, Structural)]
pub enum Stage {
    Queue,
    Start,
    Convert,
    AddImageDescriptions,
    Complete,
}

/// The wire name of each stage.
pub open spec fn stage_name(s: Stage) -> Seq<char> {
    match s {
        Stage::Queue => "queue"@,
        Stage::Start => "start"@,
        Stage::Convert => "convert"@,
        Stage::AddImageDescriptions => "add_image_descriptions"@,
        Stage::Complete => "complete"@,
    }
}

/// The stage whose wire name is `s`, if there is one.
pub open spec fn stage_named(s: Seq<char>) -> Option<Stage> {
    if s == "queue"@ {
        Some(Stage::Queue)
    } else if s == "start"@ {
        Some(Stage::Start)
    } else if s == "convert"@ {
        Some(Stage::Convert)
    } else if s == "add_image_descriptions"@ {
        Some(Stage::AddImageDescriptions)
    } else if s == "complete"@ {
        Some(Stage::Complete)
    } else {
        None
    }
}

impl Stage {
    #[must_use]
    pub fn is_complete(&self) -> (r: bool)
        ensures
            r == (*self == Stage::Complete),
    {
        matches!(self, Stage::Complete)
    }

    #[must_use]
    pub fn as_str(&self) -> (r: &'static str)
        ensures
            r@ == stage_name(*self),
    {
        match self {
            Stage::Queue => "queue",
            Stage::Start => "start",
            Stage::Convert => "convert",
            Stage::AddImageDescriptions => "add_image_descriptions",
            Stage::Complete => "complete",
        }
    }

    /// The stage a wire name denotes; `None` for any other text.
    #[must_use]
    pub fn parse(s: &str) -> (r: Option<Self>)
        ensures
            r == stage_named(s@),
    {
        if str_eq(s, "queue") {
            Some(Stage::Queue)
        } else if str_eq(s, "start") {
            Some(Stage::Start)
        } else if str_eq(s, "convert") {
            Some(Stage::Convert)
        } else if str_eq(s, "add_image_descriptions") {
            Some(Stage::AddImageDescriptions)
        } else if str_eq(s, "complete") {
            Some(Stage::Complete)
        } else {
            None
        }
    }
}

proof fn lemma_stage_name_injective(a: Stage, b: Stage)
    ensures
        stage_name(a) == stage_name(b) ==> a == b,
{
    reveal_strlit("queue");
    reveal_strlit("start");
    reveal_strlit("convert");
    reveal_strlit("add_image_descriptions");
    reveal_strlit("complete");
    if stage_name(a) == stage_name(b) {
        assert(stage_name(a).len() == stage_name(b).len());
        assert(stage_name(a)[0] == stage_name(b)[0]);
        assert(stage_name(a)[1] == stage_name(b)[1]);
    }
}

/// A stage's wire name parses back to that stage, and a name that parses is
/// the wire name of what it parses to.
pub proof fn lemma_stage_name_round_trip(st: Stage, s: Seq<char>)
    ensures
        stage_named(stage_name(st)) == Some(st),
        stage_named(s) matches Some(t) ==> stage_name(t) == s,
{
    lemma_stage_name_injective(st, Stage::Queue);
    lemma_stage_name_injective(st, Stage::Start);
    lemma_stage_name_injective(st, Stage::Convert);
    lemma_stage_name_injective(st, Stage::AddImageDescriptions);
    lemma_stage_name_injective(st, Stage::Complete);
}

/// Response body of `POST /api/documents`.
#[derive(Debug, Clone, PartialEq, Eq)]
pub struct CreatedDocument {
    pub document_id: String,
}

/// What to create a document from.
#[derive(Debug, Clone, PartialEq, Eq)]
pub enum DocumentSource {
    /// Upload file bytes directly.
    File { file_name: String, bytes: Vec<u8> },
    /// Have the server fetch the document from a URL.
    Url(String),
}

/// A `(display_name, language_code)` pair from `GET /api/settings/languages`.
#[derive(Debug, Clone, PartialEq, Eq)]
pub struct Language(pub String, pub String);

/// A `(display_name, locale)` pair from `GET /api/settings/dialects`.
#[derive(Debug, Clone, PartialEq, Eq)]
pub struct Dialect(pub String, pub String);

/// A `(display_name, table_id)` pair from `GET /api/settings/braille_tables`.
#[derive(Debug, Clone, PartialEq, Eq)]
pub struct BrailleTable(pub String, pub String);

/// A `(display_name, voice_short_name, has_sample)` triple from
/// `GET /api/settings/voices`.
#[derive(Debug, Clone, PartialEq, Eq)]
pub struct Voice(pub String, pub String, pub bool);

/// One row from `GET /api/documents/trash`.
#[derive(Debug, Clone, PartialEq, Eq)]
pub struct TrashedDocument {
    pub id: String,
    pub title: Option<String>,
    pub page_count: Option<i64>,
    /// ISO 8601 UTC timestamp of when the document was created.
    pub inserted_at: String,
    /// ISO 8601 UTC timestamp of when the document was moved to the trash.
    pub trashed_at: String,
    /// ISO 8601 UTC timestamp of when the document will be permanently
    /// deleted if it isn't recovered first.
    pub permanently_delete_at: String,
}

/// A user's push-notification preference.
#[derive(Debug, Clone, Copy, PartialEq, Eq)]
pub struct NotificationSettings {
    pub push_notify_when_complete: bool,
}

/// The authenticated user's contact details, for read-only display.
#[derive(Debug, Clone, PartialEq, Eq)]
pub struct AccountInfo {
    pub first_name: Option<String>,
    pub last_name: Option<String>,
    pub email: Option<String>,
    pub phone_number: Option<String>,
    pub organization_name: Option<String>,
}

/// A downloaded output: its bytes, and the file name the server suggested.
#[derive(Debug, Clone, PartialEq, Eq)]
pub struct Download {
    pub data: Vec<u8>,
    pub file_name: Option<String>,
}

} // verus!
