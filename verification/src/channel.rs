//! The real-time document channel (`documents:<id>` over `/socket`): the
//! Phoenix wire frames, the events they carry, and the bookkeeping of a
//! joined channel. The connection itself is driven from outside; every
//! decision about what a frame means is made here.

use vstd::prelude::*;

use crate::error::{ScribeError, ScribeErrorView};
use crate::json::{
    field, field_ref, get_opt_string, get_string, is_record_shaped, json_string_literal,
    lookup, parse_json, parsed_json, quote_json, read_defaulted_opt_string, read_string,
    record_shaped, take_field, find_key, Json, JsonNumber,
};
use crate::model::{format_name, format_named, stage_named, OutputFormat, Stage};
use crate::text::{decimal, push_str, str_eq, u64_to_decimal};

verus! {

/// The text of the errors a channel reply can carry. The server's channel
/// error frames carry no sentence of their own, so these are fixed here.
pub const NOT_FOUND_MESSAGE: &'static str = "We couldn't find that.";

pub const FORBIDDEN_MESSAGE: &'static str = "You don't have permission to do that.";

pub const CONVERSION_IN_PROGRESS_MESSAGE: &'static str =
    "Another conversion is already running for this document. Please wait for it to finish.";

pub const RATE_LIMITED_MESSAGE: &'static str =
    "Too many conversions were started too quickly. Please wait a moment and try again.";

pub const NEEDS_PURCHASE_MESSAGE: &'static str =
    "You don't have enough page credits for this conversion.";

pub const PASSWORD_REQUIRED_MESSAGE: &'static str =
    "This document is password-protected. Enter its password to convert it.";

/// An event pushed asynchronously over a channel, outside of a direct reply
/// to something we sent.
#[derive(Debug, Clone, PartialEq, Eq)]
pub enum ChannelEvent {
    /// A conversion's stage or progress changed. `progress` is the number the
    /// server sent, kept exactly.
    Status { format: OutputFormat, stage: Stage, progress: JsonNumber },
    /// A chunk of streamed HTML content. Only sent for the `html_stream`
    /// format while it's still converting.
    Chunk { content: String },
    /// A format finished converting.
    ConversionComplete { format: OutputFormat, output_id: String },
    /// The server reported an error unrelated to a specific request we
    /// made (e.g. a conversion failed after it had already started).
    Error { reason: String },
    /// The document is password-protected and hasn't been unlocked yet.
    PasswordRequired,
}

pub enum ChannelEventView {
    Status { format: OutputFormat, stage: Stage, progress: JsonNumber },
    Chunk { content: Seq<char> },
    ConversionComplete { format: OutputFormat, output_id: Seq<char> },
    Error { reason: Seq<char> },
    PasswordRequired,
}

impl View for ChannelEvent {
    type V = ChannelEventView;

    open spec fn view(&self) -> ChannelEventView {
        match self {
            ChannelEvent::Status { format, stage, progress } => ChannelEventView::Status {
                format: *format,
                stage: *stage,
                progress: *progress,
            },
            ChannelEvent::Chunk { content } => ChannelEventView::Chunk { content: content@ },
            ChannelEvent::ConversionComplete { format, output_id } =>
                ChannelEventView::ConversionComplete { format: *format, output_id: output_id@ },
            ChannelEvent::Error { reason } => ChannelEventView::Error { reason: reason@ },
            ChannelEvent::PasswordRequired => ChannelEventView::PasswordRequired,
        }
    }
}

/// `value.get(key)` on a JSON value: the entry of an object, nothing for any
/// other kind of value.
pub open spec fn json_get(j: Json, key: Seq<char>) -> Option<Json> {
    match j {
        Json::Object(fields) => lookup(fields@, key),
        _ => None,
    }
}

/// A JSON string's text.
pub open spec fn text_of(v: Option<Json>) -> Option<Seq<char>> {
    match v {
        Some(Json::Str(s)) => Some(s@),
        _ => None,
    }
}

/// A JSON number.
pub open spec fn number_of(v: Option<Json>) -> Option<JsonNumber> {
    match v {
        Some(Json::Number(n)) => Some(n),
        _ => None,
    }
}

/// A stage as serde reads one from a JSON value: its name as a string, or an
/// object with its name as the one key and `null` as the value.
pub open spec fn stage_value(v: Option<Json>) -> Option<Stage> {
    match v {
        Some(Json::Str(s)) => stage_named(s@),
        Some(Json::Object(fields)) => if fields@.len() == 1 && fields@[0].1 is Null {
            stage_named(fields@[0].0@)
        } else {
            None
        },
        _ => None,
    }
}

/// A format named by a JSON string.
pub open spec fn format_value(v: Option<Json>) -> Option<OutputFormat> {
    match text_of(v) {
        Some(s) => format_named(s),
        None => None,
    }
}

/// The event a frame with this event name and payload announces, if it is
/// one we recognize and its payload has what that event needs.
pub open spec fn event_of(event: Seq<char>, payload: Json) -> Option<ChannelEventView> {
    if event == "status"@ {
        match (
            format_value(json_get(payload, "format"@)),
            stage_value(json_get(payload, "stage"@)),
            number_of(json_get(payload, "progress"@)),
        ) {
            (Some(format), Some(stage), Some(progress)) => Some(
                ChannelEventView::Status { format, stage, progress },
            ),
            _ => None,
        }
    } else if event == "chunk"@ {
        match text_of(json_get(payload, "content"@)) {
            Some(content) => Some(ChannelEventView::Chunk { content }),
            None => None,
        }
    } else if event == "conversion_complete"@ {
        match (
            format_value(json_get(payload, "format"@)),
            text_of(json_get(payload, "output_id"@)),
        ) {
            (Some(format), Some(output_id)) => Some(
                ChannelEventView::ConversionComplete { format, output_id },
            ),
            _ => None,
        }
    } else if event == "error"@ {
        match text_of(json_get(payload, "reason"@)) {
            Some(reason) => Some(ChannelEventView::Error { reason }),
            None => None,
        }
    } else if event == "password_required"@ {
        Some(ChannelEventView::PasswordRequired)
    } else {
        None
    }
}

/// `value.get(key)`, borrowed.
fn json_get_ref<'a>(j: &'a Json, key: &str) -> (r: Option<&'a Json>)
    ensures
        match r {
            Some(v) => json_get(*j, key@) == Some(*v),
            None => json_get(*j, key@) is None,
        },
{
    match j {
        Json::Object(fields) => {
            let i = find_key(fields, key);
            if i < fields.len() {
                Some(&fields[i].1)
            } else {
                None
            }
        },
        _ => None,
    }
}

fn text_of_ref(v: Option<&Json>) -> (r: Option<String>)
    ensures
        r.deep_view() == text_of(crate::json::deref_opt(v)),
{
    match v {
        Some(Json::Str(s)) => Some(s.clone()),
        _ => None,
    }
}

fn format_of_ref(v: Option<&Json>) -> (r: Option<OutputFormat>)
    ensures
        r == format_value(crate::json::deref_opt(v)),
{
    match v {
        Some(Json::Str(s)) => OutputFormat::parse(s.as_str()),
        _ => None,
    }
}

fn stage_of_ref(v: Option<&Json>) -> (r: Option<Stage>)
    ensures
        r == stage_value(crate::json::deref_opt(v)),
{
    match v {
        Some(Json::Str(s)) => Stage::parse(s.as_str()),
        Some(Json::Object(fields)) => {
            if fields.len() == 1 {
                match &fields[0].1 {
                    Json::Null => Stage::parse(fields[0].0.as_str()),
                    _ => None,
                }
            } else {
                None
            }
        },
        _ => None,
    }
}

/// The event a frame announces (see [`event_of`]).
pub fn parse_event(event: &str, payload: &Json) -> (r: Option<ChannelEvent>)
    ensures
        match r {
            Some(e) => event_of(event@, *payload) == Some(e@),
            None => event_of(event@, *payload) is None,
        },
{
    if str_eq(event, "status") {
        let format = format_of_ref(json_get_ref(payload, "format"));
        let stage = stage_of_ref(json_get_ref(payload, "stage"));
        let progress = match json_get_ref(payload, "progress") {
            Some(Json::Number(n)) => Some(*n),
            _ => None,
        };
        match (format, stage, progress) {
            (Some(format), Some(stage), Some(progress)) => Some(
                ChannelEvent::Status { format, stage, progress },
            ),
            _ => None,
        }
    } else if str_eq(event, "chunk") {
        match text_of_ref(json_get_ref(payload, "content")) {
            Some(content) => Some(ChannelEvent::Chunk { content }),
            None => None,
        }
    } else if str_eq(event, "conversion_complete") {
        let format = format_of_ref(json_get_ref(payload, "format"));
        let output_id = text_of_ref(json_get_ref(payload, "output_id"));
        match (format, output_id) {
            (Some(format), Some(output_id)) => Some(
                ChannelEvent::ConversionComplete { format, output_id },
            ),
            _ => None,
        }
    } else if str_eq(event, "error") {
        match text_of_ref(json_get_ref(payload, "reason")) {
            Some(reason) => Some(ChannelEvent::Error { reason }),
            None => None,
        }
    } else if str_eq(event, "password_required") {
        Some(ChannelEvent::PasswordRequired)
    } else {
        None
    }
}

/// The reason and purchase link of a channel error reply, if the reply's
/// response has the shape `{"reason": ..., "purchase_url": ...}`.
pub open spec fn error_reason(j: Json) -> Option<(Seq<char>, Option<Seq<char>>)> {
    if record_shaped(j, 2) {
        match (
            read_string(field(j, 0, "reason"@)),
            read_defaulted_opt_string(field(j, 1, "purchase_url"@)),
        ) {
            (Some(reason), Some(url)) => Some((reason, url)),
            _ => None,
        }
    } else {
        None
    }
}

/// The error a channel reply with a non-`ok` status stands for. A response
/// without a reason means the channel is unusable (`ChannelClosed`); the
/// known reasons get their own variants, and any other reason is passed on
/// as the text of a `Channel` error.
pub open spec fn channel_error_spec(response: Json) -> ScribeErrorView {
    match error_reason(response) {
        None => ScribeErrorView::ChannelClosed,
        Some((reason, url)) => if reason == "not_found"@ {
            ScribeErrorView::NotFound { message: NOT_FOUND_MESSAGE@ }
        } else if reason == "forbidden"@ {
            ScribeErrorView::Forbidden { message: FORBIDDEN_MESSAGE@ }
        } else if reason == "conversion_in_progress"@ {
            ScribeErrorView::ConversionInProgress { message: CONVERSION_IN_PROGRESS_MESSAGE@ }
        } else if reason == "rate_limited"@ {
            ScribeErrorView::RateLimited { message: RATE_LIMITED_MESSAGE@ }
        } else if reason == "needs_purchase"@ {
            ScribeErrorView::NeedsPurchase {
                message: NEEDS_PURCHASE_MESSAGE@,
                purchase_url: match url {
                    Some(u) => u,
                    None => Seq::empty(),
                },
            }
        } else if reason == "password_required"@ {
            ScribeErrorView::PasswordRequired { message: PASSWORD_REQUIRED_MESSAGE@ }
        } else {
            ScribeErrorView::Channel { message: reason }
        },
    }
}

pub fn map_channel_error(response: &Json) -> (r: ScribeError)
    ensures
        r@ == channel_error_spec(*response),
{
    if !is_record_shaped(response, 2) {
        return ScribeError::ChannelClosed;
    }
    let reason = get_string(field_ref(response, 0, "reason"));
    let url = get_opt_string(field_ref(response, 1, "purchase_url"), false);
    let (reason, url) = match (reason, url) {
        (Some(reason), Some(url)) => (reason, url),
        _ => {
            return ScribeError::ChannelClosed;
        },
    };
    if str_eq(reason.as_str(), "not_found") {
        ScribeError::NotFound { message: NOT_FOUND_MESSAGE.to_owned() }
    } else if str_eq(reason.as_str(), "forbidden") {
        ScribeError::Forbidden { message: FORBIDDEN_MESSAGE.to_owned() }
    } else if str_eq(reason.as_str(), "conversion_in_progress") {
        ScribeError::ConversionInProgress { message: CONVERSION_IN_PROGRESS_MESSAGE.to_owned() }
    } else if str_eq(reason.as_str(), "rate_limited") {
        ScribeError::RateLimited { message: RATE_LIMITED_MESSAGE.to_owned() }
    } else if str_eq(reason.as_str(), "needs_purchase") {
        ScribeError::NeedsPurchase {
            message: NEEDS_PURCHASE_MESSAGE.to_owned(),
            purchase_url: match url {
                Some(u) => u,
                None => String::new(),
            },
        }
    } else if str_eq(reason.as_str(), "password_required") {
        ScribeError::PasswordRequired { message: PASSWORD_REQUIRED_MESSAGE.to_owned() }
    } else {
        ScribeError::Channel { message: reason }
    }
}

/// A Phoenix channel wire frame: `[join_ref, ref, topic, event, payload]`.
#[derive(Debug, PartialEq, Eq)]
pub struct Frame {
    pub join_ref: Option<String>,
    pub ref_: Option<String>,
    pub topic: String,
    pub event: String,
    pub payload: Json,
}

/// A frame's parts, as text.
pub struct FrameView {
    pub join_ref: Option<Seq<char>>,
    pub ref_: Option<Seq<char>>,
    pub topic: Seq<char>,
    pub event: Seq<char>,
    pub payload: Json,
}

impl View for Frame {
    type V = FrameView;

    open spec fn view(&self) -> FrameView {
        FrameView {
            join_ref: self.join_ref.deep_view(),
            ref_: self.ref_.deep_view(),
            topic: self.topic@,
            event: self.event@,
            payload: self.payload,
        }
    }
}

/// An `Option<String>` element of a frame: `null` or a string.
pub open spec fn opt_text(j: Json) -> Option<Option<Seq<char>>> {
    match j {
        Json::Null => Some(None),
        Json::Str(s) => Some(Some(s@)),
        _ => None,
    }
}

/// The frame a JSON value is: an array of exactly five items, the first two
/// `null` or strings, the next two strings, the last anything.
pub open spec fn frame_of(j: Json) -> Option<FrameView> {
    match j {
        Json::Array(items) => if items@.len() == 5 {
            match (opt_text(items@[0]), opt_text(items@[1]), items@[2], items@[3]) {
                (Some(join_ref), Some(ref_), Json::Str(topic), Json::Str(event)) => Some(
                    FrameView { join_ref, ref_, topic: topic@, event: event@, payload: items@[4] },
                ),
                _ => None,
            }
        } else {
            None
        },
        _ => None,
    }
}

/// The frame a text message holds, if it holds one.
pub open spec fn frame_text_of(text: Seq<char>) -> Option<FrameView> {
    match parsed_json(text) {
        Some(j) => frame_of(j),
        None => None,
    }
}

fn opt_text_exec(j: Json) -> (r: Option<Option<String>>)
    ensures
        r.deep_view() == opt_text(j),
{
    match j {
        Json::Null => Some(None),
        Json::Str(s) => Some(Some(s)),
        _ => None,
    }
}

/// Reads a frame out of a text message; text that is not a frame is a
/// `Decode` error.
pub fn decode_frame(text: &str) -> (r: Result<Frame, ScribeError>)
    ensures
        match r {
            Ok(f) => frame_text_of(text@) == Some(f@),
            Err(e) => frame_text_of(text@) is None && e@ == ScribeErrorView::Decode,
        },
{
    let mut items = match parse_json(text) {
        Some(Json::Array(items)) => items,
        _ => {
            return Err(ScribeError::Decode);
        },
    };
    if items.len() != 5 {
        return Err(ScribeError::Decode);
    }
    let ghost all = items@;
    let payload = items.pop().unwrap();
    let event = items.pop().unwrap();
    let topic = items.pop().unwrap();
    let ref_ = items.pop().unwrap();
    let join_ref = items.pop().unwrap();
    assert(all == seq![join_ref, ref_, topic, event, payload]);
    let join_ref = match opt_text_exec(join_ref) {
        Some(x) => x,
        None => {
            return Err(ScribeError::Decode);
        },
    };
    let ref_ = match opt_text_exec(ref_) {
        Some(x) => x,
        None => {
            return Err(ScribeError::Decode);
        },
    };
    let topic = match topic {
        Json::Str(s) => s,
        _ => {
            return Err(ScribeError::Decode);
        },
    };
    let event = match event {
        Json::Str(s) => s,
        _ => {
            return Err(ScribeError::Decode);
        },
    };
    Ok(Frame { join_ref, ref_, topic, event, payload })
}

/// The JSON text of a frame whose refs and payload are given.
pub open spec fn frame_text(
    join_ref: Seq<char>,
    ref_: Seq<char>,
    topic: Seq<char>,
    event: Seq<char>,
    payload: Seq<char>,
) -> Seq<char> {
    "["@ + json_string_literal(join_ref) + ","@ + json_string_literal(ref_) + ","@
        + json_string_literal(topic) + ","@ + json_string_literal(event) + ","@ + payload + "]"@
}

/// Writes a frame as JSON text.
pub fn encode_frame(join_ref: &str, ref_: &str, topic: &str, event: &str, payload: &str) -> (r:
    String)
    ensures
        r@ == frame_text(join_ref@, ref_@, topic@, event@, payload@),
{
    let mut s = String::new();
    push_str(&mut s, "[");
    push_str(&mut s, quote_json(join_ref).as_str());
    push_str(&mut s, ",");
    push_str(&mut s, quote_json(ref_).as_str());
    push_str(&mut s, ",");
    push_str(&mut s, quote_json(topic).as_str());
    push_str(&mut s, ",");
    push_str(&mut s, quote_json(event).as_str());
    push_str(&mut s, ",");
    push_str(&mut s, payload);
    push_str(&mut s, "]");
    s
}

/// The payload asking for a conversion to `format`, with the document's
/// password when one is given.
pub open spec fn start_payload_text(format: OutputFormat, password: Option<Seq<char>>) -> Seq<
    char,
> {
    let head = "{"@ + json_string_literal("format"@) + ":"@ + json_string_literal(
        format_name(format),
    );
    match password {
        Some(p) => head + ","@ + json_string_literal("password"@) + ":"@ + json_string_literal(p)
            + "}"@,
        None => head + "}"@,
    }
}

fn start_payload(format: OutputFormat, password: Option<&str>) -> (r: String)
    ensures
        r@ == start_payload_text(format, password.deep_view()),
{
    let mut s = String::new();
    push_str(&mut s, "{");
    push_str(&mut s, quote_json("format").as_str());
    push_str(&mut s, ":");
    push_str(&mut s, quote_json(format.as_str()).as_str());
    match password {
        Some(p) => {
            push_str(&mut s, ",");
            push_str(&mut s, quote_json("password").as_str());
            push_str(&mut s, ":");
            push_str(&mut s, quote_json(p).as_str());
            push_str(&mut s, "}");
        },
        None => {
            push_str(&mut s, "}");
        },
    }
    s
}

/// A message read from the connection, by kind.
pub enum Incoming {
    /// A text message.
    Text(String),
    /// A ping, pong, raw frame or binary message: nothing for the channel.
    Control,
    /// The server closed the connection, or it ended.
    Closed,
    /// Reading from the connection failed.
    Failed,
}

/// What reading one message gives: a frame, nothing to act on, or the end
/// of the channel.
pub fn recv_step(incoming: Incoming) -> (r: Result<Option<Frame>, ScribeError>)
    ensures
        match incoming {
            Incoming::Text(t) => match r {
                Ok(Some(f)) => frame_text_of(t@) == Some(f@),
                Ok(None) => false,
                Err(e) => frame_text_of(t@) is None && e@ == ScribeErrorView::Decode,
            },
            Incoming::Control => r matches Ok(None),
            Incoming::Closed => r matches Err(ScribeError::ChannelClosed),
            Incoming::Failed => r matches Err(ScribeError::WebSocket),
        },
{
    match incoming {
        Incoming::Text(t) => match decode_frame(t.as_str()) {
            Ok(f) => Ok(Some(f)),
            Err(e) => Err(e),
        },
        Incoming::Control => Ok(None),
        Incoming::Closed => Err(ScribeError::ChannelClosed),
        Incoming::Failed => Err(ScribeError::WebSocket),
    }
}

/// The status and response of a reply payload `{"status": ..., "response": ...}`;
/// a missing response reads as `null`.
pub open spec fn reply_of(payload: Json) -> Option<(Seq<char>, Json)> {
    if record_shaped(payload, 2) {
        match read_string(field(payload, 0, "status"@)) {
            Some(status) => Some(
                (
                    status,
                    match field(payload, 1, "response"@) {
                        Some(r) => r,
                        None => Json::Null,
                    },
                ),
            ),
            None => None,
        }
    } else {
        None
    }
}

/// What a reply payload comes to: its response when the status is `ok`, else
/// the error its response describes; a payload that is not a reply is a
/// `Decode` error.
pub open spec fn reply_outcome(payload: Json) -> Result<Json, ScribeErrorView> {
    match reply_of(payload) {
        None => Err(ScribeErrorView::Decode),
        Some((status, response)) => if status == "ok"@ {
            Ok(response)
        } else {
            Err(channel_error_spec(response))
        },
    }
}

pub fn decode_reply(payload: Json) -> (r: Result<Json, ScribeError>)
    ensures
        match r {
            Ok(j) => reply_outcome(payload) == Ok::<Json, ScribeErrorView>(j),
            Err(e) => reply_outcome(payload) == Err::<Json, ScribeErrorView>(e@),
        },
{
    let mut payload = payload;
    if !is_record_shaped(&payload, 2) {
        return Err(ScribeError::Decode);
    }
    let status = match get_string(field_ref(&payload, 0, "status")) {
        Some(s) => s,
        None => {
            return Err(ScribeError::Decode);
        },
    };
    let ghost before = payload;
    let response = match take_field(&mut payload, 1, "response") {
        Some(r) => r,
        None => Json::Null,
    };
    assert(reply_of(before) == Some((status@, response)));
    if str_eq(status.as_str(), "ok") {
        Ok(response)
    } else {
        Err(map_channel_error(&response))
    }
}

/// The output id a `start_conversion` reply carries; a reply without one
/// means the channel is unusable.
pub open spec fn output_id_of(response: Json) -> Option<Seq<char>> {
    text_of(json_get(response, "output_id"@))
}

pub fn reply_output_id(response: &Json) -> (r: Result<String, ScribeError>)
    ensures
        match r {
            Ok(id) => output_id_of(*response) == Some(id@),
            Err(e) => output_id_of(*response) is None && e@ == ScribeErrorView::ChannelClosed,
        },
{
    match text_of_ref(json_get_ref(response, "output_id")) {
        Some(id) => Ok(id),
        None => Err(ScribeError::ChannelClosed),
    }
}

/// The topic of a document's channel.
pub open spec fn document_topic(document_id: Seq<char>) -> Seq<char> {
    "documents:"@ + document_id
}

/// The ref the join request goes out under.
pub open spec fn join_ref_text() -> Seq<char> {
    decimal(1)
}

/// A channel's bookkeeping as it can be: its join went out under ref `1`,
/// and the next ref is at least `2`. Every state [`ChannelState::new`] makes,
/// and every state a method leaves, is one.
pub open spec fn channel_state_wf(v: ChannelStateView) -> bool {
    v.next_ref >= 2 && v.join_ref == join_ref_text()
}

/// The bookkeeping of a joined channel: its topic, the ref its join went out
/// under, the next ref to use, and the events that arrived while a reply was
/// awaited, oldest first.
pub struct ChannelState {
    topic: String,
    join_ref: String,
    next_ref: u64,
    pending: Vec<ChannelEvent>,
}

pub struct ChannelStateView {
    pub topic: Seq<char>,
    pub join_ref: Seq<char>,
    pub next_ref: nat,
    pub pending: Seq<ChannelEventView>,
}

impl View for ChannelState {
    type V = ChannelStateView;

    closed spec fn view(&self) -> ChannelStateView {
        ChannelStateView {
            topic: self.topic@,
            join_ref: self.join_ref@,
            next_ref: self.next_ref as nat,
            pending: self.pending@.map_values(|e: ChannelEvent| e@),
        }
    }
}

/// The event, of those a frame may carry, that a channel keeps or hands out:
/// one on the channel's own topic that [`event_of`] recognizes.
pub open spec fn topic_event(topic: Seq<char>, f: FrameView) -> Option<ChannelEventView> {
    if f.topic == topic {
        event_of(f.event, f.payload)
    } else {
        None
    }
}

/// Whether a frame is the reply to the request sent under `awaited`.
pub open spec fn is_reply_to(topic: Seq<char>, awaited: Seq<char>, f: FrameView) -> bool {
    f.topic == topic && f.event == "phx_reply"@ && f.ref_ == Some(awaited)
}

impl ChannelState {
    /// A channel for `document_id`, about to be joined: topic
    /// `documents:<id>`, join ref `1`, next ref `2`, nothing pending.
    pub fn new(document_id: &str) -> (r: ChannelState)
        ensures
            r@.topic == document_topic(document_id@),
            r@.join_ref == join_ref_text(),
            r@.next_ref == 2,
            r@.pending.len() == 0,
            channel_state_wf(r@),
    {
        let mut topic = String::new();
        push_str(&mut topic, "documents:");
        push_str(&mut topic, document_id);
        let join_ref = u64_to_decimal(1);
        let r = ChannelState { topic, join_ref, next_ref: 2, pending: Vec::new() };
        assert(r@.pending =~= Seq::<ChannelEventView>::empty());
        r
    }

    /// The channel's topic.
    pub fn topic(&self) -> (r: &str)
        ensures
            r@ == self@.topic,
    {
        self.topic.as_str()
    }

    /// The ref the join request went out under.
    pub fn join_ref(&self) -> (r: &str)
        ensures
            r@ == self@.join_ref,
    {
        self.join_ref.as_str()
    }

    /// The `phx_join` frame that joins the channel: sent under the join ref as
    /// both its refs, with an empty payload.
    pub fn join_frame(&self) -> (r: String)
        ensures
            r@ == frame_text(self@.join_ref, self@.join_ref, self@.topic, "phx_join"@, "{}"@),
    {
        encode_frame(self.join_ref.as_str(), self.join_ref.as_str(), self.topic.as_str(), "phx_join", "{}")
    }

    /// Whether another ref can be handed out.
    pub fn can_send(&self) -> (r: bool)
        ensures
            r == (self@.next_ref < u64::MAX),
    {
        self.next_ref < u64::MAX
    }

    /// Hands out the next ref: the next number, in decimal.
    fn take_ref(&mut self) -> (r: String)
        requires
            old(self)@.next_ref < u64::MAX,
        ensures
            r@ == decimal(old(self)@.next_ref),
            final(self)@ == (ChannelStateView { next_ref: old(self)@.next_ref + 1, ..old(self)@ }),
    {
        let r = u64_to_decimal(self.next_ref);
        self.next_ref = self.next_ref + 1;
        r
    }

    /// Starts a `start_conversion` request for `format` (with the document's
    /// password, when given): returns the ref it goes out under and the frame
    /// to send. The ref is fresh: it is the next number, which no earlier
    /// request and not the join used.
    pub fn start_conversion_frame(&mut self, format: OutputFormat, password: Option<&str>) -> (r: (
        String,
        String,
    ))
        requires
            old(self)@.next_ref < u64::MAX,
        ensures
            r.0@ == decimal(old(self)@.next_ref),
            r.1@ == frame_text(
                old(self)@.join_ref,
                r.0@,
                old(self)@.topic,
                "start_conversion"@,
                start_payload_text(format, password.deep_view()),
            ),
            final(self)@ == (ChannelStateView { next_ref: old(self)@.next_ref + 1, ..old(self)@ }),
            channel_state_wf(old(self)@) ==> channel_state_wf(final(self)@),
    {
        let ref_ = self.take_ref();
        let payload = start_payload(format, password);
        let frame = encode_frame(
            self.join_ref.as_str(),
            ref_.as_str(),
            self.topic.as_str(),
            "start_conversion",
            payload.as_str(),
        );
        (ref_, frame)
    }

    /// Handles a frame read while awaiting the reply to the request sent under
    /// `awaited`. The reply ends the wait with what it comes to
    /// ([`reply_outcome`]); a recognized event on this channel's topic is kept
    /// for later, after those already kept; anything else is dropped.
    pub fn on_frame_awaiting_reply(&mut self, awaited: &str, frame: Frame) -> (r: Option<
        Result<Json, ScribeError>,
    >)
        ensures
            is_reply_to(old(self)@.topic, awaited@, frame@) ==> match r {
                Some(Ok(j)) => reply_outcome(frame@.payload) == Ok::<Json, ScribeErrorView>(j),
                Some(Err(e)) => reply_outcome(frame@.payload) == Err::<Json, ScribeErrorView>(e@),
                None => false,
            },
            is_reply_to(old(self)@.topic, awaited@, frame@) ==> final(self)@ == old(self)@,
            !is_reply_to(old(self)@.topic, awaited@, frame@) ==> r is None && final(self)@ == (
            ChannelStateView {
                pending: match topic_event(old(self)@.topic, frame@) {
                    Some(e) => old(self)@.pending.push(e),
                    None => old(self)@.pending,
                },
                ..old(self)@
            }),
            channel_state_wf(old(self)@) ==> channel_state_wf(final(self)@),
    {
        if !str_eq(frame.topic.as_str(), self.topic.as_str()) {
            return None;
        }
        let is_reply = str_eq(frame.event.as_str(), "phx_reply") && match &frame.ref_ {
            Some(r) => str_eq(r.as_str(), awaited),
            None => false,
        };
        if is_reply {
            return Some(decode_reply(frame.payload));
        }
        match parse_event(frame.event.as_str(), &frame.payload) {
            Some(e) => {
                let ghost before = self.pending@;
                self.pending.push(e);
                proof {
                    assert(self.pending@.map_values(|e: ChannelEvent| e@) =~= before.map_values(
                        |e: ChannelEvent| e@,
                    ).push(e@));
                }
            },
            None => {},
        }
        None
    }

    /// The oldest event kept while a reply was awaited, if any; it is no
    /// longer kept afterwards.
    pub fn take_pending(&mut self) -> (r: Option<ChannelEvent>)
        ensures
            old(self)@.pending.len() == 0 ==> r is None && final(self)@ == old(self)@,
            old(self)@.pending.len() > 0 ==> (r matches Some(e) && e@ == old(self)@.pending[0]),
            old(self)@.pending.len() > 0 ==> final(self)@ == (ChannelStateView {
                pending: old(self)@.pending.drop_first(),
                ..old(self)@
            }),
            channel_state_wf(old(self)@) ==> channel_state_wf(final(self)@),
    {
        if self.pending.len() == 0 {
            return None;
        }
        let ghost before = self.pending@;
        let e = self.pending.remove(0);
        proof {
            assert(self.pending@.map_values(|e: ChannelEvent| e@) =~= before.map_values(
                |e: ChannelEvent| e@,
            ).drop_first());
        }
        Some(e)
    }

    /// The event a frame read while no reply is awaited hands to the caller,
    /// if it is one ([`topic_event`]).
    pub fn event_from_frame(&self, frame: &Frame) -> (r: Option<ChannelEvent>)
        ensures
            match r {
                Some(e) => topic_event(self@.topic, frame@) == Some(e@),
                None => topic_event(self@.topic, frame@) is None,
            },
    {
        if !str_eq(frame.topic.as_str(), self.topic.as_str()) {
            return None;
        }
        parse_event(frame.event.as_str(), &frame.payload)
    }
}

/// Refs never repeat: two requests sent under different numbers go out under
/// different refs, and none of them under the join's ref.
pub proof fn lemma_refs_are_fresh(a: nat, b: nat)
    ensures
        a != b ==> decimal(a) != decimal(b),
        a >= 2 ==> decimal(a) != join_ref_text(),
{
    crate::text::lemma_decimal_injective(a, b);
    crate::text::lemma_decimal_injective(a, 1);
}

/// Every reason the server is known to give for refusing a channel request
/// gets its own error, with its own sentence; only a reason outside that set
/// comes back as a `Channel` error carrying the reason, and a response with
/// no reason at all means the channel is unusable.
pub proof fn lemma_known_reasons_get_their_own_errors(response: Json)
    ensures
        error_reason(response) is None ==> channel_error_spec(response)
            == ScribeErrorView::ChannelClosed,
        error_reason(response) matches Some((r, u)) ==> {
            &&& r == "not_found"@ ==> channel_error_spec(response) == (ScribeErrorView::NotFound {
                message: NOT_FOUND_MESSAGE@,
            })
            &&& r == "forbidden"@ ==> channel_error_spec(response) == (ScribeErrorView::Forbidden {
                message: FORBIDDEN_MESSAGE@,
            })
            &&& r == "conversion_in_progress"@ ==> channel_error_spec(response) == (
            ScribeErrorView::ConversionInProgress {
                message: CONVERSION_IN_PROGRESS_MESSAGE@,
            })
            &&& r == "rate_limited"@ ==> channel_error_spec(response) == (
            ScribeErrorView::RateLimited { message: RATE_LIMITED_MESSAGE@ })
            &&& r == "needs_purchase"@ ==> channel_error_spec(response) == (
            ScribeErrorView::NeedsPurchase {
                message: NEEDS_PURCHASE_MESSAGE@,
                purchase_url: match u {
                    Some(url) => url,
                    None => Seq::empty(),
                },
            })
            &&& r == "password_required"@ ==> channel_error_spec(response) == (
            ScribeErrorView::PasswordRequired { message: PASSWORD_REQUIRED_MESSAGE@ })
        },
        channel_error_spec(response) is Channel ==> (error_reason(response) matches Some((r, _))
            && r != "not_found"@ && r != "forbidden"@ && r != "conversion_in_progress"@ && r
            != "rate_limited"@ && r != "needs_purchase"@ && r != "password_required"@
            && channel_error_spec(response) == (ScribeErrorView::Channel { message: r })),
{
    reveal_strlit("not_found");
    reveal_strlit("forbidden");
    reveal_strlit("conversion_in_progress");
    reveal_strlit("rate_limited");
    reveal_strlit("needs_purchase");
    reveal_strlit("password_required");
    assert("forbidden"@[0] != "not_found"@[0]);
    assert("forbidden"@ != "not_found"@);
    assert("conversion_in_progress"@.len() != "not_found"@.len());
    assert("conversion_in_progress"@.len() != "forbidden"@.len());
    assert("rate_limited"@.len() != "not_found"@.len());
    assert("rate_limited"@.len() != "conversion_in_progress"@.len());
    assert("needs_purchase"@.len() != "rate_limited"@.len());
    assert("password_required"@.len() != "needs_purchase"@.len());
}

} // verus!
