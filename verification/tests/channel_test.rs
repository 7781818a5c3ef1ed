use scribe_client::channel::{
    decode_frame, decode_reply, encode_frame, map_channel_error, parse_event, recv_step,
    reply_output_id, ChannelEvent, ChannelState, Frame, Incoming, NEEDS_PURCHASE_MESSAGE,
    NOT_FOUND_MESSAGE,
};
use scribe_client::error::ScribeError;
use scribe_client::json::{parse_json, Json, JsonNumber};
use scribe_client::model::{OutputFormat, Stage};

fn json(text: &str) -> Json {
    parse_json(text).unwrap()
}

fn frame(text: &str) -> Frame {
    decode_frame(text).unwrap()
}

#[test]
fn status_events_keep_the_progress_number() {
    let e = parse_event("status", &json(r#"{"format":"pdf","stage":"convert","progress":0.5}"#));
    assert_eq!(
        e,
        Some(ChannelEvent::Status {
            format: OutputFormat::Pdf,
            stage: Stage::Convert,
            progress: JsonNumber::Float(0.5f64.to_bits()),
        })
    );
    let e = parse_event("status", &json(r#"{"format":"mp3","stage":"complete","progress":1}"#));
    assert_eq!(
        e,
        Some(ChannelEvent::Status {
            format: OutputFormat::Mp3,
            stage: Stage::Complete,
            progress: JsonNumber::PosInt(1),
        })
    );
}

#[test]
fn other_events_are_read_by_name() {
    assert_eq!(
        parse_event("chunk", &json(r#"{"content":"<p>hi</p>"}"#)),
        Some(ChannelEvent::Chunk { content: "<p>hi</p>".into() })
    );
    assert_eq!(
        parse_event("conversion_complete", &json(r#"{"format":"epub","output_id":"out-9"}"#)),
        Some(ChannelEvent::ConversionComplete { format: OutputFormat::Epub, output_id: "out-9".into() })
    );
    assert_eq!(
        parse_event("error", &json(r#"{"reason":"invalid_password"}"#)),
        Some(ChannelEvent::Error { reason: "invalid_password".into() })
    );
    assert_eq!(parse_event("password_required", &json("{}")), Some(ChannelEvent::PasswordRequired));
}

#[test]
fn unknown_or_incomplete_events_are_ignored() {
    assert_eq!(parse_event("presence_diff", &json("{}")), None);
    assert_eq!(parse_event("status", &json(r#"{"format":"pdf","stage":"convert"}"#)), None);
    assert_eq!(parse_event("status", &json(r#"{"format":"tiff","stage":"convert","progress":1}"#)), None);
    assert_eq!(parse_event("chunk", &json(r#"{"content":7}"#)), None);
}

#[test]
fn channel_errors_map_to_variants() {
    assert_eq!(
        map_channel_error(&json(r#"{"reason":"not_found"}"#)),
        ScribeError::NotFound { message: NOT_FOUND_MESSAGE.into() }
    );
    assert_eq!(
        map_channel_error(&json(r#"{"reason":"needs_purchase","purchase_url":"https://buy"}"#)),
        ScribeError::NeedsPurchase {
            message: NEEDS_PURCHASE_MESSAGE.into(),
            purchase_url: "https://buy".into()
        }
    );
    assert_eq!(
        map_channel_error(&json(r#"{"reason":"needs_purchase"}"#)),
        ScribeError::NeedsPurchase { message: NEEDS_PURCHASE_MESSAGE.into(), purchase_url: String::new() }
    );
    assert!(matches!(
        map_channel_error(&json(r#"{"reason":"rate_limited"}"#)),
        ScribeError::RateLimited { .. }
    ));
    assert_eq!(
        map_channel_error(&json(r#"{"reason":"odd"}"#)),
        ScribeError::Channel { message: "odd".into() }
    );
    assert_eq!(map_channel_error(&json("{}")), ScribeError::ChannelClosed);
}

#[test]
fn frames_decode_from_the_five_element_array() {
    let f = frame(r#"["1","2","documents:doc-1","phx_reply",{"status":"ok","response":{}}]"#);
    assert_eq!(f.join_ref.as_deref(), Some("1"));
    assert_eq!(f.ref_.as_deref(), Some("2"));
    assert_eq!(f.topic, "documents:doc-1");
    assert_eq!(f.event, "phx_reply");
    let f = frame(r#"[null,null,"documents:doc-1","status",{}]"#);
    assert_eq!(f.join_ref, None);
    assert_eq!(decode_frame(r#"["1","2","t","e"]"#), Err(ScribeError::Decode));
    assert_eq!(decode_frame("not json"), Err(ScribeError::Decode));
}

#[test]
fn frames_encode_as_the_five_element_array() {
    let text = encode_frame("1", "3", "documents:doc-1", "start_conversion", r#"{"format":"pdf"}"#);
    assert_eq!(text, r#"["1","3","documents:doc-1","start_conversion",{"format":"pdf"}]"#);
}

#[test]
fn reading_the_connection() {
    assert!(matches!(recv_step(Incoming::Control), Ok(None)));
    assert_eq!(recv_step(Incoming::Closed), Err(ScribeError::ChannelClosed));
    assert_eq!(recv_step(Incoming::Failed), Err(ScribeError::WebSocket));
    assert_eq!(recv_step(Incoming::Text("[".into())), Err(ScribeError::Decode));
    assert!(matches!(
        recv_step(Incoming::Text(r#"[null,null,"t","e",{}]"#.into())),
        Ok(Some(_))
    ));
}

#[test]
fn replies_are_ok_or_the_mapped_error() {
    assert_eq!(
        decode_reply(json(r#"{"status":"ok","response":{"output_id":"o1"}}"#)),
        Ok(json(r#"{"output_id":"o1"}"#))
    );
    assert_eq!(decode_reply(json(r#"{"status":"ok"}"#)), Ok(Json::Null));
    assert_eq!(
        decode_reply(json(r#"{"status":"error","response":{"reason":"forbidden"}}"#)),
        Err(map_channel_error(&json(r#"{"reason":"forbidden"}"#)))
    );
    assert_eq!(decode_reply(json(r#"{"response":{}}"#)), Err(ScribeError::Decode));
    assert_eq!(reply_output_id(&json(r#"{"output_id":"o1"}"#)), Ok("o1".into()));
    assert_eq!(reply_output_id(&json("{}")), Err(ScribeError::ChannelClosed));
}

#[test]
fn joining_then_starting_a_conversion() {
    let mut state = ChannelState::new("doc-1");
    assert_eq!(state.topic(), "documents:doc-1");
    assert_eq!(state.join_ref(), "1");
    assert_eq!(state.join_frame(), r#"["1","1","documents:doc-1","phx_join",{}]"#);

    // An event that arrives before the join reply is kept for later.
    let early = frame(r#"[null,null,"documents:doc-1","status",{"format":"pdf","stage":"queue","progress":0}]"#);
    assert_eq!(state.on_frame_awaiting_reply("1", early), None);
    // A frame for another topic is dropped.
    let stray = frame(r#"[null,null,"documents:other","chunk",{"content":"x"}]"#);
    assert_eq!(state.on_frame_awaiting_reply("1", stray), None);
    let reply = frame(r#"["1","1","documents:doc-1","phx_reply",{"status":"ok","response":{}}]"#);
    assert_eq!(state.on_frame_awaiting_reply("1", reply), Some(Ok(json("{}"))));

    assert!(state.can_send());
    let (ref_, text) = state.start_conversion_frame(OutputFormat::Pdf, None);
    assert_eq!(ref_, "2");
    assert_eq!(text, r#"["1","2","documents:doc-1","start_conversion",{"format":"pdf"}]"#);
    let (ref_, text) = state.start_conversion_frame(OutputFormat::Brf, Some("pw"));
    assert_eq!(ref_, "3");
    assert_eq!(
        text,
        r#"["1","3","documents:doc-1","start_conversion",{"format":"brf","password":"pw"}]"#
    );

    // A reply to another ref is not the awaited one.
    let other = frame(r#"["1","2","documents:doc-1","phx_reply",{"status":"ok","response":{}}]"#);
    assert_eq!(state.on_frame_awaiting_reply("3", other), None);

    assert_eq!(
        state.take_pending(),
        Some(ChannelEvent::Status {
            format: OutputFormat::Pdf,
            stage: Stage::Queue,
            progress: JsonNumber::PosInt(0),
        })
    );
    assert_eq!(state.take_pending(), None);
}

#[test]
fn join_refused_for_a_missing_document() {
    let mut state = ChannelState::new("missing");
    let reply = frame(r#"["1","1","documents:missing","phx_reply",{"status":"error","response":{"reason":"not_found"}}]"#);
    assert_eq!(
        state.on_frame_awaiting_reply("1", reply),
        Some(Err(ScribeError::NotFound { message: NOT_FOUND_MESSAGE.into() }))
    );
}

#[test]
fn events_outside_a_reply_come_from_the_own_topic_only() {
    let state = ChannelState::new("doc-1");
    let mine = frame(r#"[null,null,"documents:doc-1","chunk",{"content":"a"}]"#);
    assert_eq!(state.event_from_frame(&mine), Some(ChannelEvent::Chunk { content: "a".into() }));
    let theirs = frame(r#"[null,null,"documents:doc-2","chunk",{"content":"a"}]"#);
    assert_eq!(state.event_from_frame(&theirs), None);
}
