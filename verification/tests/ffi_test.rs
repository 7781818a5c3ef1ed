use scribe_client::channel::ChannelEvent as CoreChannelEvent;
use scribe_client::error::{ScribeError as CoreError, CONNECT_MESSAGE, GENERIC_MESSAGE};
use scribe_client::ffi::{
    unix_expiry, BrailleTable, ChannelEvent, Dialect, Language, OutputFormat, ScribeError, Stage,
    TokenSet, Voice,
};
use scribe_client::json::JsonNumber;
use scribe_client::model::{
    BrailleTable as CoreBrailleTable, Dialect as CoreDialect, Language as CoreLanguage,
    OutputFormat as CoreOutputFormat, Stage as CoreStage, Voice as CoreVoice,
};
use scribe_client::token::{TokenSet as CoreTokenSet, MAX_UNIX_TIME, NANOS_PER_SECOND};

#[test]
fn transport_failures_cross_as_fixed_text() {
    assert_eq!(
        ScribeError::from_core(CoreError::Http),
        ScribeError::Http { message: CONNECT_MESSAGE.into() }
    );
    assert_eq!(
        ScribeError::from_core(CoreError::Decode),
        ScribeError::Other { message: GENERIC_MESSAGE.into() }
    );
    assert_eq!(
        ScribeError::from_core(CoreError::Url),
        ScribeError::Other { message: GENERIC_MESSAGE.into() }
    );
    assert_eq!(
        ScribeError::from_core(CoreError::WebSocket),
        ScribeError::Other { message: CONNECT_MESSAGE.into() }
    );
}

#[test]
fn server_text_crosses_unchanged() {
    assert_eq!(
        ScribeError::from_core(CoreError::Api { status: 500, code: "x".into(), message: "Broke.".into() }),
        ScribeError::Api { status: 500, code: "x".into(), message: "Broke.".into() }
    );
    assert_eq!(
        ScribeError::from_core(CoreError::NeedsPurchase { message: "Buy.".into(), purchase_url: "u".into() }),
        ScribeError::NeedsPurchase { message: "Buy.".into(), purchase_url: "u".into() }
    );
    assert_eq!(
        ScribeError::from_core(CoreError::Channel { message: "odd".into() }),
        ScribeError::Other { message: "odd".into() }
    );
    assert_eq!(ScribeError::from_core(CoreError::ChannelClosed), ScribeError::ChannelClosed);
    assert_eq!(
        ScribeError::from_core(CoreError::PasswordRequired { message: "pw".into() }),
        ScribeError::PasswordRequired { message: "pw".into() }
    );
}

#[test]
fn the_text_is_the_same_on_both_sides() {
    let all = vec![
        CoreError::Http,
        CoreError::Decode,
        CoreError::Url,
        CoreError::WebSocket,
        CoreError::ChannelClosed,
        CoreError::NotFound { message: "nf".into() },
        CoreError::Channel { message: "c".into() },
        CoreError::InvalidGrant { message: "ig".into() },
    ];
    for e in all {
        let text = e.message();
        assert_eq!(ScribeError::from_core(e).message(), text);
    }
}

#[test]
fn formats_and_stages_cross_both_ways() {
    let all = [
        CoreOutputFormat::Html,
        CoreOutputFormat::Pdf,
        CoreOutputFormat::Epub,
        CoreOutputFormat::Daisy,
        CoreOutputFormat::Docx,
        CoreOutputFormat::Brf,
        CoreOutputFormat::Mp3,
        CoreOutputFormat::OfflineHtml,
        CoreOutputFormat::Mobi,
        CoreOutputFormat::HtmlStream,
    ];
    for f in all {
        assert_eq!(OutputFormat::from_core(f).to_core(), f);
    }
    assert_eq!(OutputFormat::from_core(CoreOutputFormat::OfflineHtml), OutputFormat::OfflineHtml);
    assert_eq!(Stage::from_core(CoreStage::AddImageDescriptions), Stage::AddImageDescriptions);
}

#[test]
fn token_sets_cross_with_their_expiry_in_whole_seconds() {
    let core = CoreTokenSet {
        access_token: "at".into(),
        refresh_token: Some("rt".into()),
        expires_at: Some(1_700_000_000 * NANOS_PER_SECOND + 250_000_000),
    };
    let crossing = TokenSet::from_core(core.clone());
    assert_eq!(crossing.expires_at_unix_secs, Some(1_700_000_000));
    let back = crossing.to_core();
    assert_eq!(back.expires_at, Some(1_700_000_000 * NANOS_PER_SECOND));
    assert_eq!(back.access_token, core.access_token);
    assert_eq!(TokenSet::from_core(back).expires_at_unix_secs, Some(1_700_000_000));
}

#[test]
fn an_expiry_no_date_can_hold_becomes_the_epoch() {
    assert_eq!(unix_expiry(MAX_UNIX_TIME), MAX_UNIX_TIME as i128 * NANOS_PER_SECOND);
    assert_eq!(unix_expiry(MAX_UNIX_TIME + 1), 0);
    assert_eq!(unix_expiry(i64::MIN), 0);
    let t = TokenSet {
        access_token: "at".into(),
        refresh_token: None,
        expires_at_unix_secs: Some(i64::MAX),
    };
    assert_eq!(t.to_core().expires_at, Some(0));
}

#[test]
fn settings_options_get_named_fields() {
    assert_eq!(
        Language::from_core(CoreLanguage("English".into(), "en".into())),
        Language { display_name: "English".into(), code: "en".into() }
    );
    assert_eq!(
        Dialect::from_core(CoreDialect("English (US)".into(), "en-US".into())),
        Dialect { display_name: "English (US)".into(), locale: "en-US".into() }
    );
    assert_eq!(
        BrailleTable::from_core(CoreBrailleTable("UEB grade 2".into(), "en-ueb-g2.ctb".into())),
        BrailleTable { display_name: "UEB grade 2".into(), id: "en-ueb-g2.ctb".into() }
    );
    assert_eq!(
        Voice::from_core(CoreVoice("Aria".into(), "en-US-AriaNeural".into(), true)),
        Voice { display_name: "Aria".into(), short_name: "en-US-AriaNeural".into(), has_sample: true }
    );
}

#[test]
fn channel_events_cross_with_their_fields() {
    let e = ChannelEvent::from_core(CoreChannelEvent::Status {
        format: CoreOutputFormat::Pdf,
        stage: CoreStage::Convert,
        progress: JsonNumber::PosInt(1),
    });
    assert_eq!(
        e,
        ChannelEvent::Status { format: OutputFormat::Pdf, stage: Stage::Convert, progress: JsonNumber::PosInt(1) }
    );
    assert_eq!(
        ChannelEvent::from_core(CoreChannelEvent::ConversionComplete {
            format: CoreOutputFormat::Mp3,
            output_id: "o".into()
        }),
        ChannelEvent::ConversionComplete { format: OutputFormat::Mp3, output_id: "o".into() }
    );
    assert_eq!(ChannelEvent::from_core(CoreChannelEvent::PasswordRequired), ChannelEvent::PasswordRequired);
}
