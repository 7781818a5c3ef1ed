use scribe_client::json::{parse_json, Json};
use scribe_client::model::{OutputFormat, Stage};

#[test]
fn output_format_as_str_and_parse_round_trip() {
    let all = [
        OutputFormat::Html,
        OutputFormat::Pdf,
        OutputFormat::Epub,
        OutputFormat::Daisy,
        OutputFormat::Docx,
        OutputFormat::Brf,
        OutputFormat::Mp3,
        OutputFormat::OfflineHtml,
        OutputFormat::Mobi,
        OutputFormat::HtmlStream,
    ];

    for format in all {
        assert_eq!(OutputFormat::parse(format.as_str()), Some(format));
    }

    assert_eq!(OutputFormat::parse("not_a_format"), None);
}

#[test]
fn only_the_complete_stage_reports_is_complete() {
    let all = [
        Stage::Queue,
        Stage::Start,
        Stage::Convert,
        Stage::AddImageDescriptions,
        Stage::Complete,
    ];

    for stage in all {
        assert_eq!(stage.is_complete(), stage == Stage::Complete);
    }
}

#[test]
fn stage_as_str_round_trips_through_json() {
    let all = [
        (Stage::Queue, "queue"),
        (Stage::Start, "start"),
        (Stage::Convert, "convert"),
        (Stage::AddImageDescriptions, "add_image_descriptions"),
        (Stage::Complete, "complete"),
    ];

    for (stage, expected) in all {
        assert_eq!(stage.as_str(), expected);
        let deserialized = match parse_json(&format!("{expected:?}")) {
            Some(Json::Str(s)) => Stage::parse(&s),
            other => panic!("expected a JSON string, got {other:?}"),
        };
        assert_eq!(deserialized, Some(stage));
    }
}

#[test]
fn output_format_names_are_the_wire_names() {
    assert_eq!(OutputFormat::OfflineHtml.as_str(), "offline_html");
    assert_eq!(OutputFormat::HtmlStream.as_str(), "html_stream");
    assert_eq!(OutputFormat::parse("mp3"), Some(OutputFormat::Mp3));
    assert_eq!(OutputFormat::parse("PDF"), None);
    assert_eq!(OutputFormat::parse(""), None);
}

#[test]
fn stage_parse_refuses_unknown_names() {
    assert_eq!(Stage::parse("complete"), Some(Stage::Complete));
    assert_eq!(Stage::parse("Complete"), None);
    assert_eq!(Stage::parse("done"), None);
}
