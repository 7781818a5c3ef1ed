use scribe_client::download::{content_disposition_file_name, response_total_bytes, DownloadProgress};

#[test]
fn the_utf8_file_name_wins_over_the_ascii_one() {
    let name = content_disposition_file_name(
        r#"attachment; filename="SensePlayer User Manual (Model - T90ET).mp3"; filename*=UTF-8''SensePlayer%E2%84%A2%20User%20Manual%20%28Model%20-%20T90ET%29.mp3"#,
    );
    assert_eq!(
        name.as_deref(),
        Some("SensePlayer\u{2122} User Manual (Model - T90ET).mp3")
    );
}

#[test]
fn a_literal_plus_stays_a_plus() {
    let name = content_disposition_file_name(
        r#"attachment; filename="C++ Notes.pdf"; filename*=UTF-8''C++%20Notes.pdf"#,
    );
    assert_eq!(name.as_deref(), Some("C++ Notes.pdf"));
}

#[test]
fn the_ascii_file_name_is_the_fallback() {
    let name = content_disposition_file_name(r#"attachment; filename="Report.html""#);
    assert_eq!(name.as_deref(), Some("Report.html"));
}

#[test]
fn folders_in_the_file_name_are_dropped() {
    let name = content_disposition_file_name(r#"attachment; filename*=UTF-8''..%2F..%2FReport.pdf"#);
    assert_eq!(name.as_deref(), Some("Report.pdf"));
    let name = content_disposition_file_name(r#"attachment; filename="C:\Temp\Report.pdf""#);
    assert_eq!(name.as_deref(), Some("Report.pdf"));
}

#[test]
fn a_name_that_is_only_folders_is_no_name() {
    assert_eq!(content_disposition_file_name(r#"attachment; filename="dir/""#), None);
    assert_eq!(content_disposition_file_name("attachment"), None);
    assert_eq!(content_disposition_file_name(r#"attachment; filename="""#), None);
}

#[test]
fn other_charsets_and_bad_escapes_fall_back() {
    let name = content_disposition_file_name(
        r#"attachment; filename="plain.txt"; filename*=ISO-8859-1''caf%E9.txt"#,
    );
    assert_eq!(name.as_deref(), Some("plain.txt"));
    let name = content_disposition_file_name(
        r#"attachment; filename="plain.txt"; filename*=utf-8''%FF%FE.txt"#,
    );
    assert_eq!(name.as_deref(), Some("plain.txt"));
    let name = content_disposition_file_name(r#"attachment; filename*=utf-8'en'r%C3%A9sum%C3%A9.pdf"#);
    assert_eq!(name.as_deref(), Some("r\u{e9}sum\u{e9}.pdf"));
}

#[test]
fn the_real_content_length_wins() {
    assert_eq!(response_total_bytes(Some(256), Some("9000")), Some(256));
}

#[test]
fn the_declared_length_is_the_fallback() {
    assert_eq!(response_total_bytes(None, Some(" 4096 ")), Some(4096));
    assert_eq!(response_total_bytes(None, Some("+12")), Some(12));
    assert_eq!(response_total_bytes(None, Some("-12")), None);
    assert_eq!(response_total_bytes(None, Some("lots")), None);
    assert_eq!(response_total_bytes(None, Some("99999999999999999999")), None);
    assert_eq!(response_total_bytes(None, None), None);
}

#[test]
fn progress_reports_bytes_against_the_total() {
    let (mut progress, first) = DownloadProgress::start(Some(4096));
    assert_eq!(first, (0, Some(4096)));
    let chunk = vec![7u8; 1024];
    let mut last = first;
    for _ in 0..4 {
        last = progress.receive(&chunk);
    }
    assert_eq!(last, (4096, Some(4096)));
    let download = progress.finish(Some("a.mp3".into()));
    assert_eq!(download.data.len(), 4096);
    assert_eq!(download.file_name.as_deref(), Some("a.mp3"));
}

#[test]
fn progress_without_a_total_still_counts_bytes() {
    let (mut progress, first) = DownloadProgress::start(None);
    assert_eq!(first, (0, None));
    assert_eq!(progress.receive(b"abc"), (3, None));
    assert_eq!(progress.receive(b"de"), (5, None));
    let download = progress.finish(None);
    assert_eq!(download.data, b"abcde".to_vec());
    assert_eq!(download.file_name, None);
}
