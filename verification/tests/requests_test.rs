use std::collections::HashMap;

use scribe_client::error::{ScribeError, GENERIC_MESSAGE};
use scribe_client::model::{DocumentSource, OutputFormat};
use scribe_client::requests::{
    browser_entry_url, create_document, delete_account_url, delete_document_permanently,
    document_form, download_output, endpoint_url, feedback_body, get_settings, list_documents,
    list_outputs, notification_settings_body, recover_document, register_device_body,
    rename_body, rename_document, settings_catalog, trash_document, unregister_device,
    websocket_url, FormPart, Method, SettingsCatalog, DELETE_ACCOUNT_PATH,
};

fn query_pairs(url: &str) -> HashMap<String, String> {
    url::Url::parse(url)
        .unwrap()
        .query_pairs()
        .map(|(k, v)| (k.into_owned(), v.into_owned()))
        .collect()
}

#[test]
fn document_endpoints_put_the_id_in_the_path() {
    assert_eq!(trash_document("doc-1").path, "/api/documents/doc-1/trash");
    assert_eq!(trash_document("doc-1").method, Method::Post);
    assert_eq!(recover_document("doc-1").path, "/api/documents/doc-1/recover");
    assert_eq!(delete_document_permanently("doc-1").path, "/api/documents/doc-1");
    assert_eq!(delete_document_permanently("doc-1").method, Method::Delete);
    assert_eq!(list_outputs("doc-1").path, "/api/documents/doc-1/outputs");
    assert_eq!(get_settings("doc-1").path, "/api/documents/doc-1/settings");
    assert_eq!(rename_document("doc-1").method, Method::Patch);
    assert_eq!(create_document().path, "/api/documents");
    assert_eq!(list_documents().method, Method::Get);
}

#[test]
fn download_path_names_the_format() {
    let e = download_output("doc-1", OutputFormat::Pdf);
    assert_eq!(e.method, Method::Get);
    assert_eq!(e.path, "/api/documents/doc-1/outputs/pdf/download");
    assert_eq!(
        download_output("d", OutputFormat::OfflineHtml).path,
        "/api/documents/d/outputs/offline_html/download"
    );
}

#[test]
fn settings_catalogs_and_devices() {
    assert_eq!(settings_catalog(SettingsCatalog::Languages).path, "/api/settings/languages");
    assert_eq!(
        settings_catalog(SettingsCatalog::BrailleTables).path,
        "/api/settings/braille_tables"
    );
    assert_eq!(unregister_device("abc123").path, "/api/devices/abc123");
    assert_eq!(unregister_device("abc123").method, Method::Delete);
}

#[test]
fn endpoint_url_replaces_the_base_path() {
    let url = endpoint_url("http://127.0.0.1:4000/ignored", &list_outputs("doc-1")).unwrap();
    assert_eq!(url, "http://127.0.0.1:4000/api/documents/doc-1/outputs");
    assert_eq!(endpoint_url("nonsense", &list_outputs("doc-1")), None);
}

#[test]
fn endpoint_url_escapes_what_a_path_cannot_hold() {
    let url = endpoint_url("https://scribe.example", &trash_document("a b")).unwrap();
    assert_eq!(url, "https://scribe.example/api/documents/a%20b/trash");
}

#[test]
fn browser_entry_url_escapes_awkward_values() {
    let url = browser_entry_url("https://scribe.example", "at-valid", "/some path?a=b&c=d").unwrap();
    let pairs = query_pairs(&url);
    assert_eq!(pairs.get("token").map(String::as_str), Some("at-valid"));
    // It must round-trip exactly, or the redirect after sign-in goes astray.
    assert_eq!(
        pairs
            .get("state")
            .and_then(|s| serde_json::from_str::<serde_json::Value>(s).ok()),
        Some(serde_json::Value::Object(
            [(
                "return_to".to_owned(),
                serde_json::Value::String("/some path?a=b&c=d".to_owned())
            )]
            .into_iter()
            .collect()
        ))
    );
}

#[test]
fn delete_account_url_lands_on_the_settings_page() {
    let url = delete_account_url("https://scribe.example", "at-valid").unwrap();
    assert_eq!(url::Url::parse(&url).unwrap().path(), "/auth/browser_from_oauth");
    let pairs = query_pairs(&url);
    assert_eq!(
        pairs.get("state").map(String::as_str),
        Some(r#"{"return_to":"/settings/delete_account"}"#)
    );
    assert_eq!(DELETE_ACCOUNT_PATH, "/settings/delete_account");
}

#[test]
fn websocket_url_follows_the_api_scheme() {
    let secure = websocket_url("https://scribe.example/", "at-1").unwrap();
    assert_eq!(secure, "wss://scribe.example/socket/websocket?vsn=2.0.0&token=at-1");
    let plain = websocket_url("http://127.0.0.1:4000", "at-2").unwrap();
    assert_eq!(plain, "ws://127.0.0.1:4000/socket/websocket?vsn=2.0.0&token=at-2");
}

#[test]
fn websocket_url_fails_for_a_scheme_it_cannot_replace() {
    assert_eq!(
        websocket_url("mailto:someone@example.net", "at"),
        Err(ScribeError::Channel { message: GENERIC_MESSAGE.to_owned() })
    );
    assert_eq!(websocket_url("no url at all", "at"), Err(ScribeError::Url));
}

#[test]
fn json_bodies_are_escaped_and_in_key_order() {
    assert_eq!(feedback_body("bad \"OCR\""), r#"{"comment":"bad \"OCR\""}"#);
    assert_eq!(rename_body("Notes"), r#"{"document":{"title":"Notes"}}"#);
    assert_eq!(
        register_device_body("abc", "ios"),
        r#"{"platform":"ios","token":"abc"}"#
    );
    assert_eq!(notification_settings_body(true), r#"{"push_notify_when_complete":true}"#);
    assert_eq!(notification_settings_body(false), r#"{"push_notify_when_complete":false}"#);
}

#[test]
fn json_bodies_match_what_serde_json_writes() {
    let mut map = serde_json::Map::new();
    map.insert("token".into(), serde_json::Value::String("t\u{e9}\n".into()));
    map.insert("platform".into(), serde_json::Value::String("android".into()));
    assert_eq!(
        register_device_body("t\u{e9}\n", "android"),
        serde_json::Value::Object(map).to_string()
    );
}

#[test]
fn upload_form_carries_the_file_and_its_name() {
    let parts = document_form(
        DocumentSource::File { file_name: "report.pdf".into(), bytes: b"%PDF".to_vec() },
        None,
    );
    assert_eq!(
        parts,
        vec![FormPart::File {
            name: "document[file]".into(),
            file_name: "report.pdf".into(),
            bytes: b"%PDF".to_vec(),
        }]
    );
}

#[test]
fn upload_form_sends_a_password_when_one_is_given() {
    let parts = document_form(DocumentSource::Url("https://example.com/r.pdf".into()), Some("s3cret"));
    assert_eq!(
        parts,
        vec![
            FormPart::Text { name: "document[url]".into(), value: "https://example.com/r.pdf".into() },
            FormPart::Text { name: "document[password]".into(), value: "s3cret".into() },
        ]
    );
}

#[test]
fn control_characters_are_escaped_as_serde_json_escapes_them() {
    assert_eq!(
        feedback_body("a\u{1}b\tc\\d\u{1f}\u{7f}\u{e9}"),
        "{\"comment\":\"a\\u0001b\\tc\\\\d\\u001f\u{7f}\u{e9}\"}"
    );
}
