use zotero::better_notes::{
    export_payload, from_markdown_payload, note_key_payload, notes_http_error, run_template_payload, BetterNotesClient,
    NoteExportFormat, TemplateName,
};
use zotero::errors::ZoteroApiError;
use zotero::json::JsonValue;

fn s(v: &str) -> JsonValue {
    JsonValue::String(v.to_owned())
}

#[test]
fn returns_better_notes_error_when_response_is_non_success() {
    let err = notes_http_error(400, "/notes/export");
    assert!(matches!(&err, ZoteroApiError::BetterNotes(msg) if msg.contains("400") && msg.contains("/notes/export")));
    assert_eq!(err, ZoteroApiError::BetterNotes("HTTP 400 Bad Request calling /notes/export".to_owned()));
}

#[test]
fn export_format_names_and_default() {
    assert_eq!(NoteExportFormat::Markdown.as_str(), "markdown");
    assert_eq!(NoteExportFormat::Html.as_str(), "html");
    assert_eq!(NoteExportFormat::default(), NoteExportFormat::Markdown);
}

#[test]
fn payloads_name_their_fields() {
    assert_eq!(
        export_payload("NOTE1", None),
        JsonValue::Object(vec![("itemKey".to_owned(), s("NOTE1")), ("format".to_owned(), s("markdown"))])
    );
    assert_eq!(
        export_payload("NOTE1", Some(NoteExportFormat::Html)),
        JsonValue::Object(vec![("itemKey".to_owned(), s("NOTE1")), ("format".to_owned(), s("html"))])
    );
    assert_eq!(
        from_markdown_payload(None, "# T"),
        JsonValue::Object(vec![("parentKey".to_owned(), JsonValue::Null), ("markdown".to_owned(), s("# T"))])
    );
    assert_eq!(
        from_markdown_payload(Some("PARENT01"), "# T"),
        JsonValue::Object(vec![("parentKey".to_owned(), s("PARENT01")), ("markdown".to_owned(), s("# T"))])
    );
    assert_eq!(
        run_template_payload(&TemplateName::from_str("default"), "ITEM1"),
        JsonValue::Object(vec![("name".to_owned(), s("default")), ("itemKey".to_owned(), s("ITEM1"))])
    );
    assert_eq!(note_key_payload("N1"), JsonValue::Object(vec![("itemKey".to_owned(), s("N1"))]));
}

#[test]
fn endpoints_sit_under_the_base_url() {
    assert_eq!(BetterNotesClient::default().base_url(), "http://127.0.0.1:23119/better-notes");
    assert_eq!(
        BetterNotesClient::new("http://h/bn/".to_owned()).endpoint_url("/notes/tree"),
        "http://h/bn/notes/tree"
    );
}
