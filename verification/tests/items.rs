use zotero::client::{HttpMethod, ZoteroClient};
use zotero::errors::ZoteroApiError;
use zotero::json::JsonValue;
use zotero::keys::{CollectionKey, ItemKey, LibraryVersion};
use zotero::items::{
    already_stored, attach_link_payload, finalize_form, fulltext_content, import_attachment_payload, import_filename,
    md5_hex, trash_patch, unfiled_items, upload_form, upload_status_error, ImportAction, ImportEvent,
    ImportFile, ImportState, TrashAction, UploadTicket,
};
use zotero::objects::{ZoteroItem, ZoteroItemData};
use zotero::types::ItemType;

fn s(v: &str) -> JsonValue {
    JsonValue::String(v.to_owned())
}

fn client() -> ZoteroClient {
    ZoteroClient::new("http://127.0.0.1:23119/api".to_owned())
}

fn item(key: &str) -> ZoteroItem {
    ZoteroItem {
        key: ItemKey::from_str(key),
        version: LibraryVersion::new(1),
        library: None,
        links: None,
        meta: None,
        data: ZoteroItemData::new(ItemKey::from_str(key), LibraryVersion::new(1), ItemType::Book),
    }
}

#[test]
fn md5_digests_are_lowercase_hex() {
    assert_eq!(md5_hex(b""), "d41d8cd98f00b204e9800998ecf8427e");
    assert_eq!(md5_hex(b"abc"), "900150983cd24fb0d6963f7d28e17f72");
}

#[test]
fn upload_forms_carry_the_file_facts() {
    assert_eq!(
        upload_form("abc", "paper.pdf", 10, 1700000000000),
        vec![
            ("md5".to_owned(), "abc".to_owned()),
            ("filename".to_owned(), "paper.pdf".to_owned()),
            ("filesize".to_owned(), "10".to_owned()),
            ("mtime".to_owned(), "1700000000000".to_owned()),
        ]
    );
    assert_eq!(finalize_form("KEY"), vec![("upload".to_owned(), "KEY".to_owned())]);
}

#[test]
fn an_existing_file_is_not_uploaded_again() {
    assert!(already_stored(&JsonValue::Object(vec![("exists".to_owned(), JsonValue::Number("1".to_owned()))])));
    assert!(!already_stored(&JsonValue::Object(vec![("url".to_owned(), s("http://u"))])));
    assert!(!already_stored(&JsonValue::Null));
}

#[test]
fn uploads_must_be_created() {
    assert_eq!(upload_status_error(201, String::new()), None);
    assert_eq!(
        upload_status_error(200, "no".to_owned()),
        Some(ZoteroApiError::LocalApi { status: 200, message: "no".to_owned() })
    );
}

#[test]
fn import_names_come_from_the_path() {
    assert_eq!(import_filename("/tmp/paper.pdf").unwrap(), "paper.pdf");
    assert_eq!(
        import_filename("/").unwrap_err(),
        ZoteroApiError::InputRejected("path has no valid UTF-8 filename".to_owned())
    );
}

#[test]
fn attachment_payloads_default_to_pdf() {
    let p = import_attachment_payload(Some("PARENT01"), "Paper", "paper.pdf", None);
    let obj = p.at(0).unwrap();
    assert_eq!(obj.get("itemType"), Some(&s("attachment")));
    assert_eq!(obj.get("linkMode"), Some(&s("imported_file")));
    assert_eq!(obj.get("contentType"), Some(&s("application/pdf")));
    assert_eq!(obj.get("parentItem"), Some(&s("PARENT01")));
    let standalone = import_attachment_payload(None, "Paper", "paper.pdf", Some("text/plain"));
    assert_eq!(standalone.at(0).unwrap().get("parentItem"), None);
    let link = attach_link_payload("PARENT01", "Site", "https://example.org", None);
    assert_eq!(link.at(0).unwrap().get("parentItem"), Some(&s("PARENT01")));
}

#[test]
fn trash_and_restore_set_the_deleted_flag() {
    let p = trash_patch(TrashAction::MoveToTrash, LibraryVersion::new(5));
    assert_eq!(p, JsonValue::Object(vec![
        ("deleted".to_owned(), JsonValue::Bool(true)),
        ("version".to_owned(), JsonValue::Number("5".to_owned())),
    ]));
    assert_eq!(trash_patch(TrashAction::Restore, LibraryVersion::new(5)).get("deleted"), Some(&JsonValue::Bool(false)));
}

#[test]
fn fulltext_is_the_content_string_or_nothing() {
    assert_eq!(fulltext_content(&JsonValue::Object(vec![("content".to_owned(), s("words"))])), "words");
    assert_eq!(fulltext_content(&JsonValue::Object(vec![])), "");
}

#[test]
fn unfiled_items_have_no_collection() {
    let mut filed = item("FILED001");
    filed.data.collections = vec![CollectionKey::from_str("C1")];
    let out = unfiled_items(vec![item("LOOSE001"), filed, item("LOOSE002")]);
    assert_eq!(out.iter().map(|i| i.key.as_str()).collect::<Vec<_>>(), vec!["LOOSE001", "LOOSE002"]);
}

#[test]
fn item_requests() {
    let recent = client().recent_items_request(5);
    assert_eq!(recent.query[0], ("limit".to_owned(), "5".to_owned()));
    assert_eq!(client().top_items_request(3).path, "/items/top");
    assert_eq!(client().item_file_url("K"), "http://127.0.0.1:23119/api/users/0/items/K/file");
    let del = client().delete_item_request("K", LibraryVersion::new(2));
    assert_eq!(del.method, HttpMethod::Delete);
    assert_eq!(del.unmodified_since_version, Some(2));
}

fn pdf_file() -> ImportFile {
    ImportFile { md5: "abc".to_owned(), filename: "paper.pdf".to_owned(), filesize: 10, mtime: 5 }
}

fn k1_ticket() -> UploadTicket {
    UploadTicket { url: "http://storage/up".to_owned(), upload_key: "K1".to_owned() }
}

fn pair(k: &str, v: &str) -> (String, String) {
    (k.to_owned(), v.to_owned())
}

#[test]
fn file_import_walks_through_its_steps() {
    let c = client();
    let f = pdf_file();
    let (next, action) = c.import_step(&f, ImportState::Creating, ImportEvent::Created(vec![item("ATT00001")]));
    assert_eq!(next, Some(ImportState::Authorizing(item("ATT00001"))));
    assert_eq!(
        action,
        ImportAction::RequestTicket {
            url: "http://127.0.0.1:23119/api/users/0/items/ATT00001/file".to_owned(),
            form: vec![pair("md5", "abc"), pair("filename", "paper.pdf"), pair("filesize", "10"), pair("mtime", "5")],
        }
    );
    let ticket = JsonValue::Object(vec![
        ("url".to_owned(), s("http://storage/up")),
        ("uploadKey".to_owned(), s("K1")),
    ]);
    let (next, action) = c.import_step(
        &f,
        next.unwrap(),
        ImportEvent::Ticket { status: 200, text: String::new(), json: Ok(ticket), ticket: Ok(k1_ticket()) },
    );
    assert_eq!(next, Some(ImportState::Uploading(item("ATT00001"), "K1".to_owned())));
    assert_eq!(action, ImportAction::Upload { url: "http://storage/up".to_owned() });
    let (next, action) =
        c.import_step(&f, next.unwrap(), ImportEvent::Uploaded { status: 201, text: String::new() });
    assert_eq!(next, Some(ImportState::Finalizing(item("ATT00001"))));
    assert_eq!(
        action,
        ImportAction::Finalize {
            url: "http://127.0.0.1:23119/api/users/0/items/ATT00001/file".to_owned(),
            form: vec![pair("upload", "K1")],
        }
    );
    let (next, action) =
        c.import_step(&f, next.unwrap(), ImportEvent::Finalized { status: 204, text: String::new() });
    assert_eq!(next, None);
    assert_eq!(action, ImportAction::Done(item("ATT00001")));
}

#[test]
fn file_import_stops_when_the_file_is_already_stored() {
    let exists = JsonValue::Object(vec![("exists".to_owned(), JsonValue::Number("1".to_owned()))]);
    let (next, action) = client().import_step(
        &pdf_file(),
        ImportState::Authorizing(item("ATT00001")),
        ImportEvent::Ticket {
            status: 200,
            text: String::new(),
            json: Ok(exists),
            ticket: Err("missing field `url`".to_owned()),
        },
    );
    assert_eq!(next, None);
    assert_eq!(action, ImportAction::Done(item("ATT00001")));
}

#[test]
fn file_import_failures_end_the_import() {
    let c = client();
    let f = pdf_file();
    let (next, action) = c.import_step(&f, ImportState::Creating, ImportEvent::Created(Vec::new()));
    assert_eq!(next, None);
    assert_eq!(action, ImportAction::Fail(ZoteroApiError::Json("no attachment in the creation response".to_owned())));
    let (_, action) = c.import_step(
        &f,
        ImportState::Authorizing(item("ATT00001")),
        ImportEvent::Ticket {
            status: 412,
            text: "changed".to_owned(),
            json: Err("bad".to_owned()),
            ticket: Err("bad".to_owned()),
        },
    );
    assert_eq!(action, ImportAction::Fail(ZoteroApiError::LocalApi { status: 412, message: "changed".to_owned() }));
    let (_, action) = c.import_step(
        &f,
        ImportState::Authorizing(item("ATT00001")),
        ImportEvent::Ticket {
            status: 200,
            text: "{".to_owned(),
            json: Err("EOF".to_owned()),
            ticket: Err("EOF".to_owned()),
        },
    );
    assert_eq!(action, ImportAction::Fail(ZoteroApiError::Network("EOF".to_owned())));
    let (_, action) = c.import_step(
        &f,
        ImportState::Authorizing(item("ATT00001")),
        ImportEvent::Ticket {
            status: 200,
            text: String::new(),
            json: Ok(JsonValue::Object(Vec::new())),
            ticket: Err("missing field `url`".to_owned()),
        },
    );
    assert_eq!(action, ImportAction::Fail(ZoteroApiError::Json("missing field `url`".to_owned())));
    let (_, action) = c.import_step(
        &f,
        ImportState::Uploading(item("ATT00001"), "K1".to_owned()),
        ImportEvent::Uploaded { status: 200, text: "no".to_owned() },
    );
    assert_eq!(action, ImportAction::Fail(ZoteroApiError::LocalApi { status: 200, message: "no".to_owned() }));
    let (_, action) = c.import_step(
        &f,
        ImportState::Finalizing(item("ATT00001")),
        ImportEvent::Uploaded { status: 201, text: String::new() },
    );
    assert_eq!(
        action,
        ImportAction::Fail(ZoteroApiError::Network("unexpected answer during a file import".to_owned()))
    );
}
