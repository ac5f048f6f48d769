use zotero::json::JsonValue;
use zotero::keys::{ItemKey, LibraryVersion};
use zotero::objects::{ItemLinks, ZoteroItem, ZoteroItemData};
use zotero::pdf_paths::{
    attachment_reported_path, enclosure_file_path, file_roots_url, file_url_to_path, find_pdf_path, no_pdf_path_error,
    pdf_roots, resolve_attachment_pdf_path, resolve_linked_attachment_path, validate_pdf_read_path, BridgeFileRoot,
    BridgePdfRoot, FileRootKind, ResolvedPdfPath,
};
use zotero::security::SecurityConfig;
use zotero::types::ItemType;

fn item(key: &str, item_type: ItemType) -> ZoteroItem {
    ZoteroItem {
        key: ItemKey::from_str(key),
        version: LibraryVersion::new(1),
        library: None,
        links: None,
        meta: None,
        data: ZoteroItemData::new(ItemKey::from_str(key), LibraryVersion::new(1), item_type),
    }
}

fn imported_pdf(key: &str, href: &str) -> ZoteroItem {
    let mut it = item(key, ItemType::Attachment);
    it.links = Some(ItemLinks {
        self_link: None,
        alternate: None,
        enclosure: Some(JsonValue::Object(vec![("href".to_owned(), JsonValue::String(href.to_owned()))])),
    });
    it.data.set_field("linkMode".to_owned(), JsonValue::String("imported_file".to_owned()));
    it.data.content_type = Some("application/pdf".to_owned());
    it
}

fn linked_base(path: &str) -> BridgePdfRoot {
    BridgePdfRoot { kind: FileRootKind::ZoteroLinkedBase, path: path.to_owned() }
}

#[test]
fn file_url_to_path_parses_valid_file_url() {
    assert_eq!(file_url_to_path("file:///tmp/document.pdf"), Some("/tmp/document.pdf".to_owned()));
}

#[test]
fn file_url_to_path_returns_none_for_non_file_url() {
    assert_eq!(file_url_to_path("https://example.com/document.pdf"), None);
    assert_eq!(file_url_to_path("not a url"), None);
}

#[test]
fn resolve_linked_attachment_path_resolves_attachment_prefix() {
    let roots = vec![linked_base("/zotero/base")];
    assert_eq!(
        resolve_linked_attachment_path("attachments:subfolder/paper.pdf", &roots),
        Some("/zotero/base/subfolder/paper.pdf".to_owned())
    );
    assert_eq!(
        resolve_linked_attachment_path("attachments:/\\sub/paper.pdf", &roots),
        Some("/zotero/base/sub/paper.pdf".to_owned())
    );
    assert_eq!(resolve_linked_attachment_path("attachments:paper.pdf", &[]), None);
}

#[test]
fn resolve_linked_attachment_path_returns_raw_path_when_unprefixed() {
    let roots = vec![linked_base("/zotero/base")];
    assert_eq!(resolve_linked_attachment_path("subfolder/paper.pdf", &roots), Some("subfolder/paper.pdf".to_owned()));
}

#[test]
fn enclosure_file_path_extracts_path_from_imported_attachment() {
    let it = imported_pdf("PDF01", "file:///storage/PDF01/paper.pdf");
    assert_eq!(enclosure_file_path(&it), Some("/storage/PDF01/paper.pdf".to_owned()));
}

#[test]
fn resolve_attachment_pdf_path_returns_none_for_non_attachment_item() {
    let it = item("ITEM01", ItemType::JournalArticle);
    assert!(resolve_attachment_pdf_path(&it, &[]).is_none());
}

#[test]
fn find_pdf_path_returns_first_valid_attachment() {
    let children = vec![item("NOTE01", ItemType::Note), imported_pdf("PDF01", "file:///tmp/paper.pdf")];

    let resolved = find_pdf_path(&children, &[]);

    assert!(matches!(resolved, Some(ResolvedPdfPath::Trusted(path)) if path == "/tmp/paper.pdf"));
}

#[test]
fn linked_files_need_a_root_check() {
    let mut it = item("LINK01", ItemType::Attachment);
    it.data.set_field("linkMode".to_owned(), JsonValue::String("linked_file".to_owned()));
    it.data.path = Some("attachments:a/b.pdf".to_owned());
    let roots = vec![linked_base("/base")];
    assert!(matches!(
        resolve_attachment_pdf_path(&it, &roots),
        Some(ResolvedPdfPath::NeedsRootCheck(p)) if p == "/base/a/b.pdf"
    ));
    assert_eq!(attachment_reported_path(&it, &roots), Some("attachments:a/b.pdf".to_owned()));
}

#[test]
fn file_root_kind_deserializes_kebab_case_and_identifies_pdf_roots() {
    assert_eq!(FileRootKind::from_wire("zotero-storage"), FileRootKind::ZoteroStorage);
    assert_eq!(FileRootKind::from_wire("zotero-linked-base"), FileRootKind::ZoteroLinkedBase);
    assert_eq!(FileRootKind::from_wire("attanger-dest"), FileRootKind::AttangerDest);
    assert_eq!(FileRootKind::from_wire("unrecognized-root"), FileRootKind::Other);
    assert_ne!(FileRootKind::from_wire("zotero-storage"), FileRootKind::Other);
}

#[test]
fn bridge_pdf_roots_keep_root_kind_typed() {
    let roots = pdf_roots(vec![
        BridgeFileRoot { kind: FileRootKind::ZoteroStorage, path: "/bridge/storage".to_owned() },
        BridgeFileRoot { kind: FileRootKind::Other, path: "/bridge/ignored".to_owned() },
        BridgeFileRoot { kind: FileRootKind::AttangerDest, path: String::new() },
    ]);
    assert_eq!(roots.len(), 1);
    assert_eq!(roots[0].kind, FileRootKind::ZoteroStorage);
    assert_eq!(roots[0].path, "/bridge/storage");
    assert_eq!(resolve_linked_attachment_path("attachments:x.pdf", &[BridgePdfRoot {
        kind: FileRootKind::ZoteroStorage,
        path: "/bridge/storage".to_owned(),
    }]), None);
}

#[test]
fn file_roots_endpoint_is_under_the_bridge() {
    assert_eq!(file_roots_url("http://127.0.0.1:23119/better-notes/"), "http://127.0.0.1:23119/better-notes/file-roots");
}

#[test]
fn rejects_direct_path_by_default() {
    let config = SecurityConfig::default();
    let err = validate_pdf_read_path(&config, "/tmp/x.pdf", &[], &[], true, 10).unwrap_err();
    assert!(err.message().contains("Direct file paths are disabled"));
}

#[test]
fn allows_direct_path_inside_bridge_pdf_root_without_direct_flag() {
    let config = SecurityConfig::default();
    let ok = validate_pdf_read_path(&config, "/bridge/storage/x.pdf", &[], &["/bridge/storage".to_owned()], true, 10);
    assert_eq!(ok.unwrap(), "/bridge/storage/x.pdf");
}

#[test]
fn rejects_linked_attachment_outside_pdf_roots() {
    let config = SecurityConfig::default();
    let err = validate_pdf_read_path(&config, "/elsewhere/x.pdf", &["/allowed".to_owned()], &[], false, 10).unwrap_err();
    assert_eq!(err.message(), "Input rejected: PDF read path /elsewhere/x.pdf is outside allowed directories");
}

#[test]
fn missing_pdf_error_names_the_key() {
    assert_eq!(no_pdf_path_error("ABCD1234").message(), "Item not found: No PDF file path found for key: ABCD1234");
}
