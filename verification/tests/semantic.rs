use zotero::errors::ZoteroApiError;
use zotero::keys::{ItemKey, LibraryVersion};
use zotero::objects::{ZoteroItem, ZoteroItemData};
use zotero::paths::Platform;
use zotero::semantic::{
    assemble_item_text, chunk_index, first_fulltext, fulltext_candidates, default_data_dir, is_blank, is_scanned, is_unchanged, prepare_chunks,
    resolve_db_path, resolve_model_cache_dir, stale_keys, unchanged_outcome, IndexOutcome, IndexReport,
    MAX_INDEXABLE_CHARS,
};
use zotero::types::ItemType;

fn data(item_type: ItemType) -> ZoteroItemData {
    ZoteroItemData::new(ItemKey::from_str("ITEM1"), LibraryVersion::new(1), item_type)
}

#[test]
fn indexes_new_items_with_title_and_abstract() {
    let mut d = data(ItemType::JournalArticle);
    d.title = Some("A Paper".to_owned());
    d.abstract_note = Some("An abstract about testing.".to_owned());
    d.date_modified = Some("2024-01-01".to_owned());
    assert!(is_scanned(&d));
    assert!(!is_unchanged(None, d.date_modified.as_deref()));
    assert_eq!(unchanged_outcome(false, false), None);

    let text = assemble_item_text(&d, None);
    assert_eq!(text, "A Paper\n\nAn abstract about testing.");
    let chunks = prepare_chunks(&text).unwrap();
    assert!(!chunks.is_empty());

    let mut report = IndexReport::default();
    report.count_scanned();
    report.count_chunks(chunks.len());
    report.count_outcome(IndexOutcome::Indexed);
    assert_eq!(report.items_scanned, 1);
    assert_eq!(report.items_indexed, 1);
    assert_eq!(report.items_skipped_unchanged, 0);
    assert!(report.chunks_written >= 1);
}

#[test]
fn unchanged_items_are_skipped_unless_forced() {
    assert!(is_unchanged(Some("2024-01-01"), Some("2024-01-01")));
    assert!(!is_unchanged(Some("2024-01-01"), Some("2024-02-01")));
    assert!(!is_unchanged(Some("2024-01-01"), None));
    assert_eq!(unchanged_outcome(false, true), Some(IndexOutcome::SkippedUnchanged));
    assert_eq!(unchanged_outcome(true, true), None);
}

#[test]
fn trashed_and_attachment_items_are_not_scanned() {
    let mut trashed = data(ItemType::Book);
    trashed.deleted = true;
    assert!(!is_scanned(&trashed));
    assert!(!is_scanned(&data(ItemType::Attachment)));
}

#[test]
fn blank_title_and_abstract_are_left_out() {
    let mut d = data(ItemType::Book);
    d.title = Some("  ".to_owned());
    d.abstract_note = Some("Abstract".to_owned());
    assert_eq!(assemble_item_text(&d, Some("Full text".to_owned())), "Abstract\n\nFull text");
    assert!(is_blank(" \n\t"));
    assert!(prepare_chunks("   ").is_none());
}

#[test]
fn long_texts_are_capped_before_chunking() {
    let text = "a".repeat(MAX_INDEXABLE_CHARS + 10);
    let chunks = prepare_chunks(&text).unwrap();
    let total: usize = chunks.iter().map(|c| c.len()).sum();
    assert_eq!(total, MAX_INDEXABLE_CHARS);
}

#[test]
fn stale_keys_are_those_no_longer_in_the_library() {
    let indexed = vec!["A".to_owned(), "B".to_owned(), "C".to_owned()];
    let current = vec!["C".to_owned(), "A".to_owned()];
    assert_eq!(stale_keys(&indexed, &current), vec!["B".to_owned()]);
}

#[test]
fn chunk_indices_saturate() {
    assert_eq!(chunk_index(7), 7);
    assert_eq!(chunk_index(usize::MAX), i64::MAX);
}

#[test]
fn database_path_prefers_the_override() {
    assert_eq!(resolve_db_path(Some("/x/db.sqlite"), Some("/data")).unwrap(), "/x/db.sqlite");
    assert_eq!(resolve_db_path(None, Some("/data")).unwrap(), "/data/embeddings.sqlite");
    assert_eq!(
        resolve_db_path(None, None).unwrap_err(),
        ZoteroApiError::LocalDb(
            "Could not determine a data directory for the semantic search index; set ZOTERO_SEMANTIC_DB_PATH"
                .to_owned()
        )
    );
}

#[test]
fn model_cache_sits_beside_the_index() {
    assert_eq!(resolve_model_cache_dir("/data/embeddings.sqlite"), "/data/models");
    assert_eq!(resolve_model_cache_dir("embeddings.sqlite"), "models");
}

#[test]
fn data_directory_follows_the_platform() {
    assert_eq!(default_data_dir(Some("C:/AppData"), Some("/home/u"), Platform::Linux), Some("C:/AppData/zotero-mcp-rs".to_owned()));
    assert_eq!(default_data_dir(None, Some("/home/u"), Platform::Linux), Some("/home/u/.local/share/zotero-mcp-rs".to_owned()));
    assert_eq!(
        default_data_dir(None, Some("/Users/u"), Platform::MacOs),
        Some("/Users/u/Library/Application Support/zotero-mcp-rs".to_owned())
    );
    assert_eq!(default_data_dir(None, Some("/home/u"), Platform::Other), None);
}

#[test]
fn counters_hold_at_their_limit() {
    let mut report = IndexReport::default();
    report.items_deleted = usize::MAX;
    report.count_deleted();
    assert_eq!(report.items_deleted, usize::MAX);
}

#[test]
fn blank_text_is_exactly_unicode_whitespace() {
    let mut buf = [0u8; 4];
    for code in 0..=0x10FFFFu32 {
        if let Some(c) = char::from_u32(code) {
            assert_eq!(is_blank(c.encode_utf8(&mut buf)), c.is_whitespace(), "U+{code:04X}");
        }
    }
}

fn child(key: &str, item_type: ItemType) -> ZoteroItem {
    ZoteroItem {
        key: ItemKey::from_str(key),
        version: LibraryVersion::new(1),
        library: None,
        links: None,
        meta: None,
        data: ZoteroItemData::new(ItemKey::from_str(key), LibraryVersion::new(1), item_type),
    }
}

#[test]
fn fulltext_comes_from_the_first_indexable_child_with_text() {
    let children = vec![
        child("ATT00001", ItemType::Attachment),
        child("DOC00001", ItemType::Document),
        child("NOTE0001", ItemType::Note),
        child("DOC00002", ItemType::Document),
    ];
    let keys: Vec<String> = fulltext_candidates(&children).iter().map(|k| k.as_str().to_owned()).collect();
    assert_eq!(keys, vec!["DOC00001", "DOC00002"]);
    assert_eq!(first_fulltext(vec![None, Some("  \n".to_owned()), Some("body".to_owned()), Some("later".to_owned())]), Some("body".to_owned()));
    assert_eq!(first_fulltext(vec![Some(" ".to_owned()), None]), None);
}
