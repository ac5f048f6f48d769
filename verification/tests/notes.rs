use zotero::keys::{ItemKey, LibraryVersion};
use zotero::notes::{format_annotations_section, format_notes_section, synthesize_markdown};
use zotero::objects::{ZoteroItem, ZoteroItemData};
use zotero::types::ItemType;

fn item(key: &str, data: ZoteroItemData) -> ZoteroItem {
    ZoteroItem { key: ItemKey::from_str(key), version: LibraryVersion::new(1), library: None, links: None, meta: None, data }
}

fn data(key: &str, item_type: ItemType) -> ZoteroItemData {
    ZoteroItemData::new(ItemKey::from_str(key), LibraryVersion::new(1), item_type)
}

#[test]
fn formats_annotations_section_with_highlights_and_notes() {
    let mut d = data("ANN00001", ItemType::Annotation);
    d.annotation_type = Some("highlight".to_owned());
    d.annotation_text = Some("Important concept".to_owned());
    d.annotation_comment = Some("Check this out".to_owned());
    d.annotation_page_label = Some("42".to_owned());

    let annotations = vec![item("ANN00001", d)];
    let result = format_annotations_section(&annotations);

    assert_eq!(result, "## PDF Annotations\n\n> \"Important concept\" (p. 42)\nComment: Check this out\n\n");
}

#[test]
fn formats_standalone_note_section() {
    let mut d = data("NOTE0001", ItemType::Note);
    d.note = Some("<p>Main note text</p>".to_owned());
    let note_item = item("NOTE0001", d);

    let result = format_notes_section(&note_item, &[]);

    assert_eq!(result, "## Note Content\n\n<p>Main note text</p>\n\n");
}

#[test]
fn formats_child_notes_section() {
    let main_item = item("ITEM0001", data("ITEM0001", ItemType::JournalArticle));
    let mut child = data("NOTE0001", ItemType::Note);
    child.note = Some("<p>Child note text</p>".to_owned());
    let child_notes = vec![item("NOTE0001", child)];

    let result = format_notes_section(&main_item, &child_notes);

    assert_eq!(result, "## Child Notes\n\n### Note 1\n\n<p>Child note text</p>\n\n");
}

#[test]
fn annotations_section_is_empty_without_annotations() {
    let mut child = data("NOTE0001", ItemType::Note);
    child.note = Some("<p>x</p>".to_owned());
    assert_eq!(format_annotations_section(&[item("NOTE0001", child)]), "");
}

#[test]
fn synthesis_starts_with_the_title_heading() {
    let mut d = data("ITEM0001", ItemType::JournalArticle);
    d.title = Some("A Paper".to_owned());
    let main_item = item("ITEM0001", d);
    let md = synthesize_markdown("ITEM0001", &main_item, &[]);
    assert!(md.starts_with("# Annotations & Notes: A Paper"));
}
