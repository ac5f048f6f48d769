use zotero::bibtex::{bibtex_entry_type, escape_bibtex, format_creators, item_to_bibtex, items_to_bibtex};
use zotero::keys::{ItemKey, LibraryVersion};
use zotero::objects::{ZoteroCreator, ZoteroItem, ZoteroItemData};
use zotero::types::{CreatorType, ItemType};

fn person(first: &str, last: &str) -> ZoteroCreator {
    ZoteroCreator {
        creator_type: Some(CreatorType::Author),
        first_name: Some(first.to_owned()),
        last_name: Some(last.to_owned()),
        name: None,
    }
}

fn item(key: &str, item_type: ItemType) -> ZoteroItem {
    ZoteroItem {
        key: ItemKey::from_str(key),
        version: LibraryVersion::new(1),
        library: None,
        links: None,
        meta: None,
        data: ZoteroItemData::new(ItemKey::from_str(key), LibraryVersion::new(1), item_type),
    }
}

#[test]
fn special_characters_are_escaped() {
    assert_eq!(escape_bibtex("50% of $x_1 & {y}"), "50\\% of \\$x\\_1 \\& \\{y\\}");
    assert_eq!(escape_bibtex("a~b^c\\d#"), "a\\textasciitilde{}b\\textasciicircum{}c\\backslash{}d\\#");
    let whole = escape_bibtex("R&D_2");
    let parts = escape_bibtex("R&") + &escape_bibtex("D_2");
    assert_eq!(whole, parts);
}

#[test]
fn creators_are_joined_with_and() {
    let creators = vec![
        person("Ada", "Lovelace"),
        ZoteroCreator { creator_type: None, first_name: None, last_name: None, name: Some("ACM".to_owned()) },
        ZoteroCreator { creator_type: None, first_name: Some("Solo".to_owned()), last_name: None, name: None },
        ZoteroCreator { creator_type: None, first_name: None, last_name: None, name: None },
    ];
    assert_eq!(format_creators(&creators), "Lovelace, Ada and ACM and Solo");
}

#[test]
fn entry_types_depend_on_the_style() {
    assert_eq!(bibtex_entry_type(&ItemType::JournalArticle, false), "article");
    assert_eq!(bibtex_entry_type(&ItemType::Book, false), "book");
    assert_eq!(bibtex_entry_type(&ItemType::Other("x".to_owned()), false), "misc");
}

#[test]
fn journal_article_entry_lists_its_fields() {
    let mut it = item("ITEM0001", ItemType::JournalArticle);
    it.data.title = Some("Ownership & Borrowing".to_owned());
    it.data.creators = vec![person("Ada", "Lovelace")];
    it.data.publication_title = Some("J. Rust".to_owned());
    it.data.date = Some("2021-05-01".to_owned());
    it.data.doi = Some("10.1/x_y".to_owned());
    let entry = item_to_bibtex(&it, "lovelace2021", "bibtex");
    assert_eq!(
        entry,
        "@article{lovelace2021,\n  title = {Ownership \\& Borrowing},\n  author = {Lovelace, Ada},\n  journal = {J. Rust},\n  year = {2021},\n  doi = {10.1/x\\_y},\n}"
    );
}

#[test]
fn blank_citekey_falls_back_to_citation_key_then_item_key() {
    let mut it = item("ITEM0001", ItemType::Book);
    assert!(item_to_bibtex(&it, "  ", "bibtex").starts_with("@book{ITEM0001,\n"));
    it.data.citation_key = Some("doe2020".to_owned());
    assert!(item_to_bibtex(&it, "", "bibtex").starts_with("@book{doe2020,\n"));
    it.data.date = Some("circa 1900".to_owned());
    assert!(item_to_bibtex(&it, "", "bibtex").contains("  year = {circa 1900},\n"));
}

#[test]
fn several_items_are_separated_by_a_blank_line() {
    let a = item("AAAAAAAA", ItemType::Book);
    let b = item("BBBBBBBB", ItemType::Book);
    assert_eq!(items_to_bibtex(&[a, b], "bibtex"), "@book{AAAAAAAA,\n}\n\n@book{BBBBBBBB,\n}");
    assert_eq!(items_to_bibtex(&[], "bibtex"), "");
}
