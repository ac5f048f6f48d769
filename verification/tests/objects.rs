use zotero::json::{set_member, JsonValue};
use zotero::keys::{ItemKey, LibraryVersion};
use zotero::objects::{ItemLinks, ZoteroItemData};
use zotero::types::{ItemType, LinkMode};

fn links_with_enclosure_href(href: &str) -> ItemLinks {
    ItemLinks {
        self_link: None,
        alternate: None,
        enclosure: Some(JsonValue::Object(vec![("href".to_owned(), JsonValue::String(href.to_owned()))])),
    }
}

#[test]
fn href_returns_enclosure_url() {
    let links = links_with_enclosure_href("file:///tmp/paper.pdf");

    assert_eq!(links.href("enclosure"), Some("file:///tmp/paper.pdf"));
}

#[test]
fn href_returns_none_for_unset_link() {
    let links = links_with_enclosure_href("file:///tmp/paper.pdf");

    assert_eq!(links.href("self"), None);
}

#[test]
fn href_returns_none_for_unknown_key() {
    let links = links_with_enclosure_href("file:///tmp/paper.pdf");

    assert_eq!(links.href("missing"), None);
}

#[test]
fn a_field_reads_back_what_was_written() {
    let mut data = ZoteroItemData::new(ItemKey::from_str("ITEM0001"), LibraryVersion::new(1), ItemType::Attachment);
    assert_eq!(data.get_field("linkMode"), None);
    data.set_field("linkMode".to_owned(), JsonValue::String("linked_file".to_owned()));
    data.set_field("extraThing".to_owned(), JsonValue::Bool(true));
    assert_eq!(data.get_field("linkMode"), Some("linked_file"));
    assert_eq!(data.link_mode(), Some(LinkMode::LinkedFile));
    data.set_field("linkMode".to_owned(), JsonValue::String("imported_file".to_owned()));
    assert_eq!(data.link_mode(), Some(LinkMode::ImportedFile));
    assert_eq!(data.get_field("extraThing"), None);
}

#[test]
fn members_are_replaced_in_place_or_appended() {
    let mut ms = vec![("a".to_owned(), JsonValue::Null), ("b".to_owned(), JsonValue::Null)];
    set_member(&mut ms, "a".to_owned(), JsonValue::Bool(true));
    set_member(&mut ms, "c".to_owned(), JsonValue::Bool(false));
    let v = JsonValue::Object(ms);
    assert_eq!(v.get("a"), Some(&JsonValue::Bool(true)));
    assert_eq!(v.get("c"), Some(&JsonValue::Bool(false)));
    assert_eq!(v.get("b"), Some(&JsonValue::Null));
    assert_eq!(v.at(0), None);
    assert_eq!(JsonValue::Array(vec![JsonValue::Null]).at(0), Some(&JsonValue::Null));
}

#[test]
fn set_fields_read_back_as_text() {
    let mut data = ZoteroItemData::new(ItemKey::from_str("ABCD1234"), LibraryVersion::new(1), ItemType::Book);
    data.set_field("series".to_owned(), JsonValue::String("Lecture Notes".to_owned()));
    assert_eq!(data.get_str("series"), Some("Lecture Notes"));
    data.set_field("series".to_owned(), JsonValue::Bool(true));
    assert_eq!(data.get_str("series"), None);
    data.set_field("title".to_owned(), JsonValue::String("Shadowed".to_owned()));
    assert_eq!(data.get_str("title"), None);
}
