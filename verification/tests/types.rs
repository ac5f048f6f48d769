use zotero::json::JsonValue;
use zotero::keys::{CitationKey, CollectionKey, ItemKey, LibraryVersion, TagName};
use zotero::types::{AnnotationType, CollectionParent, CreatorType, ItemType, LinkMode, TagOrigin};

#[test]
fn round_trips_known_and_unknown_item_types() {
    let article = ItemType::JournalArticle;
    let article_str: String = article.to_wire();
    assert_eq!(article_str, "journalArticle");
    assert_eq!(ItemType::from_wire(&article_str), article);

    let custom = ItemType::from_wire("customWebpage");
    let custom_str: String = custom.to_wire();
    assert_eq!(custom_str, "customWebpage");
    assert_eq!(custom, ItemType::Other("customWebpage".to_owned()));
}

#[test]
fn round_trips_all_35_zotero_item_types() {
    let types = vec![
        (ItemType::Annotation, "annotation"),
        (ItemType::Artwork, "artwork"),
        (ItemType::Attachment, "attachment"),
        (ItemType::AudioRecording, "audioRecording"),
        (ItemType::Bill, "bill"),
        (ItemType::BlogPost, "blogPost"),
        (ItemType::Book, "book"),
        (ItemType::BookSection, "bookSection"),
        (ItemType::Case, "case"),
        (ItemType::ComputerProgram, "computerProgram"),
        (ItemType::ConferencePaper, "conferencePaper"),
        (ItemType::DictionaryEntry, "dictionaryEntry"),
        (ItemType::Document, "document"),
        (ItemType::Email, "email"),
        (ItemType::EncyclopediaArticle, "encyclopediaArticle"),
        (ItemType::Film, "film"),
        (ItemType::ForumPost, "forumPost"),
        (ItemType::Hearing, "hearing"),
        (ItemType::InstantMessage, "instantMessage"),
        (ItemType::Interview, "interview"),
        (ItemType::JournalArticle, "journalArticle"),
        (ItemType::Letter, "letter"),
        (ItemType::MagazineArticle, "magazineArticle"),
        (ItemType::Manuscript, "manuscript"),
        (ItemType::MapItem, "map"),
        (ItemType::NewspaperArticle, "newspaperArticle"),
        (ItemType::Note, "note"),
        (ItemType::Patent, "patent"),
        (ItemType::Podcast, "podcast"),
        (ItemType::Preprint, "preprint"),
        (ItemType::Presentation, "presentation"),
        (ItemType::RadioBroadcast, "radioBroadcast"),
        (ItemType::Report, "report"),
        (ItemType::Statute, "statute"),
        (ItemType::Thesis, "thesis"),
        (ItemType::TvBroadcast, "tvBroadcast"),
        (ItemType::VideoRecording, "videoRecording"),
        (ItemType::Webpage, "webpage"),
    ];

    for (variant, expected_str) in types {
        assert_eq!(variant.as_str(), expected_str);
        let stringified: String = variant.to_wire();
        assert_eq!(stringified, expected_str);
        assert_eq!(ItemType::from_wire(expected_str), variant);
    }
}

#[test]
fn defaults_to_other_variant() {
    assert_eq!(ItemType::default(), ItemType::Other(String::new()));
}

#[test]
fn is_indexable_excludes_attachments_notes_and_annotations() {
    for item_type in [ItemType::Attachment, ItemType::Note, ItemType::Annotation] {
        assert!(!item_type.is_indexable(), "{item_type:?} must not be indexable");
    }
    assert!(ItemType::JournalArticle.is_indexable());
    assert!(ItemType::Other("webpage".to_owned()).is_indexable());
}

#[test]
fn round_trips_known_and_unknown_annotation_types() {
    let highlight = AnnotationType::Highlight;
    let highlight_str: String = highlight.to_wire();
    assert_eq!(highlight_str, "highlight");
    assert_eq!(AnnotationType::from_wire(&highlight_str), highlight);

    let ink = AnnotationType::from_wire("ink");
    let ink_str: String = ink.to_wire();
    assert_eq!(ink_str, "ink");
    assert_eq!(ink, AnnotationType::Other("ink".to_owned()));
}

#[test]
fn creator_type_round_trips_author_editor_and_other() {
    for (value, expected) in [
        ("author", CreatorType::Author),
        ("editor", CreatorType::Editor),
        ("seriesEditor", CreatorType::Other("seriesEditor".to_owned())),
    ] {
        let creator_type = CreatorType::from_wire(value);
        let serialized: String = creator_type.to_wire();

        assert_eq!(creator_type, expected, "case {value}");
        assert_eq!(serialized, value, "case {value}");
    }
}

#[test]
fn converts_user_automatic_and_other_variants() {
    assert_eq!(TagOrigin::from_u8(0), TagOrigin::User);
    assert_eq!(TagOrigin::from_u8(1), TagOrigin::Automatic);
    assert_eq!(TagOrigin::from_u8(42), TagOrigin::Other(42));

    assert_eq!(TagOrigin::User.to_u8(), 0);
    assert_eq!(TagOrigin::Automatic.to_u8(), 1);
    assert_eq!(TagOrigin::Other(42).to_u8(), 42);
    assert_eq!(TagOrigin::default(), TagOrigin::User);
}

#[test]
fn round_trips_known_and_unknown_link_modes() {
    let imported = LinkMode::ImportedFile;
    let imported_str: String = imported.to_wire();
    assert_eq!(imported_str, "imported_file");
    assert_eq!(LinkMode::from_wire(&imported_str), imported);

    let custom = LinkMode::from_wire("custom_mode");
    let custom_str: String = custom.to_wire();
    assert_eq!(custom_str, "custom_mode");
    assert_eq!(custom, LinkMode::Other("custom_mode".to_owned()));
}

#[test]
fn serializes_top_level_as_false_and_parent_as_key() {
    assert_eq!(CollectionParent::TopLevel.to_json(), JsonValue::Bool(false));

    let parent = CollectionParent::Parent(CollectionKey::from_str("PARENT01")).to_json();
    assert_eq!(parent, JsonValue::String("PARENT01".to_owned()));
}

#[test]
fn treats_false_null_and_string_false_as_top_level() {
    assert_eq!(CollectionParent::from_json(&JsonValue::Bool(false)), CollectionParent::TopLevel);
    assert_eq!(CollectionParent::from_json(&JsonValue::Null), CollectionParent::TopLevel);
    assert_eq!(CollectionParent::from_json(&JsonValue::String("false".to_owned())), CollectionParent::TopLevel);
    assert_eq!(
        CollectionParent::from_json(&JsonValue::String("PARENT01".to_owned())),
        CollectionParent::Parent(CollectionKey::from_str("PARENT01"))
    );
}

#[test]
fn implements_display_from_and_equality_comparisons() {
    let item_key = ItemKey::from_str("ITEM123");
    assert_eq!(item_key.as_str(), "ITEM123");
    assert_eq!(item_key, ItemKey::new("ITEM123".to_owned()));

    let col_key = CollectionKey::new("COL123".to_owned());
    assert_eq!(col_key.as_str(), "COL123");
    assert_eq!(col_key, CollectionKey::from_str("COL123"));

    assert_eq!(TagName::from_str("rust").as_str(), "rust");
    assert_eq!(CitationKey::from_str("doe2020").as_str(), "doe2020");
    assert_eq!(LibraryVersion::new(42).as_u64(), 42);
}

#[test]
fn collection_parents_survive_the_wire() {
    let parent = CollectionParent::Parent(CollectionKey::from_str("PARENT01"));
    assert_eq!(CollectionParent::from_json(&parent.to_json()), parent);
    assert_eq!(CollectionParent::from_json(&CollectionParent::TopLevel.to_json()), CollectionParent::TopLevel);
    let odd = CollectionParent::Parent(CollectionKey::from_str("false"));
    assert_eq!(CollectionParent::from_json(&odd.to_json()), CollectionParent::TopLevel);
}

#[test]
fn library_versions_convert_print_and_order_as_numbers() {
    let v = LibraryVersion::from(42_u64);
    assert_eq!(v, LibraryVersion::new(42));
    assert_eq!(v.as_u64(), 42);
    assert_eq!(*v, 42);
    assert_eq!(u64::from(v), 42);
    assert_eq!(v.to_string(), "42");
    assert!(LibraryVersion::new(7) < LibraryVersion::new(42));
    assert!(!(LibraryVersion::new(42) < LibraryVersion::new(42)));
    assert!(LibraryVersion::new(43) > LibraryVersion::new(42));
    assert_eq!(LibraryVersion::new(3).max(LibraryVersion::new(9)), LibraryVersion::new(9));
}
