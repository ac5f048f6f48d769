use zotero::json::JsonValue;
use zotero::keys::ItemKey;
use zotero::relations::{
    apply_relations, check_relation_pair, key_of_uri, parse_relation_keys, related_item_keys, RelationAction,
    RelationUri,
};

const URI_A: &str = "http://zotero.org/users/0/items/AAAAAAAA";
const URI_B: &str = "http://zotero.org/users/0/items/BBBBBBBB";

fn s(v: &str) -> JsonValue {
    JsonValue::String(v.to_owned())
}

fn obj(members: Vec<(&str, JsonValue)>) -> JsonValue {
    JsonValue::Object(members.into_iter().map(|(k, v)| (k.to_owned(), v)).collect())
}

#[test]
fn extracts_uris_from_array_form() {
    let relations = obj(vec![("dc:relation", JsonValue::Array(vec![s(URI_A), s(URI_B)]))]);

    let uris = parse_relation_keys(&relations);

    assert_eq!(uris, vec![RelationUri::from(URI_A), RelationUri::from(URI_B)]);
}

#[test]
fn extracts_uri_from_single_string_form() {
    let relations = obj(vec![("dc:relation", s(URI_A))]);

    let uris = parse_relation_keys(&relations);

    assert_eq!(uris, vec![RelationUri::from(URI_A)]);
}

#[test]
fn returns_empty_when_relations_missing() {
    let empty = parse_relation_keys(&obj(vec![]));
    assert!(empty.is_empty());
}

#[test]
fn adds_new_uri() {
    let result = apply_relations(obj(vec![]), RelationAction::Add, &RelationUri::from(URI_B));

    assert_eq!(result, obj(vec![("dc:relation", JsonValue::Array(vec![s(URI_B)]))]));
}

#[test]
fn removes_existing_uri() {
    let result = apply_relations(
        obj(vec![("dc:relation", JsonValue::Array(vec![s(URI_A), s(URI_B)]))]),
        RelationAction::Remove,
        &RelationUri::from(URI_B),
    );

    assert_eq!(result, obj(vec![("dc:relation", JsonValue::Array(vec![s(URI_A)]))]));
}

#[test]
fn from_item_key_round_trips() {
    let key = ItemKey::from_str("ABC12345");
    let uri = RelationUri::from(&key);
    assert_eq!(uri.as_str(), "http://zotero.org/users/0/items/ABC12345");

    let result = ItemKey::try_from(&uri);

    assert_eq!(result.as_ref().ok(), Some(&key));
}

#[test]
fn try_from_extracts_key_from_user_library_uri() {
    let uri = RelationUri::from("http://zotero.org/users/0/items/ABC12345");
    let result = ItemKey::try_from(&uri);

    assert_eq!(result.ok().as_ref().map(ItemKey::as_str), Some("ABC12345"));
}

#[test]
fn try_from_extracts_key_from_group_library_uri() {
    let uri = RelationUri::from("http://zotero.org/groups/36222/items/E6IGUT5Z");
    let result = ItemKey::try_from(&uri);

    assert_eq!(result.ok().as_ref().map(ItemKey::as_str), Some("E6IGUT5Z"));
}

#[test]
fn try_from_rejects_bare_item_key_string() {
    let uri = RelationUri::from("ITEM123");
    assert!(ItemKey::try_from(&uri).is_err(), "bare non-URI key must be rejected");

    let full_length_key = RelationUri::from("ABCDEFGH");
    assert!(ItemKey::try_from(&full_length_key).is_err(), "bare eight-character key must be rejected");
}

#[test]
fn try_from_rejects_malformed_uris() {
    let empty = RelationUri::from("");
    assert!(ItemKey::try_from(&empty).is_err(), "empty URI must be rejected");

    let no_items_segment = RelationUri::from("http://zotero.org/users/0/ABC12345");
    assert!(ItemKey::try_from(&no_items_segment).is_err(), "URI without /items/ segment must be rejected");

    let bad_key_shape = RelationUri::from("http://zotero.org/users/0/items/ABC");
    assert!(ItemKey::try_from(&bad_key_shape).is_err(), "short trailing key must be rejected");

    let no_trailing_key = RelationUri::from("http://zotero.org/users/0/items/");
    assert!(ItemKey::try_from(&no_trailing_key).is_err(), "URI without trailing key must be rejected");
}

#[test]
fn key_of_uri_error_has_a_message() {
    let err = key_of_uri(&RelationUri::from("nope")).unwrap_err();
    assert_eq!(err.message(), "not a Zotero item URI");
}

#[test]
fn adding_an_existing_uri_keeps_one_copy_in_order() {
    let result = apply_relations(
        obj(vec![("dc:relation", JsonValue::Array(vec![s(URI_B)]))]),
        RelationAction::Add,
        &RelationUri::from(URI_A),
    );
    assert_eq!(result, obj(vec![("dc:relation", JsonValue::Array(vec![s(URI_A), s(URI_B)]))]));
    let again = apply_relations(result, RelationAction::Add, &RelationUri::from(URI_A));
    assert_eq!(again, obj(vec![("dc:relation", JsonValue::Array(vec![s(URI_A), s(URI_B)]))]));
}

#[test]
fn removing_the_last_uri_and_keeping_other_members() {
    let current = obj(vec![
        ("owl:sameAs", s("http://zotero.org/users/0/items/CCCCCCCC")),
        ("dc:relation", s(URI_A)),
    ]);
    let result = apply_relations(current, RelationAction::Remove, &RelationUri::from(URI_A));
    assert_eq!(result.get("owl:sameAs"), Some(&s("http://zotero.org/users/0/items/CCCCCCCC")));
    assert!(parse_relation_keys(&result).is_empty());
}

#[test]
fn related_item_keys_skip_uris_that_are_not_item_uris() {
    let relations = obj(vec![("dc:relation", JsonValue::Array(vec![s(URI_A), s("urn:isbn:123"), s(URI_B)]))]);
    let keys = related_item_keys(&relations);
    assert_eq!(keys, vec![ItemKey::from_str("AAAAAAAA"), ItemKey::from_str("BBBBBBBB")]);
}

#[test]
fn an_item_cannot_be_related_to_itself() {
    assert!(check_relation_pair("AAAAAAAA", "BBBBBBBB").is_ok());
    let err = check_relation_pair("AAAAAAAA", "AAAAAAAA").unwrap_err();
    assert_eq!(err.message(), "Input rejected: cannot relate an item to itself");
}

#[test]
fn adding_then_removing_a_relation_restores_the_links() {
    let current = obj(vec![("dc:relation", s(URI_A)), ("owl:sameAs", s("x"))]);
    let added = apply_relations(current, RelationAction::Add, &RelationUri::from(URI_B));
    let removed = apply_relations(added, RelationAction::Remove, &RelationUri::from(URI_B));
    assert_eq!(parse_relation_keys(&removed), vec![RelationUri::from(URI_A)]);
    assert_eq!(removed.get("owl:sameAs"), Some(&s("x")));
}

#[test]
fn keys_must_directly_follow_the_items_segment() {
    let nested = RelationUri::from("http://x/items/A/ABCDEFGH");
    assert!(ItemKey::try_from(&nested).is_err());
    assert!(key_of_uri(&nested).is_err());
    let direct = RelationUri::from("http://x/items/ABCDEFGH");
    assert_eq!(ItemKey::try_from(&direct).ok().as_ref().map(ItemKey::as_str), Some("ABCDEFGH"));
    let punct = RelationUri::from("http://x/items/ABCD-FGH");
    assert!(ItemKey::try_from(&punct).is_err());
}
