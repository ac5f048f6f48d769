use zotero::client::{HttpMethod, ZoteroClient};
use zotero::collections::{collections_matching, first_created, CollectionItemAction};
use zotero::errors::ZoteroApiError;
use zotero::json::JsonValue;
use zotero::keys::{CollectionKey, LibraryVersion};
use zotero::objects::{ZoteroCollection, ZoteroCollectionData};
use zotero::types::CollectionParent;

fn s(v: &str) -> JsonValue {
    JsonValue::String(v.to_owned())
}

fn collection(key: &str, name: &str, parent: CollectionParent) -> ZoteroCollection {
    ZoteroCollection {
        key: CollectionKey::from_str(key),
        version: LibraryVersion::new(3),
        data: ZoteroCollectionData { key: CollectionKey::from_str(key), name: name.to_owned(), parent_collection: parent },
    }
}

fn client() -> ZoteroClient {
    ZoteroClient::new("http://127.0.0.1:23119/api".to_owned())
}

#[test]
fn search_collections_matches_names_case_insensitively() {
    let all = vec![
        collection("COLL0001", "Machine Learning", CollectionParent::TopLevel),
        collection("COLL0002", "Other", CollectionParent::TopLevel),
    ];

    let found = collections_matching(all, "machine");

    assert_eq!(found.iter().map(|c| c.key.as_str()).collect::<Vec<_>>(), vec!["COLL0001"]);
}

#[test]
fn create_collection_serializes_top_level_and_parent_collection() {
    let top = client().create_collection_request("Top", None);
    let child = client().create_collection_request("Child", Some(&CollectionKey::from_str("PARENT01")));

    assert_eq!(top.method, HttpMethod::Post);
    assert_eq!(top.path, "/collections");
    let parent_of = |r: &zotero::client::ApiRequest| -> Option<String> {
        match r.json_body.as_ref().and_then(|b| b.at(0)).and_then(|o| o.get("parentCollection")) {
            Some(JsonValue::Bool(false)) => Some("false".to_owned()),
            Some(JsonValue::String(k)) => Some(k.clone()),
            _ => None,
        }
    };
    assert_eq!(parent_of(&top), Some("false".to_owned()));
    assert_eq!(parent_of(&child), Some("PARENT01".to_owned()));
}

#[test]
fn managing_items_posts_or_deletes_the_joined_keys() {
    let keys = vec!["AAAAAAAA".to_owned(), "BBBBBBBB".to_owned()];
    let add = client().manage_collection_items_request("COLL0001", &keys, CollectionItemAction::Add);
    let remove = client().manage_collection_items_request("COLL0001", &keys, CollectionItemAction::Remove);
    assert_eq!(add.method, HttpMethod::Post);
    assert_eq!(remove.method, HttpMethod::Delete);
    assert_eq!(add.path, "/collections/COLL0001/items");
    assert_eq!(add.json_body, Some(s("AAAAAAAA BBBBBBBB")));
}

#[test]
fn update_keeps_what_is_not_given() {
    let current = collection("COLL0001", "Old", CollectionParent::Parent(CollectionKey::from_str("PARENT01")));
    let req = client().update_collection_request("COLL0001", &current, Some("New Name"), None);
    assert_eq!(req.method, HttpMethod::Put);
    assert_eq!(
        req.json_body,
        Some(JsonValue::Object(vec![
            ("key".to_owned(), s("COLL0001")),
            ("version".to_owned(), JsonValue::Number("3".to_owned())),
            ("name".to_owned(), s("New Name")),
            ("parentCollection".to_owned(), s("PARENT01")),
        ]))
    );
    let moved = client().update_collection_request("COLL0001", &current, None, Some(&CollectionParent::TopLevel));
    assert_eq!(moved.json_body.as_ref().and_then(|b| b.get("name")), Some(&s("Old")));
    assert_eq!(moved.json_body.as_ref().and_then(|b| b.get("parentCollection")), Some(&JsonValue::Bool(false)));
}

#[test]
fn deletions_carry_the_version_guard() {
    let one = client().delete_collection_request("COLL0001", LibraryVersion::new(9));
    assert_eq!(one.method, HttpMethod::Delete);
    assert_eq!(one.unmodified_since_version, Some(9));
    let many = client().delete_collections_request(&["A1".to_owned(), "B2".to_owned()], 11);
    assert_eq!(many.query, vec![("collectionKey".to_owned(), "A1,B2".to_owned())]);
    assert_eq!(many.unmodified_since_version, Some(11));
    let items = client().delete_items_request(&["I1".to_owned()], 4);
    assert_eq!(items.path, "/items");
    assert_eq!(items.query, vec![("itemKey".to_owned(), "I1".to_owned())]);
}

#[test]
fn first_created_needs_one_object() {
    assert_eq!(first_created(vec![1, 2], "item"), Ok(1));
    assert_eq!(
        first_created(Vec::<u8>::new(), "collection"),
        Err(ZoteroApiError::Json("no collection in the creation response".to_owned()))
    );
}

#[test]
fn collection_paths() {
    let req = client().collection_items_request("COLL0001");
    assert_eq!(req.path, "/collections/COLL0001/items");
    assert_eq!(client().get_collection_request("C1").path, "/collections/C1");
    assert_eq!(client().get_collections_request().path, "/collections");
}
