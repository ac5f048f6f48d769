use zotero::client::{HttpMethod, ZoteroClient};
use zotero::json::JsonValue;
use zotero::library::{settings_from_reply, setting_from_reply, DeletedObjectsResponse};

fn s(v: &str) -> JsonValue {
    JsonValue::String(v.to_owned())
}

fn client() -> ZoteroClient {
    ZoteroClient::new("http://127.0.0.1:23119/api".to_owned())
}

#[test]
fn parses_get_settings_map_response() {
    let raw = JsonValue::Object(vec![
        ("export.quickCopy.setting".to_owned(), s("as-bibtex")),
        ("sync.auto".to_owned(), JsonValue::Bool(true)),
    ]);

    let settings = settings_from_reply(raw);

    assert_eq!(settings.len(), 2);
    assert_eq!(settings[0].key, "export.quickCopy.setting");
    assert_eq!(settings[0].value, s("as-bibtex"));
}

#[test]
fn list_replies_decode_each_entry_and_the_last_value_wins() {
    let entry = |k: &str, v: JsonValue| JsonValue::Object(vec![("key".to_owned(), s(k)), ("value".to_owned(), v)]);
    let raw = JsonValue::Array(vec![
        entry("a", JsonValue::Bool(false)),
        entry("b", s("x")),
        JsonValue::Array(vec![s("a"), JsonValue::Bool(true)]),
    ]);
    let settings = settings_from_reply(raw);
    assert_eq!(settings.len(), 2);
    assert_eq!(settings[0].key, "a");
    assert_eq!(settings[0].value, JsonValue::Bool(true));
    assert_eq!(settings[1].key, "b");
}

#[test]
fn a_list_with_an_undecodable_entry_gives_no_settings() {
    let raw = JsonValue::Array(vec![
        JsonValue::Object(vec![("key".to_owned(), s("a")), ("value".to_owned(), JsonValue::Null)]),
        JsonValue::Object(vec![("key".to_owned(), s("b"))]),
    ]);
    assert!(settings_from_reply(raw).is_empty());
    assert!(settings_from_reply(JsonValue::Bool(true)).is_empty());
}

#[test]
fn a_single_setting_reply_is_wrapped_unless_it_is_an_entry() {
    let plain = setting_from_reply("sync.auto", JsonValue::Bool(true));
    assert_eq!(plain.key, "sync.auto");
    assert_eq!(plain.value, JsonValue::Bool(true));
    let entry = setting_from_reply(
        "ignored",
        JsonValue::Object(vec![("value".to_owned(), s("v")), ("key".to_owned(), s("real"))]),
    );
    assert_eq!(entry.key, "real");
    assert_eq!(entry.value, s("v"));
}

#[test]
fn parses_deleted_objects_response() {
    let deleted = DeletedObjectsResponse::default();
    assert!(deleted.items.is_empty() && deleted.collections.is_empty() && deleted.searches.is_empty());
    let req = client().get_deleted_request(10);
    assert_eq!(req.method, HttpMethod::Get);
    assert_eq!(req.path, "/deleted");
    assert_eq!(req.query, vec![("since".to_owned(), "10".to_owned())]);
}

#[test]
fn saved_search_and_setting_requests() {
    assert_eq!(client().list_searches_request().path, "/searches");
    assert_eq!(client().get_search_request("S1").path, "/searches/S1");
    assert_eq!(client().execute_saved_search_request("S1").path, "/searches/S1/items");
    let create = client().create_searches_request(vec![JsonValue::Null]);
    assert_eq!(create.method, HttpMethod::Post);
    assert_eq!(create.json_body, Some(JsonValue::Array(vec![JsonValue::Null])));
    let del = client().delete_searches_request(&["S1".to_owned(), "S2".to_owned()], 5);
    assert_eq!(del.query, vec![("searchKey".to_owned(), "S1,S2".to_owned())]);
    let put = client().update_setting_request("sync.auto", JsonValue::Bool(false));
    assert_eq!(put.method, HttpMethod::Put);
    assert_eq!(put.path, "/settings/sync.auto");
    assert_eq!(client().get_settings_request().path, "/settings");
    assert_eq!(client().get_setting_request("k").path, "/settings/k");
}
