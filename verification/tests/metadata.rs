use zotero::errors::ZoteroApiError;
use zotero::json::JsonValue;
use zotero::keys::{ItemKey, LibraryVersion};
use zotero::metadata::{
    arxiv_draft, doi_draft, duplicate_title_conditions, import_decision, isbn_draft, metadata_status_error,
    metadata_url, str_at, value_at, IdentifierKind, ImportDecision,
};
use zotero::objects::{ZoteroItem, ZoteroItemData};
use zotero::search::{SearchField, SearchOperator};
use zotero::types::ItemType;

fn s(v: &str) -> JsonValue {
    JsonValue::String(v.to_owned())
}

fn n(v: &str) -> JsonValue {
    JsonValue::Number(v.to_owned())
}

fn obj(members: Vec<(&str, JsonValue)>) -> JsonValue {
    JsonValue::Object(members.into_iter().map(|(k, v)| (k.to_owned(), v)).collect())
}

fn arr(items: Vec<JsonValue>) -> JsonValue {
    JsonValue::Array(items)
}

#[test]
fn parses_crossref_response_into_item_draft() {
    let body = obj(vec![(
        "message",
        obj(vec![
            ("title", arr(vec![s("A Great Paper")])),
            ("author", arr(vec![obj(vec![("given", s("Sam")), ("family", s("McAuthor"))])])),
            ("published", obj(vec![("date-parts", arr(vec![arr(vec![n("2021")])]))])),
            ("DOI", s("10.1/xyz")),
            ("URL", s("https://doi.org/10.1/xyz")),
            ("container-title", arr(vec![s("Journal of Things")])),
        ]),
    )]);

    let draft = doi_draft(&body, "10.1/xyz");

    assert_eq!(draft.title, "A Great Paper");
    assert_eq!(draft.item_type, ItemType::JournalArticle);
    assert_eq!(draft.creators.first().and_then(|c| c.last_name.as_deref()), Some("McAuthor"));
    assert_eq!(draft.date, "2021");
    assert_eq!(draft.doi, "10.1/xyz");
    assert_eq!(draft.publication_title, "Journal of Things");
}

#[test]
fn crossref_falls_back_to_issued_year_and_the_given_doi() {
    let body = obj(vec![("message", obj(vec![("issued", obj(vec![("date-parts", arr(vec![arr(vec![n("1999")])]))]))]))]);
    let draft = doi_draft(&body, "10.9/abc");
    assert_eq!(draft.date, "1999");
    assert_eq!(draft.doi, "10.9/abc");
    assert_eq!(draft.title, "");
}

#[test]
fn arxiv_papers_with_a_doi_are_articles() {
    let with_doi = obj(vec![
        ("title", s("Attention")),
        ("authors", arr(vec![obj(vec![("name", s("A. Vaswani"))])])),
        ("year", n("2017")),
        ("externalIds", obj(vec![("DOI", s("10.5/att"))])),
    ]);
    let d = arxiv_draft(&with_doi, "1706.03762");
    assert_eq!(d.item_type, ItemType::JournalArticle);
    assert_eq!(d.url, "https://arxiv.org/abs/1706.03762");
    assert_eq!(d.creators[0].name.as_deref(), Some("A. Vaswani"));
    assert_eq!(d.date, "2017");
    let without = arxiv_draft(&obj(vec![("title", s("T"))]), "1");
    assert_eq!(without.item_type, ItemType::Preprint);
}

#[test]
fn isbn_lookup_needs_the_record() {
    let body = obj(vec![(
        "ISBN:123",
        obj(vec![("title", s("Book")), ("publishers", arr(vec![obj(vec![("name", s("Pub"))])]))]),
    )]);
    let d = isbn_draft(&body, "123").unwrap();
    assert_eq!(d.item_type, ItemType::Book);
    assert_eq!(d.publisher, "Pub");
    assert_eq!(d.isbn, "123");
    assert_eq!(
        isbn_draft(&body, "999").unwrap_err(),
        ZoteroApiError::NotFound("No book found for ISBN 999".to_owned())
    );
}

#[test]
fn service_urls_use_the_overrides_or_defaults() {
    assert_eq!(metadata_url(IdentifierKind::Doi, "10.1/x y", None, None, None), "https://api.crossref.org/works/10.1%2Fx%20y");
    assert_eq!(
        metadata_url(IdentifierKind::Arxiv, "1706.03762", None, Some("http://s2/"), None),
        "http://s2/graph/v1/paper/arXiv:1706.03762?fields=title,authors,year,abstract,externalIds,venue"
    );
    assert_eq!(
        metadata_url(IdentifierKind::Isbn, "123", None, None, None),
        "https://openlibrary.org/api/books?bibkeys=ISBN:123&jscmd=data&format=json"
    );
}

#[test]
fn metadata_statuses_map_to_errors() {
    assert_eq!(
        metadata_status_error(404, "http://x"),
        Some(ZoteroApiError::NotFound("No metadata found for http://x".to_owned()))
    );
    assert_eq!(
        metadata_status_error(502, "http://x"),
        Some(ZoteroApiError::LocalApi { status: 502, message: "502 Bad Gateway".to_owned() })
    );
    assert_eq!(metadata_status_error(200, "http://x"), None);
}

#[test]
fn paths_select_members_and_elements() {
    let v = obj(vec![("a", arr(vec![obj(vec![("b", s("x"))])]))]);
    assert_eq!(str_at(&v, &["a", "0", "b"]), Some("x"));
    assert_eq!(value_at(&v, &["a", "1"]), None);
    assert_eq!(str_at(&v, &["a"]), None);
}

#[test]
fn duplicate_search_and_import_decision() {
    let body = obj(vec![("message", obj(vec![("title", arr(vec![s("T")]))]))]);
    let draft = doi_draft(&body, "10.1/x");
    let conds = duplicate_title_conditions(&draft).unwrap();
    assert_eq!(conds.len(), 1);
    assert_eq!(conds[0].field, SearchField::Title);
    assert_eq!(conds[0].operator, SearchOperator::Is);
    assert_eq!(conds[0].value, "T");
    let untitled = doi_draft(&obj(vec![]), "10.1/x");
    assert!(duplicate_title_conditions(&untitled).is_none());

    match import_decision(draft, None, Some("COLL0001".to_owned())) {
        ImportDecision::Create(d) => assert_eq!(d.collections.last().map(|k| k.as_str()), Some("COLL0001")),
        ImportDecision::UseExisting(_) => panic!("nothing was found"),
    }
    let existing = ZoteroItem {
        key: ItemKey::from_str("OLD00001"),
        version: LibraryVersion::new(1),
        library: None,
        links: None,
        meta: None,
        data: ZoteroItemData::new(ItemKey::from_str("OLD00001"), LibraryVersion::new(1), ItemType::Book),
    };
    match import_decision(untitled, Some(existing), None) {
        ImportDecision::UseExisting(it) => assert_eq!(it.key.as_str(), "OLD00001"),
        ImportDecision::Create(_) => panic!("the duplicate is returned"),
    }
}
