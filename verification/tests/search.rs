use std::cmp::Ordering;

use zotero::client::{ZoteroClient, ZoteroResponse};
use zotero::keys::{ItemKey, LibraryVersion};
use zotero::objects::{ZoteroCreator, ZoteroItem, ZoteroItemData};
use zotero::search::{
    advanced_search_scan, compare_dates, coverage_pagination, date_key, find_by_citation_key, finish_page,
    item_matches_conditions, paginate, query_items_page, search_items_page, sort_items, year_of, ItemQueryParams,
    JoinMode, PageAccumulator, PaginationInfo, PreparedCondition, QuickSearchMode, SearchCondition, SearchField,
    SearchOperator, SortField, SortOrder,
};
use zotero::types::{CreatorType, ItemType};

fn client() -> ZoteroClient {
    ZoteroClient::new("http://127.0.0.1:23119/api".to_owned())
}

fn item(key: &str, title: &str, date: &str) -> ZoteroItem {
    let mut data = ZoteroItemData::new(ItemKey::from_str(key), LibraryVersion::new(1), ItemType::JournalArticle);
    data.title = Some(title.to_owned());
    data.date = Some(date.to_owned());
    ZoteroItem { key: ItemKey::from_str(key), version: LibraryVersion::new(1), library: None, links: None, meta: None, data }
}

fn cond(field: SearchField, operator: SearchOperator, value: &str) -> SearchCondition {
    SearchCondition { field, operator, value: value.to_owned() }
}

fn keys(items: &[ZoteroItem]) -> Vec<&str> {
    items.iter().map(|i| i.key.as_str()).collect()
}

#[test]
fn paginate_clamps_the_offset_and_reports_more() {
    let page = paginate(vec![1, 2, 3, 4, 5], 1, 2);
    assert_eq!(page.items, vec![2, 3]);
    assert_eq!(page.pagination, PaginationInfo { limit: 2, offset: 1, total: 5, has_more: true });
    let past = paginate(vec![1, 2], 10, 5);
    assert!(past.items.is_empty());
    assert_eq!(past.pagination.offset, 2);
    assert!(!past.pagination.has_more);
}

#[test]
fn accumulating_matches_gives_the_same_page() {
    let mut acc = PageAccumulator::new(1, 2);
    for x in [10, 20, 30, 40] {
        acc.push_match(x);
    }
    let page = acc.into_page();
    let direct = paginate(vec![10, 20, 30, 40], 1, 2);
    assert_eq!(page.items, direct.items);
    assert_eq!(page.pagination, direct.pagination);
}

#[test]
fn dates_compare_by_their_numeric_parts() {
    assert_eq!(date_key("2024-03-07"), (2024, 3, 7));
    assert_eq!(date_key("2024"), (2024, 0, 0));
    assert_eq!(date_key("x-2"), (0, 2, 0));
    assert_eq!(compare_dates("2024-3-7", "2024-03-07"), Ordering::Equal);
    assert_eq!(compare_dates("2023-12-31", "2024"), Ordering::Less);
    assert_eq!(compare_dates("2024-02", "2024-01-30"), Ordering::Greater);
    assert_eq!(year_of("2024-03-07"), "2024");
    assert_eq!(year_of("1999"), "1999");
}

#[test]
fn conditions_match_items_by_field_and_operator() {
    let mut it = item("AAAAAAAA", "Rust Ownership", "2021-05-01");
    it.data.creators = vec![ZoteroCreator {
        creator_type: Some(CreatorType::Author),
        first_name: Some("Ada".to_owned()),
        last_name: Some("Lovelace".to_owned()),
        name: None,
    }];
    let title = cond(SearchField::Title, SearchOperator::Contains, "ownership");
    let creator = cond(SearchField::Creator, SearchOperator::Is, "ada lovelace");
    let year = cond(SearchField::Year, SearchOperator::IsBefore, "2022");
    let wrong = cond(SearchField::Title, SearchOperator::StartsWith, "Borrow");
    let prepared: Vec<PreparedCondition> =
        [&title, &creator, &year].iter().map(|c| PreparedCondition::from_condition(c)).collect();
    assert!(item_matches_conditions(&it, &prepared, JoinMode::All));
    let mixed: Vec<PreparedCondition> =
        [&title, &wrong].iter().map(|c| PreparedCondition::from_condition(c)).collect();
    assert!(!item_matches_conditions(&it, &mixed, JoinMode::All));
    assert!(item_matches_conditions(&it, &mixed, JoinMode::Any));
}

#[test]
fn sorting_is_stable_and_follows_the_direction() {
    let items = vec![
        item("B", "beta", "2020"),
        item("A", "alpha", "2021"),
        item("C", "Beta", "2019"),
        item("D", "alpha", "2018"),
    ];
    let asc = sort_items(items, SortField::Title, SortOrder::Asc);
    assert_eq!(keys(&asc), vec!["C", "A", "D", "B"]);
    let by_date = sort_items(asc, SortField::Date, SortOrder::Desc);
    assert_eq!(keys(&by_date), vec!["A", "B", "C", "D"]);
}

#[test]
fn citation_keys_are_found_natively_or_in_extra() {
    let mut native = item("AAAAAAAA", "x", "2020");
    native.data.citation_key = Some("Doe2020".to_owned());
    let mut extra = item("BBBBBBBB", "y", "2020");
    extra.data.extra = Some("Citation Key: smith2021".to_owned());
    let found = find_by_citation_key(vec![native, extra], "SMITH2021").unwrap();
    assert_eq!(found.key.as_str(), "BBBBBBBB");
    assert!(find_by_citation_key(vec![item("C", "z", "2020")], "doe2020").is_none());
}

#[test]
fn query_parameters_are_sent_in_order() {
    let params = ItemQueryParams {
        q: Some("rust".to_owned()),
        qmode: Some(QuickSearchMode::Everything),
        limit: Some(10),
        start: Some(20),
        ..ItemQueryParams::default()
    };
    let req = client().query_items_request(&params);
    assert_eq!(req.path, "/items");
    assert!(req.query.contains(&("q".to_owned(), "rust".to_owned())));
    assert!(req.query.contains(&("qmode".to_owned(), "everything".to_owned())));
    let search = client().search_items_request("ml", Some("COLL0001"), 5, 10);
    assert_eq!(search.path, "/collections/COLL0001/items");
    assert_eq!(
        search.query,
        vec![
            ("q".to_owned(), "ml".to_owned()),
            ("start".to_owned(), "5".to_owned()),
            ("limit".to_owned(), "10".to_owned()),
            ("itemType".to_owned(), "-note".to_owned()),
        ]
    );
    let tag = client().search_by_tag_request("rust", 100);
    assert_eq!(tag.query[0], ("tag".to_owned(), "rust".to_owned()));
}

#[test]
fn pages_use_the_server_total_when_given() {
    let res = ZoteroResponse { data: vec![item("A", "a", "2020")], total_results: Some(30), last_modified_version: None, server_id: None };
    let page = search_items_page(res, 10, 1);
    assert_eq!(page.pagination, PaginationInfo { limit: 1, offset: 10, total: 30, has_more: true });
    let res = ZoteroResponse { data: vec![item("A", "a", "2020")], total_results: None, last_modified_version: None, server_id: None };
    let page = query_items_page(&ItemQueryParams::default(), res);
    assert_eq!(page.pagination.total, 1);
    let finished = finish_page(vec![], None, 40, 10);
    assert_eq!(finished.pagination.total, 40);
    assert!(!finished.pagination.has_more);
    let cov = coverage_pagination(0, 100, 100, Some(250));
    assert_eq!(cov.total, 250);
    assert!(cov.has_more);
}

#[test]
fn simple_conditions_are_pushed_to_the_server() {
    let url = client()
        .pushdown_url(&[
            cond(SearchField::Creator, SearchOperator::Contains, "Doe Jr"),
            cond(SearchField::Tag, SearchOperator::Is, "ml"),
        ])
        .unwrap();
    assert_eq!(
        url,
        "http://127.0.0.1:23119/api/users/0/items?q=Doe%20Jr&qmode=creator&itemType=-note,-attachment,-annotation&tag=ml"
    );
    assert!(client().pushdown_url(&[cond(SearchField::Title, SearchOperator::Contains, "x")]).is_none());
    assert!(client().pushdown_url(&[]).is_none());
    let full = client()
        .advanced_search_url(&[cond(SearchField::ItemType, SearchOperator::Is, "book")], JoinMode::All, None, 0, 5)
        .unwrap();
    assert!(full.ends_with("itemType=book,-note,-attachment,-annotation&start=0&limit=5"));
    assert!(client()
        .advanced_search_url(&[cond(SearchField::ItemType, SearchOperator::Is, "book")], JoinMode::Any, None, 0, 5)
        .is_none());
}

#[test]
fn scanning_filters_sorts_and_pages() {
    let items = vec![item("A", "Rust", "2021"), item("B", "Go", "2020"), item("C", "Rust Book", "2019")];
    let page = advanced_search_scan(
        items,
        &[cond(SearchField::Title, SearchOperator::Contains, "rust")],
        JoinMode::All,
        Some(SortField::Date),
        SortOrder::Asc,
        0,
        10,
    );
    assert_eq!(keys(&page.items), vec!["C", "A"]);
    assert_eq!(page.pagination.total, 2);
}

#[test]
fn accumulated_pages_match_paginating_every_match() {
    for offset in 0..7 {
        for limit in 0..7 {
            let xs: Vec<u32> = (0..5).collect();
            let mut acc = PageAccumulator::new(offset, limit);
            for x in xs.clone() {
                acc.push_match(x);
            }
            let p = acc.into_page();
            let q = paginate(xs, offset, limit);
            assert_eq!(p.items, q.items);
            assert_eq!(p.pagination, q.pagination);
        }
    }
}
