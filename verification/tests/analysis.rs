use zotero::analysis::{
    classify_coverage, classify_coverage_page, coverage_flags, find_duplicate_groups, DuplicateType,
    ItemCoverageFlags,
};
use zotero::client::ZoteroClient;
use zotero::keys::{ItemKey, LibraryVersion};
use zotero::objects::{ZoteroItem, ZoteroItemData};
use zotero::search::PaginationInfo;
use zotero::types::ItemType;

fn item(key: &str, item_type: ItemType) -> ZoteroItem {
    ZoteroItem {
        key: ItemKey::from_str(key),
        version: LibraryVersion::new(1),
        library: None,
        links: None,
        meta: None,
        data: ZoteroItemData::new(ItemKey::from_str(key), LibraryVersion::new(1), item_type),
    }
}

fn pdf(key: &str) -> ZoteroItem {
    let mut it = item(key, ItemType::Attachment);
    it.data.content_type = Some("application/pdf".to_owned());
    it
}

#[test]
fn coverage_flags_see_pdfs_dois_and_notes() {
    let mut paper = item("AAAAAAAA", ItemType::JournalArticle);
    paper.data.doi = Some("10.1/x".to_owned());
    let flags = coverage_flags(&paper, &[pdf("P1"), item("N1", ItemType::Note)]);
    assert_eq!(flags, ItemCoverageFlags { has_pdf: true, has_doi: true, has_notes: true });
    let bare = coverage_flags(&item("B", ItemType::Book), &[item("X", ItemType::Attachment)]);
    assert_eq!(bare, ItemCoverageFlags { has_pdf: false, has_doi: false, has_notes: false });
}

#[test]
fn coverage_counts_each_indicator() {
    let flags = vec![
        ItemCoverageFlags { has_pdf: true, has_doi: false, has_notes: true },
        ItemCoverageFlags { has_pdf: true, has_doi: true, has_notes: false },
        ItemCoverageFlags { has_pdf: false, has_doi: false, has_notes: false },
    ];
    let counts = classify_coverage(&flags);
    assert_eq!((counts.total_items, counts.with_pdf, counts.with_doi, counts.with_notes), (3, 2, 1, 1));
}

#[test]
fn coverage_page_pairs_items_with_their_children() {
    let items = vec![item("A", ItemType::Book), item("B", ItemType::Book)];
    let children = vec![vec![pdf("P")], vec![]];
    let pagination = PaginationInfo { limit: 2, offset: 0, total: 2, has_more: false };
    let page = classify_coverage_page(&items, &children, pagination);
    assert_eq!(page.coverage.total_items, 2);
    assert_eq!(page.coverage.with_pdf, 1);
    assert_eq!(page.pagination, pagination);
}

#[test]
fn coverage_url_scopes_to_a_collection() {
    let c = ZoteroClient::new("http://h/api".to_owned());
    assert_eq!(c.coverage_url(Some("COLL0001"), 0, 100), "http://h/api/users/0/collections/COLL0001/items?start=0&limit=100");
    assert_eq!(
        c.coverage_url(None, 100, 50),
        "http://h/api/users/0/items?itemType=-note&sort=dateModified&direction=desc&start=100&limit=50"
    );
}

#[test]
fn duplicates_group_by_doi_then_title() {
    let mut a = item("AAAAAAAA", ItemType::JournalArticle);
    a.data.doi = Some(" 10.1/X ".to_owned());
    a.data.title = Some("Deep Learning".to_owned());
    let mut b = item("BBBBBBBB", ItemType::JournalArticle);
    b.data.doi = Some("10.1/x".to_owned());
    b.data.title = Some("Other".to_owned());
    let mut c = item("CCCCCCCC", ItemType::JournalArticle);
    c.data.title = Some("deep learning ".to_owned());
    let mut d = item("DDDDDDDD", ItemType::JournalArticle);
    d.data.title = Some("Short".to_owned());
    let mut e = item("EEEEEEEE", ItemType::JournalArticle);
    e.data.title = Some("short".to_owned());

    let groups = find_duplicate_groups(&[a, b, c, d, e]);

    assert_eq!(groups.len(), 2);
    assert_eq!(groups[0].match_type, DuplicateType::Doi);
    assert_eq!(groups[0].match_value, "10.1/x");
    assert_eq!(groups[0].item_keys, vec![ItemKey::from_str("AAAAAAAA"), ItemKey::from_str("BBBBBBBB")]);
    assert_eq!(groups[1].match_type, DuplicateType::Title);
    assert_eq!(groups[1].match_value, "deep learning");
    assert_eq!(groups[1].item_keys, vec![ItemKey::from_str("AAAAAAAA"), ItemKey::from_str("CCCCCCCC")]);
}

#[test]
fn duplicate_titles_count_characters_not_bytes() {
    let mut a = item("AAAAAAAA", ItemType::Book);
    a.data.title = Some(" Éclat ".to_owned());
    let mut b = item("BBBBBBBB", ItemType::Book);
    b.data.title = Some("éclat".to_owned());
    assert!(find_duplicate_groups(&[a, b]).is_empty());
    let mut c = item("CCCCCCCC", ItemType::Book);
    c.data.title = Some("Éclats".to_owned());
    let mut d = item("DDDDDDDD", ItemType::Book);
    d.data.title = Some("éclats".to_owned());
    let groups = find_duplicate_groups(&[c, d]);
    assert_eq!(groups.len(), 1);
    assert_eq!(groups[0].match_value, "éclats");
}
