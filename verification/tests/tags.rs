use zotero::json::JsonValue;
use zotero::keys::{LibraryVersion, TagName};
use zotero::objects::ZoteroTag;
use zotero::tags::{diff_tags, item_tag_patch, tag_names, tag_patch};
use zotero::types::TagOrigin;

fn tag(name: &str) -> ZoteroTag {
    ZoteroTag { tag: TagName::from_str(name), origin: TagOrigin::default() }
}

fn tag_of(v: &JsonValue) -> Option<&JsonValue> {
    v.get("tag")
}

#[test]
fn adds_new_tags_and_removes_specified_existing_tags() {
    let existing = vec![tag("old")];
    let add = vec![TagName::from_str("new")];
    let remove = vec![TagName::from_str("old")];

    let result = diff_tags(existing, &add, &remove);

    assert_eq!(result.len(), 1);
    assert_eq!(result.first().and_then(tag_of), Some(&JsonValue::String("new".to_owned())));
}

#[test]
fn handles_empty_add_and_remove_tag_lists() {
    let result = diff_tags(vec![tag("keep_me")], &[], &[]);

    assert_eq!(result.len(), 1);
    assert_eq!(result.first().and_then(tag_of), Some(&JsonValue::String("keep_me".to_owned())));
}

#[test]
fn sorts_resulting_tags_deterministically() {
    let add = vec![TagName::from_str("alpha"), TagName::from_str("middle")];

    let result = diff_tags(vec![tag("zeta")], &add, &[]);
    let tags: Vec<&str> = result.iter().filter_map(|value| tag_of(value).and_then(|t| t.as_str())).collect();

    assert_eq!(tags, vec!["alpha", "middle", "zeta"]);
}

#[test]
fn deduplicates_added_tags_when_already_present() {
    let add = vec![TagName::from_str("rust")];

    let result = diff_tags(vec![tag("rust")], &add, &[]);

    assert_eq!(result.len(), 1);
    assert_eq!(result.first().and_then(tag_of), Some(&JsonValue::String("rust".to_owned())));
}

#[test]
fn a_tag_both_added_and_removed_is_gone() {
    let add = vec![TagName::from_str("x")];
    let remove = vec![TagName::from_str("x")];
    let result = diff_tags(vec![tag("keep")], &add, &remove);
    let names: Vec<TagName> = tag_names(&result);
    assert_eq!(names, vec![TagName::from_str("keep")]);
}

#[test]
fn renaming_swaps_the_old_name_for_the_new_one() {
    let patch = item_tag_patch(
        vec![tag("beta"), tag("old")],
        LibraryVersion::new(7),
        &[TagName::from_str("new")],
        &[TagName::from_str("old")],
    );
    let tags = match patch.get("tags") {
        Some(JsonValue::Array(ts)) => tag_names(ts),
        _ => panic!("tags missing"),
    };
    assert_eq!(tags, vec![TagName::from_str("beta"), TagName::from_str("new")]);
    assert_eq!(patch.get("version"), Some(&JsonValue::Number("7".to_owned())));
}

#[test]
fn tag_patch_carries_tags_and_version() {
    let patch = tag_patch(vec![], LibraryVersion::new(12));
    assert_eq!(patch.get("tags"), Some(&JsonValue::Array(vec![])));
    assert_eq!(patch.get("version"), Some(&JsonValue::Number("12".to_owned())));
}
