//! The Zotero data model: items, creators, tags, collections and the payloads
//! exchanged with the Local API.
use vstd::prelude::*;
use crate::json::{members_get, JsonValue};
use crate::keys::{CollectionKey, ItemKey, LibraryVersion, TagName};
use crate::types::{CollectionParent, CreatorType, ItemType, LinkMode, TagOrigin};
use crate::text::str_eq;

verus! {

/// The text of an optional string.
pub open spec fn opt_view(o: Option<String>) -> Option<Seq<char>> {
    match o {
        Some(s) => Some(s@),
        None => None,
    }
}

/// The text of an optional string, or the empty text.
pub open spec fn opt_or_empty(o: Option<String>) -> Seq<char> {
    match o {
        Some(s) => s@,
        None => Seq::empty(),
    }
}

/// Response of batch create and update requests.
#[derive(Debug, PartialEq, Eq)]
pub struct BatchWriteResponse {
    pub successful: JsonValue,
    pub unchanged: JsonValue,
    pub failed: JsonValue,
}

/// Payload for creating a new item.
#[derive(Debug, PartialEq, Eq)]
pub struct ItemDraft {
    pub item_type: ItemType,
    pub title: String,
    pub creators: Vec<ZoteroCreator>,
    pub date: String,
    pub doi: String,
    pub url: String,
    pub publication_title: String,
    pub abstract_note: String,
    pub isbn: String,
    pub publisher: String,
    /// Collections that should contain the created item.
    pub collections: Vec<CollectionKey>,
}

/// Library descriptor embedded in item and collection responses.
#[derive(Debug, Clone, PartialEq, Eq)]
pub struct LibraryInfo {
    pub id: u64,
    /// `"user"` or `"group"`.
    pub type_: String,
    pub name: Option<String>,
}

/// Link objects of an item.
#[derive(Debug, PartialEq, Eq)]
pub struct ItemLinks {
    pub self_link: Option<JsonValue>,
    pub alternate: Option<JsonValue>,
    pub enclosure: Option<JsonValue>,
}

impl ItemLinks {
    /// The link object named `key`: `"self"`, `"alternate"` or `"enclosure"`.
    pub open spec fn get_spec(self, key: Seq<char>) -> Option<JsonValue> {
        if key == "self"@ {
            self.self_link
        } else if key == "alternate"@ {
            self.alternate
        } else if key == "enclosure"@ {
            self.enclosure
        } else {
            None
        }
    }

    /// The `href` of the link named `key`, when it is a string.
    pub open spec fn href_spec(self, key: Seq<char>) -> Option<Seq<char>> {
        match self.get_spec(key) {
            Some(link) => match link.get_spec("href"@) {
                Some(h) => h.str_spec(),
                None => None,
            },
            None => None,
        }
    }

    /// The link object named `key`.
    pub fn get(&self, key: &str) -> (r: Option<&JsonValue>)
        ensures
            match self.get_spec(key@) {
                Some(v) => r matches Some(x) && *x == v,
                None => r is None,
            },
    {
        if str_eq(key, "self") {
            self.self_link.as_ref()
        } else if str_eq(key, "alternate") {
            self.alternate.as_ref()
        } else if str_eq(key, "enclosure") {
            self.enclosure.as_ref()
        } else {
            None
        }
    }

    /// The `href` URL of the link named `key`.
    pub fn href(&self, key: &str) -> (r: Option<&str>)
        ensures
            match self.href_spec(key@) {
                Some(h) => r matches Some(t) && t@ == h,
                None => r is None,
            },
    {
        match self.get(key) {
            Some(link) => match link.get("href") {
                Some(h) => h.as_str(),
                None => None,
            },
            None => None,
        }
    }
}

/// Counters of an item's children and collections.
#[derive(Debug, Clone, Copy, PartialEq, Eq)]
pub struct ItemMeta {
    pub num_children: Option<usize>,
    pub num_collections: Option<usize>,
}

/// An author, editor or other creator credited on an item.
#[derive(Debug, Clone, PartialEq, Eq)]
pub struct ZoteroCreator {
    pub creator_type: Option<CreatorType>,
    pub first_name: Option<String>,
    pub last_name: Option<String>,
    /// Single-field name, for institutions and single-field creators.
    pub name: Option<String>,
}

/// A tag attached to an item.
#[derive(Debug, Clone, PartialEq, Eq)]
pub struct ZoteroTag {
    pub tag: TagName,
    pub origin: TagOrigin,
}

/// The fields of a Zotero item.
#[derive(Debug, PartialEq, Eq)]
pub struct ZoteroItemData {
    pub key: ItemKey,
    pub version: LibraryVersion,
    pub item_type: ItemType,
    pub title: Option<String>,
    pub creators: Vec<ZoteroCreator>,
    pub tags: Vec<ZoteroTag>,
    pub collections: Vec<CollectionKey>,
    pub relations: JsonValue,
    pub date_added: Option<String>,
    pub date_modified: Option<String>,
    pub deleted: bool,
    pub abstract_note: Option<String>,
    pub publication_title: Option<String>,
    pub volume: Option<String>,
    pub issue: Option<String>,
    pub pages: Option<String>,
    pub date: Option<String>,
    pub publisher: Option<String>,
    pub institution: Option<String>,
    pub doi: Option<String>,
    pub citation_key: Option<String>,
    pub isbn: Option<String>,
    pub issn: Option<String>,
    pub url: Option<String>,
    pub extra: Option<String>,
    pub note: Option<String>,
    pub parent_item: Option<String>,
    pub annotation_type: Option<String>,
    pub annotation_text: Option<String>,
    pub annotation_comment: Option<String>,
    pub annotation_color: Option<String>,
    pub annotation_page_label: Option<String>,
    pub content_type: Option<String>,
    pub filename: Option<String>,
    pub path: Option<String>,
    /// Item-type-specific fields not covered above, in document order.
    pub extra_fields: Vec<(String, JsonValue)>,
}

impl ZoteroItemData {
    /// Fields of an item with the given key, version and type, and nothing else.
    pub fn new(key: ItemKey, version: LibraryVersion, item_type: ItemType) -> (r: ZoteroItemData)
        ensures
            r.key == key,
            r.version == version,
            r.item_type == item_type,
            r.title is None && r.creators@.len() == 0 && r.tags@.len() == 0,
            r.collections@.len() == 0 && r.relations == JsonValue::Null,
            r.date_added is None && r.date_modified is None && !r.deleted,
            r.abstract_note is None && r.publication_title is None && r.volume is None,
            r.issue is None && r.pages is None && r.date is None && r.publisher is None,
            r.institution is None && r.doi is None && r.citation_key is None,
            r.isbn is None && r.issn is None && r.url is None && r.extra is None,
            r.note is None && r.parent_item is None && r.annotation_type is None,
            r.annotation_text is None && r.annotation_comment is None,
            r.annotation_color is None && r.annotation_page_label is None,
            r.content_type is None && r.filename is None && r.path is None,
            r.extra_fields@.len() == 0,
    {
        ZoteroItemData {
            key,
            version,
            item_type,
            title: None,
            creators: Vec::new(),
            tags: Vec::new(),
            collections: Vec::new(),
            relations: JsonValue::Null,
            date_added: None,
            date_modified: None,
            deleted: false,
            abstract_note: None,
            publication_title: None,
            volume: None,
            issue: None,
            pages: None,
            date: None,
            publisher: None,
            institution: None,
            doi: None,
            citation_key: None,
            isbn: None,
            issn: None,
            url: None,
            extra: None,
            note: None,
            parent_item: None,
            annotation_type: None,
            annotation_text: None,
            annotation_comment: None,
            annotation_color: None,
            annotation_page_label: None,
            content_type: None,
            filename: None,
            path: None,
            extra_fields: Vec::new(),
        }
    }

    /// The string value of a field: `key`, `itemType`, `title`, `dateAdded`
    /// and `dateModified` by name, any other field from the extra fields when
    /// it holds a string.
    pub open spec fn get_str_spec(self, field: Seq<char>) -> Option<Seq<char>> {
        if field == "key"@ {
            Some(self.key@)
        } else if field == "itemType"@ {
            Some(self.item_type.wire())
        } else if field == "title"@ {
            opt_view(self.title)
        } else if field == "dateAdded"@ {
            opt_view(self.date_added)
        } else if field == "dateModified"@ {
            opt_view(self.date_modified)
        } else {
            match members_get(self.extra_fields@, field) {
                Some(v) => v.str_spec(),
                None => None,
            }
        }
    }

    /// The string value of a field.
    pub fn get_str(&self, field: &str) -> (r: Option<&str>)
        ensures
            match self.get_str_spec(field@) {
                Some(s) => r matches Some(t) && t@ == s,
                None => r is None,
            },
    {
        if str_eq(field, "key") {
            Some(self.key.as_str())
        } else if str_eq(field, "itemType") {
            Some(self.item_type.as_str())
        } else if str_eq(field, "title") {
            match &self.title {
                Some(t) => Some(t.as_str()),
                None => None,
            }
        } else if str_eq(field, "dateAdded") {
            match &self.date_added {
                Some(t) => Some(t.as_str()),
                None => None,
            }
        } else if str_eq(field, "dateModified") {
            match &self.date_modified {
                Some(t) => Some(t.as_str()),
                None => None,
            }
        } else {
            extra_str(&self.extra_fields, field)
        }
    }

    /// Same as [`ZoteroItemData::get_str`].
    pub fn get_field(&self, field: &str) -> (r: Option<&str>)
        ensures
            match self.get_str_spec(field@) {
                Some(s) => r matches Some(t) && t@ == s,
                None => r is None,
            },
    {
        self.get_str(field)
    }

    /// The attachment link mode carried in the `linkMode` extra field.
    pub open spec fn link_mode_spec(self, r: Option<LinkMode>) -> bool {
        match members_get(self.extra_fields@, "linkMode"@) {
            Some(v) => match v.str_spec() {
                Some(s) => r matches Some(m) && LinkMode::decodes_to(s, m),
                None => r is None,
            },
            None => r is None,
        }
    }

    /// The attachment link mode carried in the `linkMode` extra field.
    pub fn link_mode(&self) -> (r: Option<LinkMode>)
        ensures
            self.link_mode_spec(r),
    {
        match extra_str(&self.extra_fields, "linkMode") {
            Some(s) => Some(LinkMode::from_wire(s)),
            None => None,
        }
    }

    /// Inserts or overwrites an extra field.
    pub fn set_field(&mut self, key: String, value: JsonValue)
        ensures
            members_get(final(self).extra_fields@, key@) == Some(value),
            forall|k: Seq<char>|
                k != key@ ==> members_get(final(self).extra_fields@, k)
                    == members_get(old(self).extra_fields@, k),
    {
        crate::json::set_member(&mut self.extra_fields, key, value);
    }
}

/// A field written with `set_field` reads back with `get_str` as the text
/// it holds, unless its name is one that `get_str` answers from a typed
/// field.
pub proof fn lemma_set_field_reads_back(d: ZoteroItemData, key: Seq<char>, value: JsonValue)
    requires
        members_get(d.extra_fields@, key) == Some(value),
        key != "key"@,
        key != "itemType"@,
        key != "title"@,
        key != "dateAdded"@,
        key != "dateModified"@,
    ensures
        d.get_str_spec(key) == value.str_spec(),
{
}

/// The string value of the extra field `field`, if it holds a string.
fn extra_str<'a>(fields: &'a Vec<(String, JsonValue)>, field: &str) -> (r: Option<&'a str>)
    ensures
        match members_get(fields@, field@) {
            Some(v) => match v.str_spec() {
                Some(s) => r matches Some(t) && t@ == s,
                None => r is None,
            },
            None => r is None,
        },
{
    let mut i: usize = 0;
    while i < fields.len()
        invariant
            i <= fields@.len(),
            forall|j: int| 0 <= j < i ==> fields@[j].0@ != field@,
        decreases fields@.len() - i,
    {
        if str_eq(fields[i].0.as_str(), field) {
            proof {
                crate::json::lemma_member_index_bounds(fields@, field@);
                if let Some(k) = crate::json::member_index(fields@, field@) {
                    if k < i {
                        assert(fields@[k].0@ != field@);
                    }
                    if k > i {
                        assert(fields@[i as int].0@ != field@);
                    }
                } else {
                    assert(fields@[i as int].0@ != field@);
                }
            }
            return fields[i].1.as_str();
        }
        i = i + 1;
    }
    proof {
        crate::json::lemma_member_index_bounds(fields@, field@);
    }
    None
}

/// A Zotero item as returned by the Local API.
#[derive(Debug, PartialEq, Eq)]
pub struct ZoteroItem {
    pub key: ItemKey,
    pub version: LibraryVersion,
    pub library: Option<LibraryInfo>,
    pub links: Option<ItemLinks>,
    pub meta: Option<ItemMeta>,
    pub data: ZoteroItemData,
}

/// Metadata of a collection.
#[derive(Debug, Clone, PartialEq, Eq)]
pub struct ZoteroCollectionData {
    pub key: CollectionKey,
    pub name: String,
    pub parent_collection: CollectionParent,
}

/// A Zotero collection as returned by the Local API.
#[derive(Debug, Clone, PartialEq, Eq)]
pub struct ZoteroCollection {
    pub key: CollectionKey,
    pub version: LibraryVersion,
    pub data: ZoteroCollectionData,
}

/// Result of probing the Local API for availability.
#[derive(Debug, Clone, PartialEq, Eq)]
pub struct LocalApiStatus {
    pub online: bool,
    /// Base URL of the probed endpoint.
    pub url: String,
    /// Version reported by the server, if it answered.
    pub version: Option<String>,
    /// Why the probe failed.
    pub error: Option<String>,
}

} // verus!
