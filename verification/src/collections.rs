//! Collections, saved searches, settings and deletions: the requests that
//! read and change them, and the rules that shape what comes back.
use vstd::prelude::*;
use crate::better_bibtex::is_json_str;
use crate::client::{pairs_view, fresh_request, ApiRequest, HttpMethod, ZoteroClient};
use crate::errors::ZoteroApiError;
use crate::json::JsonValue;
use crate::keys::{CollectionKey, LibraryVersion};
use crate::notes::member_names;
use crate::objects::ZoteroCollection;
use crate::text::{
    chars_of, contains, contains_exec, decimal, decimal_string, join, join_strings, push_str,
    to_lowercase, unicode_lowercase, views,
};
use crate::types::CollectionParent;

verus! {

/// Whether items are added to a collection or taken out of it.
#[derive(Copy, Clone, Debug, PartialEq, Eq)]
pub enum CollectionItemAction {
    /// Add the items; those already in the collection are left as they are.
    Add,
    /// Remove the items; those not in the collection are left as they are.
    Remove,
}

/// The path of a collection.
pub open spec fn collection_path(key: Seq<char>) -> Seq<char> {
    "/collections/"@ + key
}

/// The path of a collection.
pub fn collection_path_exec(key: &str) -> (r: String)
    ensures
        r@ == collection_path(key@),
{
    let mut p = "/collections/".to_owned();
    push_str(&mut p, key);
    p
}

/// The path of a collection's items.
pub fn collection_items_path(key: &str) -> (r: String)
    ensures
        r@ == collection_path(key@) + "/items"@,
{
    let mut p = collection_path_exec(key);
    push_str(&mut p, "/items");
    p
}

/// The label of a missing collection in its not-found error.
pub fn collection_not_found_label(key: &str) -> (r: String)
    ensures
        r@ == "Collection "@ + key@,
{
    let mut p = "Collection ".to_owned();
    push_str(&mut p, key);
    p
}

/// The collection is one whose name holds `query`, both lowercased.
pub open spec fn name_matches(c: ZoteroCollection, query: Seq<char>) -> bool {
    contains(unicode_lowercase(c.data.name@), unicode_lowercase(query))
}

/// Collection search ignores case: a collection is found exactly when the
/// lowercase query stands somewhere in its lowercase name, so two
/// collections whose names differ only in case, having the same lowercase
/// form, are found by the same queries.
pub proof fn lemma_name_match_ignores_case(a: ZoteroCollection, b: ZoteroCollection, query: Seq<char>)
    ensures
        ({
            let n = unicode_lowercase(a.data.name@);
            let q = unicode_lowercase(query);
            name_matches(a, query) <==> exists|i: int|
                0 <= i && i + q.len() <= n.len() && #[trigger] n.subrange(i, i + q.len()) == q
        }),
        unicode_lowercase(a.data.name@) == unicode_lowercase(b.data.name@) ==> (name_matches(a, query)
            == name_matches(b, query)),
{
    let n = unicode_lowercase(a.data.name@);
    let q = unicode_lowercase(query);
    if contains(n, q) {
        let i = choose|i: int| crate::text::occurs_at(n, q, i);
        assert(0 <= i && i + q.len() <= n.len() && n.subrange(i, i + q.len()) == q);
    }
    if exists|i: int| 0 <= i && i + q.len() <= n.len() && #[trigger] n.subrange(i, i + q.len()) == q {
        let i = choose|i: int| 0 <= i && i + q.len() <= n.len() && #[trigger] n.subrange(i, i + q.len()) == q;
        assert(crate::text::occurs_at(n, q, i));
    }
}

/// The collections whose name contains `query`, compared case-insensitively,
/// in order.
pub fn collections_matching(collections: Vec<ZoteroCollection>, query: &str) -> (r: Vec<ZoteroCollection>)
    ensures
        r@ == collections@.filter(|c: ZoteroCollection| name_matches(c, query@)),
{
    let ghost src = collections@;
    let ghost pred = |c: ZoteroCollection| name_matches(c, query@);
    let query_lc = to_lowercase(query);
    let needle = chars_of(query_lc.as_str());
    let n = collections.len();
    let mut rest = collections;
    let mut out: Vec<ZoteroCollection> = Vec::new();
    let mut i: usize = 0;
    assert(src.take(0) =~= Seq::<ZoteroCollection>::empty());
    proof {
        reveal(Seq::filter);
    }
    while i < n
        invariant
            n == src.len(),
            i <= n,
            rest@ == src.skip(i as int),
            needle@ == unicode_lowercase(query@),
            pred == (|c: ZoteroCollection| name_matches(c, query@)),
            out@ == src.take(i as int).filter(pred),
        decreases n - i,
    {
        let x = rest.remove(0);
        assert(x == src[i as int]);
        assert(rest@ == src.skip(i + 1));
        proof {
            reveal(Seq::filter);
            assert(src.take(i + 1).drop_last() =~= src.take(i as int));
            assert(src.take(i + 1).last() == x);
        }
        let name_lc = to_lowercase(x.data.name.as_str());
        let hay = chars_of(name_lc.as_str());
        if contains_exec(hay.as_slice(), needle.as_slice()) {
            out.push(x);
        }
        i = i + 1;
    }
    assert(src.take(n as int) =~= src);
    out
}

/// The first object of a creation response, or the error that none came
/// back: `no {label} in the creation response`.
pub fn first_created<T>(data: Vec<T>, label: &str) -> (r: Result<T, ZoteroApiError>)
    ensures
        data@.len() > 0 ==> r == Ok::<T, ZoteroApiError>(data@[0]),
        data@.len() == 0 ==> (r matches Err(ZoteroApiError::Json(m)) && m@ == "no "@ + label@
            + " in the creation response"@),
{
    let mut d = data;
    if d.len() == 0 {
        let mut m = "no ".to_owned();
        push_str(&mut m, label);
        push_str(&mut m, " in the creation response");
        Err(ZoteroApiError::Json(m))
    } else {
        Ok(d.remove(0))
    }
}

/// The views of collection keys.
pub open spec fn key_views(keys: Seq<String>) -> Seq<Seq<char>> {
    views(keys)
}

/// `v` is the JSON number `n`.
pub open spec fn is_json_number(v: JsonValue, n: nat) -> bool {
    v matches JsonValue::Number(s) && s@ == decimal(n)
}

/// `v` is the JSON form of a collection parent: `false` for the top level,
/// else the parent's key.
pub open spec fn parent_json(p: CollectionParent, v: JsonValue) -> bool {
    match p {
        CollectionParent::TopLevel => v == JsonValue::Bool(false),
        CollectionParent::Parent(k) => is_json_str(v, k@),
    }
}

/// The parent that an optional key denotes.
pub open spec fn parent_of(key: Option<CollectionKey>) -> CollectionParent {
    match key {
        Some(k) => CollectionParent::Parent(k),
        None => CollectionParent::TopLevel,
    }
}

/// `v` is the body that creates one collection: an array of one object with
/// `name` and `parentCollection`.
pub open spec fn create_collection_body(name: Seq<char>, parent: CollectionParent, v: JsonValue) -> bool {
    &&& v matches JsonValue::Array(items) && items@.len() == 1
    &&& v->Array_0@[0] matches JsonValue::Object(ms) && member_names(ms@) == seq![
        "name"@,
        "parentCollection"@,
    ] && is_json_str(ms@[0].1, name) && parent_json(parent, ms@[1].1)
}

/// `v` is the body that updates a collection: `key`, the `version` it was
/// read at, `name` and `parentCollection`.
pub open spec fn update_collection_body(
    key: Seq<char>,
    version: u64,
    name: Seq<char>,
    parent: CollectionParent,
    v: JsonValue,
) -> bool {
    &&& v matches JsonValue::Object(ms) && member_names(ms@) == seq![
        "key"@,
        "version"@,
        "name"@,
        "parentCollection"@,
    ]
    &&& is_json_str(v->Object_0@[0].1, key)
    &&& is_json_number(v->Object_0@[1].1, version as nat)
    &&& is_json_str(v->Object_0@[2].1, name)
    &&& parent_json(parent, v->Object_0@[3].1)
}

impl ZoteroClient {
    /// The request of all collections, as a flat list.
    pub fn get_collections_request(&self) -> (r: ApiRequest)
        ensures
            fresh_request(r, HttpMethod::Get, "/collections"@),
    {
        self.get("/collections")
    }

    /// The request of one collection.
    pub fn get_collection_request(&self, key: &str) -> (r: ApiRequest)
        ensures
            fresh_request(r, HttpMethod::Get, collection_path(key@)),
    {
        let p = collection_path_exec(key);
        self.get(p.as_str())
    }

    /// The request of the items of a collection.
    pub fn collection_items_request(&self, key: &str) -> (r: ApiRequest)
        ensures
            fresh_request(r, HttpMethod::Get, collection_path(key@) + "/items"@),
    {
        let p = collection_items_path(key);
        self.get(p.as_str())
    }

    /// The request that creates a collection under `parent_key`, or at the
    /// top level.
    pub fn create_collection_request(&self, name: &str, parent_key: Option<&CollectionKey>) -> (r: ApiRequest)
        ensures
            r.method == HttpMethod::Post && r.path@ == "/collections"@ && r.target_scoped,
            r.query@.len() == 0 && r.unmodified_since_version is None,
            r.json_body matches Some(b) && create_collection_body(
                name@,
                parent_of(
                    match parent_key {
                        Some(k) => Some(*k),
                        None => None,
                    },
                ),
                b,
            ),
    {
        let parent = match parent_key {
            Some(k) => CollectionParent::Parent(CollectionKey::from_str(k.as_str())),
            None => CollectionParent::TopLevel,
        };
        proof {
            if let Some(k) = parent_key {
                assert(parent matches CollectionParent::Parent(c) && c@ == k@);
            }
        }
        let pv = parent.to_json();
        let mut ms: Vec<(String, JsonValue)> = Vec::new();
        ms.push(("name".to_owned(), JsonValue::String(name.to_owned())));
        ms.push(("parentCollection".to_owned(), pv));
        assert(member_names(ms@) =~= seq!["name"@, "parentCollection"@]);
        let mut items: Vec<JsonValue> = Vec::new();
        items.push(JsonValue::Object(ms));
        self.post("/collections").json(JsonValue::Array(items))
    }

    /// The request that adds items to a collection (`POST`) or removes them
    /// from it (`DELETE`); the body is the item keys joined by spaces.
    pub fn manage_collection_items_request(
        &self,
        key: &str,
        item_keys: &[String],
        action: CollectionItemAction,
    ) -> (r: ApiRequest)
        ensures
            r.method == match action {
                CollectionItemAction::Add => HttpMethod::Post,
                CollectionItemAction::Remove => HttpMethod::Delete,
            },
            r.path@ == collection_path(key@) + "/items"@ && r.target_scoped,
            r.query@.len() == 0 && r.unmodified_since_version is None,
            r.json_body matches Some(b) && is_json_str(b, join(views(item_keys@), " "@)),
    {
        let path = collection_items_path(key);
        let body = join_strings(item_keys, " ");
        let req = match action {
            CollectionItemAction::Remove => self.delete_req(path.as_str()),
            CollectionItemAction::Add => self.post(path.as_str()),
        };
        req.json(JsonValue::String(body))
    }

    /// The request that deletes a collection, guarded by the version it was
    /// read at.
    pub fn delete_collection_request(&self, key: &str, version: LibraryVersion) -> (r: ApiRequest)
        ensures
            r.method == HttpMethod::Delete && r.path@ == collection_path(key@) && r.target_scoped,
            r.query@.len() == 0 && r.json_body is None,
            r.unmodified_since_version == Some(version@),
    {
        let p = collection_path_exec(key);
        self.delete_req(p.as_str()).unmodified_since_version(version.as_u64())
    }

    /// The request that renames or moves a collection read as `current`:
    /// the name and parent that are not given stay as they were.
    pub fn update_collection_request(
        &self,
        key: &str,
        current: &ZoteroCollection,
        name: Option<&str>,
        parent: Option<&CollectionParent>,
    ) -> (r: ApiRequest)
        ensures
            r.method == HttpMethod::Put && r.path@ == collection_path(key@) && r.target_scoped,
            r.query@.len() == 0 && r.unmodified_since_version is None,
            r.json_body matches Some(b) && update_collection_body(
                key@,
                current.version@,
                match name {
                    Some(n) => n@,
                    None => current.data.name@,
                },
                match parent {
                    Some(p) => *p,
                    None => current.data.parent_collection,
                },
                b,
            ),
    {
        let new_name: &str = match name {
            Some(n) => n,
            None => current.data.name.as_str(),
        };
        let pv = match parent {
            Some(p) => p.to_json(),
            None => current.data.parent_collection.to_json(),
        };
        let version = decimal_string(current.version.as_u64());
        let mut ms: Vec<(String, JsonValue)> = Vec::new();
        ms.push(("key".to_owned(), JsonValue::String(key.to_owned())));
        ms.push(("version".to_owned(), JsonValue::Number(version)));
        ms.push(("name".to_owned(), JsonValue::String(new_name.to_owned())));
        ms.push(("parentCollection".to_owned(), pv));
        assert(member_names(ms@) =~= seq!["key"@, "version"@, "name"@, "parentCollection"@]);
        let p = collection_path_exec(key);
        self.put(p.as_str()).json(JsonValue::Object(ms))
    }

    /// The request that deletes several objects at once: `DELETE path`
    /// with the keys, joined by commas, under `param`, guarded by the
    /// library version.
    pub fn delete_by_keys_request(&self, path: &str, param: &str, keys: &[String], version: u64) -> (r:
        ApiRequest)
        ensures
            r.method == HttpMethod::Delete && r.path@ == path@ && r.target_scoped,
            r.json_body is None && r.unmodified_since_version == Some(version),
            pairs_view(r.query@) == seq![(param@, join(views(keys@), ","@))],
    {
        let joined = join_strings(keys, ",");
        let req = self.delete_req(path);
        assert(pairs_view(req.query@) =~= Seq::empty());
        let req = req.query(param, joined.as_str());
        assert(pairs_view(req.query@) =~= seq![(param@, join(views(keys@), ","@))]);
        req.unmodified_since_version(version)
    }

    /// The request that deletes several collections.
    pub fn delete_collections_request(&self, keys: &[String], version: u64) -> (r: ApiRequest)
        ensures
            r.method == HttpMethod::Delete && r.path@ == "/collections"@ && r.target_scoped,
            r.json_body is None && r.unmodified_since_version == Some(version),
            pairs_view(r.query@) == seq![("collectionKey"@, join(views(keys@), ","@))],
    {
        self.delete_by_keys_request("/collections", "collectionKey", keys, version)
    }

    /// The request that deletes several items.
    pub fn delete_items_request(&self, keys: &[String], version: u64) -> (r: ApiRequest)
        ensures
            r.method == HttpMethod::Delete && r.path@ == "/items"@ && r.target_scoped,
            r.json_body is None && r.unmodified_since_version == Some(version),
            pairs_view(r.query@) == seq![("itemKey"@, join(views(keys@), ","@))],
    {
        self.delete_by_keys_request("/items", "itemKey", keys, version)
    }
}

} // verus!
