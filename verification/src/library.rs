//! Saved searches, settings and deletions of a library: the requests that
//! read and change them, and how a settings reply becomes entries.
use vstd::prelude::*;
use crate::client::{fresh_request, pairs_view, ApiRequest, HttpMethod, ZoteroClient};
use crate::json::{member_index, member_position, JsonValue};
use crate::keys::LibraryVersion;
use crate::text::{decimal, decimal_string, join, push_str, str_eq, views};

verus! {

/// The keys of the objects deleted since a library version.
#[derive(Clone, Debug, PartialEq, Eq)]
pub struct DeletedObjectsResponse {
    pub collections: Vec<String>,
    pub searches: Vec<String>,
    pub items: Vec<String>,
    /// Deleted tags, by name.
    pub tags: Vec<String>,
}

impl Default for DeletedObjectsResponse {
    fn default() -> (r: Self)
        ensures
            r.collections@.len() == 0 && r.searches@.len() == 0 && r.items@.len() == 0
                && r.tags@.len() == 0,
    {
        DeletedObjectsResponse {
            collections: Vec::new(),
            searches: Vec::new(),
            items: Vec::new(),
            tags: Vec::new(),
        }
    }
}

/// A saved search.
#[derive(Debug)]
pub struct SavedSearch {
    pub key: String,
    pub version: LibraryVersion,
    pub name: String,
    /// The search's conditions, as Zotero stores them.
    pub conditions: Vec<JsonValue>,
}

/// A setting and its value.
#[derive(Debug, PartialEq, Eq)]
pub struct SettingEntry {
    pub key: String,
    pub value: JsonValue,
}

/// The path of a saved search.
pub open spec fn search_path(key: Seq<char>) -> Seq<char> {
    "/searches/"@ + key
}

fn search_path_exec(key: &str) -> (r: String)
    ensures
        r@ == search_path(key@),
{
    let mut p = "/searches/".to_owned();
    push_str(&mut p, key);
    p
}

/// The path of a setting.
pub open spec fn setting_path(key: Seq<char>) -> Seq<char> {
    "/settings/"@ + key
}

fn setting_path_exec(key: &str) -> (r: String)
    ensures
        r@ == setting_path(key@),
{
    let mut p = "/settings/".to_owned();
    push_str(&mut p, key);
    p
}

impl ZoteroClient {
    /// The request of the objects deleted since `since`.
    pub fn get_deleted_request(&self, since: u64) -> (r: ApiRequest)
        ensures
            r.method == HttpMethod::Get && r.path@ == "/deleted"@ && r.target_scoped,
            r.unmodified_since_version is None && r.json_body is None,
            pairs_view(r.query@) == seq![("since"@, decimal(since as nat))],
    {
        let req = self.get("/deleted");
        assert(pairs_view(req.query@) =~= Seq::empty());
        let s = decimal_string(since);
        let req = req.query("since", s.as_str());
        assert(pairs_view(req.query@) =~= seq![("since"@, decimal(since as nat))]);
        req
    }

    /// The request of all saved searches.
    pub fn list_searches_request(&self) -> (r: ApiRequest)
        ensures
            fresh_request(r, HttpMethod::Get, "/searches"@),
    {
        self.get("/searches")
    }

    /// The request of one saved search.
    pub fn get_search_request(&self, key: &str) -> (r: ApiRequest)
        ensures
            fresh_request(r, HttpMethod::Get, search_path(key@)),
    {
        let p = search_path_exec(key);
        self.get(p.as_str())
    }

    /// The request that runs a saved search and returns its items.
    pub fn execute_saved_search_request(&self, key: &str) -> (r: ApiRequest)
        ensures
            fresh_request(r, HttpMethod::Get, search_path(key@) + "/items"@),
    {
        let mut p = search_path_exec(key);
        push_str(&mut p, "/items");
        self.get(p.as_str())
    }

    /// The request that creates saved searches, sent as one array.
    pub fn create_searches_request(&self, searches: Vec<JsonValue>) -> (r: ApiRequest)
        ensures
            r.method == HttpMethod::Post && r.path@ == "/searches"@ && r.target_scoped,
            r.query@.len() == 0 && r.unmodified_since_version is None,
            r.json_body matches Some(b) && b matches JsonValue::Array(xs) && xs@ == searches@,
    {
        self.post("/searches").json(JsonValue::Array(searches))
    }

    /// The request that deletes several saved searches.
    pub fn delete_searches_request(&self, keys: &[String], version: u64) -> (r: ApiRequest)
        ensures
            r.method == HttpMethod::Delete && r.path@ == "/searches"@ && r.target_scoped,
            r.json_body is None && r.unmodified_since_version == Some(version),
            pairs_view(r.query@) == seq![("searchKey"@, join(views(keys@), ","@))],
    {
        self.delete_by_keys_request("/searches", "searchKey", keys, version)
    }

    /// The request of all settings.
    pub fn get_settings_request(&self) -> (r: ApiRequest)
        ensures
            fresh_request(r, HttpMethod::Get, "/settings"@),
    {
        self.get("/settings")
    }

    /// The request of one setting.
    pub fn get_setting_request(&self, key: &str) -> (r: ApiRequest)
        ensures
            fresh_request(r, HttpMethod::Get, setting_path(key@)),
    {
        let p = setting_path_exec(key);
        self.get(p.as_str())
    }

    /// The request that sets a setting to `value`.
    pub fn update_setting_request(&self, key: &str, value: JsonValue) -> (r: ApiRequest)
        ensures
            r.method == HttpMethod::Put && r.path@ == setting_path(key@) && r.target_scoped,
            r.query@.len() == 0 && r.unmodified_since_version is None,
            r.json_body == Some(value),
    {
        let p = setting_path_exec(key);
        self.put(p.as_str()).json(value)
    }
}

/// The setting entry that a JSON value decodes to, field by field as a
/// derived decoder reads it: an object with a string `key` and a `value`
/// (other members ignored), or an array of exactly those two.
pub open spec fn setting_decoded(v: JsonValue) -> Option<(Seq<char>, JsonValue)> {
    match v {
        JsonValue::Object(ms) => match (member_index(ms@, "key"@), member_index(ms@, "value"@)) {
            (Some(k), Some(x)) => match ms@[k].1 {
                JsonValue::String(s) => Some((s@, ms@[x].1)),
                _ => None,
            },
            _ => None,
        },
        JsonValue::Array(items) => if items@.len() == 2 {
            match items@[0] {
                JsonValue::String(s) => Some((s@, items@[1])),
                _ => None,
            }
        } else {
            None
        },
        _ => None,
    }
}

/// `e` is the entry that `x` decodes to.
pub open spec fn decodes_to(x: JsonValue, e: SettingEntry) -> bool {
    setting_decoded(x) matches Some(p) && e.key@ == p.0 && e.value == p.1
}

/// Decodes one setting entry, consuming the value; a value that does not
/// decode is handed back.
fn decode_setting(v: JsonValue) -> (r: Result<SettingEntry, JsonValue>)
    ensures
        match setting_decoded(v) {
            Some((k, x)) => r matches Ok(e) && e.key@ == k && e.value == x,
            None => r == Err::<SettingEntry, JsonValue>(v),
        },
{
    match v {
        JsonValue::Object(ms) => {
            proof {
                crate::json::lemma_member_index_bounds(ms@, "key"@);
                crate::json::lemma_member_index_bounds(ms@, "value"@);
            }
            let ki = member_position(&ms, "key");
            let vi = member_position(&ms, "value");
            if ki.is_none() || vi.is_none() {
                return Err(JsonValue::Object(ms));
            }
            let k = ki.unwrap();
            let x = vi.unwrap();
            let len = ms.len();
            assert(k < len && x < len);
            assert(member_index(ms@, "key"@) == Some(k as int));
            assert(member_index(ms@, "value"@) == Some(x as int));
            let key = match &ms[k].1 {
                JsonValue::String(s) => s.clone(),
                _ => {
                    return Err(JsonValue::Object(ms));
                },
            };
            let mut rest = ms;
            let (_, value) = rest.remove(x);
            Ok(SettingEntry { key, value })
        },
        JsonValue::Array(items) => {
            if items.len() != 2 {
                return Err(JsonValue::Array(items));
            }
            match &items[0] {
                JsonValue::String(_) => {},
                _ => {
                    return Err(JsonValue::Array(items));
                },
            }
            let mut rest = items;
            let second = rest.remove(1);
            let first = rest.remove(0);
            match first {
                JsonValue::String(s) => Ok(SettingEntry { key: s, value: second }),
                _ => Err(JsonValue::Null),
            }
        },
        _ => Err(v),
    }
}

/// The entry that `get_setting` gives for the reply `v` to a request of
/// setting `key`: `v` itself when it decodes as an entry, else an entry of
/// `key` whose value is `v`.
pub fn setting_from_reply(key: &str, v: JsonValue) -> (r: SettingEntry)
    ensures
        match setting_decoded(v) {
            Some((k, x)) => r.key@ == k && r.value == x,
            None => r.key@ == key@ && r.value == v,
        },
{
    match decode_setting(v) {
        Ok(e) => e,
        Err(v) => SettingEntry { key: key.to_owned(), value: v },
    }
}

/// The index of the last entry of `es` whose key is `k`.
pub open spec fn last_index(es: Seq<(Seq<char>, JsonValue)>, k: Seq<char>) -> Option<int>
    decreases es.len(),
{
    if es.len() == 0 {
        None
    } else if es.last().0 == k {
        Some(es.len() - 1)
    } else {
        last_index(es.drop_last(), k)
    }
}

/// `r` maps each key of `es` to its last value, once per key: what a map
/// filled in order from `es` holds.
pub open spec fn last_wins(es: Seq<(Seq<char>, JsonValue)>, r: Seq<SettingEntry>) -> bool {
    &&& forall|i: int, j: int| 0 <= i < j < r.len() ==> r[i].key@ != r[j].key@
    &&& forall|i: int|
        #![trigger r[i]]
        0 <= i < r.len() ==> (last_index(es, r[i].key@) matches Some(j) && r[i].value == es[j].1)
    &&& forall|j: int| 0 <= j < es.len() ==> has_key(r, #[trigger] es[j].0)
}

/// Some entry of `r` has key `k`.
pub open spec fn has_key(r: Seq<SettingEntry>, k: Seq<char>) -> bool {
    exists|i: int| 0 <= i < r.len() && #[trigger] r[i].key@ == k
}

proof fn lemma_last_index_bounds(es: Seq<(Seq<char>, JsonValue)>, k: Seq<char>)
    ensures
        last_index(es, k) matches Some(j) ==> 0 <= j < es.len() && es[j].0 == k,
        last_index(es, k) is None ==> forall|j: int| 0 <= j < es.len() ==> es[j].0 != k,
    decreases es.len(),
{
    if es.len() > 0 {
        lemma_last_index_bounds(es.drop_last(), k);
        assert forall|j: int| 0 <= j < es.len() - 1 implies es[j] == es.drop_last()[j] by {}
    }
}

/// The entries of a settings reply, in order: the members of an object, or
/// the decoded elements of an array when every one of them decodes; nothing
/// otherwise.
pub open spec fn settings_entries(raw: JsonValue) -> Seq<(Seq<char>, JsonValue)> {
    match raw {
        JsonValue::Object(ms) => ms@.map_values(|m: (String, JsonValue)| (m.0@, m.1)),
        JsonValue::Array(items) => if forall|i: int|
            0 <= i < items@.len() ==> #[trigger] setting_decoded(items@[i]) is Some {
            items@.map_values(|x: JsonValue| setting_decoded(x)->0)
        } else {
            Seq::empty()
        },
        _ => Seq::empty(),
    }
}

/// The index of the entry of `out` with key `key`, if any.
fn entry_position(out: &Vec<SettingEntry>, key: &str) -> (r: Option<usize>)
    ensures
        match r {
            Some(i) => i < out@.len() && out@[i as int].key@ == key@,
            None => forall|j: int| 0 <= j < out@.len() ==> out@[j].key@ != key@,
        },
{
    let mut i: usize = 0;
    while i < out.len()
        invariant
            i <= out@.len(),
            forall|j: int| 0 <= j < i ==> out@[j].key@ != key@,
        decreases out@.len() - i,
    {
        if str_eq(out[i].key.as_str(), key) {
            return Some(i);
        }
        i = i + 1;
    }
    None
}

/// Adds an entry to a map kept as distinct-keyed entries: a present key
/// gets the new value, a new key is appended.
fn insert_entry(out: &mut Vec<SettingEntry>, e: SettingEntry, Ghost(es): Ghost<Seq<(Seq<char>, JsonValue)>>)
    requires
        last_wins(es, old(out)@),
    ensures
        last_wins(es.push((e.key@, e.value)), final(out)@),
{
    let ghost es2 = es.push((e.key@, e.value));
    let ghost k = e.key@;
    let ghost v = e.value;
    assert(es2.drop_last() =~= es);
    assert(last_index(es2, k) == Some(es.len() as int));
    let ghost before = out@;
    match entry_position(out, e.key.as_str()) {
        Some(i) => {
            out.set(i, e);
            proof {
                assert forall|a: int, b: int| 0 <= a < b < out@.len() implies out@[a].key@ != out@[b].key@ by {
                    assert(before[a].key@ != before[b].key@);
                }
                assert forall|a: int| #![trigger out@[a]] 0 <= a < out@.len() implies (last_index(
                    es2,
                    out@[a].key@,
                ) matches Some(j) && out@[a].value == es2[j].1) by {
                    if a != i {
                        assert(before[a] == out@[a]);
                        assert(before[a].key@ != before[i as int].key@);
                        lemma_last_index_bounds(es, before[a].key@);
                        assert(last_index(es2, before[a].key@) == last_index(es, before[a].key@));
                        assert(before[a] == before[a]);
                    }
                }
                assert forall|j: int| 0 <= j < es2.len() implies has_key(out@, #[trigger] es2[j].0) by {
                    if j < es.len() {
                        assert(es2[j] == es[j]);
                        assert(has_key(before, es[j].0));
                        let a = choose|a: int| 0 <= a < before.len() && #[trigger] before[a].key@ == es[j].0;
                        assert(out@[a].key@ == es2[j].0);
                    } else {
                        assert(out@[i as int].key@ == es2[j].0);
                    }
                }
            }
        },
        None => {
            out.push(e);
            proof {
                assert forall|a: int| #![trigger out@[a]] 0 <= a < out@.len() implies (last_index(
                    es2,
                    out@[a].key@,
                ) matches Some(j) && out@[a].value == es2[j].1) by {
                    if a < before.len() {
                        assert(before[a] == out@[a]);
                        assert(before[a].key@ != k);
                        lemma_last_index_bounds(es, before[a].key@);
                        assert(last_index(es2, before[a].key@) == last_index(es, before[a].key@));
                        assert(before[a] == before[a]);
                    }
                }
                assert forall|j: int| 0 <= j < es2.len() implies has_key(out@, #[trigger] es2[j].0) by {
                    if j < es.len() {
                        assert(es2[j] == es[j]);
                        assert(has_key(before, es[j].0));
                        let a = choose|a: int| 0 <= a < before.len() && #[trigger] before[a].key@ == es[j].0;
                        assert(out@[a] == before[a]);
                    } else {
                        assert(out@[before.len() as int].key@ == es2[j].0);
                    }
                }
            }
        },
    }
}

/// The settings of a reply, one entry per key, the last value of a repeated
/// key winning: the members of an object; the elements of an array when
/// each decodes as an entry; none otherwise.
pub fn settings_from_reply(raw: JsonValue) -> (r: Vec<SettingEntry>)
    ensures
        last_wins(settings_entries(raw), r@),
{
    let ghost es = settings_entries(raw);
    let mut out: Vec<SettingEntry> = Vec::new();
    match raw {
        JsonValue::Object(ms) => {
            let ghost src = ms@;
            let n = ms.len();
            let mut rest = ms;
            let mut i: usize = 0;
            assert(es.take(0) =~= Seq::<(Seq<char>, JsonValue)>::empty());
            while i < n
                invariant
                    n == src.len(),
                    i <= n,
                    rest@ == src.skip(i as int),
                    es == settings_entries(raw),
                    es == src.map_values(|m: (String, JsonValue)| (m.0@, m.1)),
                    last_wins(es.take(i as int), out@),
                decreases n - i,
            {
                let (k, v) = rest.remove(0);
                assert(rest@ == src.skip(i + 1));
                assert(es.take(i + 1) =~= es.take(i as int).push((k@, v)));
                insert_entry(&mut out, SettingEntry { key: k, value: v }, Ghost(es.take(i as int)));
                i = i + 1;
            }
            assert(es.take(n as int) =~= es);
        },
        JsonValue::Array(items) => {
            let ghost src = items@;
            assert(es == (if (forall|j: int| 0 <= j < src.len() ==> #[trigger] setting_decoded(src[j]) is Some) {
                src.map_values(|x: JsonValue| setting_decoded(x)->0)
            } else {
                Seq::<(Seq<char>, JsonValue)>::empty()
            }));
            let n = items.len();
            let mut rest = items;
            let mut decoded: Vec<SettingEntry> = Vec::new();
            let mut i: usize = 0;
            while i < n
                invariant
                    n == src.len(),
                    i <= n,
                    rest@ == src.skip(i as int),
                    es == settings_entries(raw),
                    out@.len() == 0,
                    es == (if (forall|j: int| 0 <= j < src.len() ==> #[trigger] setting_decoded(src[j]) is Some) {
                        src.map_values(|x: JsonValue| setting_decoded(x)->0)
                    } else {
                        Seq::<(Seq<char>, JsonValue)>::empty()
                    }),
                    decoded@.len() == i,
                    forall|j: int| 0 <= j < i ==> decodes_to(src[j], #[trigger] decoded@[j]),
                decreases n - i,
            {
                let x = rest.remove(0);
                assert(x == src[i as int]);
                assert(rest@ == src.skip(i + 1));
                match decode_setting(x) {
                    Ok(e) => decoded.push(e),
                    Err(_) => {
                        assert(setting_decoded(src[i as int]) is None);
                        assert(es =~= Seq::<(Seq<char>, JsonValue)>::empty());
                        assert(out@ =~= Seq::<SettingEntry>::empty());
                        return out;
                    },
                }
                i = i + 1;
            }
            assert forall|j: int| 0 <= j < src.len() implies #[trigger] setting_decoded(src[j]) is Some by {
                assert(decodes_to(src[j], decoded@[j]));
            }
            assert forall|j: int| 0 <= j < n implies (#[trigger] es[j]).0 == decoded@[j].key@ && es[j].1
                == decoded@[j].value by {
                assert(decodes_to(src[j], decoded@[j]));
            }
            assert(es =~= src.map_values(|x: JsonValue| setting_decoded(x)->0));
            let mut rest = decoded;
            let ghost dsrc = rest@;
            let mut i: usize = 0;
            assert(es.take(0) =~= Seq::<(Seq<char>, JsonValue)>::empty());
            while i < n
                invariant
                    n == src.len(),
                    n == dsrc.len(),
                    i <= n,
                    es == settings_entries(raw),
                    rest@ == dsrc.skip(i as int),
                    forall|j: int| 0 <= j < n ==> (#[trigger] es[j]).0 == dsrc[j].key@ && es[j].1 == dsrc[j].value,
                    es.len() == n,
                    last_wins(es.take(i as int), out@),
                decreases n - i,
            {
                let e = rest.remove(0);
                assert(e == dsrc[i as int]);
                assert(rest@ == dsrc.skip(i + 1));
                assert(es.take(i + 1) =~= es.take(i as int).push((e.key@, e.value)));
                insert_entry(&mut out, e, Ghost(es.take(i as int)));
                i = i + 1;
            }
            assert(es.take(n as int) =~= es);
        },
        _ => {},
    }
    out
}

} // verus!
