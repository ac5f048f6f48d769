//! Tag edits: how an item's tags change when tags are added and removed,
//! and the requests that list, rename and delete tags.
use vstd::prelude::*;
use crate::client::{pairs_view, ApiRequest, HttpMethod, ZoteroClient};
use crate::encoding::{encode_component, url_encode};
use crate::json::{members_get, JsonValue};
use crate::keys::{LibraryVersion, TagName};
use crate::objects::ZoteroTag;
use crate::relations::{lemma_push_to_set, sorted_insert, sorted_remove, strictly_sorted};
use crate::text::{decimal, decimal_string, join, push_str, views};

verus! {

/// The names of tags.
pub open spec fn tag_views(ts: Seq<TagName>) -> Seq<Seq<char>> {
    ts.map_values(|t: TagName| t@)
}

/// The names of an item's tags.
pub open spec fn item_tag_names(ts: Seq<ZoteroTag>) -> Seq<Seq<char>> {
    ts.map_values(|t: ZoteroTag| t.tag@)
}

/// The tag names an item ends up with: its own and the added ones, less the
/// removed ones.
pub open spec fn tags_after(existing: Seq<ZoteroTag>, add: Seq<TagName>, remove: Seq<TagName>) -> Set<Seq<char>> {
    item_tag_names(existing).to_set().union(tag_views(add).to_set()).difference(tag_views(remove).to_set())
}

/// `v` is the tag object `{"tag": name}`.
pub open spec fn is_tag_object(v: JsonValue, name: Seq<char>) -> bool {
    match v {
        JsonValue::Object(ms) => ms@.len() == 1 && ms@[0].0@ == "tag"@ && match ms@[0].1 {
            JsonValue::String(s) => s@ == name,
            _ => false,
        },
        _ => false,
    }
}

/// The tag objects `{"tag": name}` of a list of names.
pub open spec fn tag_objects(names: Seq<Seq<char>>, out: Seq<JsonValue>) -> bool {
    &&& out.len() == names.len()
    &&& forall|i: int| 0 <= i < out.len() ==> is_tag_object(#[trigger] out[i], names[i])
}

fn tag_object(name: String) -> (r: JsonValue)
    ensures
        is_tag_object(r, name@),
{
    let mut ms: Vec<(String, JsonValue)> = Vec::new();
    ms.push(("tag".to_owned(), JsonValue::String(name)));
    JsonValue::Object(ms)
}

/// The tags of an item after adding and removing some: the names it had
/// and the added ones, less the removed ones, sorted and without repeats,
/// each as a `{"tag": name}` object.
pub fn diff_tags(existing: Vec<ZoteroTag>, add: &[TagName], remove: &[TagName]) -> (r: Vec<JsonValue>)
    ensures
        exists|names: Seq<Seq<char>>|
            strictly_sorted(names) && names.to_set() == tags_after(existing@, add@, remove@)
                && tag_objects(names, r@),
{
    let mut set: Vec<String> = Vec::new();
    let ghost ev = item_tag_names(existing@);
    let ghost av = tag_views(add@);
    let ghost rv = tag_views(remove@);
    assert(views(set@) =~= Seq::<Seq<char>>::empty());
    assert(views(set@).to_set() =~= Set::<Seq<char>>::empty());
    let mut i: usize = 0;
    assert(ev.take(0).to_set() =~= Set::<Seq<char>>::empty());
    while i < existing.len()
        invariant
            i <= existing@.len(),
            ev == item_tag_names(existing@),
            strictly_sorted(views(set@)),
            views(set@).to_set() == ev.take(i as int).to_set(),
        decreases existing@.len() - i,
    {
        sorted_insert(&mut set, existing[i].tag.as_str().to_owned());
        proof {
            assert(ev.take(i + 1) =~= ev.take(i as int).push(existing@[i as int].tag@));
            lemma_push_to_set(ev.take(i as int), existing@[i as int].tag@);
        }
        i = i + 1;
    }
    assert(ev.take(existing@.len() as int) =~= ev);
    let mut j: usize = 0;
    assert(av.take(0).to_set() =~= Set::<Seq<char>>::empty());
    assert(ev.to_set().union(Set::<Seq<char>>::empty()) =~= ev.to_set());
    while j < add.len()
        invariant
            j <= add@.len(),
            av == tag_views(add@),
            strictly_sorted(views(set@)),
            views(set@).to_set() == ev.to_set().union(av.take(j as int).to_set()),
        decreases add@.len() - j,
    {
        sorted_insert(&mut set, add[j].as_str().to_owned());
        proof {
            assert(av.take(j + 1) =~= av.take(j as int).push(add@[j as int]@));
            lemma_push_to_set(av.take(j as int), add@[j as int]@);
            assert(ev.to_set().union(av.take(j + 1).to_set()) =~= ev.to_set().union(
                av.take(j as int).to_set(),
            ).insert(add@[j as int]@));
        }
        j = j + 1;
    }
    assert(av.take(add@.len() as int) =~= av);
    let ghost added = ev.to_set().union(av.to_set());
    let mut k: usize = 0;
    assert(rv.take(0).to_set() =~= Set::<Seq<char>>::empty());
    assert(added.difference(Set::<Seq<char>>::empty()) =~= added);
    while k < remove.len()
        invariant
            k <= remove@.len(),
            rv == tag_views(remove@),
            added == ev.to_set().union(av.to_set()),
            strictly_sorted(views(set@)),
            views(set@).to_set() == added.difference(rv.take(k as int).to_set()),
        decreases remove@.len() - k,
    {
        sorted_remove(&mut set, remove[k].as_str());
        proof {
            assert(rv.take(k + 1) =~= rv.take(k as int).push(remove@[k as int]@));
            lemma_push_to_set(rv.take(k as int), remove@[k as int]@);
            assert(added.difference(rv.take(k + 1).to_set()) =~= added.difference(
                rv.take(k as int).to_set(),
            ).remove(remove@[k as int]@));
        }
        k = k + 1;
    }
    assert(rv.take(remove@.len() as int) =~= rv);
    let ghost names = views(set@);
    let mut out: Vec<JsonValue> = Vec::new();
    let mut m: usize = 0;
    while m < set.len()
        invariant
            m <= set@.len(),
            names == views(set@),
            tag_objects(names.take(m as int), out@),
        decreases set@.len() - m,
    {
        let o = tag_object(set[m].clone());
        out.push(o);
        m = m + 1;
        assert forall|q: int| 0 <= q < out@.len() implies is_tag_object(#[trigger] out@[q], names.take(m as int)[q]) by {
            if q < m - 1 {
                assert(names.take(m as int)[q] == names.take(m - 1)[q]);
            }
        }
    }
    assert(names.take(set@.len() as int) =~= names);
    out
}

/// The tag names among tag objects: the `tag` member of each object that
/// has a string one, in order.
pub open spec fn tag_names_in(vs: Seq<JsonValue>) -> Seq<Seq<char>>
    decreases vs.len(),
{
    if vs.len() == 0 {
        Seq::empty()
    } else {
        let r = tag_names_in(vs.drop_last());
        match vs.last().get_spec("tag"@) {
            Some(JsonValue::String(s)) => r.push(s@),
            _ => r,
        }
    }
}

/// The tag names among the entries of a tag listing.
pub fn tag_names(values: &Vec<JsonValue>) -> (r: Vec<TagName>)
    ensures
        tag_views(r@) == tag_names_in(values@),
{
    let mut out: Vec<TagName> = Vec::new();
    let mut i: usize = 0;
    assert(values@.take(0) =~= Seq::<JsonValue>::empty());
    assert(tag_views(out@) =~= Seq::<Seq<char>>::empty());
    while i < values.len()
        invariant
            i <= values@.len(),
            tag_views(out@) == tag_names_in(values@.take(i as int)),
        decreases values@.len() - i,
    {
        assert(values@.take(i + 1).drop_last() =~= values@.take(i as int));
        assert(values@.take(i + 1).last() == values@[i as int]);
        match values[i].get("tag") {
            Some(JsonValue::String(s)) => {
                let ghost before = tag_views(out@);
                out.push(TagName::new(s.clone()));
                assert(tag_views(out@) =~= before.push(s@));
            },
            _ => {},
        }
        i = i + 1;
    }
    assert(values@.take(values@.len() as int) =~= values@);
    out
}

/// The body of the update that writes an item's tags: the `tags` and the
/// `version` the item was read at.
pub fn tag_patch(tags: Vec<JsonValue>, version: LibraryVersion) -> (r: JsonValue)
    ensures
        r.get_spec("tags"@) == Some(JsonValue::Array(tags)),
        r.get_spec("version"@) matches Some(JsonValue::Number(n)) && n@ == decimal(version@ as nat),
{
    let mut members: Vec<(String, JsonValue)> = Vec::new();
    let k1 = "tags".to_owned();
    let k2 = "version".to_owned();
    proof {
        reveal_strlit("tags");
        reveal_strlit("version");
        assert(k1@.len() == 4 && k2@.len() == 7);
    }
    members.push((k1, JsonValue::Array(tags)));
    let mut n = String::new();
    crate::text::push_decimal(&mut n, version.as_u64());
    members.push((k2, JsonValue::Number(n)));
    assert(members@[0].0@ != "version"@);
    assert(members@.drop_first()[0].0@ == "version"@);
    assert(crate::json::member_index(members@.drop_first(), "version"@) == Some(0int));
    assert(crate::json::member_index(members@, "version"@) == Some(1int));
    JsonValue::Object(members)
}

/// The body of the update that applies a tag change to an item read at
/// `version`: its tags after adding and removing, and that version.
pub fn item_tag_patch(existing: Vec<ZoteroTag>, version: LibraryVersion, add: &[TagName], remove: &[TagName]) -> (r:
    JsonValue)
    ensures
        r.get_spec("tags"@) matches Some(JsonValue::Array(ts)) && exists|names: Seq<Seq<char>>|
            names.to_set() == tags_after(existing@, add@, remove@) && strictly_sorted(names) && tag_objects(
                names,
                ts@,
            ),
        r.get_spec("version"@) matches Some(JsonValue::Number(n)) && n@ == decimal(version@ as nat),
{
    let ghost ex = existing@;
    let tags = diff_tags(existing, add, remove);
    proof {
        let names = choose|names: Seq<Seq<char>>|
            names.to_set() == tags_after(ex, add@, remove@) && strictly_sorted(names) && tag_objects(names, tags@);
    }
    tag_patch(tags, version)
}

/// The `tag` parameter of a deletion: the encoded names joined by ` || `.
pub open spec fn delete_tags_param(tags: Seq<Seq<char>>) -> Seq<char> {
    join(tags.map_values(|t: Seq<char>| url_encode(t)), " || "@)
}

impl ZoteroClient {
    /// The request of a listing of at most `limit` tags.
    pub fn list_tags_request(&self, limit: usize) -> (r: ApiRequest)
        ensures
            r.method == HttpMethod::Get && r.path@ == "/tags"@ && r.target_scoped,
            r.unmodified_since_version is None && r.json_body is None,
            pairs_view(r.query@) == seq![("limit"@, decimal(limit as nat))],
    {
        let req = self.get("/tags");
        assert(pairs_view(req.query@) =~= Seq::empty());
        let lim = decimal_string(limit as u64);
        let req = req.query("limit", lim.as_str());
        assert(pairs_view(req.query@) =~= seq![("limit"@, decimal(limit as nat))]);
        req
    }

    /// The request that deletes tags from the whole library, guarded by the
    /// library version it was read at.
    pub fn delete_tags_request(&self, tags: &[String], version: LibraryVersion) -> (r: ApiRequest)
        ensures
            r.method == HttpMethod::Delete && r.path@ == "/tags"@ && r.target_scoped,
            r.unmodified_since_version == Some(version@) && r.json_body is None,
            pairs_view(r.query@) == seq![("tag"@, delete_tags_param(views(tags@)))],
    {
        let mut encoded: Vec<String> = Vec::new();
        let mut i: usize = 0;
        let ghost tv = views(tags@);
        while i < tags.len()
            invariant
                i <= tags@.len(),
                tv == views(tags@),
                views(encoded@) == tv.take(i as int).map_values(|t: Seq<char>| url_encode(t)),
            decreases tags@.len() - i,
        {
            let e = encode_component(tags[i].as_str());
            let ghost before = views(encoded@);
            encoded.push(e);
            assert(views(encoded@) =~= before.push(url_encode(tags@[i as int]@)));
            assert(tv.take(i + 1).map_values(|t: Seq<char>| url_encode(t)) =~= tv.take(i as int).map_values(
                |t: Seq<char>| url_encode(t),
            ).push(url_encode(tags@[i as int]@)));
            i = i + 1;
        }
        assert(tv.take(tags@.len() as int) =~= tv);
        let joined = crate::text::join_strings(encoded.as_slice(), " || ");
        let req = self.delete_req("/tags");
        assert(pairs_view(req.query@) =~= Seq::empty());
        let req = req.query("tag", joined.as_str());
        assert(pairs_view(req.query@) =~= seq![("tag"@, delete_tags_param(tv))]);
        req.unmodified_since_version(version.as_u64())
    }
}

// ---------------------------------------------------------------------------
// Laws

/// A removed tag is gone, even when it is also added.
pub proof fn lemma_removed_tag_absent(existing: Seq<ZoteroTag>, add: Seq<TagName>, remove: Seq<TagName>, t: Seq<char>)
    requires
        tag_views(remove).contains(t),
    ensures
        !tags_after(existing, add, remove).contains(t),
{
}

/// An added tag is present unless it is also removed.
pub proof fn lemma_added_tag_present(existing: Seq<ZoteroTag>, add: Seq<TagName>, remove: Seq<TagName>, t: Seq<char>)
    requires
        tag_views(add).contains(t),
        !tag_views(remove).contains(t),
    ensures
        tags_after(existing, add, remove).contains(t),
{
}

/// A tag that is neither added nor removed stays exactly when the item had
/// it.
pub proof fn lemma_untouched_tag_kept(existing: Seq<ZoteroTag>, add: Seq<TagName>, remove: Seq<TagName>, t: Seq<char>)
    requires
        !tag_views(add).contains(t),
        !tag_views(remove).contains(t),
    ensures
        tags_after(existing, add, remove).contains(t) == item_tag_names(existing).contains(t),
{
}

/// Renaming a tag to another name leaves an item with the tags it had,
/// less the old name, plus the new one.
pub proof fn lemma_rename_tag(existing: Seq<ZoteroTag>, old: TagName, new: TagName)
    requires
        old@ != new@,
    ensures
        tags_after(existing, seq![new], seq![old]) == item_tag_names(existing).to_set().remove(old@).insert(new@),
{
    assert(tag_views(seq![new]) =~= seq![new@]);
    assert(tag_views(seq![old]) =~= seq![old@]);
    assert(seq![new@].to_set() =~= set![new@]) by {
        assert(seq![new@][0] == new@);
    }
    assert(seq![old@].to_set() =~= set![old@]) by {
        assert(seq![old@][0] == old@);
    }
    assert(tags_after(existing, seq![new], seq![old]) =~= item_tag_names(existing).to_set().remove(old@).insert(
        new@,
    ));
}

} // verus!
