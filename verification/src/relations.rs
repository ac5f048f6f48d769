//! Related-item links: the `dc:relation` URIs of an item, how they are read,
//! and how a link is added or removed.
use vstd::prelude::*;
use crate::errors::ZoteroApiError;
use crate::json::{members_get, set_member, JsonValue};
use crate::keys::{ItemKey, LibraryVersion};
use crate::objects::ZoteroItem;
use crate::search::{lemma_text_lt_asym, lemma_text_lt_total, lemma_text_lt_trans, text_lt, text_lt_exec};
use crate::text::{chars_of, decimal, is_ascii_alphanumeric, push_str, str_eq, string_of, views};
use crate::types::ItemType;

verus! {

/// A related item: its key, title and type.
#[derive(Debug)]
pub struct RelatedItem {
    pub key: ItemKey,
    pub title: Option<String>,
    pub item_type: ItemType,
}

impl RelatedItem {
    /// The related-item record of a fetched item.
    pub fn from_item(item: ZoteroItem) -> (r: RelatedItem)
        ensures
            r.key == item.key,
            r.title == item.data.title,
            r.item_type == item.data.item_type,
    {
        RelatedItem { key: item.key, title: item.data.title, item_type: item.data.item_type }
    }
}

/// An item relation URI: `http://zotero.org/users/0/items/{KEY}` or
/// `http://zotero.org/groups/{ID}/items/{KEY}`.
#[derive(Clone, Debug, PartialEq, Eq, PartialOrd, Ord, Hash)]
pub struct RelationUri(String);

impl View for RelationUri {
    type V = Seq<char>;

    closed spec fn view(&self) -> Seq<char> {
        self.0@
    }
}

/// The URI of an item of the local user's library.
pub open spec fn item_uri(key: Seq<char>) -> Seq<char> {
    "http://zotero.org/users/0/items/"@ + key
}

impl RelationUri {
    pub fn new(value: String) -> (r: Self)
        ensures
            r@ == value@,
    {
        RelationUri(value)
    }

    pub fn as_str(&self) -> (r: &str)
        ensures
            r@ == self@,
    {
        self.0.as_str()
    }

    /// The URI of an item of the local user's library.
    pub fn for_item(key: &ItemKey) -> (r: Self)
        ensures
            r@ == item_uri(key@),
    {
        let mut s = "http://zotero.org/users/0/items/".to_owned();
        push_str(&mut s, key.as_str());
        RelationUri(s)
    }
}

impl<'a> From<&'a str> for RelationUri {
    fn from(value: &'a str) -> (r: Self)
        ensures
            r@ == value@,
    {
        RelationUri(value.to_owned())
    }
}

/// A `String`'s value is not fixed by its characters in the model of `String`,
/// so no spec function can name the exact value this conversion returns;
/// `obeys_from_spec` is therefore false, and the conversion's own `ensures`
/// states what it returns.
impl<'a> vstd::std_specs::convert::FromSpecImpl<&'a str> for RelationUri {
    open spec fn obeys_from_spec() -> bool {
        false
    }

    open spec fn from_spec(value: &'a str) -> Self {
        arbitrary()
    }
}

impl<'a> From<&'a ItemKey> for RelationUri {
    fn from(key: &'a ItemKey) -> (r: Self)
        ensures
            r@ == item_uri(key@),
    {
        RelationUri::for_item(key)
    }
}

/// A `String`'s value is not fixed by its characters in the model of `String`,
/// so no spec function can name the exact value this conversion returns;
/// `obeys_from_spec` is therefore false, and the conversion's own `ensures`
/// states what it returns.
impl<'a> vstd::std_specs::convert::FromSpecImpl<&'a ItemKey> for RelationUri {
    open spec fn obeys_from_spec() -> bool {
        false
    }

    open spec fn from_spec(key: &'a ItemKey) -> Self {
        arbitrary()
    }
}

/// A relation URI that does not end in an item key.
#[derive(Debug, Clone, Copy, PartialEq, Eq)]
pub struct RelationUriError;

impl RelationUriError {
    pub fn message(&self) -> (r: String)
        ensures
            r@ == "not a Zotero item URI"@,
    {
        "not a Zotero item URI".to_owned()
    }
}

/// The item key that a relation URI ends in: the URI must end with
/// `/items/` followed by the key, eight ASCII letters or digits.
pub open spec fn uri_key(u: Seq<char>) -> Option<Seq<char>> {
    if u.len() >= 15 && u.subrange(u.len() - 15, u.len() - 8) == "/items/"@ && forall|i: int|
        u.len() - 8 <= i < u.len() ==> is_ascii_alphanumeric(#[trigger] u[i]) {
        Some(u.skip(u.len() - 8))
    } else {
        None
    }
}

/// The item key that a relation URI ends in.
pub fn key_of_uri(uri: &RelationUri) -> (r: Result<ItemKey, RelationUriError>)
    ensures
        match uri_key(uri@) {
            Some(k) => r matches Ok(key) && key@ == k,
            None => r is Err,
        },
{
    let cs = chars_of(uri.as_str());
    let tag = chars_of("/items/");
    proof {
        reveal_strlit("/items/");
    }
    assert(tag@.len() == 7);
    let n = cs.len();
    if n < 15 {
        return Err(RelationUriError);
    }
    let base = n - 15;
    let mut j: usize = 0;
    while j < 7
        invariant
            j <= 7,
            n == cs@.len(),
            n >= 15,
            base == n - 15,
            tag@ == "/items/"@,
            tag@.len() == 7,
            cs@ == uri@,
            forall|t: int| 0 <= t < j ==> cs@[base + t] == tag@[t],
        decreases 7 - j,
    {
        if cs[base + j] != tag[j] {
            assert(cs@.subrange(n - 15, n - 8)[j as int] != "/items/"@[j as int]);
            return Err(RelationUriError);
        }
        j = j + 1;
    }
    assert(cs@.subrange(n - 15, n - 8) =~= "/items/"@) by {
        assert forall|t: int| 0 <= t < 7 implies cs@.subrange(n - 15, n - 8)[t] == "/items/"@[t] by {
            assert(cs@[base + t] == tag@[t]);
        }
    }
    let mut i: usize = n - 8;
    while i < n
        invariant
            n - 8 <= i <= n,
            n == cs@.len(),
            n >= 15,
            cs@ == uri@,
            forall|t: int| n - 8 <= t < i ==> is_ascii_alphanumeric(#[trigger] cs@[t]),
        decreases n - i,
    {
        let c = cs[i];
        if !(('0' <= c && c <= '9') || ('a' <= c && c <= 'z') || ('A' <= c && c <= 'Z')) {
            assert(!is_ascii_alphanumeric(cs@[i as int]));
            return Err(RelationUriError);
        }
        i = i + 1;
    }
    let key = string_of(&cs.as_slice()[n - 8..n]);
    assert(cs@.subrange(n - 8, n as int) == cs@.skip(n - 8));
    Ok(ItemKey::new(key))
}

impl<'a> TryFrom<&'a RelationUri> for ItemKey {
    type Error = RelationUriError;

    fn try_from(uri: &'a RelationUri) -> (r: Result<Self, Self::Error>)
        ensures
            match uri_key(uri@) {
                Some(k) => r matches Ok(key) && key@ == k,
                None => r is Err,
            },
    {
        key_of_uri(uri)
    }
}

/// A `String`'s value is not fixed by its characters in the model of `String`,
/// so no spec function can name the exact value this conversion returns;
/// `obeys_try_from_spec` is therefore false, and the conversion's own `ensures`
/// states what it returns.
impl<'a> vstd::std_specs::convert::TryFromSpecImpl<&'a RelationUri> for ItemKey {
    open spec fn obeys_try_from_spec() -> bool {
        false
    }

    open spec fn try_from_spec(uri: &'a RelationUri) -> Result<Self, Self::Error> {
        arbitrary()
    }
}

/// Whether a link is being made or undone.
#[derive(Copy, Clone, Debug, Eq, PartialEq)]
pub enum RelationAction {
    /// Each item gets the other's URI.
    Add,
    /// Each item loses the other's URI.
    Remove,
}

/// The texts of the string values among `vs`, in order.
pub open spec fn strings_in(vs: Seq<JsonValue>) -> Seq<Seq<char>>
    decreases vs.len(),
{
    if vs.len() == 0 {
        Seq::empty()
    } else {
        let r = strings_in(vs.drop_last());
        match vs.last() {
            JsonValue::String(s) => r.push(s@),
            _ => r,
        }
    }
}

/// The relation URIs of an item's `relations` value: its `dc:relation`
/// member, a single string or the strings of an array; nothing otherwise.
pub open spec fn relation_uris(relations: JsonValue) -> Seq<Seq<char>> {
    match relations.get_spec("dc:relation"@) {
        Some(JsonValue::String(u)) => seq![u@],
        Some(JsonValue::Array(vs)) => strings_in(vs@),
        _ => Seq::empty(),
    }
}

/// The views of relation URIs.
pub open spec fn uri_views(us: Seq<RelationUri>) -> Seq<Seq<char>> {
    us.map_values(|u: RelationUri| u@)
}

/// The relation URIs of an item's `relations` value.
pub fn parse_relation_keys(relations: &JsonValue) -> (r: Vec<RelationUri>)
    ensures
        uri_views(r@) == relation_uris(*relations),
{
    let mut out: Vec<RelationUri> = Vec::new();
    match relations.get("dc:relation") {
        Some(JsonValue::String(u)) => {
            out.push(RelationUri::new(u.clone()));
            assert(uri_views(out@) =~= seq![u@]);
        },
        Some(JsonValue::Array(vs)) => {
            let mut i: usize = 0;
            assert(vs@.take(0) =~= Seq::<JsonValue>::empty());
            assert(uri_views(out@) =~= Seq::<Seq<char>>::empty());
            while i < vs.len()
                invariant
                    i <= vs@.len(),
                    uri_views(out@) == strings_in(vs@.take(i as int)),
                decreases vs@.len() - i,
            {
                assert(vs@.take(i + 1).drop_last() =~= vs@.take(i as int));
                assert(vs@.take(i + 1).last() == vs@[i as int]);
                match &vs[i] {
                    JsonValue::String(s) => {
                        let ghost before = uri_views(out@);
                        out.push(RelationUri::new(s.clone()));
                        assert(uri_views(out@) =~= before.push(s@));
                    },
                    _ => {},
                }
                i = i + 1;
            }
            assert(vs@.take(vs@.len() as int) =~= vs@);
        },
        _ => {
            assert(uri_views(out@) =~= Seq::<Seq<char>>::empty());
        },
    }
    out
}

/// The keys of the items that an item's relations point to, skipping URIs
/// that do not end in an item key.
pub fn related_item_keys(relations: &JsonValue) -> (r: Vec<ItemKey>)
    ensures
        crate::analysis::key_views(r@) == relation_uris(*relations).filter(|u: Seq<char>| uri_key(u) is Some).map_values(
            |u: Seq<char>| uri_key(u)->0,
        ),
{
    let uris = parse_relation_keys(relations);
    let ghost uv = uri_views(uris@);
    let ghost pred = |u: Seq<char>| uri_key(u) is Some;
    let ghost f = |u: Seq<char>| uri_key(u)->0;
    let mut out: Vec<ItemKey> = Vec::new();
    let mut i: usize = 0;
    assert(uv.take(0) =~= Seq::<Seq<char>>::empty());
    assert(crate::analysis::key_views(out@) =~= Seq::<Seq<char>>::empty());
    proof {
        reveal(Seq::filter);
    }
    while i < uris.len()
        invariant
            i <= uris@.len(),
            uv == uri_views(uris@),
            pred == (|u: Seq<char>| uri_key(u) is Some),
            f == (|u: Seq<char>| uri_key(u)->0),
            crate::analysis::key_views(out@) == uv.take(i as int).filter(pred).map_values(f),
        decreases uris@.len() - i,
    {
        proof {
            reveal(Seq::filter);
            assert(uv.take(i + 1).drop_last() =~= uv.take(i as int));
            assert(uv.take(i + 1).last() == uris@[i as int]@);
        }
        match key_of_uri(&uris[i]) {
            Ok(k) => {
                let ghost before = out@;
                out.push(k);
                proof {
                    assert(uv.take(i + 1).filter(pred) == uv.take(i as int).filter(pred).push(uris@[i as int]@));
                    assert(crate::analysis::key_views(out@) =~= crate::analysis::key_views(before).push(k@));
                    assert(uv.take(i + 1).filter(pred).map_values(f) =~= uv.take(i as int).filter(pred).map_values(
                        f,
                    ).push(f(uris@[i as int]@)));
                }
            },
            Err(_) => {
                proof {
                    assert(uv.take(i + 1).filter(pred) == uv.take(i as int).filter(pred));
                }
            },
        }
        i = i + 1;
    }
    assert(uv.take(uris@.len() as int) =~= uv);
    out
}

pub(crate) proof fn lemma_push_to_set<A>(s: Seq<A>, x: A)
    ensures
        s.push(x).to_set() == s.to_set().insert(x),
{
    assert forall|y: A| s.push(x).to_set().contains(y) <==> s.to_set().insert(x).contains(y) by {
        if s.push(x).contains(y) {
            let k = choose|k: int| 0 <= k < s.push(x).len() && s.push(x)[k] == y;
            if k < s.len() {
                assert(s[k] == y);
            }
        }
        if s.contains(y) {
            let k = choose|k: int| 0 <= k < s.len() && s[k] == y;
            assert(s.push(x)[k] == y);
        }
        if y == x {
            assert(s.push(x)[s.len() as int] == y);
        }
    }
    assert(s.push(x).to_set() =~= s.to_set().insert(x));
}

/// The texts are strictly increasing in the order of `String`.
pub open spec fn strictly_sorted(s: Seq<Seq<char>>) -> bool {
    forall|a: int, b: int| 0 <= a < b < s.len() ==> text_lt(s[a], s[b])
}

/// Adds `x` to a strictly sorted list of texts, unless it is there.
pub(crate) fn sorted_insert(v: &mut Vec<String>, x: String)
    requires
        strictly_sorted(views(old(v)@)),
    ensures
        strictly_sorted(views(final(v)@)),
        views(final(v)@).to_set() == views(old(v)@).to_set().insert(x@),
{
    let ghost old_v = views(v@);
    let xc = chars_of(x.as_str());
    let mut e: usize = 0;
    while e < v.len() && text_lt_exec(chars_of(v[e].as_str()).as_slice(), xc.as_slice())
        invariant
            e <= v@.len(),
            xc@ == x@,
            views(v@) == old_v,
            forall|a: int| 0 <= a < e ==> text_lt(#[trigger] old_v[a], x@),
        decreases v@.len() - e,
    {
        e = e + 1;
    }
    if e < v.len() && str_eq(v[e].as_str(), x.as_str()) {
        assert(old_v.to_set().insert(x@) =~= old_v.to_set()) by {
            assert(old_v[e as int] == x@);
        }
        return;
    }
    let ghost xv = x@;
    v.insert(e, x);
    proof {
        let nv = views(v@);
        assert(nv =~= old_v.insert(e as int, xv));
        if e < old_v.len() {
            lemma_text_lt_total(old_v[e as int], xv);
        }
        assert forall|a: int, b: int| 0 <= a < b < nv.len() implies text_lt(nv[a], nv[b]) by {
            if b == e {
            } else if a == e {
                if b - 1 > e {
                    lemma_text_lt_trans(xv, old_v[e as int], old_v[b - 1]);
                }
            } else if a < e && b > e {
                assert(nv[b] == old_v[b - 1]);
            } else if a > e {
                assert(nv[a] == old_v[a - 1] && nv[b] == old_v[b - 1]);
            }
        }
        assert forall|y: Seq<char>| nv.to_set().contains(y) <==> old_v.to_set().insert(xv).contains(y) by {
            if nv.contains(y) {
                let k = choose|k: int| 0 <= k < nv.len() && nv[k] == y;
                if k < e {
                    assert(old_v[k] == y);
                } else if k > e {
                    assert(old_v[k - 1] == y);
                }
            }
            if old_v.contains(y) {
                let k = choose|k: int| 0 <= k < old_v.len() && old_v[k] == y;
                if k < e {
                    assert(nv[k] == y);
                } else {
                    assert(nv[k + 1] == y);
                }
            }
            if y == xv {
                assert(nv[e as int] == y);
            }
        }
        assert(nv.to_set() =~= old_v.to_set().insert(xv));
    }
}

/// Removes `x` from a strictly sorted list of texts, if it is there.
pub(crate) fn sorted_remove(v: &mut Vec<String>, x: &str)
    requires
        strictly_sorted(views(old(v)@)),
    ensures
        strictly_sorted(views(final(v)@)),
        views(final(v)@).to_set() == views(old(v)@).to_set().remove(x@),
{
    let ghost old_v = views(v@);
    let mut e: usize = 0;
    while e < v.len() && !str_eq(v[e].as_str(), x)
        invariant
            e <= v@.len(),
            views(v@) == old_v,
            forall|a: int| 0 <= a < e ==> old_v[a] != x@,
        decreases v@.len() - e,
    {
        e = e + 1;
    }
    if e == v.len() {
        assert(old_v.to_set().remove(x@) =~= old_v.to_set());
        return;
    }
    let _ = v.remove(e);
    proof {
        let nv = views(v@);
        assert(nv =~= old_v.remove(e as int));
        assert forall|a: int, b: int| 0 <= a < b < nv.len() implies text_lt(nv[a], nv[b]) by {
            if a < e && b < e {
            } else if a < e {
                assert(nv[b] == old_v[b + 1]);
            } else {
                assert(nv[a] == old_v[a + 1] && nv[b] == old_v[b + 1]);
            }
        }
        assert forall|y: Seq<char>| nv.to_set().contains(y) <==> old_v.to_set().remove(x@).contains(y) by {
            if nv.contains(y) {
                let k = choose|k: int| 0 <= k < nv.len() && nv[k] == y;
                if k < e {
                    assert(old_v[k] == y);
                    lemma_text_lt_asym(old_v[k], old_v[e as int]);
                } else {
                    assert(old_v[k + 1] == y);
                    lemma_text_lt_asym(old_v[e as int], old_v[k + 1]);
                }
            }
            if old_v.contains(y) && y != x@ {
                let k = choose|k: int| 0 <= k < old_v.len() && old_v[k] == y;
                if k < e {
                    assert(nv[k] == y);
                } else {
                    assert(k != e);
                    assert(nv[k - 1] == y);
                }
            }
        }
        assert(nv.to_set() =~= old_v.to_set().remove(x@));
    }
}

/// The relation URIs after the action: the URIs that were there, as a set,
/// with `uri` added or removed.
pub open spec fn relation_set_after(current: JsonValue, action: RelationAction, uri: Seq<char>) -> Set<Seq<char>> {
    let s = relation_uris(current).to_set();
    match action {
        RelationAction::Add => s.insert(uri),
        RelationAction::Remove => s.remove(uri),
    }
}

/// The members of a `relations` value: those of an object, none otherwise.
pub open spec fn members_of(v: JsonValue) -> Seq<(String, JsonValue)> {
    match v {
        JsonValue::Object(ms) => ms@,
        _ => Seq::empty(),
    }
}

/// The `relations` value after adding or removing `uri`: `dc:relation`
/// becomes the array of the resulting URIs, sorted and without repeats;
/// every other member stays as it was.
pub fn apply_relations(current: JsonValue, action: RelationAction, uri: &RelationUri) -> (r: JsonValue)
    ensures
        r is Object,
        r.get_spec("dc:relation"@) matches Some(JsonValue::Array(vs)) && forall|i: int|
            0 <= i < vs@.len() ==> (#[trigger] vs@[i]) is String,
        strictly_sorted(relation_uris(r)),
        relation_uris(r).to_set() == relation_set_after(current, action, uri@),
        forall|k: Seq<char>| k != "dc:relation"@ ==> #[trigger] r.get_spec(k) == current.get_spec(k),
{
    let uris = parse_relation_keys(&current);
    let ghost uv = uri_views(uris@);
    let mut set: Vec<String> = Vec::new();
    let mut i: usize = 0;
    assert(views(set@) =~= Seq::<Seq<char>>::empty());
    assert(uv.take(0).to_set() =~= Set::<Seq<char>>::empty());
    assert(views(set@).to_set() =~= Set::<Seq<char>>::empty());
    while i < uris.len()
        invariant
            i <= uris@.len(),
            uv == uri_views(uris@),
            strictly_sorted(views(set@)),
            views(set@).to_set() == uv.take(i as int).to_set(),
        decreases uris@.len() - i,
    {
        let ghost before = views(set@).to_set();
        sorted_insert(&mut set, uris[i].as_str().to_owned());
        proof {
            assert(uv.take(i + 1) =~= uv.take(i as int).push(uris@[i as int]@));
            lemma_push_to_set(uv.take(i as int), uris@[i as int]@);
        }
        i = i + 1;
    }
    assert(uv.take(uris@.len() as int) =~= uv);
    match action {
        RelationAction::Add => sorted_insert(&mut set, uri.as_str().to_owned()),
        RelationAction::Remove => sorted_remove(&mut set, uri.as_str()),
    }
    let mut arr: Vec<JsonValue> = Vec::new();
    let mut j: usize = 0;
    assert(arr@.take(0) =~= Seq::<JsonValue>::empty());
    while j < set.len()
        invariant
            j <= set@.len(),
            arr@.len() == j,
            strings_in(arr@) == views(set@).take(j as int),
            forall|k: int| 0 <= k < j ==> (#[trigger] arr@[k]) is String,
        decreases set@.len() - j,
    {
        let ghost before = arr@;
        arr.push(JsonValue::String(set[j].clone()));
        proof {
            assert(arr@.drop_last() =~= before);
            assert(views(set@).take(j + 1) =~= views(set@).take(j as int).push(set@[j as int]@));
        }
        j = j + 1;
    }
    assert(views(set@).take(set@.len() as int) =~= views(set@));
    let ghost arr_view = arr@;
    let ghost old_members = members_of(current);
    let mut members: Vec<(String, JsonValue)> = match current {
        JsonValue::Object(ms) => ms,
        _ => Vec::new(),
    };
    assert(members@ == old_members);
    set_member(&mut members, "dc:relation".to_owned(), JsonValue::Array(arr));
    let r = JsonValue::Object(members);
    proof {
        assert forall|k: Seq<char>| k != "dc:relation"@ implies #[trigger] r.get_spec(k) == current.get_spec(k) by {
            if !(current is Object) {
                assert(members_get(old_members, k) is None);
            }
        }
        assert(relation_uris(r) == strings_in(arr_view));
    }
    r
}

/// A relation links two different items.
pub open spec fn self_relation_message() -> Seq<char> {
    "cannot relate an item to itself"@
}

/// Refuses to relate an item to itself.
pub fn check_relation_pair(a: &str, b: &str) -> (r: Result<(), ZoteroApiError>)
    ensures
        a@ != b@ ==> r is Ok,
        a@ == b@ ==> crate::errors::rejects(r, self_relation_message()),
{
    if str_eq(a, b) {
        Err(ZoteroApiError::InputRejected("cannot relate an item to itself".to_owned()))
    } else {
        Ok(())
    }
}

/// The body of the update that writes an item's new relations: its
/// `relations` and the `version` it was read at.
pub fn relation_patch(relations: JsonValue, version: LibraryVersion) -> (r: JsonValue)
    ensures
        r.get_spec("relations"@) == Some(relations),
        r.get_spec("version"@) matches Some(JsonValue::Number(n)) && n@ == decimal(version@ as nat),
{
    let mut members: Vec<(String, JsonValue)> = Vec::new();
    let k1 = "relations".to_owned();
    let k2 = "version".to_owned();
    proof {
        reveal_strlit("relations");
        reveal_strlit("version");
        assert(k1@.len() == 9 && k2@.len() == 7);
    }
    members.push((k1, relations));
    let mut n = String::new();
    crate::text::push_decimal(&mut n, version.as_u64());
    assert(n@ == decimal(version@ as nat));
    members.push((k2, JsonValue::Number(n)));
    assert(members@[0].0@ != "version"@);
    assert(members@.drop_first()[0].0@ == "version"@);
    assert(crate::json::member_index(members@.drop_first(), "version"@) == Some(0int));
    assert(crate::json::member_index(members@, "version"@) == Some(1int));
    JsonValue::Object(members)
}

// ---------------------------------------------------------------------------
// Laws

/// After a link is added, the relations hold its URI.
pub proof fn lemma_added_relation_is_present(current: JsonValue, uri: Seq<char>)
    ensures
        relation_set_after(current, RelationAction::Add, uri).contains(uri),
{
}

/// After a link is removed, the relations no longer hold its URI.
pub proof fn lemma_removed_relation_is_absent(current: JsonValue, uri: Seq<char>)
    ensures
        !relation_set_after(current, RelationAction::Remove, uri).contains(uri),
{
}

/// Adding or removing one link leaves every other URI as it was.
pub proof fn lemma_other_relations_kept(current: JsonValue, action: RelationAction, uri: Seq<char>, other: Seq<char>)
    requires
        other != uri,
    ensures
        relation_set_after(current, action, uri).contains(other) == relation_uris(current).contains(other),
{
}

/// Adding a relation and then removing it gives back the relations an item
/// had, when it did not have that one before.
pub proof fn lemma_add_then_remove_relation(current: JsonValue, added: JsonValue, removed: JsonValue, uri: Seq<char>)
    requires
        relation_uris(added).to_set() == relation_set_after(current, RelationAction::Add, uri),
        relation_uris(removed).to_set() == relation_set_after(added, RelationAction::Remove, uri),
        !relation_uris(current).contains(uri),
    ensures
        relation_uris(removed).to_set() == relation_uris(current).to_set(),
{
    assert(relation_uris(current).to_set().insert(uri).remove(uri) =~= relation_uris(current).to_set());
}

/// A URI built for a key reads back as that key, when the key is eight
/// ASCII letters or digits.
pub proof fn lemma_item_uri_round_trip(key: Seq<char>)
    requires
        key.len() == 8,
        forall|i: int| 0 <= i < 8 ==> is_ascii_alphanumeric(#[trigger] key[i]),
    ensures
        uri_key(item_uri(key)) == Some(key),
{
    let u = item_uri(key);
    reveal_strlit("http://zotero.org/users/0/items/");
    reveal_strlit("/items/");
    assert(u.len() == 40);
    assert(u.subrange(25, 32) =~= "/items/"@);
    assert forall|i: int| 32 <= i < 40 implies is_ascii_alphanumeric(#[trigger] u[i]) by {
        assert(u[i] == key[i - 32]);
    }
    assert(u.skip(32) =~= key);
}

} // verus!
