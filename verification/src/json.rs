//! A plain model of JSON documents exchanged with Zotero and metadata services.
//!
//! Numbers keep their textual form; objects keep their members in order.
use vstd::prelude::*;
use crate::text::str_eq;

verus! {

/// A JSON value.
#[derive(Debug, PartialEq, Eq)]
pub enum JsonValue {
    Null,
    Bool(bool),
    /// A number, in its textual JSON form.
    Number(String),
    String(String),
    Array(Vec<JsonValue>),
    /// Members in document order; keys are unique.
    Object(Vec<(String, JsonValue)>),
}

/// Index of the first member of `members` named `key`, if any.
pub open spec fn member_index(members: Seq<(String, JsonValue)>, key: Seq<char>) -> Option<int>
    decreases members.len(),
{
    if members.len() == 0 {
        None
    } else if members[0].0@ == key {
        Some(0)
    } else {
        match member_index(members.drop_first(), key) {
            Some(i) => Some(i + 1),
            None => None,
        }
    }
}

pub proof fn lemma_member_index_bounds(members: Seq<(String, JsonValue)>, key: Seq<char>)
    ensures
        member_index(members, key) matches Some(i) ==> 0 <= i < members.len() && members[i].0@
            == key && forall|j: int| 0 <= j < i ==> members[j].0@ != key,
        member_index(members, key) is None ==> forall|j: int|
            0 <= j < members.len() ==> members[j].0@ != key,
    decreases members.len(),
{
    if members.len() > 0 {
        lemma_member_index_bounds(members.drop_first(), key);
        if members[0].0@ != key {
            assert forall|j: int| 1 <= j < members.len() implies members[j] == members.drop_first()[j
                - 1] by {}
        }
    }
}

/// The value of the first member named `key`.
pub open spec fn members_get(members: Seq<(String, JsonValue)>, key: Seq<char>) -> Option<JsonValue> {
    match member_index(members, key) {
        Some(i) => Some(members[i].1),
        None => None,
    }
}

/// The first member named `key` is the one at `i` when no member before it
/// has that name.
pub proof fn lemma_members_get_first(members: Seq<(String, JsonValue)>, key: Seq<char>, i: int)
    requires
        0 <= i < members.len(),
        members[i].0@ == key,
        forall|j: int| 0 <= j < i ==> members[j].0@ != key,
    ensures
        member_index(members, key) == Some(i),
        members_get(members, key) == Some(members[i].1),
{
    lemma_member_index_bounds(members, key);
    if let Some(k) = member_index(members, key) {
        if k < i {
            assert(members[k].0@ != key);
        }
        if k > i {
            assert(members[i].0@ != key);
        }
    }
}

impl JsonValue {
    /// The member `key` of an object; `None` for a missing member or a value
    /// that is not an object (as `serde_json::Value::get` with a string index).
    pub open spec fn get_spec(self, key: Seq<char>) -> Option<JsonValue> {
        match self {
            JsonValue::Object(members) => members_get(members@, key),
            _ => None,
        }
    }

    /// The element `index` of an array; `None` for an index out of range or a
    /// value that is not an array (as `serde_json::Value::get` with a number).
    pub open spec fn at_spec(self, index: int) -> Option<JsonValue> {
        match self {
            JsonValue::Array(items) => if 0 <= index < items@.len() {
                Some(items@[index])
            } else {
                None
            },
            _ => None,
        }
    }

    /// The text of a string value.
    pub open spec fn str_spec(self) -> Option<Seq<char>> {
        match self {
            JsonValue::String(s) => Some(s@),
            _ => None,
        }
    }

    /// The member `key` of an object.
    pub fn get(&self, key: &str) -> (r: Option<&JsonValue>)
        ensures
            match self.get_spec(key@) {
                Some(v) => r matches Some(x) && *x == v,
                None => r is None,
            },
    {
        match self {
            JsonValue::Object(members) => {
                let mut i: usize = 0;
                while i < members.len()
                    invariant
                        *self == JsonValue::Object(*members),
                        i <= members@.len(),
                        forall|j: int| 0 <= j < i ==> members@[j].0@ != key@,
                    decreases members@.len() - i,
                {
                    if str_eq(members[i].0.as_str(), key) {
                        proof {
                            lemma_member_index_bounds(members@, key@);
                            assert(members@[i as int].0@ == key@);
                            if let Some(k) = member_index(members@, key@) {
                                if k < i {
                                    assert(members@[k].0@ != key@);
                                }
                                if k > i {
                                    assert(members@[i as int].0@ != key@);
                                }
                                assert(k == i);
                            } else {
                                assert(members@[i as int].0@ != key@);
                            }
                            assert(member_index(members@, key@) == Some(i as int));
                        }
                        return Some(&members[i].1);
                    }
                    i = i + 1;
                }
                proof {
                    lemma_member_index_bounds(members@, key@);
                }
                None
            },
            _ => None,
        }
    }

    /// The element `index` of an array.
    pub fn at(&self, index: usize) -> (r: Option<&JsonValue>)
        ensures
            match self.at_spec(index as int) {
                Some(v) => r matches Some(x) && *x == v,
                None => r is None,
            },
    {
        match self {
            JsonValue::Array(items) => if index < items.len() {
                Some(&items[index])
            } else {
                None
            },
            _ => None,
        }
    }

    /// The text of a string value.
    pub fn as_str(&self) -> (r: Option<&str>)
        ensures
            match self.str_spec() {
                Some(s) => r matches Some(t) && t@ == s,
                None => r is None,
            },
    {
        match self {
            JsonValue::String(s) => Some(s.as_str()),
            _ => None,
        }
    }
}

/// The index of the first member named `key`.
pub fn member_position(members: &Vec<(String, JsonValue)>, key: &str) -> (r: Option<usize>)
    ensures
        match member_index(members@, key@) {
            Some(i) => r == Some(i as usize),
            None => r is None,
        },
{
    let mut i: usize = 0;
    while i < members.len()
        invariant
            i <= members@.len(),
            forall|j: int| 0 <= j < i ==> members@[j].0@ != key@,
        decreases members@.len() - i,
    {
        if str_eq(members[i].0.as_str(), key) {
            proof {
                lemma_members_get_first(members@, key@, i as int);
                lemma_member_index_bounds(members@, key@);
            }
            return Some(i);
        }
        i = i + 1;
    }
    proof {
        lemma_member_index_bounds(members@, key@);
    }
    None
}

/// Sets the member `key` of an object's members: the first member of that
/// name gets the value, or a member is appended when there is none.
pub fn set_member(members: &mut Vec<(String, JsonValue)>, key: String, value: JsonValue)
    ensures
        members_get(final(members)@, key@) == Some(value),
        forall|k: Seq<char>|
            k != key@ ==> members_get(final(members)@, k)
                == members_get(old(members)@, k),
{
    let ghost key_view = key@;
    let ghost old_members = members@;
    let mut i: usize = 0;
    while i < members.len()
        invariant
            i <= members@.len(),
            members@ == old_members,
            old_members == old(members)@,
            key_view == key@,
            forall|j: int| 0 <= j < i ==> members@[j].0@ != key@,
        decreases members@.len() - i,
    {
        if str_eq(members[i].0.as_str(), key.as_str()) {
            proof {
                lemma_member_index_bounds(old_members, key@);
            }
            members.set(i, (key, value));
            proof {
                assert(members@[i as int].0@ == key_view);
                assert(old_members[i as int].0@ == key_view);
                lemma_set_member(old_members, i as int, members@);
                assert forall|k: Seq<char>| k != key_view implies members_get(members@, k)
                    == members_get(old_members, k) by {}
            }
            return;
        }
        i = i + 1;
    }
    members.push((key, value));
    proof {
        assert(members@.take(old_members.len() as int) == old_members);
        lemma_push_member(old_members, members@);
    }
}

/// Replacing the member at `i` by one of the same name changes only that
/// member's value.
proof fn lemma_set_member(old: Seq<(String, JsonValue)>, i: int, new: Seq<(String, JsonValue)>)
    requires
        0 <= i < old.len(),
        new == old.update(i, new[i]),
        new[i].0@ == old[i].0@,
        forall|j: int| 0 <= j < i ==> old[j].0@ != old[i].0@,
    ensures
        members_get(new, new[i].0@) == Some(new[i].1),
        forall|k: Seq<char>| k != new[i].0@ ==> #[trigger] members_get(new, k)
            == members_get(old, k),
{
    lemma_member_index_update_same(old, i, new);
    assert forall|k: Seq<char>| k != new[i].0@ implies #[trigger] members_get(new, k)
        == members_get(old, k) by {
        lemma_member_index_update_other(old, i, new, k);
        lemma_member_index_bounds(old, k);
    }
}

proof fn lemma_member_index_update_same(old: Seq<(String, JsonValue)>, i: int, new: Seq<(String, JsonValue)>)
    requires
        0 <= i < old.len(),
        new == old.update(i, new[i]),
        new[i].0@ == old[i].0@,
        forall|j: int| 0 <= j < i ==> old[j].0@ != old[i].0@,
    ensures
        member_index(new, new[i].0@) == Some(i),
    decreases old.len(),
{
    if i > 0 {
        let o2 = old.drop_first();
        let n2 = new.drop_first();
        assert(n2 == o2.update(i - 1, n2[i - 1]));
        lemma_member_index_update_same(o2, i - 1, n2);
    }
}

proof fn lemma_member_index_update_other(
    old: Seq<(String, JsonValue)>,
    i: int,
    new: Seq<(String, JsonValue)>,
    k: Seq<char>,
)
    requires
        0 <= i < old.len(),
        new == old.update(i, new[i]),
        new[i].0@ == old[i].0@,
        k != new[i].0@,
    ensures
        member_index(new, k) == member_index(old, k),
    decreases old.len(),
{
    let o2 = old.drop_first();
    let n2 = new.drop_first();
    if i > 0 {
        assert(n2 == o2.update(i - 1, n2[i - 1]));
        lemma_member_index_update_other(o2, i - 1, n2, k);
    } else {
        assert(n2 == o2);
    }
}

/// Appending a member with a fresh name adds exactly that member.
proof fn lemma_push_member(old: Seq<(String, JsonValue)>, new: Seq<(String, JsonValue)>)
    requires
        new.len() == old.len() + 1,
        new.take(old.len() as int) == old,
        forall|j: int| 0 <= j < old.len() ==> old[j].0@ != new.last().0@,
    ensures
        members_get(new, new.last().0@) == Some(new.last().1),
        forall|k: Seq<char>| k != new.last().0@ ==> #[trigger] members_get(new, k)
            == members_get(old, k),
{
    lemma_member_index_push_same(old, new);
    assert forall|k: Seq<char>| k != new.last().0@ implies #[trigger] members_get(new, k)
        == members_get(old, k) by {
        lemma_member_index_push_other(old, new, k);
        lemma_member_index_bounds(old, k);
    }
}

proof fn lemma_member_index_push_same(old: Seq<(String, JsonValue)>, new: Seq<(String, JsonValue)>)
    requires
        new.len() == old.len() + 1,
        new.take(old.len() as int) == old,
        forall|j: int| 0 <= j < old.len() ==> old[j].0@ != new.last().0@,
    ensures
        member_index(new, new.last().0@) == Some(old.len() as int),
    decreases old.len(),
{
    if old.len() > 0 {
        let o2 = old.drop_first();
        let n2 = new.drop_first();
        assert(n2.take(o2.len() as int) == o2);
        assert(new[0] == old[0]);
        lemma_member_index_push_same(o2, n2);
    }
}

proof fn lemma_member_index_push_other(
    old: Seq<(String, JsonValue)>,
    new: Seq<(String, JsonValue)>,
    k: Seq<char>,
)
    requires
        new.len() == old.len() + 1,
        new.take(old.len() as int) == old,
        k != new.last().0@,
    ensures
        member_index(new, k) == member_index(old, k),
    decreases old.len(),
{
    if old.len() > 0 {
        let o2 = old.drop_first();
        let n2 = new.drop_first();
        assert(n2.take(o2.len() as int) == o2);
        assert(new[0] == old[0]);
        assert(n2.last() == new.last());
        lemma_member_index_push_other(o2, n2, k);
        if new[0].0@ == k {
            assert(member_index(new, k) == Some(0int));
            assert(member_index(old, k) == Some(0int));
        } else {
            assert(member_index(new, k) == match member_index(n2, k) {
                Some(j) => Some(j + 1),
                None => None,
            });
        }
    } else {
        assert(new[0] == new.last());
        assert(new.drop_first().len() == 0);
        assert(member_index(new.drop_first(), k) is None);
        assert(member_index(new, k) is None);
        assert(member_index(old, k) is None);
    }
}

} // verus!
