//! Library analytics computed on the client: PDF, DOI and note coverage, and
//! duplicate detection by DOI or title.
use vstd::prelude::*;
use crate::client::{add_pagination, add_pagination_spec, target_prefix_spec, trim_end_slashes, trim_slashes, ZoteroClient};
use crate::keys::ItemKey;
use crate::objects::{ZoteroItem, ZoteroItemData};
use crate::search::{text_lt, text_lt_exec, lemma_text_lt_asym, lemma_text_lt_total, lemma_text_lt_trans, PaginationInfo};
use crate::text::{chars_eq, chars_of, contains, contains_exec, push_str, string_of, to_lowercase, trim, trim_exec, unicode_lowercase};
use crate::types::ItemType;

verus! {

/// Coverage indicators of one item.
#[derive(Copy, Clone, Debug, PartialEq, Eq)]
pub struct ItemCoverageFlags {
    pub has_pdf: bool,
    pub has_doi: bool,
    pub has_notes: bool,
}

/// A child is a PDF attachment: an attachment whose content type mentions
/// `pdf`.
pub open spec fn is_pdf_child(c: ZoteroItem) -> bool {
    c.data.item_type is Attachment && match c.data.content_type {
        Some(ct) => contains(ct@, "pdf"@),
        None => false,
    }
}

/// The coverage flags of an item with the given children: a non-blank DOI,
/// a PDF attachment, a child note.
pub open spec fn coverage_flags_spec(d: ZoteroItemData, children: Seq<ZoteroItem>) -> ItemCoverageFlags {
    ItemCoverageFlags {
        has_pdf: exists|i: int| 0 <= i < children.len() && is_pdf_child(#[trigger] children[i]),
        has_doi: match d.doi {
            Some(x) => trim(x@).len() > 0,
            None => false,
        },
        has_notes: exists|i: int| 0 <= i < children.len() && (#[trigger] children[i]).data.item_type is Note,
    }
}

/// The coverage flags of `item`, whose children are `children`.
pub fn coverage_flags(item: &ZoteroItem, children: &[ZoteroItem]) -> (r: ItemCoverageFlags)
    ensures
        r == coverage_flags_spec(item.data, children@),
{
    let has_doi = match &item.data.doi {
        Some(d) => trim_exec(chars_of(d.as_str()).as_slice()).len() > 0,
        None => false,
    };
    let mut has_pdf = false;
    let mut has_notes = false;
    let mut i: usize = 0;
    while i < children.len()
        invariant
            i <= children@.len(),
            has_pdf == exists|j: int| 0 <= j < i && is_pdf_child(#[trigger] children@[j]),
            has_notes == exists|j: int| 0 <= j < i && (#[trigger] children@[j]).data.item_type is Note,
        decreases children@.len() - i,
    {
        let c = &children[i];
        let pdf = match c.data.item_type {
            ItemType::Attachment => match &c.data.content_type {
                Some(ct) => contains_exec(chars_of(ct.as_str()).as_slice(), chars_of("pdf").as_slice()),
                None => false,
            },
            _ => false,
        };
        let note = match c.data.item_type {
            ItemType::Note => true,
            _ => false,
        };
        proof {
            assert(pdf == is_pdf_child(children@[i as int]));
            if pdf {
                assert(is_pdf_child(children@[i as int]));
            }
            if note {
                assert(children@[i as int].data.item_type is Note);
            }
        }
        has_pdf = has_pdf || pdf;
        has_notes = has_notes || note;
        i = i + 1;
    }
    ItemCoverageFlags { has_pdf, has_doi, has_notes }
}

/// Coverage counts of a page of items.
#[derive(Copy, Clone, Debug, PartialEq, Eq)]
pub struct CoverageCounts {
    pub total_items: usize,
    pub with_pdf: usize,
    pub with_doi: usize,
    pub with_notes: usize,
}

/// The counts of flags: how many items, and how many with each indicator.
pub open spec fn counts_spec(flags: Seq<ItemCoverageFlags>) -> (nat, nat, nat, nat) {
    (
        flags.len(),
        flags.filter(|f: ItemCoverageFlags| f.has_pdf).len(),
        flags.filter(|f: ItemCoverageFlags| f.has_doi).len(),
        flags.filter(|f: ItemCoverageFlags| f.has_notes).len(),
    )
}

/// No coverage count exceeds the number of items counted.
pub proof fn lemma_coverage_counts_bounded(flags: Seq<ItemCoverageFlags>)
    ensures
        counts_spec(flags).1 <= counts_spec(flags).0,
        counts_spec(flags).2 <= counts_spec(flags).0,
        counts_spec(flags).3 <= counts_spec(flags).0,
{
    flags.lemma_filter_len(|f: ItemCoverageFlags| f.has_pdf);
    flags.lemma_filter_len(|f: ItemCoverageFlags| f.has_doi);
    flags.lemma_filter_len(|f: ItemCoverageFlags| f.has_notes);
}

/// Counts the items and those with each coverage indicator.
pub fn classify_coverage(flags: &[ItemCoverageFlags]) -> (r: CoverageCounts)
    ensures
        (r.total_items as nat, r.with_pdf as nat, r.with_doi as nat, r.with_notes as nat) == counts_spec(flags@),
{
    let mut pdf: usize = 0;
    let mut doi: usize = 0;
    let mut notes: usize = 0;
    let mut i: usize = 0;
    let ghost fp = |f: ItemCoverageFlags| f.has_pdf;
    let ghost fd = |f: ItemCoverageFlags| f.has_doi;
    let ghost fnote = |f: ItemCoverageFlags| f.has_notes;
    assert(flags@.take(0) =~= Seq::<ItemCoverageFlags>::empty());
    proof {
        reveal(Seq::filter);
    }
    while i < flags.len()
        invariant
            i <= flags@.len(),
            pdf == flags@.take(i as int).filter(fp).len(),
            doi == flags@.take(i as int).filter(fd).len(),
            notes == flags@.take(i as int).filter(fnote).len(),
            pdf <= i && doi <= i && notes <= i,
            fp == (|f: ItemCoverageFlags| f.has_pdf),
            fd == (|f: ItemCoverageFlags| f.has_doi),
            fnote == (|f: ItemCoverageFlags| f.has_notes),
        decreases flags@.len() - i,
    {
        proof {
            reveal(Seq::filter);
            assert(flags@.take(i + 1).drop_last() =~= flags@.take(i as int));
            assert(flags@.take(i + 1).last() == flags@[i as int]);
        }
        if flags[i].has_pdf {
            pdf = pdf + 1;
        }
        if flags[i].has_doi {
            doi = doi + 1;
        }
        if flags[i].has_notes {
            notes = notes + 1;
        }
        i = i + 1;
    }
    assert(flags@.take(flags@.len() as int) =~= flags@);
    CoverageCounts { total_items: flags.len(), with_pdf: pdf, with_doi: doi, with_notes: notes }
}

/// The counts of one page of coverage results with its pagination.
#[derive(Copy, Clone, Debug, PartialEq, Eq)]
pub struct CoveragePageCounts {
    pub coverage: CoverageCounts,
    pub pagination: PaginationInfo,
}

/// The coverage flags of each selected item with its children, pairing
/// them up to the shorter of the two lists.
pub open spec fn page_flags(selected: Seq<ZoteroItem>, children: Seq<Vec<ZoteroItem>>) -> Seq<ItemCoverageFlags> {
    let n = if selected.len() < children.len() {
        selected.len()
    } else {
        children.len()
    };
    Seq::new(n, |i: int| coverage_flags_spec(selected[i].data, children[i]@))
}

/// Counts coverage over the selected items, each with its children.
pub fn classify_coverage_page(selected: &[ZoteroItem], children_by_idx: &[Vec<ZoteroItem>], pagination: PaginationInfo) -> (r: CoveragePageCounts)
    ensures
        r.pagination == pagination,
        (r.coverage.total_items as nat, r.coverage.with_pdf as nat, r.coverage.with_doi as nat, r.coverage.with_notes as nat)
            == counts_spec(page_flags(selected@, children_by_idx@)),
{
    let n = if selected.len() < children_by_idx.len() {
        selected.len()
    } else {
        children_by_idx.len()
    };
    let mut flags: Vec<ItemCoverageFlags> = Vec::new();
    let mut i: usize = 0;
    while i < n
        invariant
            i <= n,
            n <= selected@.len() && n <= children_by_idx@.len(),
            n == page_flags(selected@, children_by_idx@).len(),
            flags@ == page_flags(selected@, children_by_idx@).take(i as int),
        decreases n - i,
    {
        let f = coverage_flags(&selected[i], children_by_idx[i].as_slice());
        flags.push(f);
        i = i + 1;
        assert(flags@ =~= page_flags(selected@, children_by_idx@).take(i as int));
    }
    assert(flags@ =~= page_flags(selected@, children_by_idx@));
    CoveragePageCounts { coverage: classify_coverage(flags.as_slice()), pagination }
}

impl ZoteroClient {
    /// The URL of a page of coverage results: the items of a collection, or
    /// the library's items without notes, most recently modified first.
    pub fn coverage_url(&self, collection_key: Option<&str>, offset: usize, limit: usize) -> (r: String)
        ensures
            r@ == add_pagination_spec(
                trim_slashes(self@.base_url) + target_prefix_spec(self@.target) + match collection_key {
                    Some(k) => "/collections/"@ + k@ + "/items"@,
                    None => "/items?itemType=-note&sort=dateModified&direction=desc"@,
                },
                offset,
                limit,
            ),
    {
        let mut base = trim_end_slashes(self.base_url());
        let prefix = self.target_prefix();
        push_str(&mut base, prefix.as_str());
        match collection_key {
            Some(k) => {
                push_str(&mut base, "/collections/");
                push_str(&mut base, k);
                push_str(&mut base, "/items");
            },
            None => {
                push_str(&mut base, "/items?itemType=-note&sort=dateModified&direction=desc");
            },
        }
        proof {
            let tail = match collection_key {
                Some(k) => "/collections/"@ + k@ + "/items"@,
                None => "/items?itemType=-note&sort=dateModified&direction=desc"@,
            };
            assert(base@ =~= trim_slashes(self@.base_url) + target_prefix_spec(self@.target) + tail);
        }
        add_pagination(base.as_str(), offset, limit)
    }
}

// ---------------------------------------------------------------------------
// Duplicates

/// What a duplicate group was matched on.
#[derive(Copy, Clone, Debug, Eq, PartialEq)]
pub enum DuplicateType {
    /// The same DOI, trimmed and in lowercase.
    Doi,
    /// The same title, trimmed and in lowercase, longer than five characters.
    Title,
}

/// Items that may be duplicates of each other.
#[derive(Clone, Debug)]
pub struct DuplicateGroup {
    pub match_type: DuplicateType,
    pub match_value: String,
    pub item_keys: Vec<ItemKey>,
}

/// The value by which an item is compared for duplicates of a kind: its
/// trimmed DOI in lowercase when not blank, or its trimmed title in
/// lowercase when longer than five characters.
pub open spec fn dup_key(t: DuplicateType, d: ZoteroItemData) -> Option<Seq<char>> {
    match t {
        DuplicateType::Doi => match d.doi {
            Some(x) => if trim(x@).len() > 0 {
                Some(unicode_lowercase(trim(x@)))
            } else {
                None
            },
            None => None,
        },
        DuplicateType::Title => match d.title {
            Some(x) => {
                let k = unicode_lowercase(trim(x@));
                if k.len() > 5 {
                    Some(k)
                } else {
                    None
                }
            },
            None => None,
        },
    }
}

/// The keys of the items whose comparison value of kind `t` is `v`, in
/// library order.
pub open spec fn members(items: Seq<ZoteroItem>, t: DuplicateType, v: Seq<char>) -> Seq<Seq<char>>
    decreases items.len(),
{
    if items.len() == 0 {
        Seq::empty()
    } else {
        let rest = members(items.drop_last(), t, v);
        if dup_key(t, items.last().data) == Some(v) {
            rest.push(items.last().key@)
        } else {
            rest
        }
    }
}

/// The views of item keys.
pub open spec fn key_views(keys: Seq<ItemKey>) -> Seq<Seq<char>> {
    keys.map_values(|k: ItemKey| k@)
}

/// `groups` are the duplicate groups of kind `t` among `items`: one for each
/// value shared by two or more items, in increasing order of value, each
/// listing the keys of those items in library order.
pub open spec fn duplicate_groups_of(items: Seq<ZoteroItem>, t: DuplicateType, groups: Seq<DuplicateGroup>) -> bool {
    &&& forall|g: int| 0 <= g < groups.len() ==> (#[trigger] groups[g]).match_type == t
    &&& forall|a: int, b: int|
        0 <= a < b < groups.len() ==> text_lt(groups[a].match_value@, groups[b].match_value@)
    &&& forall|g: int|
        0 <= g < groups.len() ==> key_views((#[trigger] groups[g]).item_keys@) == members(
            items,
            t,
            groups[g].match_value@,
        ) && members(items, t, groups[g].match_value@).len() > 1
    &&& forall|i: int|
        0 <= i < items.len() && dup_key(t, #[trigger] items[i].data) is Some && members(
            items,
            t,
            dup_key(t, items[i].data)->0,
        ).len() > 1 ==> exists|g: int|
            0 <= g < groups.len() && (#[trigger] groups[g]).match_value@ == dup_key(t, items[i].data)->0
}

/// The comparison value of an item for duplicates of kind `t`.
pub fn dup_key_exec(t: DuplicateType, d: &ZoteroItemData) -> (r: Option<String>)
    ensures
        match dup_key(t, *d) {
            Some(k) => r matches Some(s) && s@ == k,
            None => r is None,
        },
{
    let src = match t {
        DuplicateType::Doi => &d.doi,
        DuplicateType::Title => &d.title,
    };
    match src {
        Some(x) => {
            let trimmed = trim_exec(chars_of(x.as_str()).as_slice());
            let k = to_lowercase(string_of(trimmed.as_slice()).as_str());
            match t {
                DuplicateType::Doi => if trimmed.len() > 0 {
                    Some(k)
                } else {
                    None
                },
                DuplicateType::Title => if chars_of(k.as_str()).len() > 5 {
                    Some(k)
                } else {
                    None
                },
            }
        },
        None => None,
    }
}

/// The entries of a grouping in progress.
pub open spec fn entry_views(entries: Seq<(String, Vec<ItemKey>)>) -> Seq<(Seq<char>, Seq<Seq<char>>)> {
    entries.map_values(|e: (String, Vec<ItemKey>)| (e.0@, key_views(e.1@)))
}

/// `es` groups `items` by their values of kind `t`: one entry per value
/// that occurs, in increasing order, with the keys of its items.
pub open spec fn grouping_of(items: Seq<ZoteroItem>, t: DuplicateType, es: Seq<(Seq<char>, Seq<Seq<char>>)>) -> bool {
    &&& forall|a: int, b: int| 0 <= a < b < es.len() ==> text_lt(es[a].0, es[b].0)
    &&& forall|e: int|
        0 <= e < es.len() ==> (#[trigger] es[e]).1 == members(items, t, es[e].0) && es[e].1.len() > 0
    &&& forall|i: int|
        0 <= i < items.len() && dup_key(t, #[trigger] items[i].data) is Some ==> exists|e: int|
            0 <= e < es.len() && (#[trigger] es[e]).0 == dup_key(t, items[i].data)->0
}

proof fn lemma_members_push(items: Seq<ZoteroItem>, x: ZoteroItem, t: DuplicateType, v: Seq<char>)
    ensures
        members(items.push(x), t, v) == if dup_key(t, x.data) == Some(v) {
            members(items, t, v).push(x.key@)
        } else {
            members(items, t, v)
        },
{
    assert(items.push(x).drop_last() =~= items);
}

proof fn lemma_members_empty_without(items: Seq<ZoteroItem>, t: DuplicateType, v: Seq<char>)
    requires
        forall|i: int| 0 <= i < items.len() ==> dup_key(t, #[trigger] items[i].data) != Some(v),
    ensures
        members(items, t, v).len() == 0,
    decreases items.len(),
{
    if items.len() > 0 {
        assert forall|i: int| 0 <= i < items.drop_last().len() implies dup_key(
            t,
            #[trigger] items.drop_last()[i].data,
        ) != Some(v) by {
            assert(items.drop_last()[i] == items[i]);
        }
        lemma_members_empty_without(items.drop_last(), t, v);
        assert(items.last() == items[items.len() - 1]);
    }
}

/// Groups `items` by their values of kind `t`, in increasing order of value.
fn group_by_key(items: &[ZoteroItem], t: DuplicateType) -> (r: Vec<(String, Vec<ItemKey>)>)
    ensures
        grouping_of(items@, t, entry_views(r@)),
{
    let mut es: Vec<(String, Vec<ItemKey>)> = Vec::new();
    let mut i: usize = 0;
    assert(items@.take(0) =~= Seq::<ZoteroItem>::empty());
    assert(entry_views(es@) =~= Seq::empty());
    while i < items.len()
        invariant
            i <= items@.len(),
            grouping_of(items@.take(i as int), t, entry_views(es@)),
        decreases items@.len() - i,
    {
        let x = &items[i];
        let ghost prev = items@.take(i as int);
        let ghost old_es = entry_views(es@);
        assert(items@.take(i + 1) =~= prev.push(*x));
        match dup_key_exec(t, &x.data) {
            None => {
                proof {
                    assert forall|v: Seq<char>| members(prev.push(*x), t, v) == members(prev, t, v) by {
                        lemma_members_push(prev, *x, t, v);
                    }
                    assert forall|j: int|
                        0 <= j < i + 1 && dup_key(t, #[trigger] prev.push(*x)[j].data) is Some implies exists|e: int|
                        0 <= e < old_es.len() && (#[trigger] old_es[e]).0 == dup_key(t, prev.push(*x)[j].data)->0 by {
                        assert(j < i);
                        assert(prev.push(*x)[j] == prev[j]);
                    }
                }
            },
            Some(k) => {
                let kc = chars_of(k.as_str());
                let mut e: usize = 0;
                while e < es.len() && text_lt_exec(chars_of(es[e].0.as_str()).as_slice(), kc.as_slice())
                    invariant
                        e <= es@.len(),
                        kc@ == k@,
                        entry_views(es@) == old_es,
                        forall|a: int| 0 <= a < e ==> text_lt(#[trigger] old_es[a].0, k@),
                    decreases es@.len() - e,
                {
                    e = e + 1;
                }
                let found = e < es.len() && crate::text::str_eq(es[e].0.as_str(), k.as_str());
                let key_copy = ItemKey::from_str(x.key.as_str());
                if found {
                    let ghost old_vec = es@[e as int].1@;
                    let mut entry = es.remove(e);
                    entry.1.push(key_copy);
                    es.insert(e, entry);
                    proof {
                        let new_es = entry_views(es@);
                        assert(key_views(es@[e as int].1@) =~= key_views(old_vec).push(x.key@));
                        assert forall|j: int| 0 <= j < new_es.len() && j != e implies new_es[j] == old_es[j] by {
                        }
                        assert(new_es.len() == old_es.len());
                        assert forall|f: int|
                            0 <= f < new_es.len() implies (#[trigger] new_es[f]).1 == members(
                            prev.push(*x),
                            t,
                            new_es[f].0,
                        ) && new_es[f].1.len() > 0 by {
                            lemma_members_push(prev, *x, t, new_es[f].0);
                            if f != e {
                                assert(new_es[f] == old_es[f]);
                                if new_es[f].0 == k@ {
                                    assert(old_es[f].0 == old_es[e as int].0);
                                    if f < e {
                                        assert(text_lt(old_es[f].0, old_es[e as int].0));
                                    } else {
                                        assert(text_lt(old_es[e as int].0, old_es[f].0));
                                    }
                                    lemma_text_lt_asym(old_es[f].0, old_es[f].0);
                                }
                            }
                        }
                        assert forall|j: int|
                            0 <= j < i + 1 && dup_key(t, #[trigger] prev.push(*x)[j].data) is Some implies exists|g: int|
                            0 <= g < new_es.len() && (#[trigger] new_es[g]).0 == dup_key(t, prev.push(*x)[j].data)->0 by {
                            let v = dup_key(t, prev.push(*x)[j].data)->0;
                            if j < i {
                                assert(prev.push(*x)[j] == prev[j]);
                                let g = choose|g: int| 0 <= g < old_es.len() && (#[trigger] old_es[g]).0 == v;
                                assert(new_es[g].0 == old_es[g].0);
                            } else {
                                assert(new_es[e as int].0 == v);
                            }
                        }
                    }
                } else {
                    let mut keys: Vec<ItemKey> = Vec::new();
                    keys.push(key_copy);
                    es.insert(e, (k, keys));
                    proof {
                        let new_es = entry_views(es@);
                        assert(new_es.len() == old_es.len() + 1);
                        assert(key_views(es@[e as int].1@) =~= seq![x.key@]);
                        assert forall|j: int| 0 <= j < e implies new_es[j] == old_es[j] by {}
                        assert forall|j: int| e < j < new_es.len() implies new_es[j] == old_es[j - 1] by {}
                        // the new value sorts before every later entry
                        if e < old_es.len() {
                            assert(!text_lt(old_es[e as int].0, k@));
                            assert(old_es[e as int].0 != k@);
                            lemma_text_lt_total(old_es[e as int].0, k@);
                        }
                        assert forall|a: int, b: int| 0 <= a < b < new_es.len() implies text_lt(
                            new_es[a].0,
                            new_es[b].0,
                        ) by {
                            if b == e {
                            } else if a == e {
                                if b - 1 > e {
                                    lemma_text_lt_trans(k@, old_es[e as int].0, old_es[b - 1].0);
                                }
                            } else if a < e && b > e {
                                assert(new_es[b] == old_es[b - 1]);
                            } else if a > e {
                                assert(new_es[a] == old_es[a - 1]);
                            }
                        }
                        // the value did not occur before
                        assert forall|j: int| 0 <= j < prev.len() implies dup_key(t, #[trigger] prev[j].data) != Some(k@) by {
                            if dup_key(t, prev[j].data) == Some(k@) {
                                let g = choose|g: int| 0 <= g < old_es.len() && (#[trigger] old_es[g]).0 == k@;
                                if g < e {
                                    lemma_text_lt_asym(k@, k@);
                                } else if g > e {
                                    lemma_text_lt_trans(k@, old_es[e as int].0, old_es[g].0);
                                    lemma_text_lt_asym(k@, k@);
                                }
                            }
                        }
                        lemma_members_empty_without(prev, t, k@);
                        assert forall|f: int|
                            0 <= f < new_es.len() implies (#[trigger] new_es[f]).1 == members(
                            prev.push(*x),
                            t,
                            new_es[f].0,
                        ) && new_es[f].1.len() > 0 by {
                            lemma_members_push(prev, *x, t, new_es[f].0);
                            if f == e {
                                assert(members(prev, t, k@) =~= Seq::empty());
                            } else {
                                let g = if f < e { f } else { f - 1 };
                                assert(new_es[f] == old_es[g]);
                                if old_es[g].0 == k@ {
                                    if g < e {
                                        lemma_text_lt_asym(k@, k@);
                                    } else {
                                        if g > e {
                                            lemma_text_lt_trans(k@, old_es[e as int].0, old_es[g].0);
                                        }
                                        lemma_text_lt_asym(k@, k@);
                                    }
                                }
                            }
                        }
                        assert forall|j: int|
                            0 <= j < i + 1 && dup_key(t, #[trigger] prev.push(*x)[j].data) is Some implies exists|g: int|
                            0 <= g < new_es.len() && (#[trigger] new_es[g]).0 == dup_key(t, prev.push(*x)[j].data)->0 by {
                            let v = dup_key(t, prev.push(*x)[j].data)->0;
                            if j < i {
                                assert(prev.push(*x)[j] == prev[j]);
                                let g = choose|g: int| 0 <= g < old_es.len() && (#[trigger] old_es[g]).0 == v;
                                if g < e {
                                    assert(new_es[g].0 == v);
                                } else {
                                    assert(new_es[g + 1].0 == v);
                                }
                            } else {
                                assert(new_es[e as int].0 == v);
                            }
                        }
                    }
                }
            },
        }
        i = i + 1;
    }
    assert(items@.take(items@.len() as int) =~= items@);
    es
}

/// A duplicate group as a value and the keys of its items.
pub open spec fn group_view(g: DuplicateGroup) -> (Seq<char>, Seq<Seq<char>>) {
    (g.match_value@, key_views(g.item_keys@))
}

/// An entry shared by two items or more.
pub open spec fn shared() -> spec_fn((Seq<char>, Seq<Seq<char>>)) -> bool {
    |en: (Seq<char>, Seq<Seq<char>>)| en.1.len() > 1
}

proof fn lemma_filter_in<A>(s: Seq<A>, pred: spec_fn(A) -> bool)
    ensures
        forall|i: int| 0 <= i < s.filter(pred).len() ==> s.contains(#[trigger] s.filter(pred)[i]),
    decreases s.len(),
{
    reveal(Seq::filter);
    if s.len() > 0 {
        let p = s.drop_last();
        lemma_filter_in(p, pred);
        assert forall|i: int| 0 <= i < s.filter(pred).len() implies s.contains(#[trigger] s.filter(pred)[i]) by {
            let f = s.filter(pred);
            if i < p.filter(pred).len() {
                assert(f[i] == p.filter(pred)[i]);
                let j = choose|j: int| 0 <= j < p.len() && p[j] == p.filter(pred)[i];
                assert(s[j] == p[j]);
            } else {
                assert(f[i] == s.last());
                assert(s[s.len() - 1] == s.last());
            }
        }
    }
}

proof fn lemma_filter_sorted(ev: Seq<(Seq<char>, Seq<Seq<char>>)>)
    requires
        forall|a: int, b: int| 0 <= a < b < ev.len() ==> text_lt(ev[a].0, ev[b].0),
    ensures
        forall|a: int, b: int|
            0 <= a < b < ev.filter(shared()).len() ==> text_lt(ev.filter(shared())[a].0, ev.filter(shared())[b].0),
    decreases ev.len(),
{
    reveal(Seq::filter);
    if ev.len() > 0 {
        let p = ev.drop_last();
        assert forall|a: int, b: int| 0 <= a < b < p.len() implies text_lt(p[a].0, p[b].0) by {
            assert(p[a] == ev[a] && p[b] == ev[b]);
        }
        lemma_filter_sorted(p);
        let fp = p.filter(shared());
        lemma_filter_in(p, shared());
        if shared()(ev.last()) {
            let f = fp.push(ev.last());
            assert(ev.filter(shared()) == f);
            assert forall|a: int, b: int| 0 <= a < b < f.len() implies text_lt(f[a].0, f[b].0) by {
                if b == f.len() - 1 {
                    assert(p.contains(fp[a]));
                    let j = choose|j: int| 0 <= j < p.len() && p[j] == fp[a];
                    assert(ev[j] == p[j]);
                    assert(ev.last() == ev[ev.len() - 1]);
                } else {
                    assert(f[a] == fp[a] && f[b] == fp[b]);
                }
            }
        }
    }
}

proof fn lemma_groups_from_entries(items: Seq<ZoteroItem>, t: DuplicateType, ev: Seq<(Seq<char>, Seq<Seq<char>>)>, out: Seq<DuplicateGroup>)
    requires
        grouping_of(items, t, ev),
        out.map_values(|g: DuplicateGroup| group_view(g)) == ev.filter(shared()),
        forall|g: int| 0 <= g < out.len() ==> (#[trigger] out[g]).match_type == t,
    ensures
        duplicate_groups_of(items, t, out),
{
    let f = ev.filter(shared());
    ev.filter_lemma(shared());
    lemma_filter_in(ev, shared());
    lemma_filter_sorted(ev);
    assert forall|g: int| 0 <= g < out.len() implies group_view(#[trigger] out[g]) == f[g] by {
        assert(out.map_values(|g: DuplicateGroup| group_view(g))[g] == group_view(out[g]));
    }
    assert(out.len() == f.len()) by {
        assert(out.map_values(|g: DuplicateGroup| group_view(g)).len() == out.len());
    }
    assert forall|a: int, b: int| 0 <= a < b < out.len() implies text_lt(out[a].match_value@, out[b].match_value@) by {
        assert(group_view(out[a]) == f[a] && group_view(out[b]) == f[b]);
        assert(text_lt(f[a].0, f[b].0));
    }
    assert forall|g: int|
        0 <= g < out.len() implies key_views((#[trigger] out[g]).item_keys@) == members(
        items,
        t,
        out[g].match_value@,
    ) && members(items, t, out[g].match_value@).len() > 1 by {
        assert(group_view(out[g]) == f[g]);
        assert(ev.contains(f[g]));
        let j = choose|j: int| 0 <= j < ev.len() && ev[j] == f[g];
        assert(ev[j].1 == members(items, t, ev[j].0));
        assert(shared()(f[g]));
    }
    assert forall|i: int|
        0 <= i < items.len() && dup_key(t, #[trigger] items[i].data) is Some && members(
            items,
            t,
            dup_key(t, items[i].data)->0,
        ).len() > 1 implies exists|g: int|
        0 <= g < out.len() && (#[trigger] out[g]).match_value@ == dup_key(t, items[i].data)->0 by {
        let v = dup_key(t, items[i].data)->0;
        let e = choose|e: int| 0 <= e < ev.len() && (#[trigger] ev[e]).0 == v;
        assert(ev[e].1 == members(items, t, v));
        assert(shared()(ev[e]));
        assert(f.contains(ev[e]));
        let g = choose|g: int| 0 <= g < f.len() && f[g] == ev[e];
        assert(group_view(out[g]) == f[g]);
    }
}

/// The duplicate groups of kind `t` among `items`.
fn duplicate_groups(items: &[ZoteroItem], t: DuplicateType) -> (r: Vec<DuplicateGroup>)
    ensures
        duplicate_groups_of(items@, t, r@),
{
    let es = group_by_key(items, t);
    let ghost ev = entry_views(es@);
    let mut es = es;
    let ghost src = es@;
    let mut out: Vec<DuplicateGroup> = Vec::new();
    let mut e: usize = 0;
    let n = es.len();
    assert(ev.take(0) =~= Seq::<(Seq<char>, Seq<Seq<char>>)>::empty());
    assert(out@.map_values(|g: DuplicateGroup| group_view(g)) =~= Seq::empty());
    proof {
        reveal(Seq::filter);
    }
    while e < n
        invariant
            n == src.len(),
            e <= n,
            es@ == src.skip(e as int),
            ev == entry_views(src),
            forall|g: int| 0 <= g < out@.len() ==> (#[trigger] out@[g]).match_type == t,
            out@.map_values(|g: DuplicateGroup| group_view(g)) == ev.take(e as int).filter(shared()),
        decreases n - e,
    {
        let entry = es.remove(0);
        assert(entry == src[e as int]);
        assert(es@ == src.skip(e + 1));
        let (value, keys) = entry;
        proof {
            reveal(Seq::filter);
            assert(ev[e as int] == (value@, key_views(keys@)));
            assert(ev.take(e + 1).drop_last() =~= ev.take(e as int));
            assert(ev.take(e + 1).last() == ev[e as int]);
        }
        let ghost before = out@;
        if keys.len() > 1 {
            out.push(DuplicateGroup { match_type: t, match_value: value, item_keys: keys });
            assert(out@.map_values(|g: DuplicateGroup| group_view(g)) =~= before.map_values(
                |g: DuplicateGroup| group_view(g),
            ).push(ev[e as int]));
        }
        e = e + 1;
    }
    assert(ev.take(n as int) =~= ev);
    proof {
        lemma_groups_from_entries(items@, t, ev, out@);
    }
    out
}

/// The duplicate groups of `items`: first those of equal DOIs, then those
/// of equal titles.
pub fn find_duplicate_groups(items: &[ZoteroItem]) -> (r: Vec<DuplicateGroup>)
    ensures
        exists|k: int|
            0 <= k <= r@.len() && duplicate_groups_of(items@, DuplicateType::Doi, r@.take(k))
                && duplicate_groups_of(items@, DuplicateType::Title, r@.skip(k)),
{
    let mut out = duplicate_groups(items, DuplicateType::Doi);
    let k = out.len();
    let mut titles = duplicate_groups(items, DuplicateType::Title);
    let ghost d = out@;
    let ghost tt = titles@;
    out.append(&mut titles);
    assert(out@.take(k as int) =~= d);
    assert(out@.skip(k as int) =~= tt);
    out
}

} // verus!
