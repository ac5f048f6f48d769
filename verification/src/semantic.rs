//! Decisions of the semantic index: where its files live, which items it
//! scans, what text an item contributes and how it is cut, which entries
//! are stale, and how a run is counted.
use vstd::prelude::*;
use crate::chunking::{chunk_text, chunks_of};
use crate::errors::ZoteroApiError;
use crate::analysis::key_views;
use crate::keys::ItemKey;
use crate::objects::{ZoteroItem, ZoteroItemData};
use crate::paths::{join_path, parent, path_join, path_parent, Platform};
use crate::text::{chars_of, join, join_strings, str_eq, string_of, trim, trim_exec, views};

verus! {

/// The most characters of assembled text indexed per item.
pub const MAX_INDEXABLE_CHARS: usize = 400000;

/// The most characters of a chunk.
pub const MAX_CHUNK_CHARS: usize = 6000;

/// The message of a missing data directory.
pub open spec fn no_data_dir_message() -> Seq<char> {
    "Could not determine a data directory for the semantic search index; set ZOTERO_SEMANTIC_DB_PATH"@
}

/// The index file: the path given, or `embeddings.sqlite` in the data
/// directory; without either, the error that no data directory is known.
pub fn resolve_db_path(override_path: Option<&str>, data_dir: Option<&str>) -> (r: Result<String, ZoteroApiError>)
    ensures
        match override_path {
            Some(p) => r matches Ok(s) && s@ == p@,
            None => match data_dir {
                Some(d) => r matches Ok(s) && s@ == path_join(d@, "embeddings.sqlite"@),
                None => r matches Err(ZoteroApiError::LocalDb(m)) && m@ == no_data_dir_message(),
            },
        },
{
    if let Some(p) = override_path {
        return Ok(p.to_owned());
    }
    match data_dir {
        Some(d) => Ok(join_path(d, "embeddings.sqlite")),
        None => Err(
            ZoteroApiError::LocalDb(
                "Could not determine a data directory for the semantic search index; set ZOTERO_SEMANTIC_DB_PATH".to_owned(),
            ),
        ),
    }
}

/// The model cache: `models` beside the index file, or `models` where the
/// index path has no parent.
pub fn resolve_model_cache_dir(db_path: &str) -> (r: String)
    ensures
        r@ == match parent(db_path@) {
            Some(q) => path_join(q, "models"@),
            None => "models"@,
        },
{
    match path_parent(db_path) {
        Some(q) => join_path(q.as_str(), "models"),
        None => "models".to_owned(),
    }
}

/// The per-user data directory of the server: under `APPDATA` where it is
/// set; else under `HOME`, in `Library/Application Support` on macOS and
/// `.local/share` on Linux; else none.
pub open spec fn data_dir_spec(appdata: Option<Seq<char>>, home: Option<Seq<char>>, platform: Platform) -> Option<
    Seq<char>,
> {
    match appdata {
        Some(a) => Some(path_join(a, "zotero-mcp-rs"@)),
        None => match (home, platform) {
            (Some(h), Platform::MacOs) => Some(
                path_join(
                    path_join(path_join(h, "Library"@), "Application Support"@),
                    "zotero-mcp-rs"@,
                ),
            ),
            (Some(h), Platform::Linux) => Some(
                path_join(path_join(path_join(h, ".local"@), "share"@), "zotero-mcp-rs"@),
            ),
            _ => None,
        },
    }
}

/// The per-user data directory of the server, from the values of `APPDATA`
/// and `HOME` and the platform.
pub fn default_data_dir(appdata: Option<&str>, home: Option<&str>, platform: Platform) -> (r: Option<String>)
    ensures
        match data_dir_spec(
            match appdata {
                Some(a) => Some(a@),
                None => None,
            },
            match home {
                Some(h) => Some(h@),
                None => None,
            },
            platform,
        ) {
            Some(d) => r matches Some(s) && s@ == d,
            None => r is None,
        },
{
    if let Some(a) = appdata {
        return Some(join_path(a, "zotero-mcp-rs"));
    }
    match (home, platform) {
        (Some(h), Platform::MacOs) => {
            let l = join_path(h, "Library");
            let s = join_path(l.as_str(), "Application Support");
            Some(join_path(s.as_str(), "zotero-mcp-rs"))
        },
        (Some(h), Platform::Linux) => {
            let l = join_path(h, ".local");
            let s = join_path(l.as_str(), "share");
            Some(join_path(s.as_str(), "zotero-mcp-rs"))
        },
        _ => None,
    }
}

/// The counts of an indexing run.
#[derive(Clone, Copy, Debug, PartialEq, Eq)]
pub struct IndexReport {
    /// Items considered by the scan.
    pub items_scanned: usize,
    /// Items indexed anew or again.
    pub items_indexed: usize,
    /// Items skipped because their modification date was unchanged.
    pub items_skipped_unchanged: usize,
    /// Items skipped for want of text.
    pub items_skipped_empty: usize,
    /// Stale items removed from the index.
    pub items_deleted: usize,
    /// Chunks written.
    pub chunks_written: usize,
}

impl Default for IndexReport {
    fn default() -> (r: Self)
        ensures
            r == IndexReport::zero(),
    {
        IndexReport {
            items_scanned: 0,
            items_indexed: 0,
            items_skipped_unchanged: 0,
            items_skipped_empty: 0,
            items_deleted: 0,
            chunks_written: 0,
        }
    }
}

/// What became of one scanned item.
#[derive(Copy, Clone, Debug, PartialEq, Eq)]
pub enum IndexOutcome {
    Indexed,
    SkippedUnchanged,
    SkippedEmpty,
}

/// `x + n`, held at `usize::MAX`.
pub open spec fn sat_add(x: usize, n: usize) -> usize {
    if x + n > usize::MAX {
        usize::MAX
    } else {
        (x + n) as usize
    }
}

impl IndexReport {
    /// The report of a run that has done nothing.
    pub open spec fn zero() -> IndexReport {
        IndexReport {
            items_scanned: 0,
            items_indexed: 0,
            items_skipped_unchanged: 0,
            items_skipped_empty: 0,
            items_deleted: 0,
            chunks_written: 0,
        }
    }

    /// The report after one more scanned item.
    pub open spec fn after_scan(self) -> IndexReport {
        IndexReport { items_scanned: sat_add(self.items_scanned, 1), ..self }
    }

    /// The report after the outcome of one item: exactly one counter moves.
    pub open spec fn after_outcome(self, outcome: IndexOutcome) -> IndexReport {
        match outcome {
            IndexOutcome::Indexed => IndexReport { items_indexed: sat_add(self.items_indexed, 1), ..self },
            IndexOutcome::SkippedUnchanged => IndexReport {
                items_skipped_unchanged: sat_add(self.items_skipped_unchanged, 1),
                ..self
            },
            IndexOutcome::SkippedEmpty => IndexReport {
                items_skipped_empty: sat_add(self.items_skipped_empty, 1),
                ..self
            },
        }
    }

    /// Counts one more scanned item.
    pub fn count_scanned(&mut self)
        ensures
            *final(self) == old(self).after_scan(),
    {
        self.items_scanned = self.items_scanned.saturating_add(1);
    }

    /// Counts the outcome of one item.
    pub fn count_outcome(&mut self, outcome: IndexOutcome)
        ensures
            *final(self) == old(self).after_outcome(outcome),
    {
        match outcome {
            IndexOutcome::Indexed => {
                self.items_indexed = self.items_indexed.saturating_add(1);
            },
            IndexOutcome::SkippedUnchanged => {
                self.items_skipped_unchanged = self.items_skipped_unchanged.saturating_add(1);
            },
            IndexOutcome::SkippedEmpty => {
                self.items_skipped_empty = self.items_skipped_empty.saturating_add(1);
            },
        }
    }

    /// Counts `n` written chunks.
    pub fn count_chunks(&mut self, n: usize)
        ensures
            *final(self) == (IndexReport { chunks_written: sat_add(old(self).chunks_written, n), ..*old(self) }),
    {
        self.chunks_written = self.chunks_written.saturating_add(n);
    }

    /// Counts one more deleted item.
    pub fn count_deleted(&mut self)
        ensures
            *final(self) == (IndexReport { items_deleted: sat_add(old(self).items_deleted, 1), ..*old(self) }),
    {
        self.items_deleted = self.items_deleted.saturating_add(1);
    }
}

/// The scan takes an item that is not in the trash and whose type carries
/// text of its own.
pub open spec fn scanned(item: ZoteroItemData) -> bool {
    !item.deleted && item.item_type.indexable()
}

/// Whether the scan takes an item.
pub fn is_scanned(item: &ZoteroItemData) -> (b: bool)
    ensures
        b == scanned(*item),
{
    !item.deleted && item.item_type.is_indexable()
}

/// An item is unchanged when the index holds a modification date for it
/// and that date is the item's.
pub fn is_unchanged(stored: Option<&str>, current: Option<&str>) -> (b: bool)
    ensures
        b == (stored matches Some(s) && current matches Some(c) && s@ == c@),
{
    match (stored, current) {
        (Some(s), Some(c)) => str_eq(s, c),
        _ => false,
    }
}

/// The outcome of an item when the run is not forced and it is unchanged,
/// if that is so; `None` when the item must be prepared.
pub fn unchanged_outcome(force: bool, unchanged: bool) -> (r: Option<IndexOutcome>)
    ensures
        r == if !force && unchanged {
            Some(IndexOutcome::SkippedUnchanged)
        } else {
            None
        },
{
    if !force && unchanged {
        Some(IndexOutcome::SkippedUnchanged)
    } else {
        None
    }
}

/// A text is blank when nothing but whitespace is left after trimming.
pub open spec fn blank(s: Seq<char>) -> bool {
    trim(s).len() == 0
}

/// Whether a text is blank.
pub fn is_blank(s: &str) -> (b: bool)
    ensures
        b == blank(s@),
{
    let cs = chars_of(s);
    trim_exec(cs.as_slice()).len() == 0
}

/// The keys of the children whose full text may be indexed with an item:
/// those of an indexable type, in order.
pub open spec fn candidate_keys(children: Seq<ZoteroItem>) -> Seq<Seq<char>> {
    children.filter(|c: ZoteroItem| c.data.item_type.indexable()).map_values(|c: ZoteroItem| c.key@)
}

/// The children whose full text may be indexed with an item, in order.
pub fn fulltext_candidates(children: &[ZoteroItem]) -> (r: Vec<ItemKey>)
    ensures
        key_views(r@) == candidate_keys(children@),
{
    let ghost pred = |c: ZoteroItem| c.data.item_type.indexable();
    let ghost f = |c: ZoteroItem| c.key@;
    let mut out: Vec<ItemKey> = Vec::new();
    let mut i: usize = 0;
    assert(children@.take(0).filter(pred) =~= Seq::<ZoteroItem>::empty());
    assert(key_views(out@) =~= Seq::<Seq<char>>::empty());
    while i < children.len()
        invariant
            i <= children@.len(),
            pred == (|c: ZoteroItem| c.data.item_type.indexable()),
            f == (|c: ZoteroItem| c.key@),
            key_views(out@) == children@.take(i as int).filter(pred).map_values(f),
        decreases children@.len() - i,
    {
        proof {
            reveal(Seq::filter);
            assert(children@.take(i + 1).drop_last() =~= children@.take(i as int));
            assert(children@.take(i + 1).last() == children@[i as int]);
        }
        if children[i].data.item_type.is_indexable() {
            let ghost before = out@;
            out.push(ItemKey::new(children[i].key.as_str().to_owned()));
            assert(key_views(out@) =~= key_views(before).push(children@[i as int].key@));
            assert(children@.take(i + 1).filter(pred) == children@.take(i as int).filter(pred).push(children@[i as int]));
            assert(children@.take(i + 1).filter(pred).map_values(f) =~= children@.take(i as int).filter(pred).map_values(
                f,
            ).push(f(children@[i as int])));
        } else {
            assert(children@.take(i + 1).filter(pred) == children@.take(i as int).filter(pred));
        }
        i = i + 1;
    }
    assert(children@.take(children@.len() as int) =~= children@);
    out
}

/// The first fetched text that is not blank; a fetch that failed counts as
/// no text.
pub open spec fn first_nonblank(texts: Seq<Option<String>>) -> Option<Seq<char>>
    decreases texts.len(),
{
    if texts.len() == 0 {
        None
    } else {
        match texts[0] {
            Some(t) => if !blank(t@) {
                Some(t@)
            } else {
                first_nonblank(texts.drop_first())
            },
            None => first_nonblank(texts.drop_first()),
        }
    }
}

/// The full text indexed with an item: the first of the texts fetched for
/// its candidates, in their order, that is not blank.
pub fn first_fulltext(texts: Vec<Option<String>>) -> (r: Option<String>)
    ensures
        opt_seq(r) == first_nonblank(texts@),
{
    let ghost all = texts@;
    let mut i: usize = 0;
    assert(all.skip(0) =~= all);
    while i < texts.len()
        invariant
            i <= texts@.len(),
            all == texts@,
            first_nonblank(all) == first_nonblank(all.skip(i as int)),
        decreases texts@.len() - i,
    {
        assert(all.skip(i as int)[0] == all[i as int]);
        assert(all.skip(i as int).drop_first() =~= all.skip(i + 1));
        match &texts[i] {
            Some(t) => {
                if !is_blank(t.as_str()) {
                    return Some(t.clone());
                }
            },
            None => {},
        }
        i = i + 1;
    }
    None
}

/// The parts of an item's text: its title and abstract where they are not
/// blank, then the full text of an attachment where one was found.
pub open spec fn text_parts(title: Option<Seq<char>>, abstract_note: Option<Seq<char>>, fulltext: Option<Seq<char>>) -> Seq<
    Seq<char>,
> {
    (match title {
        Some(t) => if blank(t) {
            Seq::empty()
        } else {
            seq![t]
        },
        None => Seq::empty(),
    }) + (match abstract_note {
        Some(a) => if blank(a) {
            Seq::empty()
        } else {
            seq![a]
        },
        None => Seq::empty(),
    }) + (match fulltext {
        Some(f) => seq![f],
        None => Seq::empty(),
    })
}

/// The view of an optional string.
pub open spec fn opt_seq(o: Option<String>) -> Option<Seq<char>> {
    match o {
        Some(s) => Some(s@),
        None => None,
    }
}

/// The text indexed for an item: the parts joined by blank lines. The full
/// text is that of the first indexable child whose text is not blank.
pub fn assemble_item_text(item: &ZoteroItemData, fulltext: Option<String>) -> (r: String)
    ensures
        r@ == join(text_parts(opt_seq(item.title), opt_seq(item.abstract_note), opt_seq(fulltext)), "\n\n"@),
{
    let mut parts: Vec<String> = Vec::new();
    if let Some(t) = &item.title {
        if !is_blank(t.as_str()) {
            parts.push(t.clone());
        }
    }
    if let Some(a) = &item.abstract_note {
        if !is_blank(a.as_str()) {
            parts.push(a.clone());
        }
    }
    if let Some(f) = fulltext {
        parts.push(f);
    }
    assert(views(parts@) =~= text_parts(opt_seq(item.title), opt_seq(item.abstract_note), opt_seq(fulltext)));
    join_strings(parts.as_slice(), "\n\n")
}

/// A text taken at most to the indexable length.
pub open spec fn capped(s: Seq<char>) -> Seq<char> {
    if s.len() > MAX_INDEXABLE_CHARS {
        s.take(MAX_INDEXABLE_CHARS as int)
    } else {
        s
    }
}

/// The chunks of an item's text, after capping it, or `None` when the text
/// is blank or yields no chunk (the item is then skipped as empty).
pub open spec fn item_chunks(text: Seq<char>) -> Option<Seq<Seq<char>>> {
    let t = capped(text);
    if blank(t) {
        None
    } else if chunks_of(t, MAX_CHUNK_CHARS as nat).len() == 0 {
        None
    } else {
        Some(chunks_of(t, MAX_CHUNK_CHARS as nat))
    }
}

/// The chunks to embed for an item's text, `None` where the item is skipped
/// as empty.
pub fn prepare_chunks(text: &str) -> (r: Option<Vec<String>>)
    ensures
        match item_chunks(text@) {
            Some(cs) => r matches Some(v) && views(v@) == cs,
            None => r is None,
        },
{
    let cs = chars_of(text);
    let t = if cs.len() > MAX_INDEXABLE_CHARS {
        let mut taken: Vec<char> = Vec::new();
        let mut i: usize = 0;
        while i < MAX_INDEXABLE_CHARS
            invariant
                i <= MAX_INDEXABLE_CHARS,
                MAX_INDEXABLE_CHARS < cs@.len(),
                taken@ == cs@.take(i as int),
            decreases MAX_INDEXABLE_CHARS - i,
        {
            taken.push(cs[i]);
            i = i + 1;
            assert(taken@ =~= cs@.take(i as int));
        }
        string_of(taken.as_slice())
    } else {
        text.to_owned()
    };
    assert(t@ == capped(text@));
    if is_blank(t.as_str()) {
        return None;
    }
    let pieces = chunk_text(t.as_str(), MAX_CHUNK_CHARS);
    if pieces.len() == 0 {
        None
    } else {
        Some(pieces)
    }
}

/// The stored position of the chunk at `idx`, held at `i64::MAX`.
pub fn chunk_index(idx: usize) -> (r: i64)
    ensures
        r == if idx <= i64::MAX {
            idx as i64
        } else {
            i64::MAX
        },
{
    if idx as u64 <= 9223372036854775807u64 {
        idx as i64
    } else {
        i64::MAX
    }
}

/// The keys of the index that the library no longer has, in index order.
pub fn stale_keys(indexed: &Vec<String>, current: &Vec<String>) -> (r: Vec<String>)
    ensures
        views(r@) == views(indexed@).filter(|k: Seq<char>| !views(current@).contains(k)),
{
    let ghost src = views(indexed@);
    let ghost cur = views(current@);
    let ghost pred = |k: Seq<char>| !cur.contains(k);
    let mut out: Vec<String> = Vec::new();
    let mut i: usize = 0;
    assert(src.take(0) =~= Seq::<Seq<char>>::empty());
    proof {
        reveal(Seq::filter);
    }
    while i < indexed.len()
        invariant
            i <= indexed@.len(),
            src == views(indexed@),
            cur == views(current@),
            pred == (|k: Seq<char>| !cur.contains(k)),
            views(out@) == src.take(i as int).filter(pred),
        decreases indexed@.len() - i,
    {
        let mut found = false;
        let mut j: usize = 0;
        while j < current.len()
            invariant
                j <= current@.len(),
                i < indexed@.len(),
                cur == views(current@),
                found == (exists|m: int| 0 <= m < j && cur[m] == indexed@[i as int]@),
            decreases current@.len() - j,
        {
            let eq = str_eq(current[j].as_str(), indexed[i].as_str());
            assert(cur[j as int] == current@[j as int]@);
            if eq {
                found = true;
            }
            j = j + 1;
        }
        proof {
            reveal(Seq::filter);
            assert(src.take(i + 1).drop_last() =~= src.take(i as int));
            assert(src.take(i + 1).last() == indexed@[i as int]@);
            if found {
                let m = choose|m: int| 0 <= m < current@.len() && cur[m] == indexed@[i as int]@;
                assert(cur.contains(indexed@[i as int]@));
            } else {
                assert(!cur.contains(indexed@[i as int]@)) by {
                    if cur.contains(indexed@[i as int]@) {
                        let m = choose|m: int| 0 <= m < cur.len() && cur[m] == indexed@[i as int]@;
                        assert(cur[m] == indexed@[i as int]@);
                    }
                }
            }
        }
        if !found {
            let ghost before = views(out@);
            out.push(indexed[i].clone());
            assert(views(out@) =~= before.push(indexed@[i as int]@));
        }
        i = i + 1;
    }
    assert(src.take(indexed@.len() as int) =~= src);
    out
}

/// Each scanned item was counted under exactly one outcome.
pub open spec fn outcomes_balance(r: IndexReport) -> bool {
    r.items_scanned == r.items_indexed + r.items_skipped_unchanged + r.items_skipped_empty
}

/// Scanning an item and counting its outcome keeps every scanned item
/// counted under exactly one outcome, while no counter reaches its limit.
pub proof fn lemma_scan_keeps_outcomes_balanced(r: IndexReport, outcome: IndexOutcome)
    requires
        outcomes_balance(r),
        r.items_scanned < usize::MAX,
    ensures
        outcomes_balance(r.after_scan().after_outcome(outcome)),
{
}

/// The report of a run that has done nothing is balanced.
pub proof fn lemma_empty_report_balanced()
    ensures
        outcomes_balance(IndexReport::zero()),
{
}

} // verus!
