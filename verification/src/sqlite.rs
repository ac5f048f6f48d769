//! Searches of Zotero's local database: the queries they run, how their
//! rows become hits, and the text helpers they rely on (query tokens, note
//! markup, the profile's preference file).
use vstd::prelude::*;
use crate::chunking::{split_acc, vviews};
use crate::keys::ItemKey;
use crate::paths::{join_path, path_join, Platform};
use crate::relations::lemma_push_to_set;
use crate::text::{
    chars_of, contains, contains_exec, is_alphanumeric, push_char, push_str, starts_with, starts_with_exec,
    string_of, to_lowercase, trim, trim_exec, trim_start, unicode_alphanumeric, unicode_lowercase, views,
};

verus! {

/// Rows scanned at most before full-text results are filtered.
pub const FULLTEXT_SCAN_CAP: usize = 2000;

/// Characters of a full-text snippet returned at most.
pub const SNIPPET_CHARS: usize = 400;

/// Whether a note or annotation hit is a note or an annotation.
#[derive(Copy, Clone, Debug, Eq, PartialEq)]
pub enum HitKind {
    Note,
    Annotation,
}

/// A full-text hit: the parent item's metadata and a snippet of the matched
/// indexed words.
#[derive(Clone, Debug)]
pub struct FulltextHit {
    pub key: ItemKey,
    pub item_type: String,
    pub title: Option<String>,
    pub doi: Option<String>,
    /// Creator names, `Last, First` joined by `; `.
    pub creators: String,
    pub snippet: String,
}

/// A note or PDF annotation hit.
#[derive(Clone, Debug)]
pub struct NoteAnnotationHit {
    pub kind: HitKind,
    pub key: ItemKey,
    pub text: Option<String>,
    pub comment: Option<String>,
    pub parent_key: Option<ItemKey>,
    pub parent_title: Option<String>,
    pub page_label: Option<String>,
    pub color: Option<String>,
}

// ---------------------------------------------------------------------------
// Query tokens

/// The non-empty runs of alphanumeric characters of `cur + s`, where `cur`
/// is a run begun before `s`.
pub open spec fn word_runs(s: Seq<char>, cur: Seq<char>) -> Seq<Seq<char>>
    decreases s.len(),
{
    if s.len() == 0 {
        if cur.len() > 0 {
            seq![cur]
        } else {
            Seq::empty()
        }
    } else if !unicode_alphanumeric(s[0]) {
        (if cur.len() > 0 {
            seq![cur]
        } else {
            Seq::empty()
        }) + word_runs(s.drop_first(), Seq::empty())
    } else {
        word_runs(s.drop_first(), cur.push(s[0]))
    }
}

/// The first occurrence of each text of `ps`, in order.
pub open spec fn dedup_first(ps: Seq<Seq<char>>) -> Seq<Seq<char>>
    decreases ps.len(),
{
    if ps.len() == 0 {
        Seq::empty()
    } else {
        let r = dedup_first(ps.drop_last());
        if r.contains(ps.last()) {
            r
        } else {
            r.push(ps.last())
        }
    }
}

/// The tokens of a search query: the lowercase query split at every
/// character that is not alphanumeric, without empty or repeated tokens.
pub open spec fn query_tokens(q: Seq<char>) -> Seq<Seq<char>> {
    dedup_first(word_runs(unicode_lowercase(q), Seq::empty()))
}

/// Every character of `t` is alphanumeric.
pub open spec fn all_alphanumeric(t: Seq<char>) -> bool {
    forall|k: int| 0 <= k < t.len() ==> unicode_alphanumeric(#[trigger] t[k])
}

proof fn lemma_word_runs_shape(s: Seq<char>, cur: Seq<char>)
    requires
        all_alphanumeric(cur),
    ensures
        forall|i: int|
            0 <= i < word_runs(s, cur).len() ==> (#[trigger] word_runs(s, cur)[i]).len() > 0
                && all_alphanumeric(word_runs(s, cur)[i]),
    decreases s.len(),
{
    if s.len() == 0 {
        if cur.len() > 0 {
            assert(word_runs(s, cur) == seq![cur]);
            assert(seq![cur][0] == cur);
        } else {
            assert(word_runs(s, cur).len() == 0);
        }
    } else if !unicode_alphanumeric(s[0]) {
        lemma_word_runs_shape(s.drop_first(), Seq::empty());
        let head: Seq<Seq<char>> = if cur.len() > 0 {
            seq![cur]
        } else {
            Seq::empty()
        };
        let tail = word_runs(s.drop_first(), Seq::empty());
        assert(word_runs(s, cur) == head + tail);
        assert forall|i: int| 0 <= i < (head + tail).len() implies (#[trigger] (head + tail)[i]).len() > 0
            && all_alphanumeric((head + tail)[i]) by {
            if i < head.len() {
                assert((head + tail)[i] == cur);
            } else {
                assert((head + tail)[i] == tail[i - head.len()]);
            }
        }
        assert forall|i: int| 0 <= i < word_runs(s, cur).len() implies (#[trigger] word_runs(s, cur)[i]).len() > 0
            && all_alphanumeric(word_runs(s, cur)[i]) by {
            assert(word_runs(s, cur)[i] == (head + tail)[i]);
        }
    } else {
        let c2 = cur.push(s[0]);
        assert forall|k: int| 0 <= k < c2.len() implies unicode_alphanumeric(#[trigger] c2[k]) by {
            if k < cur.len() {
                assert(c2[k] == cur[k]);
            }
        }
        lemma_word_runs_shape(s.drop_first(), c2);
        assert(word_runs(s, cur) == word_runs(s.drop_first(), c2));
    }
}

proof fn lemma_dedup_first(ps: Seq<Seq<char>>)
    ensures
        forall|i: int, j: int|
            0 <= i < j < dedup_first(ps).len() ==> dedup_first(ps)[i] != dedup_first(ps)[j],
        dedup_first(ps).to_set() == ps.to_set(),
        forall|i: int| 0 <= i < dedup_first(ps).len() ==> ps.contains(#[trigger] dedup_first(ps)[i]),
    decreases ps.len(),
{
    if ps.len() == 0 {
        assert(dedup_first(ps).to_set() =~= ps.to_set());
    } else {
        let p = ps.drop_last();
        let x = ps.last();
        lemma_dedup_first(p);
        let r = dedup_first(p);
        assert(ps == p.push(x));
        lemma_push_to_set(p, x);
        assert forall|i: int| 0 <= i < r.len() implies ps.contains(#[trigger] r[i]) by {
            assert(p.contains(r[i]));
            let k = choose|k: int| 0 <= k < p.len() && p[k] == r[i];
            assert(ps[k] == r[i]);
        }
        if r.contains(x) {
            let k = choose|k: int| 0 <= k < r.len() && r[k] == x;
            assert(r.to_set().contains(x));
            assert(p.to_set().insert(x) =~= p.to_set());
        } else {
            lemma_push_to_set(r, x);
            let d = r.push(x);
            assert forall|i: int, j: int| 0 <= i < j < d.len() implies d[i] != d[j] by {
                if j == r.len() {
                    assert(d[i] == r[i]);
                    assert(r.contains(r[i]));
                } else {
                    assert(d[i] == r[i] && d[j] == r[j]);
                }
            }
            assert forall|i: int| 0 <= i < d.len() implies ps.contains(#[trigger] d[i]) by {
                if i == r.len() {
                    assert(ps[ps.len() - 1] == x);
                } else {
                    assert(d[i] == r[i]);
                }
            }
        }
    }
}

/// The tokens of a query are non-empty runs of alphanumeric characters,
/// none of them repeated, and as a set they are the word runs of the
/// lowercase query.
pub proof fn lemma_query_tokens_shape(q: Seq<char>)
    ensures
        forall|i: int, j: int|
            0 <= i < j < query_tokens(q).len() ==> query_tokens(q)[i] != query_tokens(q)[j],
        forall|i: int|
            0 <= i < query_tokens(q).len() ==> (#[trigger] query_tokens(q)[i]).len() > 0 && all_alphanumeric(
                query_tokens(q)[i],
            ),
        query_tokens(q).to_set() == word_runs(unicode_lowercase(q), Seq::empty()).to_set(),
{
    let runs = word_runs(unicode_lowercase(q), Seq::empty());
    lemma_word_runs_shape(unicode_lowercase(q), Seq::empty());
    lemma_dedup_first(runs);
    let t = query_tokens(q);
    assert forall|i: int| 0 <= i < t.len() implies (#[trigger] t[i]).len() > 0 && all_alphanumeric(t[i]) by {
        assert(runs.contains(t[i]));
        let k = choose|k: int| 0 <= k < runs.len() && runs[k] == t[i];
        assert(runs[k].len() > 0 && all_alphanumeric(runs[k]));
    }
}

fn word_runs_exec(s: &[char]) -> (r: Vec<Vec<char>>)
    ensures
        vviews(r@) == word_runs(s@, Seq::empty()),
{
    let mut out: Vec<Vec<char>> = Vec::new();
    let mut cur: Vec<char> = Vec::new();
    let mut i: usize = 0;
    assert(s@.skip(0) == s@);
    assert(vviews(out@) =~= Seq::<Seq<char>>::empty());
    while i < s.len()
        invariant
            i <= s@.len(),
            vviews(out@) + word_runs(s@.skip(i as int), cur@) == word_runs(s@, Seq::empty()),
        decreases s@.len() - i,
    {
        let ghost rest = s@.skip(i as int);
        assert(rest[0] == s@[i as int]);
        assert(rest.drop_first() == s@.skip(i + 1));
        let ghost before = vviews(out@);
        if !is_alphanumeric(s[i]) {
            if cur.len() > 0 {
                let piece = cur;
                out.push(piece);
                assert(vviews(out@) == before.push(piece@));
                assert(before + (seq![piece@] + word_runs(s@.skip(i + 1), Seq::empty())) == before.push(
                    piece@,
                ) + word_runs(s@.skip(i + 1), Seq::empty()));
            } else {
                assert(Seq::<Seq<char>>::empty() + word_runs(s@.skip(i + 1), Seq::empty()) == word_runs(
                    s@.skip(i + 1),
                    Seq::empty(),
                ));
            }
            cur = Vec::new();
            assert(cur@ == Seq::<char>::empty());
        } else {
            cur.push(s[i]);
        }
        i = i + 1;
    }
    assert(s@.skip(i as int).len() == 0);
    if cur.len() > 0 {
        let ghost before = vviews(out@);
        out.push(cur);
        assert(vviews(out@) == before.push(out@.last()@));
        assert(before + seq![out@.last()@] == before.push(out@.last()@));
    } else {
        assert(vviews(out@) + Seq::<Seq<char>>::empty() == vviews(out@));
    }
    out
}

fn seen_before(seen: &Vec<String>, t: &[char]) -> (b: bool)
    ensures
        b == views(seen@).contains(t@),
{
    let mut i: usize = 0;
    while i < seen.len()
        invariant
            i <= seen@.len(),
            forall|j: int| 0 <= j < i ==> seen@[j]@ != t@,
        decreases seen@.len() - i,
    {
        let c = chars_of(seen[i].as_str());
        if crate::text::chars_eq(c.as_slice(), t) {
            assert(views(seen@)[i as int] == t@);
            return true;
        }
        i = i + 1;
    }
    assert forall|j: int| 0 <= j < views(seen@).len() implies views(seen@)[j] != t@ by {
        assert(views(seen@)[j] == seen@[j]@);
    }
    false
}

/// The tokens of a search query: lowercase, split at every character that
/// is not alphanumeric, without empty or repeated tokens.
pub fn tokenize_query(query: &str) -> (r: Vec<String>)
    ensures
        views(r@) == query_tokens(query@),
{
    let lower = to_lowercase(query);
    let cs = chars_of(lower.as_str());
    let runs = word_runs_exec(cs.as_slice());
    let ghost rv = vviews(runs@);
    let mut out: Vec<String> = Vec::new();
    let mut i: usize = 0;
    assert(rv.take(0) =~= Seq::<Seq<char>>::empty());
    assert(views(out@) =~= Seq::<Seq<char>>::empty());
    while i < runs.len()
        invariant
            i <= runs@.len(),
            rv == vviews(runs@),
            views(out@) == dedup_first(rv.take(i as int)),
        decreases runs@.len() - i,
    {
        assert(rv.take(i + 1).drop_last() =~= rv.take(i as int));
        assert(rv.take(i + 1).last() == runs@[i as int]@);
        if !seen_before(&out, runs[i].as_slice()) {
            let ghost before = views(out@);
            out.push(string_of(runs[i].as_slice()));
            assert(views(out@) =~= before.push(runs@[i as int]@));
        }
        i = i + 1;
    }
    assert(rv.take(runs@.len() as int) =~= rv);
    out
}

// ---------------------------------------------------------------------------
// Note markup

/// The text of `s` outside markup tags, where `in_tag` says whether `s`
/// starts inside a tag: `<` opens a tag, `>` closes one, and neither is
/// kept.
pub open spec fn strip_tags(s: Seq<char>, in_tag: bool) -> Seq<char>
    decreases s.len(),
{
    if s.len() == 0 {
        Seq::empty()
    } else if s[0] == '<' {
        strip_tags(s.drop_first(), true)
    } else if s[0] == '>' {
        strip_tags(s.drop_first(), false)
    } else if !in_tag {
        seq![s[0]] + strip_tags(s.drop_first(), in_tag)
    } else {
        strip_tags(s.drop_first(), in_tag)
    }
}

/// Text outside a tag that holds no `<` or `>` is kept as it is, before
/// whatever follows it is stripped; in particular text without markup is its
/// own visible text.
pub proof fn lemma_strip_tags_plain_prefix(a: Seq<char>, b: Seq<char>)
    requires
        forall|i: int| 0 <= i < a.len() ==> #[trigger] a[i] != '<' && a[i] != '>',
    ensures
        strip_tags(a + b, false) == a + strip_tags(b, false),
        strip_tags(a, false) == a,
    decreases a.len(),
{
    if a.len() == 0 {
        assert(a + b =~= b);
        assert(a + strip_tags(b, false) =~= strip_tags(b, false));
    } else {
        let t = a.drop_first();
        assert forall|i: int| 0 <= i < t.len() implies #[trigger] t[i] != '<' && t[i] != '>' by {
            assert(t[i] == a[i + 1]);
        }
        lemma_strip_tags_plain_prefix(t, b);
        assert((a + b)[0] == a[0]);
        assert((a + b).drop_first() =~= t + b);
        assert(a[0] != '<' && a[0] != '>');
        assert(a =~= seq![a[0]] + t);
        assert(a + strip_tags(b, false) =~= seq![a[0]] + (t + strip_tags(b, false)));
        assert(a.drop_first() =~= t);
    }
}

/// A tag, from `<` to the first `>`, is dropped whole.
pub proof fn lemma_strip_tags_drops_tag(t: Seq<char>, b: Seq<char>)
    requires
        forall|i: int| 0 <= i < t.len() ==> #[trigger] t[i] != '>',
    ensures
        strip_tags(seq!['<'] + t + seq!['>'] + b, false) == strip_tags(b, false),
{
    lemma_strip_inside_tag(t, b);
    let s = seq!['<'] + t + seq!['>'] + b;
    assert(s[0] == '<');
    assert(s.drop_first() =~= t + seq!['>'] + b);
}

/// Inside a tag everything up to the first `>` is dropped.
proof fn lemma_strip_inside_tag(t: Seq<char>, b: Seq<char>)
    requires
        forall|i: int| 0 <= i < t.len() ==> #[trigger] t[i] != '>',
    ensures
        strip_tags(t + seq!['>'] + b, true) == strip_tags(b, false),
    decreases t.len(),
{
    let s = t + seq!['>'] + b;
    if t.len() == 0 {
        assert(s[0] == '>');
        assert(s.drop_first() =~= b);
    } else {
        let r = t.drop_first();
        assert forall|i: int| 0 <= i < r.len() implies #[trigger] r[i] != '>' by {
            assert(r[i] == t[i + 1]);
        }
        lemma_strip_inside_tag(r, b);
        assert(s[0] == t[0]);
        assert(s.drop_first() =~= r + seq!['>'] + b);
    }
}

/// The visible text of note markup: everything outside `<...>` tags.
pub fn strip_html(html: &str) -> (r: String)
    ensures
        r@ == strip_tags(html@, false),
{
    let cs = chars_of(html);
    let mut out = String::new();
    let mut in_tag = false;
    let mut i: usize = 0;
    assert(cs@.skip(0) == cs@);
    while i < cs.len()
        invariant
            i <= cs@.len(),
            cs@ == html@,
            out@ + strip_tags(cs@.skip(i as int), in_tag) == strip_tags(html@, false),
        decreases cs@.len() - i,
    {
        let c = cs[i];
        let ghost rest = cs@.skip(i as int);
        assert(rest[0] == c);
        assert(rest.drop_first() == cs@.skip(i + 1));
        if c == '<' {
            in_tag = true;
        } else if c == '>' {
            in_tag = false;
        } else if !in_tag {
            let ghost before = out@;
            push_char(&mut out, c);
            assert(before + (seq![c] + strip_tags(cs@.skip(i + 1), in_tag)) == before.push(c) + strip_tags(
                cs@.skip(i + 1),
                in_tag,
            ));
        }
        i = i + 1;
    }
    assert(cs@.skip(i as int).len() == 0);
    assert(out@ + Seq::<char>::empty() == out@);
    out
}

// ---------------------------------------------------------------------------
// Profile preferences

/// The start of the line that sets the preference `key`.
pub open spec fn pref_needle(key: Seq<char>) -> Seq<char> {
    "user_pref(\""@ + key + "\","@
}

/// `s` without every leading repetition of `p`.
pub open spec fn strip_prefixes(s: Seq<char>, p: Seq<char>) -> Seq<char>
    decreases s.len(),
{
    if p.len() > 0 && starts_with(s, p) {
        strip_prefixes(s.skip(p.len() as int), p)
    } else {
        s
    }
}

/// The characters of a quoted string after its opening quote, up to the
/// closing one, with `\` escaping the character after it.
pub open spec fn unescape(s: Seq<char>, escaped: bool) -> Seq<char>
    decreases s.len(),
{
    if s.len() == 0 {
        Seq::empty()
    } else if escaped {
        seq![s[0]] + unescape(s.drop_first(), false)
    } else if s[0] == '\\' {
        unescape(s.drop_first(), true)
    } else if s[0] == '"' {
        Seq::empty()
    } else {
        seq![s[0]] + unescape(s.drop_first(), false)
    }
}

/// The value that a line sets, when it is a `user_pref` line for the
/// needle with a quoted value.
pub open spec fn pref_value_of_line(line: Seq<char>, needle: Seq<char>) -> Option<Seq<char>> {
    let t = trim(line);
    if !starts_with(t, needle) {
        None
    } else {
        let rest = trim_start(strip_prefixes(t, needle));
        if rest.len() > 0 && rest[0] == '"' {
            Some(unescape(rest.drop_first(), false))
        } else {
            None
        }
    }
}

/// The value set by the first of `lines` that sets one for the needle.
pub open spec fn first_pref(lines: Seq<Seq<char>>, needle: Seq<char>) -> Option<Seq<char>>
    decreases lines.len(),
{
    if lines.len() == 0 {
        None
    } else {
        match pref_value_of_line(lines[0], needle) {
            Some(v) => Some(v),
            None => first_pref(lines.drop_first(), needle),
        }
    }
}

/// The string preference `key` of a `prefs.js` file whose text is
/// `contents`, looked up line by line (lines split at `\n`; each line is
/// trimmed, so a `\r` before the `\n` does not count).
pub open spec fn read_string_pref_spec(contents: Seq<char>, key: Seq<char>) -> Option<Seq<char>> {
    first_pref(split_acc(contents, "\n"@, Seq::empty()), pref_needle(key))
}

fn unescape_exec(s: &[char]) -> (r: String)
    ensures
        r@ == unescape(s@, false),
{
    let mut out = String::new();
    let mut escaped = false;
    let mut i: usize = 0;
    assert(s@.skip(0) == s@);
    while i < s.len()
        invariant
            i <= s@.len(),
            out@ + unescape(s@.skip(i as int), escaped) == unescape(s@, false),
        decreases s@.len() - i,
    {
        let c = s[i];
        let ghost rest = s@.skip(i as int);
        assert(rest[0] == c);
        assert(rest.drop_first() == s@.skip(i + 1));
        if escaped {
            let ghost before = out@;
            push_char(&mut out, c);
            assert(before + (seq![c] + unescape(s@.skip(i + 1), false)) == before.push(c) + unescape(
                s@.skip(i + 1),
                false,
            ));
            escaped = false;
        } else if c == '\\' {
            escaped = true;
        } else if c == '"' {
            assert(out@ + Seq::<char>::empty() == out@);
            return out;
        } else {
            let ghost before = out@;
            push_char(&mut out, c);
            assert(before + (seq![c] + unescape(s@.skip(i + 1), false)) == before.push(c) + unescape(
                s@.skip(i + 1),
                false,
            ));
        }
        i = i + 1;
    }
    assert(s@.skip(i as int).len() == 0);
    assert(out@ + Seq::<char>::empty() == out@);
    out
}

fn strip_prefixes_exec(s: &[char], p: &[char]) -> (r: usize)
    ensures
        r <= s@.len(),
        s@.skip(r as int) == strip_prefixes(s@, p@),
{
    let mut i: usize = 0;
    assert(s@.skip(0) == s@);
    while p.len() > 0 && starts_with_exec(&s[i..s.len()], p)
        invariant
            i <= s@.len(),
            strip_prefixes(s@.skip(i as int), p@) == strip_prefixes(s@, p@),
        decreases s@.len() - i,
    {
        assert(s@.subrange(i as int, s@.len() as int) == s@.skip(i as int));
        assert(s@.skip(i as int).skip(p@.len() as int) == s@.skip(i + p@.len()));
        i = i + p.len();
    }
    assert(s@.subrange(i as int, s@.len() as int) == s@.skip(i as int));
    i
}

fn pref_value_of_line_exec(line: &[char], needle: &[char]) -> (r: Option<String>)
    ensures
        match pref_value_of_line(line@, needle@) {
            Some(v) => r matches Some(s) && s@ == v,
            None => r is None,
        },
{
    let t = trim_exec(line);
    if !starts_with_exec(t.as_slice(), needle) {
        return None;
    }
    let k = strip_prefixes_exec(t.as_slice(), needle);
    let stripped = &t.as_slice()[k..t.len()];
    assert(stripped@ == t@.skip(k as int));
    let rest = crate::text::trim_start_exec(stripped);
    if rest.len() > 0 && rest[0] == '"' {
        let body = &rest.as_slice()[1..rest.len()];
        assert(body@ == rest@.drop_first());
        Some(unescape_exec(body))
    } else {
        None
    }
}

/// The string preference `key` of a `prefs.js` file whose text is
/// `contents`: the quoted value of the first `user_pref("key", "...")`
/// line, with `\` escapes resolved.
pub fn read_string_pref(contents: &str, key: &str) -> (r: Option<String>)
    ensures
        match read_string_pref_spec(contents@, key@) {
            Some(v) => r matches Some(s) && s@ == v,
            None => r is None,
        },
{
    let mut needle = "user_pref(\"".to_owned();
    push_str(&mut needle, key);
    push_str(&mut needle, "\",");
    let nc = chars_of(needle.as_str());
    let cs = chars_of(contents);
    let nl = chars_of("\n");
    proof {
        reveal_strlit("\n");
    }
    let lines = crate::chunking::split_chars(cs.as_slice(), nl.as_slice());
    let ghost lv = vviews(lines@);
    let mut i: usize = 0;
    assert(lv.skip(0) == lv);
    while i < lines.len()
        invariant
            i <= lines@.len(),
            lv == vviews(lines@),
            lv == split_acc(contents@, "\n"@, Seq::empty()),
            nc@ == pref_needle(key@),
            first_pref(lv.skip(i as int), nc@) == first_pref(lv, nc@),
        decreases lines@.len() - i,
    {
        assert(lv.skip(i as int)[0] == lines@[i as int]@);
        assert(lv.skip(i as int).drop_first() == lv.skip(i + 1));
        match pref_value_of_line_exec(lines[i].as_slice(), nc.as_slice()) {
            Some(v) => {
                return Some(v);
            },
            None => {},
        }
        i = i + 1;
    }
    assert(lv.skip(i as int).len() == 0);
    None
}

// ---------------------------------------------------------------------------
// Queries

/// A value bound to a placeholder of a query.
#[derive(Clone, Debug, PartialEq, Eq)]
pub enum SqlParam {
    Text(String),
    Int(i64),
}

/// A query and the values of its placeholders, in order.
#[derive(Clone, Debug)]
pub struct SqlQuery {
    pub sql: String,
    pub params: Vec<SqlParam>,
}

/// The text of text parameters.
pub open spec fn text_params(ps: Seq<SqlParam>) -> Seq<Option<Seq<char>>> {
    ps.map_values(|p: SqlParam| match p {
        SqlParam::Text(s) => Some(s@),
        SqlParam::Int(_) => None,
    })
}

/// `n` placeholders separated by commas.
pub open spec fn placeholders(n: nat) -> Seq<char>
    decreases n,
{
    if n == 0 {
        Seq::empty()
    } else if n == 1 {
        "?"@
    } else {
        placeholders((n - 1) as nat) + ",?"@
    }
}

fn placeholders_exec(n: usize) -> (r: String)
    ensures
        r@ == placeholders(n as nat),
{
    let mut s = String::new();
    let mut k: usize = 0;
    while k < n
        invariant
            k <= n,
            s@ == placeholders(k as nat),
        decreases n - k,
    {
        if k == 0 {
            push_str(&mut s, "?");
        } else {
            push_str(&mut s, ",?");
        }
        k = k + 1;
    }
    s
}

/// The join that counts, per parent item, the distinct query tokens among
/// its indexed words; empty without tokens.
pub open spec fn word_hits_join(n: nat) -> Seq<char> {
    if n == 0 {
        Seq::empty()
    } else {
        "\n            LEFT JOIN (\n                SELECT ia.parentItemID AS itemID,\n                       COUNT(DISTINCT fw.word) AS matched_words\n                FROM fulltextItemWords fiw\n                JOIN fulltextWords fw ON fw.wordID = fiw.wordID\n                JOIN itemAttachments ia ON ia.itemID = fiw.itemID\n                WHERE ia.parentItemID IS NOT NULL\n                  AND fw.word IN ("@ + placeholders(n) + ")\n                GROUP BY ia.parentItemID\n            ) word_hits ON word_hits.itemID = i.itemID"@
    }
}

/// The join that gathers, per parent item, its indexed words among the
/// query tokens; empty without tokens.
pub open spec fn words_join(n: nat) -> Seq<char> {
    if n == 0 {
        Seq::empty()
    } else {
        "\n            LEFT JOIN (\n                SELECT ia.parentItemID AS itemID,\n                       GROUP_CONCAT(fw.word, ' ') AS words\n                FROM fulltextItemWords fiw\n                JOIN fulltextWords fw ON fw.wordID = fiw.wordID\n                JOIN itemAttachments ia ON ia.itemID = fiw.itemID\n                WHERE ia.parentItemID IS NOT NULL\n                  AND fw.word IN ("@ + placeholders(n) + ")\n                GROUP BY ia.parentItemID\n            ) words ON words.itemID = i.itemID"@
    }
}

/// The column of matched words.
pub open spec fn words_select(n: nat) -> Seq<char> {
    if n == 0 {
        "'' AS words"@
    } else {
        "words.words AS words"@
    }
}

/// The condition that every token is among an item's indexed words.
pub open spec fn fulltext_predicate(n: nat) -> Seq<char> {
    if n == 0 {
        "0"@
    } else {
        "COALESCE(word_hits.matched_words, 0) = "@ + crate::text::decimal(n)
    }
}

/// The full-text search query for `n` tokens.
pub open spec fn fulltext_sql(n: nat) -> Seq<char> {
    "\n            SELECT i.key, it.typeName AS item_type,\n                   title.value AS title, doi.value AS doi,\n                   extra.value AS extra,\n                   creators.creators AS creators,\n                   "@ + words_select(n) + "\n            FROM items i\n            JOIN itemTypes it ON i.itemTypeID = it.itemTypeID\n            LEFT JOIN itemData title_data\n                ON title_data.itemID = i.itemID AND title_data.fieldID = 1\n            LEFT JOIN itemDataValues title\n                ON title.valueID = title_data.valueID\n            LEFT JOIN fields doi_field\n                ON doi_field.fieldName = 'DOI'\n            LEFT JOIN itemData doi_data\n                ON doi_data.itemID = i.itemID\n               AND doi_data.fieldID = doi_field.fieldID\n            LEFT JOIN itemDataValues doi\n                ON doi.valueID = doi_data.valueID\n            LEFT JOIN itemData extra_data\n                ON extra_data.itemID = i.itemID AND extra_data.fieldID = 16\n            LEFT JOIN itemDataValues extra\n                ON extra.valueID = extra_data.valueID\n            LEFT JOIN (\n                SELECT ic.itemID, GROUP_CONCAT(\n                    CASE\n                        WHEN c.firstName IS NOT NULL AND c.lastName IS NOT NULL\n                        THEN c.lastName || ', ' || c.firstName\n                        WHEN c.lastName IS NOT NULL\n                        THEN c.lastName\n                        ELSE NULL\n                    END, '; '\n                ) AS creators\n                FROM itemCreators ic\n                JOIN creators c ON c.creatorID = ic.creatorID\n                GROUP BY ic.itemID\n            ) creators ON creators.itemID = i.itemID\n            "@ + words_join(n) + "\n            "@ + word_hits_join(n)
        + "\n            WHERE it.typeName NOT IN ('attachment', 'note', 'annotation')\n              AND i.itemID NOT IN (SELECT itemID FROM deletedItems)\n              AND (\n                lower(COALESCE(title.value, '')) LIKE ? ESCAPE '\\'\n                OR lower(COALESCE(doi.value, '')) LIKE ? ESCAPE '\\'\n                OR lower(COALESCE(extra.value, '')) LIKE ? ESCAPE '\\'\n                OR lower(COALESCE(creators.creators, '')) LIKE ? ESCAPE '\\'\n                OR "@ + fulltext_predicate(n) + "\n              )\n            LIMIT ?\n            "@
}

/// A character that `LIKE` would read as a wildcard or as the escape
/// character.
pub open spec fn like_special(c: char) -> bool {
    c == '\\' || c == '%' || c == '_'
}

/// `s` with `\`, `%` and `_` each preceded by `\`, so that a `LIKE` pattern
/// with `ESCAPE '\'` matches it literally.
pub open spec fn like_escape(s: Seq<char>) -> Seq<char>
    decreases s.len(),
{
    if s.len() == 0 {
        Seq::empty()
    } else if like_special(s.last()) {
        like_escape(s.drop_last()) + seq!['\\', s.last()]
    } else {
        like_escape(s.drop_last()).push(s.last())
    }
}

/// The `LIKE` pattern of a substring search for `s`: `%`, `s` escaped, `%`.
pub open spec fn substring_pattern(s: Seq<char>) -> Seq<char> {
    "%"@ + like_escape(s) + "%"@
}

/// The `LIKE` pattern that matches the texts holding `s`.
fn substring_pattern_exec(s: &str) -> (r: String)
    ensures
        r@ == substring_pattern(s@),
{
    let cs = chars_of(s);
    let mut out = "%".to_owned();
    let ghost start = out@;
    let mut i: usize = 0;
    assert(cs@.take(0) =~= Seq::<char>::empty());
    while i < cs.len()
        invariant
            i <= cs@.len(),
            cs@ == s@,
            out@ == start + like_escape(cs@.take(i as int)),
        decreases cs@.len() - i,
    {
        let c = cs[i];
        assert(cs@.take(i + 1).drop_last() =~= cs@.take(i as int));
        assert(cs@.take(i + 1).last() == c);
        if c == '\\' || c == '%' || c == '_' {
            push_char(&mut out, '\\');
            push_char(&mut out, c);
            assert(out@ =~= start + like_escape(cs@.take(i + 1)));
        } else {
            push_char(&mut out, c);
            assert(out@ =~= start + like_escape(cs@.take(i + 1)));
        }
        i = i + 1;
    }
    assert(cs@.take(cs@.len() as int) =~= cs@);
    push_str(&mut out, "%");
    proof {
        reveal_strlit("%");
    }
    assert(out@ =~= substring_pattern(s@));
    out
}

/// The rows scanned for a full-text search: five per result asked for, at
/// most [`FULLTEXT_SCAN_CAP`].
pub open spec fn fulltext_cap(limit: usize) -> nat {
    let five: int = if limit * 5 <= usize::MAX {
        limit * 5
    } else {
        usize::MAX as int
    };
    if five < FULLTEXT_SCAN_CAP {
        five as nat
    } else {
        FULLTEXT_SCAN_CAP as nat
    }
}

/// The full-text search for `query`: the SQL for its tokens, the tokens
/// bound twice, the substring pattern of the lowercase query (its `%`, `_`
/// and `\` escaped, so that they match themselves) four times, and the row
/// cap.
pub fn fulltext_query(query: &str, limit: usize) -> (r: SqlQuery)
    ensures
        r.sql@ == fulltext_sql(query_tokens(query@).len()),
        text_params(r.params@) == query_tokens(query@).map_values(|t: Seq<char>| Some(t)) + query_tokens(
            query@,
        ).map_values(|t: Seq<char>| Some(t)) + seq![Some(substring_pattern(unicode_lowercase(query@))); 4].add(
            seq![None],
        ),
        r.params@.last() == SqlParam::Int(fulltext_cap(limit) as i64),
{
    let query_lc = to_lowercase(query);
    let tokens = tokenize_query(query);
    let n = tokens.len();
    let five: usize = if limit <= usize::MAX / 5 {
        limit * 5
    } else {
        usize::MAX
    };
    let cap = if five < FULLTEXT_SCAN_CAP {
        five
    } else {
        FULLTEXT_SCAN_CAP
    };
    let ph = placeholders_exec(n);
    let mut sql = "\n            SELECT i.key, it.typeName AS item_type,\n                   title.value AS title, doi.value AS doi,\n                   extra.value AS extra,\n                   creators.creators AS creators,\n                   ".to_owned();
    if n == 0 {
        push_str(&mut sql, "'' AS words");
    } else {
        push_str(&mut sql, "words.words AS words");
    }
    push_str(&mut sql, "\n            FROM items i\n            JOIN itemTypes it ON i.itemTypeID = it.itemTypeID\n            LEFT JOIN itemData title_data\n                ON title_data.itemID = i.itemID AND title_data.fieldID = 1\n            LEFT JOIN itemDataValues title\n                ON title.valueID = title_data.valueID\n            LEFT JOIN fields doi_field\n                ON doi_field.fieldName = 'DOI'\n            LEFT JOIN itemData doi_data\n                ON doi_data.itemID = i.itemID\n               AND doi_data.fieldID = doi_field.fieldID\n            LEFT JOIN itemDataValues doi\n                ON doi.valueID = doi_data.valueID\n            LEFT JOIN itemData extra_data\n                ON extra_data.itemID = i.itemID AND extra_data.fieldID = 16\n            LEFT JOIN itemDataValues extra\n                ON extra.valueID = extra_data.valueID\n            LEFT JOIN (\n                SELECT ic.itemID, GROUP_CONCAT(\n                    CASE\n                        WHEN c.firstName IS NOT NULL AND c.lastName IS NOT NULL\n                        THEN c.lastName || ', ' || c.firstName\n                        WHEN c.lastName IS NOT NULL\n                        THEN c.lastName\n                        ELSE NULL\n                    END, '; '\n                ) AS creators\n                FROM itemCreators ic\n                JOIN creators c ON c.creatorID = ic.creatorID\n                GROUP BY ic.itemID\n            ) creators ON creators.itemID = i.itemID\n            ");
    if n > 0 {
        push_str(&mut sql, "\n            LEFT JOIN (\n                SELECT ia.parentItemID AS itemID,\n                       GROUP_CONCAT(fw.word, ' ') AS words\n                FROM fulltextItemWords fiw\n                JOIN fulltextWords fw ON fw.wordID = fiw.wordID\n                JOIN itemAttachments ia ON ia.itemID = fiw.itemID\n                WHERE ia.parentItemID IS NOT NULL\n                  AND fw.word IN (");
        push_str(&mut sql, ph.as_str());
        push_str(&mut sql, ")\n                GROUP BY ia.parentItemID\n            ) words ON words.itemID = i.itemID");
    }
    push_str(&mut sql, "\n            ");
    if n > 0 {
        push_str(&mut sql, "\n            LEFT JOIN (\n                SELECT ia.parentItemID AS itemID,\n                       COUNT(DISTINCT fw.word) AS matched_words\n                FROM fulltextItemWords fiw\n                JOIN fulltextWords fw ON fw.wordID = fiw.wordID\n                JOIN itemAttachments ia ON ia.itemID = fiw.itemID\n                WHERE ia.parentItemID IS NOT NULL\n                  AND fw.word IN (");
        push_str(&mut sql, ph.as_str());
        push_str(&mut sql, ")\n                GROUP BY ia.parentItemID\n            ) word_hits ON word_hits.itemID = i.itemID");
    }
    push_str(&mut sql, "\n            WHERE it.typeName NOT IN ('attachment', 'note', 'annotation')\n              AND i.itemID NOT IN (SELECT itemID FROM deletedItems)\n              AND (\n                lower(COALESCE(title.value, '')) LIKE ? ESCAPE '\\'\n                OR lower(COALESCE(doi.value, '')) LIKE ? ESCAPE '\\'\n                OR lower(COALESCE(extra.value, '')) LIKE ? ESCAPE '\\'\n                OR lower(COALESCE(creators.creators, '')) LIKE ? ESCAPE '\\'\n                OR ");
    if n == 0 {
        push_str(&mut sql, "0");
    } else {
        push_str(&mut sql, "COALESCE(word_hits.matched_words, 0) = ");
        crate::text::push_decimal(&mut sql, n as u64);
    }
    push_str(&mut sql, "\n              )\n            LIMIT ?\n            ");
    proof {
        let nn = n as nat;
        assert(sql@ =~= fulltext_sql(nn));
    }
    let mut params: Vec<SqlParam> = Vec::new();
    let ghost tv = views(tokens@);
    let mut round: usize = 0;
    while round < 2
        invariant
            round <= 2,
            tv == views(tokens@),
            text_params(params@) == if round == 0 {
                Seq::empty()
            } else if round == 1 {
                tv.map_values(|t: Seq<char>| Some(t))
            } else {
                tv.map_values(|t: Seq<char>| Some(t)) + tv.map_values(|t: Seq<char>| Some(t))
            },
        decreases 2 - round,
    {
        let ghost start = text_params(params@);
        let mut i: usize = 0;
        while i < tokens.len()
            invariant
                i <= tokens@.len(),
                tv == views(tokens@),
                text_params(params@) == start + tv.take(i as int).map_values(|t: Seq<char>| Some(t)),
            decreases tokens@.len() - i,
        {
            let ghost before = text_params(params@);
            params.push(SqlParam::Text(tokens[i].clone()));
            assert(text_params(params@) =~= before.push(Some(tokens@[i as int]@)));
            assert(tv.take(i + 1).map_values(|t: Seq<char>| Some(t)) =~= tv.take(i as int).map_values(
                |t: Seq<char>| Some(t),
            ).push(Some(tv[i as int])));
            i = i + 1;
        }
        assert(tv.take(tokens@.len() as int) =~= tv);
        assert(text_params(params@) =~= start + tv.map_values(|t: Seq<char>| Some(t)));
        proof {
            if round == 0 {
                assert(start + tv.map_values(|t: Seq<char>| Some(t)) =~= tv.map_values(|t: Seq<char>| Some(t)));
            }
        }
        round = round + 1;
    }
    let pattern = substring_pattern_exec(query_lc.as_str());
    let ghost before = text_params(params@);
    params.push(SqlParam::Text(pattern.clone()));
    params.push(SqlParam::Text(pattern.clone()));
    params.push(SqlParam::Text(pattern.clone()));
    params.push(SqlParam::Text(pattern));
    params.push(SqlParam::Int(cap as i64));
    proof {
        let p = substring_pattern(unicode_lowercase(query@));
        assert(text_params(params@) =~= before + seq![Some(p); 4].add(seq![None]));
    }
    SqlQuery { sql, params }
}


/// The query of the notes whose stored text matches `pattern`.
pub open spec fn notes_sql() -> Seq<char> {
    "\n            SELECT i.key, n.note, n.title,\n                   pi.key AS parentKey, pdv.value AS parentTitle\n            FROM itemNotes n\n            JOIN items i ON n.itemID = i.itemID\n            LEFT JOIN items pi ON n.parentItemID = pi.itemID\n            LEFT JOIN itemData pd\n                ON pd.itemID = pi.itemID AND pd.fieldID = 1\n            LEFT JOIN itemDataValues pdv ON pd.valueID = pdv.valueID\n            WHERE n.note LIKE ? ESCAPE '\\'\n              AND i.itemID NOT IN (SELECT itemID FROM deletedItems)\n            LIMIT ?\n            "@
}

/// The query of the annotations whose text or comment matches `pattern`.
pub open spec fn annotations_sql() -> Seq<char> {
    "\n            SELECT i.key, ia.text, ia.comment, ia.type, ia.color,\n                   ia.pageLabel, att.key AS attachmentKey,\n                   gpi.key AS parentKey, gpdv.value AS parentTitle\n            FROM itemAnnotations ia\n            JOIN items i ON ia.itemID = i.itemID\n            LEFT JOIN items att ON ia.parentItemID = att.itemID\n            LEFT JOIN itemAttachments iatt ON ia.parentItemID = iatt.itemID\n            LEFT JOIN items gpi ON iatt.parentItemID = gpi.itemID\n            LEFT JOIN itemData gpd\n                ON gpd.itemID = gpi.itemID AND gpd.fieldID = 1\n            LEFT JOIN itemDataValues gpdv ON gpd.valueID = gpdv.valueID\n            WHERE (ia.text LIKE ? ESCAPE '\\' OR ia.comment LIKE ? ESCAPE '\\')\n              AND i.itemID NOT IN (SELECT itemID FROM deletedItems)\n            LIMIT ?\n            "@
}

/// The note rows fetched for a search: five per result asked for, at most
/// 500.
pub open spec fn note_fetch_limit(limit: usize) -> int {
    if limit * 5 < 500 {
        limit * 5
    } else {
        500
    }
}

/// The queries of a note and annotation search for `query`: notes holding
/// the query (its substring pattern, with `%`, `_` and `\` escaped) (at most [`note_fetch_limit`] rows), annotations whose text or
/// comment matches it (at most `limit` rows, 20 when `limit` does not fit
/// in an `i64`).
pub fn notes_queries(query: &str, limit: usize) -> (r: (SqlQuery, SqlQuery))
    ensures
        r.0.sql@ == notes_sql(),
        r.0.params@.len() == 2,
        r.0.params@[0] is Text && r.0.params@[0]->Text_0@ == substring_pattern(query@),
        r.0.params@[1] == SqlParam::Int(note_fetch_limit(limit) as i64),
        r.1.sql@ == annotations_sql(),
        r.1.params@.len() == 3,
        r.1.params@[0] is Text && r.1.params@[0]->Text_0@ == substring_pattern(query@),
        r.1.params@[1] is Text && r.1.params@[1]->Text_0@ == substring_pattern(query@),
        r.1.params@[2] == SqlParam::Int(if limit <= i64::MAX { limit as i64 } else { 20 }),
{
    let pattern = substring_pattern_exec(query);
    let fetch: usize = if limit < 100 {
        limit * 5
    } else {
        500
    };
    let mut p1: Vec<SqlParam> = Vec::new();
    p1.push(SqlParam::Text(pattern.clone()));
    p1.push(SqlParam::Int(fetch as i64));
    let mut p2: Vec<SqlParam> = Vec::new();
    p2.push(SqlParam::Text(pattern.clone()));
    p2.push(SqlParam::Text(pattern));
    let lim: i64 = if (limit as u64) <= 0x7fff_ffff_ffff_ffffu64 {
        limit as i64
    } else {
        20
    };
    p2.push(SqlParam::Int(lim));
    (
        SqlQuery { sql: "\n            SELECT i.key, n.note, n.title,\n                   pi.key AS parentKey, pdv.value AS parentTitle\n            FROM itemNotes n\n            JOIN items i ON n.itemID = i.itemID\n            LEFT JOIN items pi ON n.parentItemID = pi.itemID\n            LEFT JOIN itemData pd\n                ON pd.itemID = pi.itemID AND pd.fieldID = 1\n            LEFT JOIN itemDataValues pdv ON pd.valueID = pdv.valueID\n            WHERE n.note LIKE ? ESCAPE '\\'\n              AND i.itemID NOT IN (SELECT itemID FROM deletedItems)\n            LIMIT ?\n            ".to_owned(), params: p1 },
        SqlQuery { sql: "\n            SELECT i.key, ia.text, ia.comment, ia.type, ia.color,\n                   ia.pageLabel, att.key AS attachmentKey,\n                   gpi.key AS parentKey, gpdv.value AS parentTitle\n            FROM itemAnnotations ia\n            JOIN items i ON ia.itemID = i.itemID\n            LEFT JOIN items att ON ia.parentItemID = att.itemID\n            LEFT JOIN itemAttachments iatt ON ia.parentItemID = iatt.itemID\n            LEFT JOIN items gpi ON iatt.parentItemID = gpi.itemID\n            LEFT JOIN itemData gpd\n                ON gpd.itemID = gpi.itemID AND gpd.fieldID = 1\n            LEFT JOIN itemDataValues gpdv ON gpd.valueID = gpdv.valueID\n            WHERE (ia.text LIKE ? ESCAPE '\\' OR ia.comment LIKE ? ESCAPE '\\')\n              AND i.itemID NOT IN (SELECT itemID FROM deletedItems)\n            LIMIT ?\n            ".to_owned(), params: p2 },
    )
}

// ---------------------------------------------------------------------------
// Rows

/// One row of a full-text search.
#[derive(Clone, Debug)]
pub struct FulltextRow {
    pub key: String,
    pub item_type: String,
    pub title: Option<String>,
    pub doi: Option<String>,
    pub creators: Option<String>,
    pub words: Option<String>,
}

/// The first `n` characters of `s`, or all of them.
pub open spec fn first_chars(s: Seq<char>, n: nat) -> Seq<char> {
    if s.len() <= n {
        s
    } else {
        s.take(n as int)
    }
}

/// `h` is the hit of `row`: its fields, creators empty when absent, and the
/// first [`SNIPPET_CHARS`] characters of its words as snippet.
pub open spec fn fulltext_hit_of(row: FulltextRow, h: FulltextHit) -> bool {
    &&& h.key@ == row.key@
    &&& h.item_type@ == row.item_type@
    &&& h.title == row.title
    &&& h.doi == row.doi
    &&& h.creators@ == crate::objects::opt_or_empty(row.creators)
    &&& h.snippet@ == first_chars(crate::objects::opt_or_empty(row.words), SNIPPET_CHARS as nat)
}

fn fulltext_hit(row: FulltextRow) -> (h: FulltextHit)
    ensures
        fulltext_hit_of(row, h),
{
    let ghost r0 = row;
    let snippet = match &row.words {
        Some(w) => {
            let cs = chars_of(w.as_str());
            let n = if cs.len() <= SNIPPET_CHARS {
                cs.len()
            } else {
                SNIPPET_CHARS
            };
            assert(cs@.take(n as int) == first_chars(w@, SNIPPET_CHARS as nat));
            string_of(&cs.as_slice()[0..n])
        },
        None => String::new(),
    };
    let creators = match row.creators {
        Some(c) => c,
        None => String::new(),
    };
    FulltextHit {
        key: ItemKey::new(row.key),
        item_type: row.item_type,
        title: row.title,
        doi: row.doi,
        creators,
        snippet,
    }
}

/// The hits of the rows of a full-text search, at most `limit` of them.
pub fn fulltext_hits(rows: Vec<FulltextRow>, limit: usize) -> (r: Vec<FulltextHit>)
    ensures
        r@.len() == crate::search::min_nat(rows@.len() as int, limit as int),
        forall|i: int| 0 <= i < r@.len() ==> fulltext_hit_of(rows@[i], #[trigger] r@[i]),
{
    let n = if rows.len() < limit {
        rows.len()
    } else {
        limit
    };
    let ghost src = rows@;
    let mut rest = rows;
    let mut out: Vec<FulltextHit> = Vec::new();
    let mut i: usize = 0;
    while i < n
        invariant
            n <= src.len(),
            i <= n,
            rest@ == src.skip(i as int),
            out@.len() == i,
            forall|k: int| 0 <= k < i ==> fulltext_hit_of(src[k], #[trigger] out@[k]),
        decreases n - i,
    {
        let row = rest.remove(0);
        assert(row == src[i as int]);
        assert(rest@ == src.skip(i + 1));
        out.push(fulltext_hit(row));
        i = i + 1;
    }
    out
}

/// One note row of a note search.
#[derive(Clone, Debug)]
pub struct NoteRow {
    pub key: String,
    pub note: Option<String>,
    pub parent_key: Option<String>,
    pub parent_title: Option<String>,
}

/// One annotation row of a note search.
#[derive(Clone, Debug)]
pub struct AnnotationRow {
    pub key: String,
    pub text: Option<String>,
    pub comment: Option<String>,
    pub parent_key: Option<String>,
    pub parent_title: Option<String>,
    pub page_label: Option<String>,
    pub color: Option<String>,
}

/// A note matches when its visible text, in lowercase, holds the lowercase
/// query.
pub open spec fn note_visible_match(row: NoteRow, query_lc: Seq<char>) -> bool {
    contains(unicode_lowercase(strip_tags(crate::objects::opt_or_empty(row.note), false)), query_lc)
}

/// The parts of a hit that it is judged by.
pub open spec fn hit_view(h: NoteAnnotationHit) -> (HitKind, Seq<char>, Option<String>, Option<String>, Option<Seq<char>>, Option<String>, Option<String>, Option<String>) {
    (
        h.kind,
        h.key@,
        h.text,
        h.comment,
        match h.parent_key {
            Some(k) => Some(k@),
            None => None,
        },
        h.parent_title,
        h.page_label,
        h.color,
    )
}

/// The hit of a note row.
pub open spec fn note_hit_view(row: NoteRow) -> (HitKind, Seq<char>, Option<String>, Option<String>, Option<Seq<char>>, Option<String>, Option<String>, Option<String>) {
    (HitKind::Note, row.key@, row.note, None, crate::objects::opt_view(row.parent_key), row.parent_title, None, None)
}

/// The hit of an annotation row.
pub open spec fn annotation_hit_view(row: AnnotationRow) -> (HitKind, Seq<char>, Option<String>, Option<String>, Option<Seq<char>>, Option<String>, Option<String>, Option<String>) {
    (
        HitKind::Annotation,
        row.key@,
        row.text,
        row.comment,
        crate::objects::opt_view(row.parent_key),
        row.parent_title,
        row.page_label,
        row.color,
    )
}

/// The hits of the matching note rows, in order.
pub open spec fn note_hits_spec(rows: Seq<NoteRow>, query_lc: Seq<char>) -> Seq<(HitKind, Seq<char>, Option<String>, Option<String>, Option<Seq<char>>, Option<String>, Option<String>, Option<String>)>
    decreases rows.len(),
{
    if rows.len() == 0 {
        Seq::empty()
    } else {
        let r = note_hits_spec(rows.drop_last(), query_lc);
        if note_visible_match(rows.last(), query_lc) {
            r.push(note_hit_view(rows.last()))
        } else {
            r
        }
    }
}

/// Note search ignores case: a note row gives a hit exactly when the
/// lowercase query stands somewhere in the lowercase form of the note's
/// visible text (its text outside markup tags), and the hits of the rows
/// before it are kept, in order.
pub proof fn lemma_note_hit_when_lowercase_holds_query(rows: Seq<NoteRow>, row: NoteRow, query: Seq<char>)
    ensures
        ({
            let visible_lc = unicode_lowercase(strip_tags(crate::objects::opt_or_empty(row.note), false));
            let q = unicode_lowercase(query);
            note_hits_spec(rows.push(row), q) == if exists|i: int|
                0 <= i && i + q.len() <= visible_lc.len() && #[trigger] visible_lc.subrange(i, i + q.len()) == q {
                note_hits_spec(rows, q).push(note_hit_view(row))
            } else {
                note_hits_spec(rows, q)
            }
        }),
{
    let visible_lc = unicode_lowercase(strip_tags(crate::objects::opt_or_empty(row.note), false));
    let q = unicode_lowercase(query);
    assert(rows.push(row).drop_last() =~= rows);
    if contains(visible_lc, q) {
        let i = choose|i: int| crate::text::occurs_at(visible_lc, q, i);
        assert(0 <= i && i + q.len() <= visible_lc.len() && visible_lc.subrange(i, i + q.len()) == q);
    }
    if exists|i: int| 0 <= i && i + q.len() <= visible_lc.len() && #[trigger] visible_lc.subrange(i, i + q.len()) == q {
        let i = choose|i: int|
            0 <= i && i + q.len() <= visible_lc.len() && #[trigger] visible_lc.subrange(i, i + q.len()) == q;
        assert(crate::text::occurs_at(visible_lc, q, i));
    }
}

/// Two notes whose visible texts differ only in case, so that their
/// lowercase forms agree, are found by the same queries: each gives a hit
/// exactly when the other does.
pub proof fn lemma_note_match_ignores_case(rows: Seq<NoteRow>, a: NoteRow, b: NoteRow, query: Seq<char>)
    requires
        unicode_lowercase(strip_tags(crate::objects::opt_or_empty(a.note), false)) == unicode_lowercase(
            strip_tags(crate::objects::opt_or_empty(b.note), false),
        ),
    ensures
        note_hits_spec(rows.push(a), unicode_lowercase(query)).len() == note_hits_spec(
            rows.push(b),
            unicode_lowercase(query),
        ).len(),
{
    lemma_note_hit_when_lowercase_holds_query(rows, a, query);
    lemma_note_hit_when_lowercase_holds_query(rows, b, query);
}

fn opt_key(o: Option<String>) -> (r: Option<ItemKey>)
    ensures
        match r {
            Some(k) => o matches Some(s) && k@ == s@,
            None => o is None,
        },
{
    match o {
        Some(s) => Some(ItemKey::new(s)),
        None => None,
    }
}

/// The hits of a note and annotation search for `query`: the notes whose
/// visible text matches, then every annotation, at most `limit` in all.
pub fn note_annotation_hits(query: &str, notes: Vec<NoteRow>, annotations: Vec<AnnotationRow>, limit: usize) -> (r: Vec<NoteAnnotationHit>)
    ensures
        r@.map_values(|h: NoteAnnotationHit| hit_view(h)) == {
            let all = note_hits_spec(notes@, unicode_lowercase(query@)) + annotations@.map_values(
                |a: AnnotationRow| annotation_hit_view(a),
            );
            all.take(crate::search::min_nat(all.len() as int, limit as int))
        },
{
    let query_lc = to_lowercase(query);
    let qc = chars_of(query_lc.as_str());
    let ghost ns = notes@;
    let mut out: Vec<NoteAnnotationHit> = Vec::new();
    let mut rest = notes;
    let mut i: usize = 0;
    let n = rest.len();
    assert(ns.take(0) =~= Seq::<NoteRow>::empty());
    assert(out@.map_values(|h: NoteAnnotationHit| hit_view(h)) =~= Seq::empty());
    while i < n
        invariant
            n == ns.len(),
            i <= n,
            rest@ == ns.skip(i as int),
            qc@ == unicode_lowercase(query@),
            out@.map_values(|h: NoteAnnotationHit| hit_view(h)) == note_hits_spec(ns.take(i as int), qc@),
        decreases n - i,
    {
        let row = rest.remove(0);
        assert(row == ns[i as int]);
        assert(rest@ == ns.skip(i + 1));
        assert(ns.take(i + 1).drop_last() =~= ns.take(i as int));
        assert(ns.take(i + 1).last() == row);
        let visible = match &row.note {
            Some(t) => strip_html(t.as_str()),
            None => strip_html(""),
        };
        proof {
            reveal_strlit("");
        }
        let lower = to_lowercase(visible.as_str());
        if contains_exec(chars_of(lower.as_str()).as_slice(), qc.as_slice()) {
            let ghost before = out@;
            let hit = NoteAnnotationHit {
                kind: HitKind::Note,
                key: ItemKey::new(row.key),
                text: row.note,
                comment: None,
                parent_key: opt_key(row.parent_key),
                parent_title: row.parent_title,
                page_label: None,
                color: None,
            };
            out.push(hit);
            assert(out@.map_values(|h: NoteAnnotationHit| hit_view(h)) =~= before.map_values(
                |h: NoteAnnotationHit| hit_view(h),
            ).push(note_hit_view(ns[i as int])));
        }
        i = i + 1;
    }
    assert(ns.take(n as int) =~= ns);
    let ghost first = out@.map_values(|h: NoteAnnotationHit| hit_view(h));
    let ghost avs = annotations@;
    let mut arest = annotations;
    let m = arest.len();
    let mut j: usize = 0;
    while j < m
        invariant
            m == avs.len(),
            j <= m,
            arest@ == avs.skip(j as int),
            out@.map_values(|h: NoteAnnotationHit| hit_view(h)) == first + avs.take(j as int).map_values(
                |a: AnnotationRow| annotation_hit_view(a),
            ),
        decreases m - j,
    {
        let row = arest.remove(0);
        assert(row == avs[j as int]);
        assert(arest@ == avs.skip(j + 1));
        let ghost before = out@;
        let hit = NoteAnnotationHit {
            kind: HitKind::Annotation,
            key: ItemKey::new(row.key),
            text: row.text,
            comment: row.comment,
            parent_key: opt_key(row.parent_key),
            parent_title: row.parent_title,
            page_label: row.page_label,
            color: row.color,
        };
        out.push(hit);
        assert(out@.map_values(|h: NoteAnnotationHit| hit_view(h)) =~= before.map_values(
            |h: NoteAnnotationHit| hit_view(h),
        ).push(annotation_hit_view(avs[j as int])));
        assert(avs.take(j + 1).map_values(|a: AnnotationRow| annotation_hit_view(a)) =~= avs.take(
            j as int,
        ).map_values(|a: AnnotationRow| annotation_hit_view(a)).push(annotation_hit_view(avs[j as int])));
        j = j + 1;
    }
    assert(avs.take(m as int) =~= avs);
    let total = out.len();
    let keep = if total < limit {
        total
    } else {
        limit
    };
    out.truncate(keep);
    proof {
        let all = first + avs.map_values(|a: AnnotationRow| annotation_hit_view(a));
        assert(out@.map_values(|h: NoteAnnotationHit| hit_view(h)) =~= all.take(keep as int));
    }
    out
}

/// The directories that may hold Zotero profiles: under `APPDATA` where it
/// is set; under `HOME`, in `Library/Application Support/Zotero/Profiles` on
/// macOS and `.zotero/zotero` on Linux.
pub open spec fn profiles_dirs_spec(appdata: Option<Seq<char>>, home: Option<Seq<char>>, platform: Platform) -> Seq<
    Seq<char>,
> {
    (match appdata {
        Some(a) => seq![path_join(path_join(path_join(a, "Zotero"@), "Zotero"@), "Profiles"@)],
        None => Seq::empty(),
    }) + match (home, platform) {
        (Some(h), Platform::MacOs) => seq![
            path_join(
                path_join(path_join(path_join(h, "Library"@), "Application Support"@), "Zotero"@),
                "Profiles"@,
            ),
        ],
        (Some(h), Platform::Linux) => seq![path_join(path_join(h, ".zotero"@), "zotero"@)],
        _ => Seq::empty(),
    }
}

/// The directories that may hold Zotero profiles, from the values of
/// `APPDATA` and `HOME` and the platform.
pub fn profiles_dirs(appdata: Option<&str>, home: Option<&str>, platform: Platform) -> (r: Vec<String>)
    ensures
        views(r@) == profiles_dirs_spec(
            match appdata {
                Some(a) => Some(a@),
                None => None,
            },
            match home {
                Some(h) => Some(h@),
                None => None,
            },
            platform,
        ),
{
    let ghost av: Option<Seq<char>> = match appdata {
        Some(a) => Some(a@),
        None => None,
    };
    let ghost hv: Option<Seq<char>> = match home {
        Some(h) => Some(h@),
        None => None,
    };
    let mut dirs: Vec<String> = Vec::new();
    if let Some(a) = appdata {
        let p1 = join_path(a, "Zotero");
        let p2 = join_path(p1.as_str(), "Zotero");
        dirs.push(join_path(p2.as_str(), "Profiles"));
    }
    let ghost first = views(dirs@);
    assert(first =~= match av {
        Some(a) => seq![path_join(path_join(path_join(a, "Zotero"@), "Zotero"@), "Profiles"@)],
        None => Seq::<Seq<char>>::empty(),
    });
    match (home, platform) {
        (Some(h), Platform::MacOs) => {
            let p1 = join_path(h, "Library");
            let p2 = join_path(p1.as_str(), "Application Support");
            let p3 = join_path(p2.as_str(), "Zotero");
            dirs.push(join_path(p3.as_str(), "Profiles"));
        },
        (Some(h), Platform::Linux) => {
            let p1 = join_path(h, ".zotero");
            dirs.push(join_path(p1.as_str(), "zotero"));
        },
        _ => {},
    }
    assert(views(dirs@) =~= profiles_dirs_spec(av, hv, platform));
    dirs
}

/// `zotero.sqlite` in a directory.
pub open spec fn db_in(dir: Seq<char>) -> Seq<char> {
    path_join(dir, "zotero.sqlite"@)
}

/// The database files to try for one profile: the one in the data directory
/// that its preferences name, if they name one, then the one in the profile
/// itself.
pub open spec fn profile_candidates(profile: (Seq<char>, Option<Seq<char>>)) -> Seq<Seq<char>> {
    match profile.1 {
        Some(d) => seq![db_in(d), db_in(profile.0)],
        None => seq![db_in(profile.0)],
    }
}

/// The database files to try for the profiles, in order.
pub open spec fn profiles_candidates(profiles: Seq<(Seq<char>, Option<Seq<char>>)>) -> Seq<Seq<char>>
    decreases profiles.len(),
{
    if profiles.len() == 0 {
        Seq::empty()
    } else {
        profiles_candidates(profiles.drop_last()) + profile_candidates(profiles.last())
    }
}

/// The views of profiles: each directory with the data directory its
/// preferences name.
pub open spec fn profile_views(profiles: Seq<(String, Option<String>)>) -> Seq<(Seq<char>, Option<Seq<char>>)> {
    profiles.map_values(
        |p: (String, Option<String>)|
            (
                p.0@,
                match p.1 {
                    Some(d) => Some(d@),
                    None => None,
                },
            ),
    )
}

/// The database files to try, in order, the first that exists being the
/// one used: the file that `ZOTERO_DB_PATH` names; for each profile, the
/// one in its preferred data directory and the one in the profile; and
/// `Zotero/zotero.sqlite` under `HOME`.
pub fn zotero_db_candidates(env_db: Option<&str>, profiles: &[(String, Option<String>)], home: Option<&str>) -> (r: Vec<
    String,
>)
    ensures
        views(r@) == (match env_db {
            Some(e) => seq![e@],
            None => Seq::<Seq<char>>::empty(),
        }) + profiles_candidates(profile_views(profiles@)) + match home {
            Some(h) => seq![db_in(path_join(h@, "Zotero"@))],
            None => Seq::<Seq<char>>::empty(),
        },
{
    let mut out: Vec<String> = Vec::new();
    if let Some(e) = env_db {
        out.push(e.to_owned());
    }
    let ghost head = views(out@);
    assert(head =~= (match env_db {
        Some(e) => seq![e@],
        None => Seq::<Seq<char>>::empty(),
    }));
    let ghost pv = profile_views(profiles@);
    let mut i: usize = 0;
    assert(pv.take(0) =~= Seq::<(Seq<char>, Option<Seq<char>>)>::empty());
    assert(head + profiles_candidates(pv.take(0)) =~= head);
    while i < profiles.len()
        invariant
            i <= profiles@.len(),
            pv == profile_views(profiles@),
            views(out@) == head + profiles_candidates(pv.take(i as int)),
        decreases profiles@.len() - i,
    {
        let ghost before = views(out@);
        let (dir, data) = (&profiles[i].0, &profiles[i].1);
        if let Some(d) = data {
            out.push(join_path(d.as_str(), "zotero.sqlite"));
        }
        out.push(join_path(dir.as_str(), "zotero.sqlite"));
        proof {
            assert(pv.take(i + 1).drop_last() =~= pv.take(i as int));
            assert(pv.take(i + 1).last() == pv[i as int]);
            assert(views(out@) =~= before + profile_candidates(pv[i as int]));
        }
        i = i + 1;
    }
    assert(pv.take(profiles@.len() as int) =~= pv);
    let ghost mid = views(out@);
    if let Some(h) = home {
        let z = join_path(h, "Zotero");
        out.push(join_path(z.as_str(), "zotero.sqlite"));
    }
    proof {
        match home {
            Some(h) => {
                assert(views(out@) =~= mid + seq![db_in(path_join(h@, "Zotero"@))]);
            },
            None => {
                assert(views(out@) =~= mid + Seq::<Seq<char>>::empty());
            },
        }
    }
    out
}

} // verus!
