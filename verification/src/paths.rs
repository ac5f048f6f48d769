//! Slash-separated file system paths, as plain strings.
//!
//! These functions follow `std::path::Path` on Unix for the forms they are
//! used with: joining a relative or absolute path onto a base, the parent and
//! final component, the extension, and component-wise prefixes.
use vstd::prelude::*;
use crate::text::{chars_of, push_str, string_of};

verus! {

/// The operating systems whose per-user directories are laid out
/// differently.
#[derive(Copy, Clone, Debug, PartialEq, Eq)]
pub enum Platform {
    MacOs,
    Linux,
    Other,
}

/// `rel` joined onto `base`: an absolute `rel` replaces `base`, otherwise a
/// separator is inserted unless `base` is empty or already ends with one.
pub open spec fn path_join(base: Seq<char>, rel: Seq<char>) -> Seq<char> {
    if rel.len() > 0 && rel[0] == '/' {
        rel
    } else if base.len() == 0 {
        rel
    } else if base.last() == '/' {
        base + rel
    } else {
        base + "/"@ + rel
    }
}

/// Joins `rel` onto `base`.
pub fn join_path(base: &str, rel: &str) -> (r: String)
    ensures
        r@ == path_join(base@, rel@),
{
    let b = chars_of(base);
    let r = chars_of(rel);
    if r.len() > 0 && r[0] == '/' {
        return rel.to_owned();
    }
    if b.len() == 0 {
        return rel.to_owned();
    }
    let mut out = base.to_owned();
    if b[b.len() - 1] != '/' {
        push_str(&mut out, "/");
    }
    push_str(&mut out, rel);
    out
}

/// `path` lies at or under `root`, comparing whole components.
pub open spec fn path_under(path: Seq<char>, root: Seq<char>) -> bool {
    ||| path == root
    ||| (root.len() > 0 && root.len() < path.len() && path.take(root.len() as int) == root && (
    root.last() == '/' || path[root.len() as int] == '/'))
}

/// Whether `path` lies at or under `root`, comparing whole components.
pub fn is_path_under(path: &str, root: &str) -> (b: bool)
    ensures
        b == path_under(path@, root@),
{
    let p = chars_of(path);
    let r = chars_of(root);
    if p.len() == r.len() {
        let mut i: usize = 0;
        while i < p.len()
            invariant
                p@ == path@,
                r@ == root@,
                p@.len() == r@.len(),
                i <= p@.len(),
                forall|j: int| 0 <= j < i ==> p@[j] == r@[j],
            decreases p@.len() - i,
        {
            if p[i] != r[i] {
                assert(p@ != r@ && !(r@.len() < p@.len()));
                return false;
            }
            i = i + 1;
        }
        assert(p@ == r@);
        return true;
    }
    if r.len() == 0 || r.len() > p.len() {
        return false;
    }
    let mut i: usize = 0;
    while i < r.len()
        invariant
            p@ == path@,
            r@ == root@,
            r@.len() < p@.len(),
            i <= r@.len(),
            forall|j: int| 0 <= j < i ==> p@[j] == r@[j],
        decreases r@.len() - i,
    {
        if p[i] != r[i] {
            assert(p@.take(r@.len() as int)[i as int] != r@[i as int]);
            return false;
        }
        i = i + 1;
    }
    assert(p@.take(r@.len() as int) == r@);
    r[r.len() - 1] == '/' || p[r.len()] == '/'
}

/// Position just after the last separator of `s`, or 0 without one.
pub open spec fn after_last_sep(s: Seq<char>) -> int
    decreases s.len(),
{
    if s.len() == 0 {
        0
    } else if s.last() == '/' {
        s.len() as int
    } else {
        after_last_sep(s.drop_last())
    }
}

/// A relative path that starts with the current directory: `.` alone or
/// followed by a separator.
pub open spec fn cur_dir_start(p: Seq<char>) -> bool {
    p.len() > 0 && p[0] == '.' && (p.len() == 1 || p[1] == '/')
}

/// Where the components of a path after its start begin: after a leading
/// root separator or a leading current directory, else at 0.
pub open spec fn body_start(p: Seq<char>) -> nat {
    if p.len() > 0 && p[0] == '/' {
        1
    } else if cur_dir_start(p) {
        1
    } else {
        0
    }
}

/// The last segment of `s` after `before`, and what stands before it and its
/// separator.
pub open spec fn last_segment(s: Seq<char>, before: nat) -> (Seq<char>, Seq<char>) {
    let a = after_last_sep(s);
    if a > before {
        (s.skip(a), s.take(a - 1))
    } else {
        (s.skip(before as int), s.take(before as int))
    }
}

/// A segment that names no component: empty (between two separators, or
/// after a trailing one) or `.`.
pub open spec fn skippable(seg: Seq<char>) -> bool {
    seg.len() == 0 || seg == "."@
}

/// The last component of `s` after `before`, with what stands before it:
/// empty and `.` segments are passed over, as `std::path::Path` does.
pub open spec fn last_component(s: Seq<char>, before: nat) -> Option<(Seq<char>, Seq<char>)>
    decreases s.len(),
{
    if s.len() <= before {
        None
    } else {
        proof {
            lemma_after_last_sep_has_no_sep(s);
        }
        let (seg, rest) = last_segment(s, before);
        if skippable(seg) {
            last_component(rest, before)
        } else {
            Some((seg, rest))
        }
    }
}

/// `s` without trailing separators and `.` segments after `before`.
pub open spec fn trim_right(s: Seq<char>, before: nat) -> Seq<char>
    decreases s.len(),
{
    if s.len() <= before {
        s
    } else {
        proof {
            lemma_after_last_sep_has_no_sep(s);
        }
        let (seg, rest) = last_segment(s, before);
        if skippable(seg) {
            trim_right(rest, before)
        } else {
            s
        }
    }
}

/// The final component of a path, as `std::path::Path::file_name` gives it
/// on Unix: the last component when it names a file or directory (not the
/// root, the current directory, nothing, or `..`).
pub open spec fn file_name(p: Seq<char>) -> Option<Seq<char>> {
    match last_component(p, body_start(p)) {
        Some((seg, _)) => if seg == ".."@ {
            None
        } else {
            Some(seg)
        },
        None => None,
    }
}

/// What follows the last separator of a text holds no separator.
pub proof fn lemma_after_last_sep_has_no_sep(s: Seq<char>)
    ensures
        0 <= after_last_sep(s) <= s.len(),
        forall|i: int| after_last_sep(s) <= i < s.len() ==> s[i] != '/',
    decreases s.len(),
{
    if s.len() > 0 && s.last() != '/' {
        lemma_after_last_sep_has_no_sep(s.drop_last());
        assert forall|i: int| after_last_sep(s) <= i < s.len() implies s[i] != '/' by {
            if i < s.len() - 1 {
                assert(s[i] == s.drop_last()[i]);
            }
        }
    }
}

proof fn lemma_last_component_seg(s: Seq<char>, before: nat)
    ensures
        last_component(s, before) matches Some((seg, rest)) ==> seg.len() > 0 && forall|i: int|
            0 <= i < seg.len() ==> seg[i] != '/',
    decreases s.len(),
{
    if s.len() > before {
        lemma_after_last_sep_has_no_sep(s);
        let a = after_last_sep(s);
        let (seg, rest) = last_segment(s, before);
        if skippable(seg) {
            lemma_last_component_seg(rest, before);
        } else {
            let k: int = if a > before {
                a
            } else {
                before as int
            };
            assert(seg == s.skip(k));
            assert forall|i: int| 0 <= i < seg.len() implies seg[i] != '/' by {
                assert(seg[i] == s[k + i]);
            }
        }
    }
}

/// A file name holds no separator.
pub proof fn lemma_file_name_has_no_sep(p: Seq<char>)
    ensures
        file_name(p) matches Some(n) ==> n.len() > 0 && forall|i: int| 0 <= i < n.len() ==> n[i] != '/',
{
    lemma_last_component_seg(p, body_start(p));
}

/// Containment goes by whole components: a path under a root begins with
/// the root; the root itself and everything below it behind a `/` lie under
/// it; and a path that merely extends the root's last component, such as
/// `/data2` against `/data`, does not.
pub proof fn lemma_path_under_components(root: Seq<char>, rest: Seq<char>, path: Seq<char>)
    ensures
        path_under(path, root) ==> root.is_prefix_of(path),
        path_under(root, root),
        root.len() > 0 ==> path_under(root + seq!['/'] + rest, root),
        root.len() > 0 && root.last() != '/' && rest.len() > 0 && rest[0] != '/' ==> !path_under(root + rest, root),
{
    if path_under(path, root) && path != root {
        assert(path.subrange(0, root.len() as int) =~= path.take(root.len() as int));
    }
    if root.len() > 0 {
        let p = root + seq!['/'] + rest;
        assert(p.take(root.len() as int) =~= root);
        assert(p[root.len() as int] == '/');
    }
    if root.len() > 0 && rest.len() > 0 {
        let p = root + rest;
        assert(p[root.len() as int] == rest[0]);
        assert(p.len() > root.len());
    }
}

/// A name without separators joined onto a directory that lies under a
/// root lies under that root too.
pub proof fn lemma_join_stays_under(dir: Seq<char>, name: Seq<char>, root: Seq<char>)
    requires
        path_under(dir, root),
        dir.len() > 0,
        name.len() > 0,
        name[0] != '/',
    ensures
        path_under(path_join(dir, name), root),
{
    reveal_strlit("/");
    let j = path_join(dir, name);
    if dir.last() == '/' {
        assert(j == dir + name);
    } else {
        assert(j == dir + "/"@ + name);
        assert(j[dir.len() as int] == '/');
    }
    assert(j.take(dir.len() as int) =~= dir);
    if dir != root {
        assert(j.take(root.len() as int) =~= dir.take(root.len() as int));
        assert(j[root.len() as int] == dir[root.len() as int]);
    } else {
        assert(j.take(root.len() as int) =~= root);
    }
}

/// Position of the last `.` of `s`, if any.
pub open spec fn last_dot(s: Seq<char>) -> Option<int>
    decreases s.len(),
{
    if s.len() == 0 {
        None
    } else if s.last() == '.' {
        Some(s.len() - 1)
    } else {
        last_dot(s.drop_last())
    }
}

/// The extension of a path: what follows the last `.` of its file name,
/// unless that dot starts the name.
pub open spec fn extension(p: Seq<char>) -> Option<Seq<char>> {
    match file_name(p) {
        Some(name) => match last_dot(name) {
            Some(i) => if i == 0 {
                None
            } else {
                Some(name.skip(i + 1))
            },
            None => None,
        },
        None => None,
    }
}

/// Where the body of a path starts.
fn body_start_exec(p: &Vec<char>) -> (r: usize)
    ensures
        r == body_start(p@),
{
    if p.len() > 0 && p[0] == '/' {
        1
    } else if p.len() > 0 && p[0] == '.' && (p.len() == 1 || p[1] == '/') {
        1
    } else {
        0
    }
}

/// Position just after the last separator among the first `len` characters.
fn after_last_sep_in(p: &Vec<char>, len: usize) -> (a: usize)
    requires
        len <= p@.len(),
    ensures
        a == after_last_sep(p@.take(len as int)),
        a <= len,
{
    let mut k: usize = len;
    while k > 0 && p[k - 1] != '/'
        invariant
            k <= len <= p@.len(),
            after_last_sep(p@.take(len as int)) == after_last_sep(p@.take(k as int)),
        decreases k,
    {
        assert(p@.take(k as int).drop_last() =~= p@.take(k - 1));
        k = k - 1;
    }
    if k == 0 {
        assert(p@.take(0) =~= Seq::<char>::empty());
    } else {
        assert(p@.take(k as int).last() == p@[k - 1]);
    }
    k
}

/// Where the last segment of the first `len` characters starts, and how
/// long the part before it is.
fn last_segment_exec(p: &Vec<char>, len: usize, before: usize) -> (r: (usize, usize))
    requires
        before < len <= p@.len(),
    ensures
        r.0 <= len && r.1 < len,
        last_segment(p@.take(len as int), before as nat) == (p@.subrange(r.0 as int, len as int), p@.take(
            r.1 as int,
        )),
{
    let a = after_last_sep_in(p, len);
    let ghost s = p@.take(len as int);
    if a > before {
        assert(s.skip(a as int) =~= p@.subrange(a as int, len as int));
        assert(s.take(a - 1) =~= p@.take(a - 1));
        (a, a - 1)
    } else {
        assert(s.skip(before as int) =~= p@.subrange(before as int, len as int));
        assert(s.take(before as int) =~= p@.take(before as int));
        (before, before)
    }
}

/// Whether the characters `p[start..end]` form a skippable segment.
fn skippable_exec(p: &Vec<char>, start: usize, end: usize) -> (b: bool)
    requires
        start <= end <= p@.len(),
    ensures
        b == skippable(p@.subrange(start as int, end as int)),
{
    proof {
        reveal_strlit(".");
    }
    if end == start {
        true
    } else if end - start == 1 && p[start] == '.' {
        assert(p@.subrange(start as int, end as int) =~= "."@);
        true
    } else {
        let ghost seg = p@.subrange(start as int, end as int);
        assert("."@.len() == 1 && "."@[0] == '.');
        if end - start == 1 {
            assert(seg[0] != "."@[0]);
        } else {
            assert(seg.len() != "."@.len());
        }
        assert(seg.len() > 0 && seg != "."@);
        false
    }
}

/// The last component of a path after `before`: where it starts and ends,
/// and how long the part before it is.
fn last_component_exec(p: &Vec<char>, before: usize) -> (r: Option<(usize, usize, usize)>)
    requires
        before <= p@.len(),
    ensures
        match last_component(p@, before as nat) {
            Some((seg, rest)) => r matches Some((ss, se, rl)) && ss <= se <= p@.len() && rl <= p@.len()
                && p@.subrange(ss as int, se as int) == seg && p@.take(rl as int) == rest,
            None => r is None,
        },
{
    let mut len: usize = p.len();
    assert(p@.take(p@.len() as int) =~= p@);
    while len > before
        invariant
            len <= p@.len(),
            last_component(p@, before as nat) == last_component(p@.take(len as int), before as nat),
        decreases len,
    {
        let (ss, rl) = last_segment_exec(p, len, before);
        proof {
            lemma_after_last_sep_has_no_sep(p@.take(len as int));
        }
        if skippable_exec(p, ss, len) {
            assert(p@.take(rl as int) =~= p@.take(len as int).take(rl as int));
            len = rl;
        } else {
            return Some((ss, len, rl));
        }
    }
    None
}

/// The length of the first `len` characters once trailing separators and
/// `.` segments after `before` are trimmed.
fn trim_right_exec(p: &Vec<char>, len: usize, before: usize) -> (r: usize)
    requires
        len <= p@.len(),
    ensures
        r <= len,
        p@.take(r as int) == trim_right(p@.take(len as int), before as nat),
{
    let mut n: usize = len;
    while n > before
        invariant
            n <= len <= p@.len(),
            trim_right(p@.take(len as int), before as nat) == trim_right(p@.take(n as int), before as nat),
        decreases n,
    {
        let (ss, rl) = last_segment_exec(p, n, before);
        proof {
            lemma_after_last_sep_has_no_sep(p@.take(n as int));
        }
        if skippable_exec(p, ss, n) {
            n = rl;
        } else {
            return n;
        }
    }
    n
}

/// The final component of a path.
pub fn path_file_name(path: &str) -> (r: Option<String>)
    ensures
        match file_name(path@) {
            Some(n) => r matches Some(s) && s@ == n,
            None => r is None,
        },
{
    let p = chars_of(path);
    let before = body_start_exec(&p);
    proof {
        reveal_strlit("..");
    }
    match last_component_exec(&p, before) {
        Some((ss, se, _)) => {
            if se - ss == 2 && p[ss] == '.' && p[ss + 1] == '.' {
                assert(p@.subrange(ss as int, se as int) =~= ".."@);
                None
            } else {
                proof {
                    if se - ss == 2 {
                        assert(p@.subrange(ss as int, se as int)[0] == p@[ss as int]);
                        assert(p@.subrange(ss as int, se as int)[1] == p@[ss + 1]);
                    }
                }
                Some(string_of(&p.as_slice()[ss..se]))
            }
        },
        None => None,
    }
}

/// The extension of a path.
pub fn path_extension(path: &str) -> (r: Option<String>)
    ensures
        match extension(path@) {
            Some(e) => r matches Some(s) && s@ == e,
            None => r is None,
        },
{
    match path_file_name(path) {
        Some(name) => {
            let n = chars_of(name.as_str());
            let mut i: usize = n.len();
            assert(n@.take(n@.len() as int) == n@);
            while i > 0 && n[i - 1] != '.'
                invariant
                    i <= n@.len(),
                    last_dot(n@) == last_dot(n@.take(i as int)),
                decreases i,
            {
                assert(n@.take(i as int).drop_last() == n@.take(i - 1));
                i = i - 1;
            }
            proof {
                assert(n@.take(n@.len() as int) == n@);
            }
            if i == 0 {
                None
            } else if i == 1 {
                assert(last_dot(n@.take(1)) == Some(0int));
                None
            } else {
                assert(n@.take(i as int).last() == '.');
                assert(last_dot(n@) == Some(i - 1));
                Some(string_of(&n.as_slice()[i..n.len()]))
            }
        },
        None => None,
    }
}

/// The parent of a path, as `std::path::Path::parent` gives it on Unix:
/// what stands before its last component, without trailing separators or
/// `.` segments; the empty path for a lone current directory; nothing for
/// the root or the empty path.
pub open spec fn parent(p: Seq<char>) -> Option<Seq<char>> {
    match last_component(p, body_start(p)) {
        Some((_, rest)) => Some(trim_right(rest, body_start(p))),
        None => if cur_dir_start(p) {
            Some(Seq::empty())
        } else {
            None
        },
    }
}

/// The parent of a path.
pub fn path_parent(path: &str) -> (r: Option<String>)
    ensures
        match parent(path@) {
            Some(q) => r matches Some(s) && s@ == q,
            None => r is None,
        },
{
    let p = chars_of(path);
    let before = body_start_exec(&p);
    match last_component_exec(&p, before) {
        Some((_, _, rl)) => {
            let t = trim_right_exec(&p, rl, before);
            assert(p@.take(rl as int).take(t as int) =~= p@.take(t as int));
            assert(p@.take(t as int) =~= p@.subrange(0, t as int));
            Some(string_of(&p.as_slice()[0..t]))
        },
        None => {
            if p.len() > 0 && p[0] == '.' && (p.len() == 1 || p[1] == '/') {
                Some(String::new())
            } else {
                None
            }
        },
    }
}

} // verus!
