//! Paragraph-aware chunking of text for embedding.
//!
//! Text is split at blank lines (`"\n\n"`) into paragraphs, which are packed
//! into chunks of at most a given number of UTF-8 bytes. A paragraph that is
//! too long on its own is split at sentence ends (`". "`, `"! "`, `"? "`),
//! and a piece that is still too long is cut between characters.
use vstd::prelude::*;
use crate::text::{
    byte_len_sat, byte_len_sat_exec, lemma_byte_len_sat_push, char_len_utf8, char_width, chars_of, lemma_trim_len, lemma_utf8_len_ge_len, lemma_utf8_len_concat,
    lemma_utf8_len_prefix, lemma_utf8_len_subrange, occurs_at, occurs_at_exec, starts_with, string_of, trim,
    trim_exec, utf8_len, utf8_len_exec, join,
};

verus! {

/// The views of character vectors.
pub open spec fn vviews(v: Seq<Vec<char>>) -> Seq<Seq<char>> {
    v.map_values(|x: Vec<char>| x@)
}

/// `a + b`, saturating at `usize::MAX`.
pub open spec fn sat_add(a: nat, b: nat) -> nat {
    if a + b <= usize::MAX {
        a + b
    } else {
        usize::MAX as nat
    }
}

/// The pieces of `cur + s` between occurrences of `sep`, found from left to
/// right without overlap, as `str::split` gives them; `cur` is the piece
/// begun before `s`.
pub open spec fn split_acc(s: Seq<char>, sep: Seq<char>, cur: Seq<char>) -> Seq<Seq<char>>
    decreases s.len(),
{
    if s.len() == 0 {
        seq![cur]
    } else if sep.len() > 0 && starts_with(s, sep) {
        seq![cur] + split_acc(s.skip(sep.len() as int), sep, Seq::empty())
    } else {
        split_acc(s.drop_first(), sep, cur.push(s[0]))
    }
}

/// The pieces of `parts`, trimmed, without the blank ones.
pub open spec fn nonblank(parts: Seq<Seq<char>>) -> Seq<Seq<char>>
    decreases parts.len(),
{
    if parts.len() == 0 {
        Seq::empty()
    } else {
        let r = nonblank(parts.drop_last());
        let t = trim(parts.last());
        if t.len() > 0 {
            r.push(t)
        } else {
            r
        }
    }
}

/// The trimmed, non-blank pieces of `s` between occurrences of `sep`.
pub open spec fn pieces_of(s: Seq<char>, sep: Seq<char>) -> Seq<Seq<char>> {
    nonblank(split_acc(s, sep, Seq::empty()))
}

/// Cutting between characters: the characters are gathered while the piece
/// stays within `max` bytes; the state is the pieces cut so far and the
/// piece being gathered.
pub open spec fn hard_fold(s: Seq<char>, max: nat) -> (Seq<Seq<char>>, Seq<char>)
    decreases s.len(),
{
    if s.len() == 0 {
        (Seq::empty(), Seq::empty())
    } else {
        let st = hard_fold(s.drop_last(), max);
        let c = s.last();
        if sat_add(byte_len_sat(st.1), char_width(c)) > max {
            (
                if st.1.len() > 0 {
                    st.0.push(st.1)
                } else {
                    st.0
                },
                seq![c],
            )
        } else {
            (st.0, st.1.push(c))
        }
    }
}

/// The pieces that a text is cut into between characters, each of at most
/// `max` bytes unless it is a single wider character; with a zero limit no
/// piece fits, and there are none.
pub open spec fn hard_split_spec(s: Seq<char>, max: nat) -> Seq<Seq<char>> {
    if max == 0 {
        Seq::empty()
    } else {
        let st = hard_fold(s, max);
        if st.1.len() > 0 {
            st.0.push(st.1)
        } else {
            st.0
        }
    }
}

/// The pieces of `s` between occurrences of `sep`.
pub(crate) fn split_chars(s: &[char], sep: &[char]) -> (r: Vec<Vec<char>>)
    requires
        sep@.len() > 0,
    ensures
        vviews(r@) == split_acc(s@, sep@, Seq::empty()),
{
    let mut out: Vec<Vec<char>> = Vec::new();
    let mut cur: Vec<char> = Vec::new();
    let mut i: usize = 0;
    assert(s@.skip(0) == s@);
    assert(vviews(out@) =~= Seq::<Seq<char>>::empty());
    while i < s.len()
        invariant
            i <= s@.len(),
            sep@.len() > 0,
            vviews(out@) + split_acc(s@.skip(i as int), sep@, cur@) == split_acc(s@, sep@, Seq::empty()),
        decreases s@.len() - i,
    {
        let ghost rest = s@.skip(i as int);
        let ghost before = vviews(out@);
        if occurs_at_exec(s, sep, i) {
            assert(starts_with(rest, sep@)) by {
                assert(rest.subrange(0, sep@.len() as int) == s@.subrange(i as int, i + sep@.len()));
            }
            assert(rest.skip(sep@.len() as int) == s@.skip(i + sep@.len()));
            let piece = cur;
            out.push(piece);
            cur = Vec::new();
            assert(vviews(out@) == before.push(piece@));
            assert(before + (seq![piece@] + split_acc(s@.skip(i + sep@.len()), sep@, Seq::empty()))
                == before.push(piece@) + split_acc(s@.skip(i + sep@.len()), sep@, Seq::empty()));
            assert(cur@ == Seq::<char>::empty());
            i = i + sep.len();
        } else {
            assert(!starts_with(rest, sep@)) by {
                if starts_with(rest, sep@) {
                    assert(rest.subrange(0, sep@.len() as int) == s@.subrange(i as int, i + sep@.len()));
                }
            }
            assert(rest[0] == s@[i as int]);
            assert(rest.drop_first() == s@.skip(i + 1));
            cur.push(s[i]);
            i = i + 1;
        }
    }
    assert(s@.skip(i as int).len() == 0);
    let ghost before = vviews(out@);
    out.push(cur);
    assert(vviews(out@) == before + seq![out@.last()@]);
    out
}

/// The trimmed, non-blank pieces of `s` between occurrences of `sep`.
fn pieces_exec(s: &[char], sep: &[char]) -> (r: Vec<Vec<char>>)
    requires
        sep@.len() > 0,
    ensures
        vviews(r@) == pieces_of(s@, sep@),
{
    let parts = split_chars(s, sep);
    let ghost pv = vviews(parts@);
    let mut out: Vec<Vec<char>> = Vec::new();
    let mut i: usize = 0;
    assert(pv.take(0) =~= Seq::<Seq<char>>::empty());
    assert(vviews(out@) =~= Seq::<Seq<char>>::empty());
    while i < parts.len()
        invariant
            i <= parts@.len(),
            pv == vviews(parts@),
            vviews(out@) == nonblank(pv.take(i as int)),
        decreases parts@.len() - i,
    {
        let t = trim_exec(parts[i].as_slice());
        assert(pv.take(i + 1).drop_last() =~= pv.take(i as int));
        assert(pv.take(i + 1).last() == parts@[i as int]@);
        if t.len() > 0 {
            let ghost before = vviews(out@);
            out.push(t);
            assert(vviews(out@) =~= before.push(trim(parts@[i as int]@)));
        }
        i = i + 1;
    }
    assert(pv.take(parts@.len() as int) =~= pv);
    out
}

/// Cuts `s` between characters into pieces of at most `max` bytes.
pub fn hard_split(s: &[char], max: usize) -> (r: Vec<Vec<char>>)
    ensures
        vviews(r@) == hard_split_spec(s@, max as nat),
{
    if max == 0 {
        let v: Vec<Vec<char>> = Vec::new();
        assert(vviews(v@) =~= Seq::<Seq<char>>::empty());
        return v;
    }
    let mut chunks: Vec<Vec<char>> = Vec::new();
    let mut cur: Vec<char> = Vec::new();
    let mut run: usize = 0;
    let mut i: usize = 0;
    assert(s@.take(0) =~= Seq::<char>::empty());
    assert(vviews(chunks@) =~= Seq::<Seq<char>>::empty());
    while i < s.len()
        invariant
            i <= s@.len(),
            max > 0,
            (vviews(chunks@), cur@) == hard_fold(s@.take(i as int), max as nat),
            run == byte_len_sat(cur@),
        decreases s@.len() - i,
    {
        let c = s[i];
        let w = char_len_utf8(c);
        let ghost prev = s@.take(i as int);
        assert(s@.take(i + 1).drop_last() == prev);
        assert(s@.take(i + 1).last() == c);
        proof {
            lemma_byte_len_sat_push(cur@, c);
        }
        let joined = run.saturating_add(w);
        if joined > max {
            let ghost before = vviews(chunks@);
            if cur.len() > 0 {
                let piece = cur;
                chunks.push(piece);
                assert(vviews(chunks@) == before.push(piece@));
            }
            cur = Vec::new();
            cur.push(c);
            run = w;
            proof {
                assert(cur@ == Seq::<char>::empty().push(c));
                lemma_byte_len_sat_push(Seq::<char>::empty(), c);
            }
        } else {
            cur.push(c);
            run = joined;
        }
        i = i + 1;
    }
    assert(s@.take(s@.len() as int) == s@);
    if cur.len() > 0 {
        let ghost before = vviews(chunks@);
        let piece = cur;
        chunks.push(piece);
        assert(vviews(chunks@) == before.push(piece@));
    }
    chunks
}

/// The state after packing `pieces` joined by `sep` into chunks of at most
/// `max` bytes: the finished chunks and the chunk being filled. A piece
/// joins the current chunk while the result stays within the limit; a piece
/// too long on its own is split with the separators `rest`.
pub open spec fn pack(pieces: Seq<Seq<char>>, sep: Seq<char>, max: nat, rest: Seq<Seq<char>>) -> (Seq<Seq<char>>, Seq<char>)
    decreases rest.len(), pieces.len(),
{
    if pieces.len() == 0 {
        (Seq::empty(), Seq::empty())
    } else {
        let st = pack(pieces.drop_last(), sep, max, rest);
        let piece = pieces.last();
        let joined = sat_add(sat_add(byte_len_sat(st.1), byte_len_sat(sep)), byte_len_sat(piece));
        let st2 = if st.1.len() > 0 && joined > max {
            (st.0.push(st.1), Seq::<char>::empty())
        } else {
            st
        };
        if byte_len_sat(piece) > max {
            (
                (if st2.1.len() > 0 {
                    st2.0.push(st2.1)
                } else {
                    st2.0
                }) + split_long(piece, max, rest),
                Seq::empty(),
            )
        } else {
            (
                st2.0,
                if st2.1.len() > 0 {
                    st2.1 + sep + piece
                } else {
                    piece
                },
            )
        }
    }
}

/// The chunks of a packing state: the finished ones, then the one being
/// filled unless it is empty.
pub open spec fn flush(st: (Seq<Seq<char>>, Seq<char>)) -> Seq<Seq<char>> {
    if st.1.len() > 0 {
        st.0.push(st.1)
    } else {
        st.0
    }
}

/// The chunks of a segment too long to stay whole: it is split at the first
/// separator of `seps` that cuts it into two pieces or more, and the pieces
/// are packed; without such a separator it is cut between characters.
pub open spec fn split_long(seg: Seq<char>, max: nat, seps: Seq<Seq<char>>) -> Seq<Seq<char>>
    decreases seps.len(), 0nat,
{
    if seps.len() == 0 {
        hard_split_spec(seg, max)
    } else {
        let pieces = pieces_of(seg, seps[0]);
        if pieces.len() <= 1 {
            split_long(seg, max, seps.drop_first())
        } else {
            flush(pack(pieces, seps[0], max, seps.drop_first()))
        }
    }
}

/// The sentence ends at which long paragraphs are split, in order of
/// preference.
pub open spec fn sentence_seps() -> Seq<Seq<char>> {
    seq![". "@, "! "@, "? "@]
}

/// The chunks of a text: its trimmed non-blank paragraphs packed into
/// chunks of at most `max` bytes, joined by blank lines.
pub open spec fn chunks_of(text: Seq<char>, max: nat) -> Seq<Seq<char>> {
    flush(pack(pieces_of(text, "\n\n"@), "\n\n"@, max, sentence_seps()))
}

fn push_all(v: &mut Vec<char>, s: &[char])
    ensures
        final(v)@ == old(v)@ + s@,
{
    let ghost start = v@;
    let mut i: usize = 0;
    while i < s.len()
        invariant
            i <= s@.len(),
            v@ == start + s@.take(i as int),
        decreases s@.len() - i,
    {
        v.push(s[i]);
        i = i + 1;
        assert(v@ =~= start + s@.take(i as int));
    }
    assert(s@.take(s@.len() as int) == s@);
}

proof fn lemma_byte_len_sat_concat(a: Seq<char>, b: Seq<char>)
    ensures
        byte_len_sat(a + b) == sat_add(byte_len_sat(a), byte_len_sat(b)),
{
    crate::text::lemma_utf8_len_concat(a, b);
}

/// Splits a segment that is too long to stay whole, trying the separators
/// `seps` in order.
pub fn split_long_segment(segment: &[char], max: usize, seps: &[Vec<char>]) -> (r: Vec<Vec<char>>)
    requires
        forall|k: int| 0 <= k < seps@.len() ==> (#[trigger] seps@[k])@.len() > 0,
    ensures
        vviews(r@) == split_long(segment@, max as nat, vviews(seps@)),
    decreases seps@.len(),
{
    if seps.len() == 0 {
        return hard_split(segment, max);
    }
    let sep = seps[0].as_slice();
    let rest = &seps[1..seps.len()];
    let ghost restv = vviews(rest@);
    assert(restv =~= vviews(seps@).drop_first());
    assert(sep@ == vviews(seps@)[0]);
    let pieces = pieces_exec(segment, sep);
    if pieces.len() <= 1 {
        return split_long_segment(segment, max, rest);
    }
    let ghost pv = vviews(pieces@);
    let sep_len = byte_len_sat_exec(sep);
    let mut chunks: Vec<Vec<char>> = Vec::new();
    let mut cur: Vec<char> = Vec::new();
    let mut cur_len: usize = 0;
    let mut i: usize = 0;
    assert(pv.take(0) =~= Seq::<Seq<char>>::empty());
    assert(vviews(chunks@) =~= Seq::<Seq<char>>::empty());
    while i < pieces.len()
        invariant
            i <= pieces@.len(),
            pv == vviews(pieces@),
            restv == vviews(rest@),
            rest@.len() < seps@.len(),
            forall|k: int| 0 <= k < rest@.len() ==> (#[trigger] rest@[k])@.len() > 0,
            sep_len == byte_len_sat(sep@),
            (vviews(chunks@), cur@) == pack(pv.take(i as int), sep@, max as nat, restv),
            cur_len == byte_len_sat(cur@),
        decreases pieces@.len() - i,
    {
        let piece = pieces[i].as_slice();
        let piece_len = byte_len_sat_exec(piece);
        assert(pv.take(i + 1).drop_last() =~= pv.take(i as int));
        assert(pv.take(i + 1).last() == piece@);
        let joined = cur_len.saturating_add(sep_len).saturating_add(piece_len);
        if cur.len() > 0 && joined > max {
            let ghost before = vviews(chunks@);
            let done = cur;
            chunks.push(done);
            assert(vviews(chunks@) == before.push(done@));
            cur = Vec::new();
            cur_len = 0;
        }
        if piece_len > max {
            if cur.len() > 0 {
                let ghost before = vviews(chunks@);
                let done = cur;
                chunks.push(done);
                assert(vviews(chunks@) == before.push(done@));
                cur = Vec::new();
                cur_len = 0;
            }
            let mut sub = split_long_segment(piece, max, rest);
            let ghost before = vviews(chunks@);
            let ghost subv = vviews(sub@);
            chunks.append(&mut sub);
            assert(vviews(chunks@) =~= before + subv);
        } else {
            if cur.len() > 0 {
                proof {
                    lemma_byte_len_sat_concat(cur@, sep@);
                    lemma_byte_len_sat_concat(cur@ + sep@, piece@);
                }
                push_all(&mut cur, sep);
                push_all(&mut cur, piece);
                cur_len = joined;
            } else {
                let mut fresh: Vec<char> = Vec::new();
                push_all(&mut fresh, piece);
                assert(fresh@ =~= piece@);
                cur = fresh;
                cur_len = piece_len;
            }
        }
        i = i + 1;
    }
    assert(pv.take(pieces@.len() as int) =~= pv);
    if cur.len() > 0 {
        let ghost before = vviews(chunks@);
        let done = cur;
        chunks.push(done);
        assert(vviews(chunks@) == before.push(done@));
    }
    chunks
}

/// The views of strings.
fn strings_of(v: Vec<Vec<char>>) -> (r: Vec<String>)
    ensures
        crate::text::views(r@) == vviews(v@),
{
    let mut out: Vec<String> = Vec::new();
    let mut i: usize = 0;
    while i < v.len()
        invariant
            i <= v@.len(),
            crate::text::views(out@) == vviews(v@).take(i as int),
        decreases v@.len() - i,
    {
        let sv = string_of(v[i].as_slice());
        let ghost before = out@;
        out.push(sv);
        assert(out@ == before.push(sv));
        assert(crate::text::views(out@) =~= crate::text::views(before).push(sv@));
        assert(vviews(v@).take(i + 1) =~= vviews(v@).take(i as int).push(v@[i as int]@));
        i = i + 1;
    }
    assert(vviews(v@).take(v@.len() as int) =~= vviews(v@));
    out
}

/// Splits `text` into chunks of at most `max_chars` characters each:
/// paragraphs are packed while the chunk stays within `max_chars` UTF-8
/// bytes, and a single character wider than a positive limit makes a chunk
/// of its own. With a limit of 0 no chunk fits, so there are none.
pub fn chunk_text(text: &str, max_chars: usize) -> (r: Vec<String>)
    ensures
        crate::text::views(r@) == chunks_of(text@, max_chars as nat),
        forall|k: int| 0 <= k < r@.len() ==> (#[trigger] r@[k])@.len() > 0 && r@[k]@.len() <= max_chars,
        max_chars >= 4 ==> forall|k: int| 0 <= k < r@.len() ==> byte_len_sat((#[trigger] r@[k])@) <= max_chars,
{
    let cs = chars_of(text);
    let para_sep = chars_of("\n\n");
    let mut seps: Vec<Vec<char>> = Vec::new();
    seps.push(chars_of(". "));
    seps.push(chars_of("! "));
    seps.push(chars_of("? "));
    proof {
        reveal_strlit("\n\n");
        reveal_strlit(". ");
        reveal_strlit("! ");
        reveal_strlit("? ");
    }
    assert(vviews(seps@) =~= sentence_seps());
    let paras = pieces_exec(cs.as_slice(), para_sep.as_slice());
    let ghost pv = vviews(paras@);
    let sep = para_sep.as_slice();
    let sep_len = byte_len_sat_exec(sep);
    let max = max_chars;
    let mut chunks: Vec<Vec<char>> = Vec::new();
    let mut cur: Vec<char> = Vec::new();
    let mut cur_len: usize = 0;
    let mut i: usize = 0;
    assert(pv.take(0) =~= Seq::<Seq<char>>::empty());
    assert(vviews(chunks@) =~= Seq::<Seq<char>>::empty());
    while i < paras.len()
        invariant
            i <= paras@.len(),
            pv == vviews(paras@),
            vviews(seps@) == sentence_seps(),
            forall|k: int| 0 <= k < seps@.len() ==> (#[trigger] seps@[k])@.len() > 0,
            sep@ == "\n\n"@,
            sep_len == byte_len_sat(sep@),
            (vviews(chunks@), cur@) == pack(pv.take(i as int), sep@, max as nat, sentence_seps()),
            cur_len == byte_len_sat(cur@),
        decreases paras@.len() - i,
    {
        let piece = paras[i].as_slice();
        let piece_len = byte_len_sat_exec(piece);
        assert(pv.take(i + 1).drop_last() =~= pv.take(i as int));
        assert(pv.take(i + 1).last() == piece@);
        let joined = cur_len.saturating_add(sep_len).saturating_add(piece_len);
        if cur.len() > 0 && joined > max {
            let ghost before = vviews(chunks@);
            let done = cur;
            chunks.push(done);
            assert(vviews(chunks@) == before.push(done@));
            cur = Vec::new();
            cur_len = 0;
        }
        if piece_len > max {
            if cur.len() > 0 {
                let ghost before = vviews(chunks@);
                let done = cur;
                chunks.push(done);
                assert(vviews(chunks@) == before.push(done@));
                cur = Vec::new();
                cur_len = 0;
            }
            let mut sub = split_long_segment(piece, max, seps.as_slice());
            let ghost before = vviews(chunks@);
            let ghost subv = vviews(sub@);
            chunks.append(&mut sub);
            assert(vviews(chunks@) =~= before + subv);
        } else {
            if cur.len() > 0 {
                proof {
                    lemma_byte_len_sat_concat(cur@, sep@);
                    lemma_byte_len_sat_concat(cur@ + sep@, piece@);
                }
                push_all(&mut cur, sep);
                push_all(&mut cur, piece);
                cur_len = joined;
            } else {
                let mut fresh: Vec<char> = Vec::new();
                push_all(&mut fresh, piece);
                assert(fresh@ =~= piece@);
                cur = fresh;
                cur_len = piece_len;
            }
        }
        i = i + 1;
    }
    assert(pv.take(paras@.len() as int) =~= pv);
    if cur.len() > 0 {
        let ghost before = vviews(chunks@);
        let done = cur;
        chunks.push(done);
        assert(vviews(chunks@) == before.push(done@));
    }
    proof {
        lemma_chunks_fit(text@, max as nat);
        assert forall|k: int| 0 <= k < chunks@.len() implies (#[trigger] chunks@[k])@.len() > 0 && chunks@[k]@.len()
            <= max by {
            assert(vviews(chunks@)[k] == chunks@[k]@);
            assert(chunk_fits(max as nat, chunks@[k]@));
            assert(chunks@[k].len() == chunks@[k]@.len());
            lemma_fit_char_count(max as nat, chunks@[k]@);
        }
        if max >= 4 {
            lemma_chunks_within_limit(text@, max as nat);
            assert forall|k: int| 0 <= k < chunks@.len() implies byte_len_sat((#[trigger] chunks@[k])@) <= max by {
                assert(vviews(chunks@)[k] == chunks@[k]@);
            }
        }
    }
    let r = strings_of(chunks);
    proof {
        assert forall|k: int| 0 <= k < r@.len() implies (#[trigger] r@[k])@ == chunks@[k]@ by {
            assert(crate::text::views(r@)[k] == vviews(chunks@)[k]);
        }
    }
    r
}

// ---------------------------------------------------------------------------
// Laws

/// A chunk is not empty, and fits in `max` bytes unless it is one character
/// wider than a positive limit.
pub open spec fn chunk_fits(max: nat, c: Seq<char>) -> bool {
    c.len() > 0 && (byte_len_sat(c) <= max || (c.len() == 1 && max > 0))
}

/// Every chunk fits.
pub open spec fn all_fit(max: nat, cs: Seq<Seq<char>>) -> bool {
    forall|k: int| 0 <= k < cs.len() ==> chunk_fits(max, #[trigger] cs[k])
}

/// The concatenation of pieces.
pub open spec fn concat(parts: Seq<Seq<char>>) -> Seq<char> {
    crate::text::join(parts, Seq::empty())
}

proof fn lemma_concat_push(parts: Seq<Seq<char>>, x: Seq<char>)
    ensures
        concat(parts.push(x)) == concat(parts) + x,
{
    assert(parts.push(x).drop_last() =~= parts);
    if parts.len() == 0 {
        assert(concat(parts) == Seq::<char>::empty());
        assert(parts.push(x)[0] == x);
        assert(Seq::<char>::empty() + x =~= x);
    } else {
        assert(concat(parts) + Seq::<char>::empty() =~= concat(parts));
    }
}

proof fn lemma_hard_fold(s: Seq<char>, max: nat)
    requires
        max > 0,
    ensures
        concat(hard_fold(s, max).0) + hard_fold(s, max).1 == s,
        all_fit(max, hard_fold(s, max).0),
        hard_fold(s, max).1.len() > 0 ==> chunk_fits(max, hard_fold(s, max).1),
        s.len() > 0 ==> hard_fold(s, max).1.len() > 0,
    decreases s.len(),
{
    if s.len() == 0 {
        assert(concat(Seq::<Seq<char>>::empty()) + Seq::<char>::empty() =~= s);
    } else {
        let p = s.drop_last();
        lemma_hard_fold(p, max);
        let st = hard_fold(p, max);
        let c = s.last();
        lemma_byte_len_sat_push(st.1, c);
        assert(s == p.push(c));
        if sat_add(byte_len_sat(st.1), char_width(c)) > max {
            if st.1.len() > 0 {
                lemma_concat_push(st.0, st.1);
                assert forall|k: int| 0 <= k < st.0.push(st.1).len() implies chunk_fits(
                    max,
                    #[trigger] st.0.push(st.1)[k],
                ) by {
                    if k < st.0.len() {
                        assert(st.0.push(st.1)[k] == st.0[k]);
                    }
                }
                assert(concat(st.0.push(st.1)) + seq![c] =~= s);
            } else {
                assert(concat(st.0) + seq![c] =~= s);
            }
        } else {
            assert(concat(st.0) + st.1.push(c) =~= s);
        }
    }
}

/// With a positive limit, cutting between characters loses and adds
/// nothing: the pieces, put back together, are the text.
pub proof fn lemma_hard_split_concat(s: Seq<char>, max: nat)
    requires
        max > 0,
    ensures
        concat(hard_split_spec(s, max)) == s,
{
    lemma_hard_fold(s, max);
    let st = hard_fold(s, max);
    if st.1.len() > 0 {
        lemma_concat_push(st.0, st.1);
    } else {
        assert(concat(st.0) + st.1 =~= concat(st.0));
    }
}

/// Every piece cut between characters is non-empty and fits, unless it is
/// one character wider than a positive limit.
pub proof fn lemma_hard_split_fits(s: Seq<char>, max: nat)
    ensures
        all_fit(max, hard_split_spec(s, max)),
{
    if max == 0 {
        return;
    }
    lemma_hard_fold(s, max);
    let st = hard_fold(s, max);
    if st.1.len() > 0 {
        assert forall|k: int| 0 <= k < st.0.push(st.1).len() implies chunk_fits(
            max,
            #[trigger] st.0.push(st.1)[k],
        ) by {
            if k < st.0.len() {
                assert(st.0.push(st.1)[k] == st.0[k]);
            }
        }
    }
}

proof fn lemma_nonblank_nonempty(parts: Seq<Seq<char>>)
    ensures
        forall|k: int| 0 <= k < nonblank(parts).len() ==> (#[trigger] nonblank(parts)[k]).len() > 0,
    decreases parts.len(),
{
    if parts.len() > 0 {
        lemma_nonblank_nonempty(parts.drop_last());
        let r = nonblank(parts.drop_last());
        let t = trim(parts.last());
        if t.len() > 0 {
            assert forall|k: int| 0 <= k < r.push(t).len() implies (#[trigger] r.push(t)[k]).len() > 0 by {
                if k < r.len() {
                    assert(r.push(t)[k] == r[k]);
                }
            }
        }
    }
}

proof fn lemma_all_fit_append(max: nat, a: Seq<Seq<char>>, b: Seq<Seq<char>>)
    requires
        all_fit(max, a),
        all_fit(max, b),
    ensures
        all_fit(max, a + b),
{
    assert forall|k: int| 0 <= k < (a + b).len() implies chunk_fits(max, #[trigger] (a + b)[k]) by {
        if k < a.len() {
            assert((a + b)[k] == a[k]);
        } else {
            assert((a + b)[k] == b[k - a.len()]);
        }
    }
}

proof fn lemma_all_fit_push(max: nat, a: Seq<Seq<char>>, x: Seq<char>)
    requires
        all_fit(max, a),
        chunk_fits(max, x),
    ensures
        all_fit(max, a.push(x)),
{
    assert forall|k: int| 0 <= k < a.push(x).len() implies chunk_fits(max, #[trigger] a.push(x)[k]) by {
        if k < a.len() {
            assert(a.push(x)[k] == a[k]);
        }
    }
}

proof fn lemma_pack_fits(pieces: Seq<Seq<char>>, sep: Seq<char>, max: nat, rest: Seq<Seq<char>>)
    requires
        forall|k: int| 0 <= k < pieces.len() ==> (#[trigger] pieces[k]).len() > 0,
    ensures
        all_fit(max, pack(pieces, sep, max, rest).0),
        pack(pieces, sep, max, rest).1.len() > 0 ==> byte_len_sat(pack(pieces, sep, max, rest).1) <= max,
    decreases rest.len(), pieces.len(),
{
    if pieces.len() > 0 {
        let p = pieces.drop_last();
        assert forall|k: int| 0 <= k < p.len() implies (#[trigger] p[k]).len() > 0 by {
            assert(p[k] == pieces[k]);
        }
        lemma_pack_fits(p, sep, max, rest);
        let st = pack(p, sep, max, rest);
        let piece = pieces.last();
        assert(piece == pieces[pieces.len() - 1]);
        let joined = sat_add(sat_add(byte_len_sat(st.1), byte_len_sat(sep)), byte_len_sat(piece));
        let st2 = if st.1.len() > 0 && joined > max {
            (st.0.push(st.1), Seq::<char>::empty())
        } else {
            st
        };
        if st.1.len() > 0 && joined > max {
            lemma_all_fit_push(max, st.0, st.1);
        }
        if byte_len_sat(piece) > max {
            lemma_split_long_fits(piece, max, rest);
            if st2.1.len() > 0 {
                lemma_all_fit_push(max, st2.0, st2.1);
                lemma_all_fit_append(max, st2.0.push(st2.1), split_long(piece, max, rest));
            } else {
                lemma_all_fit_append(max, st2.0, split_long(piece, max, rest));
            }
        } else if st2.1.len() > 0 {
            lemma_byte_len_sat_concat(st2.1, sep);
            lemma_byte_len_sat_concat(st2.1 + sep, piece);
        }
    }
}

proof fn lemma_split_long_fits(seg: Seq<char>, max: nat, seps: Seq<Seq<char>>)
    ensures
        all_fit(max, split_long(seg, max, seps)),
    decreases seps.len(), 0nat,
{
    if seps.len() == 0 {
        lemma_hard_split_fits(seg, max);
    } else {
        let pieces = pieces_of(seg, seps[0]);
        if pieces.len() <= 1 {
            lemma_split_long_fits(seg, max, seps.drop_first());
        } else {
            lemma_nonblank_nonempty(split_acc(seg, seps[0], Seq::empty()));
            lemma_pack_fits(pieces, seps[0], max, seps.drop_first());
            let st = pack(pieces, seps[0], max, seps.drop_first());
            if st.1.len() > 0 {
                lemma_all_fit_push(max, st.0, st.1);
            }
        }
    }
}

/// Every chunk of a text is non-empty and fits in the limit, unless it is
/// one character wider than a positive limit.
pub proof fn lemma_chunks_fit(text: Seq<char>, max: nat)
    ensures
        all_fit(max, chunks_of(text, max)),
{
    let pieces = pieces_of(text, "\n\n"@);
    lemma_nonblank_nonempty(split_acc(text, "\n\n"@, Seq::empty()));
    lemma_pack_fits(pieces, "\n\n"@, max, sentence_seps());
    let st = pack(pieces, "\n\n"@, max, sentence_seps());
    if st.1.len() > 0 {
        lemma_all_fit_push(max, st.0, st.1);
    }
}

/// A chunk that fits, and whose characters a `usize` can count, holds at
/// most `max` characters: every character takes a byte or more.
proof fn lemma_fit_char_count(max: nat, c: Seq<char>)
    requires
        chunk_fits(max, c),
        c.len() <= usize::MAX,
    ensures
        c.len() <= max,
{
    lemma_utf8_len_ge_len(c);
}

/// Characters take at most four bytes, so with a limit of four bytes or
/// more every chunk fits in it.
pub proof fn lemma_chunks_within_limit(text: Seq<char>, max: nat)
    requires
        max >= 4,
    ensures
        forall|k: int|
            0 <= k < chunks_of(text, max).len() ==> byte_len_sat(#[trigger] chunks_of(text, max)[k]) <= max,
{
    lemma_chunks_fit(text, max);
    assert forall|k: int| 0 <= k < chunks_of(text, max).len() implies byte_len_sat(
        #[trigger] chunks_of(text, max)[k],
    ) <= max by {
        let c = chunks_of(text, max)[k];
        assert(chunk_fits(max, c));
        if c.len() == 1 {
            assert(c == Seq::<char>::empty().push(c[0]));
            lemma_byte_len_sat_push(Seq::<char>::empty(), c[0]);
        }
    }
}

/// Lengthening the last part by `sep` and `y` lengthens the joined text by
/// the same.
proof fn lemma_join_extend_last(parts: Seq<Seq<char>>, x: Seq<char>, sep: Seq<char>, y: Seq<char>)
    ensures
        join(parts.push(x + sep + y), sep) == join(parts.push(x), sep) + sep + y,
{
    let a = parts.push(x + sep + y);
    let b = parts.push(x);
    assert(a.drop_last() =~= parts);
    assert(b.drop_last() =~= parts);
    if parts.len() == 0 {
        assert(join(a, sep) == a[0]);
        assert(join(b, sep) == b[0]);
        assert(join(a, sep) =~= join(b, sep) + sep + y);
    } else {
        assert(join(a, sep) =~= join(b, sep) + sep + y);
    }
}

/// Packing pieces that each fit keeps them whole and in order: the chunks,
/// joined by the separator, give back the pieces joined by it, and while
/// there is a piece a chunk is being filled.
proof fn lemma_pack_join(pieces: Seq<Seq<char>>, sep: Seq<char>, max: nat, rest: Seq<Seq<char>>)
    requires
        forall|k: int| 0 <= k < pieces.len() ==> (#[trigger] pieces[k]).len() > 0 && byte_len_sat(pieces[k]) <= max,
    ensures
        join(flush(pack(pieces, sep, max, rest)), sep) == join(pieces, sep),
        pieces.len() > 0 ==> pack(pieces, sep, max, rest).1.len() > 0,
    decreases pieces.len(),
{
    if pieces.len() > 0 {
        let q = pieces.drop_last();
        assert forall|k: int| 0 <= k < q.len() implies (#[trigger] q[k]).len() > 0 && byte_len_sat(q[k]) <= max by {
            assert(q[k] == pieces[k]);
        }
        lemma_pack_join(q, sep, max, rest);
        let st = pack(q, sep, max, rest);
        let piece = pieces.last();
        assert(piece == pieces[pieces.len() - 1]);
        assert(q.push(piece) =~= pieces);
        let joined = sat_add(sat_add(byte_len_sat(st.1), byte_len_sat(sep)), byte_len_sat(piece));
        if q.len() == 0 {
            assert(pack(q, sep, max, rest) == (Seq::<Seq<char>>::empty(), Seq::<char>::empty()));
            assert(flush(pack(pieces, sep, max, rest)) =~= seq![piece]);
            assert(join(seq![piece], sep) == seq![piece][0]);
            assert(join(pieces, sep) == pieces[0]);
        } else if joined > max {
            let c = st.0.push(st.1);
            assert(flush(pack(pieces, sep, max, rest)) == c.push(piece));
            assert(c.push(piece).drop_last() =~= c);
            assert(flush(st) == c);
        } else {
            assert(flush(pack(pieces, sep, max, rest)) == st.0.push(st.1 + sep + piece));
            lemma_join_extend_last(st.0, st.1, sep, piece);
            assert(flush(st) == st.0.push(st.1));
        }
    }
}

/// `chunks` are the `pieces` grouped in order: the bounds cut the pieces
/// into non-empty runs of consecutive pieces, and each chunk is its run
/// joined by `sep`.
pub open spec fn grouped_by(chunks: Seq<Seq<char>>, pieces: Seq<Seq<char>>, sep: Seq<char>, bounds: Seq<int>) -> bool {
    &&& bounds.len() == chunks.len() + 1
    &&& bounds[0] == 0
    &&& bounds[chunks.len() as int] == pieces.len()
    &&& forall|k: int| 0 <= k <= chunks.len() ==> 0 <= #[trigger] bounds[k] <= pieces.len()
    &&& forall|k: int|
        0 <= k < chunks.len() ==> bounds[k] < bounds[k + 1] && #[trigger] chunks[k] == join(
            pieces.subrange(bounds[k], bounds[k + 1]),
            sep,
        )
}

/// Packing pieces that each fit groups them: each chunk is a run of
/// consecutive pieces joined by the separator.
proof fn lemma_pack_groups(pieces: Seq<Seq<char>>, sep: Seq<char>, max: nat, rest: Seq<Seq<char>>) -> (bounds: Seq<int>)
    requires
        forall|k: int| 0 <= k < pieces.len() ==> (#[trigger] pieces[k]).len() > 0 && byte_len_sat(pieces[k]) <= max,
    ensures
        grouped_by(flush(pack(pieces, sep, max, rest)), pieces, sep, bounds),
    decreases pieces.len(),
{
    if pieces.len() == 0 {
        assert(flush(pack(pieces, sep, max, rest)) =~= Seq::<Seq<char>>::empty());
        seq![0int]
    } else {
        let q = pieces.drop_last();
        let n = q.len() as int;
        assert forall|k: int| 0 <= k < q.len() implies (#[trigger] q[k]).len() > 0 && byte_len_sat(q[k]) <= max by {
            assert(q[k] == pieces[k]);
        }
        let b = lemma_pack_groups(q, sep, max, rest);
        lemma_pack_join(q, sep, max, rest);
        let st = pack(q, sep, max, rest);
        let old_chunks = flush(st);
        let m = old_chunks.len() as int;
        let piece = pieces.last();
        assert(piece == pieces[pieces.len() - 1]);
        assert forall|x: int, y: int| 0 <= x <= y <= n implies #[trigger] pieces.subrange(x, y) == q.subrange(x, y) by {
            assert(pieces.subrange(x, y) =~= q.subrange(x, y));
        }
        let joined = sat_add(sat_add(byte_len_sat(st.1), byte_len_sat(sep)), byte_len_sat(piece));
        let new_chunks = flush(pack(pieces, sep, max, rest));
        if q.len() == 0 {
            assert(pack(q, sep, max, rest) == (Seq::<Seq<char>>::empty(), Seq::<char>::empty()));
            assert(new_chunks =~= seq![piece]);
            let nb = seq![0int, 1int];
            assert(pieces.subrange(0, 1) =~= seq![piece]);
            assert(join(seq![piece], sep) == seq![piece][0]);
            assert forall|k: int| 0 <= k < new_chunks.len() implies #[trigger] nb[k] < nb[k + 1] by {
                assert(new_chunks[k] == join(pieces.subrange(nb[k], nb[k + 1]), sep));
            }
            assert(grouped_by(new_chunks, pieces, sep, nb));
            nb
        } else if joined > max {
            assert(old_chunks == st.0.push(st.1));
            assert(new_chunks == old_chunks.push(piece));
            let nb = b.push(n + 1);
            assert(pieces.subrange(n, n + 1) =~= seq![piece]);
            assert(join(seq![piece], sep) == seq![piece][0]);
            assert forall|k: int| 0 <= k <= new_chunks.len() implies 0 <= #[trigger] nb[k] <= pieces.len() by {
                if k < b.len() {
                    assert(nb[k] == b[k]);
                }
            }
            assert forall|k: int| 0 <= k < new_chunks.len() implies nb[k] < nb[k + 1] && #[trigger] new_chunks[k]
                == join(pieces.subrange(nb[k], nb[k + 1]), sep) by {
                if k < m {
                    assert(nb[k] == b[k]);
                    assert(nb[k + 1] == b[k + 1]);
                    assert(new_chunks[k] == old_chunks[k]);
                    assert(old_chunks[k] == join(q.subrange(b[k], b[k + 1]), sep));
                }
            }
            assert(nb.len() == new_chunks.len() + 1);
            assert(nb[0] == b[0]);
            assert(nb[new_chunks.len() as int] == pieces.len());
            assert forall|k: int| 0 <= k < new_chunks.len() implies #[trigger] nb[k] < nb[k + 1] by {
                assert(new_chunks[k] == join(pieces.subrange(nb[k], nb[k + 1]), sep));
            }
            assert(grouped_by(new_chunks, pieces, sep, nb));
            nb
        } else {
            assert(old_chunks == st.0.push(st.1));
            assert(new_chunks == st.0.push(st.1 + sep + piece));
            let nb = b.update(m, n + 1);
            let lo = b[m - 1];
            assert(old_chunks[m - 1] == join(q.subrange(lo, n), sep));
            let run = q.subrange(lo, n);
            assert(pieces.subrange(lo, n + 1) =~= run.push(piece));
            assert(run.push(piece).drop_last() =~= run);
            assert(run.len() >= 1);
            assert(join(run.push(piece), sep) == join(run, sep) + sep + piece);
            assert forall|k: int| 0 <= k <= new_chunks.len() implies 0 <= #[trigger] nb[k] <= pieces.len() by {
                if k < m {
                    assert(nb[k] == b[k]);
                }
            }
            assert forall|k: int| 0 <= k < new_chunks.len() implies nb[k] < nb[k + 1] && #[trigger] new_chunks[k]
                == join(pieces.subrange(nb[k], nb[k + 1]), sep) by {
                if k < m - 1 {
                    assert(nb[k] == b[k]);
                    assert(nb[k + 1] == b[k + 1]);
                    assert(new_chunks[k] == st.0[k]);
                    assert(old_chunks[k] == st.0[k]);
                    assert(old_chunks[k] == join(q.subrange(b[k], b[k + 1]), sep));
                } else {
                    assert(k == m - 1);
                    assert(nb[k] == lo);
                    assert(new_chunks[k] == st.1 + sep + piece);
                    assert(old_chunks[k] == st.1);
                }
            }
            assert(m >= 1);
            assert(nb.len() == new_chunks.len() + 1);
            assert(nb[0] == b[0]);
            assert(nb[new_chunks.len() as int] == pieces.len());
            assert forall|k: int| 0 <= k < new_chunks.len() implies #[trigger] nb[k] < nb[k + 1] by {
                assert(new_chunks[k] == join(pieces.subrange(nb[k], nb[k + 1]), sep));
            }
            assert(grouped_by(new_chunks, pieces, sep, nb));
            nb
        }
    }
}

/// A single paragraph too long for the limit is split at its sentence ends
/// `". "`: where it holds two pieces or more between them and each fits,
/// every piece stays whole and the chunks are the pieces grouped in order,
/// so that the chunks joined by `". "` give back the pieces joined by it.
pub proof fn lemma_long_paragraph_splits_at_sentences(text: Seq<char>, max: nat)
    requires
        pieces_of(text, "\n\n"@).len() == 1,
        byte_len_sat(pieces_of(text, "\n\n"@)[0]) > max,
        pieces_of(pieces_of(text, "\n\n"@)[0], ". "@).len() >= 2,
        forall|k: int|
            0 <= k < pieces_of(pieces_of(text, "\n\n"@)[0], ". "@).len() ==> byte_len_sat(
                #[trigger] pieces_of(pieces_of(text, "\n\n"@)[0], ". "@)[k],
            ) <= max,
    ensures
        join(chunks_of(text, max), ". "@) == join(pieces_of(pieces_of(text, "\n\n"@)[0], ". "@), ". "@),
        exists|bounds: Seq<int>|
            grouped_by(chunks_of(text, max), pieces_of(pieces_of(text, "\n\n"@)[0], ". "@), ". "@, bounds),
{
    let p = pieces_of(text, "\n\n"@)[0];
    let pcs = pieces_of(p, ". "@);
    let seps = sentence_seps();
    lemma_single_long_paragraph(text, max);
    assert(seps[0] == ". "@);
    assert(split_long(p, max, seps) == flush(pack(pcs, ". "@, max, seps.drop_first())));
    lemma_nonblank_nonempty(split_acc(p, ". "@, Seq::empty()));
    lemma_pack_join(pcs, ". "@, max, seps.drop_first());
    let bounds = lemma_pack_groups(pcs, ". "@, max, seps.drop_first());
    assert(grouped_by(chunks_of(text, max), pcs, ". "@, bounds));
}

/// A text that is one paragraph too long for the limit is chunked as that
/// paragraph is split with the sentence ends.
proof fn lemma_single_long_paragraph(text: Seq<char>, max: nat)
    requires
        pieces_of(text, "\n\n"@).len() == 1,
        byte_len_sat(pieces_of(text, "\n\n"@)[0]) > max,
    ensures
        chunks_of(text, max) == split_long(pieces_of(text, "\n\n"@)[0], max, sentence_seps()),
{
    let paras = pieces_of(text, "\n\n"@);
    let seps = sentence_seps();
    assert(paras.drop_last() =~= Seq::<Seq<char>>::empty());
    assert(paras.last() == paras[0]);
    assert(pack(paras.drop_last(), "\n\n"@, max, seps) == (Seq::<Seq<char>>::empty(), Seq::<char>::empty()));
    assert(chunks_of(text, max) =~= split_long(paras[0], max, seps));
}

/// A single paragraph too long for the limit that `". "` does not split,
/// but `"! "` splits into pieces that each fit, is chunked at its `"! "`
/// boundaries: the chunks are the pieces grouped in order, each group
/// joined by `"! "`.
pub proof fn lemma_long_paragraph_splits_at_exclamations(text: Seq<char>, max: nat)
    requires
        pieces_of(text, "\n\n"@).len() == 1,
        byte_len_sat(pieces_of(text, "\n\n"@)[0]) > max,
        pieces_of(pieces_of(text, "\n\n"@)[0], ". "@).len() <= 1,
        pieces_of(pieces_of(text, "\n\n"@)[0], "! "@).len() >= 2,
        forall|k: int|
            0 <= k < pieces_of(pieces_of(text, "\n\n"@)[0], "! "@).len() ==> byte_len_sat(
                #[trigger] pieces_of(pieces_of(text, "\n\n"@)[0], "! "@)[k],
            ) <= max,
    ensures
        join(chunks_of(text, max), "! "@) == join(pieces_of(pieces_of(text, "\n\n"@)[0], "! "@), "! "@),
        exists|bounds: Seq<int>|
            grouped_by(chunks_of(text, max), pieces_of(pieces_of(text, "\n\n"@)[0], "! "@), "! "@, bounds),
{
    let p = pieces_of(text, "\n\n"@)[0];
    let pcs = pieces_of(p, "! "@);
    let seps = sentence_seps();
    lemma_single_long_paragraph(text, max);
    assert(seps[0] == ". "@);
    assert(seps.drop_first()[0] == "! "@);
    assert(seps.drop_first().drop_first() =~= seq!["? "@]);
    assert(split_long(p, max, seps) == split_long(p, max, seps.drop_first()));
    assert(split_long(p, max, seps.drop_first()) == flush(pack(pcs, "! "@, max, seps.drop_first().drop_first())));
    lemma_nonblank_nonempty(split_acc(p, "! "@, Seq::empty()));
    lemma_pack_join(pcs, "! "@, max, seps.drop_first().drop_first());
    let bounds = lemma_pack_groups(pcs, "! "@, max, seps.drop_first().drop_first());
    assert(grouped_by(chunks_of(text, max), pcs, "! "@, bounds));
}

/// A single paragraph too long for the limit that neither `". "` nor
/// `"! "` splits, but `"? "` splits into pieces that each fit, is chunked at
/// its `"? "` boundaries: the chunks are the pieces grouped in order, each
/// group joined by `"? "`.
pub proof fn lemma_long_paragraph_splits_at_questions(text: Seq<char>, max: nat)
    requires
        pieces_of(text, "\n\n"@).len() == 1,
        byte_len_sat(pieces_of(text, "\n\n"@)[0]) > max,
        pieces_of(pieces_of(text, "\n\n"@)[0], ". "@).len() <= 1,
        pieces_of(pieces_of(text, "\n\n"@)[0], "! "@).len() <= 1,
        pieces_of(pieces_of(text, "\n\n"@)[0], "? "@).len() >= 2,
        forall|k: int|
            0 <= k < pieces_of(pieces_of(text, "\n\n"@)[0], "? "@).len() ==> byte_len_sat(
                #[trigger] pieces_of(pieces_of(text, "\n\n"@)[0], "? "@)[k],
            ) <= max,
    ensures
        join(chunks_of(text, max), "? "@) == join(pieces_of(pieces_of(text, "\n\n"@)[0], "? "@), "? "@),
        exists|bounds: Seq<int>|
            grouped_by(chunks_of(text, max), pieces_of(pieces_of(text, "\n\n"@)[0], "? "@), "? "@, bounds),
{
    let p = pieces_of(text, "\n\n"@)[0];
    let pcs = pieces_of(p, "? "@);
    let seps = sentence_seps();
    let s1 = seps.drop_first();
    let s2 = s1.drop_first();
    lemma_single_long_paragraph(text, max);
    assert(seps[0] == ". "@);
    assert(s1[0] == "! "@);
    assert(s2[0] == "? "@);
    assert(s2.drop_first() =~= Seq::<Seq<char>>::empty());
    assert(split_long(p, max, seps) == split_long(p, max, s1));
    assert(split_long(p, max, s1) == split_long(p, max, s2));
    assert(split_long(p, max, s2) == flush(pack(pcs, "? "@, max, s2.drop_first())));
    lemma_nonblank_nonempty(split_acc(p, "? "@, Seq::empty()));
    lemma_pack_join(pcs, "? "@, max, s2.drop_first());
    let bounds = lemma_pack_groups(pcs, "? "@, max, s2.drop_first());
    assert(grouped_by(chunks_of(text, max), pcs, "? "@, bounds));
}

/// A single paragraph too long for a positive limit that no sentence end
/// splits is cut between characters, and nothing of it is lost or added:
/// its chunks, put back together, are the paragraph.
pub proof fn lemma_long_paragraph_without_sentence_ends(text: Seq<char>, max: nat)
    requires
        max > 0,
        pieces_of(text, "\n\n"@).len() == 1,
        byte_len_sat(pieces_of(text, "\n\n"@)[0]) > max,
        pieces_of(pieces_of(text, "\n\n"@)[0], ". "@).len() <= 1,
        pieces_of(pieces_of(text, "\n\n"@)[0], "! "@).len() <= 1,
        pieces_of(pieces_of(text, "\n\n"@)[0], "? "@).len() <= 1,
    ensures
        concat(chunks_of(text, max)) == pieces_of(text, "\n\n"@)[0],
{
    let p = pieces_of(text, "\n\n"@)[0];
    let seps = sentence_seps();
    let s1 = seps.drop_first();
    let s2 = s1.drop_first();
    lemma_single_long_paragraph(text, max);
    assert(seps[0] == ". "@);
    assert(s1[0] == "! "@);
    assert(s2[0] == "? "@);
    assert(s2.drop_first() =~= Seq::<Seq<char>>::empty());
    assert(split_long(p, max, seps) == split_long(p, max, s1));
    assert(split_long(p, max, s1) == split_long(p, max, s2));
    assert(split_long(p, max, s2) == split_long(p, max, s2.drop_first()));
    assert(split_long(p, max, s2.drop_first()) == hard_split_spec(p, max));
    lemma_hard_split_concat(p, max);
}

/// Paragraphs that each fit the limit stay whole: the chunks are the
/// paragraphs grouped in order, each group joined by a blank line, so
/// that the chunks joined by blank lines give back the paragraphs joined
/// by them.
pub proof fn lemma_fitting_paragraphs_stay_whole(text: Seq<char>, max: nat)
    requires
        forall|k: int|
            0 <= k < pieces_of(text, "\n\n"@).len() ==> byte_len_sat(#[trigger] pieces_of(text, "\n\n"@)[k])
                <= max,
    ensures
        join(chunks_of(text, max), "\n\n"@) == join(pieces_of(text, "\n\n"@), "\n\n"@),
        exists|bounds: Seq<int>| grouped_by(chunks_of(text, max), pieces_of(text, "\n\n"@), "\n\n"@, bounds),
{
    let paras = pieces_of(text, "\n\n"@);
    lemma_nonblank_nonempty(split_acc(text, "\n\n"@, Seq::empty()));
    lemma_pack_join(paras, "\n\n"@, max, sentence_seps());
    let bounds = lemma_pack_groups(paras, "\n\n"@, max, sentence_seps());
    assert(grouped_by(chunks_of(text, max), paras, "\n\n"@, bounds));
}

} // verus!
