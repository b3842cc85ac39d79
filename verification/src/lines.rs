//! Splitting a source buffer into line records.
//!
//! A diagnostic points at a 1-based line number; the renderer must find the
//! bytes of exactly that line. The model is `split_lines`, the sequence of
//! line records obtained by cutting the buffer at every line-break byte, and
//! the executable lookup is proved to return the record the model names.

use vstd::prelude::*;

verus! {

/// The line-break byte the renderer splits on.
pub const LINE_BREAK: u8 = 10;

/// The line records of `s`: the (possibly empty) byte runs between
/// line-break bytes. An empty buffer has one empty record; a trailing
/// line break opens one more (empty) record, as `split` does.
pub open spec fn split_lines(s: Seq<u8>) -> Seq<Seq<u8>>
    decreases s.len(),
{
    if s.len() == 0 {
        seq![Seq::empty()]
    } else if s[0] == LINE_BREAK {
        seq![Seq::<u8>::empty()] + split_lines(s.skip(1))
    } else {
        let rest = split_lines(s.skip(1));
        seq![seq![s[0]] + rest[0]] + rest.skip(1)
    }
}

/// Number of line-break bytes in `s`.
pub open spec fn line_break_count(s: Seq<u8>) -> nat
    decreases s.len(),
{
    if s.len() == 0 {
        0
    } else {
        (if s[0] == LINE_BREAK {
            1nat
        } else {
            0nat
        }) + line_break_count(s.skip(1))
    }
}

/// There is one more line record than there are line-break bytes.
pub proof fn lemma_split_lines_len(s: Seq<u8>)
    ensures
        split_lines(s).len() == line_break_count(s) + 1,
    decreases s.len(),
{
    if s.len() > 0 {
        lemma_split_lines_len(s.skip(1));
    }
}

/// A buffer without line breaks is its own single line record.
pub proof fn lemma_split_lines_whole(s: Seq<u8>)
    requires
        forall|i: int| 0 <= i < s.len() ==> s[i] != LINE_BREAK,
    ensures
        split_lines(s) == seq![s],
    decreases s.len(),
{
    if s.len() == 0 {
        assert(split_lines(s) =~~= seq![s]);
    } else {
        lemma_split_lines_whole(s.skip(1));
        assert(seq![s[0]] + s.skip(1) =~= s);
        assert(split_lines(s) =~~= seq![s]);
    }
}

/// Cutting at the first line break: the bytes before it are the first
/// record, and the records of the remainder follow.
pub proof fn lemma_split_lines_step(s: Seq<u8>, j: int)
    requires
        0 <= j < s.len(),
        s[j] == LINE_BREAK,
        forall|i: int| 0 <= i < j ==> s[i] != LINE_BREAK,
    ensures
        split_lines(s) == seq![s.take(j)] + split_lines(s.skip(j + 1)),
    decreases j,
{
    if j == 0 {
        assert(s.take(0) =~= Seq::<u8>::empty());
        assert(split_lines(s) =~~= seq![s.take(j)] + split_lines(s.skip(j + 1)));
    } else {
        let t = s.skip(1);
        lemma_split_lines_step(t, j - 1);
        assert(t.skip(j - 1 + 1) =~= s.skip(j + 1));
        assert(seq![s[0]] + t.take(j - 1) =~= s.take(j));
        assert(split_lines(s) =~~= seq![s.take(j)] + split_lines(s.skip(j + 1)));
    }
}

/// Scan forward from `from` to the next line-break byte, or to the end.
fn next_break(src: &Vec<u8>, from: usize) -> (p: usize)
    requires
        from <= src@.len(),
    ensures
        from <= p <= src@.len(),
        forall|i: int| from <= i < p ==> src@[i] != LINE_BREAK,
        p < src@.len() ==> src@[p as int] == LINE_BREAK,
    decreases src@.len() - from,
{
    let mut p = from;
    while p < src.len() && *vstd::slice::slice_index_get(src.as_slice(), p) != LINE_BREAK
        invariant
            from <= p <= src@.len(),
            forall|i: int| from <= i < p ==> src@[i] != LINE_BREAK,
        decreases src@.len() - p,
    {
        p = p + 1;
    }
    p
}

/// Whether record `idx` exists in the line records of `src`.
pub fn has_line(src: &Vec<u8>, idx: usize) -> (b: bool)
    ensures
        b == (idx < split_lines(src@).len()),
{
    proof {
        lemma_split_lines_len(src@);
    }
    if idx == 0 {
        return true;
    }
    let mut pos: usize = 0;
    let mut k: usize = 0;
    proof {
        assert(src@.skip(0) =~= src@);
    }
    while pos < src.len()
        invariant
            pos <= src@.len(),
            k < idx,
            line_break_count(src@) == k + line_break_count(src@.skip(pos as int)),
        decreases src@.len() - pos,
    {
        proof {
            assert(src@.skip(pos as int).skip(1) =~= src@.skip(pos as int + 1));
        }
        if *vstd::slice::slice_index_get(src.as_slice(), pos) == LINE_BREAK {
            k = k + 1;
            if k == idx {
                proof {
                    lemma_split_lines_len(src@);
                }
                return true;
            }
        }
        pos = pos + 1;
    }
    proof {
        assert(src@.skip(src@.len() as int) =~= Seq::<u8>::empty());
    }
    false
}

/// Find the half-open byte range that holds line record `idx` of `src`.
pub fn locate_line(src: &Vec<u8>, idx: usize) -> (r: (usize, usize))
    requires
        idx < split_lines(src@).len(),
    ensures
        r.0 <= r.1 <= src@.len(),
        split_lines(src@)[idx as int] == src@.subrange(r.0 as int, r.1 as int),
{
    let n = src.len();
    let mut start: usize = 0;
    let mut k: usize = 0;
    proof {
        assert(src@.skip(0) =~= src@);
        assert(split_lines(src@).skip(0) =~~= split_lines(src@));
    }
    while k < idx
        invariant
            k <= idx,
            start <= n,
            n == src@.len(),
            idx < split_lines(src@).len(),
            split_lines(src@).skip(k as int) == split_lines(src@.skip(start as int)),
        decreases idx - k,
    {
        let p = next_break(src, start);
        proof {
            let suffix = src@.skip(start as int);
            assert(forall|i: int| 0 <= i < suffix.len() ==> suffix[i] == src@[i + start]);
            if p == src@.len() {
                assert(forall|i: int| 0 <= i < suffix.len() ==> suffix[i] != LINE_BREAK);
                lemma_split_lines_whole(suffix);
                lemma_split_lines_len(src@);
                assert(split_lines(src@).skip(k as int).len() == 1);
                assert(split_lines(src@).len() == k + 1);
                assert(false);
            }
            lemma_split_lines_step(suffix, p - start);
            assert(suffix.skip(p - start + 1) =~= src@.skip(p + 1));
            let tail = split_lines(src@.skip(p + 1));
            assert((seq![suffix.take(p - start)] + tail).skip(1) =~~= tail);
            assert(split_lines(src@).skip(k + 1) =~~= split_lines(src@).skip(k as int).skip(1));
            assert(split_lines(src@).skip(k + 1) =~~= tail);
        }
        start = p + 1;
        k = k + 1;
    }
    let p = next_break(src, start);
    proof {
        let suffix = src@.skip(start as int);
        assert(forall|i: int| 0 <= i < suffix.len() ==> suffix[i] == src@[i + start]);
        assert(split_lines(src@)[idx as int] == split_lines(src@).skip(idx as int)[0]);
        if p == src@.len() {
            assert(forall|i: int| 0 <= i < suffix.len() ==> suffix[i] != LINE_BREAK);
            lemma_split_lines_whole(suffix);
            assert(split_lines(src@)[idx as int] == suffix);
            assert(suffix =~= src@.subrange(start as int, p as int));
        } else {
            lemma_split_lines_step(suffix, p - start);
            assert(split_lines(src@)[idx as int] == suffix.take(p - start));
            assert(suffix.take(p - start) =~= src@.subrange(start as int, p as int));
        }
    }
    (start, p)
}

} // verus!
