//! Splitting a topic string into its slash-delimited segments.
//!
//! The grammar never escapes the separator, so splitting is total: every
//! string, the empty one included, splits into one more segment than it has
//! separator characters, and empty segments are kept.

use vstd::prelude::*;

verus! {

/// The segment separator of the topic grammar.
pub open spec fn sep_char() -> char {
    '/'
}

/// Whether `s` is free of the separator character, so that it can stand as
/// a single segment of a topic string.
pub open spec fn no_sep(s: Seq<char>) -> bool {
    forall|i: int| 0 <= i < s.len() ==> s[i] != sep_char()
}

/// The segments of `s`: what splitting on the separator yields, in order,
/// empty segments included.  Every string has at least one segment.
pub open spec fn split_segments(s: Seq<char>) -> Seq<Seq<char>>
    decreases s.len(),
{
    if s.len() == 0 {
        seq![s]
    } else if s[0] == sep_char() {
        seq![Seq::<char>::empty()] + split_segments(s.subrange(1, s.len() as int))
    } else {
        let rest = split_segments(s.subrange(1, s.len() as int));
        seq![seq![s[0]] + rest[0]] + rest.subrange(1, rest.len() as int)
    }
}

/// Splitting never yields an empty list of segments.
pub proof fn lemma_split_len_pos(s: Seq<char>)
    ensures
        split_segments(s).len() >= 1,
    decreases s.len(),
{
    if s.len() != 0 {
        lemma_split_len_pos(s.subrange(1, s.len() as int));
    }
}

/// Appending a separator to a string closes its last segment and opens a
/// fresh empty one.
pub proof fn lemma_split_push_sep(s: Seq<char>)
    ensures
        split_segments(s.push(sep_char())) == split_segments(s).push(Seq::<char>::empty()),
    decreases s.len(),
{
    let t = s.push(sep_char());
    if s.len() == 0 {
        assert(s =~= Seq::<char>::empty());
        assert(t.subrange(1, t.len() as int) =~= Seq::<char>::empty());
        assert(split_segments(t) =~~= split_segments(s).push(Seq::<char>::empty()));
    } else {
        let tl = s.subrange(1, s.len() as int);
        assert(t.subrange(1, t.len() as int) =~= tl.push(sep_char()));
        lemma_split_push_sep(tl);
        lemma_split_len_pos(tl);
        let r = split_segments(tl);
        let rp = r.push(Seq::<char>::empty());
        assert(split_segments(t.subrange(1, t.len() as int)) == rp);
        if s[0] == sep_char() {
            assert(split_segments(t) == seq![Seq::<char>::empty()] + rp);
            assert(split_segments(s) == seq![Seq::<char>::empty()] + r);
            assert(seq![Seq::<char>::empty()] + rp =~~= (seq![Seq::<char>::empty()] + r).push(
                Seq::<char>::empty(),
            ));
        } else {
            assert(split_segments(t) == seq![seq![t[0]] + rp[0]] + rp.subrange(1, rp.len() as int));
            assert(split_segments(s) == seq![seq![s[0]] + r[0]] + r.subrange(1, r.len() as int));
            assert(rp[0] == r[0]);
            assert(rp.subrange(1, rp.len() as int) =~~= r.subrange(1, r.len() as int).push(
                Seq::<char>::empty(),
            ));
            assert(seq![seq![t[0]] + rp[0]] + rp.subrange(1, rp.len() as int) =~~= (seq![
                seq![s[0]] + r[0],
            ] + r.subrange(1, r.len() as int)).push(Seq::<char>::empty()));
        }
    }
}

/// Appending an ordinary character to a string extends its last segment.
pub proof fn lemma_split_push_other(s: Seq<char>, c: char)
    requires
        c != sep_char(),
    ensures
        split_segments(s.push(c)) == split_segments(s).update(
            split_segments(s).len() - 1,
            split_segments(s).last().push(c),
        ),
    decreases s.len(),
{
    let t = s.push(c);
    lemma_split_len_pos(s);
    if s.len() == 0 {
        assert(s =~= Seq::<char>::empty());
        assert(t.subrange(1, t.len() as int) =~= Seq::<char>::empty());
        assert(split_segments(t) =~~= split_segments(s).update(
            split_segments(s).len() - 1,
            split_segments(s).last().push(c),
        ));
    } else {
        let tl = s.subrange(1, s.len() as int);
        assert(t.subrange(1, t.len() as int) =~= tl.push(c));
        lemma_split_push_other(tl, c);
        lemma_split_len_pos(tl);
        let r = split_segments(tl);
        let ru = r.update(r.len() - 1, r.last().push(c));
        assert(split_segments(t.subrange(1, t.len() as int)) == ru);
        assert(ru.len() == r.len());
        if s[0] == sep_char() {
            assert(split_segments(t) == seq![Seq::<char>::empty()] + ru);
            assert(split_segments(s) == seq![Seq::<char>::empty()] + r);
            assert((seq![Seq::<char>::empty()] + r).last() == r.last());
            assert(seq![Seq::<char>::empty()] + ru =~~= (seq![Seq::<char>::empty()] + r).update(
                (seq![Seq::<char>::empty()] + r).len() - 1,
                (seq![Seq::<char>::empty()] + r).last().push(c),
            ));
        } else {
            assert(split_segments(t) == seq![seq![t[0]] + ru[0]] + ru.subrange(1, ru.len() as int));
            let ss = seq![seq![s[0]] + r[0]] + r.subrange(1, r.len() as int);
            assert(split_segments(s) == ss);
            assert(ss.len() == r.len());
            if r.len() == 1 {
                assert(ru[0] == r[0].push(c));
                assert(ru.subrange(1, ru.len() as int) =~~= r.subrange(1, r.len() as int));
                assert(ss.last() == seq![s[0]] + r[0]);
                assert(seq![s[0]] + r[0].push(c) =~= (seq![s[0]] + r[0]).push(c));
                assert(seq![seq![t[0]] + ru[0]] + ru.subrange(1, ru.len() as int) =~~= ss.update(
                    ss.len() - 1,
                    ss.last().push(c),
                ));
            } else {
                assert(ru[0] == r[0]);
                assert(ss.last() == r.last());
                assert(ru.subrange(1, ru.len() as int) =~~= r.subrange(1, r.len() as int).update(
                    r.len() - 2,
                    r.last().push(c),
                ));
                assert(seq![seq![t[0]] + ru[0]] + ru.subrange(1, ru.len() as int) =~~= ss.update(
                    ss.len() - 1,
                    ss.last().push(c),
                ));
            }
        }
    }
}

/// A string free of separators is its own single segment.
pub proof fn lemma_split_no_sep(s: Seq<char>)
    requires
        no_sep(s),
    ensures
        split_segments(s) == seq![s],
    decreases s.len(),
{
    if s.len() != 0 {
        let tl = s.subrange(1, s.len() as int);
        assert(no_sep(tl));
        lemma_split_no_sep(tl);
        assert(seq![s[0]] + tl =~= s);
        assert(split_segments(s) =~~= seq![s]);
    }
}

/// A leading separator-free segment splits off whole: the segments of
/// `a / rest` are `a` followed by the segments of `rest`.
pub proof fn lemma_split_prepend_segment(a: Seq<char>, rest: Seq<char>)
    requires
        no_sep(a),
    ensures
        split_segments(a + seq![sep_char()] + rest) == seq![a] + split_segments(rest),
    decreases a.len(),
{
    let t = a + seq![sep_char()] + rest;
    if a.len() == 0 {
        assert(t[0] == sep_char());
        assert(t.subrange(1, t.len() as int) =~= rest);
        assert(split_segments(t) =~~= seq![a] + split_segments(rest));
    } else {
        let atl = a.subrange(1, a.len() as int);
        assert(no_sep(atl));
        assert(t[0] == a[0] && a[0] != sep_char());
        assert(t.subrange(1, t.len() as int) =~= atl + seq![sep_char()] + rest);
        lemma_split_prepend_segment(atl, rest);
        let r = split_segments(atl + seq![sep_char()] + rest);
        lemma_split_len_pos(rest);
        assert(seq![t[0]] + r[0] =~= a);
        assert(r.subrange(1, r.len() as int) =~~= split_segments(rest));
        assert(split_segments(t) =~~= seq![a] + split_segments(rest));
    }
}

/// The views of a list of borrowed segments.
pub open spec fn views_of(parts: Seq<&str>) -> Seq<Seq<char>> {
    parts.map_values(|p: &str| p@)
}

/// Splits `s` on the separator character, keeping empty segments, exactly
/// as [`split_segments`] describes.
pub fn split_topic<'a>(s: &'a str) -> (parts: Vec<&'a str>)
    ensures
        views_of(parts@) == split_segments(s@),
        parts@.len() == split_segments(s@).len(),
{
    let n: usize = s.unicode_len();
    let mut parts: Vec<&'a str> = Vec::new();
    let mut start: usize = 0;
    let mut i: usize = 0;
    while i < n
        invariant
            start <= i <= n,
            n == s@.len(),
            views_of(parts@).push(s@.subrange(start as int, i as int)) == split_segments(
                s@.subrange(0, i as int),
            ),
        decreases n - i,
    {
        let c = s.get_char(i);
        proof {
            assert(s@.subrange(0, i + 1) =~= s@.subrange(0, i as int).push(s@[i as int]));
        }
        if c == '/' {
            let seg = s.substring_char(start, i);
            parts.push(seg);
            proof {
                lemma_split_push_sep(s@.subrange(0, i as int));
                assert(views_of(parts@).push(Seq::<char>::empty()) =~~= split_segments(
                    s@.subrange(0, i + 1),
                ));
            }
            start = i + 1;
            proof {
                assert(s@.subrange(start as int, i + 1) =~= Seq::<char>::empty());
            }
        } else {
            proof {
                lemma_split_push_other(s@.subrange(0, i as int), c);
                assert(s@.subrange(start as int, i + 1) =~= s@.subrange(
                    start as int,
                    i as int,
                ).push(c));
                assert(views_of(parts@).push(s@.subrange(start as int, i + 1)) =~~= split_segments(
                    s@.subrange(0, i + 1),
                ));
            }
        }
        i = i + 1;
    }
    let seg = s.substring_char(start, n);
    parts.push(seg);
    proof {
        assert(s@.subrange(0, n as int) =~= s@);
        assert(views_of(parts@) =~~= split_segments(s@));
    }
    parts
}

/// Exact string equality: whether the two strings view to the same
/// sequence of characters.
pub fn str_eq(a: &str, b: &str) -> (r: bool)
    ensures
        r == (a@ == b@),
{
    let x: String = a.to_owned();
    let y: String = b.to_owned();
    x == y
}

} // verus!
