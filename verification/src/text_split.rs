//! Splitting character sequences: on a separator, at its first occurrence, and
//! with surrounding whitespace trimmed.
use vstd::prelude::*;
use crate::unicode::trimmed;
use crate::strs::{chars_of, string_views, string_from_chars};

verus! {

/// The pieces of `s` between occurrences of `c`, as `str::split` gives them: one
/// more piece than there are separators.
pub open spec fn split_char(s: Seq<char>, c: char) -> Seq<Seq<char>>
    decreases s.len(),
{
    if s.len() == 0 {
        seq![Seq::<char>::empty()]
    } else {
        let r = split_char(s.drop_last(), c);
        if s.last() == c {
            r.push(Seq::<char>::empty())
        } else {
            r.update(r.len() - 1, r.last().push(s.last()))
        }
    }
}

proof fn lemma_split_nonempty(s: Seq<char>, c: char)
    ensures
        split_char(s, c).len() >= 1,
    decreases s.len(),
{
    if s.len() > 0 {
        lemma_split_nonempty(s.drop_last(), c);
    }
}

/// The position of the first `c` in `s`, if any.
pub open spec fn first_index(s: Seq<char>, c: char) -> Option<int>
    decreases s.len(),
{
    if s.len() == 0 {
        None
    } else if s[0] == c {
        Some(0)
    } else {
        match first_index(s.drop_first(), c) {
            Some(i) => Some(i + 1),
            None => None,
        }
    }
}

/// `s` split at its first `c`, without the `c`, as `str::split_once` gives it.
pub open spec fn split_once(s: Seq<char>, c: char) -> Option<(Seq<char>, Seq<char>)> {
    match first_index(s, c) {
        Some(i) => Some((s.take(i), s.skip(i + 1))),
        None => None,
    }
}

proof fn lemma_first_index(s: Seq<char>, c: char, i: int)
    requires
        0 <= i < s.len(),
        s[i] == c,
        forall|j: int| 0 <= j < i ==> s[j] != c,
    ensures
        first_index(s, c) == Some(i),
    decreases i,
{
    if i > 0 {
        assert(s[0] != c);
        let t = s.drop_first();
        assert forall|j: int| 0 <= j < i - 1 implies t[j] != c by {
            assert(t[j] == s[j + 1]);
        }
        lemma_first_index(t, c, i - 1);
    }
}

proof fn lemma_first_index_none(s: Seq<char>, c: char)
    requires
        forall|j: int| 0 <= j < s.len() ==> s[j] != c,
    ensures
        first_index(s, c) is None,
    decreases s.len(),
{
    if s.len() > 0 {
        let t = s.drop_first();
        assert forall|j: int| 0 <= j < t.len() implies t[j] != c by {
            assert(t[j] == s[j + 1]);
        }
        lemma_first_index_none(t, c);
    }
}

/// The pieces of a string between occurrences of `c`.
pub fn split_on(s: &str, c: char) -> (r: Vec<String>)
    ensures
        string_views(r@) == split_char(s@, c),
{
    let cs = chars_of(s);
    let ghost v = s@;
    let mut pieces: Vec<String> = Vec::new();
    let mut current: Vec<char> = Vec::new();
    let mut i: usize = 0;
    proof {
        assert(v.take(0) =~= Seq::<char>::empty());
    }
    while i < cs.len()
        invariant
            cs@ == v,
            i <= cs.len(),
            string_views(pieces@).push(current@) == split_char(v.take(i as int), c),
        decreases cs.len() - i,
    {
        let ghost before = string_views(pieces@).push(current@);
        assert(v.take(i + 1).drop_last() =~= v.take(i as int));
        assert(v.take(i + 1).last() == v[i as int]);
        if cs[i] == c {
            let piece = string_from_chars(current.as_slice());
            pieces.push(piece);
            current = Vec::new();
            assert(string_views(pieces@).push(current@) =~= before.push(Seq::<char>::empty()));
        } else {
            let ghost old_current = current@;
            current.push(cs[i]);
            assert(string_views(pieces@).push(current@) =~= before.update(before.len() - 1, before.last().push(v[i as int])));
        }
        i = i + 1;
    }
    let piece = string_from_chars(current.as_slice());
    let ghost before = string_views(pieces@);
    pieces.push(piece);
    assert(string_views(pieces@) =~= before.push(current@));
    assert(v.take(cs.len() as int) =~= v);
    pieces
}

/// A string split at its first `c`, without the `c`.
pub fn split_first(s: &str, c: char) -> (r: Option<(String, String)>)
    ensures
        match split_once(s@, c) {
            Some((a, b)) => r matches Some((x, y)) && x@ == a && y@ == b,
            None => r is None,
        },
{
    let cs = chars_of(s);
    let mut i: usize = 0;
    while i < cs.len()
        invariant
            cs@ == s@,
            i <= cs.len(),
            forall|j: int| 0 <= j < i ==> cs@[j] != c,
        decreases cs.len() - i,
    {
        if cs[i] == c {
            proof {
                lemma_first_index(s@, c, i as int);
            }
            let mut a: Vec<char> = Vec::new();
            let mut k: usize = 0;
            while k < i
                invariant
                    cs@ == s@,
                    k <= i < cs.len(),
                    a@ == cs@.take(k as int),
                decreases i - k,
            {
                a.push(cs[k]);
                k = k + 1;
                assert(a@ =~= cs@.take(k as int));
            }
            let mut b: Vec<char> = Vec::new();
            let mut k: usize = i + 1;
            while k < cs.len()
                invariant
                    cs@ == s@,
                    i + 1 <= k <= cs.len(),
                    b@ == cs@.subrange(i + 1, k as int),
                decreases cs.len() - k,
            {
                b.push(cs[k]);
                k = k + 1;
                assert(b@ =~= cs@.subrange(i + 1, k as int));
            }
            assert(cs@.subrange(i + 1, cs.len() as int) =~= cs@.skip(i + 1));
            return Some((string_from_chars(a.as_slice()), string_from_chars(b.as_slice())));
        }
        i = i + 1;
    }
    proof {
        lemma_first_index_none(s@, c);
    }
    None
}

} // verus!
