//! The `pattern` attribute of form controls: a regular expression that must match the
//! whole value. This reads the part of the syntax that form patterns use: literal
//! characters, `.`, the escapes `\d \D \w \W \s \S` and escaped punctuation, bracket
//! classes with ranges and `^` negation, and the quantifiers `?`, `*`, `+`, `{n}`,
//! `{n,}` and `{n,m}` (counts up to 99999), with an optional `^` in front and `$` at
//! the end. A pattern that uses anything else (groups, alternation, other escapes) is
//! not read, and, as HTML does with a pattern that does not compile, it is then
//! ignored.
use vstd::prelude::*;
use crate::strs::chars_of;

verus! {

/// A set of characters: the union of some ranges, or its complement.
pub type CharClass = (bool, Seq<(char, char)>);

/// Whether a character is in a set.
pub open spec fn in_class(negated: bool, ranges: Seq<(char, char)>, c: char) -> bool {
    negated != exists|k: int| 0 <= k < ranges.len() && (ranges[k].0 as u32) <= (c as u32)
        && (c as u32) <= (#[trigger] ranges[k]).1 as u32
}

/// `\d`.
pub open spec fn digit_ranges() -> Seq<(char, char)> {
    seq![('0', '9')]
}

/// `\w`.
pub open spec fn word_ranges() -> Seq<(char, char)> {
    seq![('0', '9'), ('A', 'Z'), ('_', '_'), ('a', 'z')]
}

/// `\s`: space, tab, line feed, vertical tab, form feed and carriage return.
pub open spec fn space_ranges() -> Seq<(char, char)> {
    seq![(' ', ' '), ('\t', '\r')]
}

/// Whether a character is an ASCII letter or digit.
pub open spec fn is_alnum(c: char) -> bool {
    ('0' as u32 <= c as u32 <= '9' as u32) || ('A' as u32 <= c as u32 <= 'Z' as u32)
        || ('a' as u32 <= c as u32 <= 'z' as u32)
}

/// The ranges of a bracket class read from `i` on, after those in `acc`, up to its
/// closing `]`, and the position after it; `None` where the class is not closed or uses
/// what is not read.
pub open spec fn class_items(p: Seq<char>, i: int, acc: Seq<(char, char)>) -> Option<(Seq<(char, char)>, int)>
    decreases p.len() - i,
{
    if i < 0 || i >= p.len() {
        None
    } else if p[i] == ']' {
        Some((acc, i + 1))
    } else if p[i] == '\\' {
        if i + 1 >= p.len() {
            None
        } else if p[i + 1] == 'd' {
            class_items(p, i + 2, acc + digit_ranges())
        } else if p[i + 1] == 'w' {
            class_items(p, i + 2, acc + word_ranges())
        } else if p[i + 1] == 's' {
            class_items(p, i + 2, acc + space_ranges())
        } else if is_alnum(p[i + 1]) {
            None
        } else {
            class_items(p, i + 2, acc.push((p[i + 1], p[i + 1])))
        }
    } else if i + 2 < p.len() && p[i + 1] == '-' && p[i + 2] != ']' && p[i + 2] != '\\' {
        if (p[i] as u32) <= (p[i + 2] as u32) {
            class_items(p, i + 3, acc.push((p[i], p[i + 2])))
        } else {
            None
        }
    } else {
        class_items(p, i + 1, acc.push((p[i], p[i])))
    }
}

/// The set of characters the atom at `i` matches and the position after it; `None`
/// where there is no atom there that is read.
pub open spec fn atom_at(p: Seq<char>, i: int) -> Option<(bool, Seq<(char, char)>, int)> {
    if i < 0 || i >= p.len() {
        None
    } else {
        let c = p[i];
        if c == '[' {
            let negated = p.len() - i > 1 && p[i + 1] == '^';
            let start = if negated { i + 2 } else { i + 1 };
            match class_items(p, start, Seq::empty()) {
                Some((rs, end)) => Some((negated, rs, end)),
                None => None,
            }
        } else if c == '\\' {
            if i + 1 >= p.len() {
                None
            } else {
                let e = p[i + 1];
                if e == 'd' {
                    Some((false, digit_ranges(), i + 2))
                } else if e == 'D' {
                    Some((true, digit_ranges(), i + 2))
                } else if e == 'w' {
                    Some((false, word_ranges(), i + 2))
                } else if e == 'W' {
                    Some((true, word_ranges(), i + 2))
                } else if e == 's' {
                    Some((false, space_ranges(), i + 2))
                } else if e == 'S' {
                    Some((true, space_ranges(), i + 2))
                } else if is_alnum(e) {
                    None
                } else {
                    Some((false, seq![(e, e)], i + 2))
                }
            }
        } else if c == '.' {
            Some((true, seq![('\n', '\n'), ('\r', '\r')], i + 1))
        } else if c == '(' || c == ')' || c == '|' || c == '{' || c == '}' || c == '?' || c == '*'
            || c == '+' || c == ']' || c == '^' || c == '$' {
            None
        } else {
            Some((false, seq![(c, c)], i + 1))
        }
    }
}

/// Whether a character is an ASCII digit.
pub open spec fn is_digit_char(c: char) -> bool {
    '0' as u32 <= c as u32 <= '9' as u32
}

/// The decimal number whose digits start at `i`, after the value `acc` of those read
/// before, and the position after it; reading stops before a digit that would take it
/// past 99999.
pub open spec fn number_at(p: Seq<char>, i: int, acc: nat) -> (nat, int)
    decreases p.len() - i,
{
    if 0 <= i < p.len() && is_digit_char(p[i]) && acc < 10000 {
        number_at(p, i + 1, acc * 10 + ((p[i] as u32 - '0' as u32) as nat))
    } else {
        (acc, i)
    }
}

/// The quantifier at `i`: the least and most repetitions, and the position after it;
/// `None` for a counted repetition `{n}`, `{n,}` or `{n,m}` that does not read.
pub open spec fn quant_at(p: Seq<char>, i: int) -> Option<(nat, Option<nat>, int)> {
    if 0 <= i < p.len() && p[i] == '?' {
        Some((0, Some(1), i + 1))
    } else if 0 <= i < p.len() && p[i] == '*' {
        Some((0, None, i + 1))
    } else if 0 <= i < p.len() && p[i] == '+' {
        Some((1, None, i + 1))
    } else if 0 <= i < p.len() && p[i] == '{' {
        let (lo, j) = number_at(p, i + 1, 0);
        if j == i + 1 || j >= p.len() {
            None
        } else if p[j] == '}' {
            Some((lo, Some(lo), j + 1))
        } else if p[j] == ',' {
            let (hi, k) = number_at(p, j + 1, 0);
            if k >= p.len() || p[k] != '}' {
                None
            } else if k == j + 1 {
                Some((lo, None, k + 1))
            } else if lo <= hi {
                Some((lo, Some(hi), k + 1))
            } else {
                None
            }
        } else {
            None
        }
    } else {
        Some((1, Some(1), i))
    }
}

/// Whether the pattern from `i` on is made only of what is read.
pub open spec fn readable_from(p: Seq<char>, i: int) -> bool
    decreases p.len() - i,
{
    if i >= p.len() {
        true
    } else {
        match atom_at(p, i) {
            None => false,
            Some((_, _, i2)) => match quant_at(p, i2) {
                None => false,
                Some((_, _, i3)) => if i3 <= i || i3 > p.len() {
                    false
                } else {
                    readable_from(p, i3)
                },
            },
        }
    }
}

/// Whether the pattern from `i` on matches the value from `j` on, to its end.
pub open spec fn match_from(p: Seq<char>, i: int, v: Seq<char>, j: int) -> bool
    decreases p.len() - i, v.len() - j, 1int,
{
    if i >= p.len() {
        j >= v.len()
    } else {
        match atom_at(p, i) {
            None => false,
            Some((negated, rs, i2)) => match quant_at(p, i2) {
                None => false,
                Some((lo, hi, i3)) => if i3 <= i || i3 > p.len() || j < 0 || j > v.len() {
                    false
                } else {
                    repeat_from(p, negated, rs, lo, hi, i3, v, j, 0)
                },
            },
        }
    }
}

/// Whether an atom already matched `used` times, then the pattern from `next` on,
/// match the value from `j` on: either the atom stops here, having matched often
/// enough, or it matches once more where it may.
pub open spec fn repeat_from(
    p: Seq<char>,
    negated: bool,
    rs: Seq<(char, char)>,
    lo: nat,
    hi: Option<nat>,
    next: int,
    v: Seq<char>,
    j: int,
    used: nat,
) -> bool
    decreases p.len() - next + 1, v.len() - j, 0int,
{
    if next < 1 || next > p.len() || j < 0 || j > v.len() {
        false
    } else {
        (used >= lo && match_from(p, next, v, j)) || (j < v.len() && (hi is None || used + 1 <= hi->0)
            && in_class(negated, rs, v[j]) && repeat_from(p, negated, rs, lo, hi, next, v, j + 1, used + 1))
    }
}

/// The pattern with a leading `^` and a trailing `$` taken off.
pub open spec fn pattern_core(p: Seq<char>) -> Seq<char> {
    let a = if p.len() > 0 && p[0] == '^' { 1int } else { 0int };
    let b = if p.len() > a && p[p.len() - 1] == '$' && !(p.len() >= a + 2 && p[p.len() - 2] == '\\') {
        p.len() - 1
    } else {
        p.len() as int
    };
    p.subrange(a, b)
}

/// Whether a value satisfies a pattern: the whole value matches it, or the pattern is
/// not one that is read, and so is ignored.
pub open spec fn spec_pattern_matches(p: Seq<char>, v: Seq<char>) -> bool {
    let core = pattern_core(p);
    !readable_from(core, 0) || match_from(core, 0, v, 0)
}

/// Whether some range holds a character.
fn ranges_hold(rs: &Vec<(char, char)>, c: char) -> (r: bool)
    ensures
        r == exists|k: int| 0 <= k < rs@.len() && (rs@[k].0 as u32) <= (c as u32)
            && (c as u32) <= (#[trigger] rs@[k]).1 as u32,
{
    let mut k: usize = 0;
    while k < rs.len()
        invariant
            k <= rs@.len(),
            forall|m: int| 0 <= m < k ==> !((rs@[m].0 as u32) <= (c as u32) && (c as u32) <= (#[trigger] rs@[m]).1 as u32),
        decreases rs.len() - k,
    {
        let (a, b) = rs[k];
        if (a as u32) <= (c as u32) && (c as u32) <= (b as u32) {
            assert((rs@[k as int].0 as u32) <= (c as u32) && (c as u32) <= rs@[k as int].1 as u32);
            return true;
        }
        k = k + 1;
    }
    false
}

fn digits() -> (r: Vec<(char, char)>)
    ensures
        r@ == digit_ranges(),
{
    let mut r = Vec::new();
    r.push(('0', '9'));
    assert(r@ =~= digit_ranges());
    r
}

fn words() -> (r: Vec<(char, char)>)
    ensures
        r@ == word_ranges(),
{
    let mut r = Vec::new();
    r.push(('0', '9'));
    r.push(('A', 'Z'));
    r.push(('_', '_'));
    r.push(('a', 'z'));
    assert(r@ =~= word_ranges());
    r
}

fn spaces() -> (r: Vec<(char, char)>)
    ensures
        r@ == space_ranges(),
{
    let mut r = Vec::new();
    r.push((' ', ' '));
    r.push(('\t', '\r'));
    assert(r@ =~= space_ranges());
    r
}

fn append(acc: &mut Vec<(char, char)>, more: Vec<(char, char)>)
    ensures
        final(acc)@ == old(acc)@ + more@,
{
    let mut k: usize = 0;
    while k < more.len()
        invariant
            k <= more@.len(),
            acc@ == old(acc)@ + more@.subrange(0, k as int),
        decreases more.len() - k,
    {
        acc.push(more[k]);
        assert(more@.subrange(0, k as int + 1) =~= more@.subrange(0, k as int).push(more@[k as int]));
        k = k + 1;
    }
    assert(more@.subrange(0, more@.len() as int) =~= more@);
}

fn is_alnum_exec(c: char) -> (r: bool)
    ensures
        r == is_alnum(c),
{
    ('0' as u32 <= c as u32 && c as u32 <= '9' as u32) || ('A' as u32 <= c as u32 && c as u32 <= 'Z' as u32)
        || ('a' as u32 <= c as u32 && c as u32 <= 'z' as u32)
}

/// The ranges of the bracket class that starts at `start`, and the position after it.
fn read_class(p: &Vec<char>, start: usize) -> (r: Option<(Vec<(char, char)>, usize)>)
    requires
        start <= p@.len(),
    ensures
        match class_items(p@, start as int, Seq::empty()) {
            Some((rs, end)) => r matches Some((v, e)) && v@ == rs && e == end,
            None => r is None,
        },
{
    let mut acc: Vec<(char, char)> = Vec::new();
    let mut i: usize = start;
    let n = p.len();
    while i < n
        invariant
            n == p@.len(),
            start <= i <= n,
            class_items(p@, start as int, Seq::empty()) == class_items(p@, i as int, acc@),
        decreases n - i,
    {
        let c = p[i];
        if c == ']' {
            return Some((acc, i + 1));
        } else if c == '\\' {
            if n - i <= 1 {
                return None;
            }
            let e = p[i + 1];
            if e == 'd' {
                append(&mut acc, digits());
            } else if e == 'w' {
                append(&mut acc, words());
            } else if e == 's' {
                append(&mut acc, spaces());
            } else if is_alnum_exec(e) {
                return None;
            } else {
                acc.push((e, e));
            }
            i = i + 2;
        } else if n - i > 2 && p[i + 1] == '-' && p[i + 2] != ']' && p[i + 2] != '\\' {
            let hi = p[i + 2];
            if (c as u32) <= (hi as u32) {
                acc.push((c, hi));
                i = i + 3;
            } else {
                return None;
            }
        } else {
            acc.push((c, c));
            i = i + 1;
        }
    }
    None
}

fn single(c: char) -> (r: Vec<(char, char)>)
    ensures
        r@ == seq![(c, c)],
{
    let mut r = Vec::new();
    r.push((c, c));
    assert(r@ =~= seq![(c, c)]);
    r
}

/// The atom at `i`, as `atom_at` reads it.
fn read_atom(p: &Vec<char>, i: usize) -> (r: Option<(bool, Vec<(char, char)>, usize)>)
    requires
        i < p@.len(),
    ensures
        match atom_at(p@, i as int) {
            Some((neg, rs, next)) => r matches Some((n2, v, e)) && n2 == neg && v@ == rs && e == next,
            None => r is None,
        },
{
    let _n = p.len();
    let c = p[i];
    if c == '[' {
        let negated = p.len() - i > 1 && p[i + 1] == '^';
        let start = if negated { i + 2 } else { i + 1 };
        match read_class(p, start) {
            Some((rs, end)) => Some((negated, rs, end)),
            None => None,
        }
    } else if c == '\\' {
        if p.len() - i <= 1 {
            None
        } else {
            let e = p[i + 1];
            if e == 'd' {
                Some((false, digits(), i + 2))
            } else if e == 'D' {
                Some((true, digits(), i + 2))
            } else if e == 'w' {
                Some((false, words(), i + 2))
            } else if e == 'W' {
                Some((true, words(), i + 2))
            } else if e == 's' {
                Some((false, spaces(), i + 2))
            } else if e == 'S' {
                Some((true, spaces(), i + 2))
            } else if is_alnum_exec(e) {
                None
            } else {
                Some((false, single(e), i + 2))
            }
        }
    } else if c == '.' {
        let mut rs = Vec::new();
        rs.push(('\n', '\n'));
        rs.push(('\r', '\r'));
        assert(rs@ =~= seq![('\n', '\n'), ('\r', '\r')]);
        Some((true, rs, i + 1))
    } else if c == '(' || c == ')' || c == '|' || c == '{' || c == '}' || c == '?' || c == '*' || c == '+'
        || c == ']' || c == '^' || c == '$' {
        None
    } else {
        Some((false, single(c), i + 1))
    }
}

/// The number whose digits start at `i`, as `number_at` reads it.
fn read_number(p: &Vec<char>, i: usize) -> (r: (usize, usize))
    requires
        i <= p@.len(),
    ensures
        r.0 as nat == number_at(p@, i as int, 0).0,
        r.1 as int == number_at(p@, i as int, 0).1,
        r.0 <= 99999,
        i <= r.1 <= p@.len(),
{
    let n = p.len();
    let mut acc: usize = 0;
    let mut k: usize = i;
    while k < n && '0' as u32 <= p[k] as u32 && p[k] as u32 <= '9' as u32 && acc < 10000
        invariant
            n == p@.len(),
            i <= k <= n,
            acc <= 99999,
            number_at(p@, i as int, 0) == number_at(p@, k as int, acc as nat),
        decreases n - k,
    {
        let d = (p[k] as u32 - '0' as u32) as usize;
        acc = acc * 10 + d;
        k = k + 1;
    }
    (acc, k)
}

/// The quantifier at `i`, as `quant_at` reads it.
fn read_quant(p: &Vec<char>, i: usize) -> (r: Option<(usize, Option<usize>, usize)>)
    requires
        i <= p@.len(),
    ensures
        match quant_at(p@, i as int) {
            None => r is None,
            Some((lo, hi, e)) => r matches Some((l, h, e2)) && l as nat == lo && e2 as int == e
                && (match h { Some(x) => hi == Some(x as nat), None => hi is None }),
        },
{
    let n = p.len();
    if i < n && p[i] == '?' {
        Some((0, Some(1), i + 1))
    } else if i < n && p[i] == '*' {
        Some((0, None, i + 1))
    } else if i < n && p[i] == '+' {
        Some((1, None, i + 1))
    } else if i < n && p[i] == '{' {
        let (lo, j) = read_number(p, i + 1);
        if j == i + 1 || j >= n {
            None
        } else if p[j] == '}' {
            Some((lo, Some(lo), j + 1))
        } else if p[j] == ',' {
            let (hi, k) = read_number(p, j + 1);
            if k >= n || p[k] != '}' {
                None
            } else if k == j + 1 {
                Some((lo, None, k + 1))
            } else if lo <= hi {
                Some((lo, Some(hi), k + 1))
            } else {
                None
            }
        } else {
            None
        }
    } else {
        Some((1, Some(1), i))
    }
}

/// Whether the pattern from `i` on is made only of what is read.
fn readable(p: &Vec<char>, i: usize) -> (r: bool)
    requires
        i <= p@.len(),
    ensures
        r == readable_from(p@, i as int),
    decreases p@.len() - i,
{
    if i >= p.len() {
        return true;
    }
    match read_atom(p, i) {
        None => false,
        Some((_, _, i2)) => {
            if i2 > p.len() {
                return false;
            }
            match read_quant(p, i2) {
                None => false,
                Some((_, _, i3)) => if i3 <= i || i3 > p.len() {
                    false
                } else {
                    readable(p, i3)
                },
            }
        },
    }
}

/// Whether the pattern from `i` on matches the value from `j` on.
fn matches_from(p: &Vec<char>, i: usize, v: &Vec<char>, j: usize) -> (r: bool)
    requires
        i <= p@.len(),
        j <= v@.len(),
    ensures
        r == match_from(p@, i as int, v@, j as int),
    decreases p@.len() - i, v@.len() - j, 1int,
{
    if i >= p.len() {
        return j >= v.len();
    }
    match read_atom(p, i) {
        None => false,
        Some((negated, rs, i2)) => {
            if i2 > p.len() {
                return false;
            }
            match read_quant(p, i2) {
                None => false,
                Some((lo, hi, i3)) => if i3 <= i || i3 > p.len() {
                    false
                } else {
                    repeats_from(p, negated, &rs, lo, hi, i3, v, j, 0)
                },
            }
        },
    }
}

/// Whether the atom, already matched `used` times, then the pattern from `next` on,
/// match the value from `j` on.
fn repeats_from(
    p: &Vec<char>,
    negated: bool,
    rs: &Vec<(char, char)>,
    lo: usize,
    hi: Option<usize>,
    next: usize,
    v: &Vec<char>,
    j: usize,
    used: usize,
) -> (r: bool)
    requires
        1 <= next <= p@.len(),
        j <= v@.len(),
        used <= j,
    ensures
        r == repeat_from(p@, negated, rs@, lo as nat, match hi { Some(h) => Some(h as nat), None => None }, next as int, v@, j as int, used as nat),
    decreases p@.len() - next + 1, v@.len() - j, 0int,
{
    if used >= lo && matches_from(p, next, v, j) {
        return true;
    }
    if j < v.len() {
        let room = match hi { Some(h) => used + 1 <= h, None => true };
        if room && negated != ranges_hold(rs, v[j]) {
            return repeats_from(p, negated, rs, lo, hi, next, v, j + 1, used + 1);
        }
    }
    false
}

/// Whether a value satisfies a pattern, as `spec_pattern_matches` says.
pub fn pattern_matches(pattern: &str, value: &str) -> (r: bool)
    ensures
        r == spec_pattern_matches(pattern@, value@),
{
    let p = chars_of(pattern);
    let n = p.len();
    let a: usize = if n > 0 && p[0] == '^' { 1 } else { 0 };
    let b: usize = if n > a && p[n - 1] == '$' && !(n >= a + 2 && p[n - 2] == '\\') { n - 1 } else { n };
    let mut core: Vec<char> = Vec::new();
    let mut k: usize = a;
    while k < b
        invariant
            a <= k <= b <= n,
            n == p@.len(),
            core@ == p@.subrange(a as int, k as int),
        decreases b - k,
    {
        core.push(p[k]);
        assert(p@.subrange(a as int, k as int + 1) =~= p@.subrange(a as int, k as int).push(p@[k as int]));
        k = k + 1;
    }
    assert(core@ =~= pattern_core(pattern@));
    let v = chars_of(value);
    !readable(&core, 0) || matches_from(&core, 0, &v, 0)
}

} // verus!
