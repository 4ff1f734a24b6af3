//! Glyph substitution: ligatures and contextual alternates over glyph identifiers.
use vstd::prelude::*;
use crate::text_types::GlyphId;
use crate::features::HarfbuzzFeature;
use crate::normalize::{spec_nfc, spec_nfd, spec_nfkc, spec_nfkd, nfc_string, nfd_string, nfkc_string, nfkd_string, is_nfc_string};

verus! {

/// A contextual substitution rule.
#[derive(Debug, Clone)]
pub struct ContextualRule {
    /// Input sequence to match
    pub input: Vec<GlyphId>,
    /// Lookahead sequence
    pub lookahead: Vec<GlyphId>,
    /// Lookback sequence
    pub lookback: Vec<GlyphId>,
    /// Substitution to apply
    pub substitution: Vec<GlyphId>,
}

/// The ligatures a processor starts with: ff, fi, fl, ffi and ffl.
pub open spec fn default_ligature_table() -> Seq<(Seq<GlyphId>, GlyphId)> {
    seq![
        (seq![GlyphId(0x66), GlyphId(0x66)], GlyphId(0xFB00)),
        (seq![GlyphId(0x66), GlyphId(0x69)], GlyphId(0xFB01)),
        (seq![GlyphId(0x66), GlyphId(0x6C)], GlyphId(0xFB02)),
        (seq![GlyphId(0x66), GlyphId(0x66), GlyphId(0x69)], GlyphId(0xFB03)),
        (seq![GlyphId(0x66), GlyphId(0x66), GlyphId(0x6C)], GlyphId(0xFB04)),
    ]
}

/// The ligature a table gives a glyph sequence: the glyph of its first entry with that key.
pub open spec fn table_lookup(t: Seq<(Seq<GlyphId>, GlyphId)>, s: Seq<GlyphId>) -> Option<GlyphId>
    decreases t.len(),
{
    if t.len() == 0 {
        None
    } else if t[0].0 == s {
        Some(t[0].1)
    } else {
        table_lookup(t.drop_first(), s)
    }
}

/// The length of the longest window at the start of `s`, of four, three or two glyphs,
/// that the table has a ligature for; zero where there is none.
pub open spec fn longest_match(t: Seq<(Seq<GlyphId>, GlyphId)>, s: Seq<GlyphId>) -> nat {
    if 4 <= s.len() && table_lookup(t, s.take(4)) is Some {
        4
    } else if 3 <= s.len() && table_lookup(t, s.take(3)) is Some {
        3
    } else if 2 <= s.len() && table_lookup(t, s.take(2)) is Some {
        2
    } else {
        0
    }
}

/// Greedy ligature substitution from left to right: each output glyph, with the
/// number of input glyphs that it stands for.
pub open spec fn ligature_pass(t: Seq<(Seq<GlyphId>, GlyphId)>, s: Seq<GlyphId>) -> Seq<(GlyphId, nat)>
    decreases s.len(),
{
    if s.len() == 0 {
        seq![]
    } else {
        let m = longest_match(t, s);
        if m == 0 {
            seq![(s[0], 1nat)] + ligature_pass(t, s.drop_first())
        } else {
            seq![(table_lookup(t, s.take(m as int)).unwrap(), m)] + ligature_pass(t, s.skip(m as int))
        }
    }
}

/// Every glyph kept, each standing for itself.
pub open spec fn unit_spans(s: Seq<GlyphId>) -> Seq<(GlyphId, nat)> {
    s.map_values(|g: GlyphId| (g, 1nat))
}

/// The number of input glyphs that a list of output glyphs stands for.
pub open spec fn span_total(r: Seq<(GlyphId, nat)>) -> nat
    decreases r.len(),
{
    if r.len() == 0 {
        0
    } else {
        r[0].1 + span_total(r.drop_first())
    }
}

/// Output spans with their counts as natural numbers.
pub open spec fn spans_view(r: Seq<(GlyphId, usize)>) -> Seq<(GlyphId, nat)> {
    r.map_values(|p: (GlyphId, usize)| (p.0, p.1 as nat))
}

/// Whether `input` occurs in `g` at position `i`.
pub open spec fn matches_at(g: Seq<GlyphId>, input: Seq<GlyphId>, i: int) -> bool {
    i + input.len() <= g.len() && g.subrange(i, i + input.len()) == input
}

/// `g` with the glyphs from position `i` on overwritten by `subst`, as far as `g` reaches.
pub open spec fn substitute_at(g: Seq<GlyphId>, subst: Seq<GlyphId>, i: int) -> Seq<GlyphId> {
    Seq::new(g.len(), |k: int| if i <= k < i + subst.len() { subst[k - i] } else { g[k] })
}

/// One contextual rule applied at every position from `i` on, left to right, each
/// position tested against the glyphs as the earlier positions left them.
pub open spec fn rule_from(g: Seq<GlyphId>, input: Seq<GlyphId>, subst: Seq<GlyphId>, i: int) -> Seq<GlyphId>
    decreases g.len() - i,
{
    if i < 0 || i >= g.len() {
        g
    } else {
        let g2 = if matches_at(g, input, i) { substitute_at(g, subst, i) } else { g };
        rule_from(g2, input, subst, i + 1)
    }
}

/// Contextual rules applied one after the other.
pub open spec fn rules_apply(g: Seq<GlyphId>, rules: Seq<(Seq<GlyphId>, Seq<GlyphId>)>) -> Seq<GlyphId>
    decreases rules.len(),
{
    if rules.len() == 0 {
        g
    } else {
        rules_apply(rule_from(g, rules[0].0, rules[0].1, 0), rules.drop_first())
    }
}

proof fn lemma_span_total_concat(a: Seq<(GlyphId, nat)>, b: Seq<(GlyphId, nat)>)
    ensures
        span_total(a + b) == span_total(a) + span_total(b),
    decreases a.len(),
{
    if a.len() > 0 {
        assert((a + b).drop_first() =~= a.drop_first() + b);
        lemma_span_total_concat(a.drop_first(), b);
    } else {
        assert(a + b =~= b);
    }
}

proof fn lemma_pass_total(t: Seq<(Seq<GlyphId>, GlyphId)>, s: Seq<GlyphId>)
    ensures
        span_total(ligature_pass(t, s)) == s.len(),
    decreases s.len(),
{
    if s.len() > 0 {
        let m = longest_match(t, s);
        if m == 0 {
            let head = seq![(s[0], 1nat)];
            lemma_pass_total(t, s.drop_first());
            lemma_span_total_concat(head, ligature_pass(t, s.drop_first()));
            assert(span_total(head) == 1) by {
                reveal_with_fuel(span_total, 2);
            }
        } else {
            let head = seq![(table_lookup(t, s.take(m as int)).unwrap(), m)];
            lemma_pass_total(t, s.skip(m as int));
            lemma_span_total_concat(head, ligature_pass(t, s.skip(m as int)));
            assert(span_total(head) == m) by {
                reveal_with_fuel(span_total, 2);
            }
        }
    }
}

proof fn lemma_unit_total(s: Seq<GlyphId>)
    ensures
        span_total(unit_spans(s)) == s.len(),
    decreases s.len(),
{
    if s.len() > 0 {
        lemma_unit_total(s.drop_first());
        assert(unit_spans(s).drop_first() =~= unit_spans(s.drop_first()));
    }
}

proof fn lemma_lookup_skip(t: Seq<(Seq<GlyphId>, GlyphId)>, s: Seq<GlyphId>, k: int)
    requires
        0 <= k <= t.len(),
        forall|j: int| 0 <= j < k ==> (#[trigger] t[j]).0 != s,
    ensures
        table_lookup(t, s) == table_lookup(t.skip(k), s),
    decreases k,
{
    if k > 0 {
        assert(t[0].0 != s);
        let t1 = t.drop_first();
        assert forall|j: int| 0 <= j < k - 1 implies (#[trigger] t1[j]).0 != s by {
            assert(t1[j] == t[j + 1]);
        }
        lemma_lookup_skip(t1, s, k - 1);
        assert(t1.skip(k - 1) =~= t.skip(k));
    } else {
        assert(t.skip(0) =~= t);
    }
}

/// Whether two glyph sequences are equal.
pub fn glyphs_eq(a: &[GlyphId], b: &[GlyphId]) -> (r: bool)
    ensures
        r == (a@ == b@),
{
    if a.len() != b.len() {
        return false;
    }
    let mut i: usize = 0;
    while i < a.len()
        invariant
            a.len() == b.len(),
            i <= a.len(),
            forall|j: int| 0 <= j < i ==> a@[j] == b@[j],
        decreases a.len() - i,
    {
        if a[i] != b[i] {
            return false;
        }
        i = i + 1;
    }
    assert(a@ =~= b@);
    true
}

/// Whether `key` equals the `len` glyphs of `glyphs` from `start`.
fn window_eq(glyphs: &Vec<GlyphId>, start: usize, len: usize, key: &Vec<GlyphId>) -> (r: bool)
    requires
        start + len <= glyphs.len(),
    ensures
        r == (key@ == glyphs@.subrange(start as int, start + len)),
{
    if key.len() != len {
        return false;
    }
    let mut i: usize = 0;
    while i < len
        invariant
            start + len <= glyphs.len(),
            key.len() == len,
            i <= len,
            forall|j: int| 0 <= j < i ==> key@[j] == glyphs@[start + j],
        decreases len - i,
    {
        if key[i] != glyphs[start + i] {
            return false;
        }
        i = i + 1;
    }
    assert(key@ =~= glyphs@.subrange(start as int, start + len));
    true
}

/// A copy of a glyph sequence.
pub fn copy_glyphs(g: &[GlyphId]) -> (r: Vec<GlyphId>)
    ensures
        r@ == g@,
{
    let mut r: Vec<GlyphId> = Vec::new();
    let mut i: usize = 0;
    while i < g.len()
        invariant
            i <= g.len(),
            r@ == g@.take(i as int),
        decreases g.len() - i,
    {
        r.push(g[i]);
        i = i + 1;
        assert(r@ =~= g@.take(i as int));
    }
    assert(g@.take(g.len() as int) =~= g@);
    r
}

/// Whether a feature list holds a feature.
fn features_include(v: &Vec<HarfbuzzFeature>, f: HarfbuzzFeature) -> (r: bool)
    ensures
        r == v@.contains(f),
{
    let mut i: usize = 0;
    while i < v.len()
        invariant
            i <= v.len(),
            forall|j: int| 0 <= j < i ==> v@[j] != f,
        decreases v.len() - i,
    {
        if v[i] == f {
            return true;
        }
        i = i + 1;
    }
    false
}

/// OpenType GSUB (glyph substitution) processor: ligature and contextual
/// substitution over glyph identifiers.
pub struct GsubProcessor {
    ligatures: Vec<(Vec<GlyphId>, GlyphId)>,
    contextual_rules: Vec<ContextualRule>,
    enabled_features: Vec<HarfbuzzFeature>,
}

impl GsubProcessor {
    /// The ligature table, in lookup order.
    pub closed spec fn table(&self) -> Seq<(Seq<GlyphId>, GlyphId)> {
        self.ligatures@.map_values(|e: (Vec<GlyphId>, GlyphId)| (e.0@, e.1))
    }

    /// The contextual rules, as input and substitution sequences.
    pub closed spec fn rules(&self) -> Seq<(Seq<GlyphId>, Seq<GlyphId>)> {
        self.contextual_rules@.map_values(|r: ContextualRule| (r.input@, r.substitution@))
    }

    /// The enabled features.
    pub closed spec fn features(&self) -> Seq<HarfbuzzFeature> {
        self.enabled_features@
    }

    /// Create a processor with the default ligatures, no contextual rules, and
    /// ligatures, contextual ligatures and contextual alternates enabled.
    pub fn new() -> (r: Self)
        ensures
            r.table() == default_ligature_table(),
            r.rules() == Seq::<(Seq<GlyphId>, Seq<GlyphId>)>::empty(),
            r.features() == seq![HarfbuzzFeature::Liga, HarfbuzzFeature::Clig, HarfbuzzFeature::Calt],
    {
        let r = GsubProcessor {
            ligatures: Self::build_default_ligatures(),
            contextual_rules: Vec::new(),
            enabled_features: vec![HarfbuzzFeature::Liga, HarfbuzzFeature::Clig, HarfbuzzFeature::Calt],
        };
        assert(r.rules() =~= Seq::<(Seq<GlyphId>, Seq<GlyphId>)>::empty());
        r
    }

    /// A processor with the given ligature table, no contextual rules, and only
    /// ligatures enabled.
    pub(crate) fn with_table(ligatures: Vec<(Vec<GlyphId>, GlyphId)>) -> (r: Self)
        ensures
            r.table() == ligatures@.map_values(|e: (Vec<GlyphId>, GlyphId)| (e.0@, e.1)),
            r.features() == seq![HarfbuzzFeature::Liga],
    {
        GsubProcessor {
            ligatures,
            contextual_rules: Vec::new(),
            enabled_features: vec![HarfbuzzFeature::Liga],
        }
    }

    fn build_default_ligatures() -> (r: Vec<(Vec<GlyphId>, GlyphId)>)
        ensures
            r@.map_values(|e: (Vec<GlyphId>, GlyphId)| (e.0@, e.1)) == default_ligature_table(),
    {
        let f = GlyphId(0x66);
        let i = GlyphId(0x69);
        let l = GlyphId(0x6C);
        let r = vec![
            (vec![f, f], GlyphId(0xFB00)),
            (vec![f, i], GlyphId(0xFB01)),
            (vec![f, l], GlyphId(0xFB02)),
            (vec![f, f, i], GlyphId(0xFB03)),
            (vec![f, f, l], GlyphId(0xFB04)),
        ];
        assert(r@.map_values(|e: (Vec<GlyphId>, GlyphId)| (e.0@, e.1)) =~= default_ligature_table());
        r
    }

    /// The ligature for the `len` glyphs of `glyphs` from `start`.
    fn lookup(&self, glyphs: &Vec<GlyphId>, start: usize, len: usize) -> (r: Option<GlyphId>)
        requires
            start + len <= glyphs.len(),
        ensures
            r == table_lookup(self.table(), glyphs@.subrange(start as int, start + len)),
    {
        let ghost t = self.table();
        let ghost w = glyphs@.subrange(start as int, start + len);
        let mut k: usize = 0;
        while k < self.ligatures.len()
            invariant
                t == self.table(),
                w == glyphs@.subrange(start as int, start + len),
                start + len <= glyphs.len(),
                k <= self.ligatures.len(),
                forall|j: int| 0 <= j < k ==> (#[trigger] t[j]).0 != w,
            decreases self.ligatures.len() - k,
        {
            let entry = &self.ligatures[k];
            if window_eq(glyphs, start, len, &entry.0) {
                proof {
                    lemma_lookup_skip(t, w, k as int);
                    assert(t.skip(k as int)[0] == t[k as int]);
                }
                return Some(entry.1);
            }
            k = k + 1;
        }
        proof {
            lemma_lookup_skip(t, w, k as int);
        }
        None
    }

    /// The longest ligature window at position `i`, with its ligature.
    fn match_at(&self, glyphs: &Vec<GlyphId>, i: usize) -> (r: (usize, GlyphId))
        requires
            i < glyphs.len(),
        ensures
            r.0 == longest_match(self.table(), glyphs@.skip(i as int)),
            r.0 > 0 ==> Some(r.1) == table_lookup(self.table(), glyphs@.skip(i as int).take(r.0 as int)),
    {
        let ghost s = glyphs@.skip(i as int);
        let n = glyphs.len();
        let mut len: usize = 4;
        while len >= 2
            invariant
                2 <= len + 1 <= 5,
                i < n == glyphs.len(),
                s == glyphs@.skip(i as int),
                forall|m: int| len < m <= 4 && m <= s.len() ==> table_lookup(self.table(), #[trigger] s.take(m)) is None,
            decreases len,
        {
            if len <= n - i {
                let found = self.lookup(glyphs, i, len);
                assert(s.take(len as int) =~= glyphs@.subrange(i as int, i + len));
                if let Some(g) = found {
                    return (len, g);
                }
            }
            len = len - 1;
        }
        (0, GlyphId(0))
    }

    /// Apply ligature substitution. Each output glyph comes with the number of input
    /// glyphs that it replaces, in order: a ligature the glyphs it joins, any other glyph itself.
    pub fn apply_ligatures(&self, glyphs: &Vec<GlyphId>) -> (r: Vec<(GlyphId, usize)>)
        ensures
            spans_view(r@) == (if self.features().contains(HarfbuzzFeature::Liga) {
                ligature_pass(self.table(), glyphs@)
            } else {
                unit_spans(glyphs@)
            }),
            span_total(spans_view(r@)) == glyphs.len(),
    {
        let ghost t = self.table();
        let ghost s = glyphs@;
        let mut out: Vec<(GlyphId, usize)> = Vec::new();
        if !features_include(&self.enabled_features, HarfbuzzFeature::Liga) {
            let mut i: usize = 0;
            while i < glyphs.len()
                invariant
                    s == glyphs@,
                    i <= glyphs.len(),
                    out.len() == i,
                    forall|k: int| 0 <= k < i ==> #[trigger] out@[k] == (s[k], 1usize),
                decreases glyphs.len() - i,
            {
                out.push((glyphs[i], 1));
                i = i + 1;
            }
            proof {
                assert(spans_view(out@) =~= unit_spans(s));
                lemma_unit_total(s);
            }
            return out;
        }
        let n = glyphs.len();
        let mut i: usize = 0;
        proof {
            assert(s.skip(0) =~= s);
            assert(spans_view(out@) + ligature_pass(t, s) =~= ligature_pass(t, s));
        }
        while i < n
            invariant
                t == self.table(),
                s == glyphs@,
                n == glyphs.len(),
                i <= n,
                spans_view(out@) + ligature_pass(t, s.skip(i as int)) == ligature_pass(t, s),
            decreases n - i,
        {
            let (m, g) = self.match_at(glyphs, i);
            let ghost rest = s.skip(i as int);
            let ghost before = out@;
            if m == 0 {
                out.push((glyphs[i], 1));
                proof {
                    assert(rest.drop_first() =~= s.skip(i + 1));
                    assert(spans_view(out@) =~= spans_view(before) + seq![(rest[0], 1nat)]);
                }
                i = i + 1;
            } else {
                out.push((g, m));
                proof {
                    assert(rest.skip(m as int) =~= s.skip(i + m));
                    assert(spans_view(out@) =~= spans_view(before) + seq![(g, m as nat)]);
                }
                i = i + m;
            }
        }
        proof {
            assert(s.skip(n as int) =~= Seq::<GlyphId>::empty());
            assert(spans_view(out@) + ligature_pass(t, s.skip(n as int)) =~= spans_view(out@));
            lemma_pass_total(t, s);
        }
        out
    }

    /// Apply the contextual alternates: each rule in turn, where the feature is enabled.
    pub fn apply_contextual_alternates(&self, glyphs: &mut Vec<GlyphId>)
        ensures
            final(glyphs)@ == (if self.features().contains(HarfbuzzFeature::Calt) {
                rules_apply(old(glyphs)@, self.rules())
            } else {
                old(glyphs)@
            }),
    {
        if !features_include(&self.enabled_features, HarfbuzzFeature::Calt) {
            return;
        }
        let ghost rules = self.rules();
        let ghost g0 = glyphs@;
        let mut k: usize = 0;
        assert(rules.skip(0) =~= rules);
        while k < self.contextual_rules.len()
            invariant
                rules == self.rules(),
                k <= self.contextual_rules.len(),
                rules_apply(glyphs@, rules.skip(k as int)) == rules_apply(g0, rules),
            decreases self.contextual_rules.len() - k,
        {
            let ghost before = glyphs@;
            let rule = &self.contextual_rules[k];
            Self::apply_contextual_rule(glyphs, rule);
            proof {
                assert(rules.skip(k as int).drop_first() =~= rules.skip(k + 1));
                assert(rules.skip(k as int)[0] == rules[k as int]);
            }
            k = k + 1;
        }
        proof {
            assert(rules.skip(k as int).len() == 0);
        }
    }

    /// Apply one contextual rule at every position, left to right.
    pub fn apply_contextual_rule(glyphs: &mut Vec<GlyphId>, rule: &ContextualRule)
        ensures
            final(glyphs)@ == rule_from(old(glyphs)@, rule.input@, rule.substitution@, 0),
    {
        let ghost input = rule.input@;
        let ghost subst = rule.substitution@;
        let ghost g0 = glyphs@;
        let n = glyphs.len();
        let mut i: usize = 0;
        while i < n
            invariant
                input == rule.input@,
                subst == rule.substitution@,
                n == glyphs.len(),
                i <= n,
                rule_from(glyphs@, input, subst, i as int) == rule_from(g0, input, subst, 0),
            decreases n - i,
        {
            let ghost gi = glyphs@;
            let len = rule.input.len();
            if len <= n - i && window_eq(glyphs, i, len, &rule.input) {
                let mut j: usize = 0;
                while j < rule.substitution.len()
                    invariant
                        subst == rule.substitution@,
                        n == glyphs.len(),
                        i < n,
                        gi.len() == n,
                        j <= subst.len(),
                        glyphs@ =~= Seq::new(n as nat, |k: int| if i <= k < i + j { subst[k - i] } else { gi[k] }),
                    decreases subst.len() - j,
                {
                    if j < n - i {
                        glyphs.set(i + j, rule.substitution[j]);
                    }
                    j = j + 1;
                }
                assert(glyphs@ =~= substitute_at(gi, subst, i as int));
            }
            i = i + 1;
        }
    }
}

/// Whether no two cache entries share a key.
pub open spec fn cache_keys_distinct(e: Seq<(Seq<GlyphId>, Seq<GlyphId>)>) -> bool {
    forall|i: int, j: int| 0 <= i < e.len() && 0 <= j < e.len() && i != j ==> (#[trigger] e[i]).0 != (#[trigger] e[j]).0
}

/// The value a list of cache entries holds for key `k`: that of its first entry with that key.
pub open spec fn cache_lookup(e: Seq<(Seq<GlyphId>, Seq<GlyphId>)>, k: Seq<GlyphId>) -> Option<Seq<GlyphId>>
    decreases e.len(),
{
    if e.len() == 0 {
        None
    } else if e[0].0 == k {
        Some(e[0].1)
    } else {
        cache_lookup(e.drop_first(), k)
    }
}

/// The entries with the value for `k` replaced in place, or appended where `k` has none.
pub open spec fn replace_or_push(
    e: Seq<(Seq<GlyphId>, Seq<GlyphId>)>,
    k: Seq<GlyphId>,
    v: Seq<GlyphId>,
) -> Seq<(Seq<GlyphId>, Seq<GlyphId>)>
    decreases e.len(),
{
    if e.len() == 0 {
        seq![(k, v)]
    } else if e[0].0 == k {
        seq![(k, v)] + e.drop_first()
    } else {
        seq![e[0]] + replace_or_push(e.drop_first(), k, v)
    }
}

/// The entries after an insertion into a cache of the given size: where the cache is
/// full, its oldest entry leaves first.
pub open spec fn cache_insert(
    e: Seq<(Seq<GlyphId>, Seq<GlyphId>)>,
    max_size: nat,
    k: Seq<GlyphId>,
    v: Seq<GlyphId>,
) -> Seq<(Seq<GlyphId>, Seq<GlyphId>)> {
    let e1 = if e.len() >= max_size && e.len() > 0 { e.drop_first() } else { e };
    replace_or_push(e1, k, v)
}

proof fn lemma_replace_at(e: Seq<(Seq<GlyphId>, Seq<GlyphId>)>, k: Seq<GlyphId>, v: Seq<GlyphId>, j: int)
    requires
        0 <= j < e.len(),
        e[j].0 == k,
        forall|i: int| 0 <= i < j ==> (#[trigger] e[i]).0 != k,
    ensures
        replace_or_push(e, k, v) == e.update(j, (k, v)),
    decreases j,
{
    if j > 0 {
        let e1 = e.drop_first();
        assert forall|i: int| 0 <= i < j - 1 implies (#[trigger] e1[i]).0 != k by {
            assert(e1[i] == e[i + 1]);
        }
        assert(e[0].0 != k);
        lemma_replace_at(e1, k, v, j - 1);
        assert(seq![e[0]] + e1.update(j - 1, (k, v)) =~= e.update(j, (k, v)));
    } else {
        assert(seq![(k, v)] + e.drop_first() =~= e.update(0, (k, v)));
    }
}

proof fn lemma_replace_push(e: Seq<(Seq<GlyphId>, Seq<GlyphId>)>, k: Seq<GlyphId>, v: Seq<GlyphId>)
    requires
        forall|i: int| 0 <= i < e.len() ==> (#[trigger] e[i]).0 != k,
    ensures
        replace_or_push(e, k, v) == e.push((k, v)),
    decreases e.len(),
{
    if e.len() > 0 {
        let e1 = e.drop_first();
        assert forall|i: int| 0 <= i < e1.len() implies (#[trigger] e1[i]).0 != k by {
            assert(e1[i] == e[i + 1]);
        }
        assert(e[0].0 != k);
        lemma_replace_push(e1, k, v);
        assert(seq![e[0]] + e1.push((k, v)) =~= e.push((k, v)));
    } else {
        assert(seq![(k, v)] =~= e.push((k, v)));
    }
}

proof fn lemma_lookup_distinct(e: Seq<(Seq<GlyphId>, Seq<GlyphId>)>, k: Seq<GlyphId>)
    requires
        cache_keys_distinct(e),
    ensures
        (exists|i: int| 0 <= i < e.len() && (#[trigger] e[i]).0 == k) ==> (forall|i: int|
            0 <= i < e.len() && (#[trigger] e[i]).0 == k ==> cache_lookup(e, k) == Some(e[i].1)),
        (forall|i: int| 0 <= i < e.len() ==> (#[trigger] e[i]).0 != k) ==> cache_lookup(e, k) is None,
    decreases e.len(),
{
    if e.len() > 0 {
        let e1 = e.drop_first();
        assert(cache_keys_distinct(e1)) by {
            assert forall|i: int, j: int| 0 <= i < e1.len() && 0 <= j < e1.len() && i != j implies (#[trigger] e1[i]).0 != (#[trigger] e1[j]).0 by {
                assert(e1[i] == e[i + 1] && e1[j] == e[j + 1]);
            }
        }
        lemma_lookup_distinct(e1, k);
        assert forall|i: int| 0 <= i < e.len() && (#[trigger] e[i]).0 == k implies cache_lookup(e, k) == Some(e[i].1) by {
            if i > 0 {
                assert(e1[i - 1] == e[i]);
                assert(e[0].0 != e[i].0);
            }
        }
        if forall|i: int| 0 <= i < e.len() ==> (#[trigger] e[i]).0 != k {
            assert(e[0].0 != k);
            assert forall|i: int| 0 <= i < e1.len() implies (#[trigger] e1[i]).0 != k by {
                assert(e1[i] == e[i + 1]);
            }
        }
    }
}

/// Glyph substitution cache. It holds at most its size in entries (at least one); where
/// it is full, an insertion first drops the oldest entry.
pub struct GlyphSubstitutionCache {
    entries: Vec<(Vec<GlyphId>, Vec<GlyphId>)>,
    max_size: usize,
}

impl GlyphSubstitutionCache {
    /// The entries, oldest first.
    pub closed spec fn entries(&self) -> Seq<(Seq<GlyphId>, Seq<GlyphId>)> {
        self.entries@.map_values(|e: (Vec<GlyphId>, Vec<GlyphId>)| (e.0@, e.1@))
    }

    /// The size the cache was made with.
    pub closed spec fn max_size(&self) -> nat {
        self.max_size as nat
    }

    /// The cache's invariant: distinct keys, and no more entries than its size allows.
    pub open spec fn wf(&self) -> bool {
        &&& cache_keys_distinct(self.entries())
        &&& self.entries().len() <= (if self.max_size() > 0 { self.max_size() } else { 1 })
    }

    /// Create an empty cache of the given size.
    pub fn new(max_size: usize) -> (r: Self)
        ensures
            r.wf(),
            r.entries() == Seq::<(Seq<GlyphId>, Seq<GlyphId>)>::empty(),
            r.max_size() == max_size,
    {
        let r = GlyphSubstitutionCache { entries: Vec::new(), max_size };
        assert(r.entries() =~= Seq::<(Seq<GlyphId>, Seq<GlyphId>)>::empty());
        r
    }

    /// The position of the entry with key `input`, if any.
    fn find(&self, input: &[GlyphId]) -> (r: Option<usize>)
        ensures
            match r {
                Some(j) => j < self.entries().len() && self.entries()[j as int].0 == input@
                    && forall|i: int| 0 <= i < j ==> (#[trigger] self.entries()[i]).0 != input@,
                None => forall|i: int| 0 <= i < self.entries().len() ==> (#[trigger] self.entries()[i]).0 != input@,
            },
    {
        let mut j: usize = 0;
        while j < self.entries.len()
            invariant
                j <= self.entries.len(),
                forall|i: int| 0 <= i < j ==> (#[trigger] self.entries()[i]).0 != input@,
            decreases self.entries.len() - j,
        {
            if glyphs_eq(self.entries[j].0.as_slice(), input) {
                return Some(j);
            }
            j = j + 1;
        }
        None
    }

    /// The substitution stored for `input`, if any.
    pub fn get(&self, input: &[GlyphId]) -> (r: Option<Vec<GlyphId>>)
        requires
            self.wf(),
        ensures
            (match r {
                Some(v) => Some(v@),
                None => None,
            }) == cache_lookup(self.entries(), input@),
    {
        proof {
            lemma_lookup_distinct(self.entries(), input@);
        }
        match self.find(input) {
            Some(j) => Some(copy_glyphs(self.entries[j].1.as_slice())),
            None => None,
        }
    }

    /// Store a substitution. Where the cache is full, its oldest entry is dropped first.
    pub fn insert(&mut self, input: Vec<GlyphId>, output: Vec<GlyphId>)
        requires
            old(self).wf(),
        ensures
            final(self).wf(),
            final(self).max_size() == old(self).max_size(),
            final(self).entries() == cache_insert(old(self).entries(), old(self).max_size(), input@, output@),
    {
        let ghost k = input@;
        let ghost v = output@;
        if self.entries.len() >= self.max_size && self.entries.len() > 0 {
            let ghost before = self.entries();
            self.entries.remove(0);
            assert(self.entries() =~= before.drop_first());
        }
        let ghost e1 = self.entries();
        assert(cache_keys_distinct(e1));
        match self.find(input.as_slice()) {
            Some(j) => {
                proof {
                    lemma_replace_at(e1, k, v, j as int);
                }
                self.entries.set(j, (input, output));
                assert(self.entries() =~= e1.update(j as int, (k, v)));
                assert(cache_keys_distinct(self.entries())) by {
                    let e2 = self.entries();
                    assert forall|a: int, b: int| 0 <= a < e2.len() && 0 <= b < e2.len() && a != b implies (#[trigger] e2[a]).0 != (#[trigger] e2[b]).0 by {
                        if a != j && b != j {
                            assert(e2[a] == e1[a] && e2[b] == e1[b]);
                        } else if a == j {
                            assert(e2[b] == e1[b]);
                        } else {
                            assert(e2[a] == e1[a]);
                        }
                    }
                }
            },
            None => {
                proof {
                    lemma_replace_push(e1, k, v);
                }
                self.entries.push((input, output));
                assert(self.entries() =~= e1.push((k, v)));
                assert(cache_keys_distinct(self.entries())) by {
                    let e2 = self.entries();
                    assert forall|a: int, b: int| 0 <= a < e2.len() && 0 <= b < e2.len() && a != b implies (#[trigger] e2[a]).0 != (#[trigger] e2[b]).0 by {
                        if a < e1.len() && b < e1.len() {
                            assert(e2[a] == e1[a] && e2[b] == e1[b]);
                        } else if a < e1.len() {
                            assert(e2[a] == e1[a]);
                        } else {
                            assert(e2[b] == e1[b]);
                        }
                    }
                }
            },
        }
    }

    /// Remove every entry.
    pub fn clear(&mut self)
        ensures
            final(self).wf(),
            final(self).max_size() == old(self).max_size(),
            final(self).entries() == Seq::<(Seq<GlyphId>, Seq<GlyphId>)>::empty(),
    {
        self.entries.clear();
        assert(self.entries() =~= Seq::<(Seq<GlyphId>, Seq<GlyphId>)>::empty());
    }
}

/// A cache gives back what was last stored under a key.
pub proof fn law_cache_read_after_write(
    e: Seq<(Seq<GlyphId>, Seq<GlyphId>)>,
    max_size: nat,
    k: Seq<GlyphId>,
    v: Seq<GlyphId>,
)
    requires
        cache_keys_distinct(e),
    ensures
        cache_lookup(cache_insert(e, max_size, k, v), k) == Some(v),
{
    let e1 = if e.len() >= max_size && e.len() > 0 { e.drop_first() } else { e };
    assert(cache_keys_distinct(e1)) by {
        assert forall|a: int, b: int| 0 <= a < e1.len() && 0 <= b < e1.len() && a != b implies (#[trigger] e1[a]).0 != (#[trigger] e1[b]).0 by {
            if e.len() >= max_size && e.len() > 0 {
                assert(e1[a] == e[a + 1] && e1[b] == e[b + 1]);
            }
        }
    }
    if exists|i: int| 0 <= i < e1.len() && (#[trigger] e1[i]).0 == k {
        let j = choose|i: int| 0 <= i < e1.len() && (#[trigger] e1[i]).0 == k;
        assert forall|i: int| 0 <= i < j implies (#[trigger] e1[i]).0 != k by {
            assert(e1[i].0 != e1[j].0);
        }
        lemma_replace_at(e1, k, v, j);
        let e2 = e1.update(j, (k, v));
        assert(cache_keys_distinct(e2)) by {
            assert forall|a: int, b: int| 0 <= a < e2.len() && 0 <= b < e2.len() && a != b implies (#[trigger] e2[a]).0 != (#[trigger] e2[b]).0 by {
                if a != j && b != j {
                } else if a == j {
                    assert(e2[b] == e1[b]);
                } else {
                    assert(e2[a] == e1[a]);
                }
            }
        }
        lemma_lookup_distinct(e2, k);
        assert(e2[j].0 == k);
    } else {
        lemma_replace_push(e1, k, v);
        let e2 = e1.push((k, v));
        assert(cache_keys_distinct(e2)) by {
            assert forall|a: int, b: int| 0 <= a < e2.len() && 0 <= b < e2.len() && a != b implies (#[trigger] e2[a]).0 != (#[trigger] e2[b]).0 by {
                if a < e1.len() && b < e1.len() {
                    assert(e2[a] == e1[a] && e2[b] == e1[b]);
                } else if a < e1.len() {
                    assert(e2[a] == e1[a]);
                } else {
                    assert(e2[b] == e1[b]);
                }
            }
        }
        lemma_lookup_distinct(e2, k);
        assert(e2[e1.len() as int].0 == k);
    }
}

/// Every glyph of the input is accounted for by exactly one output glyph of the ligature pass.
pub proof fn law_ligatures_cover_input(t: Seq<(Seq<GlyphId>, GlyphId)>, s: Seq<GlyphId>)
    ensures
        span_total(ligature_pass(t, s)) == s.len(),
{
    lemma_pass_total(t, s);
}

/// Contextual rules never change the number of glyphs.
pub proof fn law_contextual_rules_keep_length(g: Seq<GlyphId>, rules: Seq<(Seq<GlyphId>, Seq<GlyphId>)>)
    ensures
        rules_apply(g, rules).len() == g.len(),
    decreases rules.len(),
{
    if rules.len() > 0 {
        lemma_rule_from_len(g, rules[0].0, rules[0].1, 0);
        law_contextual_rules_keep_length(rule_from(g, rules[0].0, rules[0].1, 0), rules.drop_first());
    }
}

proof fn lemma_rule_from_len(g: Seq<GlyphId>, input: Seq<GlyphId>, subst: Seq<GlyphId>, i: int)
    ensures
        rule_from(g, input, subst, i).len() == g.len(),
    decreases g.len() - i,
{
    if 0 <= i < g.len() {
        let g2 = if matches_at(g, input, i) { substitute_at(g, subst, i) } else { g };
        lemma_rule_from_len(g2, input, subst, i + 1);
    }
}

/// Unicode normalization form.
#[derive(Debug, Clone, Copy, PartialEq, Eq, Structural)]
pub enum NormalizationForm {
    NFC,
    NFD,
    NFKC,
    NFKD,
}

/// Unicode normalization for text shaping, over the characters the tables of
/// `normalize` cover (see that module); any other character is left as it is.
pub struct UnicodeNormalizer;

impl UnicodeNormalizer {
    /// Normalize text to NFC form: canonical decomposition, canonical ordering, then
    /// canonical composition.
    pub fn nfc(text: &str) -> (r: String)
        ensures
            r@ == spec_nfc(text@),
    {
        nfc_string(text)
    }

    /// Normalize text to NFD form: canonical decomposition, then canonical ordering.
    pub fn nfd(text: &str) -> (r: String)
        ensures
            r@ == spec_nfd(text@),
    {
        nfd_string(text)
    }

    /// Normalize text to NFKC form: compatibility decomposition, canonical ordering,
    /// then canonical composition.
    pub fn nfkc(text: &str) -> (r: String)
        ensures
            r@ == spec_nfkc(text@),
    {
        nfkc_string(text)
    }

    /// Normalize text to NFKD form: compatibility decomposition, then canonical ordering.
    pub fn nfkd(text: &str) -> (r: String)
        ensures
            r@ == spec_nfkd(text@),
    {
        nfkd_string(text)
    }

    /// Whether text is in NFC form: whether it is its own NFC.
    pub fn is_nfc(text: &str) -> (r: bool)
        ensures
            r == (spec_nfc(text@) == text@),
    {
        is_nfc_string(text)
    }
}

} // verus!
