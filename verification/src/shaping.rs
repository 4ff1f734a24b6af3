//! The extended shaper's feature list and its cache of shaped runs.
use vstd::prelude::*;
use crate::features::HarfbuzzFeature;
use crate::string_map::StringMap;
use crate::strs::to_owned_string;
use crate::text::CacheStats;

verus! {

/// The number of shaped runs the cache holds by default.
pub const MAX_CACHE_SIZE: usize = 10000;

/// A feature list without any occurrence of `f`.
pub open spec fn without(s: Seq<HarfbuzzFeature>, f: HarfbuzzFeature) -> Seq<HarfbuzzFeature>
    decreases s.len(),
{
    if s.len() == 0 {
        s
    } else if s.last() == f {
        without(s.drop_last(), f)
    } else {
        without(s.drop_last(), f).push(s.last())
    }
}

/// The sum of a sequence of counts.
pub open spec fn count_sum(s: Seq<usize>) -> int
    decreases s.len(),
{
    if s.len() == 0 {
        0
    } else {
        count_sum(s.drop_last()) + s.last()
    }
}

/// Changing one count changes the sum by the difference.
proof fn lemma_count_sum_update(s: Seq<usize>, i: int, v: usize)
    requires
        0 <= i < s.len(),
    ensures
        count_sum(s.update(i, v)) == count_sum(s) - s[i] + v,
    decreases s.len(),
{
    let t = s.update(i, v);
    if i < s.len() - 1 {
        lemma_count_sum_update(s.drop_last(), i, v);
        assert(t.drop_last() =~= s.drop_last().update(i, v));
    } else {
        assert(t.drop_last() =~= s.drop_last());
    }
}

/// The shaper's features and its cache of shaped runs by key, with the number of
/// times each was used; `R` is the shaping result.
pub struct ExtendedHarfbuzzShaper<R> {
    results: StringMap<R>,
    access_counts: StringMap<usize>,
    cache_order: Vec<String>,
    features: Vec<HarfbuzzFeature>,
    max_cache_size: usize,
}

impl<R> ExtendedHarfbuzzShaper<R> {
    /// The cached results by key.
    pub closed spec fn cached_results(&self) -> Map<Seq<char>, R> {
        self.results.map()
    }

    /// How many times each cached result was stored or used.
    pub closed spec fn counts(&self) -> Map<Seq<char>, usize> {
        self.access_counts.map()
    }

    /// The keys in the order they were added, oldest first; a key added twice is listed twice.
    pub closed spec fn order(&self) -> Seq<Seq<char>> {
        self.cache_order@.map_values(|k: String| k@)
    }

    /// The enabled features.
    pub closed spec fn feature_list(&self) -> Seq<HarfbuzzFeature> {
        self.features@
    }

    /// The cache size.
    pub closed spec fn max_size(&self) -> usize {
        self.max_cache_size
    }

    /// The sum of the use counts of the cached results.
    pub closed spec fn access_total(&self) -> int {
        count_sum(self.access_counts.key_list().map_values(|k: Seq<char>| self.access_counts.map()[k]))
    }

    /// The shaper's invariant: results and counts are kept for the same keys.
    pub closed spec fn wf(&self) -> bool {
        &&& self.results.wf()
        &&& self.access_counts.wf()
        &&& self.results.map().dom() == self.access_counts.map().dom()
    }

    /// A shaper with kerning, ligatures, contextual ligatures and contextual alternates
    /// enabled, and an empty cache of the default size.
    pub fn new() -> (r: Self)
        ensures
            r.wf(),
            r.feature_list() == seq![HarfbuzzFeature::Kern, HarfbuzzFeature::Liga, HarfbuzzFeature::Clig, HarfbuzzFeature::Calt],
            r.cached_results() == Map::<Seq<char>, R>::empty(),
            r.order() == Seq::<Seq<char>>::empty(),
            r.max_size() == MAX_CACHE_SIZE,
            r.access_total() == 0,
    {
        let r = ExtendedHarfbuzzShaper {
            results: StringMap::new(),
            access_counts: StringMap::new(),
            cache_order: Vec::new(),
            features: vec![HarfbuzzFeature::Kern, HarfbuzzFeature::Liga, HarfbuzzFeature::Clig, HarfbuzzFeature::Calt],
            max_cache_size: MAX_CACHE_SIZE,
        };
        assert(r.order() =~= Seq::<Seq<char>>::empty());
        assert(r.results.map().dom() =~= r.access_counts.map().dom());
        r
    }

    /// The enabled features.
    pub fn features(&self) -> (r: &Vec<HarfbuzzFeature>)
        ensures
            r@ == self.feature_list(),
    {
        &self.features
    }

    /// Enable a feature; one already enabled stays where it is.
    pub fn enable_feature(&mut self, feature: HarfbuzzFeature)
        ensures
            final(self).feature_list() == (if old(self).feature_list().contains(feature) {
                old(self).feature_list()
            } else {
                old(self).feature_list().push(feature)
            }),
            final(self).cached_results() == old(self).cached_results(),
            final(self).counts() == old(self).counts(),
            final(self).order() == old(self).order(),
            final(self).max_size() == old(self).max_size(),
            final(self).wf() == old(self).wf(),
    {
        let mut i: usize = 0;
        while i < self.features.len()
            invariant
                i <= self.features.len(),
                forall|j: int| 0 <= j < i ==> self.features@[j] != feature,
            decreases self.features.len() - i,
        {
            if self.features[i] == feature {
                return;
            }
            i = i + 1;
        }
        self.features.push(feature);
    }

    /// Disable a feature: every occurrence of it leaves the list.
    pub fn disable_feature(&mut self, feature: HarfbuzzFeature)
        ensures
            final(self).feature_list() == without(old(self).feature_list(), feature),
            !final(self).feature_list().contains(feature),
            final(self).cached_results() == old(self).cached_results(),
            final(self).counts() == old(self).counts(),
            final(self).order() == old(self).order(),
            final(self).max_size() == old(self).max_size(),
            final(self).wf() == old(self).wf(),
    {
        let ghost s = self.features@;
        let mut kept: Vec<HarfbuzzFeature> = Vec::new();
        let mut i: usize = 0;
        while i < self.features.len()
            invariant
                s == self.features@,
                i <= s.len(),
                kept@ == without(s.take(i as int), feature),
            decreases s.len() - i,
        {
            assert(s.take(i + 1).drop_last() =~= s.take(i as int));
            if self.features[i] != feature {
                kept.push(self.features[i]);
            }
            i = i + 1;
        }
        assert(s.take(s.len() as int) =~= s);
        proof {
            lemma_without_excludes(s, feature);
        }
        self.features = kept;
    }

    /// Record a use of the result cached under `key`, if there is one.
    pub fn record_hit(&mut self, key: &str) -> (r: bool)
        requires
            old(self).wf(),
            old(self).counts().contains_key(key@) ==> old(self).counts()[key@] < usize::MAX,
        ensures
            final(self).wf(),
            r == old(self).cached_results().contains_key(key@),
            r ==> final(self).counts() == old(self).counts().insert(key@, (old(self).counts()[key@] + 1) as usize),
            !r ==> final(self).counts() == old(self).counts(),
            r ==> final(self).access_total() == old(self).access_total() + 1,
            !r ==> final(self).access_total() == old(self).access_total(),
            final(self).cached_results() == old(self).cached_results(),
            final(self).order() == old(self).order(),
            final(self).feature_list() == old(self).feature_list(),
            final(self).max_size() == old(self).max_size(),
    {
        let count = match self.access_counts.get(key) {
            Some(c) => *c,
            None => return false,
        };
        let ghost kl = self.access_counts.key_list();
        let ghost m0 = self.access_counts.map();
        let ghost s0 = kl.map_values(|k: Seq<char>| m0[k]);
        proof {
            self.access_counts.lemma_keys();
        }
        self.access_counts.insert(to_owned_string(key), count + 1);
        proof {
            let m1 = self.access_counts.map();
            let s1 = kl.map_values(|k: Seq<char>| m1[k]);
            let i = kl.index_of(key@);
            assert(kl.contains(key@));
            assert(kl[i] == key@);
            assert forall|j: int| 0 <= j < kl.len() implies #[trigger] s1[j] == s0.update(i, (count + 1) as usize)[j] by {
                if j != i {
                    assert(kl[j] != kl[i]);
                }
            }
            assert(s1 =~= s0.update(i, (count + 1) as usize));
            lemma_count_sum_update(s0, i, (count + 1) as usize);
        }
        assert(self.results.map().dom() =~= self.access_counts.map().dom());
        true
    }

    /// The number of uses recorded for `key`, if a result is cached under it.
    pub fn access_count(&self, key: &str) -> (r: Option<usize>)
        requires
            self.wf(),
        ensures
            r == (if self.counts().contains_key(key@) { Some(self.counts()[key@]) } else { None::<usize> }),
    {
        match self.access_counts.get(key) {
            Some(c) => Some(*c),
            None => None,
        }
    }

    /// The result cached under `key`, if any.
    pub fn cached(&self, key: &str) -> (r: Option<&R>)
        requires
            self.wf(),
        ensures
            self.cached_results().contains_key(key@) ==> r == Some(&self.cached_results()[key@]),
            !self.cached_results().contains_key(key@) ==> r is None,
    {
        self.results.get(key)
    }

    /// Look a run up before shaping it: where a result is cached under `key`, count
    /// the use and answer `true` (the caller then takes `cached(key)`); else cache
    /// `fresh`, the run's newly shaped result, as `add_to_cache` does, and answer `false`.
    pub fn hit_or_add(&mut self, key: String, fresh: R) -> (r: bool)
        requires
            old(self).wf(),
            old(self).counts().contains_key(key@) ==> old(self).counts()[key@] < usize::MAX,
        ensures
            final(self).wf(),
            r == old(self).cached_results().contains_key(key@),
            r ==> final(self).counts() == old(self).counts().insert(key@, (old(self).counts()[key@] + 1) as usize)
                && final(self).cached_results() == old(self).cached_results()
                && final(self).order() == old(self).order(),
            !r ==> final(self).cached_results().contains_key(key@) && final(self).cached_results()[key@] == fresh
                && final(self).counts()[key@] == 1,
            r ==> final(self).access_total() == old(self).access_total() + 1,
            !r && !(old(self).cached_results().len() >= old(self).max_size() && old(self).order().len() > 0)
                ==> final(self).access_total() == old(self).access_total() + 1,
            final(self).feature_list() == old(self).feature_list(),
            final(self).max_size() == old(self).max_size(),
    {
        if self.record_hit(key.as_str()) {
            true
        } else {
            self.add_to_cache(key, fresh);
            false
        }
    }

    /// Cache a result under `key`, with one use. Where the cache holds its size in
    /// results, the key added longest ago (if any is listed) is dropped first.
    pub fn add_to_cache(&mut self, key: String, result: R)
        requires
            old(self).wf(),
        ensures
            final(self).wf(),
            final(self).cached_results().contains_key(key@),
            final(self).cached_results()[key@] == result,
            final(self).counts()[key@] == 1,
            !old(self).cached_results().contains_key(key@)
                && !(old(self).cached_results().len() >= old(self).max_size() && old(self).order().len() > 0)
                ==> final(self).access_total() == old(self).access_total() + 1,
            ({
                let evict = old(self).cached_results().len() >= old(self).max_size() && old(self).order().len() > 0;
                let kept = if evict { old(self).order().drop_first() } else { old(self).order() };
                let gone = if evict { old(self).cached_results().remove(old(self).order()[0]) } else { old(self).cached_results() };
                &&& final(self).order() == kept.push(key@)
                &&& final(self).cached_results() == gone.insert(key@, result)
            }),
            final(self).feature_list() == old(self).feature_list(),
            final(self).max_size() == old(self).max_size(),
    {
        let ghost old_order = self.order();
        proof {
            self.results.lemma_keys();
        }
        if self.results.len() >= self.max_cache_size && self.cache_order.len() > 0 {
            let oldest = self.cache_order.remove(0);
            assert(self.order() =~= old_order.drop_first());
            self.results.remove(oldest.as_str());
            self.access_counts.remove(oldest.as_str());
        }
        let ghost mid_order = self.order();
        let ghost kl = self.access_counts.key_list();
        let ghost m0 = self.access_counts.map();
        let ghost mid_total = self.access_total();
        proof {
            self.access_counts.lemma_keys();
        }
        let key_copy = to_owned_string(key.as_str());
        self.access_counts.insert(key_copy, 1);
        proof {
            if !m0.contains_key(key@) {
                let m1 = self.access_counts.map();
                let s0 = kl.map_values(|k: Seq<char>| m0[k]);
                let s1 = self.access_counts.key_list().map_values(|k: Seq<char>| m1[k]);
                assert(self.access_counts.key_list() == kl.push(key@));
                assert forall|j: int| 0 <= j < kl.len() implies #[trigger] s1[j] == s0.push(1usize)[j] by {
                    assert(kl.contains(kl[j]));
                }
                assert(s1 =~= s0.push(1usize));
                assert(s0.push(1usize).drop_last() =~= s0);
                assert(self.access_total() == mid_total + 1);
            }
        }
        let order_copy = to_owned_string(key.as_str());
        self.results.insert(key, result);
        self.cache_order.push(order_copy);
        assert(self.order() =~= mid_order.push(order_copy@));
        assert(self.results.map().dom() =~= self.access_counts.map().dom());
    }

    /// Empty the cache.
    pub fn clear_cache(&mut self)
        requires
            old(self).wf(),
        ensures
            final(self).wf(),
            final(self).cached_results() == Map::<Seq<char>, R>::empty(),
            final(self).counts() == Map::<Seq<char>, usize>::empty(),
            final(self).order() == Seq::<Seq<char>>::empty(),
            final(self).access_total() == 0,
            final(self).feature_list() == old(self).feature_list(),
            final(self).max_size() == old(self).max_size(),
    {
        self.results.clear();
        self.access_counts.clear();
        self.cache_order = Vec::new();
        assert(self.order() =~= Seq::<Seq<char>>::empty());
        assert(self.results.map().dom() =~= self.access_counts.map().dom());
    }

    /// Cache statistics: the number of cached results, the sum of their use counts,
    /// and the cache size.
    pub fn cache_stats(&self) -> (r: CacheStats)
        requires
            self.wf(),
            self.access_total() <= usize::MAX,
        ensures
            r.entries == self.cached_results().len(),
            r.total_accesses == self.access_total(),
            r.max_size == self.max_size(),
    {
        proof {
            self.results.lemma_keys();
            self.access_counts.lemma_keys();
            lemma_count_sum_bounds(self.access_counts.key_list().map_values(|k: Seq<char>| self.access_counts.map()[k]));
        }
        let ghost cs = self.access_counts.key_list().map_values(|k: Seq<char>| self.access_counts.map()[k]);
        let n = self.access_counts.len();
        let mut total: usize = 0;
        let mut i: usize = 0;
        while i < n
            invariant
                self.wf(),
                self.access_total() <= usize::MAX,
                cs == self.access_counts.key_list().map_values(|k: Seq<char>| self.access_counts.map()[k]),
                n == cs.len(),
                i <= n,
                total == count_sum(cs.take(i as int)),
                forall|j: int| 0 <= j <= cs.len() ==> #[trigger] count_sum(cs.take(j)) <= count_sum(cs),
            decreases n - i,
        {
            let c = *self.access_counts.value_at(i);
            assert(cs.take(i + 1).drop_last() =~= cs.take(i as int));
            assert(cs[i as int] == c);
            assert(count_sum(cs.take(i + 1)) <= count_sum(cs));
            total = total + c;
            i = i + 1;
        }
        assert(cs.take(n as int) =~= cs);
        CacheStats {
            entries: self.results.len(),
            total_accesses: total,
            max_size: self.max_cache_size,
        }
    }
}

proof fn lemma_without_excludes(s: Seq<HarfbuzzFeature>, f: HarfbuzzFeature)
    ensures
        !without(s, f).contains(f),
    decreases s.len(),
{
    if s.len() > 0 {
        lemma_without_excludes(s.drop_last(), f);
        if s.last() != f {
            let w = without(s.drop_last(), f);
            assert forall|i: int| 0 <= i < w.push(s.last()).len() implies w.push(s.last())[i] != f by {
                if i < w.len() {
                    assert(w.push(s.last())[i] == w[i]);
                }
            }
        }
    }
}

proof fn lemma_count_sum_bounds(s: Seq<usize>)
    ensures
        forall|j: int| 0 <= j <= s.len() ==> #[trigger] count_sum(s.take(j)) <= count_sum(s),
        count_sum(s) >= 0,
    decreases s.len(),
{
    if s.len() > 0 {
        let t = s.drop_last();
        lemma_count_sum_bounds(t);
        assert forall|j: int| 0 <= j <= s.len() implies #[trigger] count_sum(s.take(j)) <= count_sum(s) by {
            if j < s.len() {
                assert(s.take(j) =~= t.take(j));
            } else {
                assert(s.take(j) =~= s);
            }
        }
    }
}

} // verus!
