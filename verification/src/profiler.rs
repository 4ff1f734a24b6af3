//! Timings of the shaping stages, by operation name. A timing is a duration in
//! nanoseconds; the caller reads the clock.
use vstd::prelude::*;
use crate::string_map::StringMap;
use crate::strs::to_owned_string;

verus! {

/// The sum of some timings.
pub open spec fn total_of(ts: Seq<u128>) -> int
    decreases ts.len(),
{
    if ts.len() == 0 { 0 } else { total_of(ts.drop_last()) + ts.last() }
}

/// The longest total a duration holds: `u64::MAX` seconds and just under one more.
pub open spec fn max_total_nanos() -> int {
    (u64::MAX as int + 1) * 1_000_000_000 - 1
}

/// Timings recorded by operation.
pub struct ShapingProfiler {
    timings: StringMap<Vec<u128>>,
}

impl View for ShapingProfiler {
    type V = Map<Seq<char>, Seq<u128>>;

    closed spec fn view(&self) -> Map<Seq<char>, Seq<u128>> {
        self.timings.map().map_values(|v: Vec<u128>| v@)
    }
}

impl ShapingProfiler {
    #[verifier::type_invariant]
    spec fn timings_wf(self) -> bool {
        self.timings.wf()
    }

    /// No timings yet.
    pub fn new() -> (r: Self)
        ensures
            r@ == Map::<Seq<char>, Seq<u128>>::empty(),
    {
        let r = ShapingProfiler { timings: StringMap::new() };
        assert(r@ =~= Map::<Seq<char>, Seq<u128>>::empty());
        r
    }

    /// Record a timing of an operation, after those recorded before.
    pub fn record(&mut self, operation: &str, nanos: u128)
        ensures
            final(self)@ == old(self)@.insert(
                operation@,
                (if old(self)@.contains_key(operation@) { old(self)@[operation@] } else { Seq::empty() }).push(nanos),
            ),
    {
        proof {
            use_type_invariant(&*self);
        }
        let mut list: Vec<u128> = match self.timings.get(operation) {
            Some(v) => v.clone(),
            None => Vec::new(),
        };
        list.push(nanos);
        let ghost new_list = list@;
        let mut timings = StringMap::new();
        std::mem::swap(&mut timings, &mut self.timings);
        timings.insert(to_owned_string(operation), list);
        self.timings = timings;
        assert(self@ =~= old(self)@.insert(operation@, new_list));
    }

    /// The mean timing of an operation, rounded down to a nanosecond, if any was
    /// recorded. The durations must add up to one that a duration holds.
    pub fn average(&self, operation: &str) -> (r: Option<u128>)
        requires
            self@.contains_key(operation@) ==> total_of(self@[operation@]) <= max_total_nanos()
                && self@[operation@].len() <= u32::MAX,
        ensures
            r == (if self@.contains_key(operation@) && self@[operation@].len() > 0 {
                Some((total_of(self@[operation@]) / (self@[operation@].len() as int)) as u128)
            } else {
                None::<u128>
            }),
    {
        proof {
            use_type_invariant(self);
        }
        match self.timings.get(operation) {
            None => None,
            Some(ts) => {
                let ghost s = ts@;
                assert(s == self@[operation@]);
                if ts.len() == 0 {
                    return None;
                }
                let mut total: u128 = 0;
                let mut i: usize = 0;
                while i < ts.len()
                    invariant
                        s == ts@,
                        i <= s.len(),
                        total == total_of(s.take(i as int)),
                        total_of(s) <= max_total_nanos(),
                    decreases ts.len() - i,
                {
                    proof {
                        assert(s.take(i + 1).drop_last() =~= s.take(i as int));
                        lemma_total_of_prefix(s, i + 1);
                    }
                    total = total + ts[i];
                    i = i + 1;
                }
                assert(s.take(i as int) =~= s);
                Some(total / (ts.len() as u128))
            },
        }
    }
}

/// A prefix of some timings adds up to no more than all of them.
proof fn lemma_total_of_prefix(s: Seq<u128>, k: int)
    requires
        0 <= k <= s.len(),
    ensures
        total_of(s.take(k)) <= total_of(s),
    decreases s.len() - k,
{
    if k < s.len() {
        lemma_total_of_prefix(s, k + 1);
        assert(s.take(k + 1).drop_last() =~= s.take(k));
        assert(total_of(s.take(k + 1)) == total_of(s.take(k)) + s.take(k + 1).last());
    } else {
        assert(s.take(k) =~= s);
    }
}

} // verus!
