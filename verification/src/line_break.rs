//! The hyphenation dictionary of the line breaker: where each word may be hyphenated.
use vstd::prelude::*;
use crate::string_map::StringMap;

verus! {

/// A line breaker's hyphenation dictionary, by word.
pub struct LineBreaker {
    hyphenation_dict: StringMap<Vec<usize>>,
}

impl View for LineBreaker {
    type V = Map<Seq<char>, Seq<usize>>;

    closed spec fn view(&self) -> Map<Seq<char>, Seq<usize>> {
        self.hyphenation_dict.map().map_values(|v: Vec<usize>| v@)
    }
}

impl LineBreaker {
    #[verifier::type_invariant]
    spec fn dict_wf(self) -> bool {
        self.hyphenation_dict.wf()
    }

    /// A breaker with no hyphenation patterns.
    pub fn new() -> (r: Self)
        ensures
            r@ == Map::<Seq<char>, Seq<usize>>::empty(),
    {
        let r = LineBreaker { hyphenation_dict: StringMap::new() };
        assert(r@ =~= Map::<Seq<char>, Seq<usize>>::empty());
        r
    }

    /// Add a word's hyphenation points; they replace any the word had.
    pub fn add_hyphenation(&mut self, word: String, positions: Vec<usize>)
        ensures
            final(self)@ == old(self)@.insert(word@, positions@),
    {
        proof {
            use_type_invariant(&*self);
        }
        let ghost k = word@;
        let ghost p = positions@;
        let mut dict = StringMap::new();
        std::mem::swap(&mut dict, &mut self.hyphenation_dict);
        dict.insert(word, positions);
        self.hyphenation_dict = dict;
        assert(self@ =~= old(self)@.insert(k, p));
    }

    /// A word's hyphenation points, if it has any.
    pub fn hyphenation(&self, word: &str) -> (r: Option<&Vec<usize>>)
        ensures
            self@.contains_key(word@) ==> (r matches Some(v) && v@ == self@[word@]),
            !self@.contains_key(word@) ==> r is None,
    {
        proof {
            use_type_invariant(self);
        }
        self.hyphenation_dict.get(word)
    }
}

} // verus!
