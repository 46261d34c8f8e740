use vstd::prelude::*;

verus! {

/// The map that a list of key/value pairs denotes when a later pair
/// replaces an earlier one with the same key.
pub open spec fn pairs_to_map(p: Seq<(Seq<char>, Seq<char>)>) -> Map<Seq<char>, Seq<char>>
    decreases p.len(),
{
    if p.len() == 0 {
        Map::empty()
    } else {
        pairs_to_map(p.drop_last()).insert(p.last().0, p.last().1)
    }
}

/// `Some(value)` when `m` holds `k`, else `None`.
pub open spec fn lookup(m: Map<Seq<char>, Seq<char>>, k: Seq<char>) -> Option<Seq<char>> {
    if m.contains_key(k) {
        Some(m[k])
    } else {
        None
    }
}

/// The value of `k` in `m`, or `default` when `m` has no such key.
pub open spec fn lookup_or(m: Map<Seq<char>, Seq<char>>, k: Seq<char>, default: Seq<char>) -> Seq<char> {
    if m.contains_key(k) {
        m[k]
    } else {
        default
    }
}

pub open spec fn opt_view(o: Option<String>) -> Option<Seq<char>> {
    match o {
        Some(s) => Some(s@),
        None => None,
    }
}

proof fn lemma_last_occurrence(p: Seq<(Seq<char>, Seq<char>)>, k: Seq<char>, i: int)
    requires
        0 <= i < p.len(),
        p[i].0 == k,
        forall|j: int| i < j < p.len() ==> p[j].0 != k,
    ensures
        pairs_to_map(p).contains_key(k),
        pairs_to_map(p)[k] == p[i].1,
    decreases p.len(),
{
    if i < p.len() - 1 {
        lemma_last_occurrence(p.drop_last(), k, i);
    }
}

proof fn lemma_no_occurrence(p: Seq<(Seq<char>, Seq<char>)>, k: Seq<char>)
    requires
        forall|j: int| 0 <= j < p.len() ==> p[j].0 != k,
    ensures
        !pairs_to_map(p).contains_key(k),
    decreases p.len(),
{
    if p.len() > 0 {
        lemma_no_occurrence(p.drop_last(), k);
    }
}

/// Query parameters of a link: names mapped to values, where a name that
/// occurs again replaces its earlier value.
#[derive(Debug)]
pub struct ParamMap {
    entries: Vec<(String, String)>,
}

impl View for ParamMap {
    type V = Map<Seq<char>, Seq<char>>;

    closed spec fn view(&self) -> Map<Seq<char>, Seq<char>> {
        pairs_to_map(self.entries.deep_view())
    }
}

impl ParamMap {
    pub fn new() -> (r: ParamMap)
        ensures
            r@ == Map::<Seq<char>, Seq<char>>::empty(),
    {
        ParamMap { entries: Vec::new() }
    }

    /// Builds the map of a list of pairs, the last pair of a name winning.
    pub fn from_pairs(pairs: Vec<(String, String)>) -> (r: ParamMap)
        ensures
            r@ == pairs_to_map(pairs.deep_view()),
    {
        ParamMap { entries: pairs }
    }

    /// Sets `key` to `value`, replacing any earlier value of `key`.
    pub fn insert(&mut self, key: String, value: String)
        ensures
            final(self)@ == old(self)@.insert(key@, value@),
    {
        let ghost before = self.entries.deep_view();
        self.entries.push((key, value));
        assert(self.entries.deep_view().drop_last() =~= before);
    }

    /// The value of `key`, if the map holds it.
    pub fn get(&self, key: &str) -> (r: Option<String>)
        ensures
            opt_view(r) == lookup(self@, key@),
    {
        let k = String::from_str(key);
        let ghost p = self.entries.deep_view();
        let mut i: usize = self.entries.len();
        while i > 0
            invariant
                i <= self.entries.len(),
                p == self.entries.deep_view(),
                k@ == key@,
                forall|j: int| i <= j < p.len() ==> p[j].0 != key@,
            decreases i,
        {
            i = i - 1;
            if self.entries[i].0 == k {
                proof {
                    lemma_last_occurrence(p, key@, i as int);
                }
                return Some(self.entries[i].1.clone());
            }
        }
        proof {
            lemma_no_occurrence(p, key@);
        }
        None
    }

    /// The value of `key`, or `default` when the map does not hold it.
    pub fn get_or(&self, key: &str, default: &str) -> (r: String)
        ensures
            r@ == lookup_or(self@, key@, default@),
    {
        match self.get(key) {
            Some(v) => v,
            None => String::from_str(default),
        }
    }
}

} // verus!
