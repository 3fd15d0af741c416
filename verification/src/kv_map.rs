//! A map from string keys to string values, held as a vector of pairs with
//! no key twice; its view is a mathematical map.
use vstd::prelude::*;
use crate::text::str_eq;

verus! {

/// A key and a value taken by their characters.
pub open spec fn pair_view(p: (String, String)) -> (Seq<char>, Seq<char>) {
    (p.0@, p.1@)
}

/// Pairs taken by their characters.
pub open spec fn pairs_view(s: Seq<(String, String)>) -> Seq<(Seq<char>, Seq<char>)> {
    s.map_values(|p: (String, String)| pair_view(p))
}

/// The map that inserting the pairs one after the other, in order, gives: of
/// two pairs with the same key the later one wins.
pub open spec fn pairs_map(s: Seq<(Seq<char>, Seq<char>)>) -> Map<Seq<char>, Seq<char>>
    decreases s.len(),
{
    if s.len() == 0 {
        Map::empty()
    } else {
        pairs_map(s.drop_last()).insert(s.last().0, s.last().1)
    }
}

/// No key occurs twice.
pub open spec fn keys_unique(s: Seq<(Seq<char>, Seq<char>)>) -> bool {
    forall|i: int, j: int| 0 <= i < j < s.len() ==> #[trigger] s[i].0 != #[trigger] s[j].0
}

/// With distinct keys, the map holds exactly the pairs, and has as many keys as
/// there are pairs.
pub proof fn lemma_pairs_map_unique(s: Seq<(Seq<char>, Seq<char>)>)
    requires
        keys_unique(s),
    ensures
        forall|i: int|
            0 <= i < s.len() ==> #[trigger] pairs_map(s).contains_key(s[i].0) && pairs_map(s)[s[i].0]
                == s[i].1,
        forall|k: Seq<char>|
            #[trigger] pairs_map(s).contains_key(k) ==> exists|i: int| 0 <= i < s.len() && s[i].0 == k,
        pairs_map(s).dom().finite(),
        pairs_map(s).len() == s.len(),
    decreases s.len(),
{
    if s.len() > 0 {
        let t = s.drop_last();
        assert forall|i: int, j: int| 0 <= i < j < t.len() implies #[trigger] t[i].0 != #[trigger] t[j].0 by {
            assert(t[i] == s[i] && t[j] == s[j]);
        }
        lemma_pairs_map_unique(t);
        let last = s.last();
        assert forall|i: int| 0 <= i < s.len() implies #[trigger] pairs_map(s).contains_key(s[i].0)
            && pairs_map(s)[s[i].0] == s[i].1 by {
            if i < s.len() - 1 {
                assert(t[i] == s[i]);
                assert(s[i].0 != s[s.len() - 1].0);
            }
        }
        assert forall|k: Seq<char>| #[trigger] pairs_map(s).contains_key(k) implies exists|i: int|
            0 <= i < s.len() && s[i].0 == k by {
            if k == last.0 {
                assert(s[s.len() - 1].0 == k);
            } else {
                assert(pairs_map(t).contains_key(k));
                let i = choose|i: int| 0 <= i < t.len() && t[i].0 == k;
                assert(s[i] == t[i]);
            }
        }
        if pairs_map(t).contains_key(last.0) {
            let i = choose|i: int| 0 <= i < t.len() && t[i].0 == last.0;
            assert(s[i].0 == s[s.len() - 1].0);
        }
    }
}

/// A key-value map with string keys.
#[derive(Debug)]
pub struct KvMap {
    entries: Vec<(String, String)>,
}

impl KvMap {
    #[verifier::type_invariant]
    spec fn inv(self) -> bool {
        keys_unique(pairs_view(self.entries@))
    }

    /// The pairs of the map, in the order in which they are held.
    pub closed spec fn pairs(&self) -> Seq<(Seq<char>, Seq<char>)> {
        pairs_view(self.entries@)
    }

    proof fn lemma_view(&self)
        requires
            keys_unique(self.pairs()),
        ensures
            keys_unique(self.pairs()),
            self@ == pairs_map(self.pairs()),
            self@.dom().finite(),
            self@.len() == self.pairs().len(),
            self.pairs().len() == self.entries@.len(),
            forall|i: int|
                0 <= i < self.entries@.len() ==> #[trigger] self.pairs()[i] == pair_view(
                    self.entries@[i],
                ),
            forall|i: int|
                0 <= i < self.pairs().len() ==> #[trigger] self@.contains_key(self.pairs()[i].0)
                    && self@[self.pairs()[i].0] == self.pairs()[i].1,
            forall|k: Seq<char>|
                #[trigger] self@.contains_key(k) ==> exists|i: int|
                    0 <= i < self.pairs().len() && self.pairs()[i].0 == k,
    {
        lemma_pairs_map_unique(self.pairs());
    }

    /// The empty map.
    pub fn new() -> (r: KvMap)
        ensures
            r@ == Map::<Seq<char>, Seq<char>>::empty(),
    {
        let r = KvMap { entries: Vec::new() };
        assert(pairs_view(r.entries@) =~= Seq::<(Seq<char>, Seq<char>)>::empty());
        r
    }

    /// Where `key` is held, if it is.
    fn find(&self, key: &str) -> (r: Option<usize>)
        ensures
            match r {
                Some(i) => i < self.entries@.len() && self.pairs()[i as int].0 == key@,
                None => !self@.contains_key(key@),
            },
    {
        proof {
            use_type_invariant(&*self);
            self.lemma_view();
        }
        let mut i: usize = 0;
        while i < self.entries.len()
            invariant
                i <= self.entries@.len(),
                self.pairs().len() == self.entries@.len(),
                forall|j: int| 0 <= j < self.entries@.len() ==> #[trigger] self.pairs()[j] == pair_view(self.entries@[j]),
                forall|j: int| 0 <= j < i ==> #[trigger] self.pairs()[j].0 != key@,
            decreases self.entries@.len() - i,
        {
            if str_eq(self.entries[i].0.as_str(), key) {
                return Some(i);
            }
            i = i + 1;
        }
        proof {
            if self@.contains_key(key@) {
                let j = choose|j: int| 0 <= j < self.pairs().len() && self.pairs()[j].0 == key@;
                assert(self.pairs()[j].0 != key@);
            }
        }
        None
    }

    /// The number of keys.
    pub fn len(&self) -> (r: usize)
        ensures
            r == self@.len(),
    {
        proof {
            use_type_invariant(&*self);
            self.lemma_view();
        }
        self.entries.len()
    }

    /// Whether the map holds no key.
    pub fn is_empty(&self) -> (r: bool)
        ensures
            r == (self@.len() == 0),
    {
        self.len() == 0
    }

    /// Whether `key` is held.
    pub fn contains_key(&self, key: &str) -> (r: bool)
        ensures
            r == self@.contains_key(key@),
    {
        proof {
            use_type_invariant(&*self);
            self.lemma_view();
        }
        match self.find(key) {
            Some(i) => {
                true
            },
            None => false,
        }
    }

    /// The value held under `key`, if any.
    pub fn get(&self, key: &str) -> (r: Option<String>)
        ensures
            match r {
                Some(v) => self@.contains_key(key@) && v@ == self@[key@],
                None => !self@.contains_key(key@),
            },
    {
        proof {
            use_type_invariant(&*self);
            self.lemma_view();
        }
        match self.find(key) {
            Some(i) => {
                proof {
                    assert(self.pairs()[i as int] == pair_view(self.entries@[i as int]));
                    assert(self@.contains_key(self.pairs()[i as int].0));
                }
                Some(self.entries[i].1.clone())
            },
            None => None,
        }
    }

    /// Holds `value` under `key`, replacing what was held there.
    pub fn insert(&mut self, key: String, value: String)
        ensures
            final(self)@ == old(self)@.insert(key@, value@),
    {
        proof {
            use_type_invariant(&*self);
            self.lemma_view();
        }
        let ghost s = self.pairs();
        let ghost m = self@;
        match self.find(key.as_str()) {
            Some(i) => {
                let ghost t = s.update(i as int, (key@, value@));
                proof {
                    assert forall|a: int, b: int| 0 <= a < b < t.len() implies #[trigger] t[a].0
                        != #[trigger] t[b].0 by {
                        assert(s[a].0 != s[b].0);
                    }
                    assert(pairs_view(self.entries@.update(i as int, (key, value))) =~= t);
                }
                let mut entries: Vec<(String, String)> = Vec::new();
                std::mem::swap(&mut entries, &mut self.entries);
                entries[i] = (key, value);
                self.entries = entries;
                proof {
                    use_type_invariant(&*self);
                    self.lemma_view();
                    assert(self.pairs() == t);
                    assert forall|k: Seq<char>| #[trigger] self@.contains_key(k) == m.insert(
                        key@,
                        value@,
                    ).contains_key(k) && (self@.contains_key(k) ==> self@[k] == m.insert(
                        key@,
                        value@,
                    )[k]) by {
                        if k == key@ {
                            assert(t[i as int].0 == k);
                        } else {
                            if self@.contains_key(k) {
                                let j = choose|j: int| 0 <= j < t.len() && t[j].0 == k;
                                assert(s[j] == t[j]);
                            }
                            if m.contains_key(k) {
                                let j = choose|j: int| 0 <= j < s.len() && s[j].0 == k;
                                assert(s[j] == t[j]);
                            }
                        }
                    }
                    assert(self@ =~= m.insert(key@, value@));
                }
            },
            None => {
                let ghost t = s.push((key@, value@));
                proof {
                    assert forall|a: int, b: int| 0 <= a < b < t.len() implies #[trigger] t[a].0
                        != #[trigger] t[b].0 by {
                        if b == s.len() {
                            assert(m.contains_key(s[a].0));
                        } else {
                            assert(s[a].0 != s[b].0);
                        }
                    }
                    assert(pairs_view(self.entries@.push((key, value))) =~= t);
                    assert(t.drop_last() == s);
                }
                let mut entries: Vec<(String, String)> = Vec::new();
                std::mem::swap(&mut entries, &mut self.entries);
                entries.push((key, value));
                self.entries = entries;
                proof {
                    assert(self.pairs() == t);
                }
            },
        }
    }

    /// Removes `key` and what it held, if anything.
    pub fn remove(&mut self, key: &str)
        ensures
            final(self)@ == old(self)@.remove(key@),
    {
        proof {
            use_type_invariant(&*self);
            self.lemma_view();
        }
        let ghost s = self.pairs();
        let ghost m = self@;
        match self.find(key) {
            Some(i) => {
                let ghost t = s.remove(i as int);
                proof {
                    assert forall|a: int, b: int| 0 <= a < b < t.len() implies #[trigger] t[a].0
                        != #[trigger] t[b].0 by {
                        if a < i {
                            if b < i {
                                assert(s[a].0 != s[b].0);
                            } else {
                                assert(s[a].0 != s[b + 1].0);
                            }
                        } else {
                            assert(s[a + 1].0 != s[b + 1].0);
                        }
                    }
                    assert(pairs_view(self.entries@.remove(i as int)) =~= t);
                }
                let mut entries: Vec<(String, String)> = Vec::new();
                std::mem::swap(&mut entries, &mut self.entries);
                entries.remove(i);
                self.entries = entries;
                proof {
                    use_type_invariant(&*self);
                    self.lemma_view();
                    assert(self.pairs() == t);
                    assert forall|k: Seq<char>| #[trigger] self@.contains_key(k) == m.remove(
                        key@,
                    ).contains_key(k) && (self@.contains_key(k) ==> self@[k] == m[k]) by {
                        if self@.contains_key(k) {
                            let j = choose|j: int| 0 <= j < t.len() && t[j].0 == k;
                            if j < i {
                                assert(s[j] == t[j]);
                                assert(s[j].0 != s[i as int].0);
                            } else {
                                assert(s[j + 1] == t[j]);
                                assert(s[j + 1].0 != s[i as int].0);
                            }
                        }
                        if m.contains_key(k) && k != key@ {
                            let j = choose|j: int| 0 <= j < s.len() && s[j].0 == k;
                            if j < i {
                                assert(s[j] == t[j]);
                            } else {
                                assert(j != i);
                                assert(s[j] == t[j - 1]);
                            }
                        }
                    }
                    assert(self@ =~= m.remove(key@));
                }
            },
            None => {
                assert(m.remove(key@) =~= m);
            },
        }
    }

    /// A map holding the pairs inserted one after the other, in order.
    pub fn from_pairs(pairs: &Vec<(String, String)>) -> (r: KvMap)
        ensures
            r@ == pairs_map(pairs_view(pairs@)),
    {
        let mut r = KvMap::new();
        let mut i: usize = 0;
        while i < pairs.len()
            invariant
                i <= pairs@.len(),
                r@ == pairs_map(pairs_view(pairs@.take(i as int))),
            decreases pairs@.len() - i,
        {
            let k = pairs[i].0.clone();
            let v = pairs[i].1.clone();
            r.insert(k, v);
            proof {
                let next = pairs_view(pairs@.take(i + 1));
                assert(next.drop_last() =~= pairs_view(pairs@.take(i as int)));
                assert(next.last() == pair_view(pairs@[i as int]));
            }
            i = i + 1;
        }
        proof {
            assert(pairs@.take(i as int) =~= pairs@);
        }
        r
    }

    /// A copy with the same contents.
    pub fn copy(&self) -> (r: KvMap)
        ensures
            r@ == self@,
    {
        proof {
            use_type_invariant(&*self);
        }
        let entries = self.to_pairs_in_order();
        KvMap { entries }
    }

    fn to_pairs_in_order(&self) -> (r: Vec<(String, String)>)
        ensures
            r@ == self.entries@,
    {
        let mut r: Vec<(String, String)> = Vec::new();
        let mut i: usize = 0;
        while i < self.entries.len()
            invariant
                i <= self.entries@.len(),
                r@ == self.entries@.take(i as int),
            decreases self.entries@.len() - i,
        {
            let k = self.entries[i].0.clone();
            let v = self.entries[i].1.clone();
            r.push((k, v));
            proof {
                assert(r@ =~= self.entries@.take(i + 1));
            }
            i = i + 1;
        }
        proof {
            assert(self.entries@.take(i as int) =~= self.entries@);
        }
        r
    }

    /// The pairs of the map, no key twice.
    pub fn to_pairs(&self) -> (r: Vec<(String, String)>)
        ensures
            pairs_map(pairs_view(r@)) == self@,
            keys_unique(pairs_view(r@)),
            r@.len() == self@.len(),
    {
        proof {
            use_type_invariant(&*self);
            self.lemma_view();
        }
        let mut r: Vec<(String, String)> = Vec::new();
        let mut i: usize = 0;
        while i < self.entries.len()
            invariant
                i <= self.entries@.len(),
                r@ == self.entries@.take(i as int),
            decreases self.entries@.len() - i,
        {
            let k = self.entries[i].0.clone();
            let v = self.entries[i].1.clone();
            r.push((k, v));
            proof {
                assert(r@ =~= self.entries@.take(i + 1));
            }
            i = i + 1;
        }
        proof {
            assert(self.entries@.take(i as int) =~= self.entries@);
        }
        r
    }
}

impl View for KvMap {
    type V = Map<Seq<char>, Seq<char>>;

    closed spec fn view(&self) -> Map<Seq<char>, Seq<char>> {
        pairs_map(pairs_view(self.entries@))
    }
}

} // verus!
