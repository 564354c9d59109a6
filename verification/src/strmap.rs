//! A map from strings to strings that keeps its entries in insertion order.
//!
//! Environment variables and resource tags are string-to-string maps. The map here holds
//! its entries in a vector with no key twice; its view is the `Map` that the entries
//! describe.
use vstd::prelude::*;

verus! {

/// The entries of a map, each key and value taken by its characters.
pub type Entries = Seq<(Seq<char>, Seq<char>)>;

/// The map that a list of entries describes; a later entry for a key wins.
pub open spec fn map_of(s: Entries) -> Map<Seq<char>, Seq<char>>
    decreases s.len(),
{
    if s.len() == 0 {
        Map::empty()
    } else {
        map_of(s.drop_last()).insert(s.last().0, s.last().1)
    }
}

/// No key occurs twice in `s`.
pub open spec fn keys_unique(s: Entries) -> bool {
    forall|i: int, j: int| 0 <= i < j < s.len() ==> #[trigger] s[i].0 != #[trigger] s[j].0
}

/// The entries of a vector of string pairs.
pub open spec fn pairs_view(v: Seq<(String, String)>) -> Entries {
    v.map_values(|p: (String, String)| (p.0@, p.1@))
}

/// A key occurs in the map exactly when some entry has it.
pub proof fn lemma_map_of_contains(s: Entries, k: Seq<char>)
    ensures
        map_of(s).dom().contains(k) <==> exists|i: int| 0 <= i < s.len() && #[trigger] s[i].0 == k,
    decreases s.len(),
{
    if s.len() > 0 {
        let d = s.drop_last();
        lemma_map_of_contains(d, k);
        if map_of(s).dom().contains(k) {
            if k == s.last().0 {
                assert(s[s.len() - 1].0 == k);
            } else {
                let i = choose|i: int| 0 <= i < d.len() && #[trigger] d[i].0 == k;
                assert(s[i].0 == k);
            }
        }
        if exists|i: int| 0 <= i < s.len() && #[trigger] s[i].0 == k {
            let i = choose|i: int| 0 <= i < s.len() && #[trigger] s[i].0 == k;
            if i < s.len() - 1 {
                assert(d[i].0 == k);
            }
        }
    }
}

/// With unique keys, the map gives each entry's value for its key.
pub proof fn lemma_map_of_index(s: Entries, i: int)
    requires
        keys_unique(s),
        0 <= i < s.len(),
    ensures
        map_of(s).dom().contains(s[i].0),
        map_of(s)[s[i].0] == s[i].1,
    decreases s.len(),
{
    if i < s.len() - 1 {
        let d = s.drop_last();
        assert(d[i] == s[i]);
        lemma_map_of_index(d, i);
        assert(s[i].0 != s[s.len() - 1].0);
    }
}

/// With unique keys, the map has one key per entry.
pub proof fn lemma_map_of_len(s: Entries)
    requires
        keys_unique(s),
    ensures
        map_of(s).dom().finite(),
        map_of(s).dom().len() == s.len(),
    decreases s.len(),
{
    if s.len() > 0 {
        let d = s.drop_last();
        lemma_map_of_len(d);
        lemma_map_of_contains(d, s.last().0);
        if map_of(d).dom().contains(s.last().0) {
            let i = choose|i: int| 0 <= i < d.len() && #[trigger] d[i].0 == s.last().0;
            assert(s[i].0 == s[s.len() - 1].0);
        }
    }
}

/// Replacing the value of an entry replaces the value of its key in the map.
pub proof fn lemma_map_of_update(s: Entries, i: int, v: Seq<char>)
    requires
        keys_unique(s),
        0 <= i < s.len(),
    ensures
        map_of(s.update(i, (s[i].0, v))) =~= map_of(s).insert(s[i].0, v),
    decreases s.len(),
{
    let k = s[i].0;
    let t = s.update(i, (k, v));
    let d = s.drop_last();
    if i == s.len() - 1 {
        assert(t.drop_last() =~= d);
    } else {
        assert(t.drop_last() =~= d.update(i, (k, v)));
        assert(d[i] == s[i]);
        lemma_map_of_update(d, i, v);
        assert(k != s[s.len() - 1].0);
    }
}

/// A map from strings to strings.
#[derive(Debug)]
pub struct StringMap {
    entries: Vec<(String, String)>,
}

impl View for StringMap {
    type V = Map<Seq<char>, Seq<char>>;

    closed spec fn view(&self) -> Map<Seq<char>, Seq<char>> {
        map_of(pairs_view(self.entries@))
    }
}

impl StringMap {
    #[verifier::type_invariant]
    spec fn unique(&self) -> bool {
        keys_unique(pairs_view(self.entries@))
    }

    /// The entries in the order in which their keys were first inserted.
    pub closed spec fn entries(&self) -> Entries {
        pairs_view(self.entries@)
    }

    /// The map is the one that its entries describe.
    pub proof fn lemma_view_is_entries(&self)
        ensures
            self@ == map_of(self.entries()),
    {
    }

    /// An empty map.
    pub fn new() -> (res: StringMap)
        ensures
            res@ == Map::<Seq<char>, Seq<char>>::empty(),
            res.entries() == Seq::<(Seq<char>, Seq<char>)>::empty(),
    {
        let res = StringMap { entries: Vec::new() };
        assert(pairs_view(res.entries@) =~= Seq::<(Seq<char>, Seq<char>)>::empty());
        res
    }

    /// The position of the entry for `key`, if there is one.
    fn find(&self, key: &str) -> (res: Option<usize>)
        ensures
            match res {
                Some(i) => i < self.entries().len() && self.entries()[i as int].0 == key@,
                None => !self@.dom().contains(key@),
            },
    {
        proof {
            use_type_invariant(self);
        }
        let mut i: usize = 0;
        while i < self.entries.len()
            invariant
                i <= self.entries@.len(),
                forall|j: int| 0 <= j < i ==> #[trigger] pairs_view(self.entries@)[j].0 != key@,
            decreases self.entries@.len() - i,
        {
            if crate::text::str_eq(self.entries[i].0.as_str(), key) {
                return Some(i);
            }
            i = i + 1;
        }
        proof {
            lemma_map_of_contains(pairs_view(self.entries@), key@);
        }
        None
    }

    /// The value stored for `key`.
    pub fn get(&self, key: &str) -> (res: Option<&String>)
        ensures
            match res {
                Some(v) => self@.dom().contains(key@) && self@[key@] == v@,
                None => !self@.dom().contains(key@),
            },
    {
        proof {
            use_type_invariant(self);
        }
        match self.find(key) {
            Some(i) => {
                proof {
                    lemma_map_of_index(pairs_view(self.entries@), i as int);
                }
                Some(&self.entries[i].1)
            },
            None => None,
        }
    }

    /// Whether `key` has a value.
    pub fn contains_key(&self, key: &str) -> (res: bool)
        ensures
            res == self@.dom().contains(key@),
    {
        self.get(key).is_some()
    }

    /// Sets the value of `key`; a new key goes after all others.
    pub fn insert(&mut self, key: String, value: String)
        ensures
            final(self)@ == old(self)@.insert(key@, value@),
            old(self)@.dom().contains(key@) ==> final(self).entries().len()
                == old(self).entries().len(),
            !old(self)@.dom().contains(key@) ==> final(self).entries() == old(self).entries().push(
                (key@, value@),
            ),
    {
        proof {
            use_type_invariant(&*self);
        }
        let ghost old_entries = pairs_view(self.entries@);
        match self.find(key.as_str()) {
            Some(i) => {
                let ghost k = key@;
                let ghost v = value@;
                let mut entries = Vec::new();
                std::mem::swap(&mut entries, &mut self.entries);
                entries.set(i, (key, value));
                proof {
                    lemma_map_of_index(old_entries, i as int);
                    assert(pairs_view(entries@) =~= old_entries.update(i as int, (k, v)));
                    lemma_map_of_update(old_entries, i as int, v);
                    assert forall|a: int, b: int|
                        0 <= a < b < pairs_view(entries@).len() implies #[trigger] pairs_view(
                        entries@,
                    )[a].0 != #[trigger] pairs_view(entries@)[b].0 by {
                        assert(old_entries[a].0 != old_entries[b].0);
                    }
                }
                self.entries = entries;
            },
            None => {
                let ghost k = key@;
                let ghost v = value@;
                proof {
                    lemma_map_of_contains(old_entries, k);
                }
                let mut entries = Vec::new();
                std::mem::swap(&mut entries, &mut self.entries);
                entries.push((key, value));
                proof {
                    assert(pairs_view(entries@) =~= old_entries.push((k, v)));
                    assert(pairs_view(entries@).drop_last() =~= old_entries);
                    assert forall|a: int, b: int|
                        0 <= a < b < pairs_view(entries@).len() implies #[trigger] pairs_view(
                        entries@,
                    )[a].0 != #[trigger] pairs_view(entries@)[b].0 by {
                        if b == old_entries.len() {
                            assert(old_entries[a].0 != k);
                        } else {
                            assert(old_entries[a].0 != old_entries[b].0);
                        }
                    }
                }
                self.entries = entries;
            },
        }
    }

    /// Inserts every entry of `other`, whose values win over those already here.
    pub fn extend(&mut self, other: &StringMap)
        ensures
            final(self)@ == old(self)@.union_prefer_right(other@),
    {
        proof {
            use_type_invariant(other);
        }
        let ghost oe = other.entries();
        let mut i: usize = 0;
        while i < other.entries.len()
            invariant
                i <= other.entries@.len(),
                oe == pairs_view(other.entries@),
                self@ == old(self)@.union_prefer_right(map_of(oe.take(i as int))),
            decreases other.entries@.len() - i,
        {
            let k = other.entries[i].0.clone();
            let v = other.entries[i].1.clone();
            self.insert(k, v);
            proof {
                assert(oe.take(i + 1).drop_last() =~= oe.take(i as int));
                assert(oe.take(i + 1).last() == oe[i as int]);
                assert(self@ =~= old(self)@.union_prefer_right(map_of(oe.take(i + 1))));
            }
            i = i + 1;
        }
        assert(oe.take(other.entries@.len() as int) =~= oe);
    }

    /// The number of keys.
    pub fn len(&self) -> (res: usize)
        ensures
            res == self@.len(),
            res == self.entries().len(),
            self@.dom().finite(),
    {
        proof {
            use_type_invariant(self);
            lemma_map_of_len(self.entries());
        }
        self.entries.len()
    }

    /// Whether the map has no key.
    pub fn is_empty(&self) -> (res: bool)
        ensures
            res == (self@.len() == 0),
            res == (self.entries().len() == 0),
    {
        proof {
            use_type_invariant(self);
            lemma_map_of_len(self.entries());
        }
        self.entries.len() == 0
    }

    /// The entries, in order.
    pub fn pairs(&self) -> (res: &Vec<(String, String)>)
        ensures
            pairs_view(res@) == self.entries(),
            keys_unique(self.entries()),
            self@ == map_of(self.entries()),
    {
        proof {
            use_type_invariant(self);
        }
        &self.entries
    }

    /// A copy of the map.
    pub fn copy(&self) -> (res: StringMap)
        ensures
            res@ == self@,
            res.entries() == self.entries(),
    {
        proof {
            use_type_invariant(self);
        }
        let mut entries: Vec<(String, String)> = Vec::new();
        let mut i: usize = 0;
        while i < self.entries.len()
            invariant
                i <= self.entries@.len(),
                entries@.len() == i,
                pairs_view(entries@) == pairs_view(self.entries@).take(i as int),
            decreases self.entries@.len() - i,
        {
            let k = self.entries[i].0.clone();
            let v = self.entries[i].1.clone();
            assert(k@ == pairs_view(self.entries@)[i as int].0);
            assert(v@ == pairs_view(self.entries@)[i as int].1);
            let ghost before = entries@;
            entries.push((k, v));
            assert forall|j: int| 0 <= j < i + 1 implies #[trigger] pairs_view(entries@)[j]
                == pairs_view(self.entries@)[j] by {
                if j < i {
                    assert(entries@[j] == before[j]);
                    assert(pairs_view(before)[j] == pairs_view(self.entries@).take(i as int)[j]);
                }
            }
            assert(pairs_view(entries@) =~= pairs_view(self.entries@).take(i + 1));
            i = i + 1;
        }
        assert(pairs_view(self.entries@).take(self.entries@.len() as int) =~= pairs_view(
            self.entries@,
        ));
        let res = StringMap { entries };
        res
    }

    /// The map of the given pairs, in order; a later pair for a key wins.
    pub fn from_pairs(pairs: &[(&str, &str)]) -> (res: StringMap)
        ensures
            res@ == map_of(pairs@.map_values(|p: (&str, &str)| (p.0@, p.1@))),
    {
        let ghost ps = pairs@.map_values(|p: (&str, &str)| (p.0@, p.1@));
        let mut res = StringMap::new();
        let mut i: usize = 0;
        while i < pairs.len()
            invariant
                i <= pairs@.len(),
                ps == pairs@.map_values(|p: (&str, &str)| (p.0@, p.1@)),
                res@ == map_of(ps.take(i as int)),
            decreases pairs@.len() - i,
        {
            let (k, v) = pairs[i];
            res.insert(crate::text::owned(k), crate::text::owned(v));
            assert(ps.take(i + 1).drop_last() =~= ps.take(i as int));
            i = i + 1;
        }
        assert(ps.take(pairs@.len() as int) =~= ps);
        res
    }

    /// The map of the given owned pairs, in order; a later pair for a key wins.
    pub fn from_entries(pairs: Vec<(String, String)>) -> (res: StringMap)
        ensures
            res@ == map_of(pairs_view(pairs@)),
    {
        let ghost ps = pairs_view(pairs@);
        let mut res = StringMap::new();
        let mut i: usize = 0;
        while i < pairs.len()
            invariant
                i <= pairs@.len(),
                ps == pairs_view(pairs@),
                res@ == map_of(ps.take(i as int)),
            decreases pairs@.len() - i,
        {
            let k = pairs[i].0.clone();
            let v = pairs[i].1.clone();
            res.insert(k, v);
            assert(ps.take(i + 1).drop_last() =~= ps.take(i as int));
            i = i + 1;
        }
        assert(ps.take(pairs@.len() as int) =~= ps);
        res
    }
}

} // verus!
