//! Association lists keyed by strings: a `Vec` of `(key, value)` pairs in which
//! no key occurs twice, read as a map from keys to values.

use vstd::prelude::*;

verus! {

/// No key occurs twice.
pub open spec fn keys_unique<V>(s: Seq<(String, V)>) -> bool {
    forall|i: int, j: int| 0 <= i < j < s.len() ==> s[i].0@ != s[j].0@
}

/// The map that the pairs describe; a later pair wins over an earlier one.
pub open spec fn entries_map<V>(s: Seq<(String, V)>) -> Map<Seq<char>, V>
    decreases s.len(),
{
    if s.len() == 0 {
        Map::empty()
    } else {
        entries_map(s.drop_last()).insert(s.last().0@, s.last().1)
    }
}

/// The keys of the map are those of the pairs, and with unique keys each pair
/// gives the map's value at its key.
pub proof fn lemma_entries_map<V>(s: Seq<(String, V)>)
    requires
        keys_unique(s),
    ensures
        forall|i: int| 0 <= i < s.len() ==> #[trigger] entries_map(s).contains_key(s[i].0@)
            && entries_map(s)[s[i].0@] == s[i].1,
        forall|k: Seq<char>| #[trigger] entries_map(s).contains_key(k)
            ==> exists|i: int| 0 <= i < s.len() && s[i].0@ == k,
    decreases s.len(),
{
    if s.len() > 0 {
        let t = s.drop_last();
        assert(keys_unique(t));
        lemma_entries_map(t);
        assert forall|i: int| 0 <= i < s.len() implies #[trigger] entries_map(s).contains_key(s[i].0@)
            && entries_map(s)[s[i].0@] == s[i].1 by {
            assert(t.len() == s.len() - 1);
            if i < s.len() - 1 {
                assert(t[i] == s[i]);
                assert(entries_map(t).contains_key(t[i].0@));
                assert(s[i].0@ != s[s.len() - 1].0@);
            }
        }
        assert forall|k: Seq<char>| #[trigger] entries_map(s).contains_key(k)
            implies exists|i: int| 0 <= i < s.len() && s[i].0@ == k by {
            if k != s.last().0@ {
                assert(entries_map(t).contains_key(k));
                let i = choose|i: int| 0 <= i < t.len() && t[i].0@ == k;
                assert(s[i] == t[i]);
            } else {
                assert(s[s.len() - 1].0@ == k);
            }
        }
    }
}

/// Replacing the value at an index keeps the keys unique and sets that key's value.
pub proof fn lemma_entries_map_update<V>(s: Seq<(String, V)>, i: int, v: V)
    requires
        keys_unique(s),
        0 <= i < s.len(),
    ensures
        keys_unique(s.update(i, (s[i].0, v))),
        entries_map(s.update(i, (s[i].0, v))) == entries_map(s).insert(s[i].0@, v),
    decreases s.len(),
{
    let u = s.update(i, (s[i].0, v));
    assert forall|a: int, b: int| 0 <= a < b < u.len() implies u[a].0@ != u[b].0@ by {
        assert(u[a].0 == s[a].0);
        assert(u[b].0 == s[b].0);
    }
    if i == s.len() - 1 {
        assert(u.drop_last() =~= s.drop_last());
        assert(entries_map(u) =~= entries_map(s).insert(s[i].0@, v));
    } else {
        let t = s.drop_last();
        assert(keys_unique(t));
        lemma_entries_map_update(t, i, v);
        assert(u.drop_last() =~= t.update(i, (t[i].0, v)));
        assert(s.last().0@ != s[i].0@);
        assert(entries_map(u) =~= entries_map(s).insert(s[i].0@, v));
    }
}

/// Appending a pair with a new key keeps the keys unique and adds that key.
pub proof fn lemma_entries_map_push<V>(s: Seq<(String, V)>, k: String, v: V)
    requires
        keys_unique(s),
        !entries_map(s).contains_key(k@),
    ensures
        keys_unique(s.push((k, v))),
        entries_map(s.push((k, v))) == entries_map(s).insert(k@, v),
{
    lemma_entries_map(s);
    let u = s.push((k, v));
    assert forall|a: int, b: int| 0 <= a < b < u.len() implies u[a].0@ != u[b].0@ by {
        if b == s.len() {
            assert(u[a] == s[a]);
            assert(entries_map(s).contains_key(s[a].0@));
        } else {
            assert(u[a] == s[a] && u[b] == s[b]);
        }
    }
    assert(u.drop_last() =~= s);
}

/// The index of the pair with key `k`, if there is one.
pub fn find_key<V>(s: &Vec<(String, V)>, k: &String) -> (r: Option<usize>)
    requires
        keys_unique(s@),
    ensures
        match r {
            Some(i) => i < s@.len() && s@[i as int].0@ == k@,
            None => !entries_map(s@).contains_key(k@),
        },
{
    proof {
        lemma_entries_map(s@);
    }
    let mut i: usize = 0;
    while i < s.len()
        invariant
            0 <= i <= s@.len(),
            forall|j: int| 0 <= j < i ==> (#[trigger] s@[j]).0@ != k@,
        decreases s@.len() - i,
    {
        if s[i].0 == *k {
            return Some(i);
        }
        i = i + 1;
    }
    None
}

/// The value at key `k`, if any.
pub fn get_key<'a, V>(s: &'a Vec<(String, V)>, k: &String) -> (r: Option<&'a V>)
    requires
        keys_unique(s@),
    ensures
        match r {
            Some(v) => entries_map(s@).contains_key(k@) && *v == entries_map(s@)[k@],
            None => !entries_map(s@).contains_key(k@),
        },
{
    proof {
        lemma_entries_map(s@);
    }
    match find_key(s, k) {
        Some(i) => {
            proof {
                assert(entries_map(s@).contains_key(s@[i as int].0@));
            }
            Some(&s[i].1)
        },
        None => None,
    }
}

/// Sets the value at key `k`: in place where the key is present, at the end
/// where it is new.
pub fn set_key<V>(s: &mut Vec<(String, V)>, k: String, v: V)
    requires
        keys_unique(old(s)@),
    ensures
        keys_unique(final(s)@),
        entries_map(final(s)@) == entries_map(old(s)@).insert(k@, v),
{
    match find_key(s, &k) {
        Some(i) => {
            let ghost before = s@;
            let (key, _) = s.remove(i);
            s.insert(i, (key, v));
            proof {
                assert(s@ =~= before.update(i as int, (before[i as int].0, v)));
                lemma_entries_map_update(before, i as int, v);
            }
        },
        None => {
            proof {
                lemma_entries_map_push(s@, k, v);
            }
            s.push((k, v));
        },
    }
}

/// A map from strings to strings that keeps its keys in order of first insertion.
#[derive(Debug, Clone)]
pub struct StrMap {
    vars: Vec<(String, String)>,
}

impl StrMap {
    pub closed spec fn wf(&self) -> bool {
        keys_unique(self.vars@)
    }

    pub closed spec fn view(&self) -> Map<Seq<char>, Seq<char>> {
        entries_map(self.vars@).map_values(|v: String| v@)
    }

    /// An empty snapshot.
    pub fn new() -> (r: StrMap)
        ensures
            r.wf(),
            r.view() == Map::<Seq<char>, Seq<char>>::empty(),
    {
        let r = StrMap { vars: Vec::new() };
        assert(r.view() =~= Map::<Seq<char>, Seq<char>>::empty());
        r
    }

    /// Sets a variable, replacing an earlier value.
    pub fn set(&mut self, key: String, value: String)
        requires
            old(self).wf(),
        ensures
            final(self).wf(),
            final(self).view() == old(self).view().insert(key@, value@),
    {
        let ghost k = key@;
        let ghost v = value@;
        set_key(&mut self.vars, key, value);
        assert(self.view() =~= old(self).view().insert(k, v));
    }

    /// A map of the given pairs; of two pairs with one key the later wins.
    pub fn from_pairs(pairs: Vec<(String, String)>) -> (r: StrMap)
        ensures
            r.wf(),
            r.view() == entries_map(pairs@).map_values(|v: String| v@),
    {
        let mut r = StrMap::new();
        let mut i: usize = 0;
        while i < pairs.len()
            invariant
                r.wf(),
                0 <= i <= pairs@.len(),
                r.view() == entries_map(pairs@.subrange(0, i as int)).map_values(|v: String| v@),
            decreases pairs@.len() - i,
        {
            proof {
                assert(pairs@.subrange(0, i + 1).drop_last() =~= pairs@.subrange(0, i as int));
            }
            let ghost before = r.view();
            r.set(pairs[i].0.clone(), pairs[i].1.clone());
            assert(r.view() =~= entries_map(pairs@.subrange(0, i + 1)).map_values(|v: String| v@));
            i = i + 1;
        }
        assert(pairs@.subrange(0, pairs@.len() as int) =~= pairs@);
        r
    }

    /// The value of a variable, if set.
    pub fn get(&self, key: &String) -> (r: Option<String>)
        requires
            self.wf(),
        ensures
            match r {
                Some(v) => self.view().contains_key(key@) && v@ == self.view()[key@],
                None => !self.view().contains_key(key@),
            },
    {
        match get_key(&self.vars, key) {
            Some(v) => Some(v.clone()),
            None => None,
        }
    }

    /// A copy with the same pairs.
    pub fn duplicate(&self) -> (r: StrMap)
        ensures
            r.wf() == self.wf(),
            r.view() == self.view(),
    {
        let mut vars: Vec<(String, String)> = Vec::new();
        let mut i: usize = 0;
        while i < self.vars.len()
            invariant
                0 <= i <= self.vars@.len(),
                vars@ == self.vars@.subrange(0, i as int),
            decreases self.vars@.len() - i,
        {
            vars.push((self.vars[i].0.clone(), self.vars[i].1.clone()));
            assert(vars@ =~= self.vars@.subrange(0, i + 1));
            i = i + 1;
        }
        assert(self.vars@.subrange(0, self.vars@.len() as int) =~= self.vars@);
        StrMap { vars }
    }

    /// Whether both maps hold the same keys with the same values.
    pub fn same_as(&self, other: &StrMap) -> (r: bool)
        requires
            self.wf(),
            other.wf(),
        ensures
            r == (self.view() == other.view()),
    {
        proof {
            lemma_entries_map(self.vars@);
            lemma_entries_map(other.vars@);
        }
        let mut i: usize = 0;
        while i < self.vars.len()
            invariant
                self.wf(),
                other.wf(),
                0 <= i <= self.vars@.len(),
                forall|j: int| 0 <= j < i ==> #[trigger] other.view().contains_key(self.vars@[j].0@)
                    && other.view()[self.vars@[j].0@] == self.vars@[j].1@,
            decreases self.vars@.len() - i,
        {
            proof {
                lemma_entries_map(self.vars@);
            }
            match other.get(&self.vars[i].0) {
                Some(v) => {
                    if !(v == self.vars[i].1) {
                        assert(entries_map(self.vars@).contains_key(self.vars@[i as int].0@));
                        assert(self.view()[self.vars@[i as int].0@] == self.vars@[i as int].1@);
                        return false;
                    }
                },
                None => {
                    assert(self.view().contains_key(self.vars@[i as int].0@));
                    return false;
                },
            }
            i = i + 1;
        }
        let mut k: usize = 0;
        while k < other.vars.len()
            invariant
                self.wf(),
                other.wf(),
                0 <= k <= other.vars@.len(),
                forall|j: int| 0 <= j < k ==> #[trigger] self.view().contains_key(other.vars@[j].0@),
            decreases other.vars@.len() - k,
        {
            proof {
                lemma_entries_map(other.vars@);
            }
            if !self.contains(&other.vars[k].0) {
                assert(other.view().contains_key(other.vars@[k as int].0@));
                return false;
            }
            k = k + 1;
        }
        proof {
            lemma_entries_map(self.vars@);
            lemma_entries_map(other.vars@);
            assert forall|key: Seq<char>| #[trigger] self.view().contains_key(key) implies other.view().contains_key(key)
                && other.view()[key] == self.view()[key] by {
                let j = choose|j: int| 0 <= j < self.vars@.len() && self.vars@[j].0@ == key;
                assert(other.view().contains_key(self.vars@[j].0@));
            }
            assert forall|key: Seq<char>| #[trigger] other.view().contains_key(key) implies self.view().contains_key(key) by {
                let j = choose|j: int| 0 <= j < other.vars@.len() && other.vars@[j].0@ == key;
                assert(self.view().contains_key(other.vars@[j].0@));
            }
            assert(self.view() =~= other.view());
        }
        true
    }

    /// The pairs, in order of first insertion.
    pub fn entries(&self) -> (r: &Vec<(String, String)>)
        ensures
            self.wf() ==> keys_unique(r@),
            self.view() == entries_map(r@).map_values(|v: String| v@),
    {
        &self.vars
    }

    pub fn contains(&self, key: &String) -> (r: bool)
        requires
            self.wf(),
        ensures
            r == self.view().contains_key(key@),
    {
        get_key(&self.vars, key).is_some()
    }
}

} // verus!
