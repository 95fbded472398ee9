//! A small map keyed by strings, kept as a list of entries in insertion
//! order; a later entry for a key overrides an earlier one.
use vstd::prelude::*;
use crate::text::same;

verus! {

/// The map that a list of entries stands for: later entries win.
pub open spec fn to_map<V>(entries: Seq<(String, V)>) -> Map<Seq<char>, V>
    decreases entries.len(),
{
    if entries.len() == 0 {
        Map::empty()
    } else {
        to_map(entries.drop_last()).insert(entries.last().0@, entries.last().1)
    }
}

/// Every key of the map stands in some entry, with the value the map gives
/// it.
proof fn lemma_to_map_entry<V>(s: Seq<(String, V)>, k: Seq<char>)
    requires
        to_map(s).contains_key(k),
    ensures
        exists|i: int| 0 <= i < s.len() && s[i].0@ == k && to_map(s)[k] == s[i].1,
    decreases s.len(),
{
    let d = s.drop_last();
    if s.last().0@ == k {
        assert(s[s.len() - 1] == s.last());
    } else {
        lemma_to_map_entry(d, k);
        let i = choose|i: int| 0 <= i < d.len() && d[i].0@ == k && to_map(d)[k] == d[i].1;
        assert(s[i] == d[i]);
    }
}

pub struct StrMap<V> {
    entries: Vec<(String, V)>,
}

impl<V> View for StrMap<V> {
    type V = Map<Seq<char>, V>;

    closed spec fn view(&self) -> Map<Seq<char>, V> {
        to_map(self.entries@)
    }
}

impl<V> StrMap<V> {
    pub fn new() -> (r: Self)
        ensures
            r@ == Map::<Seq<char>, V>::empty(),
    {
        StrMap { entries: Vec::new() }
    }

    /// Maps `key` to `value`, replacing what `key` mapped to.
    pub fn insert(&mut self, key: String, value: V)
        ensures
            final(self)@ == old(self)@.insert(key@, value),
    {
        let ghost start = self.entries@;
        self.entries.push((key, value));
        proof {
            assert(self.entries@.drop_last() =~= start);
        }
    }

    /// Removes `key`, returning what it mapped to.
    pub fn remove(&mut self, key: &String) -> (r: Option<V>)
        ensures
            final(self)@ == old(self)@.remove(key@),
            r == (if old(self)@.contains_key(key@) {
                Some(old(self)@[key@])
            } else {
                None
            }),
    {
        let ghost start = self.entries@;
        let n = self.entries.len();
        let mut kept: Vec<(String, V)> = Vec::new();
        let mut found: Option<V> = None;
        let mut i: usize = 0;
        while i < n
            invariant
                0 <= i <= n,
                n == start.len(),
                self.entries@ == start.subrange(i as int, n as int),
                to_map(kept@) == to_map(start.subrange(0, i as int)).remove(key@),
                found == (if to_map(start.subrange(0, i as int)).contains_key(key@) {
                    Some(to_map(start.subrange(0, i as int))[key@])
                } else {
                    None
                }),
            decreases n - i,
        {
            let ghost kept_before = kept@;
            let entry = self.entries.remove(0);
            proof {
                assert(start.subrange(0, i + 1).drop_last() =~= start.subrange(0, i as int));
                assert(start.subrange(0, i + 1).last() == entry);
                assert(self.entries@ =~= start.subrange(i + 1, n as int));
            }
            if same(entry.0.as_str(), key.as_str()) {
                proof {
                    assert(to_map(kept@) =~= to_map(start.subrange(0, i + 1)).remove(key@));
                }
                found = Some(entry.1);
            } else {
                kept.push(entry);
                proof {
                    assert(kept@.drop_last() =~= kept_before);
                    assert(to_map(kept@) =~= to_map(start.subrange(0, i + 1)).remove(key@));
                }
            }
            i = i + 1;
        }
        proof {
            assert(start.subrange(0, n as int) =~= start);
        }
        self.entries = kept;
        found
    }

    /// What `key` maps to, if anything.
    pub fn get(&self, key: &String) -> (r: Option<&V>)
        ensures
            r is Some <==> self@.contains_key(key@),
            r is Some ==> *r->0 == self@[key@],
    {
        let ghost s = self.entries@;
        let mut i: usize = self.entries.len();
        proof {
            assert(s.subrange(0, i as int) =~= s);
        }
        while i > 0
            invariant
                0 <= i <= s.len(),
                s == self.entries@,
                to_map(s).contains_key(key@) == to_map(s.subrange(0, i as int)).contains_key(key@),
                to_map(s).contains_key(key@) ==> to_map(s)[key@] == to_map(
                    s.subrange(0, i as int),
                )[key@],
            decreases i,
        {
            proof {
                assert(s.subrange(0, i as int).drop_last() =~= s.subrange(0, i - 1));
            }
            if same(self.entries[i - 1].0.as_str(), key.as_str()) {
                return Some(&self.entries[i - 1].1);
            }
            i = i - 1;
        }
        proof {
            assert(s.subrange(0, 0) =~= Seq::<(String, V)>::empty());
        }
        None
    }

    /// A length that no key of the map exceeds.
    pub fn key_len_bound(&self) -> (r: usize)
        ensures
            forall|k: Seq<char>| self@.contains_key(k) ==> k.len() <= r,
    {
        let mut bound: usize = 0;
        let mut i: usize = 0;
        while i < self.entries.len()
            invariant
                0 <= i <= self.entries@.len(),
                forall|j: int| 0 <= j < i ==> (#[trigger] self.entries@[j]).0@.len() <= bound,
            decreases self.entries@.len() - i,
        {
            let len = self.entries[i].0.unicode_len();
            if len > bound {
                bound = len;
            }
            i = i + 1;
        }
        proof {
            assert forall|k: Seq<char>| self@.contains_key(k) implies k.len() <= bound by {
                lemma_to_map_entry(self.entries@, k);
            }
        }
        bound
    }

    /// A key that the map does not hold: `candidate` when it is free, else
    /// `candidate` extended with `-` past every key's length.
    pub fn fresh_key(&self, candidate: String) -> (r: String)
        ensures
            !self@.contains_key(r@),
            !self@.contains_key(candidate@) ==> r == candidate,
    {
        if !self.contains_key(&candidate) {
            return candidate;
        }
        let bound = self.key_len_bound();
        crate::text::lengthen_past(candidate, bound)
    }

    /// Whether `key` maps to anything.
    pub fn contains_key(&self, key: &String) -> (r: bool)
        ensures
            r == self@.contains_key(key@),
    {
        self.get(key).is_some()
    }
}

impl StrMap<String> {
    /// A value that no key maps to: `candidate` when no entry holds it,
    /// else `candidate` extended with `-` past every value's length.
    pub fn fresh_value(&self, candidate: String) -> (r: String)
        ensures
            forall|k: Seq<char>| self@.contains_key(k) ==> self@[k]@ != r@,
            r@.len() >= candidate@.len(),
            r@.subrange(0, candidate@.len() as int) == candidate@,
    {
        let mut i: usize = 0;
        let mut taken = false;
        while i < self.entries.len()
            invariant
                0 <= i <= self.entries@.len(),
                !taken ==> forall|j: int| 0 <= j < i ==> (#[trigger] self.entries@[j]).1@ != candidate@,
            decreases self.entries@.len() - i,
        {
            if same(self.entries[i].1.as_str(), candidate.as_str()) {
                taken = true;
            }
            i = i + 1;
        }
        if !taken {
            proof {
                assert(candidate@.subrange(0, candidate@.len() as int) =~= candidate@);
                assert forall|k: Seq<char>| self@.contains_key(k) implies self@[k]@ != candidate@ by {
                    lemma_to_map_entry(self.entries@, k);
                }
            }
            return candidate;
        }
        let bound = self.value_len_bound();
        crate::text::lengthen_past(candidate, bound)
    }

    /// A length that no value of the map exceeds.
    pub fn value_len_bound(&self) -> (r: usize)
        ensures
            forall|k: Seq<char>| self@.contains_key(k) ==> self@[k]@.len() <= r,
    {
        let mut bound: usize = 0;
        let mut i: usize = 0;
        while i < self.entries.len()
            invariant
                0 <= i <= self.entries@.len(),
                forall|j: int| 0 <= j < i ==> (#[trigger] self.entries@[j]).1@.len() <= bound,
            decreases self.entries@.len() - i,
        {
            let len = self.entries[i].1.unicode_len();
            if len > bound {
                bound = len;
            }
            i = i + 1;
        }
        proof {
            assert forall|k: Seq<char>| self@.contains_key(k) implies self@[k]@.len() <= bound by {
                lemma_to_map_entry(self.entries@, k);
            }
        }
        bound
    }
}

} // verus!
