//! A small table from text keys to copyable values, held in insertion order.

use vstd::prelude::*;

verus! {

/// The map a list of key/value pairs stands for; a later pair wins.
pub open spec fn keyed_map<V>(s: Seq<(String, V)>) -> Map<Seq<char>, V>
    decreases s.len(),
{
    if s.len() == 0 {
        Map::empty()
    } else {
        keyed_map(s.drop_last()).insert(s.last().0@, s.last().1)
    }
}

/// Values keyed by text.
pub struct Keyed<V> {
    entries: Vec<(String, V)>,
}

impl<V> View for Keyed<V> {
    type V = Map<Seq<char>, V>;

    closed spec fn view(&self) -> Map<Seq<char>, V> {
        keyed_map(self.entries@)
    }
}

impl<V: Copy> Keyed<V> {
    /// An empty table.
    pub fn new() -> (t: Self)
        ensures
            t@ == Map::<Seq<char>, V>::empty(),
    {
        Keyed { entries: Vec::new() }
    }

    /// The value under `key`, if any.
    pub fn get(&self, key: &str) -> (r: Option<V>)
        ensures
            r matches Some(v) ==> self@.contains_key(key@) && v == self@[key@],
            r is None ==> !self@.contains_key(key@),
    {
        let k = String::from_str(key);
        let mut i = self.entries.len();
        assert(self.entries@.subrange(0, i as int) =~= self.entries@);
        while i > 0
            invariant
                i <= self.entries@.len(),
                k@ == key@,
                keyed_map(self.entries@).contains_key(key@) == keyed_map(
                    self.entries@.subrange(0, i as int),
                ).contains_key(key@),
                keyed_map(self.entries@).contains_key(key@) ==> keyed_map(self.entries@)[key@]
                    == keyed_map(self.entries@.subrange(0, i as int))[key@],
            decreases i,
        {
            let ghost p = self.entries@.subrange(0, i as int);
            assert(p.drop_last() =~= self.entries@.subrange(0, i - 1));
            assert(p.last() == self.entries@[i - 1]);
            if self.entries[i - 1].0 == k {
                return Some(self.entries[i - 1].1);
            }
            i = i - 1;
        }
        None
    }

    /// Whether `key` is present.
    pub fn contains(&self, key: &str) -> (b: bool)
        ensures
            b == self@.contains_key(key@),
    {
        self.get(key).is_some()
    }

    /// Removes `key`; says whether it was present.
    pub fn remove(&mut self, key: &str) -> (was: bool)
        ensures
            was == old(self)@.contains_key(key@),
            final(self)@ == old(self)@.remove(key@),
    {
        let was = self.contains(key);
        let k = String::from_str(key);
        let mut kept: Vec<(String, V)> = Vec::new();
        let mut i: usize = 0;
        while i < self.entries.len()
            invariant
                i <= self.entries@.len(),
                k@ == key@,
                keyed_map(kept@) == keyed_map(self.entries@.subrange(0, i as int)).remove(key@),
            decreases self.entries@.len() - i,
        {
            let ghost p = self.entries@.subrange(0, i + 1);
            assert(p.drop_last() =~= self.entries@.subrange(0, i as int));
            assert(p.last() == self.entries@[i as int]);
            if self.entries[i].0 == k {
                assert(keyed_map(p).remove(key@) =~= keyed_map(p.drop_last()).remove(key@));
            } else {
                let pair = (self.entries[i].0.clone(), self.entries[i].1);
                let ghost old_kept = kept@;
                kept.push(pair);
                assert(kept@.drop_last() =~= old_kept);
                assert(keyed_map(kept@) =~= keyed_map(p).remove(key@));
            }
            i = i + 1;
        }
        assert(self.entries@.subrange(0, self.entries@.len() as int) =~= self.entries@);
        self.entries = kept;
        was
    }

    /// Stores `value` under `key`, replacing any previous value.
    pub fn insert(&mut self, key: &str, value: V)
        ensures
            final(self)@ == old(self)@.insert(key@, value),
    {
        self.remove(key);
        let ghost mid = self.entries@;
        self.entries.push((String::from_str(key), value));
        assert(self.entries@.drop_last() =~= mid);
        assert(keyed_map(self.entries@) =~= old(self)@.insert(key@, value));
    }
}

} // verus!
