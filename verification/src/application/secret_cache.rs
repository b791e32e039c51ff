//! A small key → secret table held in memory.

use vstd::prelude::*;

verus! {

/// The map a list of key/secret pairs stands for; a later pair wins.
pub open spec fn pairs_map(s: Seq<(String, String)>) -> Map<Seq<char>, Seq<char>>
    decreases s.len(),
{
    if s.len() == 0 {
        Map::empty()
    } else {
        pairs_map(s.drop_last()).insert(s.last().0@, s.last().1@)
    }
}

/// Secrets kept in memory, keyed by reference key.
pub struct SecretCache {
    entries: Vec<(String, String)>,
}

impl View for SecretCache {
    type V = Map<Seq<char>, Seq<char>>;

    closed spec fn view(&self) -> Map<Seq<char>, Seq<char>> {
        pairs_map(self.entries@)
    }
}

impl SecretCache {
    /// An empty table.
    pub fn new() -> (c: Self)
        ensures
            c@ == Map::<Seq<char>, Seq<char>>::empty(),
    {
        SecretCache { entries: Vec::new() }
    }

    /// The secret under `key`, if any.
    pub fn get(&self, key: &str) -> (r: Option<String>)
        ensures
            r matches Some(v) ==> self@.contains_key(key@) && v@ == self@[key@],
            r is None ==> !self@.contains_key(key@),
    {
        let k = String::from_str(key);
        let mut i = self.entries.len();
        assert(self.entries@.subrange(0, i as int) =~= self.entries@);
        while i > 0
            invariant
                i <= self.entries@.len(),
                k@ == key@,
                pairs_map(self.entries@).contains_key(key@) == pairs_map(
                    self.entries@.subrange(0, i as int),
                ).contains_key(key@),
                pairs_map(self.entries@).contains_key(key@) ==> pairs_map(self.entries@)[key@]
                    == pairs_map(self.entries@.subrange(0, i as int))[key@],
            decreases i,
        {
            let ghost p = self.entries@.subrange(0, i as int);
            assert(p.drop_last() =~= self.entries@.subrange(0, i - 1));
            assert(p.last() == self.entries@[i - 1]);
            if self.entries[i - 1].0 == k {
                return Some(self.entries[i - 1].1.clone());
            }
            i = i - 1;
        }
        None
    }

    /// Removes the secret under `key` (absent keys are fine).
    pub fn remove(&mut self, key: &str)
        ensures
            final(self)@ == old(self)@.remove(key@),
    {
        let k = String::from_str(key);
        let mut kept: Vec<(String, String)> = Vec::new();
        let mut i: usize = 0;
        while i < self.entries.len()
            invariant
                i <= self.entries@.len(),
                k@ == key@,
                pairs_map(kept@) == pairs_map(self.entries@.subrange(0, i as int)).remove(key@),
            decreases self.entries@.len() - i,
        {
            let ghost p = self.entries@.subrange(0, i + 1);
            assert(p.drop_last() =~= self.entries@.subrange(0, i as int));
            assert(p.last() == self.entries@[i as int]);
            if self.entries[i].0 == k {
                assert(pairs_map(p).remove(key@) =~= pairs_map(p.drop_last()).remove(key@));
            } else {
                let pair = (self.entries[i].0.clone(), self.entries[i].1.clone());
                let ghost old_kept = kept@;
                kept.push(pair);
                assert(kept@.drop_last() =~= old_kept);
                assert(pairs_map(kept@) =~= pairs_map(p).remove(key@));
            }
            i = i + 1;
        }
        assert(self.entries@.subrange(0, self.entries@.len() as int) =~= self.entries@);
        self.entries = kept;
    }

    /// Stores `value` under `key`, replacing any previous secret.
    pub fn insert(&mut self, key: &str, value: &str)
        ensures
            final(self)@ == old(self)@.insert(key@, value@),
    {
        self.remove(key);
        let ghost mid = self.entries@;
        self.entries.push((String::from_str(key), String::from_str(value)));
        assert(self.entries@.drop_last() =~= mid);
        assert(pairs_map(self.entries@) =~= old(self)@.insert(key@, value@));
    }
}

} // verus!
