//! Expansion of a directory into the files to transfer: a depth-first walk over
//! directory listings (the listing itself is the caller's I/O), collecting
//! `(path, relative name)` pairs, sorted at the end.

use vstd::prelude::*;

use super::paths::{join_relative, join_walk_child, walk_child, walk_relative};
use crate::text::{
    chars_of, lemma_seq_less_irreflexive, lemma_seq_less_total, lemma_seq_less_transitive,
    push_range, seq_less, str_less, strip_trailing, strip_trailing_len,
};

verus! {

broadcast use vstd::seq_lib::group_to_multiset_ensures;

/// A `(path, relative name)` pair as text.
pub type PairView = (Seq<char>, Seq<char>);

/// The views of a list of pairs.
pub open spec fn pairs_view(s: Seq<(String, String)>) -> Seq<PairView> {
    s.map_values(|p: (String, String)| (p.0@, p.1@))
}

/// Lexicographic order of pairs: by path, then by relative name.
pub open spec fn pair_less(a: PairView, b: PairView) -> bool {
    seq_less(a.0, b.0) || (a.0 == b.0 && seq_less(a.1, b.1))
}

/// Non-decreasing under `pair_less`.
pub open spec fn sorted_pairs(s: Seq<PairView>) -> bool {
    forall|i: int, j: int| 0 <= i < j < s.len() ==> !pair_less(#[trigger] s[j], #[trigger] s[i])
}

/// The pairs a listing of `dir` (walked under `prefix`) adds: the
/// subdirectories with `dirs`, the other entries without.
pub open spec fn listed(dir: Seq<char>, prefix: Seq<char>, entries: Seq<(String, bool)>, dirs: bool) -> Seq<
    PairView,
>
    decreases entries.len(),
{
    if entries.len() == 0 {
        Seq::empty()
    } else {
        let rest = listed(dir, prefix, entries.drop_last(), dirs);
        let e = entries.last();
        if e.1 == dirs {
            rest.push((walk_child(dir, e.0@), walk_relative(prefix, e.0@)))
        } else {
            rest
        }
    }
}

/// `pair_less` is a strict total order.
pub proof fn lemma_pair_order(a: PairView, b: PairView, c: PairView)
    ensures
        !pair_less(a, a),
        pair_less(a, b) && pair_less(b, c) ==> pair_less(a, c),
        pair_less(a, b) || a == b || pair_less(b, a),
{
    lemma_seq_less_irreflexive(a.0);
    lemma_seq_less_irreflexive(a.1);
    lemma_seq_less_total(a.0, b.0);
    lemma_seq_less_total(a.1, b.1);
    if pair_less(a, b) && pair_less(b, c) {
        if seq_less(a.0, b.0) && seq_less(b.0, c.0) {
            lemma_seq_less_transitive(a.0, b.0, c.0);
        }
        if a.0 == b.0 && b.0 == c.0 {
            lemma_seq_less_transitive(a.1, b.1, c.1);
        }
    }
}

/// `a` sorts strictly before `b`.
fn pair_less_exec(a: &(String, String), b: &(String, String)) -> (r: bool)
    ensures
        r == pair_less((a.0@, a.1@), (b.0@, b.1@)),
{
    if str_less(a.0.as_str(), b.0.as_str()) {
        true
    } else if a.0 == b.0 {
        str_less(a.1.as_str(), b.1.as_str())
    } else {
        false
    }
}

/// A copy of a pair.
fn copy_pair(p: &(String, String)) -> (r: (String, String))
    ensures
        r.0@ == p.0@,
        r.1@ == p.1@,
{
    (p.0.clone(), p.1.clone())
}

/// The pairs of `v`, sorted by path then relative name.
pub fn sort_pairs(v: &Vec<(String, String)>) -> (r: Vec<(String, String)>)
    ensures
        sorted_pairs(pairs_view(r@)),
        pairs_view(r@).to_multiset() == pairs_view(v@).to_multiset(),
{
    let ghost s = pairs_view(v@);
    let mut res: Vec<(String, String)> = Vec::new();
    let mut i: usize = 0;
    assert(s.take(0) =~= Seq::<PairView>::empty());
    assert(pairs_view(res@) =~= Seq::<PairView>::empty());
    while i < v.len()
        invariant
            i <= v@.len(),
            s == pairs_view(v@),
            sorted_pairs(pairs_view(res@)),
            pairs_view(res@).to_multiset() == s.take(i as int).to_multiset(),
        decreases v@.len() - i,
    {
        let x = copy_pair(&v[i]);
        let ghost xv = (x.0@, x.1@);
        let ghost r0 = pairs_view(res@);
        let mut k: usize = 0;
        while k < res.len() && pair_less_exec(&res[k], &x)
            invariant
                k <= res@.len(),
                r0 == pairs_view(res@),
                xv == (x.0@, x.1@),
                forall|q: int| 0 <= q < k ==> pair_less(#[trigger] r0[q], xv),
            decreases res@.len() - k,
        {
            k = k + 1;
        }
        res.insert(k, x);
        proof {
            let r1 = pairs_view(res@);
            assert(r1 =~= r0.insert(k as int, xv));
            assert forall|a: int, b: int| 0 <= a < b < r1.len() implies !pair_less(
                #[trigger] r1[b],
                #[trigger] r1[a],
            ) by {
                if b == k {
                    lemma_pair_order(r1[a], xv, r1[a]);
                    lemma_pair_order(xv, r1[a], xv);
                } else if a == k {
                    let y = r0[b - 1];
                    let z = r0[k as int];
                    lemma_pair_order(y, xv, z);
                    lemma_pair_order(z, y, xv);
                    lemma_pair_order(y, z, xv);
                    if k + 1 < b {
                        assert(!pair_less(y, z));
                    }
                } else if a < k && b < k {
                    assert(r1[a] == r0[a] && r1[b] == r0[b]);
                } else if a < k {
                    assert(r1[a] == r0[a] && r1[b] == r0[b - 1]);
                } else {
                    assert(r1[a] == r0[a - 1] && r1[b] == r0[b - 1]);
                }
            }
            vstd::seq_lib::to_multiset_insert(r0, k as int, xv);
            assert(s.take(i + 1) =~= s.take(i as int).push(xv));
            vstd::seq_lib::to_multiset_build(s.take(i as int), xv);
        }
        i = i + 1;
    }
    assert(s.take(v@.len() as int) =~= s);
    res
}

/// The state of a walk: directories still to list, files found so far.
pub struct Walk {
    stack: Vec<(String, String)>,
    files: Vec<(String, String)>,
}

impl Walk {
    /// Directories still to list, as `(path, relative name)`.
    pub closed spec fn pending(&self) -> Seq<PairView> {
        pairs_view(self.stack@)
    }

    /// Files found so far, as `(path, relative name)`.
    pub closed spec fn found(&self) -> Seq<PairView> {
        pairs_view(self.files@)
    }

    /// A walk of the directory `root` (trailing slashes dropped), which has the
    /// empty relative name.
    pub fn new(root: &str) -> (w: Self)
        ensures
            w.pending() == seq![(strip_trailing(root@, '/'), Seq::<char>::empty())],
            w.found() == Seq::<PairView>::empty(),
    {
        let v = chars_of(root);
        let k = strip_trailing_len(&v, v.len(), '/');
        assert(v@.subrange(0, v@.len() as int) =~= v@);
        let mut dir = String::new();
        push_range(&mut dir, &v, 0, k);
        let mut stack: Vec<(String, String)> = Vec::new();
        stack.push((dir, String::new()));
        let w = Walk { stack, files: Vec::new() };
        assert(w.pending() =~= seq![(strip_trailing(root@, '/'), Seq::<char>::empty())]);
        assert(w.found() =~= Seq::<PairView>::empty());
        w
    }

    /// The next directory to list (the one added last), if any.
    pub fn next_dir(&mut self) -> (r: Option<(String, String)>)
        ensures
            old(self).pending().len() == 0 ==> r is None && final(self).pending() == old(
                self,
            ).pending(),
            old(self).pending().len() > 0 ==> r is Some && (r.unwrap().0@, r.unwrap().1@) == old(
                self,
            ).pending().last() && final(self).pending() == old(self).pending().drop_last(),
            final(self).found() == old(self).found(),
    {
        let r = self.stack.pop();
        proof {
            if old(self).stack@.len() > 0 {
                assert(pairs_view(self.stack@) =~= old(self).pending().drop_last());
            }
        }
        r
    }

    /// Takes in the listing of `dir` (walked under `prefix`): subdirectories
    /// are added to the pending ones, other entries to the files, in listing
    /// order.
    pub fn absorb(&mut self, dir: &str, prefix: &str, entries: &Vec<(String, bool)>)
        ensures
            final(self).pending() == old(self).pending() + listed(dir@, prefix@, entries@, true),
            final(self).found() == old(self).found() + listed(dir@, prefix@, entries@, false),
    {
        let mut i: usize = 0;
        assert(entries@.subrange(0, 0) =~= Seq::<(String, bool)>::empty());
        assert(old(self).pending() + Seq::<PairView>::empty() =~= old(self).pending());
        assert(old(self).found() + Seq::<PairView>::empty() =~= old(self).found());
        while i < entries.len()
            invariant
                i <= entries@.len(),
                self.pending() == old(self).pending() + listed(
                    dir@,
                    prefix@,
                    entries@.subrange(0, i as int),
                    true,
                ),
                self.found() == old(self).found() + listed(
                    dir@,
                    prefix@,
                    entries@.subrange(0, i as int),
                    false,
                ),
            decreases entries@.len() - i,
        {
            let ghost p = entries@.subrange(0, i + 1);
            assert(p.drop_last() =~= entries@.subrange(0, i as int));
            assert(p.last() == entries@[i as int]);
            let child = join_walk_child(dir, entries[i].0.as_str());
            let relative = join_relative(prefix, entries[i].0.as_str());
            if entries[i].1 {
                let ghost before = self.stack@;
                self.stack.push((child, relative));
                assert(pairs_view(self.stack@) =~= pairs_view(before).push(
                    (walk_child(dir@, entries@[i as int].0@), walk_relative(prefix@, entries@[i as int].0@)),
                ));
            } else {
                let ghost before = self.files@;
                self.files.push((child, relative));
                assert(pairs_view(self.files@) =~= pairs_view(before).push(
                    (walk_child(dir@, entries@[i as int].0@), walk_relative(prefix@, entries@[i as int].0@)),
                ));
            }
            i = i + 1;
        }
        assert(entries@.subrange(0, entries@.len() as int) =~= entries@);
    }

    /// The files found, sorted by path then relative name.
    pub fn finish(&self) -> (r: Vec<(String, String)>)
        ensures
            sorted_pairs(pairs_view(r@)),
            pairs_view(r@).to_multiset() == self.found().to_multiset(),
    {
        sort_pairs(&self.files)
    }
}

} // verus!
