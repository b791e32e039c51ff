//! JSON values as the settings patch sees them, and the deep merge of a patch
//! into the current settings: objects merge member by member, anything else
//! is replaced whole.

use vstd::prelude::*;

verus! {

/// A JSON value: an object's members in order, or any other value carried as
/// its JSON text.
#[derive(Debug, PartialEq, Eq)]
pub enum JsonTree {
    /// An object.
    Object(Vec<JsonMember>),
    /// A value that is not an object, as JSON text.
    Other(String),
}

/// One member of an object.
#[derive(Debug, PartialEq, Eq)]
pub struct JsonMember {
    /// The member's name.
    pub key: String,
    /// The member's value.
    pub value: JsonTree,
}

/// A JSON value as the contracts see it.
pub enum JsonModel {
    Object(Seq<(Seq<char>, JsonModel)>),
    Other(Seq<char>),
}

/// The model of a value.
pub open spec fn model_of(t: JsonTree) -> JsonModel
    decreases t, 0int,
{
    match t {
        JsonTree::Object(ms) => JsonModel::Object(members_model(ms, ms.len() as int)),
        JsonTree::Other(text) => JsonModel::Other(text@),
    }
}

/// The model of the first `n` members.
pub open spec fn members_model(ms: Vec<JsonMember>, n: int) -> Seq<(Seq<char>, JsonModel)>
    decreases ms, n,
{
    if 0 < n <= ms.len() {
        members_model(ms, n - 1).push((ms[n - 1].key@, model_of(ms[n - 1].value)))
    } else {
        Seq::empty()
    }
}

/// Where the first member named `k` stands, if any.
pub open spec fn key_index(s: Seq<(Seq<char>, JsonModel)>, k: Seq<char>) -> Option<int>
    decreases s.len(),
{
    if s.len() == 0 {
        None
    } else {
        match key_index(s.drop_last(), k) {
            Some(i) => Some(i),
            None => if s.last().0 == k {
                Some(s.len() - 1)
            } else {
                None
            },
        }
    }
}

/// `patch` merged into `base`: two objects merge member by member, anything
/// else gives `patch`.
pub open spec fn merge_model(base: JsonModel, patch: JsonModel) -> JsonModel
    decreases patch, 0int,
{
    match base {
        JsonModel::Object(bm) => match patch {
            JsonModel::Object(pm) => JsonModel::Object(merge_members(bm, pm, pm.len() as int)),
            JsonModel::Other(_) => patch,
        },
        JsonModel::Other(_) => patch,
    }
}

/// One patch member `(k, v)` merged into the members `acc`: a member named `k`
/// takes `v` (merged into it where both are objects); otherwise `(k, v)` is
/// added at the end.
pub open spec fn merge_member(
    acc: Seq<(Seq<char>, JsonModel)>,
    k: Seq<char>,
    v: JsonModel,
    merged: JsonModel,
) -> Seq<(Seq<char>, JsonModel)> {
    match key_index(acc, k) {
        Some(i) => acc.update(i, (k, merged)),
        None => acc.push((k, v)),
    }
}

/// The first `n` patch members merged into `bm`, one after the other.
pub open spec fn merge_members(
    bm: Seq<(Seq<char>, JsonModel)>,
    pm: Seq<(Seq<char>, JsonModel)>,
    n: int,
) -> Seq<(Seq<char>, JsonModel)>
    decreases pm, n,
{
    if 0 < n <= pm.len() {
        let acc = merge_members(bm, pm, n - 1);
        let k = pm[n - 1].0;
        let v = pm[n - 1].1;
        let merged = match key_index(acc, k) {
            Some(i) => if acc[i].1 is Object && v is Object {
                merge_model(acc[i].1, v)
            } else {
                v
            },
            None => v,
        };
        merge_member(acc, k, v, merged)
    } else {
        bm
    }
}

proof fn lemma_key_index_bounds(s: Seq<(Seq<char>, JsonModel)>, k: Seq<char>)
    ensures
        match key_index(s, k) {
            Some(i) => 0 <= i < s.len() && s[i].0 == k && forall|j: int| 0 <= j < i ==> s[j].0 != k,
            None => forall|j: int| 0 <= j < s.len() ==> s[j].0 != k,
        },
    decreases s.len(),
{
    if s.len() > 0 {
        lemma_key_index_bounds(s.drop_last(), k);
        assert forall|j: int| 0 <= j < s.len() - 1 implies s[j] == s.drop_last()[j] by {}
    }
}

proof fn lemma_key_index_first(s: Seq<(Seq<char>, JsonModel)>, k: Seq<char>, i: int)
    requires
        0 <= i < s.len(),
        s[i].0 == k,
        forall|j: int| 0 <= j < i ==> s[j].0 != k,
    ensures
        key_index(s, k) == Some(i),
    decreases s.len(),
{
    if i < s.len() - 1 {
        lemma_key_index_first(s.drop_last(), k, i);
    } else {
        lemma_key_index_bounds(s.drop_last(), k);
    }
}

proof fn lemma_members_model_len(ms: Vec<JsonMember>, n: int)
    requires
        0 <= n <= ms.len(),
    ensures
        members_model(ms, n).len() == n,
        forall|j: int| 0 <= j < n ==> #[trigger] members_model(ms, n)[j] == (ms[j].key@, model_of(ms[j].value)),
    decreases n,
{
    if n > 0 {
        lemma_members_model_len(ms, n - 1);
    }
}

/// The model of members given as a sequence.
pub open spec fn seq_model(s: Seq<JsonMember>) -> Seq<(Seq<char>, JsonModel)> {
    Seq::new(s.len(), |j: int| (s[j].key@, model_of(s[j].value)))
}

proof fn lemma_object_model(ms: Vec<JsonMember>)
    ensures
        model_of(JsonTree::Object(ms)) == JsonModel::Object(seq_model(ms@)),
{
    lemma_members_model_len(ms, ms.len() as int);
    assert(members_model(ms, ms.len() as int) =~= seq_model(ms@));
}


/// `s` and `t` agree on where a member named `k` stands, and `t` adds none
/// after the end of `s`.
proof fn lemma_key_index_same(s: Seq<(Seq<char>, JsonModel)>, t: Seq<(Seq<char>, JsonModel)>, k: Seq<char>)
    requires
        s.len() <= t.len(),
        forall|j: int| 0 <= j < s.len() ==> (#[trigger] s[j].0 == k) == (t[j].0 == k),
        forall|j: int| s.len() <= j < t.len() ==> #[trigger] t[j].0 != k,
    ensures
        key_index(s, k) == key_index(t, k),
{
    lemma_key_index_bounds(s, k);
    lemma_key_index_bounds(t, k);
    match key_index(s, k) {
        Some(i) => {
            assert forall|j: int| 0 <= j < i implies t[j].0 != k by {
                assert(s[j].0 != k);
            }
            assert(s[i].0 == k);
            lemma_key_index_first(t, k, i);
        },
        None => {
            match key_index(t, k) {
                Some(i) => {
                    assert(t[i].0 == k);
                    if i < s.len() {
                        assert(s[i].0 == k);
                    }
                },
                None => {},
            }
        },
    }
}

proof fn lemma_merge_keeps(
    bm: Seq<(Seq<char>, JsonModel)>,
    pm: Seq<(Seq<char>, JsonModel)>,
    n: int,
    k: Seq<char>,
)
    requires
        0 <= n <= pm.len(),
        forall|j: int| 0 <= j < pm.len() ==> #[trigger] pm[j].0 != k,
    ensures
        merge_members(bm, pm, n).len() >= bm.len(),
        key_index(merge_members(bm, pm, n), k) == key_index(bm, k),
        forall|i: int| 0 <= i < bm.len() && bm[i].0 == k ==> #[trigger] merge_members(bm, pm, n)[i] == bm[i],
    decreases n,
{
    if n > 0 {
        lemma_merge_keeps(bm, pm, n - 1, k);
        let acc = merge_members(bm, pm, n - 1);
        let kk = pm[n - 1].0;
        let v = pm[n - 1].1;
        assert(kk != k);
        let out = merge_members(bm, pm, n);
        lemma_key_index_bounds(acc, kk);
        match key_index(acc, kk) {
            Some(i) => {
                assert(out.len() == acc.len());
                assert forall|j: int| 0 <= j < acc.len() implies (#[trigger] acc[j].0 == k) == (out[j].0 == k) by {
                    if j == i {
                        assert(out[j].0 == kk);
                    }
                }
                lemma_key_index_same(acc, out, k);
            },
            None => {
                assert(out == acc.push((kk, v)));
                assert forall|j: int| 0 <= j < acc.len() implies (#[trigger] acc[j].0 == k) == (out[j].0 == k) by {}
                lemma_key_index_same(acc, out, k);
            },
        }
    }
}

/// Law: a deep merge keeps what the patch does not name. When both are
/// objects and no member of the patch is named `k`, the member named `k`
/// stands where it stood and holds what it held, and a base without one gets
/// none.
pub proof fn law_merge_keeps_unpatched_members(
    bm: Seq<(Seq<char>, JsonModel)>,
    pm: Seq<(Seq<char>, JsonModel)>,
    k: Seq<char>,
)
    requires
        key_index(pm, k) is None,
    ensures
        merge_model(JsonModel::Object(bm), JsonModel::Object(pm)) matches JsonModel::Object(out)
            && key_index(out, k) == key_index(bm, k)
            && (key_index(bm, k) matches Some(i) ==> out[i] == bm[i]),
{
    lemma_key_index_bounds(pm, k);
    lemma_key_index_bounds(bm, k);
    lemma_merge_keeps(bm, pm, pm.len() as int, k);
}

/// Finds the first member named `key`.
fn find_key(ms: &Vec<JsonMember>, key: &String) -> (r: Option<usize>)
    ensures
        match r {
            Some(i) => key_index(seq_model(ms@), key@) == Some(i as int),
            None => key_index(seq_model(ms@), key@) is None,
        },
{
    let ghost s = seq_model(ms@);
    let mut i: usize = 0;
    while i < ms.len()
        invariant
            i <= ms.len(),
            s == seq_model(ms@),
            forall|j: int| 0 <= j < i ==> s[j].0 != key@,
        decreases ms.len() - i,
    {
        if ms[i].key == *key {
            proof {
                lemma_key_index_first(s, key@, i as int);
            }
            return Some(i);
        }
        i = i + 1;
    }
    proof {
        lemma_key_index_bounds(s, key@);
        if key_index(s, key@) is Some {
            let q = key_index(s, key@)->0;
            assert(s[q].0 == key@);
        }
    }
    None
}

/// Deep-merges `patch` into `base`: where both are objects, each member of
/// the patch replaces the base member of the same name (merging into it when
/// both are objects) or is added at the end; otherwise the patch replaces the
/// base whole.
pub fn merge_objects(base: JsonTree, patch: JsonTree) -> (r: JsonTree)
    ensures
        model_of(r) == merge_model(model_of(base), model_of(patch)),
    decreases patch,
{
    match base {
        JsonTree::Object(bm) => match patch {
            JsonTree::Object(pm) => {
                let ghost pm0 = pm;
                let ghost bs = seq_model(bm@);
                let ghost ps = seq_model(pm@);
                proof {
                    lemma_object_model(bm);
                    lemma_object_model(pm);
                }
                let mut acc = bm;
                let mut rest = pm;
                let mut n: usize = 0;
                let total = rest.len();
                while rest.len() > 0
                    invariant
                        total == pm0@.len(),
                        n + rest@.len() == pm0@.len(),
                        rest@ == pm0@.subrange(n as int, pm0@.len() as int),
                        ps == seq_model(pm0@),
                        seq_model(acc@) == merge_members(bs, ps, n as int),
                        patch == JsonTree::Object(pm0),
                    decreases rest@.len(),
                {
                    let member = rest.remove(0);
                    proof {
                        assert(member == pm0@[n as int]);
                        assert(ps[n as int] == (member.key@, model_of(member.value)));
                    }
                    let ghost before = seq_model(acc@);
                    let JsonMember { key, value } = member;
                    let found = find_key(&acc, &key);
                    proof {
                        lemma_key_index_bounds(before, key@);
                    }
                    match found {
                        Some(i) => {
                            let old_member = acc.remove(i);
                            let JsonMember { key: _, value: old_value } = old_member;
                            let both = match (&old_value, &value) {
                                (JsonTree::Object(_), JsonTree::Object(_)) => true,
                                _ => false,
                            };
                            let new_value = if both {
                                proof {
                                    assert(decreases_to!(patch => patch->Object_0));
                                    assert(patch->Object_0 == pm0);
                                    assert(decreases_to!(pm0 => pm0[n as int]));
                                    assert(decreases_to!(pm0[n as int] => pm0[n as int].value));
                                    assert(value == pm0[n as int].value);
                                }
                                merge_objects(old_value, value)
                            } else {
                                value
                            };
                            acc.insert(i, JsonMember { key, value: new_value });
                            proof {
                                assert(seq_model(acc@) =~= merge_members(bs, ps, n + 1));
                            }
                        },
                        None => {
                            acc.push(JsonMember { key, value });
                            proof {
                                assert(seq_model(acc@) =~= merge_members(bs, ps, n + 1));
                            }
                        },
                    }
                    n = n + 1;
                    proof {
                        assert(rest@ =~= pm0@.subrange(n as int, pm0@.len() as int));
                    }
                }
                proof {
                    lemma_object_model(acc);
                }
                JsonTree::Object(acc)
            },
            JsonTree::Other(text) => JsonTree::Other(text),
        },
        JsonTree::Other(_) => patch,
    }
}

} // verus!
