//! What holds of connection management across its operations: credentials are
//! found again as they were kept, positions go after the siblings, and groups
//! never nest more than one level.

use vstd::prelude::*;

use super::credentials::{apply_model, ref_key, resolved, SecretKind};
use super::groups::{
    apply_conn_updates, apply_group_updates, create_group_error, move_group_error, rehome_conns,
    rehome_groups,
};
use super::tree::{conns_in, groups_in, ins_pos, key_less, sort_siblings, Sibling};
use crate::text::{lemma_seq_less_irreflexive, lemma_seq_less_total, lemma_seq_less_transitive};
use super::{duplicate_of, max_conn_pos, max_group_pos, next_pos, CredentialInput, SecretState};
use crate::application::ports::{find_group, replace_conn, replace_group, SecretSaveMode};
use crate::domain::connection::{opt_gid, ConnConfig, GroupId};
use crate::domain::group::Group;

verus! {

/// A credential kept in the keychain is found again under its reference key,
/// which the connection records.
pub proof fn law_keyring_secret_round_trip(
    st: SecretState,
    key: Seq<char>,
    input: CredentialInput,
    existing: Option<Seq<char>>,
)
    requires
        input.save == SecretSaveMode::Keyring,
    ensures
        resolved(apply_model(st, key, Some(input), existing).0, key) == Some(input.value@),
        apply_model(st, key, Some(input), existing).1 == Some(key),
{
}

/// A credential kept for the session only is found again, and the connection
/// records no reference — unless a keychain copy under the same key is left
/// that no reference points to (then that copy is found first).
pub proof fn law_session_secret_resolvable(
    st: SecretState,
    key: Seq<char>,
    input: CredentialInput,
    existing: Option<Seq<char>>,
)
    requires
        input.save == SecretSaveMode::Session,
        existing is Some || !st.persist.contains_key(key),
    ensures
        resolved(apply_model(st, key, Some(input), existing).0, key) == Some(input.value@),
        apply_model(st, key, Some(input), existing).1 is None,
{
}

/// No credential input keeps the tables and the recorded reference as they are.
pub proof fn law_absent_input_keeps(st: SecretState, key: Seq<char>, existing: Option<Seq<char>>)
    ensures
        apply_model(st, key, None, existing) == (st, existing),
{
}

/// "Never save" leaves nothing to find and no reference.
pub proof fn law_never_clears(
    st: SecretState,
    key: Seq<char>,
    input: CredentialInput,
    existing: Option<Seq<char>>,
)
    requires
        input.save == SecretSaveMode::Never,
    ensures
        resolved(apply_model(st, key, Some(input), existing).0, key) is None,
        apply_model(st, key, Some(input), existing).1 is None,
{
}

/// Reference keys never collide: two equal keys belong to the same connection
/// and the same kind of credential.
pub proof fn law_reference_keys_distinct(a: Seq<char>, ka: SecretKind, b: Seq<char>, kb: SecretKind)
    requires
        ref_key(a, ka) == ref_key(b, kb),
    ensures
        a == b,
        ka == kb,
{
    reveal_strlit("conn:");
    reveal_strlit(":password");
    reveal_strlit(":passphrase");
    let x = ref_key(a, ka);
    if ka != kb {
        // The two suffixes end in different letters at the same place.
        let n = x.len();
        if ka == SecretKind::Password {
            assert(x[n - 1] == 'd');
            assert(ref_key(b, kb)[n - 1] == 'e');
        } else {
            assert(x[n - 1] == 'e');
            assert(ref_key(b, kb)[n - 1] == 'd');
        }
    } else {
        let sfx = if ka == SecretKind::Password {
            ":password"@
        } else {
            ":passphrase"@
        };
        assert(x == "conn:"@ + a + sfx);
        assert(ref_key(b, kb) == "conn:"@ + b + sfx);
        assert("conn:"@.len() == 5);
        assert(x.len() == 5 + a.len() + sfx.len());
        assert(ref_key(b, kb).len() == 5 + b.len() + sfx.len());
        assert(a.len() == b.len());
        assert forall|i: int| 0 <= i < a.len() implies a[i] == b[i] by {
            assert(x[5 + i] == a[i]);
            assert(ref_key(b, kb)[5 + i] == b[i]);
        }
        assert(a =~= b);
    }
}

/// Every connection in a scope sits before the scope's largest position.
pub proof fn lemma_max_conn_pos(s: Seq<ConnConfig>, scope: Option<Seq<char>>, i: int)
    requires
        0 <= i < s.len(),
        opt_gid(s[i].group_id) == scope,
    ensures
        s[i].position <= max_conn_pos(s, scope),
    decreases s.len(),
{
    if i < s.len() - 1 {
        lemma_max_conn_pos(s.drop_last(), scope, i);
    }
}

/// Every group in a scope sits before the scope's largest position.
pub proof fn lemma_max_group_pos(s: Seq<Group>, scope: Option<Seq<char>>, i: int)
    requires
        0 <= i < s.len(),
        opt_gid(s[i].parent_id) == scope,
    ensures
        s[i].position <= max_group_pos(s, scope),
    decreases s.len(),
{
    if i < s.len() - 1 {
        lemma_max_group_pos(s.drop_last(), scope, i);
    }
}

/// A new connection or group goes after every connection and group already in
/// its scope.
pub proof fn law_next_position_after_siblings(
    conns: Seq<ConnConfig>,
    groups: Seq<Group>,
    scope: Option<Seq<char>>,
)
    ensures
        forall|i: int|
            0 <= i < conns.len() && opt_gid(#[trigger] conns[i].group_id) == scope
                ==> conns[i].position < next_pos(conns, groups, scope),
        forall|i: int|
            0 <= i < groups.len() && opt_gid(#[trigger] groups[i].parent_id) == scope
                ==> groups[i].position < next_pos(conns, groups, scope),
        next_pos(conns, groups, scope) >= 0,
{
    assert forall|i: int|
        0 <= i < conns.len() && opt_gid(#[trigger] conns[i].group_id) == scope implies conns[i].position
        < next_pos(conns, groups, scope) by {
        lemma_max_conn_pos(conns, scope, i);
    }
    assert forall|i: int|
        0 <= i < groups.len() && opt_gid(#[trigger] groups[i].parent_id) == scope implies groups[i].position
        < next_pos(conns, groups, scope) by {
        lemma_max_group_pos(groups, scope, i);
    }
    lemma_max_pos_floor(conns, groups, scope);
}

/// The largest positions are never below -1.
proof fn lemma_max_pos_floor(conns: Seq<ConnConfig>, groups: Seq<Group>, scope: Option<Seq<char>>)
    ensures
        max_conn_pos(conns, scope) >= -1,
        max_group_pos(groups, scope) >= -1,
    decreases conns.len() + groups.len(),
{
    if conns.len() > 0 {
        lemma_max_pos_floor(conns.drop_last(), groups, scope);
    }
    if groups.len() > 0 {
        lemma_max_pos_floor(conns, groups.drop_last(), scope);
    }
}

/// No two groups share an identity.
pub open spec fn unique_group_ids(gs: Seq<Group>) -> bool {
    forall|i: int, j: int|
        0 <= i < gs.len() && 0 <= j < gs.len() && i != j ==> gs[i].id@ != gs[j].id@
}

/// Every parent a group names is a stored group.
pub open spec fn parents_exist(gs: Seq<Group>) -> bool {
    forall|i: int|
        0 <= i < gs.len() && #[trigger] gs[i].parent_id is Some ==> exists|j: int|
            0 <= j < gs.len() && gs[j].id@ == gs[i].parent_id->0@
}

/// Groups nest at most one level: every group that is a parent is at the root.
pub open spec fn one_level(gs: Seq<Group>) -> bool {
    forall|i: int, j: int|
        0 <= i < gs.len() && 0 <= j < gs.len() && #[trigger] gs[i].parent_id is Some
            && #[trigger] gs[j].id@ == gs[i].parent_id->0@ ==> gs[j].parent_id is None
}

/// A found group is one of the stored groups.
pub proof fn lemma_found_group_stored(s: Seq<Group>, id: Seq<char>)
    ensures
        find_group(s, id) matches Some(g) ==> exists|j: int| 0 <= j < s.len() && s[j] == g,
        find_group(s, id) is None ==> forall|j: int| 0 <= j < s.len() ==> s[j].id@ != id,
    decreases s.len(),
{
    if s.len() > 0 && s[0].id@ != id {
        lemma_found_group_stored(s.drop_first(), id);
        if find_group(s.drop_first(), id) is Some {
            let j = choose|j: int|
                0 <= j < s.drop_first().len() && s.drop_first()[j] == find_group(
                    s.drop_first(),
                    id,
                )->0;
            assert(s[j + 1] == s.drop_first()[j]);
        } else {
            assert forall|j: int| 0 <= j < s.len() implies s[j].id@ != id by {
                if j > 0 {
                    assert(s[j] == s.drop_first()[j - 1]);
                }
            }
        }
    }
    if s.len() > 0 && s[0].id@ == id {
        assert(s[0] == find_group(s, id)->0);
    }
}

/// No group lies under a scope that holds no group.
pub proof fn lemma_groups_in_empty(s: Seq<Group>, scope: Option<Seq<char>>)
    requires
        groups_in(s, scope).len() == 0,
    ensures
        forall|i: int| 0 <= i < s.len() ==> opt_gid(#[trigger] s[i].parent_id) != scope,
    decreases s.len(),
{
    if s.len() > 0 {
        if opt_gid(s.last().parent_id) == scope {
            assert(groups_in(s, scope).len() == groups_in(s.drop_last(), scope).len() + 1);
        } else {
            lemma_groups_in_empty(s.drop_last(), scope);
            assert forall|i: int| 0 <= i < s.len() implies opt_gid(#[trigger] s[i].parent_id)
                != scope by {
                if i < s.len() - 1 {
                    assert(s[i] == s.drop_last()[i]);
                }
            }
        }
    }
}

/// Creating a group where creation is allowed keeps groups one level deep
/// (with its fresh identity, the stored groups stay uniquely named and every
/// parent stays stored).
pub proof fn law_create_group_keeps_one_level(gs: Seq<Group>, parent: Option<GroupId>, g: Group)
    requires
        unique_group_ids(gs),
        parents_exist(gs),
        one_level(gs),
        create_group_error(gs, parent) is None,
        g.parent_id == parent,
        forall|j: int| 0 <= j < gs.len() ==> gs[j].id@ != g.id@,
    ensures
        unique_group_ids(gs.push(g)),
        parents_exist(gs.push(g)),
        one_level(gs.push(g)),
{
    let ns = gs.push(g);
    assert forall|i: int|
        0 <= i < ns.len() && #[trigger] ns[i].parent_id is Some implies exists|j: int|
            0 <= j < ns.len() && ns[j].id@ == ns[i].parent_id->0@ by {
        if i < gs.len() {
            assert(ns[i] == gs[i]);
            let j = choose|j: int| 0 <= j < gs.len() && gs[j].id@ == gs[i].parent_id->0@;
            assert(ns[j] == gs[j]);
        } else {
            let p = parent->0;
            lemma_found_group_stored(gs, p@);
            let j = choose|j: int| 0 <= j < gs.len() && gs[j] == find_group(gs, p@)->0;
            crate::application::ports::lemma_find_group(gs, p@);
            assert(ns[j] == gs[j]);
        }
    }
    assert forall|i: int, j: int|
        0 <= i < ns.len() && 0 <= j < ns.len() && #[trigger] ns[i].parent_id is Some
            && #[trigger] ns[j].id@ == ns[i].parent_id->0@ implies ns[j].parent_id is None by {
        let q = ns[i].parent_id->0@;
        if i < gs.len() {
            assert(ns[i] == gs[i]);
            let k = choose|k: int| 0 <= k < gs.len() && gs[k].id@ == gs[i].parent_id->0@;
            if j < gs.len() {
                assert(ns[j] == gs[j]);
            } else {
                assert(gs[k].id@ == g.id@);
            }
        } else {
            let p = parent->0;
            lemma_found_group_stored(gs, p@);
            crate::application::ports::lemma_find_group(gs, p@);
            let k = choose|k: int| 0 <= k < gs.len() && gs[k] == find_group(gs, p@)->0;
            if j < gs.len() {
                assert(ns[j] == gs[j]);
                assert(gs[k].id@ == p@);
                assert(j == k);
            } else {
                assert(gs[k].id@ == g.id@);
            }
        }
    }
}

/// Moving a group where the move is allowed keeps groups one level deep.
pub proof fn law_move_group_keeps_one_level(
    gs: Seq<Group>,
    id: Seq<char>,
    target: Option<GroupId>,
    position: i64,
)
    requires
        unique_group_ids(gs),
        parents_exist(gs),
        one_level(gs),
        move_group_error(gs, id, target) is None,
    ensures
        one_level(
            replace_group(gs, Group { parent_id: target, position, ..find_group(gs, id)->0 }),
        ),
        parents_exist(
            replace_group(gs, Group { parent_id: target, position, ..find_group(gs, id)->0 }),
        ),
        unique_group_ids(
            replace_group(gs, Group { parent_id: target, position, ..find_group(gs, id)->0 }),
        ),
{
    let found = find_group(gs, id)->0;
    crate::application::ports::lemma_find_group(gs, id);
    let moved = Group { parent_id: target, position, ..found };
    let ns = replace_group(gs, moved);
    lemma_groups_in_empty(gs, Some(id));
    assert(moved.id@ == id);
    assert forall|i: int| 0 <= i < ns.len() implies #[trigger] ns[i].id@ == gs[i].id@ by {}
    if target is Some {
        let t = target->0;
        lemma_found_group_stored(gs, t@);
        crate::application::ports::lemma_find_group(gs, t@);
    }
    assert forall|i: int|
        0 <= i < ns.len() && #[trigger] ns[i].parent_id is Some implies exists|j: int|
            0 <= j < ns.len() && ns[j].id@ == ns[i].parent_id->0@ by {
        if gs[i].id@ == id {
            let t = target->0;
            let j = choose|j: int| 0 <= j < gs.len() && gs[j] == find_group(gs, t@)->0;
            assert(ns[j].id@ == gs[j].id@);
        } else {
            let j = choose|j: int| 0 <= j < gs.len() && gs[j].id@ == gs[i].parent_id->0@;
            assert(ns[j].id@ == gs[j].id@);
        }
    }
    assert forall|i: int, j: int|
        0 <= i < ns.len() && 0 <= j < ns.len() && #[trigger] ns[i].parent_id is Some
            && #[trigger] ns[j].id@ == ns[i].parent_id->0@ implies ns[j].parent_id is None by {
        assert(ns[j].id@ == gs[j].id@);
        if gs[i].id@ == id {
            let t = target->0;
            let k = choose|k: int| 0 <= k < gs.len() && gs[k] == find_group(gs, t@)->0;
            assert(gs[k].id@ == t@);
            assert(j == k);
            assert(t@ != id);
        } else {
            assert(ns[i] == gs[i]);
            if gs[j].id@ == id {
                assert(opt_gid(gs[i].parent_id) != Some(id));
            }
        }
    }
}

/// Siblings in `(position, name)` order: no element sorts before an earlier one.
pub open spec fn sorted_siblings<T: Sibling>(s: Seq<T>) -> bool {
    forall|i: int, j: int| 0 <= i < j < s.len() ==> !key_less(#[trigger] s[j], #[trigger] s[i])
}

/// The sibling order is a strict order on keys, total up to equal keys.
pub proof fn lemma_key_order<T: Sibling>(a: T, b: T, c: T)
    ensures
        !key_less(a, a),
        key_less(a, b) && key_less(b, c) ==> key_less(a, c),
        key_less(a, b) || key_less(b, a) || (a.key_position() == b.key_position() && a.key_name()
            == b.key_name()),
        a.key_position() == b.key_position() && a.key_name() == b.key_name() ==> (key_less(a, c)
            == key_less(b, c) && key_less(c, a) == key_less(c, b)),
{
    lemma_seq_less_irreflexive(a.key_name());
    lemma_seq_less_total(a.key_name(), b.key_name());
    if key_less(a, b) && key_less(b, c) {
        if a.key_position() == b.key_position() && b.key_position() == c.key_position() {
            lemma_seq_less_transitive(a.key_name(), b.key_name(), c.key_name());
        }
    }
}

/// Where `ins_pos` puts `x`: after the elements that sort before it, before
/// the first that does not.
pub proof fn lemma_ins_pos<T: Sibling>(t: Seq<T>, x: T)
    ensures
        ins_pos(t, x) <= t.len(),
        forall|i: int| 0 <= i < ins_pos(t, x) ==> key_less(#[trigger] t[i], x),
        ins_pos(t, x) < t.len() ==> !key_less(t[ins_pos(t, x) as int], x),
    decreases t.len(),
{
    if t.len() > 0 && key_less(t[0], x) {
        lemma_ins_pos(t.drop_first(), x);
        assert forall|i: int| 0 <= i < ins_pos(t, x) implies key_less(#[trigger] t[i], x) by {
            if i > 0 {
                assert(t[i] == t.drop_first()[i - 1]);
            }
        }
        if ins_pos(t, x) < t.len() {
            assert(t[ins_pos(t, x) as int] == t.drop_first()[ins_pos(t.drop_first(), x) as int]);
        }
    }
}

/// The sibling sort orders by `(position, name)` and keeps every element.
pub proof fn law_sort_siblings_sorted_permutation<T: Sibling>(s: Seq<T>)
    ensures
        sorted_siblings(sort_siblings(s)),
        sort_siblings(s).to_multiset() == s.to_multiset(),
    decreases s.len(),
{
    broadcast use vstd::seq_lib::group_to_multiset_ensures;

    if s.len() > 0 {
        let rest = s.drop_first();
        law_sort_siblings_sorted_permutation(rest);
        let t = sort_siblings(rest);
        let x = s[0];
        let k = ins_pos(t, x) as int;
        lemma_ins_pos(t, x);
        let r = t.insert(k, x);
        assert(sort_siblings(s) == r);
        assert forall|a: int, b: int| 0 <= a < b < r.len() implies !key_less(
            #[trigger] r[b],
            #[trigger] r[a],
        ) by {
            if b == k {
                lemma_key_order(r[a], x, r[a]);
                lemma_key_order(x, r[a], x);
            } else if a == k {
                let y = t[b - 1];
                let z = t[k];
                lemma_key_order(y, x, z);
                lemma_key_order(z, y, x);
                lemma_key_order(y, z, x);
                lemma_key_order(z, x, y);
                if k + 1 < b {
                    assert(!key_less(y, z));
                }
            } else if a < k && b < k {
                assert(r[a] == t[a] && r[b] == t[b]);
            } else if a < k {
                assert(r[a] == t[a] && r[b] == t[b - 1]);
            } else {
                assert(r[a] == t[a - 1] && r[b] == t[b - 1]);
            }
        }
        vstd::seq_lib::to_multiset_insert(t, k, x);
        vstd::seq_lib::to_multiset_insert(rest, 0, x);
        assert(rest.insert(0, x) =~= s);
    }
}

/// Law: a copy stays where its source is. The duplicate of a connection is in
/// the source's group, under the source's name with "(副本)" appended, with no
/// credential references of its own, and otherwise carries the source's
/// connection settings.
pub proof fn law_duplicate_stays_in_group(c: ConnConfig, s: ConnConfig, position: int)
    requires
        duplicate_of(c, s, position),
    ensures
        c.group_id == s.group_id,
        opt_gid(c.group_id) == opt_gid(s.group_id),
        c.name@ == s.name@ + "(副本)"@,
        c.secret_ref_password is None && c.secret_ref_passphrase is None,
        c.host == s.host && c.port == s.port && c.username == s.username && c.auth == s.auth,
{
}

/// The last of `ups` whose identity is `x`, if any.
pub open spec fn last_with_id(ups: Seq<ConnConfig>, x: Seq<char>) -> Option<ConnConfig>
    decreases ups.len(),
{
    if ups.len() == 0 {
        None
    } else if ups.last().id@ == x {
        Some(ups.last())
    } else {
        last_with_id(ups.drop_last(), x)
    }
}

/// No two connections share an identity.
pub open spec fn distinct_conn_ids(s: Seq<ConnConfig>) -> bool {
    forall|i: int, j: int| 0 <= i < j < s.len() ==> s[i].id@ != s[j].id@
}

proof fn lemma_apply_updates(m: Seq<ConnConfig>, ups: Seq<ConnConfig>)
    ensures
        apply_conn_updates(m, ups).len() == m.len(),
        forall|j: int| 0 <= j < m.len() ==> #[trigger] apply_conn_updates(m, ups)[j] == match last_with_id(
            ups,
            m[j].id@,
        ) {
            Some(u) => u,
            None => m[j],
        },
    decreases ups.len(),
{
    if ups.len() > 0 {
        lemma_apply_updates(m, ups.drop_last());
        let prev = apply_conn_updates(m, ups.drop_last());
        assert forall|j: int| 0 <= j < m.len() implies #[trigger] apply_conn_updates(m, ups)[j] == match last_with_id(
            ups,
            m[j].id@,
        ) {
            Some(u) => u,
            None => m[j],
        } by {
            assert(apply_conn_updates(m, ups) == replace_conn(prev, ups.last()));
            let p = prev[j];
            assert(p == match last_with_id(ups.drop_last(), m[j].id@) {
                Some(u) => u,
                None => m[j],
            });
            lemma_last_with_id_keeps(ups.drop_last(), m[j].id@);
        }
    }
}

proof fn lemma_last_with_id_keeps(ups: Seq<ConnConfig>, x: Seq<char>)
    ensures
        last_with_id(ups, x) matches Some(u) ==> u.id@ == x,
    decreases ups.len(),
{
    if ups.len() > 0 {
        lemma_last_with_id_keeps(ups.drop_last(), x);
    }
}

proof fn lemma_rehomed_last(s: Seq<ConnConfig>, g: Seq<char>, parent: Option<GroupId>, x: Seq<char>)
    requires
        distinct_conn_ids(s),
    ensures
        forall|i: int| 0 <= i < s.len() && s[i].id@ == x ==> last_with_id(
            rehome_conns(conns_in(s, Some(g)), parent),
            x,
        ) == if opt_gid(#[trigger] s[i].group_id) == Some(g) {
            Some(ConnConfig { group_id: parent, ..s[i] })
        } else {
            None
        },
        (forall|i: int| 0 <= i < s.len() ==> #[trigger] s[i].id@ != x) ==> last_with_id(
            rehome_conns(conns_in(s, Some(g)), parent),
            x,
        ) is None,
    decreases s.len(),
{
    if s.len() > 0 {
        let t = s.drop_last();
        let y = s.last();
        assert(distinct_conn_ids(t));
        lemma_rehomed_last(t, g, parent, x);
        let rt = rehome_conns(conns_in(t, Some(g)), parent);
        let rs = rehome_conns(conns_in(s, Some(g)), parent);
        let yy = ConnConfig { group_id: parent, ..y };
        // The last with identity `x` among the updates of `s`.
        let here = if opt_gid(y.group_id) == Some(g) && y.id@ == x {
            Some(yy)
        } else {
            last_with_id(rt, x)
        };
        if opt_gid(y.group_id) == Some(g) {
            assert(conns_in(s, Some(g)) == conns_in(t, Some(g)).push(y));
            assert(rs =~= rt.push(yy));
            assert(rs.drop_last() =~= rt);
            assert(rs.last() == yy);
        } else {
            assert(conns_in(s, Some(g)) == conns_in(t, Some(g)));
            assert(rs == rt);
        }
        assert(last_with_id(rs, x) == here);
        // No earlier connection shares `y`'s identity.
        assert forall|q: int| 0 <= q < t.len() implies #[trigger] t[q].id@ != y.id@ by {
            assert(t[q] == s[q]);
            assert(s[q].id@ != s[s.len() - 1].id@);
        }
        assert forall|i: int| 0 <= i < s.len() && s[i].id@ == x implies last_with_id(rs, x) == if opt_gid(
            #[trigger] s[i].group_id,
        ) == Some(g) {
            Some(ConnConfig { group_id: parent, ..s[i] })
        } else {
            None
        } by {
            if i < s.len() - 1 {
                assert(s[i] == t[i]);
                assert(s[i].id@ != y.id@);
            } else {
                assert(s[i] == y);
                assert(forall|q: int| 0 <= q < t.len() ==> #[trigger] t[q].id@ != x);
            }
        }
        if forall|i: int| 0 <= i < s.len() ==> #[trigger] s[i].id@ != x {
            assert forall|q: int| 0 <= q < t.len() implies #[trigger] t[q].id@ != x by {
                assert(t[q] == s[q]);
            }
            assert(s[s.len() - 1].id@ != x);
        }
    }
}

/// Law: deleting a group with `PromoteChildren` moves its connections to the
/// deleted group's parent. In the connections as `delete_group` leaves them,
/// every connection that was in group `g` is now under `parent` (the deleted
/// group's parent) and otherwise unchanged; every other connection is as it
/// was.
pub proof fn law_promoted_connections_join_the_parent(
    conns: Seq<ConnConfig>,
    g: Seq<char>,
    parent: Option<GroupId>,
)
    requires
        distinct_conn_ids(conns),
    ensures
        ({
            let after = apply_conn_updates(conns, rehome_conns(conns_in(conns, Some(g)), parent));
            &&& after.len() == conns.len()
            &&& forall|k: int|
                0 <= k < conns.len() ==> #[trigger] after[k] == if opt_gid(conns[k].group_id) == Some(g) {
                    ConnConfig { group_id: parent, ..conns[k] }
                } else {
                    conns[k]
                }
        }),
{
    let ups = rehome_conns(conns_in(conns, Some(g)), parent);
    lemma_apply_updates(conns, ups);
    assert forall|k: int| 0 <= k < conns.len() implies #[trigger] apply_conn_updates(conns, ups)[k]
        == if opt_gid(conns[k].group_id) == Some(g) {
        ConnConfig { group_id: parent, ..conns[k] }
    } else {
        conns[k]
    } by {
        lemma_rehomed_last(conns, g, parent, conns[k].id@);
        assert(opt_gid(conns[k].group_id) == opt_gid(conns[k].group_id));
    }
}

/// The last of `ups` whose identity is `x`, if any.
pub open spec fn last_group_with_id(ups: Seq<Group>, x: Seq<char>) -> Option<Group>
    decreases ups.len(),
{
    if ups.len() == 0 {
        None
    } else if ups.last().id@ == x {
        Some(ups.last())
    } else {
        last_group_with_id(ups.drop_last(), x)
    }
}

/// No two groups share an identity.
pub open spec fn distinct_group_ids(s: Seq<Group>) -> bool {
    forall|i: int, j: int| 0 <= i < j < s.len() ==> s[i].id@ != s[j].id@
}

proof fn lemma_last_group_with_id_keeps(ups: Seq<Group>, x: Seq<char>)
    ensures
        last_group_with_id(ups, x) matches Some(u) ==> u.id@ == x,
    decreases ups.len(),
{
    if ups.len() > 0 {
        lemma_last_group_with_id_keeps(ups.drop_last(), x);
    }
}

proof fn lemma_apply_group_updates(m: Seq<Group>, ups: Seq<Group>)
    ensures
        apply_group_updates(m, ups).len() == m.len(),
        forall|j: int| 0 <= j < m.len() ==> #[trigger] apply_group_updates(m, ups)[j] == match last_group_with_id(
            ups,
            m[j].id@,
        ) {
            Some(u) => u,
            None => m[j],
        },
    decreases ups.len(),
{
    if ups.len() > 0 {
        lemma_apply_group_updates(m, ups.drop_last());
        let prev = apply_group_updates(m, ups.drop_last());
        assert forall|j: int| 0 <= j < m.len() implies #[trigger] apply_group_updates(m, ups)[j] == match last_group_with_id(
            ups,
            m[j].id@,
        ) {
            Some(u) => u,
            None => m[j],
        } by {
            assert(apply_group_updates(m, ups) == replace_group(prev, ups.last()));
            lemma_last_group_with_id_keeps(ups.drop_last(), m[j].id@);
        }
    }
}

proof fn lemma_rehomed_group_last(s: Seq<Group>, g: Seq<char>, parent: Option<GroupId>, x: Seq<char>)
    requires
        distinct_group_ids(s),
    ensures
        forall|i: int| 0 <= i < s.len() && s[i].id@ == x ==> last_group_with_id(
            rehome_groups(groups_in(s, Some(g)), parent),
            x,
        ) == if opt_gid(#[trigger] s[i].parent_id) == Some(g) {
            Some(Group { parent_id: parent, ..s[i] })
        } else {
            None
        },
        (forall|i: int| 0 <= i < s.len() ==> #[trigger] s[i].id@ != x) ==> last_group_with_id(
            rehome_groups(groups_in(s, Some(g)), parent),
            x,
        ) is None,
    decreases s.len(),
{
    if s.len() > 0 {
        let t = s.drop_last();
        let y = s.last();
        assert(distinct_group_ids(t));
        lemma_rehomed_group_last(t, g, parent, x);
        let rt = rehome_groups(groups_in(t, Some(g)), parent);
        let rs = rehome_groups(groups_in(s, Some(g)), parent);
        let yy = Group { parent_id: parent, ..y };
        let here = if opt_gid(y.parent_id) == Some(g) && y.id@ == x {
            Some(yy)
        } else {
            last_group_with_id(rt, x)
        };
        if opt_gid(y.parent_id) == Some(g) {
            assert(groups_in(s, Some(g)) == groups_in(t, Some(g)).push(y));
            assert(rs =~= rt.push(yy));
            assert(rs.drop_last() =~= rt);
            assert(rs.last() == yy);
        } else {
            assert(groups_in(s, Some(g)) == groups_in(t, Some(g)));
            assert(rs == rt);
        }
        assert(last_group_with_id(rs, x) == here);
        assert forall|q: int| 0 <= q < t.len() implies #[trigger] t[q].id@ != y.id@ by {
            assert(t[q] == s[q]);
            assert(s[q].id@ != s[s.len() - 1].id@);
        }
        assert forall|i: int| 0 <= i < s.len() && s[i].id@ == x implies last_group_with_id(rs, x) == if opt_gid(
            #[trigger] s[i].parent_id,
        ) == Some(g) {
            Some(Group { parent_id: parent, ..s[i] })
        } else {
            None
        } by {
            if i < s.len() - 1 {
                assert(s[i] == t[i]);
                assert(s[i].id@ != y.id@);
            } else {
                assert(s[i] == y);
                assert(forall|q: int| 0 <= q < t.len() ==> #[trigger] t[q].id@ != x);
            }
        }
        if forall|i: int| 0 <= i < s.len() ==> #[trigger] s[i].id@ != x {
            assert forall|q: int| 0 <= q < t.len() implies #[trigger] t[q].id@ != x by {
                assert(t[q] == s[q]);
            }
            assert(s[s.len() - 1].id@ != x);
        }
    }
}

/// Law: deleting a group with `PromoteChildren` moves its subgroups to the
/// deleted group's parent. In the groups as `delete_group` rehomes them (before
/// the group itself goes), every group that was under `g` is now under
/// `parent` and otherwise unchanged; every other group is as it was.
pub proof fn law_promoted_groups_join_the_parent(groups: Seq<Group>, g: Seq<char>, parent: Option<GroupId>)
    requires
        distinct_group_ids(groups),
    ensures
        ({
            let after = apply_group_updates(groups, rehome_groups(groups_in(groups, Some(g)), parent));
            &&& after.len() == groups.len()
            &&& forall|k: int|
                0 <= k < groups.len() ==> #[trigger] after[k] == if opt_gid(groups[k].parent_id) == Some(g) {
                    Group { parent_id: parent, ..groups[k] }
                } else {
                    groups[k]
                }
        }),
{
    let ups = rehome_groups(groups_in(groups, Some(g)), parent);
    lemma_apply_group_updates(groups, ups);
    assert forall|k: int| 0 <= k < groups.len() implies #[trigger] apply_group_updates(groups, ups)[k]
        == if opt_gid(groups[k].parent_id) == Some(g) {
        Group { parent_id: parent, ..groups[k] }
    } else {
        groups[k]
    } by {
        lemma_rehomed_group_last(groups, g, parent, groups[k].id@);
    }
}

} // verus!
