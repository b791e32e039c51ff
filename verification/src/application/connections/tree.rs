//! The connection tree: groups first, then connections, siblings ordered by
//! `(position, name)` with a stable sort.

use vstd::prelude::*;

use super::{ConnectionError, ConnectionService};
use crate::application::ports::{ConnectionStore, SecretStore};
use crate::domain::connection::{clone_gid, opt_gid, same_scope, ConnConfig, GroupId};
use crate::domain::group::Group;
use crate::text::{seq_less, str_less};

verus! {

/// A node of the connection tree, in the shape the sidebar shows.
#[derive(Debug, PartialEq, Eq)]
pub enum ConnectionNode {
    /// A group and its subtree.
    Group(Group, Vec<ConnectionNode>),
    /// A connection leaf.
    Connection(ConnConfig),
}

/// The mathematical shape of a tree node.
pub enum NodeModel {
    /// A group and the models of its children.
    Group(Group, Seq<NodeModel>),
    /// A connection leaf.
    Connection(ConnConfig),
}

/// The model of a node.
pub open spec fn node_view(n: ConnectionNode) -> NodeModel
    decreases n,
{
    match n {
        ConnectionNode::Group(g, kids) => NodeModel::Group(
            g,
            Seq::new(
                kids@.len(),
                |i: int|
                    if 0 <= i < kids@.len() {
                        proof {
                            assert(decreases_to!(kids => kids@));
                            assert(decreases_to!(kids@ => kids@[i]));
                        }
                        node_view(kids@[i])
                    } else {
                        NodeModel::Connection(arbitrary())
                    },
            ),
        ),
        ConnectionNode::Connection(c) => NodeModel::Connection(c),
    }
}

/// The models of a list of nodes.
pub open spec fn nodes_view(s: Seq<ConnectionNode>) -> Seq<NodeModel> {
    Seq::new(s.len(), |i: int| node_view(s[i]))
}

/// Something ordered among its siblings by `(position, name)`.
pub trait Sibling: Sized {
    /// Sort position.
    spec fn key_position(&self) -> i64;

    /// Display name.
    spec fn key_name(&self) -> Seq<char>;

    /// Sort position.
    fn position_of(&self) -> (p: i64)
        ensures
            p == self.key_position(),
    ;

    /// Display name.
    fn name_of(&self) -> (s: &str)
        ensures
            s@ == self.key_name(),
    ;
}

impl Sibling for Group {
    open spec fn key_position(&self) -> i64 {
        self.position
    }

    open spec fn key_name(&self) -> Seq<char> {
        self.name@
    }

    fn position_of(&self) -> (p: i64) {
        self.position
    }

    fn name_of(&self) -> (s: &str) {
        self.name.as_str()
    }
}

impl Sibling for ConnConfig {
    open spec fn key_position(&self) -> i64 {
        self.position
    }

    open spec fn key_name(&self) -> Seq<char> {
        self.name@
    }

    fn position_of(&self) -> (p: i64) {
        self.position
    }

    fn name_of(&self) -> (s: &str) {
        self.name.as_str()
    }
}

/// `a` sorts strictly before `b`.
pub open spec fn key_less<T: Sibling>(a: T, b: T) -> bool {
    a.key_position() < b.key_position() || (a.key_position() == b.key_position() && seq_less(
        a.key_name(),
        b.key_name(),
    ))
}

/// Where `x` goes in the sorted `t`: after every element that sorts strictly
/// before it, and before every element with an equal key.
pub open spec fn ins_pos<T: Sibling>(t: Seq<T>, x: T) -> nat
    decreases t.len(),
{
    if t.len() == 0 {
        0
    } else if key_less(t[0], x) {
        1 + ins_pos(t.drop_first(), x)
    } else {
        0
    }
}

/// The stable sort by `(position, name)`: the first element is inserted into the
/// sorted rest ahead of its equals, so equal keys keep their order.
pub open spec fn sort_siblings<T: Sibling>(s: Seq<T>) -> Seq<T>
    decreases s.len(),
{
    if s.len() == 0 {
        s
    } else {
        let t = sort_siblings(s.drop_first());
        t.insert(ins_pos(t, s[0]) as int, s[0])
    }
}

/// The groups whose parent is `scope`, in stored order.
pub open spec fn groups_in(s: Seq<Group>, scope: Option<Seq<char>>) -> Seq<Group>
    decreases s.len(),
{
    if s.len() == 0 {
        s
    } else if opt_gid(s.last().parent_id) == scope {
        groups_in(s.drop_last(), scope).push(s.last())
    } else {
        groups_in(s.drop_last(), scope)
    }
}

/// The connections in `scope`, in stored order.
pub open spec fn conns_in(s: Seq<ConnConfig>, scope: Option<Seq<char>>) -> Seq<ConnConfig>
    decreases s.len(),
{
    if s.len() == 0 {
        s
    } else if opt_gid(s.last().group_id) == scope {
        conns_in(s.drop_last(), scope).push(s.last())
    } else {
        conns_in(s.drop_last(), scope)
    }
}

/// The nodes under `scope`: its groups (each with its subtree), then its
/// connections, both sorted. `depth` bounds the nesting followed; a depth of one
/// more than the number of groups follows every acyclic tree to its leaves.
pub open spec fn tree_nodes(
    groups: Seq<Group>,
    conns: Seq<ConnConfig>,
    scope: Option<Seq<char>>,
    depth: nat,
) -> Seq<NodeModel>
    decreases depth,
{
    if depth == 0 {
        Seq::empty()
    } else {
        let gs = sort_siblings(groups_in(groups, scope));
        let cs = sort_siblings(conns_in(conns, scope));
        Seq::new(
            gs.len(),
            |i: int|
                NodeModel::Group(gs[i], tree_nodes(groups, conns, Some(gs[i].id@), (depth - 1) as nat)),
        ) + Seq::new(cs.len(), |i: int| NodeModel::Connection(cs[i]))
    }
}

/// The whole tree of a store's groups and connections.
pub open spec fn whole_tree(groups: Seq<Group>, conns: Seq<ConnConfig>) -> Seq<NodeModel> {
    tree_nodes(groups, conns, None, groups.len() + 1)
}

/// `a` sorts strictly before `b`.
fn less_exec<T: Sibling>(a: &T, b: &T) -> (r: bool)
    ensures
        r == key_less(*a, *b),
{
    let pa = a.position_of();
    let pb = b.position_of();
    pa < pb || (pa == pb && str_less(a.name_of(), b.name_of()))
}

/// Stable sort by `(position, name)`.
pub fn sort_by_key<T: Sibling>(v: Vec<T>) -> (r: Vec<T>)
    ensures
        r@ == sort_siblings(v@),
{
    let ghost s = v@;
    let mut v = v;
    let mut res: Vec<T> = Vec::new();
    assert(s.skip(s.len() as int) =~= Seq::<T>::empty());
    assert(s.take(s.len() as int) =~= s);
    while v.len() > 0
        invariant
            v@.len() <= s.len(),
            v@ == s.take(v@.len() as int),
            res@ == sort_siblings(s.skip(v@.len() as int)),
        decreases v@.len(),
    {
        let n = v.len();
        let x = v.pop().unwrap();
        assert(x == s[n - 1]);
        assert(v@ =~= s.take(n - 1));
        let mut k: usize = 0;
        assert(res@.skip(0) =~= res@);
        while k < res.len() && less_exec(&res[k], &x)
            invariant
                k <= res@.len(),
                ins_pos(res@, x) == k + ins_pos(res@.skip(k as int), x),
            decreases res@.len() - k,
        {
            assert(res@.skip(k as int).drop_first() =~= res@.skip(k + 1));
            k = k + 1;
        }
        proof {
            if k < res@.len() {
                assert(res@.skip(k as int)[0] == res@[k as int]);
            }
        }
        let ghost t = res@;
        res.insert(k, x);
        proof {
            let u = s.skip(n - 1);
            assert(u.drop_first() =~= s.skip(n as int));
            assert(u[0] == x);
        }
    }
    assert(s.skip(0) =~= s);
    res
}

/// Copies of the groups whose parent is `scope`.
pub(crate) fn groups_in_exec(groups: &Vec<Group>, scope: &Option<GroupId>) -> (r: Vec<Group>)
    ensures
        r@ == groups_in(groups@, opt_gid(*scope)),
{
    let mut r: Vec<Group> = Vec::new();
    let mut i: usize = 0;
    assert(groups@.subrange(0, 0) =~= Seq::<Group>::empty());
    while i < groups.len()
        invariant
            i <= groups@.len(),
            r@ == groups_in(groups@.subrange(0, i as int), opt_gid(*scope)),
        decreases groups@.len() - i,
    {
        let ghost p = groups@.subrange(0, i + 1);
        assert(p.drop_last() =~= groups@.subrange(0, i as int));
        if same_scope(&groups[i].parent_id, scope) {
            r.push(groups[i].clone());
        }
        i = i + 1;
    }
    assert(groups@.subrange(0, groups@.len() as int) =~= groups@);
    r
}

/// Copies of the connections in `scope`.
pub(crate) fn conns_in_exec(conns: &Vec<ConnConfig>, scope: &Option<GroupId>) -> (r: Vec<ConnConfig>)
    ensures
        r@ == conns_in(conns@, opt_gid(*scope)),
{
    let mut r: Vec<ConnConfig> = Vec::new();
    let mut i: usize = 0;
    assert(conns@.subrange(0, 0) =~= Seq::<ConnConfig>::empty());
    while i < conns.len()
        invariant
            i <= conns@.len(),
            r@ == conns_in(conns@.subrange(0, i as int), opt_gid(*scope)),
        decreases conns@.len() - i,
    {
        let ghost p = conns@.subrange(0, i + 1);
        assert(p.drop_last() =~= conns@.subrange(0, i as int));
        if same_scope(&conns[i].group_id, scope) {
            r.push(conns[i].clone());
        }
        i = i + 1;
    }
    assert(conns@.subrange(0, conns@.len() as int) =~= conns@);
    r
}

impl<S: ConnectionStore, K: SecretStore> ConnectionService<S, K> {
    /// The nodes under `scope` (the root is `None`), following at most `depth` levels.
    fn build_tree(groups: &Vec<Group>, conns: &Vec<ConnConfig>, scope: &Option<GroupId>, depth: usize) -> (r:
        Vec<ConnectionNode>)
        ensures
            nodes_view(r@) == tree_nodes(groups@, conns@, opt_gid(*scope), depth as nat),
        decreases depth,
    {
        if depth == 0 {
            let r: Vec<ConnectionNode> = Vec::new();
            assert(nodes_view(r@) =~= Seq::<NodeModel>::empty());
            return r;
        }
        let gs = sort_by_key(groups_in_exec(groups, scope));
        let cs = sort_by_key(conns_in_exec(conns, scope));
        let ghost gspec = Seq::new(
            gs@.len(),
            |i: int|
                NodeModel::Group(
                    gs@[i],
                    tree_nodes(groups@, conns@, Some(gs@[i].id@), (depth - 1) as nat),
                ),
        );
        let ghost cspec = Seq::new(cs@.len(), |i: int| NodeModel::Connection(cs@[i]));
        let mut nodes: Vec<ConnectionNode> = Vec::new();
        let mut i: usize = 0;
        while i < gs.len()
            invariant
                i <= gs@.len(),
                depth > 0,
                nodes_view(nodes@) == gspec.subrange(0, i as int),
                gspec == Seq::new(
                    gs@.len(),
                    |k: int|
                        NodeModel::Group(
                            gs@[k],
                            tree_nodes(groups@, conns@, Some(gs@[k].id@), (depth - 1) as nat),
                        ),
                ),
            decreases gs@.len() - i,
        {
            let g = gs[i].clone();
            let child_scope = Some(g.id.clone());
            let kids = Self::build_tree(groups, conns, &child_scope, depth - 1);
            let ghost old_nodes = nodes@;
            nodes.push(ConnectionNode::Group(g, kids));
            proof {
                let n = ConnectionNode::Group(gs@[i as int], kids);
                let inner = match node_view(n) {
                    NodeModel::Group(_, s) => s,
                    _ => arbitrary(),
                };
                assert(inner =~= nodes_view(kids@));
                assert(node_view(n) == gspec[i as int]);
                assert(nodes_view(nodes@) =~= nodes_view(old_nodes).push(node_view(n)));
            }
            i = i + 1;
            assert(nodes_view(nodes@) =~= gspec.subrange(0, i as int));
        }
        let mut j: usize = 0;
        while j < cs.len()
            invariant
                j <= cs@.len(),
                i == gs@.len(),
                nodes_view(nodes@) == gspec + cspec.subrange(0, j as int),
                gspec.len() == gs@.len(),
                cspec == Seq::new(cs@.len(), |k: int| NodeModel::Connection(cs@[k])),
            decreases cs@.len() - j,
        {
            let ghost old_nodes = nodes@;
            let c = cs[j].clone();
            nodes.push(ConnectionNode::Connection(c));
            proof {
                assert(node_view(ConnectionNode::Connection(c)) == cspec[j as int]);
                assert(nodes_view(nodes@) =~= nodes_view(old_nodes).push(cspec[j as int]));
            }
            j = j + 1;
            assert(nodes_view(nodes@) =~= gspec + cspec.subrange(0, j as int));
        }
        assert(gspec.subrange(0, gs@.len() as int) =~= gspec);
        assert(cspec.subrange(0, cs@.len() as int) =~= cspec);
        nodes
    }

    /// The whole connection tree: at every level groups first, then
    /// connections, siblings sorted by `(position, name)`.
    pub fn list_tree(&self) -> (r: Result<Vec<ConnectionNode>, ConnectionError>)
        requires
            self.stored_groups().len() < usize::MAX,
        ensures
            self.reliable() ==> (r matches Ok(t) && nodes_view(t@) == whole_tree(
                self.stored_groups(),
                self.stored_conns(),
            )),
            r matches Ok(t) ==> nodes_view(t@) == whole_tree(self.stored_groups(), self.stored_conns()),
            r is Err ==> r matches Err(ConnectionError::Storage(_)),
    {
        let groups = match self.load_groups() {
            Ok(v) => v,
            Err(e) => return Err(e),
        };
        let conns = match self.load_conns() {
            Ok(v) => v,
            Err(e) => return Err(e),
        };
        Ok(Self::build_tree(&groups, &conns, &None, groups.len() + 1))
    }
}

} // verus!
