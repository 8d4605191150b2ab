use vstd::prelude::*;
use crate::text::{push_str, str_eq};

verus! {

/// One named node: the index of its parent, if any, and the indices of its children in
/// the order they were linked.
pub struct Node {
    pub name: String,
    pub parent: Option<usize>,
    pub children: Vec<usize>,
}

/// The abstract content of a node.
pub struct NodeView {
    pub name: Seq<char>,
    pub parent: Option<usize>,
    pub children: Seq<usize>,
}

impl View for Node {
    type V = NodeView;

    open spec fn view(&self) -> NodeView {
        NodeView { name: self.name@, parent: self.parent, children: self.children@ }
    }
}

/// A forest of named nodes held in one vector; nodes refer to each other by index.
pub struct Tree {
    pub roots: Vec<usize>,
    pub nodes: Vec<Node>,
}

/// A parent-child link between two named nodes.
pub struct Relation {
    pub parent: String,
    pub child: String,
}

pub open spec fn nodes_view(nodes: Seq<Node>) -> Seq<NodeView> {
    nodes.map_values(|n: Node| n@)
}

/// The index of the first node named `name`, or -1.
pub open spec fn lookup(ns: Seq<NodeView>, name: Seq<char>) -> int
    decreases ns.len(),
{
    if ns.len() == 0 {
        -1
    } else {
        let r = lookup(ns.drop_last(), name);
        if r >= 0 {
            r
        } else if ns.last().name == name {
            ns.len() - 1
        } else {
            -1
        }
    }
}

pub open spec fn fresh_node(name: Seq<char>, parent: Option<usize>) -> NodeView {
    NodeView { name, parent, children: Seq::empty() }
}

/// The nodes with one named `name` added at the end, unless one is there already.
pub open spec fn with_node(ns: Seq<NodeView>, name: Seq<char>) -> Seq<NodeView> {
    if lookup(ns, name) >= 0 {
        ns
    } else {
        ns.push(fresh_node(name, None))
    }
}

/// Links `c` below `p`, adding either node where it is missing: the child's parent becomes
/// `p`, and `p` lists the child after its other children.
pub open spec fn link(ns: Seq<NodeView>, p: Seq<char>, c: Seq<char>) -> Seq<NodeView> {
    let ns1 = with_node(ns, p);
    let pi = lookup(ns1, p);
    let ns2 = with_node(ns1, c);
    let ci = lookup(ns2, c);
    let ns3 = ns2.update(ci, NodeView { parent: Some(pi as usize), ..ns2[ci] });
    ns3.update(pi, NodeView { children: ns3[pi].children.push(ci as usize), ..ns3[pi] })
}

/// The nodes that the given links give, applied in order to an empty forest.
pub open spec fn built(edges: Seq<(Seq<char>, Seq<char>)>) -> Seq<NodeView>
    decreases edges.len(),
{
    if edges.len() == 0 {
        Seq::empty()
    } else {
        link(built(edges.drop_last()), edges.last().0, edges.last().1)
    }
}

/// The indices of the nodes without a parent, in increasing order.
pub open spec fn parentless(ns: Seq<NodeView>) -> Seq<usize>
    decreases ns.len(),
{
    if ns.len() == 0 {
        Seq::empty()
    } else if ns.last().parent is None {
        parentless(ns.drop_last()).push((ns.len() - 1) as usize)
    } else {
        parentless(ns.drop_last())
    }
}

/// Every index that a node holds names a node.
pub open spec fn indices_valid(ns: Seq<NodeView>) -> bool {
    &&& forall|i: int| 0 <= i < ns.len() ==> ((#[trigger] ns[i]).parent matches Some(p) ==> p < ns.len())
    &&& forall|i: int, j: int|
        0 <= i < ns.len() && 0 <= j < ns[i].children.len() ==> #[trigger] ns[i].children[j] < ns.len()
}

/// Whether following parents from node `i` reaches a node without parent within `fuel` steps.
pub open spec fn reaches_root(ns: Seq<NodeView>, i: int, fuel: nat) -> bool
    decreases fuel,
{
    match ns[i].parent {
        None => true,
        Some(p) => fuel > 0 && reaches_root(ns, p as int, (fuel - 1) as nat),
    }
}

/// The names met when following parents from node `i`, nearest first, for at most `fuel` steps.
pub open spec fn chain(ns: Seq<NodeView>, i: int, fuel: nat) -> Seq<Seq<char>>
    decreases fuel,
{
    if fuel == 0 {
        Seq::empty()
    } else {
        match ns[i].parent {
            None => Seq::empty(),
            Some(p) => seq![ns[p as int].name] + chain(ns, p as int, (fuel - 1) as nat),
        }
    }
}

/// A rank that every child link strictly decreases, below the number of nodes: the child
/// links hold no cycle.
pub open spec fn ranked(ns: Seq<NodeView>, rank: Seq<nat>) -> bool {
    &&& rank.len() == ns.len()
    &&& forall|i: int| 0 <= i < ns.len() ==> #[trigger] rank[i] < ns.len()
    &&& forall|i: int, j: int|
        0 <= i < ns.len() && 0 <= j < ns[i].children.len() ==> rank[#[trigger] ns[i].children[j] as int] < rank[i]
}

/// Names in depth-first pre-order from node `i`: the node, then each child's subtree in
/// order, descending at most `fuel` levels.
pub open spec fn preorder(ns: Seq<NodeView>, i: int, fuel: nat) -> Seq<Seq<char>>
    decreases fuel, 0nat,
{
    if fuel == 0 {
        seq![ns[i].name]
    } else {
        seq![ns[i].name] + preorder_list(ns, ns[i].children, (fuel - 1) as nat)
    }
}

pub open spec fn preorder_list(ns: Seq<NodeView>, cs: Seq<usize>, fuel: nat) -> Seq<Seq<char>>
    decreases fuel, cs.len(),
{
    if cs.len() == 0 {
        Seq::empty()
    } else {
        preorder_list(ns, cs.drop_last(), fuel) + preorder(ns, cs.last() as int, fuel)
    }
}

/// The children of each node of a level, level order.
pub open spec fn next_level(ns: Seq<NodeView>, level: Seq<usize>) -> Seq<usize>
    decreases level.len(),
{
    if level.len() == 0 {
        Seq::empty()
    } else {
        next_level(ns, level.drop_last()) + ns[level.last() as int].children
    }
}

/// Names in breadth-first order: each level in order, then the level below it, for at
/// most `fuel` levels.
pub open spec fn level_order(ns: Seq<NodeView>, level: Seq<usize>, fuel: nat) -> Seq<Seq<char>>
    decreases fuel,
{
    if fuel == 0 || level.len() == 0 {
        Seq::empty()
    } else {
        level.map_values(|i: usize| ns[i as int].name) + level_order(ns, next_level(ns, level), (fuel - 1) as nat)
    }
}

impl Tree {
    pub open spec fn view(&self) -> Seq<NodeView> {
        nodes_view(self.nodes@)
    }

    /// Indices are in range, no two nodes share a name, and the roots are exactly the
    /// nodes without parent, in order.
    pub open spec fn wf(&self) -> bool {
        &&& indices_valid(self@)
        &&& names_unique(self@)
        &&& self.roots@ == parentless(self@)
    }
}

/// No two nodes have the same name.
pub open spec fn names_unique(ns: Seq<NodeView>) -> bool {
    forall|i: int, j: int| 0 <= i < ns.len() && 0 <= j < ns.len() && i != j ==> #[trigger] ns[i].name != #[trigger] ns[j].name
}

proof fn lemma_lookup_found(ns: Seq<NodeView>, name: Seq<char>)
    ensures
        lookup(ns, name) >= 0 ==> lookup(ns, name) < ns.len() && ns[lookup(ns, name)].name == name,
        lookup(ns, name) < 0 ==> forall|i: int| 0 <= i < ns.len() ==> ns[i].name != name,
        lookup(ns, name) >= -1,
    decreases ns.len(),
{
    if ns.len() > 0 {
        lemma_lookup_found(ns.drop_last(), name);
        assert forall|i: int| 0 <= i < ns.len() - 1 implies ns[i] == ns.drop_last()[i] by {}
    }
}

proof fn lemma_lookup_push(ns: Seq<NodeView>, x: NodeView, name: Seq<char>)
    ensures
        lookup(ns.push(x), name) == (if lookup(ns, name) >= 0 {
            lookup(ns, name)
        } else if x.name == name {
            ns.len() as int
        } else {
            -1
        }),
{
    assert(ns.push(x).drop_last() =~= ns);
}

/// Changing nodes without changing their names keeps every lookup.
proof fn lemma_lookup_same_names(a: Seq<NodeView>, b: Seq<NodeView>, name: Seq<char>)
    requires
        a.len() == b.len(),
        forall|i: int| 0 <= i < a.len() ==> a[i].name == b[i].name,
    ensures
        lookup(a, name) == lookup(b, name),
    decreases a.len(),
{
    if a.len() > 0 {
        lemma_lookup_same_names(a.drop_last(), b.drop_last(), name);
    }
}

proof fn lemma_parentless_valid(ns: Seq<NodeView>)
    ensures
        forall|k: int| 0 <= k < parentless(ns).len() ==> #[trigger] parentless(ns)[k] < ns.len(),
    decreases ns.len(),
{
    if ns.len() > 0 {
        lemma_parentless_valid(ns.drop_last());
        let pl = parentless(ns.drop_last());
        assert forall|k: int| 0 <= k < parentless(ns).len() implies #[trigger] parentless(ns)[k] < ns.len() by {
            if k < pl.len() {
                assert(parentless(ns)[k] == pl[k]);
            }
        }
    }
}

/// Changing nodes without changing which have a parent keeps the parentless list.
proof fn lemma_parentless_same(a: Seq<NodeView>, b: Seq<NodeView>)
    requires
        a.len() == b.len(),
        forall|i: int| 0 <= i < a.len() ==> (a[i].parent is None) == (b[i].parent is None),
    ensures
        parentless(a) == parentless(b),
    decreases a.len(),
{
    if a.len() > 0 {
        lemma_parentless_same(a.drop_last(), b.drop_last());
    }
}

/// The index of the node named `name` in `nodes`, if there is one.
fn find_node(nodes: &Vec<Node>, name: &str) -> (r: Option<usize>)
    ensures
        r matches Some(i) ==> lookup(nodes_view(nodes@), name@) == i && i < nodes@.len(),
        r is None ==> lookup(nodes_view(nodes@), name@) == -1,
{
    let ghost ns = nodes_view(nodes@);
    let mut i: usize = 0;
    while i < nodes.len()
        invariant
            i <= nodes@.len(),
            ns == nodes_view(nodes@),
            lookup(ns.take(i as int), name@) == -1,
        decreases nodes.len() - i,
    {
        proof {
            assert(ns.take(i + 1).drop_last() =~= ns.take(i as int));
        }
        if str_eq(nodes[i].name.as_str(), name) {
            proof {
                assert(ns.take(i + 1).last() == nodes@[i as int]@);
                lemma_lookup_prefix(ns, i as int + 1, name@);
            }
            return Some(i);
        }
        i = i + 1;
    }
    proof {
        assert(ns.take(i as int) =~= ns);
    }
    None
}

/// A lookup that succeeds in a prefix gives the same index in the whole.
proof fn lemma_lookup_prefix(ns: Seq<NodeView>, k: int, name: Seq<char>)
    requires
        0 <= k <= ns.len(),
        lookup(ns.take(k), name) >= 0,
    ensures
        lookup(ns, name) == lookup(ns.take(k), name),
    decreases ns.len() - k,
{
    if k < ns.len() {
        assert(ns.take(k + 1).drop_last() =~= ns.take(k));
        lemma_lookup_prefix(ns, k + 1, name);
    } else {
        assert(ns.take(k) =~= ns);
    }
}

/// Finds the node named `name`, adding a parentless one at the end when there is none.
fn ensure_node(nodes: &mut Vec<Node>, name: &String) -> (i: usize)
    ensures
        nodes_view(final(nodes)@) == with_node(nodes_view(old(nodes)@), name@),
        i == lookup(nodes_view(final(nodes)@), name@),
        i < final(nodes)@.len(),
{
    match find_node(nodes, name.as_str()) {
        Some(i) => i,
        None => {
            let ghost before = nodes_view(nodes@);
            nodes.push(Node { name: name.clone(), parent: None, children: Vec::new() });
            proof {
                assert(nodes_view(nodes@) =~= before.push(fresh_node(name@, None)));
                lemma_lookup_push(before, fresh_node(name@, None), name@);
            }
            nodes.len() - 1
        },
    }
}

/// The indices of the nodes without a parent, in increasing order.
fn parentless_of(nodes: &Vec<Node>) -> (r: Vec<usize>)
    ensures
        r@ == parentless(nodes_view(nodes@)),
{
    let ghost ns = nodes_view(nodes@);
    let mut r: Vec<usize> = Vec::new();
    let mut i: usize = 0;
    while i < nodes.len()
        invariant
            i <= nodes@.len(),
            ns == nodes_view(nodes@),
            r@ == parentless(ns.take(i as int)),
        decreases nodes.len() - i,
    {
        proof {
            assert(ns.take(i + 1).drop_last() =~= ns.take(i as int));
        }
        if nodes[i].parent.is_none() {
            r.push(i);
        }
        i = i + 1;
    }
    proof {
        assert(ns.take(i as int) =~= ns);
    }
    r
}

/// No two links name the same child.
pub open spec fn children_distinct(edges: Seq<(Seq<char>, Seq<char>)>) -> bool {
    forall|i: int, j: int| 0 <= i < edges.len() && 0 <= j < edges.len() && i != j ==> #[trigger] edges[i].1 != #[trigger] edges[j].1
}

pub open spec fn relations_view(edges: Seq<Relation>) -> Seq<(Seq<char>, Seq<char>)> {
    edges.map_values(|e: Relation| (e.parent@, e.child@))
}

proof fn lemma_with_node_valid(ns: Seq<NodeView>, name: Seq<char>)
    requires
        indices_valid(ns),
    ensures
        indices_valid(with_node(ns, name)),
        with_node(ns, name).len() >= ns.len(),
        forall|i: int| 0 <= i < ns.len() ==> with_node(ns, name)[i] == ns[i],
{
    let r = with_node(ns, name);
    if lookup(ns, name) < 0 {
        assert forall|i: int, j: int|
            0 <= i < r.len() && 0 <= j < r[i].children.len() implies #[trigger] r[i].children[j] < r.len() by {
            if i < ns.len() {
                assert(r[i] == ns[i]);
            }
        }
    }
}

proof fn lemma_link_valid(ns: Seq<NodeView>, p: Seq<char>, c: Seq<char>)
    requires
        indices_valid(ns),
    ensures
        indices_valid(link(ns, p, c)),
{
    let ns1 = with_node(ns, p);
    lemma_with_node_valid(ns, p);
    lemma_lookup_found(ns1, p);
    let pi = lookup(ns1, p);
    let ns2 = with_node(ns1, c);
    lemma_with_node_valid(ns1, c);
    lemma_lookup_found(ns2, c);
    let ci = lookup(ns2, c);
    let ns3 = ns2.update(ci, NodeView { parent: Some(pi as usize), ..ns2[ci] });
    let ns4 = ns3.update(pi, NodeView { children: ns3[pi].children.push(ci as usize), ..ns3[pi] });
    assert forall|i: int| 0 <= i < ns4.len() implies ((#[trigger] ns4[i]).parent matches Some(q) ==> q < ns4.len()) by {
        if i != pi && i != ci {
            assert(ns4[i] == ns2[i]);
        }
    }
    assert forall|i: int, j: int|
        0 <= i < ns4.len() && 0 <= j < ns4[i].children.len() implies #[trigger] ns4[i].children[j] < ns4.len() by {
        if i == pi {
            if j < ns3[pi].children.len() {
                assert(ns4[i].children[j] == ns3[pi].children[j]);
                assert(ns3[pi].children == ns2[pi].children);
            }
        } else if i == ci {
            assert(ns4[i].children == ns2[ci].children);
        } else {
            assert(ns4[i] == ns2[i]);
        }
    }
}

proof fn lemma_built_valid(edges: Seq<(Seq<char>, Seq<char>)>)
    ensures
        indices_valid(built(edges)),
    decreases edges.len(),
{
    if edges.len() > 0 {
        lemma_built_valid(edges.drop_last());
        lemma_link_valid(built(edges.drop_last()), edges.last().0, edges.last().1);
    }
}

impl Tree {
    /// Builds a forest from parent-child links applied in order. A node is created the
    /// first time its name appears; linking a child again gives it the newer parent
    /// (the older parent keeps it among its children). The roots are the nodes left
    /// without a parent.
    pub fn build(edges: Vec<Relation>) -> (t: Tree)
        ensures
            t@ == built(relations_view(edges@)),
            t.wf(),
            2 * edges@.len() <= usize::MAX && children_distinct(relations_view(edges@)) ==> (forall|k: int|
                0 <= k < edges@.len() ==> parent_name(t@, #[trigger] edges@[k].child@) == Some(edges@[k].parent@))
                && (forall|q: Seq<char>| lookup(t@, q) >= 0 ==> child_names(t@, #[trigger] lookup(t@, q)) == linked_children(
                relations_view(edges@),
                q,
            )),
    {
        let ghost ev = relations_view(edges@);
        let mut nodes: Vec<Node> = Vec::new();
        let mut k: usize = 0;
        while k < edges.len()
            invariant
                k <= edges@.len(),
                ev == relations_view(edges@),
                nodes_view(nodes@) == built(ev.take(k as int)),
            decreases edges.len() - k,
        {
            let ghost before = nodes_view(nodes@);
            let pi = ensure_node(&mut nodes, &edges[k].parent);
            let ghost ns1 = nodes_view(nodes@);
            let ci = ensure_node(&mut nodes, &edges[k].child);
            let ghost ns2 = nodes_view(nodes@);
            proof {
                lemma_lookup_found(before, edges@[k as int].parent@);
                let w = with_node(ns1, edges@[k as int].child@);
                if lookup(ns1, edges@[k as int].child@) < 0 {
                    lemma_lookup_push(ns1, fresh_node(edges@[k as int].child@, None), edges@[k as int].parent@);
                }
                assert(lookup(ns2, edges@[k as int].parent@) == pi);
            }
            nodes[ci].parent = Some(pi);
            let ghost ns3 = nodes_view(nodes@);
            nodes[pi].children.push(ci);
            proof {
                assert(ev.take(k + 1).drop_last() =~= ev.take(k as int));
                assert(ev.take(k + 1).last() == (edges@[k as int].parent@, edges@[k as int].child@));
                assert(ns3 =~= ns2.update(ci as int, NodeView { parent: Some(pi), ..ns2[ci as int] }));
                assert(nodes_view(nodes@) =~= ns3.update(pi as int, NodeView { children: ns3[pi as int].children.push(ci), ..ns3[pi as int] }));
            }
            k = k + 1;
        }
        proof {
            assert(ev.take(k as int) =~= ev);
            lemma_built_valid(ev);
            lemma_built_unique(ev);
            if 2 * edges@.len() <= usize::MAX && children_distinct(ev) {
                lemma_built_parents(ev);
                assert forall|i: int| 0 <= i < edges@.len() implies parent_name(built(ev), #[trigger] edges@[i].child@)
                    == Some(edges@[i].parent@) by {
                    assert(ev[i] == (edges@[i].parent@, edges@[i].child@));
                    assert(parent_name(built(ev), ev[i].1) == Some(ev[i].0));
                }
                assert forall|q: Seq<char>| lookup(built(ev), q) >= 0 implies child_names(built(ev), #[trigger] lookup(built(ev), q))
                    == linked_children(ev, q) by {
                    lemma_built_children(ev, q);
                }
            }
        }
        let roots = parentless_of(&nodes);
        Tree { roots, nodes }
    }
}

pub open spec fn names_of(v: Seq<String>) -> Seq<Seq<char>> {
    v.map_values(|s: String| s@)
}

/// The nodes after `add_node` succeeds: the child appended without children, below the
/// named parent (listed last among its children) or as a new root.
pub open spec fn added(ns: Seq<NodeView>, parent: Option<Seq<char>>, child: Seq<char>) -> Seq<NodeView> {
    match parent {
        None => ns.push(fresh_node(child, None)),
        Some(p) => {
            let pi = lookup(ns, p);
            let ns1 = ns.push(fresh_node(child, Some(pi as usize)));
            ns1.update(pi, NodeView { children: ns1[pi].children.push(ns.len() as usize), ..ns1[pi] })
        },
    }
}

/// The name of the parent of the node named `name`, if both exist.
pub open spec fn parent_name(ns: Seq<NodeView>, name: Seq<char>) -> Option<Seq<char>> {
    let i = lookup(ns, name);
    if i < 0 {
        None
    } else {
        match ns[i].parent {
            None => None,
            Some(p) => Some(ns[p as int].name),
        }
    }
}

/// Whether the ancestors of the named node can be listed: its parents lead to a root.
pub open spec fn chain_ends(ns: Seq<NodeView>, name: Seq<char>) -> bool {
    lookup(ns, name) >= 0 ==> reaches_root(ns, lookup(ns, name), ns.len())
}

/// The names of the ancestors of the named node, nearest first; empty for an unknown name.
pub open spec fn ancestor_names(ns: Seq<NodeView>, name: Seq<char>) -> Seq<Seq<char>> {
    let i = lookup(ns, name);
    if i < 0 {
        Seq::empty()
    } else {
        chain(ns, i, ns.len())
    }
}

pub open spec fn acyclic(ns: Seq<NodeView>) -> bool {
    exists|rank: Seq<nat>| ranked(ns, rank)
}

proof fn lemma_chain_step(ns: Seq<NodeView>, c: int, f: nat)
    requires
        reaches_root(ns, c, f),
    ensures
        ns[c].parent matches Some(p) ==> f > 0 && reaches_root(ns, p as int, (f - 1) as nat)
            && chain(ns, c, f) == seq![ns[p as int].name] + chain(ns, p as int, (f - 1) as nat),
        ns[c].parent is None ==> chain(ns, c, f) == Seq::<Seq<char>>::empty(),
{
}

impl Tree {
    /// Adds a node named `child`, below the node named `parent` or as a new root. Fails,
    /// changing nothing, when the name is taken or the parent does not exist.
    pub fn add_node(&mut self, parent: Option<&str>, child: &str) -> (r: Result<(), String>)
        requires
            old(self).wf(),
        ensures
            final(self).wf(),
            lookup(old(self)@, child@) >= 0 ==> (r matches Err(m) && m@ == "Node '"@ + child@ + "' already exists"@)
                && final(self)@ == old(self)@ && final(self).roots@ == old(self).roots@,
            lookup(old(self)@, child@) < 0 && (parent matches Some(p) && lookup(old(self)@, p@) < 0) ==> (r matches Err(m)
                && m@ == "Parent '"@ + parent.unwrap()@ + "' not found"@)
                && final(self)@ == old(self)@ && final(self).roots@ == old(self).roots@,
            lookup(old(self)@, child@) < 0 && !(parent matches Some(p) && lookup(old(self)@, p@) < 0) ==> r is Ok
                && final(self)@ == added(old(self)@, match parent { Some(p) => Some(p@), None => None }, child@),
    {
        let ghost ns = self@;
        if find_node(&self.nodes, child).is_some() {
            let mut m = String::from_str("Node '");
            push_str(&mut m, child);
            push_str(&mut m, "' already exists");
            return Err(m);
        }
        let n = self.nodes.len();
        match parent {
            Some(parent_name) => {
                let pi = match find_node(&self.nodes, parent_name) {
                    Some(pi) => pi,
                    None => {
                        let mut m = String::from_str("Parent '");
                        push_str(&mut m, parent_name);
                        push_str(&mut m, "' not found");
                        return Err(m);
                    },
                };
                self.nodes.push(Node { name: String::from_str(child), parent: Some(pi), children: Vec::new() });
                let ghost ns1 = self@;
                self.nodes[pi].children.push(n);
                proof {
                    assert(ns1 =~= ns.push(fresh_node(child@, Some(pi))));
                    assert(self@ =~= ns1.update(pi as int, NodeView { children: ns1[pi as int].children.push(n), ..ns1[pi as int] }));
                    assert(ns.push(fresh_node(child@, Some(pi))).drop_last() =~= ns);
                    lemma_parentless_same(self@, ns1);
                    assert(self@ == added(ns, Some(parent_name@), child@));
                    lemma_added_unique(ns, Some(parent_name@), child@);
                    let a = self@;
                    assert forall|i: int| 0 <= i < a.len() implies ((#[trigger] a[i]).parent matches Some(q) ==> q < a.len()) by {
                        if i < ns.len() && i != pi {
                            assert(a[i] == ns[i]);
                        }
                    }
                    assert forall|i: int, j: int|
                        0 <= i < a.len() && 0 <= j < a[i].children.len() implies #[trigger] a[i].children[j] < a.len() by {
                        if i == pi {
                            if j < ns[i].children.len() {
                                assert(a[i].children[j] == ns[i].children[j]);
                            }
                        } else if i < ns.len() {
                            assert(a[i] == ns[i]);
                        }
                    }
                }
            },
            None => {
                self.nodes.push(Node { name: String::from_str(child), parent: None, children: Vec::new() });
                self.roots.push(n);
                proof {
                    assert(self@ =~= ns.push(fresh_node(child@, None)));
                    assert(ns.push(fresh_node(child@, None)).drop_last() =~= ns);
                    lemma_added_unique(ns, None, child@);
                    let a = self@;
                    assert forall|i: int| 0 <= i < a.len() implies ((#[trigger] a[i]).parent matches Some(q) ==> q < a.len()) by {
                        if i < ns.len() {
                            assert(a[i] == ns[i]);
                        }
                    }
                    assert forall|i: int, j: int|
                        0 <= i < a.len() && 0 <= j < a[i].children.len() implies #[trigger] a[i].children[j] < a.len() by {
                        if i < ns.len() {
                            assert(a[i] == ns[i]);
                        }
                    }
                }
            },
        }
        Ok(())
    }

    /// The name of the parent of the node named `child`.
    pub fn parent_of(&self, child: &str) -> (r: Option<String>)
        requires
            self.wf(),
        ensures
            r matches Some(s) ==> parent_name(self@, child@) == Some(s@),
            r is None ==> parent_name(self@, child@) is None,
    {
        let i = match find_node(&self.nodes, child) {
            Some(i) => i,
            None => { return None; },
        };
        match self.nodes[i].parent {
            None => None,
            Some(p) => Some(self.nodes[p].name.clone()),
        }
    }

    /// The names of the ancestors of the node named `node`, nearest first.
    pub fn ancestors(&self, node: &str) -> (r: Vec<String>)
        requires
            self.wf(),
            chain_ends(self@, node@),
        ensures
            names_of(r@) == ancestor_names(self@, node@),
    {
        let mut result: Vec<String> = Vec::new();
        let start = match find_node(&self.nodes, node) {
            Some(i) => i,
            None => { return result; },
        };
        let ghost ns = self@;
        let ghost total = chain(ns, start as int, ns.len());
        let mut cur = start;
        let ghost mut fuel: nat = ns.len();
        loop
            invariant
                ns == self@,
                indices_valid(ns),
                cur < ns.len(),
                reaches_root(ns, cur as int, fuel),
                names_of(result@) + chain(ns, cur as int, fuel) == total,
            ensures
                names_of(result@) == total,
            decreases fuel,
        {
            proof {
                lemma_chain_step(ns, cur as int, fuel);
            }
            match self.nodes[cur].parent {
                None => {
                    assert(names_of(result@) + chain(ns, cur as int, fuel) =~= names_of(result@));
                    break;
                },
                Some(p) => {
                    let ghost before = names_of(result@);
                    result.push(self.nodes[p].name.clone());
                    proof {
                        assert(names_of(result@) =~= before.push(ns[p as int].name));
                        assert(names_of(result@) + chain(ns, p as int, (fuel - 1) as nat) =~= before + chain(ns, cur as int, fuel));
                        fuel = (fuel - 1) as nat;
                    }
                    cur = p;
                },
            }
        }
        result
    }

    /// The node's own name followed by the names of its ancestors, nearest first.
    pub fn path_to_root(&self, node: &str) -> (r: Vec<String>)
        requires
            self.wf(),
            lookup(self@, node@) >= 0,
            chain_ends(self@, node@),
        ensures
            names_of(r@) == seq![node@] + ancestor_names(self@, node@),
            r@.len() >= 1,
            parent_name(self@, names_of(r@).last()) is None,
    {
        proof {
            let ns = self@;
            let i = lookup(ns, node@);
            lemma_lookup_found(ns, node@);
            let j = lemma_chain_last(ns, i, ns.len());
            lemma_lookup_unique(ns, j);
        }
        let mut path: Vec<String> = Vec::new();
        path.push(String::from_str(node));
        let rest = self.ancestors(node);
        let mut k: usize = 0;
        while k < rest.len()
            invariant
                k <= rest@.len(),
                names_of(path@) == seq![node@] + names_of(rest@).take(k as int),
            decreases rest.len() - k,
        {
            let ghost before = names_of(path@);
            let c = rest[k].clone();
            path.push(c);
            assert(names_of(path@) =~= before.push(c@));
            assert(names_of(rest@)[k as int] == c@);
            k = k + 1;
            assert(names_of(path@) =~= seq![node@] + names_of(rest@).take(k as int));
        }
        assert(names_of(rest@).take(k as int) =~= names_of(rest@));
        path
    }
}

/// Appends the pre-order names of the subtree at node `i`.
fn dfs_node(nodes: &Vec<Node>, i: usize, out: &mut Vec<String>, Ghost(fuel): Ghost<nat>, Ghost(rank): Ghost<Seq<nat>>)
    requires
        indices_valid(nodes_view(nodes@)),
        ranked(nodes_view(nodes@), rank),
        i < nodes@.len(),
        rank[i as int] < fuel,
    ensures
        names_of(final(out)@) == names_of(old(out)@) + preorder(nodes_view(nodes@), i as int, fuel),
    decreases fuel,
{
    let ghost ns = nodes_view(nodes@);
    let ghost start = names_of(out@);
    out.push(nodes[i].name.clone());
    assert(names_of(out@) =~= start.push(ns[i as int].name));
    let n = nodes[i].children.len();
    let mut j: usize = 0;
    while j < n
        invariant
            ns == nodes_view(nodes@),
            indices_valid(ns),
            ranked(ns, rank),
            i < ns.len(),
            rank[i as int] < fuel,
            n == ns[i as int].children.len(),
            j <= n,
            names_of(out@) == start.push(ns[i as int].name) + preorder_list(ns, ns[i as int].children.take(j as int), (fuel - 1) as nat),
        decreases n - j,
    {
        let c = nodes[i].children[j];
        assert(c == ns[i as int].children[j as int]);
        assert(rank[c as int] < rank[i as int]);
        dfs_node(nodes, c, out, Ghost((fuel - 1) as nat), Ghost(rank));
        proof {
            let cs = ns[i as int].children;
            assert(cs.take(j + 1).drop_last() =~= cs.take(j as int));
            assert(cs.take(j + 1).last() == c);
        }
        j = j + 1;
    }
    proof {
        assert(ns[i as int].children.take(n as int) =~= ns[i as int].children);
    }
}

impl Tree {
    /// The names of all nodes in depth-first pre-order, root by root.
    pub fn dfs(&self) -> (r: Vec<String>)
        requires
            self.wf(),
            acyclic(self@),
        ensures
            names_of(r@) == preorder_list(self@, self.roots@, self@.len()),
    {
        let ghost ns = self@;
        let ghost rank = choose|rank: Seq<nat>| ranked(ns, rank);
        let mut out: Vec<String> = Vec::new();
        proof {
            lemma_parentless_valid(ns);
        }
        let mut k: usize = 0;
        while k < self.roots.len()
            invariant
                ns == self@,
                self.wf(),
                ranked(ns, rank),
                k <= self.roots@.len(),
                forall|m: int| 0 <= m < parentless(ns).len() ==> #[trigger] parentless(ns)[m] < ns.len(),
                names_of(out@) == preorder_list(ns, self.roots@.take(k as int), ns.len()),
            decreases self.roots.len() - k,
        {
            let r = self.roots[k];
            assert(r == parentless(ns)[k as int]);
            dfs_node(&self.nodes, r, &mut out, Ghost(ns.len()), Ghost(rank));
            proof {
                assert(self.roots@.take(k + 1).drop_last() =~= self.roots@.take(k as int));
            }
            k = k + 1;
        }
        assert(self.roots@.take(k as int) =~= self.roots@);
        out
    }

    /// The names of all nodes in breadth-first order: the roots, then their children,
    /// and so on level by level.
    pub fn bfs(&self) -> (r: Vec<String>)
        requires
            self.wf(),
            acyclic(self@),
        ensures
            names_of(r@) == level_order(self@, self.roots@, self@.len()),
    {
        let ghost ns = self@;
        let ghost rank = choose|rank: Seq<nat>| ranked(ns, rank);
        proof {
            lemma_parentless_valid(ns);
        }
        let mut out: Vec<String> = Vec::new();
        let mut level: Vec<usize> = Vec::new();
        let mut k: usize = 0;
        while k < self.roots.len()
            invariant
                k <= self.roots@.len(),
                level@ == self.roots@.take(k as int),
            decreases self.roots.len() - k,
        {
            level.push(self.roots[k]);
            k = k + 1;
            assert(level@ =~= self.roots@.take(k as int));
        }
        assert(level@ =~= self.roots@);
        let ghost mut fuel: nat = ns.len();
        while level.len() > 0
            invariant
                ns == self@,
                indices_valid(ns),
                ranked(ns, rank),
                forall|m: int| 0 <= m < level@.len() ==> #[trigger] level@[m] < ns.len() && rank[level@[m] as int] < fuel,
                names_of(out@) + level_order(ns, level@, fuel) == level_order(ns, self.roots@, ns.len()),
            decreases fuel,
        {
            assert(rank[level@[0] as int] < fuel);
            let ghost before = names_of(out@);
            let mut next: Vec<usize> = Vec::new();
            let mut m: usize = 0;
            while m < level.len()
                invariant
                    ns == self@,
                    indices_valid(ns),
                    ranked(ns, rank),
                    forall|q: int| 0 <= q < level@.len() ==> #[trigger] level@[q] < ns.len() && rank[level@[q] as int] < fuel,
                    m <= level@.len(),
                    names_of(out@) == before + level@.take(m as int).map_values(|i: usize| ns[i as int].name),
                    next@ == next_level(ns, level@.take(m as int)),
                    forall|q: int| 0 <= q < next@.len() ==> #[trigger] next@[q] < ns.len() && rank[next@[q] as int] < fuel - 1,
                decreases level.len() - m,
            {
                let v = level[m];
                let ghost out_before = names_of(out@);
                let ghost next_before = next@;
                out.push(self.nodes[v].name.clone());
                let n = self.nodes[v].children.len();
                let mut j: usize = 0;
                while j < n
                    invariant
                        ns == self@,
                        indices_valid(ns),
                        ranked(ns, rank),
                        v < ns.len(),
                        rank[v as int] < fuel,
                        n == ns[v as int].children.len(),
                        j <= n,
                        next@ == next_before + ns[v as int].children.take(j as int),
                        forall|q: int| 0 <= q < next@.len() ==> #[trigger] next@[q] < ns.len() && rank[next@[q] as int] < fuel - 1,
                    decreases n - j,
                {
                    let c = self.nodes[v].children[j];
                    assert(c == ns[v as int].children[j as int]);
                    assert(rank[c as int] < rank[v as int]);
                    next.push(c);
                    j = j + 1;
                    assert(next@ =~= next_before + ns[v as int].children.take(j as int));
                }
                proof {
                    assert(ns[v as int].children.take(n as int) =~= ns[v as int].children);
                    assert(level@.take(m + 1).drop_last() =~= level@.take(m as int));
                    assert(level@.take(m + 1).last() == v);
                    assert(level@.take(m + 1).map_values(|i: usize| ns[i as int].name) =~= level@.take(m as int).map_values(|i: usize| ns[i as int].name).push(ns[v as int].name));
                    assert(names_of(out@) =~= out_before.push(ns[v as int].name));
                }
                m = m + 1;
            }
            proof {
                assert(level@.take(m as int) =~= level@);
                assert(names_of(out@) + level_order(ns, next@, (fuel - 1) as nat) =~= before + level_order(ns, level@, fuel));
                fuel = (fuel - 1) as nat;
            }
            level = next;
        }
        assert(names_of(out@) + level_order(ns, level@, fuel) =~= names_of(out@));
        out
    }
}

/// After a node is added below an existing parent, its parent is that parent, and it is
/// found at the end.
pub proof fn lemma_added_child_parent(ns: Seq<NodeView>, p: Seq<char>, c: Seq<char>)
    requires
        ns.len() < usize::MAX,
        indices_valid(ns),
        lookup(ns, c) < 0,
        lookup(ns, p) >= 0,
    ensures
        lookup(added(ns, Some(p), c), c) == ns.len(),
        parent_name(added(ns, Some(p), c), c) == Some(p),
{
    let pi = lookup(ns, p);
    lemma_lookup_found(ns, p);
    let ns1 = ns.push(fresh_node(c, Some(pi as usize)));
    lemma_lookup_push(ns, fresh_node(c, Some(pi as usize)), c);
    let a = added(ns, Some(p), c);
    lemma_lookup_same_names(ns1, a, c);
    assert(a[ns.len() as int] == ns1[ns.len() as int]);
    assert(a[pi].name == ns[pi].name);
}

/// A node added as a root has no parent and joins the end of the roots.
pub proof fn lemma_added_root(ns: Seq<NodeView>, c: Seq<char>)
    requires
        lookup(ns, c) < 0,
    ensures
        parent_name(added(ns, None, c), c) is None,
        parentless(added(ns, None, c)) == parentless(ns).push(ns.len() as usize),
{
    lemma_lookup_push(ns, fresh_node(c, None), c);
    assert(ns.push(fresh_node(c, None)).drop_last() =~= ns);
}

/// Adding a node changes neither which node another name denotes nor that node's parent.
pub proof fn lemma_added_keeps_others(ns: Seq<NodeView>, parent: Option<Seq<char>>, c: Seq<char>, other: Seq<char>)
    requires
        ns.len() < usize::MAX,
        indices_valid(ns),
        lookup(ns, c) < 0,
        parent matches Some(p) ==> lookup(ns, p) >= 0,
        other != c,
    ensures
        lookup(added(ns, parent, c), other) == lookup(ns, other),
        parent_name(added(ns, parent, c), other) == parent_name(ns, other),
{
    let a = added(ns, parent, c);
    lemma_lookup_found(ns, other);
    match parent {
        None => {
            lemma_lookup_push(ns, fresh_node(c, None), other);
        },
        Some(p) => {
            let pi = lookup(ns, p);
            lemma_lookup_found(ns, p);
            let ns1 = ns.push(fresh_node(c, Some(pi as usize)));
            lemma_lookup_push(ns, fresh_node(c, Some(pi as usize)), other);
            lemma_lookup_same_names(ns1, a, other);
            let i = lookup(ns, other);
            if i >= 0 {
                assert(a[i].parent == ns[i].parent);
                if let Some(q) = ns[i].parent {
                    assert(a[q as int].name == ns[q as int].name);
                }
            }
        },
    }
}

/// Adding a node keeps the child links free of cycles.
pub proof fn lemma_added_keeps_acyclic(ns: Seq<NodeView>, parent: Option<Seq<char>>, c: Seq<char>)
    requires
        ns.len() < usize::MAX,
        indices_valid(ns),
        acyclic(ns),
        parent matches Some(p) ==> lookup(ns, p) >= 0,
    ensures
        acyclic(added(ns, parent, c)),
{
    let rank = choose|rank: Seq<nat>| ranked(ns, rank);
    let a = added(ns, parent, c);
    let r2 = Seq::new(a.len(), |i: int| if i < ns.len() { rank[i] + 1 } else { 0nat });
    if let Some(p) = parent {
        lemma_lookup_found(ns, p);
    }
    assert forall|i: int, j: int| 0 <= i < a.len() && 0 <= j < a[i].children.len() implies r2[#[trigger] a[i].children[j] as int] < r2[i] by {
        if i < ns.len() {
            if j < ns[i].children.len() {
                assert(a[i].children[j] == ns[i].children[j]);
            } else {
                assert(a[i].children[j] == ns.len());
            }
        }
    }
    assert(ranked(a, r2));
}

proof fn lemma_built_len(edges: Seq<(Seq<char>, Seq<char>)>)
    ensures
        built(edges).len() <= 2 * edges.len(),
    decreases edges.len(),
{
    if edges.len() > 0 {
        lemma_built_len(edges.drop_last());
        let ns = built(edges.drop_last());
        let ns1 = with_node(ns, edges.last().0);
        let ns2 = with_node(ns1, edges.last().1);
        assert(ns1.len() <= ns.len() + 1);
        assert(ns2.len() <= ns1.len() + 1);
        lemma_lookup_found(ns, edges.last().0);
        if lookup(ns, edges.last().0) < 0 {
            lemma_lookup_push(ns, fresh_node(edges.last().0, None), edges.last().0);
        }
        lemma_lookup_found(ns1, edges.last().0);
        lemma_lookup_found(ns1, edges.last().1);
        if lookup(ns1, edges.last().1) < 0 {
            lemma_lookup_push(ns1, fresh_node(edges.last().1, None), edges.last().1);
        }
        lemma_lookup_found(ns2, edges.last().1);
        assert(link(ns, edges.last().0, edges.last().1).len() == ns2.len());
    }
}

/// After building, the child of the last link has the parent of the last link.
pub proof fn lemma_built_last_parent(edges: Seq<(Seq<char>, Seq<char>)>)
    requires
        edges.len() > 0,
        2 * edges.len() <= usize::MAX,
    ensures
        parent_name(built(edges), edges.last().1) == Some(edges.last().0),
{
    lemma_built_len(edges.drop_last());
    let ns = built(edges.drop_last());
    let (p, c) = edges.last();
    lemma_built_valid(edges.drop_last());
    let ns1 = with_node(ns, p);
    lemma_lookup_found(ns, p);
    if lookup(ns, p) < 0 {
        lemma_lookup_push(ns, fresh_node(p, None), p);
    }
    lemma_lookup_found(ns1, p);
    let pi = lookup(ns1, p);
    let ns2 = with_node(ns1, c);
    lemma_lookup_found(ns1, c);
    if lookup(ns1, c) < 0 {
        lemma_lookup_push(ns1, fresh_node(c, None), c);
        lemma_lookup_push(ns1, fresh_node(c, None), p);
    }
    lemma_lookup_found(ns2, c);
    let ci = lookup(ns2, c);
    let ns3 = ns2.update(ci, NodeView { parent: Some(pi as usize), ..ns2[ci] });
    let ns4 = ns3.update(pi, NodeView { children: ns3[pi].children.push(ci as usize), ..ns3[pi] });
    lemma_lookup_same_names(ns2, ns3, c);
    lemma_lookup_same_names(ns3, ns4, c);
    assert(ns4[ci].parent == Some(pi as usize));
    assert(ns4[pi].name == ns2[pi].name);
}


/// Where names are unique, a node's name leads back to it.
proof fn lemma_lookup_unique(ns: Seq<NodeView>, i: int)
    requires
        names_unique(ns),
        0 <= i < ns.len(),
    ensures
        lookup(ns, ns[i].name) == i,
{
    lemma_lookup_found(ns, ns[i].name);
}

proof fn lemma_with_node_unique(ns: Seq<NodeView>, name: Seq<char>)
    requires
        names_unique(ns),
    ensures
        names_unique(with_node(ns, name)),
{
    lemma_lookup_found(ns, name);
    let r = with_node(ns, name);
    if lookup(ns, name) < 0 {
        assert forall|i: int, j: int| 0 <= i < r.len() && 0 <= j < r.len() && i != j implies #[trigger] r[i].name != #[trigger] r[j].name by {
            if i < ns.len() && j < ns.len() {
                assert(r[i] == ns[i] && r[j] == ns[j]);
            } else if i < ns.len() {
                assert(r[i] == ns[i]);
            } else {
                assert(r[j] == ns[j]);
            }
        }
    }
}

proof fn lemma_link_unique(ns: Seq<NodeView>, p: Seq<char>, c: Seq<char>)
    requires
        names_unique(ns),
    ensures
        names_unique(link(ns, p, c)),
{
    let ns1 = with_node(ns, p);
    lemma_with_node_unique(ns, p);
    lemma_lookup_found(ns1, p);
    let pi = lookup(ns1, p);
    let ns2 = with_node(ns1, c);
    lemma_with_node_unique(ns1, c);
    lemma_with_node_valid_len(ns1, c);
    lemma_lookup_found(ns2, c);
    let ci = lookup(ns2, c);
    let ns3 = ns2.update(ci, NodeView { parent: Some(pi as usize), ..ns2[ci] });
    let ns4 = ns3.update(pi, NodeView { children: ns3[pi].children.push(ci as usize), ..ns3[pi] });
    assert forall|i: int| 0 <= i < ns4.len() implies #[trigger] ns4[i].name == ns2[i].name by {}
}

proof fn lemma_with_node_valid_len(ns: Seq<NodeView>, name: Seq<char>)
    ensures
        with_node(ns, name).len() >= ns.len(),
        forall|i: int| 0 <= i < ns.len() ==> with_node(ns, name)[i] == ns[i],
{
}

proof fn lemma_built_unique(edges: Seq<(Seq<char>, Seq<char>)>)
    ensures
        names_unique(built(edges)),
    decreases edges.len(),
{
    if edges.len() > 0 {
        lemma_built_unique(edges.drop_last());
        lemma_link_unique(built(edges.drop_last()), edges.last().0, edges.last().1);
    }
}

/// Adding a node under a fresh name keeps the names unique.
proof fn lemma_added_unique(ns: Seq<NodeView>, parent: Option<Seq<char>>, c: Seq<char>)
    requires
        names_unique(ns),
        lookup(ns, c) < 0,
        parent matches Some(p) ==> lookup(ns, p) >= 0,
    ensures
        names_unique(added(ns, parent, c)),
{
    lemma_lookup_found(ns, c);
    if let Some(p) = parent {
        lemma_lookup_found(ns, p);
    }
    let a = added(ns, parent, c);
    assert forall|i: int| 0 <= i < a.len() implies #[trigger] a[i].name == (if i < ns.len() { ns[i].name } else { c }) by {}
    assert forall|i: int, j: int| 0 <= i < a.len() && 0 <= j < a.len() && i != j implies #[trigger] a[i].name != #[trigger] a[j].name by {
        assert(a[i].name == (if i < ns.len() { ns[i].name } else { c }));
        assert(a[j].name == (if j < ns.len() { ns[j].name } else { c }));
    }
}

/// Following parents from a node that reaches a root ends at a node without parent: the
/// last name of the node's name followed by its chain is that root's.
proof fn lemma_chain_last(ns: Seq<NodeView>, i: int, f: nat) -> (j: int)
    requires
        indices_valid(ns),
        0 <= i < ns.len(),
        reaches_root(ns, i, f),
    ensures
        0 <= j < ns.len(),
        ns[j].parent is None,
        (seq![ns[i].name] + chain(ns, i, f)).last() == ns[j].name,
    decreases f,
{
    match ns[i].parent {
        None => {
            i
        },
        Some(q) => {
            assert(ns[i].parent matches Some(p) ==> p < ns.len());
            let j = lemma_chain_last(ns, q as int, (f - 1) as nat);
            assert(chain(ns, i, f) == seq![ns[q as int].name] + chain(ns, q as int, (f - 1) as nat));
            assert((seq![ns[i].name] + chain(ns, i, f)).last() == (seq![ns[q as int].name] + chain(ns, q as int, (f - 1) as nat)).last());
            j
        },
    }
}

/// Linking a child below a parent leaves the parent of every other named node as it was.
proof fn lemma_link_keeps_parent(ns: Seq<NodeView>, p: Seq<char>, c: Seq<char>, other: Seq<char>)
    requires
        indices_valid(ns),
        lookup(ns, other) >= 0,
        other != c,
    ensures
        parent_name(link(ns, p, c), other) == parent_name(ns, other),
{
    let oi = lookup(ns, other);
    lemma_lookup_found(ns, other);
    let ns1 = with_node(ns, p);
    lemma_with_node_valid_len(ns, p);
    assert(ns1.take(ns.len() as int) =~= ns);
    assert(ns1.take(ns.len() as int).take(oi + 1) =~= ns.take(oi + 1));
    lemma_lookup_prefix(ns, oi + 1, other);
    lemma_lookup_prefix_of(ns, oi);
    lemma_lookup_prefix(ns1, oi + 1, other);
    lemma_lookup_found(ns1, p);
    let pi = lookup(ns1, p);
    let ns2 = with_node(ns1, c);
    lemma_with_node_valid_len(ns1, c);
    assert(ns2.take(oi + 1) =~= ns.take(oi + 1));
    lemma_lookup_prefix(ns2, oi + 1, other);
    lemma_lookup_found(ns2, c);
    let ci = lookup(ns2, c);
    let ns3 = ns2.update(ci, NodeView { parent: Some(pi as usize), ..ns2[ci] });
    let ns4 = ns3.update(pi, NodeView { children: ns3[pi].children.push(ci as usize), ..ns3[pi] });
    lemma_lookup_same_names(ns2, ns3, other);
    lemma_lookup_same_names(ns3, ns4, other);
    assert(ns4[oi].parent == ns[oi].parent);
    if let Some(q) = ns[oi].parent {
        assert(ns4[q as int].name == ns[q as int].name);
    }
}

/// The lookup of a node's own name in the prefix that ends at it finds it, where it is
/// the first node of that name.
proof fn lemma_lookup_prefix_of(ns: Seq<NodeView>, i: int)
    requires
        0 <= i < ns.len(),
        lookup(ns, ns[i].name) == i,
    ensures
        lookup(ns.take(i + 1), ns[i].name) == i,
{
    lemma_lookup_found(ns, ns[i].name);
    let pre = ns.take(i + 1);
    assert(pre.drop_last() =~= ns.take(i));
    lemma_lookup_found(pre.drop_last(), ns[i].name);
    if lookup(pre.drop_last(), ns[i].name) >= 0 {
        lemma_lookup_prefix(ns, i, ns[i].name);
    }
}

/// Building from links whose children are all different gives each link's child the
/// link's parent.
pub proof fn lemma_built_parents(edges: Seq<(Seq<char>, Seq<char>)>)
    requires
        2 * edges.len() <= usize::MAX,
        forall|i: int, j: int| 0 <= i < edges.len() && 0 <= j < edges.len() && i != j ==> #[trigger] edges[i].1 != #[trigger] edges[j].1,
    ensures
        forall|k: int| 0 <= k < edges.len() ==> parent_name(built(edges), #[trigger] edges[k].1) == Some(edges[k].0),
    decreases edges.len(),
{
    if edges.len() > 0 {
        let front = edges.drop_last();
        lemma_built_parents(front);
        lemma_built_last_parent(edges);
        lemma_built_valid(front);
        assert forall|k: int| 0 <= k < edges.len() implies parent_name(built(edges), #[trigger] edges[k].1) == Some(edges[k].0) by {
            if k < edges.len() - 1 {
                assert(front[k] == edges[k]);
                assert(parent_name(built(front), front[k].1) == Some(front[k].0));
                assert(edges[k].1 != edges[edges.len() - 1].1);
                lemma_link_keeps_parent(built(front), edges.last().0, edges.last().1, edges[k].1);
            }
        }
    }
}


/// The names of a node's children, in order.
pub open spec fn child_names(ns: Seq<NodeView>, i: int) -> Seq<Seq<char>> {
    ns[i].children.map_values(|c: usize| ns[c as int].name)
}

/// The children the links give a parent, in link order.
pub open spec fn linked_children(edges: Seq<(Seq<char>, Seq<char>)>, p: Seq<char>) -> Seq<Seq<char>>
    decreases edges.len(),
{
    if edges.len() == 0 {
        Seq::empty()
    } else {
        linked_children(edges.drop_last(), p) + if edges.last().0 == p {
            seq![edges.last().1]
        } else {
            Seq::<Seq<char>>::empty()
        }
    }
}

/// What linking does to the nodes: names stay, new nodes (named by the link) come last,
/// only the parent's children change, by the child appended, and known names keep their
/// nodes.
proof fn lemma_link_shape(ns: Seq<NodeView>, p: Seq<char>, c: Seq<char>)
    requires
        indices_valid(ns),
    ensures
        ({
            let n2 = link(ns, p, c);
            let pi = lookup(n2, p);
            let ci = lookup(n2, c);
            &&& n2.len() >= ns.len()
            &&& 0 <= pi < n2.len() && 0 <= ci < n2.len()
            &&& n2[pi].name == p && n2[ci].name == c
            &&& forall|i: int| 0 <= i < ns.len() ==> #[trigger] n2[i].name == ns[i].name
            &&& forall|i: int| ns.len() <= i < n2.len() ==> (#[trigger] n2[i].name == p || n2[i].name == c)
            &&& forall|i: int| 0 <= i < n2.len() && i != pi ==> #[trigger] n2[i].children == (if i < ns.len() {
                ns[i].children
            } else {
                Seq::<usize>::empty()
            })
            &&& n2[pi].children == (if pi < ns.len() { ns[pi].children } else { Seq::<usize>::empty() }).push(ci as usize)
        }),
{
    let ns1 = with_node(ns, p);
    lemma_with_node_valid_len(ns, p);
    lemma_lookup_found(ns, p);
    if lookup(ns, p) < 0 {
        lemma_lookup_push(ns, fresh_node(p, None), p);
    }
    lemma_lookup_found(ns1, p);
    let pi = lookup(ns1, p);
    let ns2 = with_node(ns1, c);
    lemma_with_node_valid_len(ns1, c);
    lemma_lookup_found(ns1, c);
    if lookup(ns1, c) < 0 {
        lemma_lookup_push(ns1, fresh_node(c, None), c);
        lemma_lookup_push(ns1, fresh_node(c, None), p);
    }
    lemma_lookup_found(ns2, c);
    let ci = lookup(ns2, c);
    let ns3 = ns2.update(ci, NodeView { parent: Some(pi as usize), ..ns2[ci] });
    let ns4 = ns3.update(pi, NodeView { children: ns3[pi].children.push(ci as usize), ..ns3[pi] });
    lemma_lookup_same_names(ns2, ns3, c);
    lemma_lookup_same_names(ns3, ns4, c);
    lemma_lookup_same_names(ns2, ns3, p);
    lemma_lookup_same_names(ns3, ns4, p);
    assert(lookup(ns2, p) == pi);
}

/// Where each child is linked once, building gives every named node the children its
/// links name, in link order; a name never linked as a parent has none.
pub proof fn lemma_built_children(edges: Seq<(Seq<char>, Seq<char>)>, q: Seq<char>)
    requires
        2 * edges.len() <= usize::MAX,
        forall|i: int, j: int| 0 <= i < edges.len() && 0 <= j < edges.len() && i != j ==> #[trigger] edges[i].1 != #[trigger] edges[j].1,
    ensures
        lookup(built(edges), q) >= 0 ==> child_names(built(edges), lookup(built(edges), q)) == linked_children(edges, q),
        lookup(built(edges), q) < 0 ==> linked_children(edges, q) == Seq::<Seq<char>>::empty(),
    decreases edges.len(),
{
    if edges.len() > 0 {
        let front = edges.drop_last();
        let (p, c) = edges.last();
        assert forall|i: int, j: int| 0 <= i < front.len() && 0 <= j < front.len() && i != j implies #[trigger] front[i].1 != #[trigger] front[j].1 by {
            assert(front[i] == edges[i] && front[j] == edges[j]);
        }
        lemma_built_children(front, q);
        let ns = built(front);
        lemma_built_valid(front);
        lemma_built_unique(front);
        lemma_built_unique(edges);
        lemma_link_shape(ns, p, c);
        let n2 = built(edges);
        assert(n2 == link(ns, p, c));
        lemma_built_len(edges);
        let pi = lookup(n2, p);
        let ci = lookup(n2, c);
        lemma_lookup_found(ns, q);
        lemma_lookup_found(n2, q);
        // the child of the last link is new as a child: no earlier link names it
        lemma_built_children(front, c);
        if lookup(ns, q) >= 0 {
            let qi = lookup(ns, q);
            assert(n2[qi].name == q);
            lemma_lookup_unique(n2, qi);
            assert(lookup(n2, q) == qi);
            let old_names = child_names(ns, qi);
            assert forall|k: int| 0 <= k < ns[qi].children.len() implies n2[#[trigger] ns[qi].children[k] as int].name == ns[ns[qi].children[k] as int].name by {
                assert(ns[qi].children[k] < ns.len());
            }
            if qi == pi {
                assert(q == p);
                let nc = n2[qi].children;
                assert(nc == ns[qi].children.push(ci as usize));
                assert forall|k: int| 0 <= k < nc.len() implies #[trigger] child_names(n2, qi)[k] == old_names.push(c)[k] by {
                    if k < ns[qi].children.len() {
                        assert(nc[k] == ns[qi].children[k]);
                        assert(n2[ns[qi].children[k] as int].name == ns[ns[qi].children[k] as int].name);
                    } else {
                        assert(nc[k] == ci);
                    }
                }
                assert(child_names(n2, qi) =~= old_names.push(c));
            } else {
                assert(q != p);
                assert(child_names(n2, qi) =~= old_names);
            }
        } else if lookup(n2, q) >= 0 {
            let qi = lookup(n2, q);
            assert(qi >= ns.len());
            assert(q == p || q == c);
            assert(linked_children(front, q) == Seq::<Seq<char>>::empty());
            if qi == pi {
                assert(q == p);
                assert(n2[ci].name == c);
                assert(n2[qi].children =~= seq![ci as usize]);
                assert(child_names(n2, qi)[0] == n2[ci].name);
                assert(child_names(n2, qi) =~= seq![c]);
            } else {
                assert(q != p);
                assert(child_names(n2, qi) =~= Seq::<Seq<char>>::empty());
            }
        } else {
            assert(q != p);
        }
    }
}

} // verus!
