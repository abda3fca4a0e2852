//! The directed graphs of role hierarchies, held in a `petgraph` stable graph whose
//! node weights are role names.
use vstd::prelude::*;
use petgraph::stable_graph::StableGraph;
use petgraph::Directed;
use petgraph::visit::Walker;

verus! {

#[verifier::external_type_specification]
#[verifier::external_body]
#[verifier::reject_recursive_types(N)]
#[verifier::reject_recursive_types(E)]
#[verifier::reject_recursive_types(Ty)]
#[verifier::reject_recursive_types(Ix)]
pub struct ExStableGraph<N, E, Ty, Ix>(StableGraph<N, E, Ty, Ix>);

#[verifier::external_type_specification]
#[verifier::external_body]
pub struct ExDirected(Directed);

/// The node weights of a graph, by node index (the graphs of this crate never lose nodes).
pub uninterp spec fn graph_nodes(g: StableGraph<String, (), Directed, u32>) -> Seq<Seq<char>>;

/// The edges of a graph, as pairs of node indices.
pub uninterp spec fn graph_edges(g: StableGraph<String, (), Directed, u32>) -> Set<(int, int)>;

/// The number of edges a graph has been given (parallel edges counted); the crate
/// numbers edges by it.
pub uninterp spec fn graph_edge_count(g: StableGraph<String, (), Directed, u32>) -> nat;

/// Nothing was removed from the graph: its nodes are numbered from 0 without gaps and
/// its edges from 0 in the order they were added (what a stable graph keeps when no
/// node or edge is removed, which this crate never does).
pub uninterp spec fn graph_dense(g: StableGraph<String, (), Directed, u32>) -> bool;

/// A path: consecutive nodes joined by edges.
pub open spec fn is_path(edges: Set<(int, int)>, p: Seq<int>) -> bool {
    &&& p.len() >= 1
    &&& forall|k: int| 0 <= k < p.len() - 1 ==> #[trigger] edges.contains((p[k], p[k + 1]))
}

/// `b` can be reached from `a` along edges (every node reaches itself).
pub open spec fn reachable(edges: Set<(int, int)>, a: int, b: int) -> bool {
    exists|p: Seq<int>| #[trigger] is_path(edges, p) && p[0] == a && p.last() == b
}

/// `StableGraph::new()`. Claimed: no nodes and no edges, nothing removed.
#[verifier::external_body]
pub(crate) fn graph_new() -> (g: StableGraph<String, (), Directed, u32>)
    ensures
        graph_dense(g),
        graph_nodes(g) == Seq::<Seq<char>>::empty(),
        graph_edges(g) == Set::<(int, int)>::empty(),
        graph_edge_count(g) == 0,
{
    StableGraph::new()
}

/// `StableGraph::add_node`. Claimed (for graphs without vacant slots): the new node
/// takes the next index, the edges stay, and still nothing is removed. The crate
/// panics when the index would reach `u32::MAX`, which `requires` leaves out.
#[verifier::external_body]
pub(crate) fn graph_add_node(g: &mut StableGraph<String, (), Directed, u32>, weight: String) -> (idx: u32)
    requires
        graph_dense(*old(g)),
        graph_nodes(*old(g)).len() < u32::MAX,
    ensures
        graph_dense(*final(g)),
        idx == graph_nodes(*old(g)).len(),
        graph_nodes(*final(g)) == graph_nodes(*old(g)).push(weight@),
        graph_edges(*final(g)) == graph_edges(*old(g)),
        graph_edge_count(*final(g)) == graph_edge_count(*old(g)),
{
    g.add_node(weight).index() as u32
}

/// `StableGraph::add_edge(a, b, ())`. Claimed (for graphs without vacant slots): the
/// edge `(a, b)` is added (one more edge), nodes stay, and still nothing is removed.
/// The crate panics when an endpoint is not a node or when the edge index would reach
/// `u32::MAX`, which `requires` leaves out.
#[verifier::external_body]
pub(crate) fn graph_add_edge(g: &mut StableGraph<String, (), Directed, u32>, a: u32, b: u32)
    requires
        graph_dense(*old(g)),
        a < graph_nodes(*old(g)).len(),
        b < graph_nodes(*old(g)).len(),
        graph_edge_count(*old(g)) < u32::MAX,
    ensures
        graph_dense(*final(g)),
        graph_nodes(*final(g)) == graph_nodes(*old(g)),
        graph_edges(*final(g)) == graph_edges(*old(g)).insert((a as int, b as int)),
        graph_edge_count(*final(g)) == graph_edge_count(*old(g)) + 1,
{
    g.add_edge(petgraph::graph::NodeIndex::new(a as usize), petgraph::graph::NodeIndex::new(b as usize), ());
}

/// The node indices that `petgraph::visit::Bfs` visits from `start`, in visiting order.
/// Claimed, as its documentation says: it starts at `start`, visits every node
/// reachable from it and only those, each once.
#[verifier::external_body]
pub(crate) fn graph_bfs(g: &StableGraph<String, (), Directed, u32>, start: u32) -> (r: Vec<u32>)
    requires
        graph_dense(*g),
        start < graph_nodes(*g).len(),
    ensures
        r@.no_duplicates(),
        r@.len() >= 1,
        r@[0] == start,
        forall|j: u32| r@.contains(j) <==> (j < graph_nodes(*g).len() && reachable(graph_edges(*g), start as int, j as int)),
{
    petgraph::visit::Bfs::new(g, petgraph::graph::NodeIndex::new(start as usize)).iter(g).map(|n| n.index() as u32).collect()
}

/// `StableGraph::node_weight`. Claimed (for graphs without vacant slots): the weight
/// of node `i`.
#[verifier::external_body]
pub(crate) fn graph_node_weight(g: &StableGraph<String, (), Directed, u32>, i: u32) -> (w: &String)
    requires
        graph_dense(*g),
        i < graph_nodes(*g).len(),
    ensures
        w@ == graph_nodes(*g)[i as int],
{
    g.node_weight(petgraph::graph::NodeIndex::new(i as usize)).unwrap()
}

/// `StableGraph::clone`. Claimed: same nodes and edges, and the same vacant slots.
#[verifier::external_body]
pub(crate) fn graph_clone(g: &StableGraph<String, (), Directed, u32>) -> (c: StableGraph<String, (), Directed, u32>)
    ensures
        graph_dense(c) == graph_dense(*g),
        graph_nodes(c) == graph_nodes(*g),
        graph_edges(c) == graph_edges(*g),
        graph_edge_count(c) == graph_edge_count(*g),
{
    g.clone()
}

} // verus!
