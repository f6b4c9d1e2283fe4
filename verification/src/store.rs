//! The `petgraph` container that holds the nodes and edges, and the contracts
//! under which the rest of the library uses it.
//!
//! Nothing in this file is proved: each function states what the `petgraph`
//! method it calls does, as that crate's source shows it.

use petgraph::graph::EdgeIndex;
use petgraph::graph::Graph;
use petgraph::graph::NodeIndex;
use petgraph::Directed;
use vstd::prelude::*;

verus! {

/// `petgraph::graph::Graph`, taken as it is: nothing is known of what is
/// inside a graph but what the functions below state.
#[verifier::external_type_specification]
#[verifier::external_body]
#[verifier::reject_recursive_types(N)]
#[verifier::reject_recursive_types(E)]
#[verifier::reject_recursive_types(Ty)]
#[verifier::reject_recursive_types(Ix)]
pub struct ExGraph<N, E, Ty, Ix>(Graph<N, E, Ty, Ix>);

/// `petgraph::Directed`, the marker of a graph whose edges have a direction.
#[verifier::external_type_specification]
#[verifier::external_body]
pub struct ExDirected(Directed);

/// A directed graph whose nodes carry a title and a position and whose edges
/// carry a weight.
pub type NetworkGraph = Graph<(String, i32, i32), usize, Directed, u32>;

/// The largest number of nodes, and of edges, that a graph indexed by `u32`
/// takes: `petgraph` keeps the index `u32::MAX` for "no such item".
pub const MAX_ITEMS: usize = 0xFFFF_FFFF;

/// The node weights of a graph in the order of their indices: title, x, y.
pub uninterp spec fn graph_nodes(g: Graph<(String, i32, i32), usize, Directed, u32>) -> Seq<(Seq<char>, i32, i32)>;

/// The edges of a graph in the order of their indices: the index of the
/// source node, the index of the target node, the weight.
pub uninterp spec fn graph_edges(g: Graph<(String, i32, i32), usize, Directed, u32>) -> Seq<(usize, usize, usize)>;

/// `Graph::new`: a directed graph without nodes or edges.
#[verifier::external_body]
pub(crate) fn graph_new() -> (g: NetworkGraph)
    ensures
        graph_nodes(g) == Seq::<(Seq<char>, i32, i32)>::empty(),
        graph_edges(g) == Seq::<(usize, usize, usize)>::empty(),
{
    Graph::new()
}

/// `Graph::node_count`: the number of nodes.
#[verifier::external_body]
pub(crate) fn graph_node_count(g: &NetworkGraph) -> (n: usize)
    ensures
        n == graph_nodes(*g).len(),
{
    g.node_count()
}

/// `Graph::edge_count`: the number of edges.
#[verifier::external_body]
pub(crate) fn graph_edge_count(g: &NetworkGraph) -> (n: usize)
    ensures
        n == graph_edges(*g).len(),
{
    g.edge_count()
}

/// `Graph::add_node`: appends a node and returns its index, which is the
/// number of nodes before the call. The edges stay as they are. The method
/// panics on a graph that already holds `MAX_ITEMS` nodes, so such a graph is
/// left out.
#[verifier::external_body]
pub(crate) fn graph_add_node(g: &mut NetworkGraph, title: String, x: i32, y: i32) -> (id: usize)
    requires
        graph_nodes(*old(g)).len() < MAX_ITEMS,
    ensures
        graph_nodes(*final(g)) == graph_nodes(*old(g)).push((title@, x, y)),
        graph_edges(*final(g)) == graph_edges(*old(g)),
        id == graph_nodes(*old(g)).len(),
{
    g.add_node((title, x, y)).index()
}

/// `Graph::add_edge`: appends an edge from `source` to `target` and returns
/// its index, which is the number of edges before the call. The nodes stay as
/// they are. The method panics where an end is no node of the graph and on a
/// graph that already holds `MAX_ITEMS` edges, so both are left out; with an
/// end above `MAX_ITEMS` the index would be cut to 32 bits.
#[verifier::external_body]
pub(crate) fn graph_add_edge(g: &mut NetworkGraph, source: usize, target: usize, weight: usize) -> (id: usize)
    requires
        source < graph_nodes(*old(g)).len(),
        target < graph_nodes(*old(g)).len(),
        source <= MAX_ITEMS,
        target <= MAX_ITEMS,
        graph_edges(*old(g)).len() < MAX_ITEMS,
    ensures
        graph_edges(*final(g)) == graph_edges(*old(g)).push((source, target, weight)),
        graph_nodes(*final(g)) == graph_nodes(*old(g)),
        id == graph_edges(*old(g)).len(),
{
    g.add_edge(NodeIndex::new(source), NodeIndex::new(target), weight).index()
}

/// `Graph::node_weight`: the weight of the node with index `id`, or `None`
/// where the graph has no such node. An index above `MAX_ITEMS` would be cut
/// to 32 bits and is left out.
#[verifier::external_body]
pub(crate) fn graph_node_weight(g: &NetworkGraph, id: usize) -> (w: Option<&(String, i32, i32)>)
    requires
        id <= MAX_ITEMS,
    ensures
        match w {
            Some(node) => id < graph_nodes(*g).len() && (node.0@, node.1, node.2) == graph_nodes(*g)[id as int],
            None => id >= graph_nodes(*g).len(),
        },
{
    g.node_weight(NodeIndex::new(id))
}

/// `Graph::edge_endpoints`: the indices of the source and of the target of the
/// edge with index `id`, or `None` where the graph has no such edge. An index
/// above `MAX_ITEMS` would be cut to 32 bits and is left out.
#[verifier::external_body]
pub(crate) fn graph_edge_endpoints(g: &NetworkGraph, id: usize) -> (ends: Option<(usize, usize)>)
    requires
        id <= MAX_ITEMS,
    ensures
        match ends {
            Some(pair) => id < graph_edges(*g).len() && pair.0 == graph_edges(*g)[id as int].0 && pair.1
                == graph_edges(*g)[id as int].1,
            None => id >= graph_edges(*g).len(),
        },
{
    g.edge_endpoints(EdgeIndex::new(id)).map(|pair| (pair.0.index(), pair.1.index()))
}

/// `Graph::edge_weight`: the weight of the edge with index `id`, or `None`
/// where the graph has no such edge. An index above `MAX_ITEMS` would be cut
/// to 32 bits and is left out.
#[verifier::external_body]
pub(crate) fn graph_edge_weight(g: &NetworkGraph, id: usize) -> (weight: Option<usize>)
    requires
        id <= MAX_ITEMS,
    ensures
        match weight {
            Some(w) => id < graph_edges(*g).len() && w == graph_edges(*g)[id as int].2,
            None => id >= graph_edges(*g).len(),
        },
{
    g.edge_weight(EdgeIndex::new(id)).copied()
}

} // verus!
