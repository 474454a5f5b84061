//! The network's wiring diagram, kept in a `petgraph` directed graph.
//!
//! Nothing in this file is proved: each function hands its arguments to
//! `petgraph` and states what `petgraph` documents of the result.

use crate::systems::electrical::topology::{
    has_cycle, is_topological_order, reachable, successors,
};
use petgraph::algo::{has_path_connecting, toposort};
use petgraph::graph::{Graph, NodeIndex};
use petgraph::Directed;
use vstd::prelude::*;

verus! {

/// `petgraph::graph::Graph`, opaque to the verifier.
#[verifier::external_type_specification]
#[verifier::external_body]
#[verifier::reject_recursive_types(N)]
#[verifier::reject_recursive_types(E)]
#[verifier::reject_recursive_types(Ty)]
#[verifier::reject_recursive_types(Ix)]
pub struct ExGraph<N, E, Ty, Ix>(Graph<N, E, Ty, Ix>);

/// `petgraph::Directed`, the marker of graphs whose edges have a direction.
#[verifier::external_type_specification]
#[verifier::external_body]
pub struct ExDirected(Directed);

/// The names that the graph's nodes carry, in the order of the nodes'
/// indices.
pub uninterp spec fn graph_nodes(graph: Graph<String, (), Directed, u32>) -> Seq<Seq<char>>;

/// The graph's edges as pairs of node indices, source first, in the order in
/// which they were added.
pub uninterp spec fn graph_edges(graph: Graph<String, (), Directed, u32>) -> Seq<(int, int)>;

/// The order in which `petgraph::algo::toposort` lists the nodes of a graph
/// of `nodes` nodes whose edges, in the order in which they were added, are
/// `edges`; nothing where the graph has a cycle. The algorithm walks the
/// nodes by index and each node's edges from the most recently added, so the
/// same nodes and edges always give the same order.
pub uninterp spec fn toposort_order(nodes: nat, edges: Seq<(int, int)>) -> Option<Seq<int>>;

/// Node indices as mathematical integers.
pub open spec fn as_nodes(indices: Seq<usize>) -> Seq<int> {
    indices.map_values(|index: usize| index as int)
}

/// `Graph::new`: a directed graph without nodes or edges.
#[verifier::external_body]
pub(crate) fn graph_new() -> (graph: Graph<String, (), Directed, u32>)
    ensures
        graph_nodes(graph) == Seq::<Seq<char>>::empty(),
        graph_edges(graph) == Seq::<(int, int)>::empty(),
{
    Graph::new()
}

/// `Graph::add_node`: appends a node that carries `name` and returns its
/// index, which is the number of nodes before the call. The edges stay as
/// they are. `petgraph` panics when the graph already holds as many nodes as
/// its index type can count, so the caller must rule that out.
#[verifier::external_body]
pub(crate) fn graph_add_node(graph: &mut Graph<String, (), Directed, u32>, name: String) -> (index:
    usize)
    requires
        graph_nodes(*old(graph)).len() < u32::MAX,
    ensures
        graph_nodes(*final(graph)) == graph_nodes(*old(graph)).push(name@),
        graph_edges(*final(graph)) == graph_edges(*old(graph)),
        index == graph_nodes(*old(graph)).len(),
{
    graph.add_node(name).index()
}

/// `Graph::add_edge`: appends an edge from `from` to `to`. The nodes stay as
/// they are. `petgraph` panics when either node does not exist or when the
/// graph already holds as many edges as its index type can count, so the
/// caller must rule both out.
#[verifier::external_body]
pub(crate) fn graph_add_edge(graph: &mut Graph<String, (), Directed, u32>, from: usize, to: usize)
    requires
        from < graph_nodes(*old(graph)).len(),
        to < graph_nodes(*old(graph)).len(),
        graph_edges(*old(graph)).len() < u32::MAX,
    ensures
        graph_nodes(*final(graph)) == graph_nodes(*old(graph)),
        graph_edges(*final(graph)) == graph_edges(*old(graph)).push((from as int, to as int)),
{
    graph.add_edge(NodeIndex::new(from), NodeIndex::new(to), ());
}

/// `petgraph::algo::toposort`: for a graph without cycles, all its nodes in
/// an order in which each node comes before its successors; for a graph with
/// a cycle, nothing. Which of the orders that do so comes back is fixed by
/// the nodes and edges, and goes by the name `toposort_order`.
#[verifier::external_body]
pub(crate) fn graph_toposort(graph: &Graph<String, (), Directed, u32>) -> (sorted: Option<
    Vec<usize>,
>)
    ensures
        match sorted {
            Some(order) => {
                &&& toposort_order(graph_nodes(*graph).len(), graph_edges(*graph)) == Some(
                    as_nodes(order@),
                )
                &&& is_topological_order(
                    as_nodes(order@),
                    graph_nodes(*graph).len(),
                    graph_edges(*graph),
                )
            },
            None => {
                &&& toposort_order(graph_nodes(*graph).len(), graph_edges(*graph)) is None
                &&& has_cycle(graph_edges(*graph))
            },
        },
{
    match toposort(graph, None) {
        Ok(order) => Some(order.into_iter().map(|node| node.index()).collect()),
        Err(_) => None,
    }
}

/// `petgraph::algo::has_path_connecting`: whether a path leads from `from` to
/// `to`; a node is connected to itself. Both nodes must exist.
#[verifier::external_body]
pub(crate) fn graph_has_path(graph: &Graph<String, (), Directed, u32>, from: usize, to: usize) -> (
    connected: bool)
    requires
        from < graph_nodes(*graph).len(),
        to < graph_nodes(*graph).len(),
    ensures
        connected == reachable(graph_edges(*graph), from as int, to as int),
{
    has_path_connecting(graph, NodeIndex::new(from), NodeIndex::new(to), None)
}

/// `Graph::neighbors`: the targets of the edges that leave `node`, the most
/// recently added edge's first. The node must exist.
#[verifier::external_body]
pub(crate) fn graph_neighbors(graph: &Graph<String, (), Directed, u32>, node: usize) -> (targets:
    Vec<usize>)
    requires
        node < graph_nodes(*graph).len(),
    ensures
        as_nodes(targets@) == successors(graph_edges(*graph), node as int),
{
    graph.neighbors(NodeIndex::new(node)).map(|target| target.index()).collect()
}

/// `Graph::node_weight`: the name that an existing node carries.
#[verifier::external_body]
pub(crate) fn graph_node_name(graph: &Graph<String, (), Directed, u32>, node: usize) -> (name:
    Option<String>)
    requires
        node < graph_nodes(*graph).len(),
    ensures
        name is Some,
        name.unwrap()@ == graph_nodes(*graph)[node as int],
{
    graph.node_weight(NodeIndex::new(node)).cloned()
}

} // verus!
