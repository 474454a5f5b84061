//! Directed graphs as sequences of edges: walks, cycles and orderings of the
//! nodes that respect the edges.
//!
//! A node is an integer and an edge is a pair of nodes, source first.

use vstd::prelude::*;
use vstd::set_lib::{lemma_int_range, lemma_subset_equality, set_int_range};

verus! {

/// The walk's `i`-th step follows an edge.
pub open spec fn follows_edge(edges: Seq<(int, int)>, walk: Seq<int>, i: int) -> bool {
    edges.contains((walk[i], walk[i + 1]))
}

/// `walk` is a sequence of one or more nodes, each joined to the next by an
/// edge.
pub open spec fn is_walk(edges: Seq<(int, int)>, walk: Seq<int>) -> bool {
    &&& walk.len() >= 1
    &&& forall|i: int| 0 <= i < walk.len() - 1 ==> #[trigger] follows_edge(edges, walk, i)
}

/// Some walk leads from `from` to `to`. Every node reaches itself.
pub open spec fn reachable(edges: Seq<(int, int)>, from: int, to: int) -> bool {
    exists|walk: Seq<int>| #[trigger] is_walk(edges, walk) && walk[0] == from && walk.last() == to
}

/// Some walk of at least one edge ends where it began.
pub open spec fn has_cycle(edges: Seq<(int, int)>) -> bool {
    exists|walk: Seq<int>| #[trigger]
        is_walk(edges, walk) && walk.len() >= 2 && walk[0] == walk.last()
}

/// `order` lists each of the nodes `0 .. n` once.
pub open spec fn is_ordering(order: Seq<int>, n: nat) -> bool {
    &&& order.len() == n
    &&& forall|i: int| 0 <= i < order.len() ==> 0 <= #[trigger] order[i] < n
    &&& order.no_duplicates()
}

/// Wherever `order` lists both ends of an edge, it lists the source first.
pub open spec fn respects_edges(order: Seq<int>, edges: Seq<(int, int)>) -> bool {
    forall|i: int, j: int, e: int|
        0 <= i < order.len() && 0 <= j < order.len() && 0 <= e < edges.len() && #[trigger] order[i]
            == (#[trigger] edges[e]).0 && #[trigger] order[j] == edges[e].1 ==> i < j
}

/// `order` is a topological order of the graph of `n` nodes with the given
/// edges.
pub open spec fn is_topological_order(order: Seq<int>, n: nat, edges: Seq<(int, int)>) -> bool {
    is_ordering(order, n) && respects_edges(order, edges)
}

/// The targets of the edges that leave `node`, the most recently added edge's
/// first.
pub open spec fn successors(edges: Seq<(int, int)>, node: int) -> Seq<int>
    decreases edges.len(),
{
    if edges.len() == 0 {
        Seq::empty()
    } else if edges.last().0 == node {
        seq![edges.last().1] + successors(edges.drop_last(), node)
    } else {
        successors(edges.drop_last(), node)
    }
}

/// Every edge joins two of the nodes `0 .. n`.
pub open spec fn edges_within(edges: Seq<(int, int)>, n: nat) -> bool {
    forall|e: int|
        0 <= e < edges.len() ==> 0 <= (#[trigger] edges[e]).0 < n && 0 <= edges[e].1 < n
}

/// No two edges join the same source to the same target.
pub open spec fn edges_distinct(edges: Seq<(int, int)>) -> bool {
    edges.no_duplicates()
}

/// Two walks that meet end to start make one walk.
pub proof fn lemma_walks_join(edges: Seq<(int, int)>, first: Seq<int>, second: Seq<int>)
    requires
        is_walk(edges, first),
        is_walk(edges, second),
        first.last() == second[0],
    ensures
        is_walk(edges, first + second.drop_first()),
        (first + second.drop_first())[0] == first[0],
        (first + second.drop_first()).last() == second.last(),
{
    let joined = first + second.drop_first();
    assert forall|i: int| 0 <= i < joined.len() - 1 implies #[trigger] follows_edge(
        edges,
        joined,
        i,
    ) by {
        if i < first.len() - 1 {
            assert(follows_edge(edges, first, i));
        } else {
            assert(follows_edge(edges, second, i - first.len() + 1));
        }
    }
}

/// A walk in a graph with one more edge either avoids the new edge, or
/// splits around it: a walk in the old graph from its start to the new edge's
/// source, and a walk in the old graph from the new edge's target to its end.
pub proof fn lemma_walk_splits_at_new_edge(
    edges: Seq<(int, int)>,
    source: int,
    target: int,
    walk: Seq<int>,
) -> (parts: Option<(Seq<int>, Seq<int>)>)
    requires
        is_walk(edges.push((source, target)), walk),
    ensures
        match parts {
            None => is_walk(edges, walk),
            Some((head, tail)) => {
                &&& is_walk(edges, head)
                &&& head[0] == walk[0]
                &&& head.last() == source
                &&& is_walk(edges, tail)
                &&& tail[0] == target
                &&& tail.last() == walk.last()
            },
        },
    decreases walk.len(),
{
    let grown = edges.push((source, target));
    if walk.len() == 1 {
        None
    } else {
        let shorter = walk.drop_last();
        let last = walk.len() - 2;
        assert forall|i: int| 0 <= i < shorter.len() - 1 implies #[trigger] follows_edge(
            grown,
            shorter,
            i,
        ) by {
            assert(follows_edge(grown, walk, i));
        }
        let before = lemma_walk_splits_at_new_edge(edges, source, target, shorter);
        assert(follows_edge(grown, walk, last));
        let step = (walk[last], walk[last + 1]);
        let k = choose|k: int| 0 <= k < grown.len() && grown[k] == step;
        if k < edges.len() {
            assert(edges[k] == step);
            assert(edges.contains(step));
            match before {
                None => {
                    assert forall|i: int| 0 <= i < walk.len() - 1 implies #[trigger] follows_edge(
                        edges,
                        walk,
                        i,
                    ) by {
                        if i < last {
                            assert(follows_edge(edges, shorter, i));
                        }
                    }
                    None
                },
                Some((head, tail)) => {
                    let longer = tail.push(walk.last());
                    assert forall|i: int| 0 <= i < longer.len() - 1 implies #[trigger] follows_edge(
                        edges,
                        longer,
                        i,
                    ) by {
                        if i < tail.len() - 1 {
                            assert(follows_edge(edges, tail, i));
                        }
                    }
                    Some((head, longer))
                },
            }
        } else {
            let arrived = seq![target];
            assert(is_walk(edges, arrived));
            match before {
                None => Some((shorter, arrived)),
                Some((head, tail)) => Some((head, arrived)),
            }
        }
    }
}

/// Adding an edge to a graph without cycles leaves it without cycles, as long
/// as the edge's source could not already be reached from its target.
pub proof fn lemma_new_edge_keeps_acyclic(edges: Seq<(int, int)>, source: int, target: int)
    requires
        !has_cycle(edges),
        !reachable(edges, target, source),
    ensures
        !has_cycle(edges.push((source, target))),
{
    let grown = edges.push((source, target));
    if has_cycle(grown) {
        let walk = choose|walk: Seq<int>| #[trigger]
            is_walk(grown, walk) && walk.len() >= 2 && walk[0] == walk.last();
        match lemma_walk_splits_at_new_edge(edges, source, target, walk) {
            None => {
                assert(has_cycle(edges));
            },
            Some((head, tail)) => {
                lemma_walks_join(edges, tail, head);
                assert(is_walk(edges, tail + head.drop_first()));
                assert(reachable(edges, target, source));
            },
        }
    }
}

/// A graph whose nodes can be put in an order that respects its edges has no
/// cycle.
pub proof fn lemma_topological_order_excludes_cycles(
    order: Seq<int>,
    n: nat,
    edges: Seq<(int, int)>,
)
    requires
        is_topological_order(order, n, edges),
        edges_within(edges, n),
    ensures
        !has_cycle(edges),
{
    lemma_ordering_lists_every_node(order, n);
    if has_cycle(edges) {
        let walk = choose|walk: Seq<int>| #[trigger]
            is_walk(edges, walk) && walk.len() >= 2 && walk[0] == walk.last();
        lemma_walk_climbs_order(order, n, edges, walk, walk.len() - 1);
    }
}

/// In a topological order, a node stands before every other node that can be
/// reached from it.
pub proof fn lemma_upstream_comes_first(
    order: Seq<int>,
    n: nat,
    edges: Seq<(int, int)>,
    from: int,
    to: int,
)
    requires
        is_topological_order(order, n, edges),
        edges_within(edges, n),
        reachable(edges, from, to),
        from != to,
    ensures
        order.contains(from),
        order.contains(to),
        order.index_of(from) < order.index_of(to),
{
    lemma_ordering_lists_every_node(order, n);
    let walk = choose|walk: Seq<int>| #[trigger]
        is_walk(edges, walk) && walk[0] == from && walk.last() == to;
    lemma_walk_climbs_order(order, n, edges, walk, walk.len() - 1);
}

/// Along a walk, each node stands later in a topological order than the
/// walk's first node.
proof fn lemma_walk_climbs_order(
    order: Seq<int>,
    n: nat,
    edges: Seq<(int, int)>,
    walk: Seq<int>,
    upto: int,
)
    requires
        is_topological_order(order, n, edges),
        edges_within(edges, n),
        is_walk(edges, walk),
        1 <= upto < walk.len(),
        forall|k: int| 0 <= k < n ==> order.contains(k),
    ensures
        order.contains(walk[0]),
        order.contains(walk[upto]),
        order.index_of(walk[0]) < order.index_of(walk[upto]),
    decreases upto,
{
    assert(follows_edge(edges, walk, upto - 1));
    let step = (walk[upto - 1], walk[upto]);
    let e = choose|e: int| 0 <= e < edges.len() && edges[e] == step;
    assert(0 <= edges[e].0 < n && 0 <= edges[e].1 < n);
    assert(order.contains(walk[upto - 1]));
    assert(order.contains(walk[upto]));
    let i = order.index_of(walk[upto - 1]);
    let j = order.index_of(walk[upto]);
    assert(order[i] == edges[e].0 && order[j] == edges[e].1);
    assert(i < j);
    if upto > 1 {
        lemma_walk_climbs_order(order, n, edges, walk, upto - 1);
    }
}

/// An ordering of `n` nodes lists every one of them.
pub proof fn lemma_ordering_lists_every_node(order: Seq<int>, n: nat)
    requires
        is_ordering(order, n),
    ensures
        forall|k: int| 0 <= k < n ==> order.contains(k),
{
    let listed = order.to_set();
    let all = set_int_range(0, n as int);
    order.unique_seq_to_set();
    lemma_int_range(0, n as int);
    assert forall|k: int| listed.contains(k) implies all.contains(k) by {
        let i = choose|i: int| 0 <= i < order.len() && order[i] == k;
        assert(0 <= order[i] < n);
    }
    assert(listed.subset_of(all));
    lemma_subset_equality(listed, all);
    assert forall|k: int| 0 <= k < n implies order.contains(k) by {
        assert(all.contains(k));
        assert(listed.contains(k));
    }
}

/// A graph without edges has no cycle.
pub proof fn lemma_no_edges_no_cycle(edges: Seq<(int, int)>)
    requires
        edges.len() == 0,
    ensures
        !has_cycle(edges),
{
    if has_cycle(edges) {
        let walk = choose|walk: Seq<int>| #[trigger]
            is_walk(edges, walk) && walk.len() >= 2 && walk[0] == walk.last();
        assert(follows_edge(edges, walk, 0));
    }
}

/// A node that no edge leaves reaches no node but itself.
pub proof fn lemma_sink_reaches_nothing(edges: Seq<(int, int)>, node: int, other: int)
    requires
        forall|e: int| 0 <= e < edges.len() ==> (#[trigger] edges[e]).0 != node,
        node != other,
    ensures
        !reachable(edges, node, other),
{
    if reachable(edges, node, other) {
        let walk = choose|walk: Seq<int>| #[trigger]
            is_walk(edges, walk) && walk[0] == node && walk.last() == other;
        assert(follows_edge(edges, walk, 0));
        let e = choose|e: int| 0 <= e < edges.len() && edges[e] == (walk[0], walk[1]);
        assert(edges[e].0 == node);
    }
}

} // verus!
