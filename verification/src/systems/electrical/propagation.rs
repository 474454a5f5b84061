//! What a tick hands downstream: laws of the hand-over from each node to the
//! nodes that its wires lead to.

use crate::systems::electrical::topology::{
    is_topological_order, lemma_ordering_lists_every_node, successors,
};
use crate::systems::electrical::{
    current_between, edges_of, fed, is_first_wire, joins, lemma_tick_moves_each_component_once,
    propagate, push_downstream, tick_components, wire_index, with_currents, ComponentState,
    NetworkState, WireState,
};
use vstd::prelude::*;

verus! {

/// The successors of a node are the targets of the edges that leave it.
pub proof fn lemma_successors_are_targets(edges: Seq<(int, int)>, node: int, target: int)
    ensures
        successors(edges, node).contains(target) <==> edges.contains((node, target)),
    decreases edges.len(),
{
    if edges.len() > 0 {
        let rest = edges.drop_last();
        let last = edges.last();
        let found = successors(rest, node);
        lemma_successors_are_targets(rest, node, target);
        if edges.contains((node, target)) {
            let e = choose|e: int| 0 <= e < edges.len() && edges[e] == (node, target);
            if e < rest.len() {
                assert(rest[e] == (node, target));
                let i = choose|i: int| 0 <= i < found.len() && found[i] == target;
                if last.0 == node {
                    assert((seq![last.1] + found)[i + 1] == target);
                }
            } else {
                assert((seq![last.1] + found)[0] == target);
            }
        }
        if successors(edges, node).contains(target) {
            let all = successors(edges, node);
            let i = choose|i: int| 0 <= i < all.len() && all[i] == target;
            if last.0 == node {
                if i == 0 {
                    assert(edges[edges.len() - 1] == (node, target));
                } else {
                    assert(found[i - 1] == target);
                    let e = choose|e: int| 0 <= e < rest.len() && rest[e] == (node, target);
                    assert(edges[e] == (node, target));
                }
            } else {
                let e = choose|e: int| 0 <= e < rest.len() && rest[e] == (node, target);
                assert(edges[e] == (node, target));
            }
        }
    }
}

/// Where no two edges are the same, no node is listed twice among the
/// successors of a node.
pub proof fn lemma_successors_are_distinct(edges: Seq<(int, int)>, node: int)
    requires
        edges.no_duplicates(),
    ensures
        successors(edges, node).no_duplicates(),
    decreases edges.len(),
{
    if edges.len() > 0 {
        let rest = edges.drop_last();
        let last = edges.last();
        let found = successors(rest, node);
        assert(rest.no_duplicates()) by {
            assert forall|i: int, j: int| 0 <= i < j < rest.len() implies rest[i] != rest[j] by {
                assert(rest[i] == edges[i] && rest[j] == edges[j]);
            }
        }
        lemma_successors_are_distinct(rest, node);
        if last.0 == node {
            lemma_successors_are_targets(rest, node, last.1);
            if found.contains(last.1) {
                let e = choose|e: int| 0 <= e < rest.len() && rest[e] == (node, last.1);
                assert(edges[e] == edges[edges.len() - 1]);
            }
            let all = seq![last.1] + found;
            assert forall|i: int, j: int| 0 <= i < j < all.len() implies all[i] != all[j] by {
                if i == 0 {
                    assert(found[j - 1] == all[j]);
                } else {
                    assert(found[i - 1] == all[i] && found[j - 1] == all[j]);
                }
            }
        }
    }
}

/// A node that is not among the targets of a hand-over is left as it was.
pub proof fn lemma_push_leaves_others(
    components: Seq<ComponentState>,
    wires: Seq<WireState>,
    node: int,
    voltage: int,
    power: int,
    targets: Seq<int>,
    other: int,
)
    requires
        !targets.contains(other),
    ensures
        push_downstream(components, wires, node, voltage, power, targets).len()
            == components.len(),
        0 <= other < components.len() ==> push_downstream(
            components,
            wires,
            node,
            voltage,
            power,
            targets,
        )[other] == components[other],
    decreases targets.len(),
{
    if targets.len() > 0 {
        let target = targets[0];
        let rest = targets.drop_first();
        let next = if 0 <= target < components.len() {
            components.update(
                target,
                fed(components[target], voltage, power, current_between(wires, node, target)),
            )
        } else {
            components
        };
        assert(target != other);
        assert(!rest.contains(other)) by {
            if rest.contains(other) {
                let i = choose|i: int| 0 <= i < rest.len() && rest[i] == other;
                assert(targets[i + 1] == other);
            }
        }
        lemma_push_leaves_others(next, wires, node, voltage, power, rest, other);
    }
}

/// A node that is listed once among the targets of a hand-over is handed the
/// voltage, the power, and the current of the wire that leads to it.
pub proof fn lemma_push_feeds_target(
    components: Seq<ComponentState>,
    wires: Seq<WireState>,
    node: int,
    voltage: int,
    power: int,
    targets: Seq<int>,
    target: int,
)
    requires
        targets.contains(target),
        targets.no_duplicates(),
        0 <= target < components.len(),
    ensures
        push_downstream(components, wires, node, voltage, power, targets)[target] == fed(
            components[target],
            voltage,
            power,
            current_between(wires, node, target),
        ),
    decreases targets.len(),
{
    let first = targets[0];
    let rest = targets.drop_first();
    let next = if 0 <= first < components.len() {
        components.update(
            first,
            fed(components[first], voltage, power, current_between(wires, node, first)),
        )
    } else {
        components
    };
    assert(rest.no_duplicates()) by {
        assert forall|i: int, j: int| 0 <= i < j < rest.len() implies rest[i] != rest[j] by {
            assert(rest[i] == targets[i + 1] && rest[j] == targets[j + 1]);
        }
    }
    if first == target {
        assert(!rest.contains(target)) by {
            if rest.contains(target) {
                let i = choose|i: int| 0 <= i < rest.len() && rest[i] == target;
                assert(targets[i + 1] == targets[0]);
            }
        }
        lemma_push_leaves_others(next, wires, node, voltage, power, rest, target);
    } else {
        let i = choose|i: int| 0 <= i < targets.len() && targets[i] == target;
        assert(rest[i - 1] == target);
        lemma_push_feeds_target(next, wires, node, voltage, power, rest, target);
    }
}

/// The components after `node`, if it is a node, has handed what it presents
/// to the nodes that its wires lead to.
pub open spec fn handed_on(components: Seq<ComponentState>, wires: Seq<WireState>, node: int)
    -> Seq<ComponentState> {
    if 0 <= node < components.len() {
        push_downstream(
            components,
            wires,
            node,
            components[node].output_voltage(),
            components[node].output_power(),
            successors(edges_of(wires), node),
        )
    } else {
        components
    }
}

/// A node that no wire from `node` leads to is left as it was when `node`
/// hands on what it presents.
proof fn lemma_hand_over_leaves_unfed(
    components: Seq<ComponentState>,
    wires: Seq<WireState>,
    node: int,
    other: int,
)
    requires
        !edges_of(wires).contains((node, other)),
    ensures
        handed_on(components, wires, node).len() == components.len(),
        0 <= other < components.len() ==> handed_on(components, wires, node)[other]
            == components[other],
{
    lemma_successors_are_targets(edges_of(wires), node, other);
    if 0 <= node < components.len() {
        lemma_push_leaves_others(
            components,
            wires,
            node,
            components[node].output_voltage(),
            components[node].output_power(),
            successors(edges_of(wires), node),
            other,
        );
    }
}

/// A node that none of the nodes listed in `order` has a wire to is left as
/// it was by their hand-overs.
pub proof fn lemma_propagate_leaves_unfed(
    components: Seq<ComponentState>,
    wires: Seq<WireState>,
    order: Seq<int>,
    other: int,
)
    requires
        forall|i: int| 0 <= i < order.len() ==> !edges_of(wires).contains((#[trigger] order[i], other)),
    ensures
        propagate(components, wires, order).len() == components.len(),
        0 <= other < components.len() ==> propagate(components, wires, order)[other]
            == components[other],
    decreases order.len(),
{
    if order.len() > 0 {
        let rest = order.drop_first();
        let next = handed_on(components, wires, order[0]);
        lemma_hand_over_leaves_unfed(components, wires, order[0], other);
        assert forall|i: int| 0 <= i < rest.len() implies !edges_of(wires).contains(
            (#[trigger] rest[i], other),
        ) by {
            assert(rest[i] == order[i + 1]);
        }
        lemma_propagate_leaves_unfed(next, wires, rest, other);
    }
}

/// Where `feeder` is the only listed node with a wire to `target`, is listed
/// once, and is followed by no node with a wire to `feeder` itself, the
/// hand-overs leave `target` with the voltage and the power that `feeder`
/// presents when they are all done, and with the current of the wire between
/// the two.
pub proof fn lemma_propagate_feeds_from_sole_feeder(
    components: Seq<ComponentState>,
    wires: Seq<WireState>,
    order: Seq<int>,
    feeder: int,
    target: int,
)
    requires
        edges_of(wires).no_duplicates(),
        0 <= feeder < components.len(),
        0 <= target < components.len(),
        edges_of(wires).contains((feeder, target)),
        !edges_of(wires).contains((feeder, feeder)),
        order.no_duplicates(),
        order.contains(feeder),
        forall|i: int|
            0 <= i < order.len() && #[trigger] order[i] != feeder ==> !edges_of(wires).contains(
                (order[i], target),
            ),
        forall|i: int|
            order.index_of(feeder) < i < order.len() ==> !edges_of(wires).contains(
                (#[trigger] order[i], feeder),
            ),
    ensures
        propagate(components, wires, order).len() == components.len(),
        propagate(components, wires, order)[target] == fed(
            components[target],
            propagate(components, wires, order)[feeder].output_voltage(),
            propagate(components, wires, order)[feeder].output_power(),
            current_between(wires, feeder, target),
        ),
    decreases order.len(),
{
    let first = order[0];
    let rest = order.drop_first();
    let next = handed_on(components, wires, first);
    let place = order.index_of(feeder);
    assert(order[place] == feeder);
    assert(rest.no_duplicates()) by {
        assert forall|i: int, j: int| 0 <= i < j < rest.len() implies rest[i] != rest[j] by {
            assert(rest[i] == order[i + 1] && rest[j] == order[j + 1]);
        }
    }
    if first == feeder {
        assert(place == 0);
        assert(feeder != target);
        lemma_successors_are_targets(edges_of(wires), feeder, target);
        lemma_successors_are_distinct(edges_of(wires), feeder);
        lemma_push_feeds_target(
            components,
            wires,
            feeder,
            components[feeder].output_voltage(),
            components[feeder].output_power(),
            successors(edges_of(wires), feeder),
            target,
        );
        lemma_hand_over_leaves_unfed(components, wires, feeder, feeder);
        assert forall|i: int| 0 <= i < rest.len() implies !edges_of(wires).contains(
            (#[trigger] rest[i], target),
        ) by {
            assert(rest[i] == order[i + 1]);
        }
        assert forall|i: int| 0 <= i < rest.len() implies !edges_of(wires).contains(
            (#[trigger] rest[i], feeder),
        ) by {
            assert(rest[i] == order[i + 1]);
        }
        lemma_propagate_leaves_unfed(next, wires, rest, target);
        lemma_propagate_leaves_unfed(next, wires, rest, feeder);
    } else {
        lemma_hand_over_leaves_unfed(components, wires, first, target);
        assert(rest[place - 1] == feeder);
        assert(rest.index_of(feeder) == place - 1) by {
            let found = rest.index_of(feeder);
            assert(rest[found] == feeder);
        }
        assert forall|i: int| 0 <= i < rest.len() && #[trigger] rest[i] != feeder implies
            !edges_of(wires).contains((rest[i], target)) by {
            assert(rest[i] == order[i + 1]);
        }
        assert forall|i: int| rest.index_of(feeder) < i < rest.len() implies !edges_of(
            wires,
        ).contains((#[trigger] rest[i], feeder)) by {
            assert(rest[i] == order[i + 1]);
        }
        lemma_propagate_feeds_from_sole_feeder(next, wires, rest, feeder, target);
    }
}

/// A node with a single wire leading to it ends a tick with what the node at
/// the other end of that wire presents at the end of the same tick: its
/// voltage, its power, and the wire's fresh current.
pub proof fn lemma_node_hears_its_sole_feeder_in_the_same_tick(
    state: NetworkState,
    order: Seq<int>,
    dt: int,
    k: int,
)
    requires
        state.wf(),
        is_topological_order(order, state.components.len(), state.edges()),
        0 <= k < state.wires.len(),
        forall|j: int|
            0 <= j < state.wires.len() && j != k ==> (#[trigger] state.wires[j]).to
                != state.wires[k].to,
    ensures
        state.tick(order, dt).components.len() == state.components.len(),
        state.tick(order, dt).components[state.wires[k].to] == fed(
            state.components[state.wires[k].to].step(dt),
            state.tick(order, dt).components[state.wires[k].from].output_voltage(),
            state.tick(order, dt).components[state.wires[k].from].output_power(),
            Some(state.tick(order, dt).wires[k].current),
        ),
{
    let feeder = state.wires[k].from;
    let target = state.wires[k].to;
    let stepped = tick_components(state.components, order, dt);
    let wires = with_currents(state.wires, stepped);
    let edges = state.edges();
    lemma_tick_moves_each_component_once(state.components, order, dt);
    lemma_ordering_lists_every_node(order, state.components.len());
    assert(edges_of(wires) =~= edges);
    assert(edges[k] == (feeder, target));
    let place = order.index_of(feeder);
    assert(order.contains(feeder));
    assert(order[place] == feeder);
    assert(!edges.contains((feeder, feeder))) by {
        if edges.contains((feeder, feeder)) {
            let e = choose|e: int| 0 <= e < edges.len() && edges[e] == (feeder, feeder);
            assert(order[place] == edges[e].0 && order[place] == edges[e].1);
        }
    }
    assert forall|i: int| 0 <= i < order.len() && #[trigger] order[i] != feeder implies
        !edges.contains((order[i], target)) by {
        if edges.contains((order[i], target)) {
            let e = choose|e: int| 0 <= e < edges.len() && edges[e] == (order[i], target);
            assert(state.wires[e].to == target);
        }
    }
    assert forall|i: int| place < i < order.len() implies !edges.contains(
        (#[trigger] order[i], feeder),
    ) by {
        if edges.contains((order[i], feeder)) {
            let e = choose|e: int| 0 <= e < edges.len() && edges[e] == (order[i], feeder);
            assert(order[i] == edges[e].0 && order[place] == edges[e].1);
        }
    }
    lemma_propagate_feeds_from_sole_feeder(stepped, wires, order, feeder, target);
    assert(wire_index(wires, feeder, target) == Some(k)) by {
        assert forall|j: int| 0 <= j < wires.len() && joins(wires[j], feeder, target) implies j
            == k by {
            assert(state.wires[j].to == target);
        }
        assert(is_first_wire(wires, feeder, target, k));
        let found = choose|j: int| is_first_wire(wires, feeder, target, j);
        assert(joins(wires[found], feeder, target));
    }
}

/// A node that no wire leads to ends a tick as its own move forward left it:
/// nothing is handed to it.
pub proof fn lemma_unfed_node_is_only_moved(state: NetworkState, order: Seq<int>, dt: int, node: int)
    requires
        state.wf(),
        is_topological_order(order, state.components.len(), state.edges()),
        state.has_node(node),
        forall|j: int| 0 <= j < state.wires.len() ==> (#[trigger] state.wires[j]).to != node,
    ensures
        state.tick(order, dt).components[node] == state.components[node].step(dt),
{
    let stepped = tick_components(state.components, order, dt);
    let wires = with_currents(state.wires, stepped);
    lemma_tick_moves_each_component_once(state.components, order, dt);
    assert(edges_of(wires) =~= state.edges());
    assert forall|i: int| 0 <= i < order.len() implies !edges_of(wires).contains(
        (#[trigger] order[i], node),
    ) by {
        if state.edges().contains((order[i], node)) {
            let e = choose|e: int|
                0 <= e < state.edges().len() && state.edges()[e] == (order[i], node);
            assert(state.wires[e].to == node);
        }
    }
    lemma_propagate_leaves_unfed(stepped, wires, order, node);
}

} // verus!
