//! Electrical power generation and distribution.

pub mod components;
pub mod graph;
pub mod propagation;
pub mod topology;

use crate::fixed::{bounded, difference, minus, over, quotient, SCALE};
use crate::quantity::{
    AngularVelocity, ElectricCurrent, ElectricPotential, ElectricalResistance, Power, Ratio, Time,
};
use crate::systems::electrical::components::ac::generator::{Generator, GeneratorState};
use crate::systems::electrical::components::dc::generic_dc_component::{
    GenericDcComponent, LoadState,
};
use crate::systems::electrical::components::shared::bus::{Bus, BusState};
use crate::systems::electrical::components::shared::circuit_breaker::{
    BreakerState, CircuitBreaker,
};
use crate::systems::electrical::graph::{
    as_nodes, graph_add_edge, graph_add_node, graph_edges, graph_has_path, graph_neighbors,
    graph_new, graph_node_name, graph_nodes, graph_toposort, toposort_order,
};
use crate::systems::electrical::topology::{
    edges_distinct, edges_within, has_cycle, is_ordering, is_topological_order,
    lemma_new_edge_keeps_acyclic, lemma_no_edges_no_cycle, lemma_ordering_lists_every_node,
    lemma_sink_reaches_nothing, reachable, successors,
};
use petgraph::graph::Graph;
use petgraph::Directed;
use vstd::prelude::*;

verus! {

/// Current that a power `power` draws from a source at `voltage`: their
/// quotient while the voltage is positive, and none otherwise.
pub open spec fn current_drawn(power: int, voltage: int) -> int {
    if voltage > 0 {
        quotient(power, voltage)
    } else {
        0
    }
}

/// Current inferred from a power and a voltage, for a component that does
/// not track its current itself.
pub fn current_from_power(power: Power, voltage: ElectricPotential) -> (current: ElectricCurrent)
    ensures
        current@ == current_drawn(power@, voltage@),
{
    if voltage.micro > 0 {
        ElectricCurrent::new(over(power.micro, voltage.micro))
    } else {
        ElectricCurrent::new(0)
    }
}

/// A command to one component of a network.
#[derive(Clone, Copy, Debug, PartialEq, Eq, Structural)]
pub enum Command {
    /// Switch a generator on.
    TurnOn,
    /// Switch a generator off.
    TurnOff,
    /// Set the mechanical power and the speed of a generator's drive.
    SetMechanicalInput(Power, AngularVelocity),
    /// Close a circuit breaker by hand.
    ResetBreaker,
    /// Switch a load on or off.
    SetPowerState(bool),
    /// Set the fraction of its rated power that a load asks for.
    SetLoadFactor(Ratio),
}

/// Why a command was not carried out.
#[derive(Clone, Copy, Debug, PartialEq, Eq, Structural)]
pub enum CommandError {
    /// The command names a node that the network does not have.
    UnknownNode,
    /// The component at the node is not of the kind that the command is for.
    WrongKind,
}

/// Any electrical component as plain values.
pub enum ComponentState {
    /// A rotating generator.
    PowerSource(GeneratorState),
    /// A bus bar.
    Bus(BusState),
    /// A circuit breaker.
    ProtectiveDevice(BreakerState),
    /// A direct-current load.
    Load(LoadState),
}

impl ComponentState {
    /// The component after a tick of `dt`.
    pub open spec fn step(self, dt: int) -> ComponentState {
        match self {
            ComponentState::PowerSource(g) => ComponentState::PowerSource(g.step(dt)),
            ComponentState::Bus(b) => ComponentState::Bus(b),
            ComponentState::ProtectiveDevice(b) => ComponentState::ProtectiveDevice(b.step(dt)),
            ComponentState::Load(l) => ComponentState::Load(l),
        }
    }

    /// Voltage that the component presents downstream.
    pub open spec fn output_voltage(self) -> int {
        match self {
            ComponentState::PowerSource(g) => g.output_voltage,
            ComponentState::Bus(b) => b.voltage,
            ComponentState::ProtectiveDevice(b) => b.output_voltage(),
            ComponentState::Load(_) => 0,
        }
    }

    /// Power that the component presents downstream.
    pub open spec fn output_power(self) -> int {
        match self {
            ComponentState::PowerSource(g) => g.output_power,
            ComponentState::Bus(b) => b.power,
            ComponentState::ProtectiveDevice(b) => b.output_power(),
            ComponentState::Load(_) => 0,
        }
    }

    /// Current that the component presents downstream.
    pub open spec fn output_current(self) -> int {
        match self {
            ComponentState::PowerSource(g) => g.output_current(),
            ComponentState::Bus(b) => b.output_current(),
            ComponentState::ProtectiveDevice(b) => b.output_current(),
            ComponentState::Load(_) => 0,
        }
    }

    /// Current that the component takes from upstream.
    pub open spec fn input_current(self) -> int {
        match self {
            ComponentState::Load(l) => l.drawn_current(),
            _ => self.output_current(),
        }
    }

    /// The component with `voltage` applied to it. A source ignores it.
    pub open spec fn with_input_voltage(self, voltage: int) -> ComponentState {
        match self {
            ComponentState::PowerSource(g) => self,
            ComponentState::Bus(b) => ComponentState::Bus(BusState { voltage, ..b }),
            ComponentState::ProtectiveDevice(b) => ComponentState::ProtectiveDevice(
                BreakerState { input_voltage: voltage, ..b },
            ),
            ComponentState::Load(l) => ComponentState::Load(
                LoadState { input_voltage: voltage, ..l },
            ),
        }
    }

    /// The component with `power` offered to it. A source ignores it.
    pub open spec fn with_input_power(self, power: int) -> ComponentState {
        match self {
            ComponentState::PowerSource(g) => self,
            ComponentState::Bus(b) => ComponentState::Bus(BusState { power, ..b }),
            ComponentState::ProtectiveDevice(b) => ComponentState::ProtectiveDevice(
                BreakerState { input_power: power, ..b },
            ),
            ComponentState::Load(l) => ComponentState::Load(LoadState { input_power: power, ..l }),
        }
    }

    /// The component with `current` flowing into it. A source and a bus
    /// ignore it.
    pub open spec fn with_input_current(self, current: int) -> ComponentState {
        match self {
            ComponentState::PowerSource(g) => self,
            ComponentState::Bus(b) => self,
            ComponentState::ProtectiveDevice(b) => ComponentState::ProtectiveDevice(
                BreakerState { input_current: current, ..b },
            ),
            ComponentState::Load(l) => ComponentState::Load(
                LoadState { input_current: current, ..l },
            ),
        }
    }

    /// The component after the command, if the command is for a component of
    /// its kind.
    pub open spec fn obeying(self, command: Command) -> Option<ComponentState> {
        match (self, command) {
            (ComponentState::PowerSource(g), Command::TurnOn) => Some(
                ComponentState::PowerSource(g.switched_on()),
            ),
            (ComponentState::PowerSource(g), Command::TurnOff) => Some(
                ComponentState::PowerSource(g.switched_off()),
            ),
            (ComponentState::PowerSource(g), Command::SetMechanicalInput(power, rpm)) => Some(
                ComponentState::PowerSource(g.driven(power@, rpm@)),
            ),
            (ComponentState::ProtectiveDevice(b), Command::ResetBreaker) => Some(
                ComponentState::ProtectiveDevice(b.reset()),
            ),
            (ComponentState::Load(l), Command::SetPowerState(on)) => Some(
                ComponentState::Load(LoadState { is_on: on, ..l }),
            ),
            (ComponentState::Load(l), Command::SetLoadFactor(factor)) => Some(
                ComponentState::Load(
                    LoadState { load_factor: bounded(factor@, 0, SCALE as int), ..l },
                ),
            ),
            _ => None,
        }
    }
}

/// What every electrical component can do: move forward by a tick, say what
/// it presents downstream, and take what arrives from upstream.
pub trait ElectricalComponent {
    /// The component as plain values.
    spec fn state(&self) -> ComponentState;

    /// Advance the component by `dt`.
    fn update(&mut self, dt: Time)
        ensures
            final(self).state() == old(self).state().step(dt@),
    ;

    /// Power presented downstream.
    fn get_output_power(&self) -> (power: Power)
        ensures
            power@ == self.state().output_power(),
    ;

    /// Offer a power from upstream, for use on the next tick.
    fn set_input_power(&mut self, power: Power)
        ensures
            final(self).state() == old(self).state().with_input_power(power@),
    ;

    /// Voltage presented downstream.
    fn get_output_voltage(&self) -> (voltage: ElectricPotential)
        ensures
            voltage@ == self.state().output_voltage(),
    ;

    /// Apply a voltage from upstream, for use on the next tick.
    fn set_input_voltage(&mut self, voltage: ElectricPotential)
        ensures
            final(self).state() == old(self).state().with_input_voltage(voltage@),
    ;

    /// Current presented downstream.
    fn get_output_current(&self) -> (current: ElectricCurrent)
        ensures
            current@ == self.state().output_current(),
    ;

    /// Current taken from upstream.
    fn get_input_current(&self) -> (current: ElectricCurrent)
        ensures
            current@ == self.state().input_current(),
    ;

    /// Apply a current from upstream, for use on the next tick.
    fn set_input_current(&mut self, current: ElectricCurrent)
        ensures
            final(self).state() == old(self).state().with_input_current(current@),
    ;
}

/// Any electrical component.
pub enum Component {
    /// A rotating generator.
    PowerSource(Generator),
    /// A bus bar.
    Bus(Bus),
    /// A circuit breaker.
    ProtectiveDevice(CircuitBreaker),
    /// A direct-current load.
    Load(GenericDcComponent),
}

impl View for Component {
    type V = ComponentState;

    open spec fn view(&self) -> ComponentState {
        match self {
            Component::PowerSource(g) => ComponentState::PowerSource(g@),
            Component::Bus(b) => ComponentState::Bus(b@),
            Component::ProtectiveDevice(b) => ComponentState::ProtectiveDevice(b@),
            Component::Load(l) => ComponentState::Load(l@),
        }
    }
}

impl Component {
    /// Carry out a command if it is for a component of this kind, and say
    /// whether it was carried out.
    pub fn obey(&mut self, command: Command) -> (obeyed: bool)
        ensures
            match old(self)@.obeying(command) {
                Some(state) => obeyed && final(self)@ == state,
                None => !obeyed && final(self)@ == old(self)@,
            },
    {
        match self {
            Component::PowerSource(generator) => match command {
                Command::TurnOn => {
                    generator.turn_on();
                    true
                },
                Command::TurnOff => {
                    generator.turn_off();
                    true
                },
                Command::SetMechanicalInput(power, rpm) => {
                    generator.set_mechanical_input(power, rpm);
                    true
                },
                _ => false,
            },
            Component::Bus(_) => false,
            Component::ProtectiveDevice(breaker) => match command {
                Command::ResetBreaker => {
                    breaker.reset();
                    true
                },
                _ => false,
            },
            Component::Load(load) => match command {
                Command::SetPowerState(on) => {
                    load.set_power_state(on);
                    true
                },
                Command::SetLoadFactor(factor) => {
                    load.set_load_factor(factor);
                    true
                },
                _ => false,
            },
        }
    }

    /// The generator that this component is, if it is one.
    pub fn as_generator(&self) -> (found: Option<&Generator>)
        ensures
            match found {
                Some(generator) => self@ == ComponentState::PowerSource(generator@),
                None => !(self@ is PowerSource),
            },
    {
        match self {
            Component::PowerSource(generator) => Some(generator),
            _ => None,
        }
    }

    /// The bus that this component is, if it is one.
    pub fn as_bus(&self) -> (found: Option<&Bus>)
        ensures
            match found {
                Some(bus) => self@ == ComponentState::Bus(bus@),
                None => !(self@ is Bus),
            },
    {
        match self {
            Component::Bus(bus) => Some(bus),
            _ => None,
        }
    }

    /// The circuit breaker that this component is, if it is one.
    pub fn as_circuit_breaker(&self) -> (found: Option<&CircuitBreaker>)
        ensures
            match found {
                Some(breaker) => self@ == ComponentState::ProtectiveDevice(breaker@),
                None => !(self@ is ProtectiveDevice),
            },
    {
        match self {
            Component::ProtectiveDevice(breaker) => Some(breaker),
            _ => None,
        }
    }

    /// The load that this component is, if it is one.
    pub fn as_load(&self) -> (found: Option<&GenericDcComponent>)
        ensures
            match found {
                Some(load) => self@ == ComponentState::Load(load@),
                None => !(self@ is Load),
            },
    {
        match self {
            Component::Load(load) => Some(load),
            _ => None,
        }
    }
}

impl ElectricalComponent for Component {
    open spec fn state(&self) -> ComponentState {
        self@
    }

    fn update(&mut self, dt: Time) {
        match self {
            Component::PowerSource(g) => g.update(dt),
            Component::Bus(b) => b.update(dt),
            Component::ProtectiveDevice(b) => b.update(dt),
            Component::Load(l) => l.update(dt),
        }
    }

    fn get_output_power(&self) -> (power: Power) {
        match self {
            Component::PowerSource(g) => g.get_output_power(),
            Component::Bus(b) => b.get_output_power(),
            Component::ProtectiveDevice(b) => b.get_output_power(),
            Component::Load(l) => l.get_output_power(),
        }
    }

    fn set_input_power(&mut self, power: Power) {
        match self {
            Component::PowerSource(g) => g.set_input_power(power),
            Component::Bus(b) => b.set_input_power(power),
            Component::ProtectiveDevice(b) => b.set_input_power(power),
            Component::Load(l) => l.set_input_power(power),
        }
    }

    fn get_output_voltage(&self) -> (voltage: ElectricPotential) {
        match self {
            Component::PowerSource(g) => g.get_output_voltage(),
            Component::Bus(b) => b.get_output_voltage(),
            Component::ProtectiveDevice(b) => b.get_output_voltage(),
            Component::Load(l) => l.get_output_voltage(),
        }
    }

    fn set_input_voltage(&mut self, voltage: ElectricPotential) {
        match self {
            Component::PowerSource(g) => g.set_input_voltage(voltage),
            Component::Bus(b) => b.set_input_voltage(voltage),
            Component::ProtectiveDevice(b) => b.set_input_voltage(voltage),
            Component::Load(l) => l.set_input_voltage(voltage),
        }
    }

    fn get_output_current(&self) -> (current: ElectricCurrent) {
        match self {
            Component::PowerSource(g) => g.get_output_current(),
            Component::Bus(b) => b.get_output_current(),
            Component::ProtectiveDevice(b) => b.get_output_current(),
            Component::Load(l) => l.get_output_current(),
        }
    }

    fn get_input_current(&self) -> (current: ElectricCurrent) {
        match self {
            Component::PowerSource(g) => g.get_input_current(),
            Component::Bus(b) => b.get_input_current(),
            Component::ProtectiveDevice(b) => b.get_input_current(),
            Component::Load(l) => l.get_input_current(),
        }
    }

    fn set_input_current(&mut self, current: ElectricCurrent) {
        match self {
            Component::PowerSource(g) => g.set_input_current(current),
            Component::Bus(b) => b.set_input_current(current),
            Component::ProtectiveDevice(b) => b.set_input_current(current),
            Component::Load(l) => l.set_input_current(current),
        }
    }
}

/// A node of a network: the handle that `add_component` gave out for one
/// component.
#[derive(Clone, Copy, Debug, PartialEq, Eq, Structural)]
pub struct NodeHandle {
    index: usize,
}

impl View for NodeHandle {
    type V = int;

    closed spec fn view(&self) -> int {
        self.index as int
    }
}

impl NodeHandle {
    /// The handle of the node with the given index.
    pub fn new(index: usize) -> (handle: Self)
        ensures
            handle@ == index as int,
    {
        NodeHandle { index }
    }

    /// The node's index: nodes are numbered from zero in the order in which
    /// they were added.
    pub fn index(&self) -> (index: usize)
        ensures
            index as int == self@,
    {
        self.index
    }
}

/// Why a network refused a connection.
#[derive(Clone, Copy, Debug, PartialEq, Eq, Structural)]
pub enum NetworkError {
    /// One end of the connection is not a node of the network.
    UnknownNode,
    /// The connection would close a cycle, so that the components could no
    /// longer be put in an order from upstream to downstream.
    WouldCycle,
}

/// A wire as plain numbers.
pub struct WireState {
    pub from: int,
    pub to: int,
    pub resistance: int,
    pub current: int,
}

/// Current that a wire of resistance `resistance` carries between the
/// voltages at its two ends. A wire without positive resistance carries
/// none.
pub open spec fn ohms_law(voltage_from: int, voltage_to: int, resistance: int) -> int {
    if resistance > 0 {
        quotient(difference(voltage_from, voltage_to), resistance)
    } else {
        0
    }
}

/// The wire leads from `from` to `to`.
pub open spec fn joins(wire: WireState, from: int, to: int) -> bool {
    wire.from == from && wire.to == to
}

/// The `k`-th wire is the first that leads from `from` to `to`.
pub open spec fn is_first_wire(wires: Seq<WireState>, from: int, to: int, k: int) -> bool {
    &&& 0 <= k < wires.len()
    &&& joins(wires[k], from, to)
    &&& forall|j: int| 0 <= j < k ==> !joins(#[trigger] wires[j], from, to)
}

/// Index of the wire that leads from `from` to `to`, if there is one.
pub open spec fn wire_index(wires: Seq<WireState>, from: int, to: int) -> Option<int> {
    if exists|k: int| is_first_wire(wires, from, to, k) {
        Some(choose|k: int| is_first_wire(wires, from, to, k))
    } else {
        None
    }
}

/// Current in the wire that leads from `from` to `to`, if there is one.
pub open spec fn current_between(wires: Seq<WireState>, from: int, to: int) -> Option<int> {
    match wire_index(wires, from, to) {
        Some(k) => Some(wires[k].current),
        None => None,
    }
}

/// The ends of each wire, source first, in the order of the wires.
pub open spec fn edges_of(wires: Seq<WireState>) -> Seq<(int, int)> {
    Seq::new(wires.len(), |k: int| (wires[k].from, wires[k].to))
}

/// The wires with the current of each computed afresh from the voltages that
/// the components at its two ends present.
pub open spec fn with_currents(wires: Seq<WireState>, components: Seq<ComponentState>) -> Seq<
    WireState,
> {
    Seq::new(
        wires.len(),
        |k: int|
            WireState {
                current: ohms_law(
                    components[wires[k].from].output_voltage(),
                    components[wires[k].to].output_voltage(),
                    wires[k].resistance,
                ),
                ..wires[k]
            },
    )
}

/// The components after each node listed in `order` has moved forward by
/// `dt`, one node after the other. An entry that is no node is passed over.
pub open spec fn tick_components(components: Seq<ComponentState>, order: Seq<int>, dt: int) -> Seq<
    ComponentState,
>
    decreases order.len(),
{
    if order.len() == 0 {
        components
    } else {
        let node = order[0];
        let next = if 0 <= node < components.len() {
            components.update(node, components[node].step(dt))
        } else {
            components
        };
        tick_components(next, order.drop_first(), dt)
    }
}

/// A component that has been handed a voltage and a power from upstream,
/// and the current of the wire that they came through if there is such a
/// wire.
pub open spec fn fed(component: ComponentState, voltage: int, power: int, current: Option<int>)
    -> ComponentState {
    let supplied = component.with_input_voltage(voltage).with_input_power(power);
    match current {
        Some(amps) => supplied.with_input_current(amps),
        None => supplied,
    }
}

/// The components after `node` has handed `voltage` and `power` to each of
/// `targets` in turn, with the current of the wire that leads there. An entry
/// that is no node is passed over.
pub open spec fn push_downstream(
    components: Seq<ComponentState>,
    wires: Seq<WireState>,
    node: int,
    voltage: int,
    power: int,
    targets: Seq<int>,
) -> Seq<ComponentState>
    decreases targets.len(),
{
    if targets.len() == 0 {
        components
    } else {
        let target = targets[0];
        let next = if 0 <= target < components.len() {
            components.update(
                target,
                fed(components[target], voltage, power, current_between(wires, node, target)),
            )
        } else {
            components
        };
        push_downstream(next, wires, node, voltage, power, targets.drop_first())
    }
}

/// The components after each node listed in `order` has, in turn, handed
/// what it then presents to the nodes that its wires lead to. An entry that
/// is no node is passed over.
pub open spec fn propagate(components: Seq<ComponentState>, wires: Seq<WireState>, order: Seq<int>)
    -> Seq<ComponentState>
    decreases order.len(),
{
    if order.len() == 0 {
        components
    } else {
        let node = order[0];
        let next = if 0 <= node < components.len() {
            push_downstream(
                components,
                wires,
                node,
                components[node].output_voltage(),
                components[node].output_power(),
                successors(edges_of(wires), node),
            )
        } else {
            components
        };
        propagate(next, wires, order.drop_first())
    }
}

/// The wires that carry more than `limit`, each as source, target and
/// current, in the order of the wires.
pub open spec fn overloaded(wires: Seq<WireState>, limit: int) -> Seq<(int, int, int)>
    decreases wires.len(),
{
    if wires.len() == 0 {
        Seq::empty()
    } else {
        let rest = overloaded(wires.drop_last(), limit);
        let wire = wires.last();
        if wire.current > limit {
            rest.push((wire.from, wire.to, wire.current))
        } else {
            rest
        }
    }
}

/// A list of overloaded wires as plain numbers.
pub open spec fn reported(list: Seq<(NodeHandle, NodeHandle, ElectricCurrent)>) -> Seq<
    (int, int, int),
> {
    Seq::new(list.len(), |k: int| (list[k].0@, list[k].1@, list[k].2@))
}

/// Node handles as plain numbers.
pub open spec fn handles(list: Seq<NodeHandle>) -> Seq<int> {
    Seq::new(list.len(), |k: int| list[k]@)
}

/// A network as plain values: the nodes' names and components, both in the
/// order of the nodes' indices, and the wires in the order in which they were
/// first connected.
pub struct NetworkState {
    pub names: Seq<Seq<char>>,
    pub components: Seq<ComponentState>,
    pub wires: Seq<WireState>,
}

impl NetworkState {
    /// The network's wiring as a graph.
    pub open spec fn edges(self) -> Seq<(int, int)> {
        edges_of(self.wires)
    }

    /// Every node has a name and a component, every wire joins two nodes, no
    /// two wires join the same nodes in the same direction, and the wiring
    /// has no cycle.
    pub open spec fn wf(self) -> bool {
        &&& self.names.len() == self.components.len()
        &&& edges_within(self.edges(), self.components.len())
        &&& edges_distinct(self.edges())
        &&& !has_cycle(self.edges())
    }

    /// `node` is one of the network's nodes.
    pub open spec fn has_node(self, node: int) -> bool {
        0 <= node < self.components.len()
    }

    /// The network with one more node.
    pub open spec fn with_component(self, name: Seq<char>, component: ComponentState) -> NetworkState {
        NetworkState {
            names: self.names.push(name),
            components: self.components.push(component),
            wires: self.wires,
        }
    }

    /// The network after a request to connect `from` to `to`: as `connected`
    /// gives it, or as it was where the request is refused.
    pub open spec fn linked(self, from: int, to: int, resistance: int) -> NetworkState {
        match self.connected(from, to, resistance) {
            Ok(state) => state,
            Err(_) => self,
        }
    }

    /// The network after a command to the component at `node`: as
    /// `commanded` gives it, or as it was where the command is not carried
    /// out.
    pub open spec fn told(self, node: int, command: Command) -> NetworkState {
        match self.commanded(node, command) {
            Ok(state) => state,
            Err(_) => self,
        }
    }

    /// The order in which a tick takes the nodes: a topological order of the
    /// wiring.
    pub open spec fn tick_order(self) -> Option<Seq<int>> {
        toposort_order(self.components.len(), self.edges())
    }

    /// The network with every wire's current computed afresh.
    pub open spec fn recomputed(self) -> NetworkState {
        NetworkState { wires: with_currents(self.wires, self.components), ..self }
    }

    /// The network after a tick of `dt` that takes the nodes in the given
    /// order: first each component moves forward by `dt`; then every wire's
    /// current is computed from the voltages that the components now present;
    /// then each node hands its voltage, its power and its wires' currents to
    /// the nodes downstream of it.
    pub open spec fn tick(self, order: Seq<int>, dt: int) -> NetworkState {
        let stepped = tick_components(self.components, order, dt);
        let wires = with_currents(self.wires, stepped);
        NetworkState { names: self.names, components: propagate(stepped, wires, order), wires }
    }

    /// What becomes of a command given to the component at `node`.
    pub open spec fn commanded(self, node: int, command: Command) -> Result<
        NetworkState,
        CommandError,
    > {
        if !self.has_node(node) {
            Err(CommandError::UnknownNode)
        } else {
            match self.components[node].obeying(command) {
                Some(component) => Ok(
                    NetworkState { components: self.components.update(node, component), ..self },
                ),
                None => Err(CommandError::WrongKind),
            }
        }
    }

    /// What becomes of a request to connect `from` to `to` by a wire of the
    /// given resistance. Both ends must be nodes. A wire that already leads
    /// from `from` to `to` takes the new resistance and loses its current.
    /// Otherwise the wire is new, and it is refused when `from` can already
    /// be reached from `to`, because it would close a cycle.
    pub open spec fn connected(self, from: int, to: int, resistance: int) -> Result<
        NetworkState,
        NetworkError,
    > {
        let wire = WireState { from, to, resistance, current: 0 };
        if !self.has_node(from) || !self.has_node(to) {
            Err(NetworkError::UnknownNode)
        } else {
            match wire_index(self.wires, from, to) {
                Some(k) => Ok(NetworkState { wires: self.wires.update(k, wire), ..self }),
                None => if reachable(self.edges(), to, from) {
                    Err(NetworkError::WouldCycle)
                } else {
                    Ok(NetworkState { wires: self.wires.push(wire), ..self })
                },
            }
        }
    }
}

/// A wire between two nodes.
#[derive(Clone, Copy)]
struct Wire {
    from: usize,
    to: usize,
    resistance: ElectricalResistance,
    current: ElectricCurrent,
}

impl View for Wire {
    type V = WireState;

    closed spec fn view(&self) -> WireState {
        WireState {
            from: self.from as int,
            to: self.to as int,
            resistance: self.resistance@,
            current: self.current@,
        }
    }
}

/// Resistance given to a connection that is meant to have none: a thousandth
/// of an ohm, in raw units, so that the current through it stays finite.
pub const NEGLIGIBLE_RESISTANCE: i64 = 1_000;

/// A network of electrical components joined by wires.
pub struct ElectricalSystem {
    graph: Graph<String, (), Directed, u32>,
    components: Vec<Component>,
    wires: Vec<Wire>,
}

impl View for ElectricalSystem {
    type V = NetworkState;

    closed spec fn view(&self) -> NetworkState {
        NetworkState {
            names: graph_nodes(self.graph),
            components: Seq::new(self.components@.len(), |k: int| self.components@[k]@),
            wires: Seq::new(self.wires@.len(), |k: int| self.wires@[k]@),
        }
    }
}

impl ElectricalSystem {
    /// The network's own books agree with its wiring diagram, and the
    /// network is well formed.
    pub closed spec fn wf(&self) -> bool {
        &&& graph_edges(self.graph) == self@.edges()
        &&& self.components.len() <= u32::MAX
        &&& self.wires.len() <= u32::MAX
        &&& self@.wf()
    }

    /// A well-formed network is well formed as plain values too.
    pub proof fn lemma_wf_of_view(&self)
        requires
            self.wf(),
        ensures
            self@.wf(),
    {
    }

    /// A network without nodes or wires.
    pub fn new() -> (made: Self)
        ensures
            made.wf(),
            made@ == (NetworkState {
                names: Seq::empty(),
                components: Seq::empty(),
                wires: Seq::empty(),
            }),
    {
        let made = ElectricalSystem { graph: graph_new(), components: Vec::new(), wires: Vec::new() };
        proof {
            assert(made@.components =~= Seq::<ComponentState>::empty());
            assert(made@.wires =~= Seq::<WireState>::empty());
            assert(made@.edges() =~= Seq::<(int, int)>::empty());
            lemma_no_edges_no_cycle(made@.edges());
        }
        made
    }

    /// Number of nodes in the network.
    pub fn node_count(&self) -> (count: usize)
        ensures
            count == self@.components.len(),
    {
        self.components.len()
    }

    /// Add a component under the given name and return its handle. Handles
    /// count up from zero.
    pub fn add_component(&mut self, name: &str, component: Component) -> (handle: NodeHandle)
        requires
            old(self).wf(),
            old(self)@.components.len() < u32::MAX,
        ensures
            final(self).wf(),
            handle@ == old(self)@.components.len(),
            final(self)@ == old(self)@.with_component(name@, component@),
    {
        let index: usize = graph_add_node(&mut self.graph, name.to_owned());
        self.components.push(component);
        proof {
            assert(self@.components =~= old(self)@.components.push(component@));
            assert(self@.wires =~= old(self)@.wires);
        }
        NodeHandle { index }
    }

    /// Index of the wire that leads from `from` to `to`, if there is one.
    fn find_wire(&self, from: usize, to: usize) -> (found: Option<usize>)
        ensures
            match found {
                Some(k) => wire_index(self@.wires, from as int, to as int) == Some(k as int),
                None => wire_index(self@.wires, from as int, to as int) is None,
            },
    {
        let mut k: usize = 0;
        while k < self.wires.len()
            invariant
                k <= self.wires.len(),
                forall|j: int| 0 <= j < k ==> !joins(#[trigger] self@.wires[j], from as int, to as int),
            decreases self.wires.len() - k,
        {
            if self.wires[k].from == from && self.wires[k].to == to {
                assert(is_first_wire(self@.wires, from as int, to as int, k as int));
                return Some(k);
            }
            k += 1;
        }
        None
    }

    /// Connect `from` to `to` by a wire of the given resistance.
    pub fn connect_with_wire(
        &mut self,
        from: NodeHandle,
        to: NodeHandle,
        resistance: ElectricalResistance,
    ) -> (outcome: Result<(), NetworkError>)
        requires
            old(self).wf(),
            old(self)@.wires.len() < u32::MAX,
        ensures
            final(self).wf(),
            match old(self)@.connected(from@, to@, resistance@) {
                Ok(state) => outcome is Ok && final(self)@ == state,
                Err(error) => outcome == Err::<(), NetworkError>(error) && final(self)@ == old(
                    self,
                )@,
            },
    {
        let count: usize = self.components.len();
        if from.index >= count || to.index >= count {
            return Err(NetworkError::UnknownNode);
        }
        let wire = Wire { from: from.index, to: to.index, resistance, current: ElectricCurrent::new(0) };
        match self.find_wire(from.index, to.index) {
            Some(k) => {
                self.wires[k] = wire;
                proof {
                    assert(self@.wires =~= old(self)@.wires.update(k as int, wire@));
                    assert(self@.edges() =~= old(self)@.edges());
                    assert(self@.components =~= old(self)@.components);
                }
                Ok(())
            },
            None => {
                if graph_has_path(&self.graph, to.index, from.index) {
                    return Err(NetworkError::WouldCycle);
                }
                graph_add_edge(&mut self.graph, from.index, to.index);
                self.wires.push(wire);
                proof {
                    let before = old(self)@.edges();
                    assert(self@.wires =~= old(self)@.wires.push(wire@));
                    assert(self@.edges() =~= before.push((from@, to@)));
                    assert(self@.components =~= old(self)@.components);
                    lemma_new_edge_keeps_acyclic(before, from@, to@);
                    assert(!before.contains((from@, to@))) by {
                        if before.contains((from@, to@)) {
                            let e = choose|e: int| 0 <= e < before.len() && before[e] == (from@, to@);
                            assert(joins(old(self)@.wires[e], from@, to@));
                            lemma_some_wire_joins(old(self)@.wires, from@, to@, e);
                        }
                    }
                }
                Ok(())
            },
        }
    }

    /// Connect `from` to `to` by a wire of negligible resistance.
    pub fn connect_no_resistance(&mut self, from: NodeHandle, to: NodeHandle) -> (outcome: Result<
        (),
        NetworkError,
    >)
        requires
            old(self).wf(),
            old(self)@.wires.len() < u32::MAX,
        ensures
            final(self).wf(),
            match old(self)@.connected(from@, to@, NEGLIGIBLE_RESISTANCE as int) {
                Ok(state) => outcome is Ok && final(self)@ == state,
                Err(error) => outcome == Err::<(), NetworkError>(error) && final(self)@ == old(
                    self,
                )@,
            },
    {
        self.connect_with_wire(from, to, ElectricalResistance::new(NEGLIGIBLE_RESISTANCE))
    }

    /// Current last computed for the wire that leads from `from` to `to`, if
    /// there is such a wire.
    pub fn get_current(&self, from: NodeHandle, to: NodeHandle) -> (current: Option<ElectricCurrent>)
        ensures
            match current {
                Some(amps) => current_between(self@.wires, from@, to@) == Some(amps@),
                None => current_between(self@.wires, from@, to@) is None,
            },
    {
        match self.find_wire(from.index, to.index) {
            Some(k) => Some(self.wires[k].current),
            None => None,
        }
    }

    /// Name under which the component at `node` was added, if `node` is a
    /// node of the network.
    pub fn node_name(&self, node: NodeHandle) -> (name: Option<String>)
        requires
            self.wf(),
        ensures
            match name {
                Some(text) => self@.has_node(node@) && text@ == self@.names[node@],
                None => !self@.has_node(node@),
            },
    {
        if node.index < self.components.len() {
            graph_node_name(&self.graph, node.index)
        } else {
            None
        }
    }

    /// Compute every wire's current afresh from the voltages that the
    /// components at its two ends present.
    pub fn calculate_current_flow(&mut self)
        requires
            old(self).wf(),
        ensures
            final(self).wf(),
            final(self)@ == old(self)@.recomputed(),
    {
        let mut k: usize = 0;
        while k < self.wires.len()
            invariant
                k <= self.wires.len(),
                self.wf(),
                self@.names == old(self)@.names,
                self@.components == old(self)@.components,
                self@.wires.len() == old(self)@.wires.len(),
                forall|j: int|
                    0 <= j < k ==> #[trigger] self@.wires[j] == old(self)@.recomputed().wires[j],
                forall|j: int|
                    k <= j < self@.wires.len() ==> #[trigger] self@.wires[j] == old(self)@.wires[j],
            decreases self.wires.len() - k,
        {
            let wire: Wire = self.wires[k];
            let ghost before = self@;
            proof {
                assert(before.edges()[k as int] == (wire.from as int, wire.to as int));
            }
            let voltage_from: ElectricPotential = self.components[wire.from].get_output_voltage();
            let voltage_to: ElectricPotential = self.components[wire.to].get_output_voltage();
            let current: i64 = if wire.resistance.micro > 0 {
                over(minus(voltage_from.micro, voltage_to.micro), wire.resistance.micro)
            } else {
                0
            };
            let renewed = Wire { current: ElectricCurrent::new(current), ..wire };
            self.wires[k] = renewed;
            proof {
                assert(self@.components =~= before.components);
                assert(self@.wires =~= before.wires.update(k as int, renewed@));
                assert(self@.edges() =~= before.edges());
                assert(before.wires[k as int] == old(self)@.wires[k as int]);
            }
            k += 1;
        }
        proof {
            assert(self@.wires =~= old(self)@.recomputed().wires);
        }
    }

    /// Move each component listed in `order` forward by `dt`.
    fn step_components(&mut self, order: &Vec<usize>, dt: Time)
        requires
            old(self).wf(),
        ensures
            final(self).wf(),
            final(self)@ == (NetworkState {
                components: tick_components(old(self)@.components, as_nodes(order@), dt@),
                ..old(self)@
            }),
    {
        let mut i: usize = 0;
        assert(as_nodes(order@).skip(0) =~= as_nodes(order@));
        while i < order.len()
            invariant
                i <= order.len(),
                self.wf(),
                self@.names == old(self)@.names,
                self@.wires == old(self)@.wires,
                tick_components(self@.components, as_nodes(order@).skip(i as int), dt@)
                    == tick_components(old(self)@.components, as_nodes(order@), dt@),
            decreases order.len() - i,
        {
            let node: usize = order[i];
            let ghost before = self@;
            proof {
                let rest = as_nodes(order@).skip(i as int);
                assert(rest[0] == node as int);
                assert(rest.drop_first() =~= as_nodes(order@).skip(i + 1));
            }
            if node < self.components.len() {
                let component = &mut self.components[node];
                component.update(dt);
                proof {
                    assert(self@.components =~= before.components.update(
                        node as int,
                        before.components[node as int].step(dt@),
                    ));
                    assert(self@.wires =~= before.wires);
                }
            }
            i += 1;
        }
    }

    /// Hand `voltage` and `power` from `node` to each of `targets`, with the
    /// current of the wire that leads there.
    fn push_downstream(
        &mut self,
        node: usize,
        voltage: ElectricPotential,
        power: Power,
        targets: &Vec<usize>,
    )
        requires
            old(self).wf(),
        ensures
            final(self).wf(),
            final(self)@ == (NetworkState {
                components: push_downstream(
                    old(self)@.components,
                    old(self)@.wires,
                    node as int,
                    voltage@,
                    power@,
                    as_nodes(targets@),
                ),
                ..old(self)@
            }),
    {
        let mut j: usize = 0;
        assert(as_nodes(targets@).skip(0) =~= as_nodes(targets@));
        while j < targets.len()
            invariant
                j <= targets.len(),
                self.wf(),
                self@.names == old(self)@.names,
                self@.wires == old(self)@.wires,
                push_downstream(
                    self@.components,
                    self@.wires,
                    node as int,
                    voltage@,
                    power@,
                    as_nodes(targets@).skip(j as int),
                ) == push_downstream(
                    old(self)@.components,
                    old(self)@.wires,
                    node as int,
                    voltage@,
                    power@,
                    as_nodes(targets@),
                ),
            decreases targets.len() - j,
        {
            let target: usize = targets[j];
            let ghost before = self@;
            proof {
                let rest = as_nodes(targets@).skip(j as int);
                assert(rest[0] == target as int);
                assert(rest.drop_first() =~= as_nodes(targets@).skip(j + 1));
            }
            if target < self.components.len() {
                let current: Option<ElectricCurrent> = match self.find_wire(node, target) {
                    Some(k) => Some(self.wires[k].current),
                    None => None,
                };
                let component = &mut self.components[target];
                component.set_input_voltage(voltage);
                component.set_input_power(power);
                if let Some(amps) = current {
                    component.set_input_current(amps);
                }
                proof {
                    assert(self@.components =~= before.components.update(
                        target as int,
                        fed(
                            before.components[target as int],
                            voltage@,
                            power@,
                            current_between(before.wires, node as int, target as int),
                        ),
                    ));
                    assert(self@.wires =~= before.wires);
                }
            }
            j += 1;
        }
    }

    /// Let each node listed in `order` hand what it presents to the nodes
    /// downstream of it.
    fn propagate(&mut self, order: &Vec<usize>)
        requires
            old(self).wf(),
        ensures
            final(self).wf(),
            final(self)@ == (NetworkState {
                components: propagate(old(self)@.components, old(self)@.wires, as_nodes(order@)),
                ..old(self)@
            }),
    {
        let mut i: usize = 0;
        assert(as_nodes(order@).skip(0) =~= as_nodes(order@));
        while i < order.len()
            invariant
                i <= order.len(),
                self.wf(),
                self@.names == old(self)@.names,
                self@.wires == old(self)@.wires,
                propagate(self@.components, self@.wires, as_nodes(order@).skip(i as int))
                    == propagate(old(self)@.components, old(self)@.wires, as_nodes(order@)),
            decreases order.len() - i,
        {
            let node: usize = order[i];
            proof {
                let rest = as_nodes(order@).skip(i as int);
                assert(rest[0] == node as int);
                assert(rest.drop_first() =~= as_nodes(order@).skip(i + 1));
            }
            if node < self.components.len() {
                let voltage: ElectricPotential = self.components[node].get_output_voltage();
                let power: Power = self.components[node].get_output_power();
                let targets: Vec<usize> = graph_neighbors(&self.graph, node);
                self.push_downstream(node, voltage, power, &targets);
            }
            i += 1;
        }
    }

    /// One tick of `dt` that takes the nodes in the order of `order`.
    fn run_in_order(&mut self, order: &Vec<usize>, dt: Time)
        requires
            old(self).wf(),
        ensures
            final(self).wf(),
            final(self)@ == old(self)@.tick(as_nodes(order@), dt@),
    {
        self.step_components(order, dt);
        self.calculate_current_flow();
        self.propagate(order);
    }

    /// Advance the network by `dt`, taking the nodes in the given order.
    pub fn update_in_order(&mut self, order: &Vec<NodeHandle>, dt: Time)
        requires
            old(self).wf(),
        ensures
            final(self).wf(),
            final(self)@ == old(self)@.tick(handles(order@), dt@),
    {
        let mut indices: Vec<usize> = Vec::new();
        let mut i: usize = 0;
        while i < order.len()
            invariant
                i <= order.len(),
                indices@.len() == i,
                forall|k: int| 0 <= k < i ==> indices@[k] as int == #[trigger] order@[k]@,
            decreases order.len() - i,
        {
            indices.push(order[i].index);
            i += 1;
        }
        proof {
            assert(as_nodes(indices@) =~= handles(order@));
        }
        self.run_in_order(&indices, dt);
    }

    /// Advance the network by `dt`. The nodes are taken in a topological
    /// order of the wiring, so that every component moves, and hands on what
    /// it presents, before any component downstream of it.
    pub fn update_system(&mut self, dt: Time)
        requires
            old(self).wf(),
        ensures
            final(self).wf(),
            old(self)@.tick_order() is Some,
            is_topological_order(
                old(self)@.tick_order().unwrap(),
                old(self)@.components.len(),
                old(self)@.edges(),
            ),
            final(self)@ == old(self)@.tick(old(self)@.tick_order().unwrap(), dt@),
    {
        match graph_toposort(&self.graph) {
            Some(order) => {
                self.run_in_order(&order, dt);
            },
            None => {},
        }
    }

    /// The wires whose current is over `max_current`, each as source, target
    /// and current, in the order in which the wires were first connected.
    pub fn check_overcurrent(&self, max_current: ElectricCurrent) -> (found: Vec<
        (NodeHandle, NodeHandle, ElectricCurrent),
    >)
        ensures
            reported(found@) == overloaded(self@.wires, max_current@),
    {
        let mut found: Vec<(NodeHandle, NodeHandle, ElectricCurrent)> = Vec::new();
        let mut k: usize = 0;
        while k < self.wires.len()
            invariant
                k <= self.wires.len(),
                reported(found@) == overloaded(self@.wires.take(k as int), max_current@),
            decreases self.wires.len() - k,
        {
            let wire: Wire = self.wires[k];
            let ghost before = reported(found@);
            proof {
                let taken = self@.wires.take(k + 1);
                assert(taken.drop_last() =~= self@.wires.take(k as int));
                assert(taken.last() == wire@);
            }
            if wire.current.micro > max_current.micro {
                found.push(
                    (NodeHandle { index: wire.from }, NodeHandle { index: wire.to }, wire.current),
                );
                proof {
                    assert(reported(found@) =~= before.push(
                        (wire.from as int, wire.to as int, wire.current@),
                    ));
                }
            }
            k += 1;
        }
        proof {
            assert(self@.wires.take(self.wires.len() as int) =~= self@.wires);
        }
        found
    }

    /// The component at `node`, if `node` is a node of the network.
    pub fn component(&self, node: NodeHandle) -> (found: Option<&Component>)
        ensures
            match found {
                Some(component) => self@.has_node(node@) && component@ == self@.components[node@],
                None => !self@.has_node(node@),
            },
    {
        if node.index < self.components.len() {
            Some(&self.components[node.index])
        } else {
            None
        }
    }

    /// Give a command to the component at `node`. The network stays as it is
    /// when `node` is no node of it, or holds a component of another kind
    /// than the command is for.
    pub fn command(&mut self, node: NodeHandle, command: Command) -> (outcome: Result<
        (),
        CommandError,
    >)
        requires
            old(self).wf(),
        ensures
            final(self).wf(),
            match old(self)@.commanded(node@, command) {
                Ok(state) => outcome is Ok && final(self)@ == state,
                Err(error) => outcome == Err::<(), CommandError>(error) && final(self)@ == old(
                    self,
                )@,
            },
    {
        if node.index >= self.components.len() {
            return Err(CommandError::UnknownNode);
        }
        let component = &mut self.components[node.index];
        let obeyed: bool = component.obey(command);
        proof {
            assert(self@.wires =~= old(self)@.wires);
            if obeyed {
                assert(self@.components =~= old(self)@.components.update(
                    node@,
                    old(self)@.components[node@].obeying(command).unwrap(),
                ));
            } else {
                assert(self@.components =~= old(self)@.components);
            }
        }
        if obeyed {
            Ok(())
        } else {
            Err(CommandError::WrongKind)
        }
    }
}

/// Where some wire leads from `from` to `to`, there is a first such wire.
pub proof fn lemma_some_wire_joins(wires: Seq<WireState>, from: int, to: int, k: int)
    requires
        0 <= k < wires.len(),
        joins(wires[k], from, to),
    ensures
        wire_index(wires, from, to) is Some,
    decreases k,
{
    if forall|j: int| 0 <= j < k ==> !joins(#[trigger] wires[j], from, to) {
        assert(is_first_wire(wires, from, to, k));
    } else {
        let j = choose|j: int| 0 <= j < k && joins(#[trigger] wires[j], from, to);
        lemma_some_wire_joins(wires, from, to, j);
    }
}

/// A component's place after the nodes listed in `order` have moved forward:
/// moved if it is listed, as it was if it is not.
proof fn lemma_tick_components_at(
    components: Seq<ComponentState>,
    order: Seq<int>,
    dt: int,
    node: int,
)
    requires
        order.no_duplicates(),
        0 <= node < components.len(),
    ensures
        tick_components(components, order, dt).len() == components.len(),
        tick_components(components, order, dt)[node] == if order.contains(node) {
            components[node].step(dt)
        } else {
            components[node]
        },
    decreases order.len(),
{
    if order.len() > 0 {
        let first = order[0];
        let rest = order.drop_first();
        let next = if 0 <= first < components.len() {
            components.update(first, components[first].step(dt))
        } else {
            components
        };
        assert(rest.no_duplicates()) by {
            assert forall|i: int, j: int| 0 <= i < j < rest.len() implies rest[i] != rest[j] by {
                assert(rest[i] == order[i + 1] && rest[j] == order[j + 1]);
            }
        }
        lemma_tick_components_at(next, rest, dt, node);
        if first == node {
            assert(order.contains(node));
            if rest.contains(node) {
                let i = choose|i: int| 0 <= i < rest.len() && rest[i] == node;
                assert(order[i + 1] == node);
            }
        } else {
            if order.contains(node) {
                let i = choose|i: int| 0 <= i < order.len() && order[i] == node;
                assert(rest[i - 1] == node);
            }
            if rest.contains(node) {
                let i = choose|i: int| 0 <= i < rest.len() && rest[i] == node;
                assert(order[i + 1] == node);
            }
        }
    }
}

/// A tick that takes the nodes in an order that lists each of them once moves
/// every component forward exactly once.
pub proof fn lemma_tick_moves_each_component_once(
    components: Seq<ComponentState>,
    order: Seq<int>,
    dt: int,
)
    requires
        is_ordering(order, components.len()),
    ensures
        tick_components(components, order, dt) == Seq::new(
            components.len(),
            |node: int| components[node].step(dt),
        ),
{
    let moved = tick_components(components, order, dt);
    lemma_ordering_lists_every_node(order, components.len());
    if components.len() == 0 {
        assert(moved == components);
    } else {
        lemma_tick_components_at(components, order, dt, 0);
    }
    assert forall|node: int| 0 <= node < components.len() implies moved[node]
        == components[node].step(dt) && moved.len() == components.len() by {
        lemma_tick_components_at(components, order, dt, node);
    }
    assert(moved =~= Seq::new(components.len(), |node: int| components[node].step(dt)));
}

/// After a tick that takes the nodes in an order that lists each of them
/// once, every wire keeps its ends and its resistance, and carries the
/// current that its resistance lets through between the voltages that the
/// components at its two ends present after moving forward in that same tick:
/// their difference over the resistance, or nothing where the resistance is
/// not positive.
pub proof fn lemma_currents_follow_this_ticks_voltages(
    state: NetworkState,
    order: Seq<int>,
    dt: int,
    k: int,
)
    requires
        state.wf(),
        is_ordering(order, state.components.len()),
        0 <= k < state.wires.len(),
    ensures
        state.tick(order, dt).wires.len() == state.wires.len(),
        state.tick(order, dt).wires[k].from == state.wires[k].from,
        state.tick(order, dt).wires[k].to == state.wires[k].to,
        state.tick(order, dt).wires[k].resistance == state.wires[k].resistance,
        state.tick(order, dt).wires[k].current == ohms_law(
            state.components[state.wires[k].from].step(dt).output_voltage(),
            state.components[state.wires[k].to].step(dt).output_voltage(),
            state.wires[k].resistance,
        ),
{
    lemma_tick_moves_each_component_once(state.components, order, dt);
    assert(state.edges()[k] == (state.wires[k].from, state.wires[k].to));
}

/// Where no wire leads from `from` to `to`, none is found.
pub proof fn lemma_no_wire_joins(wires: Seq<WireState>, from: int, to: int)
    requires
        forall|k: int| 0 <= k < wires.len() ==> !joins(#[trigger] wires[k], from, to),
    ensures
        wire_index(wires, from, to) is None,
{
}

/// A request to connect a node to another node that no wire touches yet is
/// never refused: the new wire is laid, without current.
pub proof fn lemma_connect_to_unwired_node(
    state: NetworkState,
    from: int,
    to: int,
    resistance: int,
)
    requires
        state.has_node(from),
        state.has_node(to),
        from != to,
        forall|k: int|
            0 <= k < state.wires.len() ==> (#[trigger] state.wires[k]).from != to
                && state.wires[k].to != to,
    ensures
        state.connected(from, to, resistance) == Ok::<NetworkState, NetworkError>(
            NetworkState {
                wires: state.wires.push(WireState { from, to, resistance, current: 0 }),
                ..state
            },
        ),
{
    lemma_no_wire_joins(state.wires, from, to);
    lemma_sink_reaches_nothing(state.edges(), to, from);
}

} // verus!
