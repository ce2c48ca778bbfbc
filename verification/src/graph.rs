//! The graph data model: nodes, pins, connections, and the graph itself.
//!
//! A graph and its entities are built once by the caller and treated as
//! immutable for the duration of one compile call.

use vstd::prelude::*;

verus! {

/// A data type tag carried by pins and descriptor return types.
#[derive(Debug, Clone, PartialEq, Eq)]
pub struct TypeInfo {
    pub name: String,
}

impl View for TypeInfo {
    type V = Seq<char>;

    open spec fn view(&self) -> Seq<char> {
        self.name@
    }
}

impl TypeInfo {
    /// A type tag with the given name.
    pub fn new(name: &str) -> (r: Self)
        ensures
            r.name@ == name@,
    {
        TypeInfo { name: String::from_str(name) }
    }
}

/// Whether a pin accepts a value or produces one.
#[derive(Debug, Clone, Copy, PartialEq, Eq, Structural)]
pub enum PinType {
    Input,
    Output,
}

/// What a pin carries: control order, or a value of a declared type.
#[derive(Debug, Clone, PartialEq, Eq)]
pub enum DataType {
    Execution,
    Typed(TypeInfo),
}

/// Spec-level form of `DataType`.
pub enum DataTypeSpec {
    Execution,
    Typed(Seq<char>),
}

impl View for DataType {
    type V = DataTypeSpec;

    open spec fn view(&self) -> DataTypeSpec {
        match self {
            DataType::Execution => DataTypeSpec::Execution,
            DataType::Typed(t) => DataTypeSpec::Typed(t@),
        }
    }
}

/// A named slot on a node, with a declared data type.
#[derive(Debug, Clone, PartialEq, Eq)]
pub struct Pin {
    pub id: String,
    pub name: String,
    pub data_type: DataType,
    pub pin_type: PinType,
}

/// Spec-level form of a pin.
#[verifier::ext_equal]
pub struct PinSpec {
    pub id: Seq<char>,
    pub name: Seq<char>,
    pub data_type: DataTypeSpec,
    pub pin_type: PinType,
}

impl View for Pin {
    type V = PinSpec;

    open spec fn view(&self) -> PinSpec {
        PinSpec { id: self.id@, name: self.name@, data_type: self.data_type@, pin_type: self.pin_type }
    }
}

impl Pin {
    /// A pin with the given id, name, data type and direction.
    pub fn new(id: &str, name: &str, data_type: DataType, pin_type: PinType) -> (r: Self)
        ensures
            r.id@ == id@,
            r.name@ == name@,
            r.data_type == data_type,
            r.pin_type == pin_type,
    {
        Pin { id: String::from_str(id), name: String::from_str(name), data_type, pin_type }
    }
}

/// One pin as instantiated on a concrete node.
#[derive(Debug, Clone, PartialEq, Eq)]
pub struct PinInstance {
    pub id: String,
    pub pin: Pin,
}

/// Spec-level form of a pin instance.
#[verifier::ext_equal]
pub struct PinInstanceSpec {
    pub id: Seq<char>,
    pub pin: PinSpec,
}

impl View for PinInstance {
    type V = PinInstanceSpec;

    open spec fn view(&self) -> PinInstanceSpec {
        PinInstanceSpec { id: self.id@, pin: self.pin@ }
    }
}

impl PinInstance {
    /// A pin instance with the given id.
    pub fn new(id: &str, pin: Pin) -> (r: Self)
        ensures
            r.id@ == id@,
            r.pin == pin,
    {
        PinInstance { id: String::from_str(id), pin }
    }
}

/// A constant bound directly to an input pin. A numeric constant is carried
/// as its rendered literal, so it can be spliced verbatim into source text.
#[derive(Debug, Clone, PartialEq, Eq)]
pub enum PropertyValue {
    Number(String),
    Text(String),
    Bool(bool),
}

/// Spec-level form of a property value.
pub enum PropertySpec {
    Number(Seq<char>),
    Text(Seq<char>),
    Bool(bool),
}

impl View for PropertyValue {
    type V = PropertySpec;

    open spec fn view(&self) -> PropertySpec {
        match self {
            PropertyValue::Number(s) => PropertySpec::Number(s@),
            PropertyValue::Text(s) => PropertySpec::Text(s@),
            PropertyValue::Bool(b) => PropertySpec::Bool(*b),
        }
    }
}

/// The literal text an input bound to this constant receives.
pub open spec fn property_literal(p: PropertySpec) -> Seq<char> {
    match p {
        PropertySpec::Number(s) => s,
        PropertySpec::Text(s) => s,
        PropertySpec::Bool(b) => if b {
            "true"@
        } else {
            "false"@
        },
    }
}

/// Editor-side layout position of a node; never read by code generation.
#[derive(Debug, Clone, Copy, PartialEq, Eq, Structural)]
pub struct Position {
    pub x: i64,
    pub y: i64,
}

/// One operation instance in a graph, typed by a catalog entry.
#[derive(Debug, Clone, PartialEq, Eq)]
pub struct NodeInstance {
    pub id: String,
    pub node_type: String,
    pub position: Position,
    pub inputs: Vec<PinInstance>,
    pub outputs: Vec<PinInstance>,
    pub properties: Vec<(String, PropertyValue)>,
}

/// Spec-level form of a node instance: everything generation reads. The
/// layout position is editor metadata and is left out.
#[verifier::ext_equal]
pub struct NodeSpec {
    pub id: Seq<char>,
    pub node_type: Seq<char>,
    pub inputs: Seq<PinInstanceSpec>,
    pub outputs: Seq<PinInstanceSpec>,
    pub properties: Seq<(Seq<char>, PropertySpec)>,
}

impl View for NodeInstance {
    type V = NodeSpec;

    open spec fn view(&self) -> NodeSpec {
        NodeSpec {
            id: self.id@,
            node_type: self.node_type@,
            inputs: self.inputs@.map_values(|p: PinInstance| p@),
            outputs: self.outputs@.map_values(|p: PinInstance| p@),
            properties: self.properties@.map_values(|kv: (String, PropertyValue)| (kv.0@, kv.1@)),
        }
    }
}

impl NodeInstance {
    /// A node with the given id and type name, and no pins or properties yet.
    pub fn new(id: &str, node_type: &str, position: Position) -> (r: Self)
        ensures
            r.id@ == id@,
            r.node_type@ == node_type@,
            r.position == position,
            r.inputs@ == Seq::<PinInstance>::empty(),
            r.outputs@ == Seq::<PinInstance>::empty(),
            r.properties@ == Seq::<(String, PropertyValue)>::empty(),
    {
        NodeInstance {
            id: String::from_str(id),
            node_type: String::from_str(node_type),
            position,
            inputs: Vec::new(),
            outputs: Vec::new(),
            properties: Vec::new(),
        }
    }

    /// Binds a constant to the input pin with the given pin id. A later
    /// binding for the same pin id wins over an earlier one.
    pub fn set_property(&mut self, pin_id: &str, value: PropertyValue)
        ensures
            final(self).properties@.len() == old(self).properties@.len() + 1,
            final(self).properties@.drop_last() == old(self).properties@,
            final(self).properties@.last().0@ == pin_id@,
            final(self).properties@.last().1 == value,
            final(self).id == old(self).id,
            final(self).node_type == old(self).node_type,
            final(self).position == old(self).position,
            final(self).inputs == old(self).inputs,
            final(self).outputs == old(self).outputs,
    {
        self.properties.push((String::from_str(pin_id), value));
    }
}

/// Whether an edge carries a value or control order.
#[derive(Debug, Clone, Copy, PartialEq, Eq, Structural)]
pub enum ConnectionType {
    Data,
    Execution,
}

/// An edge between two pins, referenced by node id and pin id.
#[derive(Debug, Clone, PartialEq, Eq)]
pub struct Connection {
    pub source_node: String,
    pub source_pin: String,
    pub target_node: String,
    pub target_pin: String,
    pub connection_type: ConnectionType,
}

/// Spec-level form of a connection.
#[verifier::ext_equal]
pub struct ConnectionSpec {
    pub source_node: Seq<char>,
    pub source_pin: Seq<char>,
    pub target_node: Seq<char>,
    pub target_pin: Seq<char>,
    pub connection_type: ConnectionType,
}

impl View for Connection {
    type V = ConnectionSpec;

    open spec fn view(&self) -> ConnectionSpec {
        ConnectionSpec {
            source_node: self.source_node@,
            source_pin: self.source_pin@,
            target_node: self.target_node@,
            target_pin: self.target_pin@,
            connection_type: self.connection_type,
        }
    }
}

impl Connection {
    /// An edge from (source node, source pin) to (target node, target pin).
    pub fn new(
        source_node: &str,
        source_pin: &str,
        target_node: &str,
        target_pin: &str,
        connection_type: ConnectionType,
    ) -> (r: Self)
        ensures
            r.source_node@ == source_node@,
            r.source_pin@ == source_pin@,
            r.target_node@ == target_node@,
            r.target_pin@ == target_pin@,
            r.connection_type == connection_type,
    {
        Connection {
            source_node: String::from_str(source_node),
            source_pin: String::from_str(source_pin),
            target_node: String::from_str(target_node),
            target_pin: String::from_str(target_pin),
            connection_type,
        }
    }
}

/// Graph-level metadata.
#[derive(Debug, Clone, PartialEq, Eq)]
pub struct GraphMetadata {
    pub name: String,
}

/// A whole graph: nodes, edges and metadata.
#[derive(Debug, Clone, PartialEq, Eq)]
pub struct GraphDescription {
    pub metadata: GraphMetadata,
    pub nodes: Vec<NodeInstance>,
    pub connections: Vec<Connection>,
}

/// Spec-level form of a graph.
#[verifier::ext_equal]
pub struct GraphSpec {
    pub name: Seq<char>,
    pub nodes: Seq<NodeSpec>,
    pub connections: Seq<ConnectionSpec>,
}

impl View for GraphDescription {
    type V = GraphSpec;

    open spec fn view(&self) -> GraphSpec {
        GraphSpec {
            name: self.metadata.name@,
            nodes: self.nodes@.map_values(|n: NodeInstance| n@),
            connections: self.connections@.map_values(|c: Connection| c@),
        }
    }
}

/// The first node in the list with the given id, if any.
pub open spec fn find_node(nodes: Seq<NodeInstance>, id: Seq<char>) -> Option<NodeInstance>
    decreases nodes.len(),
{
    if nodes.len() == 0 {
        None
    } else if nodes[0].id@ == id {
        Some(nodes[0])
    } else {
        find_node(nodes.drop_first(), id)
    }
}

/// Spec-level counterpart of `find_node`, over node views.
pub open spec fn graph_node(nodes: Seq<NodeSpec>, id: Seq<char>) -> Option<NodeSpec>
    decreases nodes.len(),
{
    if nodes.len() == 0 {
        None
    } else if nodes[0].id == id {
        Some(nodes[0])
    } else {
        graph_node(nodes.drop_first(), id)
    }
}

/// `find_node` and `graph_node` agree through the view.
pub proof fn lemma_find_node_view(nodes: Seq<NodeInstance>, id: Seq<char>)
    ensures
        match find_node(nodes, id) {
            Some(n) => graph_node(nodes.map_values(|m: NodeInstance| m@), id) == Some(n@),
            None => graph_node(nodes.map_values(|m: NodeInstance| m@), id) is None,
        },
    decreases nodes.len(),
{
    let views = nodes.map_values(|m: NodeInstance| m@);
    if nodes.len() > 0 {
        assert(views[0] == nodes[0]@);
        if nodes[0].id@ != id {
            lemma_find_node_view(nodes.drop_first(), id);
            assert(nodes.drop_first().map_values(|m: NodeInstance| m@) =~= views.drop_first());
        }
    }
}

/// A node found by id carries that id.
pub proof fn lemma_find_node_id(nodes: Seq<NodeInstance>, id: Seq<char>)
    requires
        find_node(nodes, id) is Some,
    ensures
        find_node(nodes, id)->Some_0.id@ == id,
    decreases nodes.len(),
{
    if nodes.len() > 0 && nodes[0].id@ != id {
        lemma_find_node_id(nodes.drop_first(), id);
    }
}

/// The set of node ids a graph holds.
pub open spec fn node_ids(nodes: Seq<NodeSpec>) -> Set<Seq<char>> {
    nodes.map_values(|n: NodeSpec| n.id).to_set()
}

/// A node found by id is one of the graph's ids.
pub proof fn lemma_graph_node_in_ids(nodes: Seq<NodeSpec>, id: Seq<char>)
    requires
        graph_node(nodes, id) is Some,
    ensures
        node_ids(nodes).contains(id),
        node_ids(nodes).finite(),
    decreases nodes.len(),
{
    lemma_node_ids_finite(nodes);
    let ids = nodes.map_values(|n: NodeSpec| n.id);
    if nodes.len() > 0 {
        if nodes[0].id == id {
            assert(ids[0] == id);
            assert(ids.contains(id));
        } else {
            lemma_graph_node_in_ids(nodes.drop_first(), id);
            let sub = nodes.drop_first().map_values(|n: NodeSpec| n.id);
            assert(sub.contains(id));
            let i = choose|i: int| 0 <= i < sub.len() && sub[i] == id;
            assert(ids[i + 1] == id);
            assert(ids.contains(id));
        }
    }
}

/// The id set of any node list is finite.
pub proof fn lemma_node_ids_finite(nodes: Seq<NodeSpec>)
    ensures
        node_ids(nodes).finite(),
{
    vstd::seq_lib::seq_to_set_is_finite(nodes.map_values(|n: NodeSpec| n.id));
}

impl GraphDescription {
    /// An empty graph with the given name.
    pub fn new(name: &str) -> (r: Self)
        ensures
            r.metadata.name@ == name@,
            r.nodes@ == Seq::<NodeInstance>::empty(),
            r.connections@ == Seq::<Connection>::empty(),
    {
        GraphDescription {
            metadata: GraphMetadata { name: String::from_str(name) },
            nodes: Vec::new(),
            connections: Vec::new(),
        }
    }

    /// Appends a node; iteration order is insertion order.
    pub fn add_node(&mut self, node: NodeInstance)
        ensures
            final(self).nodes@ == old(self).nodes@.push(node),
            final(self).connections == old(self).connections,
            final(self).metadata == old(self).metadata,
    {
        self.nodes.push(node);
    }

    /// Appends a connection; iteration order is insertion order.
    pub fn add_connection(&mut self, connection: Connection)
        ensures
            final(self).connections@ == old(self).connections@.push(connection),
            final(self).nodes == old(self).nodes,
            final(self).metadata == old(self).metadata,
    {
        self.connections.push(connection);
    }

    /// The first node with the given id, if any.
    pub fn get_node(&self, id: &str) -> (r: Option<&NodeInstance>)
        ensures
            match r {
                Some(n) => find_node(self.nodes@, id@) == Some(*n),
                None => find_node(self.nodes@, id@) is None,
            },
    {
        let n = self.nodes.len();
        proof {
            assert(self.nodes@.skip(0) =~= self.nodes@);
        }
        for i in 0..n
            invariant
                n == self.nodes@.len(),
                find_node(self.nodes@, id@) == find_node(self.nodes@.skip(i as int), id@),
        {
            proof {
                assert(self.nodes@.skip(i as int)[0] == self.nodes@[i as int]);
            }
            if crate::text::str_eq(self.nodes[i].id.as_str(), id) {
                return Some(&self.nodes[i]);
            }
            proof {
                assert(self.nodes@.skip(i as int).drop_first() =~= self.nodes@.skip(i + 1));
            }
        }
        proof {
            assert(self.nodes@.skip(n as int) =~= Seq::<NodeInstance>::empty());
        }
        None
    }
}

} // verus!
