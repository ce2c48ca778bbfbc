//! The two analyses the generator consumes, as narrow read-only interfaces:
//! per input pin, where its value comes from; per node, its assigned result
//! variable; per execution-output pin, the ordered downstream nodes.
//!
//! Both artifacts are derived from the graph once, before generation, and
//! are read-only afterwards.

use vstd::prelude::*;

use crate::graph::ConnectionSpec;
use crate::graph::ConnectionType;
use crate::graph::GraphDescription;
use crate::graph::GraphSpec;
use crate::graph::NodeSpec;
use crate::graph::PinInstance;
use crate::graph::PinInstanceSpec;
use crate::graph::PropertySpec;
use crate::graph::PropertyValue;
use crate::graph::graph_node;
use crate::metadata::MetaSpec;
use crate::metadata::NodeKind;
use crate::metadata::ShaderMetadataProvider;
use crate::metadata::meta_lookup;
use crate::text::str_eq;

verus! {

/// Where the value of one input pin comes from.
#[derive(Debug, Clone, PartialEq, Eq)]
pub enum DataSource {
    /// The value produced by another node's output pin.
    Connection { source_node_id: String, source_pin: String },
    /// A literal bound directly to the pin, used verbatim.
    Constant(String),
    /// No explicit binding: the target language's zero literal is used.
    Default,
}

/// Spec-level form of a data source.
pub enum DataSourceSpec {
    Connection { source_node_id: Seq<char>, source_pin: Seq<char> },
    Constant(Seq<char>),
    Default,
}

impl View for DataSource {
    type V = DataSourceSpec;

    open spec fn view(&self) -> DataSourceSpec {
        match self {
            DataSource::Connection { source_node_id, source_pin } => DataSourceSpec::Connection {
                source_node_id: source_node_id@,
                source_pin: source_pin@,
            },
            DataSource::Constant(s) => DataSourceSpec::Constant(s@),
            DataSource::Default => DataSourceSpec::Default,
        }
    }
}

/// One resolved input: the source feeding (node id, input pin name).
#[derive(Debug, Clone, PartialEq, Eq)]
pub struct SourceEntry {
    pub node_id: String,
    pub pin_name: String,
    pub source: DataSource,
}

/// Spec-level form of a resolved input.
#[verifier::ext_equal]
pub struct SourceEntrySpec {
    pub node_id: Seq<char>,
    pub pin_name: Seq<char>,
    pub source: DataSourceSpec,
}

impl View for SourceEntry {
    type V = SourceEntrySpec;

    open spec fn view(&self) -> SourceEntrySpec {
        SourceEntrySpec { node_id: self.node_id@, pin_name: self.pin_name@, source: self.source@ }
    }
}

/// The data-flow artifact: one entry per declared input pin, plus the
/// assigned result variable of every node that gets one.
#[derive(Debug, Clone, PartialEq, Eq)]
pub struct DataResolver {
    pub sources: Vec<SourceEntry>,
    pub result_variables: Vec<(String, String)>,
}

/// Spec-level form of the data-flow artifact.
#[verifier::ext_equal]
pub struct ResolverSpec {
    pub sources: Seq<SourceEntrySpec>,
    pub result_variables: Seq<(Seq<char>, Seq<char>)>,
}

impl View for DataResolver {
    type V = ResolverSpec;

    open spec fn view(&self) -> ResolverSpec {
        ResolverSpec {
            sources: self.sources@.map_values(|e: SourceEntry| e@),
            result_variables: self.result_variables@.map_values(
                |kv: (String, String)| (kv.0@, kv.1@),
            ),
        }
    }
}

/// The first source entry for (node id, pin name), if any.
pub open spec fn source_lookup(
    entries: Seq<SourceEntrySpec>,
    node: Seq<char>,
    pin: Seq<char>,
) -> Option<DataSourceSpec>
    decreases entries.len(),
{
    if entries.len() == 0 {
        None
    } else if entries[0].node_id == node && entries[0].pin_name == pin {
        Some(entries[0].source)
    } else {
        source_lookup(entries.drop_first(), node, pin)
    }
}

/// The first result variable recorded for a node id, if any.
pub open spec fn variable_lookup(
    vars: Seq<(Seq<char>, Seq<char>)>,
    node: Seq<char>,
) -> Option<Seq<char>>
    decreases vars.len(),
{
    if vars.len() == 0 {
        None
    } else if vars[0].0 == node {
        Some(vars[0].1)
    } else {
        variable_lookup(vars.drop_first(), node)
    }
}

/// The name of the first pin instance in the list with the given id, if any.
pub open spec fn pin_name_by_id(pins: Seq<PinInstanceSpec>, pin_id: Seq<char>) -> Option<Seq<char>>
    decreases pins.len(),
{
    if pins.len() == 0 {
        None
    } else if pins[0].id == pin_id {
        Some(pins[0].pin.name)
    } else {
        pin_name_by_id(pins.drop_first(), pin_id)
    }
}

/// The last property bound to the given pin id, if any: a later binding
/// wins over an earlier one.
pub open spec fn property_for(
    props: Seq<(Seq<char>, PropertySpec)>,
    pin_id: Seq<char>,
) -> Option<PropertySpec>
    decreases props.len(),
{
    if props.len() == 0 {
        None
    } else if props.last().0 == pin_id {
        Some(props.last().1)
    } else {
        property_for(props.drop_last(), pin_id)
    }
}

/// The first data connection targeting (node id, pin id), if any.
pub open spec fn first_data_connection(
    cs: Seq<ConnectionSpec>,
    node: Seq<char>,
    pin_id: Seq<char>,
) -> Option<ConnectionSpec>
    decreases cs.len(),
{
    if cs.len() == 0 {
        None
    } else if cs[0].connection_type == ConnectionType::Data && cs[0].target_node == node
        && cs[0].target_pin == pin_id {
        Some(cs[0])
    } else {
        first_data_connection(cs.drop_first(), node, pin_id)
    }
}

/// The source a data connection stands for, if its endpoint resolves: the
/// source node must exist and carry an output pin with the connection's
/// source pin id; the pin's name is recorded.
pub open spec fn connection_source(g: GraphSpec, c: ConnectionSpec) -> Option<DataSourceSpec> {
    match graph_node(g.nodes, c.source_node) {
        Some(sn) => match pin_name_by_id(sn.outputs, c.source_pin) {
            Some(pn) => Some(
                DataSourceSpec::Connection { source_node_id: c.source_node, source_pin: pn },
            ),
            None => None,
        },
        None => None,
    }
}

/// What one input pin resolves to: a resolvable data connection wins; then
/// a constant bound to the pin; then the default.
pub open spec fn pin_source(g: GraphSpec, node: NodeSpec, pin: PinInstanceSpec) -> DataSourceSpec {
    match first_data_connection(g.connections, node.id, pin.id) {
        Some(c) => match connection_source(g, c) {
            Some(ds) => ds,
            None => pin_fallback(node, pin),
        },
        None => pin_fallback(node, pin),
    }
}

/// The source of a pin with no resolvable connection: a bound constant, or
/// the default.
pub open spec fn pin_fallback(node: NodeSpec, pin: PinInstanceSpec) -> DataSourceSpec {
    match property_for(node.properties, pin.id) {
        Some(p) => DataSourceSpec::Constant(crate::graph::property_literal(p)),
        None => DataSourceSpec::Default,
    }
}

/// The source entries of one node, one per input pin, in pin order.
pub open spec fn node_source_entries(g: GraphSpec, node: NodeSpec) -> Seq<SourceEntrySpec> {
    node.inputs.map_values(
        |p: PinInstanceSpec| SourceEntrySpec {
            node_id: node.id,
            pin_name: p.pin.name,
            source: pin_source(g, node, p),
        },
    )
}

/// The source entries of a node list, in node order.
pub open spec fn sources_for_nodes(g: GraphSpec, nodes: Seq<NodeSpec>) -> Seq<SourceEntrySpec>
    decreases nodes.len(),
{
    if nodes.len() == 0 {
        Seq::empty()
    } else {
        node_source_entries(g, nodes[0]) + sources_for_nodes(g, nodes.drop_first())
    }
}

/// The result variable assigned to a node: its id with a fixed suffix.
pub open spec fn node_result_var(id: Seq<char>) -> Seq<char> {
    id + "_result"@
}

/// Whether a node is assigned a result variable: its descriptor must be
/// Function-kind with a declared return type.
pub open spec fn needs_result_var(reg: Seq<MetaSpec>, node: NodeSpec) -> bool {
    match meta_lookup(reg, node.node_type) {
        Some(m) => m.kind == NodeKind::Function && m.return_type is Some,
        None => false,
    }
}

/// The result-variable table of a node list, in node order.
pub open spec fn vars_for_nodes(reg: Seq<MetaSpec>, nodes: Seq<NodeSpec>) -> Seq<
    (Seq<char>, Seq<char>),
>
    decreases nodes.len(),
{
    if nodes.len() == 0 {
        Seq::empty()
    } else {
        let rest = vars_for_nodes(reg, nodes.drop_first());
        if needs_result_var(reg, nodes[0]) {
            seq![(nodes[0].id, node_result_var(nodes[0].id))] + rest
        } else {
            rest
        }
    }
}

/// The whole data-flow artifact a graph and a catalog determine.
pub open spec fn resolver_spec(g: GraphSpec, reg: Seq<MetaSpec>) -> ResolverSpec {
    ResolverSpec {
        sources: sources_for_nodes(g, g.nodes),
        result_variables: vars_for_nodes(reg, g.nodes),
    }
}

/// The literal text a property value contributes as a constant.
impl PropertyValue {
    pub fn literal_text(&self) -> (r: String)
        ensures
            r@ == crate::graph::property_literal(self@),
    {
        match self {
            PropertyValue::Number(s) => s.clone(),
            PropertyValue::Text(s) => s.clone(),
            PropertyValue::Bool(b) => if *b {
                String::from_str("true")
            } else {
                String::from_str("false")
            },
        }
    }
}

/// The first pin instance with the given id, if any.
fn find_pin_by_id<'a>(pins: &'a Vec<PinInstance>, pin_id: &str) -> (r: Option<&'a PinInstance>)
    ensures
        match r {
            Some(p) => pin_name_by_id(
                pins@.map_values(|q: PinInstance| q@),
                pin_id@,
            ) == Some(p.pin.name@),
            None => pin_name_by_id(pins@.map_values(|q: PinInstance| q@), pin_id@) is None,
        },
{
    let views = Ghost(pins@.map_values(|q: PinInstance| q@));
    let n = pins.len();
    proof {
        assert(views@.skip(0) =~= views@);
    }
    for i in 0..n
        invariant
            n == pins@.len(),
            views@ == pins@.map_values(|q: PinInstance| q@),
            pin_name_by_id(views@, pin_id@) == pin_name_by_id(views@.skip(i as int), pin_id@),
    {
        proof {
            assert(views@.skip(i as int)[0] == views@[i as int]);
            assert(views@[i as int] == pins@[i as int]@);
        }
        if str_eq(pins[i].id.as_str(), pin_id) {
            return Some(&pins[i]);
        }
        proof {
            assert(views@.skip(i as int).drop_first() =~= views@.skip(i + 1));
        }
    }
    proof {
        assert(views@.skip(n as int) =~= Seq::<PinInstanceSpec>::empty());
    }
    None
}

impl DataResolver {
    /// The source feeding the given (node id, input pin name), if any.
    pub fn get_input_source(&self, node_id: &str, pin_name: &str) -> (r: Option<&DataSource>)
        ensures
            match r {
                Some(s) => source_lookup(self@.sources, node_id@, pin_name@) == Some(s@),
                None => source_lookup(self@.sources, node_id@, pin_name@) is None,
            },
    {
        let views = Ghost(self@.sources);
        let n = self.sources.len();
        proof {
            assert(views@.skip(0) =~= views@);
        }
        for i in 0..n
            invariant
                n == self.sources@.len(),
                views@ == self@.sources,
                source_lookup(views@, node_id@, pin_name@) == source_lookup(
                    views@.skip(i as int),
                    node_id@,
                    pin_name@,
                ),
        {
            proof {
                assert(views@.skip(i as int)[0] == views@[i as int]);
                assert(views@[i as int] == self.sources@[i as int]@);
            }
            if str_eq(self.sources[i].node_id.as_str(), node_id) && str_eq(
                self.sources[i].pin_name.as_str(),
                pin_name,
            ) {
                return Some(&self.sources[i].source);
            }
            proof {
                assert(views@.skip(i as int).drop_first() =~= views@.skip(i + 1));
            }
        }
        proof {
            assert(views@.skip(n as int) =~= Seq::<SourceEntrySpec>::empty());
        }
        None
    }

    /// The result variable assigned to the given node id, if any.
    pub fn get_result_variable(&self, node_id: &str) -> (r: Option<&String>)
        ensures
            match r {
                Some(v) => variable_lookup(self@.result_variables, node_id@) == Some(v@),
                None => variable_lookup(self@.result_variables, node_id@) is None,
            },
    {
        let views = Ghost(self@.result_variables);
        let n = self.result_variables.len();
        proof {
            assert(views@.skip(0) =~= views@);
        }
        for i in 0..n
            invariant
                n == self.result_variables@.len(),
                views@ == self@.result_variables,
                variable_lookup(views@, node_id@) == variable_lookup(
                    views@.skip(i as int),
                    node_id@,
                ),
        {
            proof {
                assert(views@.skip(i as int)[0] == views@[i as int]);
                assert(views@[i as int] == (
                    self.result_variables@[i as int].0@,
                    self.result_variables@[i as int].1@,
                ));
            }
            if str_eq(self.result_variables[i].0.as_str(), node_id) {
                return Some(&self.result_variables[i].1);
            }
            proof {
                assert(views@.skip(i as int).drop_first() =~= views@.skip(i + 1));
            }
        }
        proof {
            assert(views@.skip(n as int) =~= Seq::<(Seq<char>, Seq<char>)>::empty());
        }
        None
    }

    /// Resolves what feeds one input pin of one node.
    #[verifier::loop_isolation(false)]
    fn resolve_pin(
        graph: &GraphDescription,
        node: &crate::graph::NodeInstance,
        pin: &PinInstance,
    ) -> (r: DataSource)
        ensures
            r@ == pin_source(graph@, node@, pin@),
    {
        // A resolvable data connection wins over any constant or default.
        let cn = graph.connections.len();
        proof {
            assert(graph@.connections.skip(0) =~= graph@.connections);
        }
        for i in 0..cn
            invariant
                first_data_connection(graph@.connections, node@.id, pin@.id)
                    == first_data_connection(
                    graph@.connections.skip(i as int),
                    node@.id,
                    pin@.id,
                ),
        {
            proof {
                assert(graph@.connections.skip(i as int)[0] == graph@.connections[i as int]);
                assert(graph@.connections[i as int] == graph.connections@[i as int]@);
            }
            let c = &graph.connections[i];
            if c.connection_type == ConnectionType::Data && str_eq(
                c.target_node.as_str(),
                node.id.as_str(),
            ) && str_eq(c.target_pin.as_str(), pin.id.as_str()) {
                // First matching connection: use it when its source resolves.
                proof {
                    crate::graph::lemma_find_node_view(graph.nodes@, c.source_node@);
                }
                if let Some(sn) = graph.get_node(c.source_node.as_str()) {
                    if let Some(sp) = find_pin_by_id(&sn.outputs, c.source_pin.as_str()) {
                        return DataSource::Connection {
                            source_node_id: c.source_node.clone(),
                            source_pin: sp.pin.name.clone(),
                        };
                    }
                }
                return Self::pin_fallback_exec(node, pin);
            }
            proof {
                assert(graph@.connections.skip(i as int).drop_first() =~= graph@.connections.skip(
                    i + 1,
                ));
            }
        }
        proof {
            assert(graph@.connections.skip(cn as int) =~= Seq::<ConnectionSpec>::empty());
        }
        Self::pin_fallback_exec(node, pin)
    }

    /// Resolves a pin that no data connection feeds: constant, then default.
    #[verifier::loop_isolation(false)]
    fn pin_fallback_exec(node: &crate::graph::NodeInstance, pin: &PinInstance) -> (r: DataSource)
        ensures
            r@ == pin_fallback(node@, pin@),
    {
        let mut j = node.properties.len();
        proof {
            assert(node@.properties.take(j as int) =~= node@.properties);
        }
        while j > 0
            invariant
                j <= node.properties@.len(),
                property_for(node@.properties, pin@.id) == property_for(
                    node@.properties.take(j as int),
                    pin@.id,
                ),
            decreases j,
        {
            proof {
                assert(node@.properties.take(j as int).last() == node@.properties[j - 1]);
                assert(node@.properties[j - 1] == (
                    node.properties@[j - 1].0@,
                    node.properties@[j - 1].1@,
                ));
            }
            if str_eq(node.properties[j - 1].0.as_str(), pin.id.as_str()) {
                return DataSource::Constant(node.properties[j - 1].1.literal_text());
            }
            proof {
                assert(node@.properties.take(j as int).drop_last() =~= node@.properties.take(
                    j - 1,
                ));
            }
            j = j - 1;
        }
        proof {
            assert(node@.properties.take(0) =~= Seq::<(Seq<char>, PropertySpec)>::empty());
        }
        DataSource::Default
    }

    /// Builds the source entries: one per declared input pin, in node and
    /// pin order.
    #[verifier::loop_isolation(false)]
    fn build_sources(graph: &GraphDescription) -> (r: Vec<SourceEntry>)
        ensures
            r@.map_values(|e: SourceEntry| e@) == sources_for_nodes(graph@, graph@.nodes),
    {
        let ghost nodes_v = graph@.nodes;
        let mut sources: Vec<SourceEntry> = Vec::new();
        let nn = graph.nodes.len();
        proof {
            assert(nodes_v.skip(0) =~= nodes_v);
            assert(sources@.map_values(|e: SourceEntry| e@) + sources_for_nodes(
                graph@,
                nodes_v.skip(0),
            ) =~= sources_for_nodes(graph@, nodes_v));
        }
        for i in 0..nn
            invariant
                sources@.map_values(|e: SourceEntry| e@) + sources_for_nodes(
                    graph@,
                    nodes_v.skip(i as int),
                ) == sources_for_nodes(graph@, nodes_v),
        {
            proof {
                assert(nodes_v.skip(i as int)[0] == nodes_v[i as int]);
                assert(nodes_v[i as int] == graph.nodes@[i as int]@);
                assert(nodes_v.skip(i as int).drop_first() =~= nodes_v.skip(i + 1));
            }
            let node = &graph.nodes[i];
            let ghost pre = sources@.map_values(|e: SourceEntry| e@);
            let pn = node.inputs.len();
            proof {
                assert(node_source_entries(graph@, node@).take(0)
                    =~= Seq::<SourceEntrySpec>::empty());
                assert(pre + node_source_entries(graph@, node@).take(0) =~= pre);
            }
            for k in 0..pn
                invariant
                    pn == node.inputs@.len(),
                    sources@.map_values(|e: SourceEntry| e@) == pre + node_source_entries(
                        graph@,
                        node@,
                    ).take(k as int),
            {
                proof {
                    assert(node@.inputs[k as int] == node.inputs@[k as int]@);
                }
                let pin = &node.inputs[k];
                let src = Self::resolve_pin(graph, node, pin);
                let ghost before = sources@.map_values(|e: SourceEntry| e@);
                let entry = SourceEntry {
                    node_id: node.id.clone(),
                    pin_name: pin.pin.name.clone(),
                    source: src,
                };
                proof {
                    assert(entry@ == node_source_entries(graph@, node@)[k as int]);
                }
                sources.push(entry);
                proof {
                    assert(sources@.map_values(|e: SourceEntry| e@) =~= before.push(
                        node_source_entries(graph@, node@)[k as int],
                    ));
                    assert(node_source_entries(graph@, node@).take(k + 1)
                        =~= node_source_entries(graph@, node@).take(k as int).push(
                        node_source_entries(graph@, node@)[k as int],
                    ));
                    assert(before.push(node_source_entries(graph@, node@)[k as int])
                        =~= pre + node_source_entries(graph@, node@).take(k + 1));
                }
            }
            proof {
                assert(node_source_entries(graph@, node@).take(pn as int) =~= node_source_entries(
                    graph@,
                    node@,
                ));
                assert(pre + node_source_entries(graph@, node@) + sources_for_nodes(
                    graph@,
                    nodes_v.skip(i + 1),
                ) =~= pre + (node_source_entries(graph@, node@) + sources_for_nodes(
                    graph@,
                    nodes_v.skip(i + 1),
                )));
                assert(sources@.map_values(|e: SourceEntry| e@) + sources_for_nodes(
                    graph@,
                    nodes_v.skip(i + 1),
                ) =~= sources_for_nodes(graph@, nodes_v));
            }
        }
        proof {
            assert(sources_for_nodes(graph@, nodes_v.skip(nn as int))
                =~= Seq::<SourceEntrySpec>::empty());
            assert(sources@.map_values(|e: SourceEntry| e@) =~= sources_for_nodes(
                graph@,
                nodes_v,
            ));
        }
        sources
    }

    /// Builds the result-variable table: one entry per Function-kind node
    /// with a declared return type, in node order.
    #[verifier::loop_isolation(false)]
    fn build_vars(graph: &GraphDescription, provider: &ShaderMetadataProvider) -> (r: Vec<
        (String, String),
    >)
        ensures
            r@.map_values(|kv: (String, String)| (kv.0@, kv.1@)) == vars_for_nodes(
                provider@,
                graph@.nodes,
            ),
    {
        let ghost nodes_v = graph@.nodes;
        let mut result_variables: Vec<(String, String)> = Vec::new();
        let nn = graph.nodes.len();
        proof {
            assert(nodes_v.skip(0) =~= nodes_v);
            assert(result_variables@.map_values(|kv: (String, String)| (kv.0@, kv.1@))
                + vars_for_nodes(provider@, nodes_v.skip(0)) =~= vars_for_nodes(
                provider@,
                nodes_v,
            ));
        }
        for i in 0..nn
            invariant
                result_variables@.map_values(|kv: (String, String)| (kv.0@, kv.1@))
                    + vars_for_nodes(provider@, nodes_v.skip(i as int)) == vars_for_nodes(
                    provider@,
                    nodes_v,
                ),
        {
            proof {
                assert(nodes_v.skip(i as int)[0] == nodes_v[i as int]);
                assert(nodes_v[i as int] == graph.nodes@[i as int]@);
                assert(nodes_v.skip(i as int).drop_first() =~= nodes_v.skip(i + 1));
            }
            let node = &graph.nodes[i];
            proof {
                crate::metadata::lemma_find_meta_view(provider.nodes@, node@.node_type);
            }
            let mut assigned = false;
            if let Some(m) = provider.get_node_metadata(node.node_type.as_str()) {
                if m.kind == NodeKind::Function && m.return_type.is_some() {
                    assigned = true;
                }
            }
            if assigned {
                let ghost before = result_variables@.map_values(
                    |kv: (String, String)| (kv.0@, kv.1@),
                );
                result_variables.push((node.id.clone(), node.id.clone().concat("_result")));
                proof {
                    assert(result_variables@.map_values(|kv: (String, String)| (kv.0@, kv.1@))
                        =~= before.push((node@.id, node_result_var(node@.id))));
                    assert(before.push((node@.id, node_result_var(node@.id))) + vars_for_nodes(
                        provider@,
                        nodes_v.skip(i + 1),
                    ) =~= before + vars_for_nodes(provider@, nodes_v.skip(i as int)));
                }
            }
        }
        proof {
            assert(vars_for_nodes(provider@, nodes_v.skip(nn as int)) =~= Seq::<
                (Seq<char>, Seq<char>),
            >::empty());
            assert(result_variables@.map_values(|kv: (String, String)| (kv.0@, kv.1@))
                =~= vars_for_nodes(provider@, nodes_v));
        }
        result_variables
    }

    /// Builds the data-flow artifact a graph and a catalog determine.
    pub fn build(graph: &GraphDescription, provider: &ShaderMetadataProvider) -> (r: DataResolver)
        ensures
            r@ == resolver_spec(graph@, provider@),
    {
        let r = DataResolver {
            sources: Self::build_sources(graph),
            result_variables: Self::build_vars(graph, provider),
        };
        proof {
            assert(r@ =~= resolver_spec(graph@, provider@));
        }
        r
    }
}

/// One resolved execution edge: from (source node id, execution-output pin
/// name) to a directly downstream node id.
#[derive(Debug, Clone, PartialEq, Eq)]
pub struct RouteLink {
    pub node_id: String,
    pub pin_name: String,
    pub target: String,
}

/// Spec-level form of a resolved execution edge.
#[verifier::ext_equal]
pub struct RouteLinkSpec {
    pub node_id: Seq<char>,
    pub pin_name: Seq<char>,
    pub target: Seq<char>,
}

impl View for RouteLink {
    type V = RouteLinkSpec;

    open spec fn view(&self) -> RouteLinkSpec {
        RouteLinkSpec { node_id: self.node_id@, pin_name: self.pin_name@, target: self.target@ }
    }
}

/// The execution-routing artifact: resolved execution edges in connection
/// order.
#[derive(Debug, Clone, PartialEq, Eq)]
pub struct ExecutionRouting {
    pub links: Vec<RouteLink>,
}

impl View for ExecutionRouting {
    type V = Seq<RouteLinkSpec>;

    open spec fn view(&self) -> Seq<RouteLinkSpec> {
        self.links@.map_values(|l: RouteLink| l@)
    }
}

/// The link an execution connection stands for, if its source endpoint
/// resolves to a known node and one of its pins.
pub open spec fn connection_link(g: GraphSpec, c: ConnectionSpec) -> Option<RouteLinkSpec> {
    if c.connection_type != ConnectionType::Execution {
        None
    } else {
        match graph_node(g.nodes, c.source_node) {
            Some(sn) => match pin_name_by_id(sn.outputs, c.source_pin) {
                Some(pn) => Some(
                    RouteLinkSpec { node_id: c.source_node, pin_name: pn, target: c.target_node },
                ),
                None => None,
            },
            None => None,
        }
    }
}

/// The links a connection list determines, in connection order.
pub open spec fn links_for_connections(g: GraphSpec, cs: Seq<ConnectionSpec>) -> Seq<RouteLinkSpec>
    decreases cs.len(),
{
    if cs.len() == 0 {
        Seq::empty()
    } else {
        let rest = links_for_connections(g, cs.drop_first());
        match connection_link(g, cs[0]) {
            Some(l) => seq![l] + rest,
            None => rest,
        }
    }
}

/// The whole routing artifact a graph determines.
pub open spec fn routing_spec(g: GraphSpec) -> Seq<RouteLinkSpec> {
    links_for_connections(g, g.connections)
}

/// The ordered downstream node ids recorded for (node id, pin name).
pub open spec fn downstream(
    links: Seq<RouteLinkSpec>,
    node: Seq<char>,
    pin: Seq<char>,
) -> Seq<Seq<char>>
    decreases links.len(),
{
    if links.len() == 0 {
        Seq::empty()
    } else {
        let rest = downstream(links.drop_first(), node, pin);
        if links[0].node_id == node && links[0].pin_name == pin {
            seq![links[0].target] + rest
        } else {
            rest
        }
    }
}

impl ExecutionRouting {
    /// Builds the routing artifact from the graph's execution connections,
    /// in connection order; an edge whose source endpoint does not resolve
    /// is left out.
    #[verifier::loop_isolation(false)]
    pub fn build_from_graph(graph: &GraphDescription) -> (r: ExecutionRouting)
        ensures
            r@ == routing_spec(graph@),
    {
        let mut links: Vec<RouteLink> = Vec::new();
        let cn = graph.connections.len();
        proof {
            assert(graph@.connections.skip(0) =~= graph@.connections);
            assert(links@.map_values(|l: RouteLink| l@) + links_for_connections(
                graph@,
                graph@.connections.skip(0),
            ) =~= links_for_connections(graph@, graph@.connections));
        }
        for i in 0..cn
            invariant
                links@.map_values(|l: RouteLink| l@) + links_for_connections(
                    graph@,
                    graph@.connections.skip(i as int),
                ) == links_for_connections(graph@, graph@.connections),
        {
            proof {
                assert(graph@.connections.skip(i as int)[0] == graph@.connections[i as int]);
                assert(graph@.connections[i as int] == graph.connections@[i as int]@);
                assert(graph@.connections.skip(i as int).drop_first() =~= graph@.connections.skip(
                    i + 1,
                ));
            }
            let c = &graph.connections[i];
            if c.connection_type == ConnectionType::Execution {
                if let Some(sn) = graph.get_node(c.source_node.as_str()) {
                    proof {
                        crate::graph::lemma_find_node_view(graph.nodes@, c.source_node@);
                    }
                    if let Some(sp) = find_pin_by_id(&sn.outputs, c.source_pin.as_str()) {
                        links.push(
                            RouteLink {
                                node_id: c.source_node.clone(),
                                pin_name: sp.pin.name.clone(),
                                target: c.target_node.clone(),
                            },
                        );
                        proof {
                            assert(links@.map_values(|l: RouteLink| l@) =~= links@.drop_last()
                                .map_values(|l: RouteLink| l@).push(links@.last()@));
                            assert(links@.map_values(|l: RouteLink| l@) + links_for_connections(
                                graph@,
                                graph@.connections.skip(i + 1),
                            ) =~= links_for_connections(graph@, graph@.connections));
                        }
                    }
                } else {
                    proof {
                        crate::graph::lemma_find_node_view(graph.nodes@, c.source_node@);
                    }
                }
            }
        }
        proof {
            assert(links_for_connections(graph@, graph@.connections.skip(cn as int)) =~= Seq::<
                RouteLinkSpec,
            >::empty());
            assert(links@.map_values(|l: RouteLink| l@) =~= links_for_connections(
                graph@,
                graph@.connections,
            ));
        }
        ExecutionRouting { links }
    }

    /// The ordered downstream node ids of (node id, execution-output pin
    /// name); empty when none are recorded.
    #[verifier::loop_isolation(false)]
    pub fn get_connected_nodes(&self, node_id: &str, pin_name: &str) -> (r: Vec<String>)
        ensures
            r@.map_values(|s: String| s@) == downstream(self@, node_id@, pin_name@),
    {
        let mut r: Vec<String> = Vec::new();
        let n = self.links.len();
        proof {
            assert(self@.skip(0) =~= self@);
            assert(r@.map_values(|s: String| s@) + downstream(self@.skip(0), node_id@, pin_name@)
                =~= downstream(self@, node_id@, pin_name@));
        }
        for i in 0..n
            invariant
                r@.map_values(|s: String| s@) + downstream(
                    self@.skip(i as int),
                    node_id@,
                    pin_name@,
                ) == downstream(self@, node_id@, pin_name@),
        {
            proof {
                assert(self@.skip(i as int)[0] == self@[i as int]);
                assert(self@[i as int] == self.links@[i as int]@);
                assert(self@.skip(i as int).drop_first() =~= self@.skip(i + 1));
            }
            if str_eq(self.links[i].node_id.as_str(), node_id) && str_eq(
                self.links[i].pin_name.as_str(),
                pin_name,
            ) {
                r.push(self.links[i].target.clone());
                proof {
                    assert(r@.map_values(|s: String| s@) =~= r@.drop_last().map_values(
                        |s: String| s@,
                    ).push(r@.last()@));
                    assert(r@.map_values(|s: String| s@) + downstream(
                        self@.skip(i + 1),
                        node_id@,
                        pin_name@,
                    ) =~= downstream(self@, node_id@, pin_name@));
                }
            }
        }
        proof {
            assert(downstream(self@.skip(n as int), node_id@, pin_name@) =~= Seq::<
                Seq<char>,
            >::empty());
            assert(r@.map_values(|s: String| s@) =~= downstream(self@, node_id@, pin_name@));
        }
        r
    }
}

} // verus!
