//! The code generator: turns a resolved graph into shader source text.
//!
//! Generation is specified by a ghost model: a statement-level emission
//! model (`emit_chain_model` and friends) and a text rendering of it. Every
//! executable function is proved to return exactly what the model says, so
//! the output is a function of the generator's inputs alone.

use vstd::prelude::*;

use crate::analysis::DataResolver;
use crate::analysis::DataSource;
use crate::analysis::DataSourceSpec;
use crate::analysis::ExecutionRouting;
use crate::analysis::ResolverSpec;
use crate::analysis::RouteLinkSpec;
use crate::analysis::downstream;
use crate::analysis::source_lookup;
use crate::analysis::variable_lookup;
use crate::error::CompileError;
use crate::error::ErrorSpec;
use crate::graph::GraphDescription;
use crate::graph::GraphSpec;
use crate::graph::NodeInstance;
use crate::graph::NodeSpec;
use crate::graph::find_node;
use crate::graph::graph_node;
use crate::graph::lemma_find_node_view;
use crate::graph::lemma_graph_node_in_ids;
use crate::graph::lemma_node_ids_finite;
use crate::graph::node_ids;
use crate::metadata::MetaSpec;
use crate::metadata::NodeKind;
use crate::metadata::NodeMetadata;
use crate::metadata::ParamSpec;
use crate::metadata::ShaderMetadataProvider;
use crate::metadata::lemma_find_meta_view;
use crate::metadata::meta_lookup;
use crate::text::str_eq;

verus! {

/// The pipeline stage a shader is generated for.
#[derive(Debug, Clone, Copy, PartialEq, Eq, Structural)]
pub enum ShaderStage {
    Vertex,
    Fragment,
    Compute,
}

/// The canonical entry-point type name of a stage.
pub open spec fn entry_type_name(stage: ShaderStage) -> Seq<char> {
    match stage {
        ShaderStage::Vertex => "vertex_main"@,
        ShaderStage::Fragment => "fragment_main"@,
        ShaderStage::Compute => "compute_main"@,
    }
}

/// The fixed table from canonical operation names to target intrinsic
/// spellings; names absent from the table pass through unchanged.
pub open spec fn mapped_name(name: Seq<char>) -> Seq<char> {
    if name == "vec3"@ {
        "vec3<f32>"@
    } else if name == "vec4"@ {
        "vec4<f32>"@
    } else if name == "sample_texture"@ {
        "textureSample"@
    } else {
        name
    }
}

/// The fixed banner prefixed to every generated shader.
pub open spec fn banner_text() -> Seq<char> {
    "// Auto-generated WGSL shader from Pulsar Shader Graph\n"@
        + "// DO NOT EDIT - Changes will be overwritten\n"@
        + "// Compiled with PSGC (Pulsar Shader Graph Compiler)\n\n"@
}

/// The fixed per-stage function header.
pub open spec fn header_text(stage: ShaderStage) -> Seq<char> {
    match stage {
        ShaderStage::Vertex => "@vertex\nfn vertex_main(\n    @builtin(vertex_index) vertex_index: u32,\n) -> @builtin(position) vec4<f32> {\n"@,
        ShaderStage::Fragment => "@fragment\nfn fragment_main(\n    @builtin(position) frag_coord: vec4<f32>,\n) -> @location(0) vec4<f32> {\n"@,
        ShaderStage::Compute => "@compute @workgroup_size(8, 8, 1)\nfn compute_main(\n    @builtin(global_invocation_id) global_id: vec3<u32>,\n) {\n"@,
    }
}

/// The fixed per-stage trailer: a placeholder return for vertex and
/// fragment stages, none for compute, then the closing brace.
pub open spec fn footer_text(stage: ShaderStage) -> Seq<char> {
    match stage {
        ShaderStage::Vertex => "    return vec4<f32>(0.0, 0.0, 0.0, 1.0);\n"@ + "}\n"@,
        ShaderStage::Fragment => "    return vec4<f32>(1.0, 0.0, 1.0, 1.0);\n"@ + "}\n"@,
        ShaderStage::Compute => "}\n"@,
    }
}

/// The indentation of `n` levels: four spaces each.
pub open spec fn indent_text(n: nat) -> Seq<char>
    decreases n,
{
    if n == 0 {
        Seq::empty()
    } else {
        "    "@ + indent_text((n - 1) as nat)
    }
}

/// The text after the first argument: a comma-space before each further one.
pub open spec fn rest_joined(args: Seq<Seq<char>>) -> Seq<char>
    decreases args.len(),
{
    if args.len() == 0 {
        Seq::empty()
    } else {
        ", "@ + args[0] + rest_joined(args.drop_first())
    }
}

/// Argument texts joined by comma-space.
pub open spec fn args_joined(args: Seq<Seq<char>>) -> Seq<char> {
    if args.len() == 0 {
        Seq::empty()
    } else {
        args[0] + rest_joined(args.drop_first())
    }
}

/// One emitted statement, with the id of the node it came from.
pub enum StmtSpec {
    /// `let <var_name> = <callee>(<args>);` for a Function-kind node with a
    /// declared return type.
    Binding { node: Seq<char>, indent: nat, var_name: Seq<char>, callee: Seq<char>, args: Seq<Seq<char>> },
    /// `<callee>(<args>);` for a Function-kind node without a return type.
    Bare { node: Seq<char>, indent: nat, callee: Seq<char>, args: Seq<Seq<char>> },
    /// The placeholder line a ControlFlow-kind node emits.
    Flow { node: Seq<char>, indent: nat },
}

impl StmtSpec {
    /// The id of the node the statement came from.
    pub open spec fn origin(self) -> Seq<char> {
        match self {
            StmtSpec::Binding { node, .. } => node,
            StmtSpec::Bare { node, .. } => node,
            StmtSpec::Flow { node, .. } => node,
        }
    }
}

/// The rendered text of one statement.
pub open spec fn stmt_text(s: StmtSpec) -> Seq<char> {
    match s {
        StmtSpec::Binding { node, indent, var_name, callee, args } => indent_text(indent) + "let "@
            + var_name + " = "@ + callee + "("@ + args_joined(args) + ");\n"@,
        StmtSpec::Bare { node, indent, callee, args } => indent_text(indent) + callee + "("@
            + args_joined(args) + ");\n"@,
        StmtSpec::Flow { node, indent } => indent_text(indent) + "// Control flow node\n"@,
    }
}

/// The rendered text of a statement list, in order.
pub open spec fn stmts_text(stmts: Seq<StmtSpec>) -> Seq<char>
    decreases stmts.len(),
{
    if stmts.len() == 0 {
        Seq::empty()
    } else {
        stmt_text(stmts[0]) + stmts_text(stmts.drop_first())
    }
}

/// Rendering distributes over concatenation of statement lists.
pub proof fn lemma_stmts_text_concat(a: Seq<StmtSpec>, b: Seq<StmtSpec>)
    ensures
        stmts_text(a + b) == stmts_text(a) + stmts_text(b),
    decreases a.len(),
{
    if a.len() == 0 {
        assert(a + b =~= b);
        assert(stmts_text(a) + stmts_text(b) =~= stmts_text(b));
    } else {
        lemma_stmts_text_concat(a.drop_first(), b);
        assert((a + b).drop_first() =~= a.drop_first() + b);
        assert((a + b)[0] == a[0]);
        assert(stmt_text(a[0]) + (stmts_text(a.drop_first()) + stmts_text(b)) =~= (stmt_text(a[0])
            + stmts_text(a.drop_first())) + stmts_text(b));
    }
}

/// Whether the catalog knows the type as Pure-kind.
pub open spec fn is_pure_type(reg: Seq<MetaSpec>, ty: Seq<char>) -> bool {
    match meta_lookup(reg, ty) {
        Some(m) => m.kind == NodeKind::Pure,
        None => false,
    }
}

/// What input-expression resolution returns for (node id, pin name).
///
/// `fuel` bounds the nesting depth of inlined pure expressions; one unit is
/// spent per inlined node, so any acyclic graph resolves within a fuel of
/// its node count, and exhaustion means a cycle among pure nodes.
pub open spec fn resolve_input_model(
    g: GraphSpec,
    reg: Seq<MetaSpec>,
    dr: ResolverSpec,
    node_id: Seq<char>,
    pin: Seq<char>,
    fuel: nat,
) -> Result<Seq<char>, ErrorSpec>
    decreases fuel, 0nat, 0nat,
{
    match source_lookup(dr.sources, node_id, pin) {
        None => Err(ErrorSpec::UnboundInput(node_id, pin)),
        Some(DataSourceSpec::Constant(s)) => Ok(s),
        Some(DataSourceSpec::Default) => Ok("0.0"@),
        Some(DataSourceSpec::Connection { source_node_id, source_pin }) => {
            match graph_node(g.nodes, source_node_id) {
                None => Err(ErrorSpec::Other("no source node: "@ + source_node_id)),
                Some(sn) => {
                    if is_pure_type(reg, sn.node_type) {
                        // Pure sources are re-expanded textually at each use.
                        if fuel == 0 {
                            Err(ErrorSpec::CyclicPureExpression(source_node_id))
                        } else {
                            inline_model(g, reg, dr, sn, (fuel - 1) as nat)
                        }
                    } else {
                        match variable_lookup(dr.result_variables, source_node_id) {
                            Some(v) => Ok(v),
                            None => Err(ErrorSpec::MissingResultVariable(source_node_id)),
                        }
                    }
                }
            }
        },
    }
}

/// What argument collection returns: one resolved expression per declared
/// parameter, in declared order, or the first error.
pub open spec fn inline_args_model(
    g: GraphSpec,
    reg: Seq<MetaSpec>,
    dr: ResolverSpec,
    node_id: Seq<char>,
    params: Seq<ParamSpec>,
    fuel: nat,
) -> Result<Seq<Seq<char>>, ErrorSpec>
    decreases fuel, 1nat, params.len(),
{
    if params.len() == 0 {
        Ok(Seq::empty())
    } else {
        match resolve_input_model(g, reg, dr, node_id, params[0].name, fuel) {
            Err(e) => Err(e),
            Ok(a) => match inline_args_model(g, reg, dr, node_id, params.drop_first(), fuel) {
                Err(e) => Err(e),
                Ok(rest) => Ok(seq![a] + rest),
            },
        }
    }
}

/// What pure-node inline synthesis returns: `<mapped name>(<args>)`.
pub open spec fn inline_model(
    g: GraphSpec,
    reg: Seq<MetaSpec>,
    dr: ResolverSpec,
    node: NodeSpec,
    fuel: nat,
) -> Result<Seq<char>, ErrorSpec>
    decreases fuel, 2nat, 0nat,
{
    match meta_lookup(reg, node.node_type) {
        None => Err(ErrorSpec::NodeTypeNotFound(node.node_type)),
        Some(m) => match inline_args_model(g, reg, dr, node.id, m.params, fuel) {
            Err(e) => Err(e),
            Ok(args) => Ok(mapped_name(m.name) + "("@ + args_joined(args) + ")"@),
        },
    }
}

/// How many of the graph's node ids are not yet visited; emission's
/// termination measure.
pub open spec fn unvisited_count(g: GraphSpec, visited: Set<Seq<char>>) -> nat {
    node_ids(g.nodes).difference(visited).len()
}

/// What node-chain emission returns for one node id: the statements, and
/// the visited set after the chain.
pub open spec fn emit_chain_model(
    g: GraphSpec,
    reg: Seq<MetaSpec>,
    dr: ResolverSpec,
    er: Seq<RouteLinkSpec>,
    id: Seq<char>,
    visited: Set<Seq<char>>,
    indent: nat,
) -> Result<(Seq<StmtSpec>, Set<Seq<char>>), ErrorSpec>
    decreases unvisited_count(g, visited), 0nat, 0nat,
{
    if visited.contains(id) {
        // Already emitted within this branch: terminate the recursion.
        Ok((Seq::empty(), visited))
    } else {
        match graph_node(g.nodes, id) {
            None => Ok((Seq::empty(), visited)),
            Some(n) => {
                let v2 = visited.insert(id);
                match meta_lookup(reg, n.node_type) {
                    None => Err(ErrorSpec::NodeTypeNotFound(n.node_type)),
                    Some(m) => match m.kind {
                        NodeKind::Pure => Ok((Seq::empty(), v2)),
                        NodeKind::Event => Ok((Seq::empty(), v2)),
                        NodeKind::ControlFlow => Ok(
                            (seq![StmtSpec::Flow { node: id, indent }], v2),
                        ),
                        NodeKind::Function => {
                            proof {
                                lemma_node_ids_finite(g.nodes);
                                lemma_graph_node_in_ids(g.nodes, id);
                                node_ids(g.nodes).lemma_set_insert_diff_decreases(visited, id);
                            }
                            emit_function_model(g, reg, dr, er, id, m, v2, indent)
                        },
                    },
                }
            },
        }
    }
}

/// What emission of a Function-kind node returns, after its id has been
/// marked visited: its call statement, then its downstream chain.
pub open spec fn emit_function_model(
    g: GraphSpec,
    reg: Seq<MetaSpec>,
    dr: ResolverSpec,
    er: Seq<RouteLinkSpec>,
    id: Seq<char>,
    m: MetaSpec,
    v2: Set<Seq<char>>,
    indent: nat,
) -> Result<(Seq<StmtSpec>, Set<Seq<char>>), ErrorSpec>
    decreases unvisited_count(g, v2), 2nat, 0nat,
{
    match inline_args_model(g, reg, dr, id, m.params, g.nodes.len()) {
        Err(e) => Err(e),
        Ok(args) => {
            let stmt_result = if m.return_type is Some {
                match variable_lookup(dr.result_variables, id) {
                    Some(v) => Ok(
                        StmtSpec::Binding {
                            node: id,
                            indent,
                            var_name: v,
                            callee: mapped_name(m.name),
                            args,
                        },
                    ),
                    None => Err(ErrorSpec::MissingResultVariable(id)),
                }
            } else {
                Ok(StmtSpec::Bare { node: id, indent, callee: mapped_name(m.name), args })
            };
            match stmt_result {
                Err(e) => Err(e),
                Ok(stmt) => {
                    let ds = if m.exec_outputs.len() > 0 {
                        downstream(er, id, m.exec_outputs[0])
                    } else {
                        Seq::empty()
                    };
                    match emit_list_model(g, reg, dr, er, ds, v2, indent) {
                        Err(e) => Err(e),
                        Ok((rest, v3)) => Ok((seq![stmt] + rest, v3)),
                    }
                },
            }
        },
    }
}

/// What emission of a downstream list returns: the chains of its ids in
/// order, each continuing with the visited set the previous one left.
pub open spec fn emit_list_model(
    g: GraphSpec,
    reg: Seq<MetaSpec>,
    dr: ResolverSpec,
    er: Seq<RouteLinkSpec>,
    ids: Seq<Seq<char>>,
    visited: Set<Seq<char>>,
    indent: nat,
) -> Result<(Seq<StmtSpec>, Set<Seq<char>>), ErrorSpec>
    decreases unvisited_count(g, visited), 1nat, ids.len(),
{
    if ids.len() == 0 {
        Ok((Seq::empty(), visited))
    } else {
        match emit_chain_model(g, reg, dr, er, ids[0], visited, indent) {
            Err(e) => Err(e),
            Ok((s1, v1)) => {
                proof {
                    lemma_node_ids_finite(g.nodes);
                    vstd::set_lib::lemma_len_subset(
                        node_ids(g.nodes).difference(visited),
                        node_ids(g.nodes),
                    );
                    vstd::set_lib::lemma_len_subset(
                        node_ids(g.nodes).difference(visited.union(v1)),
                        node_ids(g.nodes).difference(visited),
                    );
                }
                match emit_list_model(g, reg, dr, er, ids.drop_first(), visited.union(v1), indent) {
                    Err(e) => Err(e),
                    Ok((s2, v2)) => Ok((s1 + s2, v2)),
                }
            },
        }
    }
}

/// A chain grows the visited set, and only by ids of the graph.
pub proof fn lemma_emit_chain_monotone(
    g: GraphSpec,
    reg: Seq<MetaSpec>,
    dr: ResolverSpec,
    er: Seq<RouteLinkSpec>,
    id: Seq<char>,
    visited: Set<Seq<char>>,
    indent: nat,
)
    ensures
        match emit_chain_model(g, reg, dr, er, id, visited, indent) {
            Ok((s, v2)) => visited.subset_of(v2) && v2.subset_of(
                visited.union(node_ids(g.nodes)),
            ),
            Err(_) => true,
        },
    decreases unvisited_count(g, visited), 0nat, 0nat,
{
    if !visited.contains(id) {
        match graph_node(g.nodes, id) {
            None => {},
            Some(n) => {
                let v2 = visited.insert(id);
                lemma_node_ids_finite(g.nodes);
                lemma_graph_node_in_ids(g.nodes, id);
                assert(v2.union(node_ids(g.nodes)) =~= visited.union(node_ids(g.nodes)));
                match meta_lookup(reg, n.node_type) {
                    None => {},
                    Some(m) => match m.kind {
                        NodeKind::Function => {
                            node_ids(g.nodes).lemma_set_insert_diff_decreases(visited, id);
                            lemma_emit_function_monotone(g, reg, dr, er, id, m, v2, indent);
                        },
                        _ => {},
                    },
                }
            },
        }
    }
}

/// Function-node emission grows the visited set, and only by graph ids.
pub proof fn lemma_emit_function_monotone(
    g: GraphSpec,
    reg: Seq<MetaSpec>,
    dr: ResolverSpec,
    er: Seq<RouteLinkSpec>,
    id: Seq<char>,
    m: MetaSpec,
    v2: Set<Seq<char>>,
    indent: nat,
)
    ensures
        match emit_function_model(g, reg, dr, er, id, m, v2, indent) {
            Ok((s, v3)) => v2.subset_of(v3) && v3.subset_of(v2.union(node_ids(g.nodes))),
            Err(_) => true,
        },
    decreases unvisited_count(g, v2), 2nat, 0nat,
{
    match inline_args_model(g, reg, dr, id, m.params, g.nodes.len()) {
        Err(_) => {},
        Ok(args) => {
            let ds = if m.exec_outputs.len() > 0 {
                downstream(er, id, m.exec_outputs[0])
            } else {
                Seq::<Seq<char>>::empty()
            };
            lemma_emit_list_monotone(g, reg, dr, er, ds, v2, indent);
        },
    }
}

/// List emission grows the visited set, and only by graph ids.
pub proof fn lemma_emit_list_monotone(
    g: GraphSpec,
    reg: Seq<MetaSpec>,
    dr: ResolverSpec,
    er: Seq<RouteLinkSpec>,
    ids: Seq<Seq<char>>,
    visited: Set<Seq<char>>,
    indent: nat,
)
    ensures
        match emit_list_model(g, reg, dr, er, ids, visited, indent) {
            Ok((s, v2)) => visited.subset_of(v2) && v2.subset_of(
                visited.union(node_ids(g.nodes)),
            ),
            Err(_) => true,
        },
    decreases unvisited_count(g, visited), 1nat, ids.len(),
{
    if ids.len() > 0 {
        lemma_emit_chain_monotone(g, reg, dr, er, ids[0], visited, indent);
        match emit_chain_model(g, reg, dr, er, ids[0], visited, indent) {
            Err(_) => {},
            Ok((s1, v1)) => {
                lemma_node_ids_finite(g.nodes);
                vstd::set_lib::lemma_len_subset(
                    node_ids(g.nodes).difference(visited),
                    node_ids(g.nodes),
                );
                vstd::set_lib::lemma_len_subset(
                    node_ids(g.nodes).difference(visited.union(v1)),
                    node_ids(g.nodes).difference(visited),
                );
                lemma_emit_list_monotone(g, reg, dr, er, ids.drop_first(), visited.union(v1), indent);
                assert(visited.union(v1) =~= v1);
            },
        }
    }
}

/// In list emission the union with the chain's result is the result itself:
/// the natural sequential reading of the model.
pub proof fn lemma_emit_list_unfold(
    g: GraphSpec,
    reg: Seq<MetaSpec>,
    dr: ResolverSpec,
    er: Seq<RouteLinkSpec>,
    ids: Seq<Seq<char>>,
    visited: Set<Seq<char>>,
    indent: nat,
)
    requires
        ids.len() > 0,
        emit_chain_model(g, reg, dr, er, ids[0], visited, indent) is Ok,
    ensures
        ({
            let (s1, v1) = emit_chain_model(g, reg, dr, er, ids[0], visited, indent)->Ok_0;
            emit_list_model(g, reg, dr, er, ids, visited, indent) == match emit_list_model(
                g,
                reg,
                dr,
                er,
                ids.drop_first(),
                v1,
                indent,
            ) {
                Err(e) => Err::<(Seq<StmtSpec>, Set<Seq<char>>), ErrorSpec>(e),
                Ok((s2, v2)) => Ok((s1 + s2, v2)),
            }
        }),
{
    let (s1, v1) = emit_chain_model(g, reg, dr, er, ids[0], visited, indent)->Ok_0;
    lemma_emit_chain_monotone(g, reg, dr, er, ids[0], visited, indent);
    assert(visited.union(v1) =~= v1);
}

/// What emission of the independent branches from an entry point returns:
/// each id starts with a fresh visited set, and the texts concatenate.
pub open spec fn branches_model(
    g: GraphSpec,
    reg: Seq<MetaSpec>,
    dr: ResolverSpec,
    er: Seq<RouteLinkSpec>,
    ids: Seq<Seq<char>>,
    indent: nat,
) -> Result<Seq<char>, ErrorSpec>
    decreases ids.len(),
{
    if ids.len() == 0 {
        Ok(Seq::empty())
    } else {
        match emit_chain_model(g, reg, dr, er, ids[0], Set::empty(), indent) {
            Err(e) => Err(e),
            Ok((stmts, v)) => match branches_model(g, reg, dr, er, ids.drop_first(), indent) {
                Err(e) => Err(e),
                Ok(t) => Ok(stmts_text(stmts) + t),
            },
        }
    }
}

/// What entry-function generation returns for one entry node: the stage
/// header, the branch bodies, and the stage trailer.
pub open spec fn entry_fn_model(
    g: GraphSpec,
    reg: Seq<MetaSpec>,
    dr: ResolverSpec,
    er: Seq<RouteLinkSpec>,
    stage: ShaderStage,
    n: NodeSpec,
) -> Result<Seq<char>, ErrorSpec> {
    match meta_lookup(reg, n.node_type) {
        None => Err(ErrorSpec::NodeTypeNotFound(n.node_type)),
        Some(m) => {
            let ds = if m.exec_outputs.len() > 0 {
            downstream(er, n.id, m.exec_outputs[0])
            } else {
                Seq::<Seq<char>>::empty()
            };
            match branches_model(g, reg, dr, er, ds, 1) {
                Err(e) => Err(e),
                Ok(body) => Ok(header_text(stage) + body + footer_text(stage)),
            }
        },
    }
}

/// What shader generation returns for the entry nodes among a node list,
/// in graph order: each entry function followed by a blank separator.
pub open spec fn entries_text_model(
    g: GraphSpec,
    reg: Seq<MetaSpec>,
    dr: ResolverSpec,
    er: Seq<RouteLinkSpec>,
    stage: ShaderStage,
    nodes: Seq<NodeSpec>,
) -> Result<Seq<char>, ErrorSpec>
    decreases nodes.len(),
{
    if nodes.len() == 0 {
        Ok(Seq::empty())
    } else if nodes[0].node_type == entry_type_name(stage) {
        match entry_fn_model(g, reg, dr, er, stage, nodes[0]) {
            Err(e) => Err(e),
            Ok(t) => match entries_text_model(g, reg, dr, er, stage, nodes.drop_first()) {
                Err(e) => Err(e),
                Ok(t2) => Ok(t + "\n"@ + t2),
            },
        }
    } else {
        entries_text_model(g, reg, dr, er, stage, nodes.drop_first())
    }
}

/// Whether the node list holds a node of the given type.
pub open spec fn has_node_of_type(nodes: Seq<NodeSpec>, ty: Seq<char>) -> bool {
    exists|i: int| 0 <= i < nodes.len() && nodes[i].node_type == ty
}

/// The visited set a vector of node ids stands for.
pub open spec fn vset(v: Seq<String>) -> Set<Seq<char>> {
    v.map_values(|s: String| s@).to_set()
}

/// Pushing an id onto the vector inserts it into the set.
proof fn lemma_vset_push(v: Seq<String>, s: String)
    ensures
        vset(v.push(s)) == vset(v).insert(s@),
{
    let m1 = v.push(s).map_values(|x: String| x@);
    let m2 = v.map_values(|x: String| x@);
    assert(m1 =~= m2.push(s@));
    assert forall|a: Seq<char>| #[trigger] vset(v.push(s)).contains(a) implies vset(v).insert(
        s@,
    ).contains(a) by {
        let i = choose|i: int| 0 <= i < m1.len() && m1[i] == a;
        if i < m2.len() {
            assert(m2[i] == a);
            assert(m2.contains(a));
        }
    }
    assert forall|a: Seq<char>| vset(v).insert(s@).contains(a) implies #[trigger] vset(
        v.push(s),
    ).contains(a) by {
        if a == s@ {
            assert(m1[m2.len() as int] == a);
            assert(m1.contains(a));
        } else {
            let i = choose|i: int| 0 <= i < m2.len() && m2[i] == a;
            assert(m1[i] == a);
            assert(m1.contains(a));
        }
    }
    assert(vset(v.push(s)) =~= vset(v).insert(s@));
}

/// Whether the vector holds the given id.
#[verifier::loop_isolation(false)]
fn contains_id(v: &Vec<String>, s: &str) -> (r: bool)
    ensures
        r == vset(v@).contains(s@),
{
    let n = v.len();
    for i in 0..n
        invariant
            forall|j: int| 0 <= j < i ==> #[trigger] v@[j]@ != s@,
    {
        proof {
            assert(v@.map_values(|x: String| x@)[i as int] == v@[i as int]@);
        }
        if str_eq(v[i].as_str(), s) {
            proof {
                assert(v@.map_values(|x: String| x@).contains(s@));
            }
            return true;
        }
    }
    proof {
        let m = v@.map_values(|x: String| x@);
        assert(!m.contains(s@)) by {
            if m.contains(s@) {
                let j = choose|j: int| 0 <= j < m.len() && m[j] == s@;
                assert(v@[j]@ == s@);
                assert(false);
            }
        }
    }
    false
}

/// The indentation string of `n` levels.
#[verifier::loop_isolation(false)]
fn make_indent(n: usize) -> (r: String)
    ensures
        r@ == indent_text(n as nat),
{
    let mut s = String::new();
    let mut k: usize = 0;
    proof {
        assert(s@ + indent_text((n - k) as nat) =~= indent_text(n as nat));
    }
    while k < n
        invariant
            k <= n,
            s@ + indent_text((n - k) as nat) == indent_text(n as nat),
        decreases n - k,
    {
        let ghost pre = s@;
        s.append("    ");
        k = k + 1;
        proof {
            assert(indent_text((n - k + 1) as nat) == "    "@ + indent_text((n - k) as nat));
            assert(s@ + indent_text((n - k) as nat) =~= pre + ("    "@ + indent_text(
                (n - k) as nat,
            )));
        }
    }
    proof {
        assert(indent_text(0) == Seq::<char>::empty());
        assert(s@ + indent_text(0) =~= s@);
    }
    s
}

/// Argument texts joined by comma-space.
#[verifier::loop_isolation(false)]
fn join_args(args: &Vec<String>) -> (r: String)
    ensures
        r@ == args_joined(args@.map_values(|s: String| s@)),
{
    let ghost av = args@.map_values(|s: String| s@);
    if args.len() == 0 {
        return String::new();
    }
    let mut s = args[0].clone();
    let n = args.len();
    let mut i: usize = 1;
    proof {
        assert(av.skip(1) =~= av.drop_first());
        assert(s@ + rest_joined(av.skip(1)) == args_joined(av));
    }
    while i < n
        invariant
            1 <= i <= n,
            s@ + rest_joined(av.skip(i as int)) == args_joined(av),
        decreases n - i,
    {
        let ghost pre = s@;
        s.append(", ");
        s.append(args[i].as_str());
        proof {
            assert(av.skip(i as int)[0] == av[i as int]);
            assert(av[i as int] == args@[i as int]@);
            assert(av.skip(i as int).drop_first() =~= av.skip(i + 1));
            assert(s@ + rest_joined(av.skip(i + 1)) =~= pre + (", "@ + av[i as int] + rest_joined(
                av.skip(i + 1),
            )));
        }
        i = i + 1;
    }
    proof {
        assert(av.skip(n as int) =~= Seq::<Seq<char>>::empty());
        assert(rest_joined(av.skip(n as int)) == Seq::<char>::empty());
        assert(s@ + rest_joined(av.skip(n as int)) =~= s@);
    }
    s
}

/// The spec-level reading of a text result.
pub open spec fn text_result(r: Result<String, CompileError>) -> Result<Seq<char>, ErrorSpec> {
    match r {
        Ok(s) => Ok(s@),
        Err(e) => Err(e@),
    }
}

/// The spec-level reading of an argument-list result.
pub open spec fn args_result(r: Result<Vec<String>, CompileError>) -> Result<
    Seq<Seq<char>>,
    ErrorSpec,
> {
    match r {
        Ok(v) => Ok(v@.map_values(|s: String| s@)),
        Err(e) => Err(e@),
    }
}

/// The code generator over one graph and its analyses. It holds shared
/// references to read-only inputs; the only mutable state of a generation
/// pass is a per-branch visited set, created fresh for each independent
/// branch and scoped to the call.
pub struct WGSLCodeGenerator<'a> {
    pub graph: &'a GraphDescription,
    pub metadata_provider: &'a ShaderMetadataProvider,
    pub data_resolver: &'a DataResolver,
    pub exec_routing: &'a ExecutionRouting,
    pub stage: ShaderStage,
}

impl<'a> WGSLCodeGenerator<'a> {
    /// A generator over the given graph, catalog, analyses and stage.
    pub fn new(
        graph: &'a GraphDescription,
        metadata_provider: &'a ShaderMetadataProvider,
        data_resolver: &'a DataResolver,
        exec_routing: &'a ExecutionRouting,
        stage: ShaderStage,
    ) -> (r: Self)
        ensures
            r.graph == graph,
            r.metadata_provider == metadata_provider,
            r.data_resolver == data_resolver,
            r.exec_routing == exec_routing,
            r.stage == stage,
    {
        WGSLCodeGenerator { graph, metadata_provider, data_resolver, exec_routing, stage }
    }

    /// Maps a canonical operation name to its target spelling.
    fn map_function_name(&self, name: &str) -> (r: String)
        ensures
            r@ == mapped_name(name@),
    {
        if str_eq(name, "vec3") {
            String::from_str("vec3<f32>")
        } else if str_eq(name, "vec4") {
            String::from_str("vec4<f32>")
        } else if str_eq(name, "sample_texture") {
            String::from_str("textureSample")
        } else {
            String::from_str(name)
        }
    }

    /// The expression feeding (node id, input pin name).
    fn generate_input_expression(&self, node_id: &str, pin_name: &str, fuel: usize) -> (r: Result<
        String,
        CompileError,
    >)
        ensures
            text_result(r) == resolve_input_model(
                self.graph@,
                self.metadata_provider@,
                self.data_resolver@,
                node_id@,
                pin_name@,
                fuel as nat,
            ),
        decreases fuel, 0nat, 0nat,
    {
        match self.data_resolver.get_input_source(node_id, pin_name) {
            None => Err(
                CompileError::UnboundInput(String::from_str(node_id), String::from_str(pin_name)),
            ),
            Some(src) => match src {
                DataSource::Constant(s) => Ok(s.clone()),
                DataSource::Default => Ok(String::from_str("0.0")),
                DataSource::Connection { source_node_id, source_pin: _ } => {
                    proof {
                        lemma_find_node_view(self.graph.nodes@, source_node_id@);
                    }
                    match self.graph.get_node(source_node_id.as_str()) {
                        None => Err(
                            CompileError::Other(
                                String::from_str("no source node: ").concat(
                                    source_node_id.as_str(),
                                ),
                            ),
                        ),
                        Some(sn) => {
                            proof {
                                lemma_find_meta_view(
                                    self.metadata_provider.nodes@,
                                    sn.node_type@,
                                );
                            }
                            let mut pure = false;
                            if let Some(m) = self.metadata_provider.get_node_metadata(
                                sn.node_type.as_str(),
                            ) {
                                if m.kind == NodeKind::Pure {
                                    pure = true;
                                }
                            }
                            if pure {
                                // Pure sources are re-expanded at each use;
                                // the fuel bounds the nesting depth.
                                if fuel == 0 {
                                    Err(CompileError::CyclicPureExpression(source_node_id.clone()))
                                } else {
                                    self.generate_pure_node_expression(sn, fuel - 1)
                                }
                            } else {
                                match self.data_resolver.get_result_variable(
                                    source_node_id.as_str(),
                                ) {
                                    Some(v) => Ok(v.clone()),
                                    None => Err(
                                        CompileError::MissingResultVariable(
                                            source_node_id.clone(),
                                        ),
                                    ),
                                }
                            }
                        },
                    }
                },
            },
        }
    }

    /// One argument expression per declared parameter, in declared order.
    #[verifier::loop_isolation(false)]
    fn collect_arguments(&self, node_id: &str, meta: &NodeMetadata, fuel: usize) -> (r: Result<
        Vec<String>,
        CompileError,
    >)
        ensures
            args_result(r) == inline_args_model(
                self.graph@,
                self.metadata_provider@,
                self.data_resolver@,
                node_id@,
                meta@.params,
                fuel as nat,
            ),
        decreases fuel, 1nat, 0nat,
    {
        let ghost g = self.graph@;
        let ghost reg = self.metadata_provider@;
        let ghost dr = self.data_resolver@;
        let ghost ps = meta@.params;
        let ghost full = inline_args_model(g, reg, dr, node_id@, ps, fuel as nat);
        let mut args: Vec<String> = Vec::new();
        let pn = meta.params.len();
        proof {
            assert(ps.skip(0) =~= ps);
            assert(args@.map_values(|s: String| s@) =~= Seq::<Seq<char>>::empty());
        }
        for i in 0..pn
            invariant
                pn == meta.params@.len(),
                match inline_args_model(g, reg, dr, node_id@, ps.skip(i as int), fuel as nat) {
                    Err(e) => full == Err::<Seq<Seq<char>>, ErrorSpec>(e),
                    Ok(rest) => full == Ok::<Seq<Seq<char>>, ErrorSpec>(
                        args@.map_values(|s: String| s@) + rest,
                    ),
                },
        {
            proof {
                assert(ps.skip(i as int)[0] == ps[i as int]);
                assert(ps[i as int] == meta.params@[i as int]@);
                assert(ps.skip(i as int).drop_first() =~= ps.skip(i + 1));
            }
            let value = self.generate_input_expression(
                node_id,
                meta.params[i].name.as_str(),
                fuel,
            );
            match value {
                Err(e) => {
                    return Err(e);
                },
                Ok(a) => {
                    let ghost pre = args@.map_values(|s: String| s@);
                    args.push(a);
                    proof {
                        assert(args@.map_values(|s: String| s@) =~= pre.push(
                            args@.last()@,
                        ));
                        match inline_args_model(
                            g,
                            reg,
                            dr,
                            node_id@,
                            ps.skip(i + 1),
                            fuel as nat,
                        ) {
                            Err(e2) => {},
                            Ok(rest2) => {
                                assert(pre.push(args@.last()@) + rest2 =~= pre + (seq![
                                    args@.last()@,
                                ] + rest2));
                            },
                        }
                    }
                },
            }
        }
        proof {
            assert(ps.skip(pn as int) =~= Seq::<ParamSpec>::empty());
            assert(full == Ok::<Seq<Seq<char>>, ErrorSpec>(args@.map_values(|s: String| s@)
                + Seq::<Seq<char>>::empty()));
            assert(args@.map_values(|s: String| s@) + Seq::<Seq<char>>::empty() =~= args@
                .map_values(|s: String| s@));
        }
        Ok(args)
    }

    /// The placeholder line a control-flow node emits; structured lowering
    /// is out of scope.
    fn generate_control_flow_node(&self, indent_level: usize) -> (r: String)
        ensures
            r@ == indent_text(indent_level as nat) + "// Control flow node\n"@,
    {
        let mut s = make_indent(indent_level);
        s.append("// Control flow node\n");
        s
    }

    /// Emits the chain starting at one node, within the branch's visited
    /// set: nothing if the node was already emitted in this branch, else its
    /// own statement (by kind) followed by its downstream chains.
    fn generate_node_chain(
        &self,
        visited: &mut Vec<String>,
        node: &NodeInstance,
        indent_level: usize,
    ) -> (r: Result<String, CompileError>)
        requires
            find_node(self.graph.nodes@, node.id@) == Some(*node),
        ensures
            ({
                let m = emit_chain_model(
                    self.graph@,
                    self.metadata_provider@,
                    self.data_resolver@,
                    self.exec_routing@,
                    node.id@,
                    vset(old(visited)@),
                    indent_level as nat,
                );
                match r {
                    Ok(t) => m is Ok && t@ == stmts_text(m->Ok_0.0) && vset(final(visited)@)
                        == m->Ok_0.1,
                    Err(e) => m == Err::<(Seq<StmtSpec>, Set<Seq<char>>), ErrorSpec>(e@),
                }
            }),
        decreases unvisited_count(self.graph@, vset(old(visited)@)), 0nat, 0nat,
    {
        proof {
            lemma_find_node_view(self.graph.nodes@, node.id@);
        }
        if contains_id(visited, node.id.as_str()) {
            proof {
                assert(stmts_text(Seq::<StmtSpec>::empty()) == Seq::<char>::empty());
            }
            return Ok(String::new());
        }
        let ghost v0 = vset(visited@);
        let ghost pre = visited@;
        visited.push(node.id.clone());
        proof {
            lemma_vset_push(pre, visited@.last());
            assert(visited@ == pre.push(visited@.last()));
            assert(vset(visited@) == v0.insert(node.id@));
            lemma_find_meta_view(self.metadata_provider.nodes@, node.node_type@);
        }
        let p = self.metadata_provider;
        match p.get_node_metadata(node.node_type.as_str()) {
            None => Err(CompileError::NodeTypeNotFound(node.node_type.clone())),
            Some(m) => {
                match m.kind {
                    NodeKind::Pure => {
                        proof {
                            assert(stmts_text(Seq::<StmtSpec>::empty()) == Seq::<char>::empty());
                        }
                        Ok(String::new())
                    },
                    NodeKind::Event => {
                        proof {
                            assert(stmts_text(Seq::<StmtSpec>::empty()) == Seq::<char>::empty());
                        }
                        Ok(String::new())
                    },
                    NodeKind::ControlFlow => {
                        let t = self.generate_control_flow_node(indent_level);
                        proof {
                            let stmt = StmtSpec::Flow {
                                node: node.id@,
                                indent: indent_level as nat,
                            };
                            assert(seq![stmt].len() == 1 && seq![stmt][0] == stmt);
                            assert(seq![stmt].drop_first() =~= Seq::<StmtSpec>::empty());
                            assert(stmts_text(seq![stmt].drop_first()) == Seq::<char>::empty());
                            assert(stmts_text(seq![stmt]) =~= stmt_text(stmt) + Seq::<
                                char,
                            >::empty());
                            assert(stmt_text(stmt) + Seq::<char>::empty() =~= stmt_text(stmt));
                        }
                        Ok(t)
                    },
                    NodeKind::Function => {
                        proof {
                            lemma_node_ids_finite(self.graph@.nodes);
                            lemma_graph_node_in_ids(self.graph@.nodes, node.id@);
                            node_ids(self.graph@.nodes).lemma_set_insert_diff_decreases(
                                v0,
                                node.id@,
                            );
                        }
                        self.generate_function_node(visited, node, m, indent_level)
                    },
                }
            },
        }
    }

    /// Emits a Function-kind node, already marked visited: one call
    /// statement (binding its result variable when the descriptor declares a
    /// return type), then the chains of its first execution output.
    #[verifier::loop_isolation(false)]
    fn generate_function_node(
        &self,
        visited: &mut Vec<String>,
        node: &NodeInstance,
        meta: &NodeMetadata,
        indent_level: usize,
    ) -> (r: Result<String, CompileError>)
        requires
            meta_lookup(self.metadata_provider@, node.node_type@) == Some(meta@),
            meta@.kind == NodeKind::Function,
        ensures
            ({
                let m = emit_function_model(
                    self.graph@,
                    self.metadata_provider@,
                    self.data_resolver@,
                    self.exec_routing@,
                    node.id@,
                    meta@,
                    vset(old(visited)@),
                    indent_level as nat,
                );
                match r {
                    Ok(t) => m is Ok && t@ == stmts_text(m->Ok_0.0) && vset(final(visited)@)
                        == m->Ok_0.1,
                    Err(e) => m == Err::<(Seq<StmtSpec>, Set<Seq<char>>), ErrorSpec>(e@),
                }
            }),
        decreases unvisited_count(self.graph@, vset(old(visited)@)), 2nat, 0nat,
    {
        let ghost g = self.graph@;
        let ghost reg = self.metadata_provider@;
        let ghost dr = self.data_resolver@;
        let ghost er = self.exec_routing@;
        let ghost v2 = vset(visited@);
        let fuel = self.graph.nodes.len();
        let args = match self.collect_arguments(node.id.as_str(), meta, fuel) {
            Ok(a) => a,
            Err(e) => {
                return Err(e);
            },
        };
        let indent = make_indent(indent_level);
        let mapped = self.map_function_name(meta.name.as_str());
        let joined = join_args(&args);
        let mut code = String::new();
        if meta.return_type.is_some() {
            let var = match self.data_resolver.get_result_variable(node.id.as_str()) {
                Some(v) => v,
                None => {
                    return Err(CompileError::MissingResultVariable(node.id.clone()));
                },
            };
            code.append(indent.as_str());
            code.append("let ");
            code.append(var.as_str());
            code.append(" = ");
            code.append(mapped.as_str());
            code.append("(");
            code.append(joined.as_str());
            code.append(");\n");
        } else {
            code.append(indent.as_str());
            code.append(mapped.as_str());
            code.append("(");
            code.append(joined.as_str());
            code.append(");\n");
        }
        let ghost stmt_m = if meta@.return_type is Some {
            StmtSpec::Binding {
                node: node.id@,
                indent: indent_level as nat,
                var_name: variable_lookup(dr.result_variables, node.id@)->Some_0,
                callee: mapped_name(meta@.name),
                args: args@.map_values(|s: String| s@),
            }
        } else {
            StmtSpec::Bare {
                node: node.id@,
                indent: indent_level as nat,
                callee: mapped_name(meta@.name),
                args: args@.map_values(|s: String| s@),
            }
        };
        proof {
            assert(code@ =~= stmt_text(stmt_m));
            assert(seq![stmt_m].len() == 1 && seq![stmt_m][0] == stmt_m);
            assert(seq![stmt_m].drop_first() =~= Seq::<StmtSpec>::empty());
            assert(stmts_text(seq![stmt_m].drop_first()) == Seq::<char>::empty());
            assert(stmts_text(seq![stmt_m]) =~= stmt_text(stmt_m) + Seq::<char>::empty());
            assert(stmt_text(stmt_m) + Seq::<char>::empty() =~= stmt_text(stmt_m));
        }
        if meta.exec_outputs.len() > 0 {
            let connected = self.exec_routing.get_connected_nodes(
                node.id.as_str(),
                meta.exec_outputs[0].as_str(),
            );
            let ghost ds = downstream(er, node.id@, meta@.exec_outputs[0]);
            proof {
                assert(meta@.exec_outputs[0] == meta.exec_outputs@[0]@);
                assert(connected@.map_values(|s: String| s@) == ds);
            }
            let ghost list_full = emit_list_model(g, reg, dr, er, ds, v2, indent_level as nat);
            let ghost mut acc: Seq<StmtSpec> = Seq::empty();
            let cn = connected.len();
            proof {
                assert(ds.skip(0) =~= ds);
                assert(stmts_text(acc) == Seq::<char>::empty());
                assert(code@ + stmts_text(acc) =~= code@);
            }
            let ghost own_text = code@;
            for i in 0..cn
                invariant
                    cn == connected@.len(),
                    v2.subset_of(vset(visited@)),
                    code@ == own_text + stmts_text(acc),
                    match emit_list_model(
                        g,
                        reg,
                        dr,
                        er,
                        ds.skip(i as int),
                        vset(visited@),
                        indent_level as nat,
                    ) {
                        Err(e) => list_full == Err::<
                            (Seq<StmtSpec>, Set<Seq<char>>),
                            ErrorSpec,
                        >(e),
                        Ok(p) => list_full is Ok && list_full->Ok_0.0 == acc + p.0
                            && list_full->Ok_0.1 == p.1,
                    },
            {
                proof {
                    assert(ds.skip(i as int)[0] == ds[i as int]);
                    assert(ds[i as int] == connected@[i as int]@);
                    assert(ds.skip(i as int).drop_first() =~= ds.skip(i + 1));
                    lemma_find_node_view(self.graph.nodes@, connected@[i as int]@);
                }
                let next_opt = self.graph.get_node(connected[i].as_str());
                match next_opt {
                    None => {
                        proof {
                            let vcur = vset(visited@);
                            assert(emit_chain_model(
                                g,
                                reg,
                                dr,
                                er,
                                ds[i as int],
                                vcur,
                                indent_level as nat,
                            ) == Ok::<(Seq<StmtSpec>, Set<Seq<char>>), ErrorSpec>(
                                (Seq::<StmtSpec>::empty(), vcur),
                            ));
                            lemma_emit_list_unfold(
                                g,
                                reg,
                                dr,
                                er,
                                ds.skip(i as int),
                                vcur,
                                indent_level as nat,
                            );
                            match emit_list_model(
                                g,
                                reg,
                                dr,
                                er,
                                ds.skip(i + 1),
                                vcur,
                                indent_level as nat,
                            ) {
                                Err(e2) => {},
                                Ok(p2) => {
                                    assert(Seq::<StmtSpec>::empty() + p2.0 =~= p2.0);
                                },
                            }
                        }
                    },
                    Some(next) => {
                        proof {
                            lemma_node_ids_finite(g.nodes);
                            vstd::set_lib::lemma_len_subset(
                                node_ids(g.nodes).difference(vset(visited@)),
                                node_ids(g.nodes),
                            );
                            vstd::set_lib::lemma_len_subset(
                                node_ids(g.nodes).difference(vset(visited@)),
                                node_ids(g.nodes).difference(v2),
                            );
                        }
                        let ghost vcur = vset(visited@);
                        proof {
                            crate::graph::lemma_find_node_id(
                                self.graph.nodes@,
                                connected@[i as int]@,
                            );
                        }
                        let sub = self.generate_node_chain(visited, next, indent_level);
                        match sub {
                            Err(e) => {
                                proof {
                                    assert(emit_list_model(
                                        g,
                                        reg,
                                        dr,
                                        er,
                                        ds.skip(i as int),
                                        vcur,
                                        indent_level as nat,
                                    ) == Err::<(Seq<StmtSpec>, Set<Seq<char>>), ErrorSpec>(e@));
                                }
                                return Err(e);
                            },
                            Ok(t) => {
                                code.append(t.as_str());
                                proof {
                                    let mc = emit_chain_model(
                                        g,
                                        reg,
                                        dr,
                                        er,
                                        ds[i as int],
                                        vcur,
                                        indent_level as nat,
                                    );
                                    let s1 = mc->Ok_0.0;
                                    let v1 = mc->Ok_0.1;
                                    lemma_emit_chain_monotone(
                                        g,
                                        reg,
                                        dr,
                                        er,
                                        ds[i as int],
                                        vcur,
                                        indent_level as nat,
                                    );
                                    lemma_emit_list_unfold(
                                        g,
                                        reg,
                                        dr,
                                        er,
                                        ds.skip(i as int),
                                        vcur,
                                        indent_level as nat,
                                    );
                                    let acc_old = acc;
                                    acc = acc + s1;
                                    lemma_stmts_text_concat(acc_old, s1);
                                    assert(code@ =~= own_text + stmts_text(acc));
                                    match emit_list_model(
                                        g,
                                        reg,
                                        dr,
                                        er,
                                        ds.skip(i + 1),
                                        v1,
                                        indent_level as nat,
                                    ) {
                                        Err(e2) => {},
                                        Ok(p2) => {
                                            assert(acc_old + (s1 + p2.0) =~= acc + p2.0);
                                        },
                                    }
                                }
                            },
                        }
                    },
                }
            }
            proof {
                assert(ds.skip(cn as int) =~= Seq::<Seq<char>>::empty());
                assert(acc + Seq::<StmtSpec>::empty() =~= acc);
                lemma_stmts_text_concat(seq![stmt_m], acc);
            }
            Ok(code)
        } else {
            proof {
                assert(emit_list_model(
                    g,
                    reg,
                    dr,
                    er,
                    Seq::<Seq<char>>::empty(),
                    v2,
                    indent_level as nat,
                ) == Ok::<(Seq<StmtSpec>, Set<Seq<char>>), ErrorSpec>(
                    (Seq::<StmtSpec>::empty(), v2),
                ));
                assert(seq![stmt_m] + Seq::<StmtSpec>::empty() =~= seq![stmt_m]);
            }
            Ok(code)
        }
    }

    /// Generates one entry function: the stage header, one independent
    /// branch per directly connected node (each with a fresh visited set),
    /// and the stage trailer with its fixed placeholder return.
    #[verifier::loop_isolation(false)]
    fn generate_entry_function(&self, entry_node: &NodeInstance) -> (r: Result<
        String,
        CompileError,
    >)
        ensures
            ({
                let m = entry_fn_model(
                    self.graph@,
                    self.metadata_provider@,
                    self.data_resolver@,
                    self.exec_routing@,
                    self.stage,
                    entry_node@,
                );
                match r {
                    Ok(t) => m == Ok::<Seq<char>, ErrorSpec>(t@),
                    Err(e) => m == Err::<Seq<char>, ErrorSpec>(e@),
                }
            }),
    {
        let ghost g = self.graph@;
        let ghost reg = self.metadata_provider@;
        let ghost dr = self.data_resolver@;
        let ghost er = self.exec_routing@;
        proof {
            lemma_find_meta_view(self.metadata_provider.nodes@, entry_node.node_type@);
        }
        let metadata = match self.metadata_provider.get_node_metadata(
            entry_node.node_type.as_str(),
        ) {
            Some(m) => m,
            None => {
                return Err(CompileError::NodeTypeNotFound(entry_node.node_type.clone()));
            },
        };
        let mut code = String::new();
        match self.stage {
            ShaderStage::Vertex => {
                code.append(
                    "@vertex\nfn vertex_main(\n    @builtin(vertex_index) vertex_index: u32,\n) -> @builtin(position) vec4<f32> {\n",
                );
            },
            ShaderStage::Fragment => {
                code.append(
                    "@fragment\nfn fragment_main(\n    @builtin(position) frag_coord: vec4<f32>,\n) -> @location(0) vec4<f32> {\n",
                );
            },
            ShaderStage::Compute => {
                code.append(
                    "@compute @workgroup_size(8, 8, 1)\nfn compute_main(\n    @builtin(global_invocation_id) global_id: vec3<u32>,\n) {\n",
                );
            },
        }
        proof {
            assert(code@ =~= header_text(self.stage));
        }
        let ghost ds = if metadata@.exec_outputs.len() > 0 {
            downstream(er, entry_node@.id, metadata@.exec_outputs[0])
        } else {
            Seq::<Seq<char>>::empty()
        };
        let ghost body_model = branches_model(g, reg, dr, er, ds, 1);
        let ghost mut emitted: Seq<char> = Seq::empty();
        proof {
            assert(code@ =~= header_text(self.stage) + emitted);
        }
        if metadata.exec_outputs.len() > 0 {
            let connected = self.exec_routing.get_connected_nodes(
                entry_node.id.as_str(),
                metadata.exec_outputs[0].as_str(),
            );
            let cn = connected.len();
            proof {
                assert(metadata@.exec_outputs[0] == metadata.exec_outputs@[0]@);
                assert(connected@.map_values(|s: String| s@) == ds);
                assert(ds.skip(0) =~= ds);
                match branches_model(g, reg, dr, er, ds, 1) {
                    Err(e) => {},
                    Ok(t2) => {
                        assert(emitted + t2 =~= t2);
                    },
                }
            }
            for i in 0..cn
                invariant
                    cn == connected@.len(),
                    code@ == header_text(self.stage) + emitted,
                    match branches_model(g, reg, dr, er, ds.skip(i as int), 1) {
                        Err(e) => body_model == Err::<Seq<char>, ErrorSpec>(e),
                        Ok(t2) => body_model == Ok::<Seq<char>, ErrorSpec>(emitted + t2),
                    },
            {
                proof {
                    assert(ds.skip(i as int)[0] == ds[i as int]);
                    assert(ds[i as int] == connected@[i as int]@);
                    assert(ds.skip(i as int).drop_first() =~= ds.skip(i + 1));
                    lemma_find_node_view(self.graph.nodes@, connected@[i as int]@);
                }
                match self.graph.get_node(connected[i].as_str()) {
                    None => {
                        proof {
                            assert(!Set::<Seq<char>>::empty().contains(ds[i as int]));
                            assert(emit_chain_model(g, reg, dr, er, ds[i as int], Set::empty(), 1)
                                == Ok::<(Seq<StmtSpec>, Set<Seq<char>>), ErrorSpec>(
                                (Seq::<StmtSpec>::empty(), Set::empty()),
                            ));
                            assert(stmts_text(Seq::<StmtSpec>::empty()) == Seq::<char>::empty());
                            match branches_model(g, reg, dr, er, ds.skip(i + 1), 1) {
                                Err(e2) => {},
                                Ok(t2) => {
                                    assert(Seq::<char>::empty() + t2 =~= t2);
                                },
                            }
                        }
                    },
                    Some(next) => {
                        let mut branch_visited: Vec<String> = Vec::new();
                        proof {
                            crate::graph::lemma_find_node_id(
                                self.graph.nodes@,
                                connected@[i as int]@,
                            );
                            assert(branch_visited@.map_values(|s: String| s@) =~= Seq::<
                                Seq<char>,
                            >::empty());
                            assert(vset(branch_visited@) =~= Set::<Seq<char>>::empty());
                        }
                        match self.generate_node_chain(&mut branch_visited, next, 1) {
                            Err(e) => {
                                return Err(e);
                            },
                            Ok(t) => {
                                code.append(t.as_str());
                                proof {
                                    let mc = emit_chain_model(
                                        g,
                                        reg,
                                        dr,
                                        er,
                                        ds[i as int],
                                        Set::empty(),
                                        1,
                                    );
                                    let pre = emitted;
                                    emitted = emitted + t@;
                                    match branches_model(g, reg, dr, er, ds.skip(i + 1), 1) {
                                        Err(e2) => {},
                                        Ok(t2) => {
                                            assert(pre + (stmts_text(mc->Ok_0.0) + t2)
                                                =~= emitted + t2);
                                        },
                                    }
                                    assert(code@ =~= header_text(self.stage) + emitted);
                                }
                            },
                        }
                    },
                }
            }
            proof {
                assert(ds.skip(cn as int) =~= Seq::<Seq<char>>::empty());
                assert(emitted + Seq::<char>::empty() =~= emitted);
            }
        }
        proof {
            assert(body_model == Ok::<Seq<char>, ErrorSpec>(emitted));
        }
        match self.stage {
            ShaderStage::Vertex => {
                code.append("    return vec4<f32>(0.0, 0.0, 0.0, 1.0);\n");
            },
            ShaderStage::Fragment => {
                code.append("    return vec4<f32>(1.0, 0.0, 1.0, 1.0);\n");
            },
            ShaderStage::Compute => {},
        }
        code.append("}\n");
        proof {
            assert(code@ =~= header_text(self.stage) + emitted + footer_text(self.stage));
        }
        Ok(code)
    }

    /// Generates the complete shader: the fixed banner, then one function
    /// per entry node of the stage's entry type, in graph order; a graph
    /// with no such node is rejected.
    #[verifier::loop_isolation(false)]
    pub fn generate_shader(&self) -> (r: Result<String, CompileError>)
        ensures
            ({
                let m = generate_model(
                    self.graph@,
                    self.metadata_provider@,
                    self.data_resolver@,
                    self.exec_routing@,
                    self.stage,
                );
                match r {
                    Ok(t) => m == Ok::<Seq<char>, ErrorSpec>(t@),
                    Err(e) => m == Err::<Seq<char>, ErrorSpec>(e@),
                }
            }),
    {
        let ghost g = self.graph@;
        let ghost reg = self.metadata_provider@;
        let ghost dr = self.data_resolver@;
        let ghost er = self.exec_routing@;
        let ghost nodes_v = g.nodes;
        let mut code = String::new();
        code.append("// Auto-generated WGSL shader from Pulsar Shader Graph\n");
        code.append("// DO NOT EDIT - Changes will be overwritten\n");
        code.append("// Compiled with PSGC (Pulsar Shader Graph Compiler)\n\n");
        proof {
            assert(code@ =~= banner_text());
        }
        let entry_node_type: &str = match self.stage {
            ShaderStage::Vertex => "vertex_main",
            ShaderStage::Fragment => "fragment_main",
            ShaderStage::Compute => "compute_main",
        };
        proof {
            assert(entry_node_type@ == entry_type_name(self.stage));
        }
        let nn = self.graph.nodes.len();
        let mut found = false;
        proof {
            assert(nodes_v.take(0) =~= Seq::<NodeSpec>::empty());
        }
        for i in 0..nn
            invariant
                found == has_node_of_type(nodes_v.take(i as int), entry_type_name(self.stage)),
        {
            proof {
                assert(nodes_v[i as int] == self.graph.nodes@[i as int]@);
            }
            if str_eq(self.graph.nodes[i].node_type.as_str(), entry_node_type) {
                found = true;
                proof {
                    assert(nodes_v.take(i + 1)[i as int] == nodes_v[i as int]);
                    assert(has_node_of_type(nodes_v.take(i + 1), entry_type_name(self.stage)));
                }
            } else {
                proof {
                    if has_node_of_type(nodes_v.take(i + 1), entry_type_name(self.stage)) {
                        let j = choose|j: int|
                            0 <= j < i + 1 && #[trigger] nodes_v.take(i + 1)[j].node_type
                                == entry_type_name(self.stage);
                        if j < i {
                            assert(nodes_v.take(i as int)[j] == nodes_v.take(i + 1)[j]);
                            assert(has_node_of_type(
                                nodes_v.take(i as int),
                                entry_type_name(self.stage),
                            ));
                        } else {
                            assert(nodes_v.take(i + 1)[j] == nodes_v[i as int]);
                        }
                    }
                    if found {
                        let j = choose|j: int|
                            0 <= j < i && #[trigger] nodes_v.take(i as int)[j].node_type
                                == entry_type_name(self.stage);
                        assert(nodes_v.take(i + 1)[j] == nodes_v.take(i as int)[j]);
                        assert(has_node_of_type(nodes_v.take(i + 1), entry_type_name(self.stage)));
                    }
                }
            }
        }
        proof {
            assert(nodes_v.take(nn as int) =~= nodes_v);
        }
        if !found {
            return Err(CompileError::EntryPointNotFound);
        }
        let ghost full = entries_text_model(g, reg, dr, er, self.stage, nodes_v);
        let ghost mut emitted: Seq<char> = Seq::empty();
        proof {
            assert(nodes_v.skip(0) =~= nodes_v);
            match entries_text_model(g, reg, dr, er, self.stage, nodes_v) {
                Err(e) => {},
                Ok(t2) => {
                    assert(emitted + t2 =~= t2);
                },
            }
        }
        for i in 0..nn
            invariant
                code@ == banner_text() + emitted,
                match entries_text_model(g, reg, dr, er, self.stage, nodes_v.skip(i as int)) {
                    Err(e) => full == Err::<Seq<char>, ErrorSpec>(e),
                    Ok(t2) => full == Ok::<Seq<char>, ErrorSpec>(emitted + t2),
                },
        {
            proof {
                assert(nodes_v.skip(i as int)[0] == nodes_v[i as int]);
                assert(nodes_v[i as int] == self.graph.nodes@[i as int]@);
                assert(nodes_v.skip(i as int).drop_first() =~= nodes_v.skip(i + 1));
            }
            let node = &self.graph.nodes[i];
            if str_eq(node.node_type.as_str(), entry_node_type) {
                match self.generate_entry_function(node) {
                    Err(e) => {
                        return Err(e);
                    },
                    Ok(t) => {
                        code.append(t.as_str());
                        code.append("\n");
                        proof {
                            let pre = emitted;
                            emitted = emitted + t@ + "\n"@;
                            match entries_text_model(
                                g,
                                reg,
                                dr,
                                er,
                                self.stage,
                                nodes_v.skip(i + 1),
                            ) {
                                Err(e2) => {},
                                Ok(t2) => {
                                    assert(pre + (t@ + "\n"@ + t2) =~= emitted + t2);
                                },
                            }
                            assert(code@ =~= banner_text() + emitted);
                        }
                    },
                }
            }
        }
        proof {
            assert(nodes_v.skip(nn as int) =~= Seq::<NodeSpec>::empty());
            assert(emitted + Seq::<char>::empty() =~= emitted);
        }
        Ok(code)
    }

    /// The inlined call expression of a pure node.
    fn generate_pure_node_expression(&self, node: &NodeInstance, fuel: usize) -> (r: Result<
        String,
        CompileError,
    >)
        ensures
            text_result(r) == inline_model(
                self.graph@,
                self.metadata_provider@,
                self.data_resolver@,
                node@,
                fuel as nat,
            ),
        decreases fuel, 2nat, 0nat,
    {
        proof {
            lemma_find_meta_view(self.metadata_provider.nodes@, node.node_type@);
        }
        match self.metadata_provider.get_node_metadata(node.node_type.as_str()) {
            None => Err(CompileError::NodeTypeNotFound(node.node_type.clone())),
            Some(m) => {
                match self.collect_arguments(node.id.as_str(), m, fuel) {
                    Err(e) => Err(e),
                    Ok(args) => {
                        let mut s = self.map_function_name(m.name.as_str());
                        s.append("(");
                        let joined = join_args(&args);
                        s.append(joined.as_str());
                        s.append(")");
                        Ok(s)
                    },
                }
            },
        }
    }
}



/// What whole-shader generation returns: the banner and all entry
/// functions, or `EntryPointNotFound` when the graph has no node of the
/// stage's entry type.
pub open spec fn generate_model(
    g: GraphSpec,
    reg: Seq<MetaSpec>,
    dr: ResolverSpec,
    er: Seq<RouteLinkSpec>,
    stage: ShaderStage,
) -> Result<Seq<char>, ErrorSpec> {
    if !has_node_of_type(g.nodes, entry_type_name(stage)) {
        Err(ErrorSpec::EntryPointNotFound)
    } else {
        match entries_text_model(g, reg, dr, er, stage, g.nodes) {
            Err(e) => Err(e),
            Ok(body) => Ok(banner_text() + body),
        }
    }
}

} // verus!
