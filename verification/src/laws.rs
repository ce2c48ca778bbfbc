//! Properties of the emission model, proved once and for all graphs.
//!
//! Every executable generation function is proved equal to the model in
//! `codegen`, so what is proved here of the model holds of the generated
//! text's statement structure.

use vstd::prelude::*;

use crate::analysis::ResolverSpec;
use crate::analysis::RouteLinkSpec;
use crate::analysis::downstream;
use crate::analysis::variable_lookup;
use crate::codegen::ShaderStage;
use crate::codegen::StmtSpec;
use crate::codegen::emit_chain_model;
use crate::codegen::emit_function_model;
use crate::codegen::emit_list_model;
use crate::codegen::entry_type_name;
use crate::codegen::generate_model;
use crate::codegen::has_node_of_type;
use crate::codegen::lemma_emit_chain_monotone;
use crate::codegen::resolve_input_model;
use crate::compiler::compile_auto_model;
use crate::error::ErrorSpec;
use crate::graph::GraphSpec;
use crate::graph::graph_node;
use crate::metadata::MetaSpec;
use crate::metadata::NodeKind;
use crate::metadata::meta_lookup;

verus! {

/// The descriptor a node id resolves to, through the graph and catalog.
pub open spec fn meta_of(g: GraphSpec, reg: Seq<MetaSpec>, id: Seq<char>) -> Option<MetaSpec> {
    match graph_node(g.nodes, id) {
        Some(n) => meta_lookup(reg, n.node_type),
        None => None,
    }
}

/// The kind a node id resolves to, if any.
pub open spec fn kind_of(g: GraphSpec, reg: Seq<MetaSpec>, id: Seq<char>) -> Option<NodeKind> {
    match meta_of(g, reg, id) {
        Some(m) => Some(m.kind),
        None => None,
    }
}

/// Whether a node id resolves to a Function-kind descriptor with a declared
/// return type: exactly the nodes that are assigned a result variable.
pub open spec fn is_ret_function(g: GraphSpec, reg: Seq<MetaSpec>, id: Seq<char>) -> bool {
    match meta_of(g, reg, id) {
        Some(m) => m.kind == NodeKind::Function && m.return_type is Some,
        None => false,
    }
}

/// How many statements in the list originate from the given node id.
pub open spec fn origin_count(stmts: Seq<StmtSpec>, id: Seq<char>) -> nat
    decreases stmts.len(),
{
    if stmts.len() == 0 {
        0
    } else {
        (if stmts[0].origin() == id {
            1nat
        } else {
            0nat
        }) + origin_count(stmts.drop_first(), id)
    }
}

/// A statement is well formed for its origin node: a binding comes from a
/// Function-kind node with a return type and binds exactly the resolver's
/// result variable for that node; a bare call comes from a Function-kind
/// node without one; a placeholder comes from a ControlFlow-kind node.
pub open spec fn stmt_well_formed(
    g: GraphSpec,
    reg: Seq<MetaSpec>,
    dr: ResolverSpec,
    s: StmtSpec,
) -> bool {
    match s {
        StmtSpec::Binding { node, indent, var_name, callee, args } => match meta_of(g, reg, node) {
            Some(m) => m.kind == NodeKind::Function && m.return_type is Some && variable_lookup(
                dr.result_variables,
                node,
            ) == Some(var_name),
            None => false,
        },
        StmtSpec::Bare { node, indent, callee, args } => match meta_of(g, reg, node) {
            Some(m) => m.kind == NodeKind::Function && m.return_type is None,
            None => false,
        },
        StmtSpec::Flow { node, indent } => match meta_of(g, reg, node) {
            Some(m) => m.kind == NodeKind::ControlFlow,
            None => false,
        },
    }
}

/// What one emission step guarantees, relative to the visited set it
/// started from and the one it left behind.
pub open spec fn emission_sound(
    g: GraphSpec,
    reg: Seq<MetaSpec>,
    dr: ResolverSpec,
    visited: Set<Seq<char>>,
    stmts: Seq<StmtSpec>,
    v2: Set<Seq<char>>,
) -> bool {
    &&& forall|k: int|
        0 <= k < stmts.len() ==> v2.contains(#[trigger] stmts[k].origin()) && !visited.contains(
            stmts[k].origin(),
        )
    &&& forall|k: int, l: int|
        0 <= k < l < stmts.len() ==> (#[trigger] stmts[k].origin()) != (#[trigger] stmts[l].origin())
    &&& forall|k: int| 0 <= k < stmts.len() ==> stmt_well_formed(g, reg, dr, #[trigger] stmts[k])
    &&& forall|id2: Seq<char>|
        v2.contains(id2) && !visited.contains(id2) && is_ret_function(g, reg, id2)
            ==> #[trigger] origin_count(stmts, id2) == 1
}

/// Counting origins distributes over concatenation.
proof fn lemma_origin_count_concat(a: Seq<StmtSpec>, b: Seq<StmtSpec>, id: Seq<char>)
    ensures
        origin_count(a + b, id) == origin_count(a, id) + origin_count(b, id),
    decreases a.len(),
{
    if a.len() == 0 {
        assert(a + b =~= b);
    } else {
        lemma_origin_count_concat(a.drop_first(), b, id);
        assert((a + b).drop_first() =~= a.drop_first() + b);
        assert((a + b)[0] == a[0]);
    }
}

/// A node none of the statements came from is counted zero times.
proof fn lemma_origin_count_zero(stmts: Seq<StmtSpec>, id: Seq<char>)
    requires
        forall|k: int| 0 <= k < stmts.len() ==> (#[trigger] stmts[k].origin()) != id,
    ensures
        origin_count(stmts, id) == 0,
    decreases stmts.len(),
{
    if stmts.len() > 0 {
        assert(stmts[0].origin() != id);
        assert(forall|k: int|
            0 <= k < stmts.drop_first().len() ==> (#[trigger] stmts.drop_first()[k].origin())
                != id) by {
            assert(forall|k: int|
                0 <= k < stmts.drop_first().len() ==> stmts.drop_first()[k] == stmts[k + 1]);
        }
        lemma_origin_count_zero(stmts.drop_first(), id);
    }
}

/// Chain emission is sound: every statement originates from a node newly
/// visited in this branch, each node yields at most one statement, every
/// statement is well formed for its node's kind, and every newly visited
/// node that needs a binding gets exactly one.
pub proof fn lemma_chain_emission_sound(
    g: GraphSpec,
    reg: Seq<MetaSpec>,
    dr: ResolverSpec,
    er: Seq<RouteLinkSpec>,
    id: Seq<char>,
    visited: Set<Seq<char>>,
    indent: nat,
)
    ensures
        match emit_chain_model(g, reg, dr, er, id, visited, indent) {
            Ok((stmts, v2)) => emission_sound(g, reg, dr, visited, stmts, v2),
            Err(_) => true,
        },
    decreases crate::codegen::unvisited_count(g, visited), 0nat, 0nat,
{
    if visited.contains(id) {
        let stmts = Seq::<StmtSpec>::empty();
        assert(emission_sound(g, reg, dr, visited, stmts, visited));
    } else {
        match graph_node(g.nodes, id) {
            None => {
                assert(emission_sound(g, reg, dr, visited, Seq::<StmtSpec>::empty(), visited));
            },
            Some(n) => {
                let v2 = visited.insert(id);
                crate::graph::lemma_node_ids_finite(g.nodes);
                crate::graph::lemma_graph_node_in_ids(g.nodes, id);
                match meta_lookup(reg, n.node_type) {
                    None => {},
                    Some(m) => match m.kind {
                        NodeKind::Pure => {
                            assert forall|id2: Seq<char>|
                                v2.contains(id2) && !visited.contains(id2) && is_ret_function(
                                    g,
                                    reg,
                                    id2,
                                ) implies #[trigger] origin_count(
                                Seq::<StmtSpec>::empty(),
                                id2,
                            ) == 1 by {
                                assert(id2 == id);
                                assert(!is_ret_function(g, reg, id));
                            }
                            assert(emission_sound(g, reg, dr, visited, Seq::empty(), v2));
                        },
                        NodeKind::Event => {
                            assert forall|id2: Seq<char>|
                                v2.contains(id2) && !visited.contains(id2) && is_ret_function(
                                    g,
                                    reg,
                                    id2,
                                ) implies #[trigger] origin_count(
                                Seq::<StmtSpec>::empty(),
                                id2,
                            ) == 1 by {
                                assert(id2 == id);
                                assert(!is_ret_function(g, reg, id));
                            }
                            assert(emission_sound(g, reg, dr, visited, Seq::empty(), v2));
                        },
                        NodeKind::ControlFlow => {
                            let stmt = StmtSpec::Flow { node: id, indent };
                            let stmts = seq![stmt];
                            assert(stmts[0].origin() == id);
                            assert(stmt_well_formed(g, reg, dr, stmt));
                            assert forall|id2: Seq<char>|
                                v2.contains(id2) && !visited.contains(id2) && is_ret_function(
                                    g,
                                    reg,
                                    id2,
                                ) implies #[trigger] origin_count(stmts, id2) == 1 by {
                                assert(id2 == id);
                                assert(!is_ret_function(g, reg, id));
                            }
                            assert(emission_sound(g, reg, dr, visited, stmts, v2));
                        },
                        NodeKind::Function => {
                            crate::graph::node_ids(g.nodes).lemma_set_insert_diff_decreases(
                                visited,
                                id,
                            );
                            lemma_function_emission_sound(g, reg, dr, er, id, m, v2, indent);
                            match emit_function_model(g, reg, dr, er, id, m, v2, indent) {
                                Err(_) => {},
                                Ok((stmts, v3)) => {
                                    assert(v2.remove(id) =~= visited);
                                },
                            }
                        },
                    },
                }
            },
        }
    }
}

/// Function-node emission is sound, relative to the visited set without the
/// node's own id.
pub proof fn lemma_function_emission_sound(
    g: GraphSpec,
    reg: Seq<MetaSpec>,
    dr: ResolverSpec,
    er: Seq<RouteLinkSpec>,
    id: Seq<char>,
    m: MetaSpec,
    v2: Set<Seq<char>>,
    indent: nat,
)
    requires
        meta_of(g, reg, id) == Some(m),
        m.kind == NodeKind::Function,
        v2.contains(id),
    ensures
        match emit_function_model(g, reg, dr, er, id, m, v2, indent) {
            Ok((stmts, v3)) => emission_sound(g, reg, dr, v2.remove(id), stmts, v3),
            Err(_) => true,
        },
    decreases crate::codegen::unvisited_count(g, v2), 2nat, 0nat,
{
    match crate::codegen::inline_args_model(g, reg, dr, id, m.params, g.nodes.len()) {
        Err(_) => {},
        Ok(args) => {
            let callee = crate::codegen::mapped_name(m.name);
            let stmt_result: Result<StmtSpec, ErrorSpec> = if m.return_type is Some {
                match variable_lookup(dr.result_variables, id) {
                    Some(v) => Ok(
                        StmtSpec::Binding { node: id, indent, var_name: v, callee, args },
                    ),
                    None => Err(ErrorSpec::MissingResultVariable(id)),
                }
            } else {
                Ok(StmtSpec::Bare { node: id, indent, callee, args })
            };
            match stmt_result {
                Err(_) => {},
                Ok(stmt) => {
                    let ds = if m.exec_outputs.len() > 0 {
                        downstream(er, id, m.exec_outputs[0])
                    } else {
                        Seq::<Seq<char>>::empty()
                    };
                    lemma_list_emission_sound(g, reg, dr, er, ds, v2, indent);
                    crate::codegen::lemma_emit_list_monotone(g, reg, dr, er, ds, v2, indent);
                    match emit_list_model(g, reg, dr, er, ds, v2, indent) {
                        Err(_) => {},
                        Ok((rest, v3)) => {
                            let stmts = seq![stmt] + rest;
                            assert(stmt.origin() == id);
                            assert(stmt_well_formed(g, reg, dr, stmt));
                            assert(stmts[0] == stmt);
                            assert(forall|k: int|
                                1 <= k < stmts.len() ==> #[trigger] stmts[k] == rest[k - 1]);
                            let vprev = v2.remove(id);
                            assert forall|k: int|
                                0 <= k < stmts.len() implies v3.contains(
                                #[trigger] stmts[k].origin(),
                            ) && !vprev.contains(stmts[k].origin()) by {
                                if k == 0 {
                                    assert(v2.subset_of(v3));
                                } else {
                                    assert(rest[k - 1].origin() == stmts[k].origin());
                                }
                            }
                            assert forall|k: int, l: int|
                                0 <= k < l < stmts.len() implies (#[trigger] stmts[k].origin())
                                != (#[trigger] stmts[l].origin()) by {
                                if k == 0 {
                                    assert(!v2.contains(rest[l - 1].origin()));
                                }
                            }
                            assert forall|id2: Seq<char>|
                                v3.contains(id2) && !vprev.contains(id2) && is_ret_function(
                                    g,
                                    reg,
                                    id2,
                                ) implies #[trigger] origin_count(stmts, id2) == 1 by {
                                lemma_origin_count_concat(seq![stmt], rest, id2);
                                assert(seq![stmt].drop_first() =~= Seq::<StmtSpec>::empty());
                                assert(origin_count(seq![stmt].drop_first(), id2) == 0);
                                assert(origin_count(seq![stmt], id2) == (if stmt.origin() == id2 {
                                    1nat
                                } else {
                                    0nat
                                }));
                                if id2 == id {
                                    assert(forall|k: int|
                                        0 <= k < rest.len() ==> (#[trigger] rest[k].origin())
                                            != id2);
                                    lemma_origin_count_zero(rest, id2);
                                } else {
                                    assert(v2.contains(id2) == vprev.contains(id2));
                                    assert(origin_count(rest, id2) == 1);
                                }
                            }
                            assert(emission_sound(g, reg, dr, vprev, stmts, v3));
                        },
                    }
                },
            }
        },
    }
}

/// Downstream-list emission is sound.
pub proof fn lemma_list_emission_sound(
    g: GraphSpec,
    reg: Seq<MetaSpec>,
    dr: ResolverSpec,
    er: Seq<RouteLinkSpec>,
    ids: Seq<Seq<char>>,
    visited: Set<Seq<char>>,
    indent: nat,
)
    ensures
        match emit_list_model(g, reg, dr, er, ids, visited, indent) {
            Ok((stmts, v2)) => emission_sound(g, reg, dr, visited, stmts, v2),
            Err(_) => true,
        },
    decreases crate::codegen::unvisited_count(g, visited), 1nat, ids.len(),
{
    if ids.len() == 0 {
        assert(emission_sound(g, reg, dr, visited, Seq::<StmtSpec>::empty(), visited));
    } else {
        lemma_chain_emission_sound(g, reg, dr, er, ids[0], visited, indent);
        lemma_emit_chain_monotone(g, reg, dr, er, ids[0], visited, indent);
        match emit_chain_model(g, reg, dr, er, ids[0], visited, indent) {
            Err(_) => {},
            Ok((s1, v1)) => {
                crate::graph::lemma_node_ids_finite(g.nodes);
                vstd::set_lib::lemma_len_subset(
                    crate::graph::node_ids(g.nodes).difference(visited),
                    crate::graph::node_ids(g.nodes),
                );
                vstd::set_lib::lemma_len_subset(
                    crate::graph::node_ids(g.nodes).difference(visited.union(v1)),
                    crate::graph::node_ids(g.nodes).difference(visited),
                );
                lemma_list_emission_sound(g, reg, dr, er, ids.drop_first(), visited.union(v1), indent);
                crate::codegen::lemma_emit_list_monotone(
                    g,
                    reg,
                    dr,
                    er,
                    ids.drop_first(),
                    visited.union(v1),
                    indent,
                );
                assert(visited.union(v1) =~= v1);
                match emit_list_model(g, reg, dr, er, ids.drop_first(), v1, indent) {
                    Err(_) => {},
                    Ok((s2, vf)) => {
                        let stmts = s1 + s2;
                        assert(forall|k: int|
                            0 <= k < s1.len() ==> #[trigger] stmts[k] == s1[k]);
                        assert(forall|k: int|
                            s1.len() <= k < stmts.len() ==> #[trigger] stmts[k] == s2[
                                k - s1.len()
                            ]);
                        assert forall|k: int|
                            0 <= k < stmts.len() implies vf.contains(
                            #[trigger] stmts[k].origin(),
                        ) && !visited.contains(stmts[k].origin()) by {
                            if k < s1.len() {
                                assert(v1.contains(s1[k].origin()));
                                assert(v1.subset_of(vf));
                            } else {
                                assert(vf.contains(s2[k - s1.len()].origin()));
                                assert(!v1.contains(s2[k - s1.len()].origin()));
                                assert(visited.subset_of(v1));
                            }
                        }
                        assert forall|k: int, l: int|
                            0 <= k < l < stmts.len() implies (#[trigger] stmts[k].origin())
                            != (#[trigger] stmts[l].origin()) by {
                            if k < s1.len() && l >= s1.len() {
                                assert(v1.contains(s1[k].origin()));
                                assert(!v1.contains(s2[l - s1.len()].origin()));
                            }
                        }
                        assert forall|id2: Seq<char>|
                            vf.contains(id2) && !visited.contains(id2) && is_ret_function(
                                g,
                                reg,
                                id2,
                            ) implies #[trigger] origin_count(stmts, id2) == 1 by {
                            lemma_origin_count_concat(s1, s2, id2);
                            if v1.contains(id2) {
                                assert(origin_count(s1, id2) == 1);
                                assert(forall|k: int|
                                    0 <= k < s2.len() ==> (#[trigger] s2[k].origin()) != id2);
                                lemma_origin_count_zero(s2, id2);
                            } else {
                                assert(origin_count(s2, id2) == 1);
                                assert(forall|k: int|
                                    0 <= k < s1.len() ==> (#[trigger] s1[k].origin()) != id2);
                                lemma_origin_count_zero(s1, id2);
                            }
                        }
                        assert(emission_sound(g, reg, dr, visited, stmts, vf));
                    },
                }
            },
        }
    }
}

/// A graph with no node of the requested stage's entry type never
/// generates: the result is exactly the `EntryPointNotFound` error.
pub proof fn lemma_entry_point_required(
    g: GraphSpec,
    reg: Seq<MetaSpec>,
    dr: ResolverSpec,
    er: Seq<RouteLinkSpec>,
    stage: ShaderStage,
)
    requires
        forall|i: int|
            0 <= i < g.nodes.len() ==> (#[trigger] g.nodes[i].node_type) != entry_type_name(stage),
    ensures
        generate_model(g, reg, dr, er, stage) == Err::<Seq<char>, ErrorSpec>(
            ErrorSpec::EntryPointNotFound,
        ),
{
    assert(!has_node_of_type(g.nodes, entry_type_name(stage)));
}

/// The same, at the facade: a graph with no node of the requested stage's
/// entry type never compiles for that stage.
pub proof fn lemma_compile_entry_point_required(g: GraphSpec, stage: ShaderStage)
    requires
        forall|i: int|
            0 <= i < g.nodes.len() ==> (#[trigger] g.nodes[i].node_type) != entry_type_name(stage),
    ensures
        crate::compiler::compile_model(g, stage) == Err::<Seq<char>, ErrorSpec>(
            ErrorSpec::EntryPointNotFound,
        ),
{
    lemma_entry_point_required(
        g,
        crate::nodes::catalog(),
        crate::analysis::resolver_spec(g, crate::nodes::catalog()),
        crate::analysis::routing_spec(g),
        stage,
    );
}

/// A graph with neither a fragment nor a vertex entry node never compiles
/// under stage auto-detection: the result is exactly `NoEntryPoint`.
pub proof fn lemma_no_entry_point(g: GraphSpec)
    requires
        forall|i: int| 0 <= i < g.nodes.len() ==> (#[trigger] g.nodes[i].node_type) != "vertex_main"@,
        forall|i: int|
            0 <= i < g.nodes.len() ==> (#[trigger] g.nodes[i].node_type) != "fragment_main"@,
    ensures
        compile_auto_model(g) == Err::<Seq<char>, ErrorSpec>(ErrorSpec::NoEntryPoint),
{
    assert(!has_node_of_type(g.nodes, "fragment_main"@));
    assert(!has_node_of_type(g.nodes, "vertex_main"@));
}

/// Pure- and Event-kind nodes never yield a standalone statement: every
/// statement a branch emits originates from a Function- or ControlFlow-kind
/// node.
pub proof fn lemma_no_pure_or_event_statement(
    g: GraphSpec,
    reg: Seq<MetaSpec>,
    dr: ResolverSpec,
    er: Seq<RouteLinkSpec>,
    id: Seq<char>,
    visited: Set<Seq<char>>,
    indent: nat,
)
    ensures
        match emit_chain_model(g, reg, dr, er, id, visited, indent) {
            Ok((stmts, v2)) => forall|k: int|
                0 <= k < stmts.len() ==> kind_of(g, reg, (#[trigger] stmts[k]).origin())
                    == Some(NodeKind::Function) || kind_of(g, reg, stmts[k].origin()) == Some(
                    NodeKind::ControlFlow,
                ),
            Err(_) => true,
        },
{
    lemma_chain_emission_sound(g, reg, dr, er, id, visited, indent);
    match emit_chain_model(g, reg, dr, er, id, visited, indent) {
        Err(_) => {},
        Ok((stmts, v2)) => {
            assert forall|k: int|
                0 <= k < stmts.len() implies kind_of(g, reg, (#[trigger] stmts[k]).origin())
                == Some(NodeKind::Function) || kind_of(g, reg, stmts[k].origin()) == Some(
                NodeKind::ControlFlow,
            ) by {
                assert(stmt_well_formed(g, reg, dr, stmts[k]));
            }
        },
    }
}

/// Every binding statement a branch emits binds exactly the resolver's
/// result variable of its node, and a newly visited Function-kind node with
/// a declared return type yields exactly one binding statement.
pub proof fn lemma_one_binding_per_function_node(
    g: GraphSpec,
    reg: Seq<MetaSpec>,
    dr: ResolverSpec,
    er: Seq<RouteLinkSpec>,
    id: Seq<char>,
    visited: Set<Seq<char>>,
    indent: nat,
)
    ensures
        match emit_chain_model(g, reg, dr, er, id, visited, indent) {
            Ok((stmts, v2)) => {
                &&& forall|k: int|
                    0 <= k < stmts.len() ==> match #[trigger] stmts[k] {
                        StmtSpec::Binding { node, var_name, .. } => variable_lookup(
                            dr.result_variables,
                            node,
                        ) == Some(var_name),
                        _ => true,
                    }
                &&& forall|id2: Seq<char>|
                    v2.contains(id2) && !visited.contains(id2) && is_ret_function(g, reg, id2)
                        ==> #[trigger] origin_count(stmts, id2) == 1
            },
            Err(_) => true,
        },
{
    lemma_chain_emission_sound(g, reg, dr, er, id, visited, indent);
    match emit_chain_model(g, reg, dr, er, id, visited, indent) {
        Err(_) => {},
        Ok((stmts, v2)) => {
            assert forall|k: int|
                0 <= k < stmts.len() implies match #[trigger] stmts[k] {
                StmtSpec::Binding { node, var_name, .. } => variable_lookup(
                    dr.result_variables,
                    node,
                ) == Some(var_name),
                _ => true,
            } by {
                assert(stmt_well_formed(g, reg, dr, stmts[k]));
            }
        },
    }
}

/// Within one branch a node is emitted at most once, reconverging paths
/// notwithstanding. Two independent top-level branches from the same entry
/// each start with a fresh visited set, so the same node may legitimately
/// be emitted once per branch.
pub proof fn lemma_at_most_once_per_branch(
    g: GraphSpec,
    reg: Seq<MetaSpec>,
    dr: ResolverSpec,
    er: Seq<RouteLinkSpec>,
    id: Seq<char>,
    visited: Set<Seq<char>>,
    indent: nat,
)
    ensures
        match emit_chain_model(g, reg, dr, er, id, visited, indent) {
            Ok((stmts, v2)) => forall|k: int, l: int|
                0 <= k < l < stmts.len() ==> (#[trigger] stmts[k].origin()) != (
                #[trigger] stmts[l].origin()),
            Err(_) => true,
        },
{
    lemma_chain_emission_sound(g, reg, dr, er, id, visited, indent);
}

/// An input pin with no connection, constant or default source makes
/// resolution fail with exactly `UnboundInput` for that pin, at any fuel.
pub proof fn lemma_unbound_input_is_error(
    g: GraphSpec,
    reg: Seq<MetaSpec>,
    dr: ResolverSpec,
    node_id: Seq<char>,
    pin: Seq<char>,
    fuel: nat,
)
    requires
        crate::analysis::source_lookup(dr.sources, node_id, pin) is None,
    ensures
        resolve_input_model(g, reg, dr, node_id, pin, fuel) == Err::<Seq<char>, ErrorSpec>(
            ErrorSpec::UnboundInput(node_id, pin),
        ),
{
}

} // verus!
