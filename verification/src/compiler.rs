//! The compiler facade: catalog construction, data-flow analysis,
//! execution-routing analysis, then code generation, strictly in sequence,
//! each phase's output feeding the next read-only.
//!
//! A compile call's result is a function of the graph and stage alone: the
//! only mutable state anywhere in a call is the per-branch visited set the
//! generator scopes to that call, so concurrent compiles of distinct graphs
//! cannot observe each other.

use vstd::prelude::*;

use crate::analysis::DataResolver;
use crate::analysis::ExecutionRouting;
use crate::analysis::resolver_spec;
use crate::analysis::routing_spec;
use crate::codegen::ShaderStage;
use crate::codegen::WGSLCodeGenerator;
use crate::codegen::generate_model;
use crate::codegen::has_node_of_type;
use crate::error::CompileError;
use crate::error::ErrorSpec;
use crate::graph::GraphDescription;
use crate::graph::GraphSpec;
use crate::metadata::ShaderMetadataProvider;
use crate::nodes;
use crate::text::str_eq;

verus! {

/// What compiling a graph for a given stage returns: generation over the
/// static catalog and the two analyses the graph determines.
pub open spec fn compile_model(g: GraphSpec, stage: ShaderStage) -> Result<Seq<char>, ErrorSpec> {
    generate_model(
        g,
        nodes::catalog(),
        resolver_spec(g, nodes::catalog()),
        routing_spec(g),
        stage,
    )
}

/// What stage auto-detection compiles: fragment if the graph has a fragment
/// entry node, else vertex if it has a vertex entry node, else the
/// `NoEntryPoint` error.
pub open spec fn compile_auto_model(g: GraphSpec) -> Result<Seq<char>, ErrorSpec> {
    if has_node_of_type(g.nodes, "fragment_main"@) {
        compile_model(g, ShaderStage::Fragment)
    } else if has_node_of_type(g.nodes, "vertex_main"@) {
        compile_model(g, ShaderStage::Vertex)
    } else {
        Err(ErrorSpec::NoEntryPoint)
    }
}

/// Whether the graph holds a node of the given type.
#[verifier::loop_isolation(false)]
fn has_node_named(graph: &GraphDescription, ty: &str) -> (r: bool)
    ensures
        r == has_node_of_type(graph@.nodes, ty@),
{
    let ghost nodes_v = graph@.nodes;
    let nn = graph.nodes.len();
    proof {
        assert(nodes_v.take(0) =~= Seq::<crate::graph::NodeSpec>::empty());
    }
    let mut found = false;
    for i in 0..nn
        invariant
            found == has_node_of_type(nodes_v.take(i as int), ty@),
    {
        proof {
            assert(nodes_v[i as int] == graph.nodes@[i as int]@);
        }
        if str_eq(graph.nodes[i].node_type.as_str(), ty) {
            found = true;
            proof {
                assert(nodes_v.take(i + 1)[i as int] == nodes_v[i as int]);
                assert(has_node_of_type(nodes_v.take(i + 1), ty@));
            }
        } else {
            proof {
                if has_node_of_type(nodes_v.take(i + 1), ty@) {
                    let j = choose|j: int|
                        0 <= j < i + 1 && #[trigger] nodes_v.take(i + 1)[j].node_type == ty@;
                    if j < i {
                        assert(nodes_v.take(i as int)[j] == nodes_v.take(i + 1)[j]);
                        assert(has_node_of_type(nodes_v.take(i as int), ty@));
                    } else {
                        assert(nodes_v.take(i + 1)[j] == nodes_v[i as int]);
                    }
                }
                if found {
                    let j = choose|j: int|
                        0 <= j < i && #[trigger] nodes_v.take(i as int)[j].node_type == ty@;
                    assert(nodes_v.take(i + 1)[j] == nodes_v.take(i as int)[j]);
                    assert(has_node_of_type(nodes_v.take(i + 1), ty@));
                }
            }
        }
    }
    proof {
        assert(nodes_v.take(nn as int) =~= nodes_v);
    }
    found
}

/// Compiles a graph for one explicit stage, running the four phases in
/// sequence.
fn compile_shader_with_stage(graph: &GraphDescription, stage: ShaderStage) -> (r: Result<
    String,
    CompileError,
>)
    ensures
        ({
            let m = compile_model(graph@, stage);
            match r {
                Ok(t) => m == Ok::<Seq<char>, ErrorSpec>(t@),
                Err(e) => m == Err::<Seq<char>, ErrorSpec>(e@),
            }
        }),
{
    // Phase 1: the node descriptor catalog.
    let metadata_provider = ShaderMetadataProvider::new();
    // Phase 2: data-flow analysis over (graph, catalog).
    let data_resolver = DataResolver::build(graph, &metadata_provider);
    // Phase 3: execution-routing analysis over the graph.
    let exec_routing = ExecutionRouting::build_from_graph(graph);
    // Phase 4: code generation over the three artifacts.
    let code_generator = WGSLCodeGenerator::new(
        graph,
        &metadata_provider,
        &data_resolver,
        &exec_routing,
        stage,
    );
    code_generator.generate_shader()
}

/// Compiles a vertex shader.
pub fn compile_vertex_shader(graph: &GraphDescription) -> (r: Result<String, CompileError>)
    ensures
        ({
            let m = compile_model(graph@, ShaderStage::Vertex);
            match r {
                Ok(t) => m == Ok::<Seq<char>, ErrorSpec>(t@),
                Err(e) => m == Err::<Seq<char>, ErrorSpec>(e@),
            }
        }),
{
    compile_shader_with_stage(graph, ShaderStage::Vertex)
}

/// Compiles a fragment shader.
pub fn compile_fragment_shader(graph: &GraphDescription) -> (r: Result<String, CompileError>)
    ensures
        ({
            let m = compile_model(graph@, ShaderStage::Fragment);
            match r {
                Ok(t) => m == Ok::<Seq<char>, ErrorSpec>(t@),
                Err(e) => m == Err::<Seq<char>, ErrorSpec>(e@),
            }
        }),
{
    compile_shader_with_stage(graph, ShaderStage::Fragment)
}

/// Compiles a shader, detecting the stage from the graph's entry nodes:
/// fragment wins over vertex, and a graph with neither fails with
/// `NoEntryPoint`.
pub fn compile_shader(graph: &GraphDescription) -> (r: Result<String, CompileError>)
    ensures
        ({
            let m = compile_auto_model(graph@);
            match r {
                Ok(t) => m == Ok::<Seq<char>, ErrorSpec>(t@),
                Err(e) => m == Err::<Seq<char>, ErrorSpec>(e@),
            }
        }),
{
    let has_vertex = has_node_named(graph, "vertex_main");
    let has_fragment = has_node_named(graph, "fragment_main");
    if has_fragment {
        compile_fragment_shader(graph)
    } else if has_vertex {
        compile_vertex_shader(graph)
    } else {
        Err(CompileError::NoEntryPoint)
    }
}

} // verus!
