//! Generator-level tests with a catalog of Function-kind nodes, which
//! exercise binding statements, pure-expression inlining, constants,
//! defaults, per-branch deduplication and every error variant.

use psgc::CompileError;
use psgc::Connection;
use psgc::ConnectionType;
use psgc::DataResolver;
use psgc::DataType;
use psgc::ExecutionRouting;
use psgc::GraphDescription;
use psgc::NodeInstance;
use psgc::NodeKind;
use psgc::NodeMetadata;
use psgc::ParamInfo;
use psgc::Pin;
use psgc::PinInstance;
use psgc::PinType;
use psgc::Position;
use psgc::PropertyValue;
use psgc::ShaderMetadataProvider;
use psgc::ShaderStage;
use psgc::TypeInfo;
use psgc::WGSLCodeGenerator;

fn pin(id: &str, name: &str, ty: &str, pt: PinType) -> PinInstance {
    PinInstance::new(id, Pin::new(id, name, DataType::Typed(TypeInfo::new(ty)), pt))
}

fn exec_pin(id: &str, name: &str, pt: PinType) -> PinInstance {
    PinInstance::new(id, Pin::new(id, name, DataType::Execution, pt))
}

/// A catalog where the math nodes are Function-kind, so they emit binding
/// statements and chain along execution edges.
fn function_catalog() -> ShaderMetadataProvider {
    let mut nodes = Vec::new();
    nodes.push(
        NodeMetadata::new("fragment_main", NodeKind::Event, "Entry")
            .with_exec_outputs(vec!["Body".to_string()]),
    );
    nodes.push(
        NodeMetadata::new("frag_uv", NodeKind::Pure, "Input").with_return_type("vec2<f32>"),
    );
    nodes.push(
        NodeMetadata::new("multiply", NodeKind::Function, "Math")
            .with_params(vec![ParamInfo::new("a", "f32"), ParamInfo::new("b", "f32")])
            .with_return_type("f32")
            .with_exec_outputs(vec!["then".to_string()]),
    );
    nodes.push(
        NodeMetadata::new("sin", NodeKind::Function, "Math")
            .with_params(vec![ParamInfo::new("x", "f32")])
            .with_return_type("f32")
            .with_exec_outputs(vec!["then".to_string()]),
    );
    nodes.push(
        NodeMetadata::new("rgba", NodeKind::Function, "Color")
            .with_params(vec![
                ParamInfo::new("r", "f32"),
                ParamInfo::new("g", "f32"),
                ParamInfo::new("b", "f32"),
                ParamInfo::new("a", "f32"),
            ])
            .with_return_type("vec4<f32>"),
    );
    nodes.push(
        NodeMetadata::new("emit", NodeKind::Function, "Debug")
            .with_params(vec![ParamInfo::new("value", "f32")])
            .with_exec_outputs(vec!["then".to_string()]),
    );
    nodes.push(
        NodeMetadata::new("branch", NodeKind::ControlFlow, "Flow")
            .with_exec_outputs(vec!["then".to_string()]),
    );
    nodes.push(
        NodeMetadata::new("vec3", NodeKind::Function, "Vector")
            .with_params(vec![
                ParamInfo::new("x", "f32"),
                ParamInfo::new("y", "f32"),
                ParamInfo::new("z", "f32"),
            ])
            .with_return_type("vec3<f32>")
            .with_exec_outputs(vec!["then".to_string()]),
    );
    ShaderMetadataProvider { nodes }
}

fn entry_node(id: &str) -> NodeInstance {
    let mut n = NodeInstance::new(id, "fragment_main", Position { x: 0, y: 0 });
    let body_id = format!("{}_Body", id);
    n.outputs.push(exec_pin(&body_id, "Body", PinType::Output));
    n
}

fn exec_edge(from: &str, from_pin: &str, to: &str) -> Connection {
    Connection::new(from, from_pin, to, "", ConnectionType::Execution)
}

fn compile_with(provider: &ShaderMetadataProvider, graph: &GraphDescription) -> Result<String, CompileError> {
    let data_resolver = DataResolver::build(graph, provider);
    let exec_routing = ExecutionRouting::build_from_graph(graph);
    let generator =
        WGSLCodeGenerator::new(graph, provider, &data_resolver, &exec_routing, ShaderStage::Fragment);
    generator.generate_shader()
}

/// The math-shader chain with Function-kind nodes: every node with a return
/// type gets exactly one binding statement whose left-hand name is the
/// resolver's result variable, pure inputs are inlined, and constants are
/// spliced verbatim.
#[test]
fn test_function_chain_bindings() {
    let provider = function_catalog();
    let mut graph = GraphDescription::new("math_chain");

    graph.add_node(entry_node("output_1"));

    let mut uv = NodeInstance::new("uv_1", "frag_uv", Position { x: 0, y: 0 });
    uv.outputs.push(pin("uv_1_result", "result", "vec2<f32>", PinType::Output));
    graph.add_node(uv);

    let mut multiply = NodeInstance::new("multiply_1", "multiply", Position { x: 0, y: 0 });
    multiply.inputs.push(pin("multiply_1_a", "a", "f32", PinType::Input));
    multiply.inputs.push(pin("multiply_1_b", "b", "f32", PinType::Input));
    multiply.outputs.push(pin("multiply_1_result", "result", "f32", PinType::Output));
    multiply.outputs.push(exec_pin("multiply_1_then", "then", PinType::Output));
    multiply.set_property("multiply_1_b", PropertyValue::Number("6.28".to_string()));
    graph.add_node(multiply);

    let mut sin_node = NodeInstance::new("sin_1", "sin", Position { x: 0, y: 0 });
    sin_node.inputs.push(pin("sin_1_x", "x", "f32", PinType::Input));
    sin_node.outputs.push(pin("sin_1_result", "result", "f32", PinType::Output));
    sin_node.outputs.push(exec_pin("sin_1_then", "then", PinType::Output));
    graph.add_node(sin_node);

    let mut rgba = NodeInstance::new("rgba_1", "rgba", Position { x: 0, y: 0 });
    rgba.inputs.push(pin("rgba_1_r", "r", "f32", PinType::Input));
    rgba.inputs.push(pin("rgba_1_g", "g", "f32", PinType::Input));
    rgba.inputs.push(pin("rgba_1_b", "b", "f32", PinType::Input));
    rgba.inputs.push(pin("rgba_1_a", "a", "f32", PinType::Input));
    rgba.outputs.push(pin("rgba_1_result", "result", "vec4<f32>", PinType::Output));
    rgba.set_property("rgba_1_g", PropertyValue::Number("0.0".to_string()));
    rgba.set_property("rgba_1_b", PropertyValue::Number("0.0".to_string()));
    rgba.set_property("rgba_1_a", PropertyValue::Number("1.0".to_string()));
    graph.add_node(rgba);

    // Execution order: entry -> multiply -> sin -> rgba.
    graph.add_connection(exec_edge("output_1", "output_1_Body", "multiply_1"));
    graph.add_connection(exec_edge("multiply_1", "multiply_1_then", "sin_1"));
    graph.add_connection(exec_edge("sin_1", "sin_1_then", "rgba_1"));

    // Data flow: frag_uv -> multiply.a; multiply -> sin.x; sin -> rgba.r.
    graph.add_connection(Connection::new(
        "uv_1",
        "uv_1_result",
        "multiply_1",
        "multiply_1_a",
        ConnectionType::Data,
    ));
    graph.add_connection(Connection::new(
        "multiply_1",
        "multiply_1_result",
        "sin_1",
        "sin_1_x",
        ConnectionType::Data,
    ));
    graph.add_connection(Connection::new(
        "sin_1",
        "sin_1_result",
        "rgba_1",
        "rgba_1_r",
        ConnectionType::Data,
    ));

    let wgsl = compile_with(&provider, &graph).expect("compilation should succeed");
    println!("{}", wgsl);

    assert!(wgsl.contains("@fragment"));
    // The pure frag_uv source is inlined; the constant is spliced verbatim.
    assert!(wgsl.contains("    let multiply_1_result = multiply(frag_uv(), 6.28);\n"));
    // A non-pure source is referenced through its result variable.
    assert!(wgsl.contains("    let sin_1_result = sin(multiply_1_result);\n"));
    assert!(wgsl.contains("    let rgba_1_result = rgba(sin_1_result, 0.0, 0.0, 1.0);\n"));
    // Exactly one binding per node.
    assert_eq!(wgsl.matches("let multiply_1_result").count(), 1);
    assert_eq!(wgsl.matches("let sin_1_result").count(), 1);
    assert_eq!(wgsl.matches("let rgba_1_result").count(), 1);
    // The function still returns the fixed placeholder color.
    assert!(wgsl.contains("return vec4<f32>(1.0, 0.0, 1.0, 1.0);"));
}

/// A node reachable twice within one branch is emitted once; the same node
/// reachable from two independent top-level branches is emitted once per
/// branch.
#[test]
fn test_visited_dedup_per_branch() {
    let provider = function_catalog();

    // One branch, two execution edges to the same node.
    let mut graph = GraphDescription::new("diamond");
    graph.add_node(entry_node("output_1"));
    let mut first = NodeInstance::new("first_1", "emit", Position { x: 0, y: 0 });
    first.inputs.push(pin("first_1_value", "value", "f32", PinType::Input));
    first.outputs.push(exec_pin("first_1_then", "then", PinType::Output));
    graph.add_node(first);
    let mut shared = NodeInstance::new("shared_1", "sin", Position { x: 0, y: 0 });
    shared.inputs.push(pin("shared_1_x", "x", "f32", PinType::Input));
    shared.outputs.push(pin("shared_1_result", "result", "f32", PinType::Output));
    graph.add_node(shared);
    graph.add_connection(exec_edge("output_1", "output_1_Body", "first_1"));
    graph.add_connection(exec_edge("first_1", "first_1_then", "shared_1"));
    graph.add_connection(exec_edge("first_1", "first_1_then", "shared_1"));

    let wgsl = compile_with(&provider, &graph).expect("compilation should succeed");
    assert_eq!(wgsl.matches("let shared_1_result").count(), 1);

    // Two independent branches from the entry to the same node: one copy
    // per branch, since each branch starts a fresh visited set.
    let mut graph2 = GraphDescription::new("two_branches");
    graph2.add_node(entry_node("output_1"));
    let mut shared2 = NodeInstance::new("shared_1", "sin", Position { x: 0, y: 0 });
    shared2.inputs.push(pin("shared_1_x", "x", "f32", PinType::Input));
    shared2.outputs.push(pin("shared_1_result", "result", "f32", PinType::Output));
    shared2.set_property("shared_1_x", PropertyValue::Number("1.0".to_string()));
    graph2.add_node(shared2);
    graph2.add_connection(exec_edge("output_1", "output_1_Body", "shared_1"));
    graph2.add_connection(exec_edge("output_1", "output_1_Body", "shared_1"));

    let wgsl2 = compile_with(&provider, &graph2).expect("compilation should succeed");
    assert_eq!(wgsl2.matches("let shared_1_result").count(), 2);
}

/// An input pin with a declared pin but no connection or constant receives
/// the fixed default literal.
#[test]
fn test_default_input_literal() {
    let provider = function_catalog();
    let mut graph = GraphDescription::new("default_input");
    graph.add_node(entry_node("output_1"));
    let mut s = NodeInstance::new("sin_1", "sin", Position { x: 0, y: 0 });
    s.inputs.push(pin("sin_1_x", "x", "f32", PinType::Input));
    s.outputs.push(pin("sin_1_result", "result", "f32", PinType::Output));
    graph.add_node(s);
    graph.add_connection(exec_edge("output_1", "output_1_Body", "sin_1"));

    let wgsl = compile_with(&provider, &graph).expect("compilation should succeed");
    assert!(wgsl.contains("    let sin_1_result = sin(0.0);\n"));
}

/// A declared parameter with no pin at all resolves to no source: the
/// compile fails with `UnboundInput` for that node and pin, never a crash
/// or a silent empty string.
#[test]
fn test_unbound_input_error() {
    let provider = function_catalog();
    let mut graph = GraphDescription::new("unbound");
    graph.add_node(entry_node("output_1"));
    // The sin node declares parameter "x" in the catalog but carries no
    // input pin, so the resolver records no source for it.
    let mut s = NodeInstance::new("sin_1", "sin", Position { x: 0, y: 0 });
    s.outputs.push(pin("sin_1_result", "result", "f32", PinType::Output));
    graph.add_node(s);
    graph.add_connection(exec_edge("output_1", "output_1_Body", "sin_1"));

    match compile_with(&provider, &graph) {
        Err(CompileError::UnboundInput(node, p)) => {
            assert_eq!(node, "sin_1");
            assert_eq!(p, "x");
        }
        other => panic!("expected UnboundInput, got {:?}", other),
    }
}

/// A traversed node whose type the catalog lacks fails with
/// `NodeTypeNotFound` carrying that type name.
#[test]
fn test_node_type_not_found_error() {
    let provider = function_catalog();
    let mut graph = GraphDescription::new("mystery");
    graph.add_node(entry_node("output_1"));
    graph.add_node(NodeInstance::new("odd_1", "mystery", Position { x: 0, y: 0 }));
    graph.add_connection(exec_edge("output_1", "output_1_Body", "odd_1"));

    match compile_with(&provider, &graph) {
        Err(CompileError::NodeTypeNotFound(ty)) => assert_eq!(ty, "mystery"),
        other => panic!("expected NodeTypeNotFound, got {:?}", other),
    }
}

/// A data source whose node is Function-kind without a return type has no
/// result variable: referencing it fails with `MissingResultVariable`.
#[test]
fn test_missing_result_variable_error() {
    let provider = function_catalog();
    let mut graph = GraphDescription::new("missing_var");
    graph.add_node(entry_node("output_1"));
    // "emit" is Function-kind without a return type: no result variable.
    let mut e = NodeInstance::new("emit_1", "emit", Position { x: 0, y: 0 });
    e.inputs.push(pin("emit_1_value", "value", "f32", PinType::Input));
    e.outputs.push(pin("emit_1_out", "out", "f32", PinType::Output));
    e.set_property("emit_1_value", PropertyValue::Number("1.0".to_string()));
    graph.add_node(e);
    let mut s = NodeInstance::new("sin_1", "sin", Position { x: 0, y: 0 });
    s.inputs.push(pin("sin_1_x", "x", "f32", PinType::Input));
    s.outputs.push(pin("sin_1_result", "result", "f32", PinType::Output));
    graph.add_node(s);
    graph.add_connection(exec_edge("output_1", "output_1_Body", "sin_1"));
    graph.add_connection(Connection::new(
        "emit_1",
        "emit_1_out",
        "sin_1",
        "sin_1_x",
        ConnectionType::Data,
    ));

    match compile_with(&provider, &graph) {
        Err(CompileError::MissingResultVariable(node)) => assert_eq!(node, "emit_1"),
        other => panic!("expected MissingResultVariable, got {:?}", other),
    }
}

/// A cycle among pure nodes exhausts the inlining depth bound and fails
/// with `CyclicPureExpression` instead of recursing without bound.
#[test]
fn test_cyclic_pure_expression_error() {
    let mut nodes = Vec::new();
    nodes.push(
        NodeMetadata::new("fragment_main", NodeKind::Event, "Entry")
            .with_exec_outputs(vec!["Body".to_string()]),
    );
    nodes.push(
        NodeMetadata::new("passthrough", NodeKind::Pure, "Math")
            .with_params(vec![ParamInfo::new("x", "f32")])
            .with_return_type("f32"),
    );
    nodes.push(
        NodeMetadata::new("sink", NodeKind::Function, "Debug")
            .with_params(vec![ParamInfo::new("value", "f32")])
            .with_return_type("f32"),
    );
    let provider = ShaderMetadataProvider { nodes };

    let mut graph = GraphDescription::new("pure_cycle");
    graph.add_node(entry_node("output_1"));
    let mut p1 = NodeInstance::new("p1", "passthrough", Position { x: 0, y: 0 });
    p1.inputs.push(pin("p1_x", "x", "f32", PinType::Input));
    p1.outputs.push(pin("p1_result", "result", "f32", PinType::Output));
    graph.add_node(p1);
    let mut p2 = NodeInstance::new("p2", "passthrough", Position { x: 0, y: 0 });
    p2.inputs.push(pin("p2_x", "x", "f32", PinType::Input));
    p2.outputs.push(pin("p2_result", "result", "f32", PinType::Output));
    graph.add_node(p2);
    let mut sink = NodeInstance::new("sink_1", "sink", Position { x: 0, y: 0 });
    sink.inputs.push(pin("sink_1_value", "value", "f32", PinType::Input));
    sink.outputs.push(pin("sink_1_result", "result", "f32", PinType::Output));
    graph.add_node(sink);
    graph.add_connection(exec_edge("output_1", "output_1_Body", "sink_1"));
    // The two pure nodes feed each other; the sink consumes one of them.
    graph.add_connection(Connection::new("p2", "p2_result", "p1", "p1_x", ConnectionType::Data));
    graph.add_connection(Connection::new("p1", "p1_result", "p2", "p2_x", ConnectionType::Data));
    graph.add_connection(Connection::new(
        "p1",
        "p1_result",
        "sink_1",
        "sink_1_value",
        ConnectionType::Data,
    ));

    match compile_with(&provider, &graph) {
        Err(CompileError::CyclicPureExpression(_)) => {}
        other => panic!("expected CyclicPureExpression, got {:?}", other),
    }
}

/// The compute stage emits its own header and closes the function without
/// any placeholder return.
#[test]
fn test_compute_stage_header() {
    let mut nodes = Vec::new();
    nodes.push(
        NodeMetadata::new("compute_main", NodeKind::Event, "Entry")
            .with_exec_outputs(vec!["Body".to_string()]),
    );
    let provider = ShaderMetadataProvider { nodes };

    let mut graph = GraphDescription::new("compute");
    let mut n = NodeInstance::new("c_1", "compute_main", Position { x: 0, y: 0 });
    n.outputs.push(exec_pin("c_1_Body", "Body", PinType::Output));
    graph.add_node(n);

    let data_resolver = DataResolver::build(&graph, &provider);
    let exec_routing = ExecutionRouting::build_from_graph(&graph);
    let generator = WGSLCodeGenerator::new(
        &graph,
        &provider,
        &data_resolver,
        &exec_routing,
        ShaderStage::Compute,
    );
    let wgsl = generator.generate_shader().expect("compilation should succeed");
    assert!(wgsl.contains("@compute @workgroup_size(8, 8, 1)"));
    assert!(wgsl.contains("@builtin(global_invocation_id) global_id: vec3<u32>"));
    assert!(!wgsl.contains("return"));
}

/// Boolean and text constants are spliced as their literal text.
#[test]
fn test_property_literals() {
    let provider = function_catalog();
    let mut graph = GraphDescription::new("literals");
    graph.add_node(entry_node("output_1"));
    let mut e = NodeInstance::new("emit_1", "emit", Position { x: 0, y: 0 });
    e.inputs.push(pin("emit_1_value", "value", "f32", PinType::Input));
    e.set_property("emit_1_value", PropertyValue::Bool(true));
    // A later binding for the same pin wins.
    e.set_property("emit_1_value", PropertyValue::Text("uniforms.time".to_string()));
    graph.add_node(e);
    graph.add_connection(exec_edge("output_1", "output_1_Body", "emit_1"));

    let wgsl = compile_with(&provider, &graph).expect("compilation should succeed");
    assert!(wgsl.contains("    emit(uniforms.time);\n"));
}

/// The name-mapping table rewrites constructors and texture sampling; a
/// control-flow node emits only its placeholder line.
#[test]
fn test_name_mapping_and_control_flow() {
    let provider = function_catalog();
    let mut graph = GraphDescription::new("mapping");
    graph.add_node(entry_node("output_1"));
    let mut v = NodeInstance::new("v_1", "vec3", Position { x: 0, y: 0 });
    v.inputs.push(pin("v_1_x", "x", "f32", PinType::Input));
    v.inputs.push(pin("v_1_y", "y", "f32", PinType::Input));
    v.inputs.push(pin("v_1_z", "z", "f32", PinType::Input));
    v.outputs.push(pin("v_1_result", "result", "vec3<f32>", PinType::Output));
    v.outputs.push(exec_pin("v_1_then", "then", PinType::Output));
    v.set_property("v_1_x", PropertyValue::Number("1.0".to_string()));
    v.set_property("v_1_y", PropertyValue::Number("2.0".to_string()));
    v.set_property("v_1_z", PropertyValue::Number("3.0".to_string()));
    graph.add_node(v);
    let mut b = NodeInstance::new("branch_1", "branch", Position { x: 0, y: 0 });
    b.outputs.push(exec_pin("branch_1_then", "then", PinType::Output));
    graph.add_node(b);
    graph.add_connection(exec_edge("output_1", "output_1_Body", "v_1"));
    graph.add_connection(exec_edge("v_1", "v_1_then", "branch_1"));

    let wgsl = compile_with(&provider, &graph).expect("compilation should succeed");
    // "vec3" is rewritten with its element type annotation.
    assert!(wgsl.contains("    let v_1_result = vec3<f32>(1.0, 2.0, 3.0);\n"));
    // The control-flow node yields only the placeholder line.
    assert!(wgsl.contains("    // Control flow node\n"));
}
