//! Shader compilation tests over sample graphs.

use psgc::Connection;
use psgc::ConnectionType;
use psgc::DataType;
use psgc::GraphDescription;
use psgc::NodeInstance;
use psgc::Pin;
use psgc::PinInstance;
use psgc::PinType;
use psgc::Position;
use psgc::PropertyValue;
use psgc::ShaderMetadataProvider;
use psgc::TypeInfo;
use psgc::compile_fragment_shader;

/// Loads all shader nodes from the catalog.
#[test]
fn test_load_shader_nodes() {
    println!("\n=== Loading WGSL Shader Nodes ===\n");

    let metadata_provider = ShaderMetadataProvider::new();
    let nodes = metadata_provider.get_all_nodes();

    println!("Loaded {} shader nodes", nodes.len());

    for category in &["Math", "Vector", "Color", "Texture", "Input", "Output"] {
        let category_nodes = metadata_provider.get_nodes_by_category(category);
        if !category_nodes.is_empty() {
            println!(
                "  - {} ({} nodes): {}",
                category,
                category_nodes.len(),
                category_nodes
                    .iter()
                    .take(5)
                    .map(|n| n.name.as_str())
                    .collect::<Vec<_>>()
                    .join(", ")
            );
        }
    }

    assert!(nodes.len() > 30, "Should load many shader nodes");
    println!("\n=== Successfully loaded all shader nodes ===");
}

/// Compiles a simple math shader graph:
/// frag_uv -> multiply(x 6.28 constant) -> sin -> rgba -> fragment_output.
#[test]
fn test_compile_math_shader() {
    println!("\n=== Compiling Math Shader ===\n");

    let mut graph = GraphDescription::new("math_shader");

    // Node 1: fragment_main (entry point)
    let mut output = NodeInstance::new("output_1", "fragment_main", Position { x: 700, y: 200 });
    output.outputs.push(PinInstance::new(
        "output_1_Body",
        Pin::new("output_1_Body", "Body", DataType::Execution, PinType::Output),
    ));

    // Node 2: rgba color constructor
    let mut rgba = NodeInstance::new("rgba_1", "rgba", Position { x: 500, y: 200 });
    rgba.inputs.push(PinInstance::new(
        "rgba_1_r",
        Pin::new("rgba_1_r", "r", DataType::Typed(TypeInfo::new("f32")), PinType::Input),
    ));
    rgba.inputs.push(PinInstance::new(
        "rgba_1_g",
        Pin::new("rgba_1_g", "g", DataType::Typed(TypeInfo::new("f32")), PinType::Input),
    ));
    rgba.inputs.push(PinInstance::new(
        "rgba_1_b",
        Pin::new("rgba_1_b", "b", DataType::Typed(TypeInfo::new("f32")), PinType::Input),
    ));
    rgba.inputs.push(PinInstance::new(
        "rgba_1_a",
        Pin::new("rgba_1_a", "a", DataType::Typed(TypeInfo::new("f32")), PinType::Input),
    ));
    rgba.outputs.push(PinInstance::new(
        "rgba_1_result",
        Pin::new(
            "rgba_1_result",
            "result",
            DataType::Typed(TypeInfo::new("vec4<f32>")),
            PinType::Output,
        ),
    ));

    // Constant channel values.
    rgba.set_property("rgba_1_g", PropertyValue::Number("0.0".to_string()));
    rgba.set_property("rgba_1_b", PropertyValue::Number("0.0".to_string()));
    rgba.set_property("rgba_1_a", PropertyValue::Number("1.0".to_string()));

    // Node 3: sin
    let mut sin_node = NodeInstance::new("sin_1", "sin", Position { x: 350, y: 200 });
    sin_node.inputs.push(PinInstance::new(
        "sin_1_x",
        Pin::new("sin_1_x", "x", DataType::Typed(TypeInfo::new("f32")), PinType::Input),
    ));
    sin_node.outputs.push(PinInstance::new(
        "sin_1_result",
        Pin::new("sin_1_result", "result", DataType::Typed(TypeInfo::new("f32")), PinType::Output),
    ));

    // Node 4: multiply
    let mut multiply = NodeInstance::new("multiply_1", "multiply", Position { x: 200, y: 200 });
    multiply.inputs.push(PinInstance::new(
        "multiply_1_a",
        Pin::new("multiply_1_a", "a", DataType::Typed(TypeInfo::new("f32")), PinType::Input),
    ));
    multiply.inputs.push(PinInstance::new(
        "multiply_1_b",
        Pin::new("multiply_1_b", "b", DataType::Typed(TypeInfo::new("f32")), PinType::Input),
    ));
    multiply.outputs.push(PinInstance::new(
        "multiply_1_result",
        Pin::new(
            "multiply_1_result",
            "result",
            DataType::Typed(TypeInfo::new("f32")),
            PinType::Output,
        ),
    ));

    // Constant multiplier.
    multiply.set_property("multiply_1_b", PropertyValue::Number("6.28".to_string()));

    // Node 5: frag_uv input
    let mut frag_uv = NodeInstance::new("uv_1", "frag_uv", Position { x: 50, y: 200 });
    frag_uv.outputs.push(PinInstance::new(
        "uv_1_result",
        Pin::new(
            "uv_1_result",
            "result",
            DataType::Typed(TypeInfo::new("vec2<f32>")),
            PinType::Output,
        ),
    ));

    graph.add_node(output);
    graph.add_node(rgba);
    graph.add_node(sin_node);
    graph.add_node(multiply);
    graph.add_node(frag_uv);

    // Data connections: frag_uv.x -> multiply -> sin -> rgba.r -> output
    graph.add_connection(Connection::new(
        "uv_1",
        "uv_1_result",
        "multiply_1",
        "multiply_1_a",
        ConnectionType::Data,
    ));
    graph.add_connection(Connection::new(
        "multiply_1",
        "multiply_1_result",
        "sin_1",
        "sin_1_x",
        ConnectionType::Data,
    ));
    graph.add_connection(Connection::new(
        "sin_1",
        "sin_1_result",
        "rgba_1",
        "rgba_1_r",
        ConnectionType::Data,
    ));

    println!(
        "Graph created with {} nodes and {} connections\n",
        graph.nodes.len(),
        graph.connections.len()
    );

    println!("=== Compiling Shader ===\n");
    match compile_fragment_shader(&graph) {
        Ok(wgsl_code) => {
            println!("=== Compilation Successful ===");
            println!("Generated {} bytes of WGSL code\n", wgsl_code.len());

            println!("=== Generated WGSL Code ===");
            println!("{}", wgsl_code);
            println!("=== End of Generated Code ===\n");

            assert!(
                wgsl_code.contains("@fragment") || wgsl_code.contains("fragment"),
                "Should have fragment shader marker"
            );
            // The catalog's value nodes are all Pure-kind, and no execution
            // edge leaves the entry here, so the body stays empty and the
            // function returns the fixed placeholder color rather than the
            // constructed one.
            assert!(wgsl_code.contains("return vec4<f32>(1.0, 0.0, 1.0, 1.0);"));
        }
        Err(e) => {
            panic!("Shader compilation failed: {}", e.message());
        }
    }

    println!("=== Test Passed: math shader compiled ===");
}
