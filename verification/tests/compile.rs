//! Facade-level tests: stage auto-detection, entry-point errors, fixed
//! headers and placeholder returns, and independence of separate compiles.

use psgc::CompileError;
use psgc::DataType;
use psgc::GraphDescription;
use psgc::NodeInstance;
use psgc::Pin;
use psgc::PinInstance;
use psgc::PinType;
use psgc::Position;
use psgc::compile_fragment_shader;
use psgc::compile_shader;
use psgc::compile_vertex_shader;

fn entry(id: &str, ty: &str) -> NodeInstance {
    let mut n = NodeInstance::new(id, ty, Position { x: 0, y: 0 });
    let body_id = format!("{}_Body", id);
    n.outputs.push(PinInstance::new(
        &body_id,
        Pin::new(&body_id, "Body", DataType::Execution, PinType::Output),
    ));
    n
}

/// A graph with no node of the requested entry type fails with
/// `EntryPointNotFound`.
#[test]
fn test_entry_point_not_found() {
    let mut graph = GraphDescription::new("no_fragment");
    graph.add_node(entry("v_1", "vertex_main"));
    match compile_fragment_shader(&graph) {
        Err(CompileError::EntryPointNotFound) => {}
        other => panic!("expected EntryPointNotFound, got {:?}", other),
    }
    let empty = GraphDescription::new("empty");
    match compile_vertex_shader(&empty) {
        Err(CompileError::EntryPointNotFound) => {}
        other => panic!("expected EntryPointNotFound, got {:?}", other),
    }
}

/// Auto-detection on a graph with neither entry kind fails with
/// `NoEntryPoint`.
#[test]
fn test_no_entry_point_auto() {
    let graph = GraphDescription::new("empty");
    match compile_shader(&graph) {
        Err(CompileError::NoEntryPoint) => {}
        other => panic!("expected NoEntryPoint, got {:?}", other),
    }
    let e = CompileError::NoEntryPoint;
    assert_eq!(e.message(), "no shader entry point found (vertex_main or fragment_main)");
}

/// Auto-detection prefers a fragment entry over a vertex entry.
#[test]
fn test_auto_detect_prefers_fragment() {
    let mut graph = GraphDescription::new("both");
    graph.add_node(entry("v_1", "vertex_main"));
    graph.add_node(entry("f_1", "fragment_main"));
    let wgsl = compile_shader(&graph).expect("compilation should succeed");
    assert!(wgsl.contains("@fragment"));
    assert!(!wgsl.contains("@vertex"));

    let mut vertex_only = GraphDescription::new("vertex_only");
    vertex_only.add_node(entry("v_1", "vertex_main"));
    let wgsl_v = compile_shader(&vertex_only).expect("compilation should succeed");
    assert!(wgsl_v.contains("@vertex"));
}

/// The vertex stage emits its fixed header and placeholder return.
#[test]
fn test_vertex_header_and_placeholder() {
    let mut graph = GraphDescription::new("vertex");
    graph.add_node(entry("v_1", "vertex_main"));
    let wgsl = compile_vertex_shader(&graph).expect("compilation should succeed");
    assert!(wgsl.starts_with("// Auto-generated WGSL shader from Pulsar Shader Graph\n"));
    assert!(wgsl.contains("@vertex\nfn vertex_main(\n"));
    assert!(wgsl.contains("@builtin(vertex_index) vertex_index: u32"));
    assert!(wgsl.contains("return vec4<f32>(0.0, 0.0, 0.0, 1.0);"));
}

/// Two entry nodes of the same stage each produce one function, in graph
/// order.
#[test]
fn test_two_entry_nodes() {
    let mut graph = GraphDescription::new("two_entries");
    graph.add_node(entry("f_1", "fragment_main"));
    graph.add_node(entry("f_2", "fragment_main"));
    let wgsl = compile_fragment_shader(&graph).expect("compilation should succeed");
    assert_eq!(wgsl.matches("@fragment").count(), 2);
}

/// Compiles of distinct graphs are independent: interleaving them changes
/// nothing, and repeating one reproduces its output exactly.
#[test]
fn test_compiles_are_independent() {
    let mut g1 = GraphDescription::new("first");
    g1.add_node(entry("f_1", "fragment_main"));
    let mut g2 = GraphDescription::new("second");
    g2.add_node(entry("v_1", "vertex_main"));

    let a1 = compile_shader(&g1).expect("first compile should succeed");
    let b1 = compile_shader(&g2).expect("second compile should succeed");
    let a2 = compile_shader(&g1).expect("repeat compile should succeed");
    let b2 = compile_shader(&g2).expect("repeat compile should succeed");

    assert_eq!(a1, a2);
    assert_eq!(b1, b2);
    assert!(a1.contains("@fragment"));
    assert!(b1.contains("@vertex"));
}
