//! Catalog tests: content, lookup, category filtering and error messages.

use psgc::CompileError;
use psgc::NodeKind;
use psgc::ShaderMetadataProvider;
use psgc::get_shader_nodes;

/// The catalog holds every descriptor exactly once, in a fixed order.
#[test]
fn test_catalog_size_and_categories() {
    let nodes = get_shader_nodes();
    assert_eq!(nodes.len(), 43);

    let provider = ShaderMetadataProvider::new();
    assert_eq!(provider.get_nodes_by_category("Math").len(), 14);
    assert_eq!(provider.get_nodes_by_category("Vector").len(), 9);
    assert_eq!(provider.get_nodes_by_category("Color").len(), 6);
    assert_eq!(provider.get_nodes_by_category("Texture").len(), 3);
    assert_eq!(provider.get_nodes_by_category("Input").len(), 7);
    assert_eq!(provider.get_nodes_by_category("Entry").len(), 2);
    assert_eq!(provider.get_nodes_by_category("Output").len(), 2);
    assert_eq!(provider.get_nodes_by_category("Unknown").len(), 0);
}

/// Lookup returns the full descriptor of a known type, and nothing for an
/// unknown one.
#[test]
fn test_lookup_descriptor() {
    let provider = ShaderMetadataProvider::new();

    let multiply = provider.get_node_metadata("multiply").expect("multiply should exist");
    assert_eq!(multiply.name, "multiply");
    assert_eq!(multiply.kind, NodeKind::Pure);
    assert_eq!(multiply.category, "Math");
    assert_eq!(multiply.params.len(), 2);
    assert_eq!(multiply.params[0].name, "a");
    assert_eq!(multiply.params[0].param_type, "f32");
    assert_eq!(multiply.params[1].name, "b");
    assert_eq!(multiply.return_type.as_ref().expect("has return type").name, "f32");
    assert_eq!(multiply.source, "a * b");
    assert!(multiply.exec_outputs.is_empty());

    let fragment_main = provider.get_node_metadata("fragment_main").expect("entry should exist");
    assert_eq!(fragment_main.kind, NodeKind::Event);
    assert_eq!(fragment_main.exec_outputs, vec!["Body".to_string()]);
    assert!(fragment_main.return_type.is_none());

    let desaturate = provider.get_node_metadata("desaturate").expect("desaturate should exist");
    assert_eq!(
        desaturate.source,
        "mix(color, vec3(dot(color, vec3(0.299, 0.587, 0.114))), amount)"
    );

    assert!(provider.get_node_metadata("does_not_exist").is_none());
}

/// Vector nodes are registered under their canonical operation names.
#[test]
fn test_vector_node_names() {
    let provider = ShaderMetadataProvider::new();
    for name in ["vec2", "vec3", "vec4", "normalize", "dot", "cross", "length", "distance"] {
        assert!(provider.get_node_metadata(name).is_some(), "missing vector node {}", name);
    }
    let dot = provider.get_node_metadata("dot").expect("dot should exist");
    assert_eq!(dot.return_type.as_ref().expect("has return type").name, "f32");
    assert_eq!(dot.params[0].param_type, "vec3<f32>");
}

/// Error messages carry the offending name.
#[test]
fn test_error_messages() {
    assert_eq!(
        CompileError::NodeTypeNotFound("mystery".to_string()).message(),
        "node type not found: mystery"
    );
    assert_eq!(
        CompileError::MissingResultVariable("n1".to_string()).message(),
        "no result variable for node: n1"
    );
    assert_eq!(
        CompileError::UnboundInput("n1".to_string(), "a".to_string()).message(),
        "no data source for input: n1.a"
    );
    assert_eq!(
        CompileError::CyclicPureExpression("p1".to_string()).message(),
        "cyclic pure expression at node: p1"
    );
    assert_eq!(
        CompileError::EntryPointNotFound.message(),
        "no entry point of the requested stage in graph"
    );
    assert_eq!(CompileError::Other("boom".to_string()).message(), "boom");
}
