//! Input nodes: stage inputs such as positions, normals and texture coordinates.

use vstd::prelude::*;

use crate::metadata::MetaSpec;
use crate::metadata::NodeKind;
use crate::metadata::NodeMetadata;
use crate::metadata::ParamSpec;

verus! {

/// Descriptor of the `vertex_position` node: the vertex position input.
pub fn vertex_position() -> (m: NodeMetadata)
    ensures
        m@ == vertex_position_spec(),
{
    let m = NodeMetadata::new("vertex_position", NodeKind::Pure, "Input")
        .with_return_type("vec3<f32>")
        .with_source("vertex_position");
    proof {
        assert(m@ =~= vertex_position_spec());
    }
    m
}

/// What `vertex_position` returns.
pub open spec fn vertex_position_spec() -> MetaSpec {
    MetaSpec {
        name: "vertex_position"@,
        kind: NodeKind::Pure,
        category: "Input"@,
        params: Seq::empty(),
        return_type: Some("vec3<f32>"@),
        exec_outputs: Seq::empty(),
        source: "vertex_position"@,
    }
}

/// Descriptor of the `vertex_normal` node: the vertex normal input.
pub fn vertex_normal() -> (m: NodeMetadata)
    ensures
        m@ == vertex_normal_spec(),
{
    let m = NodeMetadata::new("vertex_normal", NodeKind::Pure, "Input")
        .with_return_type("vec3<f32>")
        .with_source("vertex_normal");
    proof {
        assert(m@ =~= vertex_normal_spec());
    }
    m
}

/// What `vertex_normal` returns.
pub open spec fn vertex_normal_spec() -> MetaSpec {
    MetaSpec {
        name: "vertex_normal"@,
        kind: NodeKind::Pure,
        category: "Input"@,
        params: Seq::empty(),
        return_type: Some("vec3<f32>"@),
        exec_outputs: Seq::empty(),
        source: "vertex_normal"@,
    }
}

/// Descriptor of the `vertex_uv` node: the vertex texture-coordinate input.
pub fn vertex_uv() -> (m: NodeMetadata)
    ensures
        m@ == vertex_uv_spec(),
{
    let m = NodeMetadata::new("vertex_uv", NodeKind::Pure, "Input")
        .with_return_type("vec2<f32>")
        .with_source("vertex_uv");
    proof {
        assert(m@ =~= vertex_uv_spec());
    }
    m
}

/// What `vertex_uv` returns.
pub open spec fn vertex_uv_spec() -> MetaSpec {
    MetaSpec {
        name: "vertex_uv"@,
        kind: NodeKind::Pure,
        category: "Input"@,
        params: Seq::empty(),
        return_type: Some("vec2<f32>"@),
        exec_outputs: Seq::empty(),
        source: "vertex_uv"@,
    }
}

/// Descriptor of the `vertex_color` node: the vertex color input.
pub fn vertex_color() -> (m: NodeMetadata)
    ensures
        m@ == vertex_color_spec(),
{
    let m = NodeMetadata::new("vertex_color", NodeKind::Pure, "Input")
        .with_return_type("vec4<f32>")
        .with_source("vertex_color");
    proof {
        assert(m@ =~= vertex_color_spec());
    }
    m
}

/// What `vertex_color` returns.
pub open spec fn vertex_color_spec() -> MetaSpec {
    MetaSpec {
        name: "vertex_color"@,
        kind: NodeKind::Pure,
        category: "Input"@,
        params: Seq::empty(),
        return_type: Some("vec4<f32>"@),
        exec_outputs: Seq::empty(),
        source: "vertex_color"@,
    }
}

/// Descriptor of the `frag_position` node: the fragment position input.
pub fn frag_position() -> (m: NodeMetadata)
    ensures
        m@ == frag_position_spec(),
{
    let m = NodeMetadata::new("frag_position", NodeKind::Pure, "Input")
        .with_return_type("vec4<f32>")
        .with_source("frag_position");
    proof {
        assert(m@ =~= frag_position_spec());
    }
    m
}

/// What `frag_position` returns.
pub open spec fn frag_position_spec() -> MetaSpec {
    MetaSpec {
        name: "frag_position"@,
        kind: NodeKind::Pure,
        category: "Input"@,
        params: Seq::empty(),
        return_type: Some("vec4<f32>"@),
        exec_outputs: Seq::empty(),
        source: "frag_position"@,
    }
}

/// Descriptor of the `frag_uv` node: the fragment texture-coordinate input.
pub fn frag_uv() -> (m: NodeMetadata)
    ensures
        m@ == frag_uv_spec(),
{
    let m = NodeMetadata::new("frag_uv", NodeKind::Pure, "Input")
        .with_return_type("vec2<f32>")
        .with_source("frag_uv");
    proof {
        assert(m@ =~= frag_uv_spec());
    }
    m
}

/// What `frag_uv` returns.
pub open spec fn frag_uv_spec() -> MetaSpec {
    MetaSpec {
        name: "frag_uv"@,
        kind: NodeKind::Pure,
        category: "Input"@,
        params: Seq::empty(),
        return_type: Some("vec2<f32>"@),
        exec_outputs: Seq::empty(),
        source: "frag_uv"@,
    }
}

/// Descriptor of the `frag_normal` node: the fragment normal input.
pub fn frag_normal() -> (m: NodeMetadata)
    ensures
        m@ == frag_normal_spec(),
{
    let m = NodeMetadata::new("frag_normal", NodeKind::Pure, "Input")
        .with_return_type("vec3<f32>")
        .with_source("frag_normal");
    proof {
        assert(m@ =~= frag_normal_spec());
    }
    m
}

/// What `frag_normal` returns.
pub open spec fn frag_normal_spec() -> MetaSpec {
    MetaSpec {
        name: "frag_normal"@,
        kind: NodeKind::Pure,
        category: "Input"@,
        params: Seq::empty(),
        return_type: Some("vec3<f32>"@),
        exec_outputs: Seq::empty(),
        source: "frag_normal"@,
    }
}

} // verus!
