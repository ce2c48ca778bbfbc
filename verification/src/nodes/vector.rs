//! Vector nodes: construction and vector operations.

use vstd::prelude::*;

use crate::metadata::MetaSpec;
use crate::metadata::NodeKind;
use crate::metadata::NodeMetadata;
use crate::metadata::ParamInfo;
use crate::metadata::ParamSpec;

verus! {

/// Descriptor of the `vec2` node: 2-component vector construction.
pub fn vec2_construct() -> (m: NodeMetadata)
    ensures
        m@ == vec2_construct_spec(),
{
    let m = NodeMetadata::new("vec2", NodeKind::Pure, "Vector")
        .with_params(vec![ParamInfo::new("x", "f32"), ParamInfo::new("y", "f32")])
        .with_return_type("vec2<f32>")
        .with_source("vec2(x, y)");
    proof {
        assert(m@ =~= vec2_construct_spec());
    }
    m
}

/// What `vec2_construct` returns.
pub open spec fn vec2_construct_spec() -> MetaSpec {
    MetaSpec {
        name: "vec2"@,
        kind: NodeKind::Pure,
        category: "Vector"@,
        params: seq![ParamSpec { name: "x"@, param_type: "f32"@ }, ParamSpec { name: "y"@, param_type: "f32"@ }],
        return_type: Some("vec2<f32>"@),
        exec_outputs: Seq::empty(),
        source: "vec2(x, y)"@,
    }
}

/// Descriptor of the `vec3` node: 3-component vector construction.
pub fn vec3_construct() -> (m: NodeMetadata)
    ensures
        m@ == vec3_construct_spec(),
{
    let m = NodeMetadata::new("vec3", NodeKind::Pure, "Vector")
        .with_params(vec![ParamInfo::new("x", "f32"), ParamInfo::new("y", "f32"), ParamInfo::new("z", "f32")])
        .with_return_type("vec3<f32>")
        .with_source("vec3(x, y, z)");
    proof {
        assert(m@ =~= vec3_construct_spec());
    }
    m
}

/// What `vec3_construct` returns.
pub open spec fn vec3_construct_spec() -> MetaSpec {
    MetaSpec {
        name: "vec3"@,
        kind: NodeKind::Pure,
        category: "Vector"@,
        params: seq![ParamSpec { name: "x"@, param_type: "f32"@ }, ParamSpec { name: "y"@, param_type: "f32"@ }, ParamSpec { name: "z"@, param_type: "f32"@ }],
        return_type: Some("vec3<f32>"@),
        exec_outputs: Seq::empty(),
        source: "vec3(x, y, z)"@,
    }
}

/// Descriptor of the `vec4` node: 4-component vector construction.
pub fn vec4_construct() -> (m: NodeMetadata)
    ensures
        m@ == vec4_construct_spec(),
{
    let m = NodeMetadata::new("vec4", NodeKind::Pure, "Vector")
        .with_params(vec![ParamInfo::new("x", "f32"), ParamInfo::new("y", "f32"), ParamInfo::new("z", "f32"), ParamInfo::new("w", "f32")])
        .with_return_type("vec4<f32>")
        .with_source("vec4(x, y, z, w)");
    proof {
        assert(m@ =~= vec4_construct_spec());
    }
    m
}

/// What `vec4_construct` returns.
pub open spec fn vec4_construct_spec() -> MetaSpec {
    MetaSpec {
        name: "vec4"@,
        kind: NodeKind::Pure,
        category: "Vector"@,
        params: seq![ParamSpec { name: "x"@, param_type: "f32"@ }, ParamSpec { name: "y"@, param_type: "f32"@ }, ParamSpec { name: "z"@, param_type: "f32"@ }, ParamSpec { name: "w"@, param_type: "f32"@ }],
        return_type: Some("vec4<f32>"@),
        exec_outputs: Seq::empty(),
        source: "vec4(x, y, z, w)"@,
    }
}

/// Descriptor of the `normalize` node: vector normalization.
pub fn vec3_normalize() -> (m: NodeMetadata)
    ensures
        m@ == vec3_normalize_spec(),
{
    let m = NodeMetadata::new("normalize", NodeKind::Pure, "Vector")
        .with_params(vec![ParamInfo::new("v", "vec3<f32>")])
        .with_return_type("vec3<f32>")
        .with_source("normalize(v)");
    proof {
        assert(m@ =~= vec3_normalize_spec());
    }
    m
}

/// What `vec3_normalize` returns.
pub open spec fn vec3_normalize_spec() -> MetaSpec {
    MetaSpec {
        name: "normalize"@,
        kind: NodeKind::Pure,
        category: "Vector"@,
        params: seq![ParamSpec { name: "v"@, param_type: "vec3<f32>"@ }],
        return_type: Some("vec3<f32>"@),
        exec_outputs: Seq::empty(),
        source: "normalize(v)"@,
    }
}

/// Descriptor of the `dot` node: dot product.
pub fn vec3_dot() -> (m: NodeMetadata)
    ensures
        m@ == vec3_dot_spec(),
{
    let m = NodeMetadata::new("dot", NodeKind::Pure, "Vector")
        .with_params(vec![ParamInfo::new("a", "vec3<f32>"), ParamInfo::new("b", "vec3<f32>")])
        .with_return_type("f32")
        .with_source("dot(a, b)");
    proof {
        assert(m@ =~= vec3_dot_spec());
    }
    m
}

/// What `vec3_dot` returns.
pub open spec fn vec3_dot_spec() -> MetaSpec {
    MetaSpec {
        name: "dot"@,
        kind: NodeKind::Pure,
        category: "Vector"@,
        params: seq![ParamSpec { name: "a"@, param_type: "vec3<f32>"@ }, ParamSpec { name: "b"@, param_type: "vec3<f32>"@ }],
        return_type: Some("f32"@),
        exec_outputs: Seq::empty(),
        source: "dot(a, b)"@,
    }
}

/// Descriptor of the `cross` node: cross product.
pub fn vec3_cross() -> (m: NodeMetadata)
    ensures
        m@ == vec3_cross_spec(),
{
    let m = NodeMetadata::new("cross", NodeKind::Pure, "Vector")
        .with_params(vec![ParamInfo::new("a", "vec3<f32>"), ParamInfo::new("b", "vec3<f32>")])
        .with_return_type("vec3<f32>")
        .with_source("cross(a, b)");
    proof {
        assert(m@ =~= vec3_cross_spec());
    }
    m
}

/// What `vec3_cross` returns.
pub open spec fn vec3_cross_spec() -> MetaSpec {
    MetaSpec {
        name: "cross"@,
        kind: NodeKind::Pure,
        category: "Vector"@,
        params: seq![ParamSpec { name: "a"@, param_type: "vec3<f32>"@ }, ParamSpec { name: "b"@, param_type: "vec3<f32>"@ }],
        return_type: Some("vec3<f32>"@),
        exec_outputs: Seq::empty(),
        source: "cross(a, b)"@,
    }
}

/// Descriptor of the `length` node: vector length.
pub fn vec3_length() -> (m: NodeMetadata)
    ensures
        m@ == vec3_length_spec(),
{
    let m = NodeMetadata::new("length", NodeKind::Pure, "Vector")
        .with_params(vec![ParamInfo::new("v", "vec3<f32>")])
        .with_return_type("f32")
        .with_source("length(v)");
    proof {
        assert(m@ =~= vec3_length_spec());
    }
    m
}

/// What `vec3_length` returns.
pub open spec fn vec3_length_spec() -> MetaSpec {
    MetaSpec {
        name: "length"@,
        kind: NodeKind::Pure,
        category: "Vector"@,
        params: seq![ParamSpec { name: "v"@, param_type: "vec3<f32>"@ }],
        return_type: Some("f32"@),
        exec_outputs: Seq::empty(),
        source: "length(v)"@,
    }
}

/// Descriptor of the `distance` node: distance between two points.
pub fn vec3_distance() -> (m: NodeMetadata)
    ensures
        m@ == vec3_distance_spec(),
{
    let m = NodeMetadata::new("distance", NodeKind::Pure, "Vector")
        .with_params(vec![ParamInfo::new("a", "vec3<f32>"), ParamInfo::new("b", "vec3<f32>")])
        .with_return_type("f32")
        .with_source("distance(a, b)");
    proof {
        assert(m@ =~= vec3_distance_spec());
    }
    m
}

/// What `vec3_distance` returns.
pub open spec fn vec3_distance_spec() -> MetaSpec {
    MetaSpec {
        name: "distance"@,
        kind: NodeKind::Pure,
        category: "Vector"@,
        params: seq![ParamSpec { name: "a"@, param_type: "vec3<f32>"@ }, ParamSpec { name: "b"@, param_type: "vec3<f32>"@ }],
        return_type: Some("f32"@),
        exec_outputs: Seq::empty(),
        source: "distance(a, b)"@,
    }
}

/// Descriptor of the `vec3_split` node: component access.
pub fn vec3_split() -> (m: NodeMetadata)
    ensures
        m@ == vec3_split_spec(),
{
    let m = NodeMetadata::new("vec3_split", NodeKind::Pure, "Vector")
        .with_params(vec![ParamInfo::new("v", "vec3<f32>")])
        .with_return_type("vec3<f32>")
        .with_source("v");
    proof {
        assert(m@ =~= vec3_split_spec());
    }
    m
}

/// What `vec3_split` returns.
pub open spec fn vec3_split_spec() -> MetaSpec {
    MetaSpec {
        name: "vec3_split"@,
        kind: NodeKind::Pure,
        category: "Vector"@,
        params: seq![ParamSpec { name: "v"@, param_type: "vec3<f32>"@ }],
        return_type: Some("vec3<f32>"@),
        exec_outputs: Seq::empty(),
        source: "v"@,
    }
}

} // verus!
