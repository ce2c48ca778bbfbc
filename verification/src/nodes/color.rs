//! Color nodes: construction, blending and transformations.

use vstd::prelude::*;

use crate::metadata::MetaSpec;
use crate::metadata::NodeKind;
use crate::metadata::NodeMetadata;
use crate::metadata::ParamInfo;
use crate::metadata::ParamSpec;

verus! {

/// Descriptor of the `rgb` node: color construction from three channels.
pub fn rgb() -> (m: NodeMetadata)
    ensures
        m@ == rgb_spec(),
{
    let m = NodeMetadata::new("rgb", NodeKind::Pure, "Color")
        .with_params(vec![ParamInfo::new("r", "f32"), ParamInfo::new("g", "f32"), ParamInfo::new("b", "f32")])
        .with_return_type("vec3<f32>")
        .with_source("vec3(r, g, b)");
    proof {
        assert(m@ =~= rgb_spec());
    }
    m
}

/// What `rgb` returns.
pub open spec fn rgb_spec() -> MetaSpec {
    MetaSpec {
        name: "rgb"@,
        kind: NodeKind::Pure,
        category: "Color"@,
        params: seq![ParamSpec { name: "r"@, param_type: "f32"@ }, ParamSpec { name: "g"@, param_type: "f32"@ }, ParamSpec { name: "b"@, param_type: "f32"@ }],
        return_type: Some("vec3<f32>"@),
        exec_outputs: Seq::empty(),
        source: "vec3(r, g, b)"@,
    }
}

/// Descriptor of the `rgba` node: color construction from four channels.
pub fn rgba() -> (m: NodeMetadata)
    ensures
        m@ == rgba_spec(),
{
    let m = NodeMetadata::new("rgba", NodeKind::Pure, "Color")
        .with_params(vec![ParamInfo::new("r", "f32"), ParamInfo::new("g", "f32"), ParamInfo::new("b", "f32"), ParamInfo::new("a", "f32")])
        .with_return_type("vec4<f32>")
        .with_source("vec4(r, g, b, a)");
    proof {
        assert(m@ =~= rgba_spec());
    }
    m
}

/// What `rgba` returns.
pub open spec fn rgba_spec() -> MetaSpec {
    MetaSpec {
        name: "rgba"@,
        kind: NodeKind::Pure,
        category: "Color"@,
        params: seq![ParamSpec { name: "r"@, param_type: "f32"@ }, ParamSpec { name: "g"@, param_type: "f32"@ }, ParamSpec { name: "b"@, param_type: "f32"@ }, ParamSpec { name: "a"@, param_type: "f32"@ }],
        return_type: Some("vec4<f32>"@),
        exec_outputs: Seq::empty(),
        source: "vec4(r, g, b, a)"@,
    }
}

/// Descriptor of the `color_lerp` node: color interpolation.
pub fn color_lerp() -> (m: NodeMetadata)
    ensures
        m@ == color_lerp_spec(),
{
    let m = NodeMetadata::new("color_lerp", NodeKind::Pure, "Color")
        .with_params(vec![ParamInfo::new("a", "vec4<f32>"), ParamInfo::new("b", "vec4<f32>"), ParamInfo::new("t", "f32")])
        .with_return_type("vec4<f32>")
        .with_source("mix(a, b, t)");
    proof {
        assert(m@ =~= color_lerp_spec());
    }
    m
}

/// What `color_lerp` returns.
pub open spec fn color_lerp_spec() -> MetaSpec {
    MetaSpec {
        name: "color_lerp"@,
        kind: NodeKind::Pure,
        category: "Color"@,
        params: seq![ParamSpec { name: "a"@, param_type: "vec4<f32>"@ }, ParamSpec { name: "b"@, param_type: "vec4<f32>"@ }, ParamSpec { name: "t"@, param_type: "f32"@ }],
        return_type: Some("vec4<f32>"@),
        exec_outputs: Seq::empty(),
        source: "mix(a, b, t)"@,
    }
}

/// Descriptor of the `color_multiply` node: scaling a color by a factor.
pub fn color_multiply() -> (m: NodeMetadata)
    ensures
        m@ == color_multiply_spec(),
{
    let m = NodeMetadata::new("color_multiply", NodeKind::Pure, "Color")
        .with_params(vec![ParamInfo::new("color", "vec4<f32>"), ParamInfo::new("factor", "f32")])
        .with_return_type("vec4<f32>")
        .with_source("color * factor");
    proof {
        assert(m@ =~= color_multiply_spec());
    }
    m
}

/// What `color_multiply` returns.
pub open spec fn color_multiply_spec() -> MetaSpec {
    MetaSpec {
        name: "color_multiply"@,
        kind: NodeKind::Pure,
        category: "Color"@,
        params: seq![ParamSpec { name: "color"@, param_type: "vec4<f32>"@ }, ParamSpec { name: "factor"@, param_type: "f32"@ }],
        return_type: Some("vec4<f32>"@),
        exec_outputs: Seq::empty(),
        source: "color * factor"@,
    }
}

/// Descriptor of the `color_add` node: adding two colors.
pub fn color_add() -> (m: NodeMetadata)
    ensures
        m@ == color_add_spec(),
{
    let m = NodeMetadata::new("color_add", NodeKind::Pure, "Color")
        .with_params(vec![ParamInfo::new("a", "vec4<f32>"), ParamInfo::new("b", "vec4<f32>")])
        .with_return_type("vec4<f32>")
        .with_source("a + b");
    proof {
        assert(m@ =~= color_add_spec());
    }
    m
}

/// What `color_add` returns.
pub open spec fn color_add_spec() -> MetaSpec {
    MetaSpec {
        name: "color_add"@,
        kind: NodeKind::Pure,
        category: "Color"@,
        params: seq![ParamSpec { name: "a"@, param_type: "vec4<f32>"@ }, ParamSpec { name: "b"@, param_type: "vec4<f32>"@ }],
        return_type: Some("vec4<f32>"@),
        exec_outputs: Seq::empty(),
        source: "a + b"@,
    }
}

/// Descriptor of the `desaturate` node: desaturation towards luminance.
pub fn desaturate() -> (m: NodeMetadata)
    ensures
        m@ == desaturate_spec(),
{
    let m = NodeMetadata::new("desaturate", NodeKind::Pure, "Color")
        .with_params(vec![ParamInfo::new("color", "vec3<f32>"), ParamInfo::new("amount", "f32")])
        .with_return_type("vec3<f32>")
        .with_source("mix(color, vec3(dot(color, vec3(0.299, 0.587, 0.114))), amount)");
    proof {
        assert(m@ =~= desaturate_spec());
    }
    m
}

/// What `desaturate` returns.
pub open spec fn desaturate_spec() -> MetaSpec {
    MetaSpec {
        name: "desaturate"@,
        kind: NodeKind::Pure,
        category: "Color"@,
        params: seq![ParamSpec { name: "color"@, param_type: "vec3<f32>"@ }, ParamSpec { name: "amount"@, param_type: "f32"@ }],
        return_type: Some("vec3<f32>"@),
        exec_outputs: Seq::empty(),
        source: "mix(color, vec3(dot(color, vec3(0.299, 0.587, 0.114))), amount)"@,
    }
}

} // verus!
