//! Texture nodes: sampling operations.

use vstd::prelude::*;

use crate::metadata::MetaSpec;
use crate::metadata::NodeKind;
use crate::metadata::NodeMetadata;
use crate::metadata::ParamInfo;
use crate::metadata::ParamSpec;

verus! {

/// Descriptor of the `sample_texture` node: texture sampling.
pub fn sample_texture() -> (m: NodeMetadata)
    ensures
        m@ == sample_texture_spec(),
{
    let m = NodeMetadata::new("sample_texture", NodeKind::Pure, "Texture")
        .with_params(vec![ParamInfo::new("texture", "texture_2d<f32>"), ParamInfo::new("sampler", "sampler"), ParamInfo::new("uv", "vec2<f32>")])
        .with_return_type("vec4<f32>")
        .with_source("textureSample(texture, sampler, uv)");
    proof {
        assert(m@ =~= sample_texture_spec());
    }
    m
}

/// What `sample_texture` returns.
pub open spec fn sample_texture_spec() -> MetaSpec {
    MetaSpec {
        name: "sample_texture"@,
        kind: NodeKind::Pure,
        category: "Texture"@,
        params: seq![ParamSpec { name: "texture"@, param_type: "texture_2d<f32>"@ }, ParamSpec { name: "sampler"@, param_type: "sampler"@ }, ParamSpec { name: "uv"@, param_type: "vec2<f32>"@ }],
        return_type: Some("vec4<f32>"@),
        exec_outputs: Seq::empty(),
        source: "textureSample(texture, sampler, uv)"@,
    }
}

/// Descriptor of the `sample_texture_level` node: texture sampling at an explicit mip level.
pub fn sample_texture_level() -> (m: NodeMetadata)
    ensures
        m@ == sample_texture_level_spec(),
{
    let m = NodeMetadata::new("sample_texture_level", NodeKind::Pure, "Texture")
        .with_params(vec![ParamInfo::new("texture", "texture_2d<f32>"), ParamInfo::new("sampler", "sampler"), ParamInfo::new("uv", "vec2<f32>"), ParamInfo::new("level", "f32")])
        .with_return_type("vec4<f32>")
        .with_source("textureSampleLevel(texture, sampler, uv, level)");
    proof {
        assert(m@ =~= sample_texture_level_spec());
    }
    m
}

/// What `sample_texture_level` returns.
pub open spec fn sample_texture_level_spec() -> MetaSpec {
    MetaSpec {
        name: "sample_texture_level"@,
        kind: NodeKind::Pure,
        category: "Texture"@,
        params: seq![ParamSpec { name: "texture"@, param_type: "texture_2d<f32>"@ }, ParamSpec { name: "sampler"@, param_type: "sampler"@ }, ParamSpec { name: "uv"@, param_type: "vec2<f32>"@ }, ParamSpec { name: "level"@, param_type: "f32"@ }],
        return_type: Some("vec4<f32>"@),
        exec_outputs: Seq::empty(),
        source: "textureSampleLevel(texture, sampler, uv, level)"@,
    }
}

/// Descriptor of the `sample_texture_grad` node: texture sampling with explicit gradients.
pub fn sample_texture_grad() -> (m: NodeMetadata)
    ensures
        m@ == sample_texture_grad_spec(),
{
    let m = NodeMetadata::new("sample_texture_grad", NodeKind::Pure, "Texture")
        .with_params(vec![ParamInfo::new("texture", "texture_2d<f32>"), ParamInfo::new("sampler", "sampler"), ParamInfo::new("uv", "vec2<f32>"), ParamInfo::new("ddx", "vec2<f32>"), ParamInfo::new("ddy", "vec2<f32>")])
        .with_return_type("vec4<f32>")
        .with_source("textureSampleGrad(texture, sampler, uv, ddx, ddy)");
    proof {
        assert(m@ =~= sample_texture_grad_spec());
    }
    m
}

/// What `sample_texture_grad` returns.
pub open spec fn sample_texture_grad_spec() -> MetaSpec {
    MetaSpec {
        name: "sample_texture_grad"@,
        kind: NodeKind::Pure,
        category: "Texture"@,
        params: seq![ParamSpec { name: "texture"@, param_type: "texture_2d<f32>"@ }, ParamSpec { name: "sampler"@, param_type: "sampler"@ }, ParamSpec { name: "uv"@, param_type: "vec2<f32>"@ }, ParamSpec { name: "ddx"@, param_type: "vec2<f32>"@ }, ParamSpec { name: "ddy"@, param_type: "vec2<f32>"@ }],
        return_type: Some("vec4<f32>"@),
        exec_outputs: Seq::empty(),
        source: "textureSampleGrad(texture, sampler, uv, ddx, ddy)"@,
    }
}

} // verus!
