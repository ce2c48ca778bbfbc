//! Math nodes: arithmetic, trigonometry and interpolation.

use vstd::prelude::*;

use crate::metadata::MetaSpec;
use crate::metadata::NodeKind;
use crate::metadata::NodeMetadata;
use crate::metadata::ParamInfo;
use crate::metadata::ParamSpec;

verus! {

/// Descriptor of the `add` node: addition of two scalars.
pub fn add() -> (m: NodeMetadata)
    ensures
        m@ == add_spec(),
{
    let m = NodeMetadata::new("add", NodeKind::Pure, "Math")
        .with_params(vec![ParamInfo::new("a", "f32"), ParamInfo::new("b", "f32")])
        .with_return_type("f32")
        .with_source("a + b");
    proof {
        assert(m@ =~= add_spec());
    }
    m
}

/// What `add` returns.
pub open spec fn add_spec() -> MetaSpec {
    MetaSpec {
        name: "add"@,
        kind: NodeKind::Pure,
        category: "Math"@,
        params: seq![ParamSpec { name: "a"@, param_type: "f32"@ }, ParamSpec { name: "b"@, param_type: "f32"@ }],
        return_type: Some("f32"@),
        exec_outputs: Seq::empty(),
        source: "a + b"@,
    }
}

/// Descriptor of the `subtract` node: subtraction of two scalars.
pub fn subtract() -> (m: NodeMetadata)
    ensures
        m@ == subtract_spec(),
{
    let m = NodeMetadata::new("subtract", NodeKind::Pure, "Math")
        .with_params(vec![ParamInfo::new("a", "f32"), ParamInfo::new("b", "f32")])
        .with_return_type("f32")
        .with_source("a - b");
    proof {
        assert(m@ =~= subtract_spec());
    }
    m
}

/// What `subtract` returns.
pub open spec fn subtract_spec() -> MetaSpec {
    MetaSpec {
        name: "subtract"@,
        kind: NodeKind::Pure,
        category: "Math"@,
        params: seq![ParamSpec { name: "a"@, param_type: "f32"@ }, ParamSpec { name: "b"@, param_type: "f32"@ }],
        return_type: Some("f32"@),
        exec_outputs: Seq::empty(),
        source: "a - b"@,
    }
}

/// Descriptor of the `multiply` node: multiplication of two scalars.
pub fn multiply() -> (m: NodeMetadata)
    ensures
        m@ == multiply_spec(),
{
    let m = NodeMetadata::new("multiply", NodeKind::Pure, "Math")
        .with_params(vec![ParamInfo::new("a", "f32"), ParamInfo::new("b", "f32")])
        .with_return_type("f32")
        .with_source("a * b");
    proof {
        assert(m@ =~= multiply_spec());
    }
    m
}

/// What `multiply` returns.
pub open spec fn multiply_spec() -> MetaSpec {
    MetaSpec {
        name: "multiply"@,
        kind: NodeKind::Pure,
        category: "Math"@,
        params: seq![ParamSpec { name: "a"@, param_type: "f32"@ }, ParamSpec { name: "b"@, param_type: "f32"@ }],
        return_type: Some("f32"@),
        exec_outputs: Seq::empty(),
        source: "a * b"@,
    }
}

/// Descriptor of the `divide` node: division of two scalars.
pub fn divide() -> (m: NodeMetadata)
    ensures
        m@ == divide_spec(),
{
    let m = NodeMetadata::new("divide", NodeKind::Pure, "Math")
        .with_params(vec![ParamInfo::new("a", "f32"), ParamInfo::new("b", "f32")])
        .with_return_type("f32")
        .with_source("a / b");
    proof {
        assert(m@ =~= divide_spec());
    }
    m
}

/// What `divide` returns.
pub open spec fn divide_spec() -> MetaSpec {
    MetaSpec {
        name: "divide"@,
        kind: NodeKind::Pure,
        category: "Math"@,
        params: seq![ParamSpec { name: "a"@, param_type: "f32"@ }, ParamSpec { name: "b"@, param_type: "f32"@ }],
        return_type: Some("f32"@),
        exec_outputs: Seq::empty(),
        source: "a / b"@,
    }
}

/// Descriptor of the `sin` node: sine.
pub fn sin() -> (m: NodeMetadata)
    ensures
        m@ == sin_spec(),
{
    let m = NodeMetadata::new("sin", NodeKind::Pure, "Math")
        .with_params(vec![ParamInfo::new("x", "f32")])
        .with_return_type("f32")
        .with_source("sin(x)");
    proof {
        assert(m@ =~= sin_spec());
    }
    m
}

/// What `sin` returns.
pub open spec fn sin_spec() -> MetaSpec {
    MetaSpec {
        name: "sin"@,
        kind: NodeKind::Pure,
        category: "Math"@,
        params: seq![ParamSpec { name: "x"@, param_type: "f32"@ }],
        return_type: Some("f32"@),
        exec_outputs: Seq::empty(),
        source: "sin(x)"@,
    }
}

/// Descriptor of the `cos` node: cosine.
pub fn cos() -> (m: NodeMetadata)
    ensures
        m@ == cos_spec(),
{
    let m = NodeMetadata::new("cos", NodeKind::Pure, "Math")
        .with_params(vec![ParamInfo::new("x", "f32")])
        .with_return_type("f32")
        .with_source("cos(x)");
    proof {
        assert(m@ =~= cos_spec());
    }
    m
}

/// What `cos` returns.
pub open spec fn cos_spec() -> MetaSpec {
    MetaSpec {
        name: "cos"@,
        kind: NodeKind::Pure,
        category: "Math"@,
        params: seq![ParamSpec { name: "x"@, param_type: "f32"@ }],
        return_type: Some("f32"@),
        exec_outputs: Seq::empty(),
        source: "cos(x)"@,
    }
}

/// Descriptor of the `tan` node: tangent.
pub fn tan() -> (m: NodeMetadata)
    ensures
        m@ == tan_spec(),
{
    let m = NodeMetadata::new("tan", NodeKind::Pure, "Math")
        .with_params(vec![ParamInfo::new("x", "f32")])
        .with_return_type("f32")
        .with_source("tan(x)");
    proof {
        assert(m@ =~= tan_spec());
    }
    m
}

/// What `tan` returns.
pub open spec fn tan_spec() -> MetaSpec {
    MetaSpec {
        name: "tan"@,
        kind: NodeKind::Pure,
        category: "Math"@,
        params: seq![ParamSpec { name: "x"@, param_type: "f32"@ }],
        return_type: Some("f32"@),
        exec_outputs: Seq::empty(),
        source: "tan(x)"@,
    }
}

/// Descriptor of the `lerp` node: linear interpolation.
pub fn lerp() -> (m: NodeMetadata)
    ensures
        m@ == lerp_spec(),
{
    let m = NodeMetadata::new("lerp", NodeKind::Pure, "Math")
        .with_params(vec![ParamInfo::new("a", "f32"), ParamInfo::new("b", "f32"), ParamInfo::new("t", "f32")])
        .with_return_type("f32")
        .with_source("mix(a, b, t)");
    proof {
        assert(m@ =~= lerp_spec());
    }
    m
}

/// What `lerp` returns.
pub open spec fn lerp_spec() -> MetaSpec {
    MetaSpec {
        name: "lerp"@,
        kind: NodeKind::Pure,
        category: "Math"@,
        params: seq![ParamSpec { name: "a"@, param_type: "f32"@ }, ParamSpec { name: "b"@, param_type: "f32"@ }, ParamSpec { name: "t"@, param_type: "f32"@ }],
        return_type: Some("f32"@),
        exec_outputs: Seq::empty(),
        source: "mix(a, b, t)"@,
    }
}

/// Descriptor of the `clamp` node: clamping to a range.
pub fn clamp() -> (m: NodeMetadata)
    ensures
        m@ == clamp_spec(),
{
    let m = NodeMetadata::new("clamp", NodeKind::Pure, "Math")
        .with_params(vec![ParamInfo::new("value", "f32"), ParamInfo::new("min", "f32"), ParamInfo::new("max", "f32")])
        .with_return_type("f32")
        .with_source("clamp(value, min, max)");
    proof {
        assert(m@ =~= clamp_spec());
    }
    m
}

/// What `clamp` returns.
pub open spec fn clamp_spec() -> MetaSpec {
    MetaSpec {
        name: "clamp"@,
        kind: NodeKind::Pure,
        category: "Math"@,
        params: seq![ParamSpec { name: "value"@, param_type: "f32"@ }, ParamSpec { name: "min"@, param_type: "f32"@ }, ParamSpec { name: "max"@, param_type: "f32"@ }],
        return_type: Some("f32"@),
        exec_outputs: Seq::empty(),
        source: "clamp(value, min, max)"@,
    }
}

/// Descriptor of the `smoothstep` node: smooth step interpolation.
pub fn smoothstep() -> (m: NodeMetadata)
    ensures
        m@ == smoothstep_spec(),
{
    let m = NodeMetadata::new("smoothstep", NodeKind::Pure, "Math")
        .with_params(vec![ParamInfo::new("edge0", "f32"), ParamInfo::new("edge1", "f32"), ParamInfo::new("x", "f32")])
        .with_return_type("f32")
        .with_source("smoothstep(edge0, edge1, x)");
    proof {
        assert(m@ =~= smoothstep_spec());
    }
    m
}

/// What `smoothstep` returns.
pub open spec fn smoothstep_spec() -> MetaSpec {
    MetaSpec {
        name: "smoothstep"@,
        kind: NodeKind::Pure,
        category: "Math"@,
        params: seq![ParamSpec { name: "edge0"@, param_type: "f32"@ }, ParamSpec { name: "edge1"@, param_type: "f32"@ }, ParamSpec { name: "x"@, param_type: "f32"@ }],
        return_type: Some("f32"@),
        exec_outputs: Seq::empty(),
        source: "smoothstep(edge0, edge1, x)"@,
    }
}

/// Descriptor of the `pow` node: exponentiation.
pub fn pow() -> (m: NodeMetadata)
    ensures
        m@ == pow_spec(),
{
    let m = NodeMetadata::new("pow", NodeKind::Pure, "Math")
        .with_params(vec![ParamInfo::new("base", "f32"), ParamInfo::new("exponent", "f32")])
        .with_return_type("f32")
        .with_source("pow(base, exponent)");
    proof {
        assert(m@ =~= pow_spec());
    }
    m
}

/// What `pow` returns.
pub open spec fn pow_spec() -> MetaSpec {
    MetaSpec {
        name: "pow"@,
        kind: NodeKind::Pure,
        category: "Math"@,
        params: seq![ParamSpec { name: "base"@, param_type: "f32"@ }, ParamSpec { name: "exponent"@, param_type: "f32"@ }],
        return_type: Some("f32"@),
        exec_outputs: Seq::empty(),
        source: "pow(base, exponent)"@,
    }
}

/// Descriptor of the `sqrt` node: square root.
pub fn sqrt() -> (m: NodeMetadata)
    ensures
        m@ == sqrt_spec(),
{
    let m = NodeMetadata::new("sqrt", NodeKind::Pure, "Math")
        .with_params(vec![ParamInfo::new("x", "f32")])
        .with_return_type("f32")
        .with_source("sqrt(x)");
    proof {
        assert(m@ =~= sqrt_spec());
    }
    m
}

/// What `sqrt` returns.
pub open spec fn sqrt_spec() -> MetaSpec {
    MetaSpec {
        name: "sqrt"@,
        kind: NodeKind::Pure,
        category: "Math"@,
        params: seq![ParamSpec { name: "x"@, param_type: "f32"@ }],
        return_type: Some("f32"@),
        exec_outputs: Seq::empty(),
        source: "sqrt(x)"@,
    }
}

/// Descriptor of the `abs` node: absolute value.
pub fn abs() -> (m: NodeMetadata)
    ensures
        m@ == abs_spec(),
{
    let m = NodeMetadata::new("abs", NodeKind::Pure, "Math")
        .with_params(vec![ParamInfo::new("x", "f32")])
        .with_return_type("f32")
        .with_source("abs(x)");
    proof {
        assert(m@ =~= abs_spec());
    }
    m
}

/// What `abs` returns.
pub open spec fn abs_spec() -> MetaSpec {
    MetaSpec {
        name: "abs"@,
        kind: NodeKind::Pure,
        category: "Math"@,
        params: seq![ParamSpec { name: "x"@, param_type: "f32"@ }],
        return_type: Some("f32"@),
        exec_outputs: Seq::empty(),
        source: "abs(x)"@,
    }
}

/// Descriptor of the `fract` node: fractional part.
pub fn fract() -> (m: NodeMetadata)
    ensures
        m@ == fract_spec(),
{
    let m = NodeMetadata::new("fract", NodeKind::Pure, "Math")
        .with_params(vec![ParamInfo::new("x", "f32")])
        .with_return_type("f32")
        .with_source("fract(x)");
    proof {
        assert(m@ =~= fract_spec());
    }
    m
}

/// What `fract` returns.
pub open spec fn fract_spec() -> MetaSpec {
    MetaSpec {
        name: "fract"@,
        kind: NodeKind::Pure,
        category: "Math"@,
        params: seq![ParamSpec { name: "x"@, param_type: "f32"@ }],
        return_type: Some("f32"@),
        exec_outputs: Seq::empty(),
        source: "fract(x)"@,
    }
}

} // verus!
