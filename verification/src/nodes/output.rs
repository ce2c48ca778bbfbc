//! Output nodes: stage entry points and output markers.

use vstd::prelude::*;

use crate::metadata::MetaSpec;
use crate::metadata::NodeKind;
use crate::metadata::NodeMetadata;
use crate::metadata::ParamInfo;
use crate::metadata::ParamSpec;

verus! {

/// Descriptor of the `fragment_main` node: the fragment-stage entry point.
pub fn fragment_main() -> (m: NodeMetadata)
    ensures
        m@ == fragment_main_spec(),
{
    let m = NodeMetadata::new("fragment_main", NodeKind::Event, "Entry")
        .with_exec_outputs(vec![String::from_str("Body")]);
    proof {
        assert(m@ =~= fragment_main_spec());
    }
    m
}

/// What `fragment_main` returns.
pub open spec fn fragment_main_spec() -> MetaSpec {
    MetaSpec {
        name: "fragment_main"@,
        kind: NodeKind::Event,
        category: "Entry"@,
        params: Seq::empty(),
        return_type: None,
        exec_outputs: seq!["Body"@],
        source: Seq::empty(),
    }
}

/// Descriptor of the `vertex_main` node: the vertex-stage entry point.
pub fn vertex_main() -> (m: NodeMetadata)
    ensures
        m@ == vertex_main_spec(),
{
    let m = NodeMetadata::new("vertex_main", NodeKind::Event, "Entry")
        .with_exec_outputs(vec![String::from_str("Body")]);
    proof {
        assert(m@ =~= vertex_main_spec());
    }
    m
}

/// What `vertex_main` returns.
pub open spec fn vertex_main_spec() -> MetaSpec {
    MetaSpec {
        name: "vertex_main"@,
        kind: NodeKind::Event,
        category: "Entry"@,
        params: Seq::empty(),
        return_type: None,
        exec_outputs: seq!["Body"@],
        source: Seq::empty(),
    }
}

/// Descriptor of the `fragment_output` node: the fragment output marker.
pub fn fragment_output() -> (m: NodeMetadata)
    ensures
        m@ == fragment_output_spec(),
{
    let m = NodeMetadata::new("fragment_output", NodeKind::Event, "Output")
        .with_params(vec![ParamInfo::new("color", "vec4<f32>")]);
    proof {
        assert(m@ =~= fragment_output_spec());
    }
    m
}

/// What `fragment_output` returns.
pub open spec fn fragment_output_spec() -> MetaSpec {
    MetaSpec {
        name: "fragment_output"@,
        kind: NodeKind::Event,
        category: "Output"@,
        params: seq![ParamSpec { name: "color"@, param_type: "vec4<f32>"@ }],
        return_type: None,
        exec_outputs: Seq::empty(),
        source: Seq::empty(),
    }
}

/// Descriptor of the `vertex_output` node: the vertex output marker.
pub fn vertex_output() -> (m: NodeMetadata)
    ensures
        m@ == vertex_output_spec(),
{
    let m = NodeMetadata::new("vertex_output", NodeKind::Event, "Output")
        .with_params(vec![ParamInfo::new("position", "vec4<f32>")]);
    proof {
        assert(m@ =~= vertex_output_spec());
    }
    m
}

/// What `vertex_output` returns.
pub open spec fn vertex_output_spec() -> MetaSpec {
    MetaSpec {
        name: "vertex_output"@,
        kind: NodeKind::Event,
        category: "Output"@,
        params: seq![ParamSpec { name: "position"@, param_type: "vec4<f32>"@ }],
        return_type: None,
        exec_outputs: Seq::empty(),
        source: Seq::empty(),
    }
}

} // verus!
