//! The static catalog of node descriptors, grouped by category.

use vstd::prelude::*;

pub mod math;
pub mod vector;
pub mod color;
pub mod texture;
pub mod input;
pub mod output;

use crate::metadata::MetaSpec;
use crate::metadata::NodeMetadata;

verus! {

/// Every descriptor the catalog holds, in catalog order.
pub open spec fn catalog() -> Seq<MetaSpec> {
    seq![
        math::add_spec(),
        math::subtract_spec(),
        math::multiply_spec(),
        math::divide_spec(),
        math::sin_spec(),
        math::cos_spec(),
        math::tan_spec(),
        math::lerp_spec(),
        math::clamp_spec(),
        math::smoothstep_spec(),
        math::pow_spec(),
        math::sqrt_spec(),
        math::abs_spec(),
        math::fract_spec(),
        vector::vec2_construct_spec(),
        vector::vec3_construct_spec(),
        vector::vec4_construct_spec(),
        vector::vec3_normalize_spec(),
        vector::vec3_dot_spec(),
        vector::vec3_cross_spec(),
        vector::vec3_length_spec(),
        vector::vec3_distance_spec(),
        vector::vec3_split_spec(),
        color::rgb_spec(),
        color::rgba_spec(),
        color::color_lerp_spec(),
        color::color_multiply_spec(),
        color::color_add_spec(),
        color::desaturate_spec(),
        texture::sample_texture_spec(),
        texture::sample_texture_level_spec(),
        texture::sample_texture_grad_spec(),
        input::vertex_position_spec(),
        input::vertex_normal_spec(),
        input::vertex_uv_spec(),
        input::vertex_color_spec(),
        input::frag_position_spec(),
        input::frag_uv_spec(),
        input::frag_normal_spec(),
        output::fragment_main_spec(),
        output::vertex_main_spec(),
        output::fragment_output_spec(),
        output::vertex_output_spec(),
    ]
}

/// Builds the catalog as one explicit static table.
pub fn build_catalog() -> (r: Vec<NodeMetadata>)
    ensures
        r@.map_values(|m: NodeMetadata| m@) == catalog(),
{
    let mut r: Vec<NodeMetadata> = Vec::new();
    r.push(math::add());
    r.push(math::subtract());
    r.push(math::multiply());
    r.push(math::divide());
    r.push(math::sin());
    r.push(math::cos());
    r.push(math::tan());
    r.push(math::lerp());
    r.push(math::clamp());
    r.push(math::smoothstep());
    r.push(math::pow());
    r.push(math::sqrt());
    r.push(math::abs());
    r.push(math::fract());
    r.push(vector::vec2_construct());
    r.push(vector::vec3_construct());
    r.push(vector::vec4_construct());
    r.push(vector::vec3_normalize());
    r.push(vector::vec3_dot());
    r.push(vector::vec3_cross());
    r.push(vector::vec3_length());
    r.push(vector::vec3_distance());
    r.push(vector::vec3_split());
    r.push(color::rgb());
    r.push(color::rgba());
    r.push(color::color_lerp());
    r.push(color::color_multiply());
    r.push(color::color_add());
    r.push(color::desaturate());
    r.push(texture::sample_texture());
    r.push(texture::sample_texture_level());
    r.push(texture::sample_texture_grad());
    r.push(input::vertex_position());
    r.push(input::vertex_normal());
    r.push(input::vertex_uv());
    r.push(input::vertex_color());
    r.push(input::frag_position());
    r.push(input::frag_uv());
    r.push(input::frag_normal());
    r.push(output::fragment_main());
    r.push(output::vertex_main());
    r.push(output::fragment_output());
    r.push(output::vertex_output());
    proof {
        assert(r@.map_values(|m: NodeMetadata| m@) =~= catalog());
    }
    r
}

} // verus!
