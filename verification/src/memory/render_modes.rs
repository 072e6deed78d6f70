//! The render modes that each kind of shader accepts, each with what it
//! does. Every table is given twice: as a mathematical value, and by the
//! function that builds it.

use vstd::prelude::*;
use vstd::string::*;
use crate::memory::table::SpecTable;

verus! {

/// What is known of a render mode.
#[derive(Debug)]
pub struct RenderModeInfo {
    pub description: String,
}

fn add_mode(list: &mut Vec<(String, String)>, name: &str, description: &str)
    ensures
        final(list).deep_view() == old(list).deep_view().push((name@, description@)),
        final(list).len() == old(list).len() + 1,
{
    list.push((String::from_str(name), String::from_str(description)));
    assert(list.deep_view() =~= old(list).deep_view().push((name@, description@)));
}

/// The render modes of a spatial shader.
pub open spec fn spatial_render_modes_table() -> SpecTable<Seq<char>> {
    seq![
        ("blend_mix"@, "Mix blend mode (alpha is transparency), default."@),
        ("blend_add"@, "Additive blend mode."@),
        ("blend_sub"@, "Subtractive blend mode."@),
        ("blend_mul"@, "Multiplicative blend mode."@),
        ("depth_draw_opaque"@, "Only draw depth for opaque geometry (not transparent)."@),
        ("depth_draw_always"@, "Always draw depth (opaque and transparent)."@),
        ("depth_draw_never"@, "Never draw depth."@),
        ("depth_prepass_alpha"@, "Do opaque depth pre-pass for transparent geometry."@),
        ("depth_test_disabled"@, "Disable depth testing."@),
        ("sss_mode_skin"@, "Subsurface Scattering mode for skin."@),
        ("cull_back"@, "Cull back-faces (default)."@),
        ("cull_front"@, "Cull front-faces."@),
        ("cull_disabled"@, "Culling disabled (double sided)."@),
        ("unshaded"@, "Result is just albedo. No lighting/shading happens in material."@),
        ("wireframe"@, "Geometry draws using lines."@),
        ("diffuse_burley"@, "Burley (Disney PBS) for diffuse (default)."@),
        ("diffuse_lambert"@, "Lambert shading for diffuse."@),
        ("diffuse_lambert_wrap"@, "Lambert wrapping (roughness dependent) for diffuse."@),
        ("diffuse_toon"@, "Toon shading for diffuse."@),
        ("specular_schlick_ggx"@, "Schlick-GGX for specular (default)."@),
        ("specular_toon"@, "Toon for specular."@),
        ("specular_disabled"@, "Disable specular."@),
        ("skip_vertex_transform"@, "VERTEX/NORMAL/etc. need to be transformed manually in vertex function."@),
        ("world_vertex_coords"@, "VERTEX/NORMAL/etc. are modified in world coordinates instead of local."@),
        ("ensure_correct_normals"@, "Use when non-uniform scale is applied to mesh."@),
        ("shadows_disabled"@, "Disable computing shadows in shader."@),
        ("ambient_light_disabled"@, "Disable contribution from ambient light and radiance map."@),
        ("shadow_to_opacity"@, "Lighting modifies the alpha so shadowed areas are opaque and non-shadowed
areas are transparent. Useful for overlaying shadows onto a camera feed in AR."@),
        ("vertex_lighting"@, "Use vertex-based lighting."@),
        ("particle_trails"@, "Enables the trails when used on particles geometry."@),
        ("alpha_to_coverage"@, "Alpha antialiasing mode."@),
        ("alpha_to_coverage_and_one"@, "Alpha antialiasing mode."@),
        ("fog_disabled"@, "Disable receiving depth-based or volumetric fog. Useful for blend_add materials
like particles."@),
    ]
}

/// The render modes of a spatial shader.
pub fn spatial_render_modes() -> (r: Vec<(String, String)>)
    ensures
        r.deep_view() == spatial_render_modes_table(),
        r.len() == 33,
{
    let mut r: Vec<(String, String)> = Vec::new();
    assert(r.deep_view() =~= Seq::empty());
    add_mode(&mut r, "blend_mix", "Mix blend mode (alpha is transparency), default.");
    add_mode(&mut r, "blend_add", "Additive blend mode.");
    add_mode(&mut r, "blend_sub", "Subtractive blend mode.");
    add_mode(&mut r, "blend_mul", "Multiplicative blend mode.");
    add_mode(&mut r, "depth_draw_opaque", "Only draw depth for opaque geometry (not transparent).");
    add_mode(&mut r, "depth_draw_always", "Always draw depth (opaque and transparent).");
    add_mode(&mut r, "depth_draw_never", "Never draw depth.");
    add_mode(&mut r, "depth_prepass_alpha", "Do opaque depth pre-pass for transparent geometry.");
    add_mode(&mut r, "depth_test_disabled", "Disable depth testing.");
    add_mode(&mut r, "sss_mode_skin", "Subsurface Scattering mode for skin.");
    add_mode(&mut r, "cull_back", "Cull back-faces (default).");
    add_mode(&mut r, "cull_front", "Cull front-faces.");
    add_mode(&mut r, "cull_disabled", "Culling disabled (double sided).");
    add_mode(&mut r, "unshaded", "Result is just albedo. No lighting/shading happens in material.");
    add_mode(&mut r, "wireframe", "Geometry draws using lines.");
    add_mode(&mut r, "diffuse_burley", "Burley (Disney PBS) for diffuse (default).");
    add_mode(&mut r, "diffuse_lambert", "Lambert shading for diffuse.");
    add_mode(&mut r, "diffuse_lambert_wrap", "Lambert wrapping (roughness dependent) for diffuse.");
    add_mode(&mut r, "diffuse_toon", "Toon shading for diffuse.");
    add_mode(&mut r, "specular_schlick_ggx", "Schlick-GGX for specular (default).");
    add_mode(&mut r, "specular_toon", "Toon for specular.");
    add_mode(&mut r, "specular_disabled", "Disable specular.");
    add_mode(&mut r, "skip_vertex_transform", "VERTEX/NORMAL/etc. need to be transformed manually in vertex function.");
    add_mode(&mut r, "world_vertex_coords", "VERTEX/NORMAL/etc. are modified in world coordinates instead of local.");
    add_mode(&mut r, "ensure_correct_normals", "Use when non-uniform scale is applied to mesh.");
    add_mode(&mut r, "shadows_disabled", "Disable computing shadows in shader.");
    add_mode(&mut r, "ambient_light_disabled", "Disable contribution from ambient light and radiance map.");
    add_mode(&mut r, "shadow_to_opacity", "Lighting modifies the alpha so shadowed areas are opaque and non-shadowed
areas are transparent. Useful for overlaying shadows onto a camera feed in AR.");
    add_mode(&mut r, "vertex_lighting", "Use vertex-based lighting.");
    add_mode(&mut r, "particle_trails", "Enables the trails when used on particles geometry.");
    add_mode(&mut r, "alpha_to_coverage", "Alpha antialiasing mode.");
    add_mode(&mut r, "alpha_to_coverage_and_one", "Alpha antialiasing mode.");
    add_mode(&mut r, "fog_disabled", "Disable receiving depth-based or volumetric fog. Useful for blend_add materials
like particles.");
    r
}

/// The render modes of a canvas-item shader.
pub open spec fn canvas_item_render_modes_table() -> SpecTable<Seq<char>> {
    seq![
        ("blend_mix"@, "Mix blend mode (alpha is transparency), default."@),
        ("blend_add"@, "Additive blend mode."@),
        ("blend_sub"@, "Subtractive blend mode."@),
        ("blend_mul"@, "Multiplicative blend mode."@),
        ("blend_premul_alpha"@, "Pre-multiplied alpha blend mode."@),
        ("blend_disabled"@, "Disable blending, values (including alpha) are written as-is."@),
        ("unshaded"@, "Result is just albedo. No lighting/shading happens in material."@),
        ("light_only"@, "Only draw on light pass."@),
        ("skip_vertex_transform"@, "VERTEX needs to be transformed manually in vertex function."@),
        ("world_vertex_coords"@, "VERTEX is modified in world coordinates instead of local."@),
    ]
}

/// The render modes of a canvas-item shader.
pub fn canvas_item_render_modes() -> (r: Vec<(String, String)>)
    ensures
        r.deep_view() == canvas_item_render_modes_table(),
        r.len() == 10,
{
    let mut r: Vec<(String, String)> = Vec::new();
    assert(r.deep_view() =~= Seq::empty());
    add_mode(&mut r, "blend_mix", "Mix blend mode (alpha is transparency), default.");
    add_mode(&mut r, "blend_add", "Additive blend mode.");
    add_mode(&mut r, "blend_sub", "Subtractive blend mode.");
    add_mode(&mut r, "blend_mul", "Multiplicative blend mode.");
    add_mode(&mut r, "blend_premul_alpha", "Pre-multiplied alpha blend mode.");
    add_mode(&mut r, "blend_disabled", "Disable blending, values (including alpha) are written as-is.");
    add_mode(&mut r, "unshaded", "Result is just albedo. No lighting/shading happens in material.");
    add_mode(&mut r, "light_only", "Only draw on light pass.");
    add_mode(&mut r, "skip_vertex_transform", "VERTEX needs to be transformed manually in vertex function.");
    add_mode(&mut r, "world_vertex_coords", "VERTEX is modified in world coordinates instead of local.");
    r
}

/// The render modes of a particle shader.
pub open spec fn particle_render_modes_table() -> SpecTable<Seq<char>> {
    seq![
        ("keep_data"@, "Do not clear previous data on restart."@),
        ("disable_force"@, "Disable attractor force."@),
        ("disable_velocity"@, "Ignore VELOCITY value."@),
        ("collision_use_scale"@, "Scale the particle's size for collisions."@),
    ]
}

/// The render modes of a particle shader.
pub fn particle_render_modes() -> (r: Vec<(String, String)>)
    ensures
        r.deep_view() == particle_render_modes_table(),
        r.len() == 4,
{
    let mut r: Vec<(String, String)> = Vec::new();
    assert(r.deep_view() =~= Seq::empty());
    add_mode(&mut r, "keep_data", "Do not clear previous data on restart.");
    add_mode(&mut r, "disable_force", "Disable attractor force.");
    add_mode(&mut r, "disable_velocity", "Ignore VELOCITY value.");
    add_mode(&mut r, "collision_use_scale", "Scale the particle's size for collisions.");
    r
}

/// The render modes of a sky shader.
pub open spec fn sky_render_modes_table() -> SpecTable<Seq<char>> {
    seq![
        ("use_half_res_pass"@, "Allows the shader to write to and access the half resolution pass."@),
        ("use_quarter_res_pass"@, "Allows the shader to write to and access the quarter resolution pass."@),
        ("disable_fog"@, "If used, fog will not affect the sky."@),
    ]
}

/// The render modes of a sky shader.
pub fn sky_render_modes() -> (r: Vec<(String, String)>)
    ensures
        r.deep_view() == sky_render_modes_table(),
        r.len() == 3,
{
    let mut r: Vec<(String, String)> = Vec::new();
    assert(r.deep_view() =~= Seq::empty());
    add_mode(&mut r, "use_half_res_pass", "Allows the shader to write to and access the half resolution pass.");
    add_mode(&mut r, "use_quarter_res_pass", "Allows the shader to write to and access the quarter resolution pass.");
    add_mode(&mut r, "disable_fog", "If used, fog will not affect the sky.");
    r
}

} // verus!
