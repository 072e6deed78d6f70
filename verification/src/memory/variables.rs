//! The built-in variables of each kind of shader and of each of its
//! entry points. Every table is given twice: as a mathematical value, and
//! by the function that builds it.

use vstd::prelude::*;
use vstd::string::*;
use crate::memory::table::SpecTable;
use crate::memory::types::{plain_type, TypeInfo};
use crate::memory::{SpecValueInfo, ValueInfo};

verus! {

/// The entry of a built-in variable: a scalar type, no place in the source,
/// a description, and writable exactly if it is not constant.
pub open spec fn builtin_variable(
    ty: Seq<char>,
    name: Seq<char>,
    is_const: bool,
    description: Seq<char>,
) -> (Seq<char>, SpecValueInfo) {
    (
        name,
        SpecValueInfo {
            ty: plain_type(ty),
            editable: !is_const,
            is_const,
            range: None,
            description: Some(description),
        },
    )
}

fn add_variable(
    list: &mut Vec<(String, ValueInfo)>,
    ty: &str,
    name: &str,
    is_const: bool,
    description: &str,
)
    ensures
        final(list).deep_view() == old(list).deep_view().push(
            builtin_variable(ty@, name@, is_const, description@),
        ),
        final(list).len() == old(list).len() + 1,
{
    list.push(
        (
            String::from_str(name),
            ValueInfo {
                ty: TypeInfo::from_str(ty),
                editable: !is_const,
                is_const,
                range: None,
                description: Some(String::from_str(description)),
            },
        ),
    );
    assert(list.deep_view() =~= old(list).deep_view().push(
        builtin_variable(ty@, name@, is_const, description@),
    ));
}

/// Names that every shader sees.
pub open spec fn variable_builtins_table() -> SpecTable<SpecValueInfo> {
    seq![
        builtin_variable("float"@, "TIME"@, true, "Global time since the engine has started, in seconds (always positive).
It's subject to the rollover setting (which is 3,600 seconds by default).
It's not affected by time_scale or pausing, but you can define a global shader uniform
to add a 'scaled' TIME variable if desired."@),
        builtin_variable("float"@, "PI"@, true, "A PI constant (3.141592). A ratio of circle's circumference to its diameter and
amount of radians in half turn."@),
        builtin_variable("float"@, "TAU"@, true, "A TAU constant (6.283185). An equivalent of PI * 2 and amount of radians in full turn."@),
        builtin_variable("float"@, "E"@, true, "A E constant (2.718281). Euler's number and a base of the natural logarithm."@),
    ]
}

/// Names that every shader sees.
pub fn variable_builtins() -> (r: Vec<(String, ValueInfo)>)
    ensures
        r.deep_view() == variable_builtins_table(),
        r.len() == 4,
{
    let mut r: Vec<(String, ValueInfo)> = Vec::new();
    assert(r.deep_view() =~= Seq::empty());
    add_variable(&mut r, "float", "TIME", true, "Global time since the engine has started, in seconds (always positive).
It's subject to the rollover setting (which is 3,600 seconds by default).
It's not affected by time_scale or pausing, but you can define a global shader uniform
to add a 'scaled' TIME variable if desired.");
    add_variable(&mut r, "float", "PI", true, "A PI constant (3.141592). A ratio of circle's circumference to its diameter and
amount of radians in half turn.");
    add_variable(&mut r, "float", "TAU", true, "A TAU constant (6.283185). An equivalent of PI * 2 and amount of radians in full turn.");
    add_variable(&mut r, "float", "E", true, "A E constant (2.718281). Euler's number and a base of the natural logarithm.");
    r
}

/// Names that the `vertex` function of a spatial shader sees.
pub open spec fn spatial_vertex_vars_table() -> SpecTable<SpecValueInfo> {
    seq![
        builtin_variable("vec2"@, "VIEWPORT_SIZE"@, true, "Size of viewport (in pixels.)"@),
        builtin_variable("mat4"@, "VIEW_MATRIX"@, true, "World space to view space transform."@),
        builtin_variable("mat4"@, "INV_VIEW_MATRIX"@, true, "View space to world space transform."@),
        builtin_variable("mat4"@, "INV_PROJECTION_MATRIX"@, true, "Clip space to view space transform."@),
        builtin_variable("vec3"@, "NODE_POSITION_WORLD"@, true, "Node world space position."@),
        builtin_variable("vec3"@, "NODE_POSITION_VIEW"@, true, "Node view space position."@),
        builtin_variable("vec3"@, "CAMERA_POSITION_WORLD"@, true, "Camera world space position."@),
        builtin_variable("vec3"@, "CAMERA_DIRECTION_WORLD"@, true, "Camera world space direction."@),
        builtin_variable("bool"@, "OUTPUT_IS_SRGB"@, true, "True when output is in sRGB color space (this is true in the Compatibility
renderer, false in Forward+ and Forward Mobile)."@),
        builtin_variable("int"@, "INSTANCE_ID"@, true, "Instance ID for instancing."@),
        builtin_variable("vec4"@, "INSTANCE_CUSTOM"@, true, "Instance custom data (for particles, mostly)."@),
        builtin_variable("int"@, "VIEW_INDEX"@, true, "The view that we are rendering. VIEW_MONO_LEFT (0) for Mono (not multiview) or
left eye, VIEW_RIGHT (1) for right eye."@),
        builtin_variable("int"@, "VIEW_MONO_LEFT"@, true, "Constant for Mono or left eye, always 0."@),
        builtin_variable("int"@, "VIEW_RIGHT"@, true, "Constant for right eye, always 1."@),
        builtin_variable("vec3"@, "EYE_OFFSET"@, true, "Position offset for the eye being rendered. Only applicable for multiview rendering."@),
        builtin_variable("vec3"@, "VERTEX"@, false, "Vertex in local coordinates."@),
        builtin_variable("int"@, "VERTEX_ID"@, true, "The index of the current vertex in the vertex buffer."@),
        builtin_variable("vec3"@, "NORMAL"@, false, "Normal in local coordinates."@),
        builtin_variable("vec3"@, "TANGENT"@, false, "Tangent in local coordinates."@),
        builtin_variable("vec3"@, "BINORMAL"@, false, "Binormal in local coordinates."@),
        builtin_variable("vec4"@, "POSITION"@, false, "If written to, overrides final vertex position."@),
        builtin_variable("vec2"@, "UV"@, false, "UV main channel."@),
        builtin_variable("vec2"@, "UV2"@, false, "UV secondary channel."@),
        builtin_variable("vec4"@, "COLOR"@, false, "Color from vertices."@),
        builtin_variable("float"@, "ROUGHNESS"@, false, "Roughness for vertex lighting."@),
        builtin_variable("float"@, "POINT_SIZE"@, false, "Point size for point rendering."@),
        builtin_variable("mat4"@, "MODELVIEW_MATRIX"@, false, "Model space to view space transform (use if possible)."@),
        builtin_variable("mat3"@, "MODELVIEW_NORMAL_MATRIX"@, false, ""@),
        builtin_variable("mat4"@, "MODEL_MATRIX"@, false, "Model space to world space transform."@),
        builtin_variable("mat3"@, "MODEL_NORMAL_MATRIX"@, false, ""@),
        builtin_variable("mat4"@, "PROJECTION_MATRIX"@, false, "View space to clip space transform."@),
    ]
}

/// Names that the `vertex` function of a spatial shader sees.
pub fn spatial_vertex_vars() -> (r: Vec<(String, ValueInfo)>)
    ensures
        r.deep_view() == spatial_vertex_vars_table(),
        r.len() == 31,
{
    let mut r: Vec<(String, ValueInfo)> = Vec::new();
    assert(r.deep_view() =~= Seq::empty());
    add_variable(&mut r, "vec2", "VIEWPORT_SIZE", true, "Size of viewport (in pixels.)");
    add_variable(&mut r, "mat4", "VIEW_MATRIX", true, "World space to view space transform.");
    add_variable(&mut r, "mat4", "INV_VIEW_MATRIX", true, "View space to world space transform.");
    add_variable(&mut r, "mat4", "INV_PROJECTION_MATRIX", true, "Clip space to view space transform.");
    add_variable(&mut r, "vec3", "NODE_POSITION_WORLD", true, "Node world space position.");
    add_variable(&mut r, "vec3", "NODE_POSITION_VIEW", true, "Node view space position.");
    add_variable(&mut r, "vec3", "CAMERA_POSITION_WORLD", true, "Camera world space position.");
    add_variable(&mut r, "vec3", "CAMERA_DIRECTION_WORLD", true, "Camera world space direction.");
    add_variable(&mut r, "bool", "OUTPUT_IS_SRGB", true, "True when output is in sRGB color space (this is true in the Compatibility
renderer, false in Forward+ and Forward Mobile).");
    add_variable(&mut r, "int", "INSTANCE_ID", true, "Instance ID for instancing.");
    add_variable(&mut r, "vec4", "INSTANCE_CUSTOM", true, "Instance custom data (for particles, mostly).");
    add_variable(&mut r, "int", "VIEW_INDEX", true, "The view that we are rendering. VIEW_MONO_LEFT (0) for Mono (not multiview) or
left eye, VIEW_RIGHT (1) for right eye.");
    add_variable(&mut r, "int", "VIEW_MONO_LEFT", true, "Constant for Mono or left eye, always 0.");
    add_variable(&mut r, "int", "VIEW_RIGHT", true, "Constant for right eye, always 1.");
    add_variable(&mut r, "vec3", "EYE_OFFSET", true, "Position offset for the eye being rendered. Only applicable for multiview rendering.");
    add_variable(&mut r, "vec3", "VERTEX", false, "Vertex in local coordinates.");
    add_variable(&mut r, "int", "VERTEX_ID", true, "The index of the current vertex in the vertex buffer.");
    add_variable(&mut r, "vec3", "NORMAL", false, "Normal in local coordinates.");
    add_variable(&mut r, "vec3", "TANGENT", false, "Tangent in local coordinates.");
    add_variable(&mut r, "vec3", "BINORMAL", false, "Binormal in local coordinates.");
    add_variable(&mut r, "vec4", "POSITION", false, "If written to, overrides final vertex position.");
    add_variable(&mut r, "vec2", "UV", false, "UV main channel.");
    add_variable(&mut r, "vec2", "UV2", false, "UV secondary channel.");
    add_variable(&mut r, "vec4", "COLOR", false, "Color from vertices.");
    add_variable(&mut r, "float", "ROUGHNESS", false, "Roughness for vertex lighting.");
    add_variable(&mut r, "float", "POINT_SIZE", false, "Point size for point rendering.");
    add_variable(&mut r, "mat4", "MODELVIEW_MATRIX", false, "Model space to view space transform (use if possible).");
    add_variable(&mut r, "mat3", "MODELVIEW_NORMAL_MATRIX", false, "");
    add_variable(&mut r, "mat4", "MODEL_MATRIX", false, "Model space to world space transform.");
    add_variable(&mut r, "mat3", "MODEL_NORMAL_MATRIX", false, "");
    add_variable(&mut r, "mat4", "PROJECTION_MATRIX", false, "View space to clip space transform.");
    r
}

/// Names that the `fragment` function of a spatial shader sees.
pub open spec fn spatial_fragment_vars_table() -> SpecTable<SpecValueInfo> {
    seq![
        builtin_variable("vec2"@, "VIEWPORT_SIZE"@, true, "Size of viewport (in pixels.)"@),
        builtin_variable("vec4"@, "FRAGCOORD"@, true, "Coordinate of pixel center in screen space. xy specifies position in window,
z specifies fragment depth if DEPTH is not used. Origin is lower-left."@),
        builtin_variable("bool"@, "FRONT_FACING"@, true, "true if current face if front face."@),
        builtin_variable("vec3"@, "VIEW"@, true, "Normalized vector from fragment position to camera (in view space).
This is the same for both perspective and orthogonal cameras."@),
        builtin_variable("vec2"@, "UV"@, true, "UV that comes from vertex function."@),
        builtin_variable("vec2"@, "UV2"@, true, "UV2 that comes from vertex function."@),
        builtin_variable("vec4"@, "COLOR"@, true, "COLOR that comes from vertex function."@),
        builtin_variable("vec2"@, "POINT_COORD"@, true, "Point Coordinate for drawing points with POINT_SIZE."@),
        builtin_variable("bool"@, "OUTPUT_IS_SRGB"@, true, "true when output is in sRGB color space (this is true in the Compatibility renderer,
false in Forward+ and Forward Mobile)."@),
        builtin_variable("mat4"@, "MODEL_MATRIX"@, true, "Model space to world space transform."@),
        builtin_variable("mat3"@, "MODEL_NORMAL_MATRIX"@, true, ""@),
        builtin_variable("mat4"@, "VIEW_MATRIX"@, true, "World space to view space transform."@),
        builtin_variable("mat4"@, "INV_VIEW_MATRIX"@, true, "View space to world space transform."@),
        builtin_variable("mat4"@, "PROJECTION_MATRIX"@, true, "View space to clip space transform."@),
        builtin_variable("mat4"@, "INV_PROJECTION_MATRIX"@, true, "Clip space to view space transform."@),
        builtin_variable("vec3"@, "NODE_POSITION_WORLD"@, true, "Node position, in world space."@),
        builtin_variable("vec3"@, "NODE_POSITION_VIEW"@, true, "Node position, in view space."@),
        builtin_variable("vec3"@, "CAMERA_POSITION_WORLD"@, true, "Camera position, in world space."@),
        builtin_variable("vec3"@, "CAMERA_DIRECTION_WORLD"@, true, "Camera direction, in world space."@),
        builtin_variable("vec3"@, "VERTEX"@, true, "Vertex that comes from vertex function (default, in view space)."@),
        builtin_variable("int"@, "VIEW_INDEX"@, true, "The view that we are rendering. VIEW_MONO_LEFT (0) for Mono (not multiview) or
left eye, VIEW_RIGHT (1) for right eye."@),
        builtin_variable("int"@, "VIEW_MONO_LEFT"@, true, "Constant for Mono or left eye, always 0."@),
        builtin_variable("int"@, "VIEW_RIGHT"@, true, "Constant for right eye, always 1."@),
        builtin_variable("vec3"@, "EYE_OFFSET"@, true, "Position offset for the eye being rendered. Only applicable for multiview rendering."@),
        builtin_variable("vec2"@, "SCREEN_UV"@, true, "Screen UV coordinate for current pixel."@),
        builtin_variable("float"@, "DEPTH"@, false, "Custom depth value (0..1). If DEPTH is being written to in any shader branch,
then you are responsible for setting the DEPTH for all other branches. Otherwise,
the graphics API will leave them uninitialized."@),
        builtin_variable("vec3"@, "NORMAL"@, false, "Normal that comes from vertex function (default, in view space)."@),
        builtin_variable("vec3"@, "TANGENT"@, false, "Tangent that comes from vertex function."@),
        builtin_variable("vec3"@, "BINORMAL"@, false, "Binormal that comes from vertex function."@),
        builtin_variable("vec3"@, "NORMAL_MAP"@, false, "Set normal here if reading normal from a texture instead of NORMAL."@),
        builtin_variable("float"@, "NORMAL_MAP_DEPTH"@, false, "Depth from variable above. Defaults to 1.0."@),
        builtin_variable("vec3"@, "ALBEDO"@, false, "Albedo (default white)."@),
        builtin_variable("float"@, "ALPHA"@, false, "Alpha (0..1); if written to, the material will go to the transparent pipeline."@),
        builtin_variable("float"@, "ALPHA_SCISSOR_THRESHOLD"@, false, "If written to, values below a certain amount of alpha are discarded."@),
        builtin_variable("float"@, "ALPHA_HASH_SCALE"@, false, ""@),
        builtin_variable("float"@, "ALPHA_ANTIALIASING_EDGE"@, false, ""@),
        builtin_variable("vec2"@, "ALPHA_TEXTURE_COORDINATE"@, false, ""@),
        builtin_variable("float"@, "METALLIC"@, false, "Metallic (0..1)."@),
        builtin_variable("float"@, "SPECULAR"@, false, "Specular. Defaults to 0.5, best not to modify unless you want to change IOR."@),
        builtin_variable("float"@, "ROUGHNESS"@, false, "Roughness (0..1)."@),
        builtin_variable("float"@, "RIM"@, false, "Rim (0..1). If used, Godot calculates rim lighting."@),
        builtin_variable("float"@, "RIM_TINT"@, false, "Rim Tint, goes from 0 (white) to 1 (albedo). If used, Godot calculates rim lighting."@),
        builtin_variable("float"@, "CLEARCOAT"@, false, "Small added specular blob. If used, Godot calculates Clearcoat."@),
        builtin_variable("float"@, "CLEARCOAT_GLOSS"@, false, "Gloss of Clearcoat. If used, Godot calculates Clearcoat."@),
        builtin_variable("float"@, "ANISOTROPY"@, false, "For distorting the specular blob according to tangent space."@),
        builtin_variable("vec2"@, "ANISOTROPY_FLOW"@, false, "Distortion direction, use with flowmaps."@),
        builtin_variable("float"@, "SSS_STRENGTH"@, false, "Strength of Subsurface Scattering. If used, Subsurface Scattering will be applied to object."@),
        builtin_variable("vec4"@, "SSS_TRANSMITTANCE_COLOR"@, false, ""@),
        builtin_variable("float"@, "SSS_TRANSMITTANCE_DEPTH"@, false, ""@),
        builtin_variable("float"@, "SSS_TRANSMITTANCE_BOOST"@, false, ""@),
        builtin_variable("invec3"@, "BACKLIGHT"@, false, ""@),
        builtin_variable("float"@, "AO"@, false, "Strength of Ambient Occlusion. For use with pre-baked AO."@),
        builtin_variable("float"@, "AO_LIGHT_AFFECT"@, false, "How much AO affects lights (0..1; default 0)."@),
        builtin_variable("vec3"@, "EMISSION"@, false, "Emission color (can go over 1,1,1 for HDR)."@),
        builtin_variable("vec4"@, "FOG"@, false, "If written to, blends final pixel color with FOG.rgb based on FOG.a."@),
        builtin_variable("vec4"@, "RADIANCE"@, false, "If written to, blends environment map radiance with RADIANCE.rgb based on RADIANCE.a."@),
        builtin_variable("vec4"@, "IRRADIANCE"@, false, "If written to, blends environment map IRRADIANCE with IRRADIANCE.rgb based on IRRADIANCE.a."@),
    ]
}

/// Names that the `fragment` function of a spatial shader sees.
#[verifier::rlimit(60)]
pub fn spatial_fragment_vars() -> (r: Vec<(String, ValueInfo)>)
    ensures
        r.deep_view() == spatial_fragment_vars_table(),
        r.len() == 57,
{
    let mut r: Vec<(String, ValueInfo)> = Vec::new();
    assert(r.deep_view() =~= Seq::empty());
    add_variable(&mut r, "vec2", "VIEWPORT_SIZE", true, "Size of viewport (in pixels.)");
    add_variable(&mut r, "vec4", "FRAGCOORD", true, "Coordinate of pixel center in screen space. xy specifies position in window,
z specifies fragment depth if DEPTH is not used. Origin is lower-left.");
    add_variable(&mut r, "bool", "FRONT_FACING", true, "true if current face if front face.");
    add_variable(&mut r, "vec3", "VIEW", true, "Normalized vector from fragment position to camera (in view space).
This is the same for both perspective and orthogonal cameras.");
    add_variable(&mut r, "vec2", "UV", true, "UV that comes from vertex function.");
    add_variable(&mut r, "vec2", "UV2", true, "UV2 that comes from vertex function.");
    add_variable(&mut r, "vec4", "COLOR", true, "COLOR that comes from vertex function.");
    add_variable(&mut r, "vec2", "POINT_COORD", true, "Point Coordinate for drawing points with POINT_SIZE.");
    add_variable(&mut r, "bool", "OUTPUT_IS_SRGB", true, "true when output is in sRGB color space (this is true in the Compatibility renderer,
false in Forward+ and Forward Mobile).");
    add_variable(&mut r, "mat4", "MODEL_MATRIX", true, "Model space to world space transform.");
    add_variable(&mut r, "mat3", "MODEL_NORMAL_MATRIX", true, "");
    add_variable(&mut r, "mat4", "VIEW_MATRIX", true, "World space to view space transform.");
    add_variable(&mut r, "mat4", "INV_VIEW_MATRIX", true, "View space to world space transform.");
    add_variable(&mut r, "mat4", "PROJECTION_MATRIX", true, "View space to clip space transform.");
    add_variable(&mut r, "mat4", "INV_PROJECTION_MATRIX", true, "Clip space to view space transform.");
    add_variable(&mut r, "vec3", "NODE_POSITION_WORLD", true, "Node position, in world space.");
    add_variable(&mut r, "vec3", "NODE_POSITION_VIEW", true, "Node position, in view space.");
    add_variable(&mut r, "vec3", "CAMERA_POSITION_WORLD", true, "Camera position, in world space.");
    add_variable(&mut r, "vec3", "CAMERA_DIRECTION_WORLD", true, "Camera direction, in world space.");
    add_variable(&mut r, "vec3", "VERTEX", true, "Vertex that comes from vertex function (default, in view space).");
    add_variable(&mut r, "int", "VIEW_INDEX", true, "The view that we are rendering. VIEW_MONO_LEFT (0) for Mono (not multiview) or
left eye, VIEW_RIGHT (1) for right eye.");
    add_variable(&mut r, "int", "VIEW_MONO_LEFT", true, "Constant for Mono or left eye, always 0.");
    add_variable(&mut r, "int", "VIEW_RIGHT", true, "Constant for right eye, always 1.");
    add_variable(&mut r, "vec3", "EYE_OFFSET", true, "Position offset for the eye being rendered. Only applicable for multiview rendering.");
    add_variable(&mut r, "vec2", "SCREEN_UV", true, "Screen UV coordinate for current pixel.");
    add_variable(&mut r, "float", "DEPTH", false, "Custom depth value (0..1). If DEPTH is being written to in any shader branch,
then you are responsible for setting the DEPTH for all other branches. Otherwise,
the graphics API will leave them uninitialized.");
    add_variable(&mut r, "vec3", "NORMAL", false, "Normal that comes from vertex function (default, in view space).");
    add_variable(&mut r, "vec3", "TANGENT", false, "Tangent that comes from vertex function.");
    add_variable(&mut r, "vec3", "BINORMAL", false, "Binormal that comes from vertex function.");
    add_variable(&mut r, "vec3", "NORMAL_MAP", false, "Set normal here if reading normal from a texture instead of NORMAL.");
    add_variable(&mut r, "float", "NORMAL_MAP_DEPTH", false, "Depth from variable above. Defaults to 1.0.");
    add_variable(&mut r, "vec3", "ALBEDO", false, "Albedo (default white).");
    add_variable(&mut r, "float", "ALPHA", false, "Alpha (0..1); if written to, the material will go to the transparent pipeline.");
    add_variable(&mut r, "float", "ALPHA_SCISSOR_THRESHOLD", false, "If written to, values below a certain amount of alpha are discarded.");
    add_variable(&mut r, "float", "ALPHA_HASH_SCALE", false, "");
    add_variable(&mut r, "float", "ALPHA_ANTIALIASING_EDGE", false, "");
    add_variable(&mut r, "vec2", "ALPHA_TEXTURE_COORDINATE", false, "");
    add_variable(&mut r, "float", "METALLIC", false, "Metallic (0..1).");
    add_variable(&mut r, "float", "SPECULAR", false, "Specular. Defaults to 0.5, best not to modify unless you want to change IOR.");
    add_variable(&mut r, "float", "ROUGHNESS", false, "Roughness (0..1).");
    add_variable(&mut r, "float", "RIM", false, "Rim (0..1). If used, Godot calculates rim lighting.");
    add_variable(&mut r, "float", "RIM_TINT", false, "Rim Tint, goes from 0 (white) to 1 (albedo). If used, Godot calculates rim lighting.");
    add_variable(&mut r, "float", "CLEARCOAT", false, "Small added specular blob. If used, Godot calculates Clearcoat.");
    add_variable(&mut r, "float", "CLEARCOAT_GLOSS", false, "Gloss of Clearcoat. If used, Godot calculates Clearcoat.");
    add_variable(&mut r, "float", "ANISOTROPY", false, "For distorting the specular blob according to tangent space.");
    add_variable(&mut r, "vec2", "ANISOTROPY_FLOW", false, "Distortion direction, use with flowmaps.");
    add_variable(&mut r, "float", "SSS_STRENGTH", false, "Strength of Subsurface Scattering. If used, Subsurface Scattering will be applied to object.");
    add_variable(&mut r, "vec4", "SSS_TRANSMITTANCE_COLOR", false, "");
    add_variable(&mut r, "float", "SSS_TRANSMITTANCE_DEPTH", false, "");
    add_variable(&mut r, "float", "SSS_TRANSMITTANCE_BOOST", false, "");
    add_variable(&mut r, "invec3", "BACKLIGHT", false, "");
    add_variable(&mut r, "float", "AO", false, "Strength of Ambient Occlusion. For use with pre-baked AO.");
    add_variable(&mut r, "float", "AO_LIGHT_AFFECT", false, "How much AO affects lights (0..1; default 0).");
    add_variable(&mut r, "vec3", "EMISSION", false, "Emission color (can go over 1,1,1 for HDR).");
    add_variable(&mut r, "vec4", "FOG", false, "If written to, blends final pixel color with FOG.rgb based on FOG.a.");
    add_variable(&mut r, "vec4", "RADIANCE", false, "If written to, blends environment map radiance with RADIANCE.rgb based on RADIANCE.a.");
    add_variable(&mut r, "vec4", "IRRADIANCE", false, "If written to, blends environment map IRRADIANCE with IRRADIANCE.rgb based on IRRADIANCE.a.");
    r
}

/// Names that the `light` function of a spatial shader sees.
pub open spec fn spatial_light_vars_table() -> SpecTable<SpecValueInfo> {
    seq![
        builtin_variable("vec2"@, "VIEWPORT_SIZE"@, true, "Size of viewport (in pixels)."@),
        builtin_variable("vec4"@, "FRAGCOORD"@, true, "Coordinate of pixel center in screen space. xy specifies position in window,
z specifies fragment depth if DEPTH is not used. Origin is lower-left."@),
        builtin_variable("mat4"@, "MODEL_MATRIX"@, true, "Model space to world space transform."@),
        builtin_variable("mat4"@, "INV_VIEW_MATRIX"@, true, "View space to world space transform."@),
        builtin_variable("mat4"@, "VIEW_MATRIX"@, true, "World space to view space transform."@),
        builtin_variable("mat4"@, "PROJECTION_MATRIX"@, true, "View space to clip space transform."@),
        builtin_variable("mat4"@, "INV_PROJECTION_MATRIX"@, true, "Clip space to view space transform."@),
        builtin_variable("vec3"@, "NORMAL"@, true, "Normal vector, in view space."@),
        builtin_variable("vec2"@, "UV"@, true, "UV that comes from vertex function."@),
        builtin_variable("vec2"@, "UV2"@, true, "UV2 that comes from vertex function."@),
        builtin_variable("vec3"@, "VIEW"@, true, "View vector, in view space."@),
        builtin_variable("vec3"@, "LIGHT"@, true, "Light Vector, in view space."@),
        builtin_variable("vec3"@, "LIGHT_COLOR"@, true, "Color of light multiplied by energy * PI. The PI multiplication is present
because physically-based lighting models include a division by PI."@),
        builtin_variable("float"@, "SPECULAR_AMOUNT"@, true, "2.0 * light_specular property for OmniLight3D and SpotLight3D. 1.0 for DirectionalLight3D."@),
        builtin_variable("bool"@, "LIGHT_IS_DIRECTIONAL"@, true, "true if this pass is a DirectionalLight3D."@),
        builtin_variable("float"@, "ATTENUATION"@, true, "Attenuation based on distance or shadow."@),
        builtin_variable("vec3"@, "ALBEDO"@, true, "Base albedo."@),
        builtin_variable("vec3"@, "BACKLIGHT"@, true, ""@),
        builtin_variable("float"@, "METALLIC"@, true, "Metallic."@),
        builtin_variable("float"@, "ROUGHNESS"@, true, "Roughness."@),
        builtin_variable("bool"@, "OUTPUT_IS_SRGB"@, true, "true when output is in sRGB color space (this is true in the Compatibility renderer,
false in Forward+ and Forward Mobile)."@),
        builtin_variable("vec3"@, "DIFFUSE_LIGHT"@, false, "Diffuse light result."@),
        builtin_variable("vec3"@, "SPECULAR_LIGHT"@, false, "Specular light result."@),
        builtin_variable("float"@, "ALPHA"@, false, "Alpha (0..1); if written to, the material will go to the transparent pipeline."@),
    ]
}

/// Names that the `light` function of a spatial shader sees.
pub fn spatial_light_vars() -> (r: Vec<(String, ValueInfo)>)
    ensures
        r.deep_view() == spatial_light_vars_table(),
        r.len() == 24,
{
    let mut r: Vec<(String, ValueInfo)> = Vec::new();
    assert(r.deep_view() =~= Seq::empty());
    add_variable(&mut r, "vec2", "VIEWPORT_SIZE", true, "Size of viewport (in pixels).");
    add_variable(&mut r, "vec4", "FRAGCOORD", true, "Coordinate of pixel center in screen space. xy specifies position in window,
z specifies fragment depth if DEPTH is not used. Origin is lower-left.");
    add_variable(&mut r, "mat4", "MODEL_MATRIX", true, "Model space to world space transform.");
    add_variable(&mut r, "mat4", "INV_VIEW_MATRIX", true, "View space to world space transform.");
    add_variable(&mut r, "mat4", "VIEW_MATRIX", true, "World space to view space transform.");
    add_variable(&mut r, "mat4", "PROJECTION_MATRIX", true, "View space to clip space transform.");
    add_variable(&mut r, "mat4", "INV_PROJECTION_MATRIX", true, "Clip space to view space transform.");
    add_variable(&mut r, "vec3", "NORMAL", true, "Normal vector, in view space.");
    add_variable(&mut r, "vec2", "UV", true, "UV that comes from vertex function.");
    add_variable(&mut r, "vec2", "UV2", true, "UV2 that comes from vertex function.");
    add_variable(&mut r, "vec3", "VIEW", true, "View vector, in view space.");
    add_variable(&mut r, "vec3", "LIGHT", true, "Light Vector, in view space.");
    add_variable(&mut r, "vec3", "LIGHT_COLOR", true, "Color of light multiplied by energy * PI. The PI multiplication is present
because physically-based lighting models include a division by PI.");
    add_variable(&mut r, "float", "SPECULAR_AMOUNT", true, "2.0 * light_specular property for OmniLight3D and SpotLight3D. 1.0 for DirectionalLight3D.");
    add_variable(&mut r, "bool", "LIGHT_IS_DIRECTIONAL", true, "true if this pass is a DirectionalLight3D.");
    add_variable(&mut r, "float", "ATTENUATION", true, "Attenuation based on distance or shadow.");
    add_variable(&mut r, "vec3", "ALBEDO", true, "Base albedo.");
    add_variable(&mut r, "vec3", "BACKLIGHT", true, "");
    add_variable(&mut r, "float", "METALLIC", true, "Metallic.");
    add_variable(&mut r, "float", "ROUGHNESS", true, "Roughness.");
    add_variable(&mut r, "bool", "OUTPUT_IS_SRGB", true, "true when output is in sRGB color space (this is true in the Compatibility renderer,
false in Forward+ and Forward Mobile).");
    add_variable(&mut r, "vec3", "DIFFUSE_LIGHT", false, "Diffuse light result.");
    add_variable(&mut r, "vec3", "SPECULAR_LIGHT", false, "Specular light result.");
    add_variable(&mut r, "float", "ALPHA", false, "Alpha (0..1); if written to, the material will go to the transparent pipeline.");
    r
}

/// Names that the `vertex` function of a canvas-item shader sees.
pub open spec fn canvas_item_vertex_vars_table() -> SpecTable<SpecValueInfo> {
    seq![
        builtin_variable("mat4"@, "MODEL_MATRIX"@, true, "Local space to world space transform. World space is the coordinates you normally
use in the editor."@),
        builtin_variable("mat4"@, "CANVAS_MATRIX"@, true, "World space to canvas space transform. In canvas space the origin is the upper-left
corner of the screen and coordinates ranging from (0, 0) to viewport size."@),
        builtin_variable("mat4"@, "SCREEN_MATRIX"@, true, "Canvas space to clip space. In clip space coordinates ranging from (-1, -1) to (1, 1)."@),
        builtin_variable("int"@, "INSTANCE_ID"@, true, "Instance ID for instancing."@),
        builtin_variable("vec4"@, "INSTANCE_CUSTOM"@, true, "Instance custom data."@),
        builtin_variable("bool"@, "AT_LIGHT_PASS"@, true, "Always false."@),
        builtin_variable("vec2"@, "TEXTURE_PIXEL_SIZE"@, true, "Normalized pixel size of default 2D texture. For a Sprite2D with a texture of size
64x32px, TEXTURE_PIXEL_SIZE = vec2(1/64, 1/32)"@),
        builtin_variable("vec2"@, "VERTEX"@, false, "Vertex, in local space."@),
        builtin_variable("int"@, "VERTEX_ID"@, true, "The index of the current vertex in the vertex buffer."@),
        builtin_variable("vec2"@, "UV"@, false, "Normalized texture coordinates. Range from 0 to 1."@),
        builtin_variable("vec4"@, "COLOR"@, false, "Color from vertex primitive."@),
        builtin_variable("float"@, "POINT_SIZE"@, false, "Point size for point drawing."@),
    ]
}

/// Names that the `vertex` function of a canvas-item shader sees.
pub fn canvas_item_vertex_vars() -> (r: Vec<(String, ValueInfo)>)
    ensures
        r.deep_view() == canvas_item_vertex_vars_table(),
        r.len() == 12,
{
    let mut r: Vec<(String, ValueInfo)> = Vec::new();
    assert(r.deep_view() =~= Seq::empty());
    add_variable(&mut r, "mat4", "MODEL_MATRIX", true, "Local space to world space transform. World space is the coordinates you normally
use in the editor.");
    add_variable(&mut r, "mat4", "CANVAS_MATRIX", true, "World space to canvas space transform. In canvas space the origin is the upper-left
corner of the screen and coordinates ranging from (0, 0) to viewport size.");
    add_variable(&mut r, "mat4", "SCREEN_MATRIX", true, "Canvas space to clip space. In clip space coordinates ranging from (-1, -1) to (1, 1).");
    add_variable(&mut r, "int", "INSTANCE_ID", true, "Instance ID for instancing.");
    add_variable(&mut r, "vec4", "INSTANCE_CUSTOM", true, "Instance custom data.");
    add_variable(&mut r, "bool", "AT_LIGHT_PASS", true, "Always false.");
    add_variable(&mut r, "vec2", "TEXTURE_PIXEL_SIZE", true, "Normalized pixel size of default 2D texture. For a Sprite2D with a texture of size
64x32px, TEXTURE_PIXEL_SIZE = vec2(1/64, 1/32)");
    add_variable(&mut r, "vec2", "VERTEX", false, "Vertex, in local space.");
    add_variable(&mut r, "int", "VERTEX_ID", true, "The index of the current vertex in the vertex buffer.");
    add_variable(&mut r, "vec2", "UV", false, "Normalized texture coordinates. Range from 0 to 1.");
    add_variable(&mut r, "vec4", "COLOR", false, "Color from vertex primitive.");
    add_variable(&mut r, "float", "POINT_SIZE", false, "Point size for point drawing.");
    r
}

/// Names that the `fragment` function of a canvas-item shader sees.
pub open spec fn canvas_item_fragment_vars_table() -> SpecTable<SpecValueInfo> {
    seq![
        builtin_variable("vec4"@, "FRAGCOORD"@, true, "Coordinate of pixel center. In screen space. xy specifies position in window.
Origin is lower-left."@),
        builtin_variable("vec2"@, "SCREEN_PIXEL_SIZE"@, true, "Size of individual pixels. Equal to inverse of resolution."@),
        builtin_variable("vec2"@, "POINT_COORD"@, true, "Coordinate for drawing points."@),
        builtin_variable("sampler2D"@, "TEXTURE"@, false, "Default 2D texture."@),
        builtin_variable("vec2"@, "TEXTURE_PIXEL_SIZE"@, true, "Normalized pixel size of default 2D texture. For a Sprite2D with a texture of size
64x32px, TEXTURE_PIXEL_SIZE = vec2(1/64, 1/32)"@),
        builtin_variable("bool"@, "AT_LIGHT_PASS"@, true, "Always false."@),
        builtin_variable("sampler2D"@, "SPECULAR_SHININESS_TEXTURE"@, false, "Specular shininess texture of this object."@),
        builtin_variable("vec4"@, "SPECULAR_SHININESS"@, true, "Specular shininess color, as sampled from the texture."@),
        builtin_variable("vec2"@, "UV"@, true, "UV from vertex function."@),
        builtin_variable("vec2"@, "SCREEN_UV"@, true, "Screen UV coordinate for current pixel."@),
        builtin_variable("vec3"@, "NORMAL"@, false, "Normal read from NORMAL_TEXTURE. Writable."@),
        builtin_variable("sampler2D"@, "NORMAL_TEXTURE"@, false, "Default 2D normal texture."@),
        builtin_variable("vec3"@, "NORMAL_MAP"@, false, "Configures normal maps meant for 3D for use in 2D. If used, overrides NORMAL."@),
        builtin_variable("float"@, "NORMAL_MAP_DEPTH"@, false, "Normalmap depth for scaling."@),
        builtin_variable("vec2"@, "VERTEX"@, false, "Pixel position in screen space."@),
        builtin_variable("vec2"@, "SHADOW_VERTEX"@, false, "Same as VERTEX but can be written to alter shadows."@),
        builtin_variable("vec3"@, "LIGHT_VERTEX"@, false, "Same as VERTEX but can be written to alter lighting. Z component represents height."@),
        builtin_variable("vec4"@, "COLOR"@, false, "Color from vertex function multiplied by the TEXTURE color. Also output color value."@),
    ]
}

/// Names that the `fragment` function of a canvas-item shader sees.
pub fn canvas_item_fragment_vars() -> (r: Vec<(String, ValueInfo)>)
    ensures
        r.deep_view() == canvas_item_fragment_vars_table(),
        r.len() == 18,
{
    let mut r: Vec<(String, ValueInfo)> = Vec::new();
    assert(r.deep_view() =~= Seq::empty());
    add_variable(&mut r, "vec4", "FRAGCOORD", true, "Coordinate of pixel center. In screen space. xy specifies position in window.
Origin is lower-left.");
    add_variable(&mut r, "vec2", "SCREEN_PIXEL_SIZE", true, "Size of individual pixels. Equal to inverse of resolution.");
    add_variable(&mut r, "vec2", "POINT_COORD", true, "Coordinate for drawing points.");
    add_variable(&mut r, "sampler2D", "TEXTURE", false, "Default 2D texture.");
    add_variable(&mut r, "vec2", "TEXTURE_PIXEL_SIZE", true, "Normalized pixel size of default 2D texture. For a Sprite2D with a texture of size
64x32px, TEXTURE_PIXEL_SIZE = vec2(1/64, 1/32)");
    add_variable(&mut r, "bool", "AT_LIGHT_PASS", true, "Always false.");
    add_variable(&mut r, "sampler2D", "SPECULAR_SHININESS_TEXTURE", false, "Specular shininess texture of this object.");
    add_variable(&mut r, "vec4", "SPECULAR_SHININESS", true, "Specular shininess color, as sampled from the texture.");
    add_variable(&mut r, "vec2", "UV", true, "UV from vertex function.");
    add_variable(&mut r, "vec2", "SCREEN_UV", true, "Screen UV coordinate for current pixel.");
    add_variable(&mut r, "vec3", "NORMAL", false, "Normal read from NORMAL_TEXTURE. Writable.");
    add_variable(&mut r, "sampler2D", "NORMAL_TEXTURE", false, "Default 2D normal texture.");
    add_variable(&mut r, "vec3", "NORMAL_MAP", false, "Configures normal maps meant for 3D for use in 2D. If used, overrides NORMAL.");
    add_variable(&mut r, "float", "NORMAL_MAP_DEPTH", false, "Normalmap depth for scaling.");
    add_variable(&mut r, "vec2", "VERTEX", false, "Pixel position in screen space.");
    add_variable(&mut r, "vec2", "SHADOW_VERTEX", false, "Same as VERTEX but can be written to alter shadows.");
    add_variable(&mut r, "vec3", "LIGHT_VERTEX", false, "Same as VERTEX but can be written to alter lighting. Z component represents height.");
    add_variable(&mut r, "vec4", "COLOR", false, "Color from vertex function multiplied by the TEXTURE color. Also output color value.");
    r
}

/// Names that the `light` function of a canvas-item shader sees.
pub open spec fn canvas_item_light_vars_table() -> SpecTable<SpecValueInfo> {
    seq![
        builtin_variable("vec4"@, "FRAGCOORD"@, true, "Coordinate of pixel center. In screen space. xy specifies position in window.
Origin is lower-left."@),
        builtin_variable("vec3"@, "NORMAL"@, true, "Input Normal."@),
        builtin_variable("vec4"@, "COLOR"@, true, "Input Color. This is the output of the fragment function."@),
        builtin_variable("vec2"@, "UV"@, true, "UV from vertex function, equivalent to the UV in the fragment function."@),
        builtin_variable("sampler2D"@, "TEXTURE"@, false, "Current texture in use for CanvasItem."@),
        builtin_variable("vec2"@, "TEXTURE_PIXEL_SIZE"@, true, "Normalized pixel size of TEXTURE. For a Sprite2D with a TEXTURE of size
64x32px, TEXTURE_PIXEL_SIZE = vec2(1/64, 1/32)"@),
        builtin_variable("vec2"@, "SCREEN_UV"@, true, "Screen UV coordinate for current pixel."@),
        builtin_variable("vec2"@, "POINT_COORD"@, true, "UV for Point Sprite."@),
        builtin_variable("vec4"@, "LIGHT_COLOR"@, true, "Color of Light multiplied by Light's texture."@),
        builtin_variable("float"@, "LIGHT_ENERGY"@, true, "Energy multiplier of Light."@),
        builtin_variable("vec3"@, "LIGHT_POSITION"@, true, "Position of Light in screen space. If using a DirectionalLight2D this is always vec3(0,0,0)."@),
        builtin_variable("vec3"@, "LIGHT_DIRECTION"@, true, "Direction of Light in screen space."@),
        builtin_variable("bool"@, "LIGHT_IS_DIRECTIONAL"@, true, "true if this pass is a DirectionalLight2D."@),
        builtin_variable("vec3"@, "LIGHT_VERTEX"@, true, "Pixel position, in screen space as modified in the fragment function."@),
        builtin_variable("vec4"@, "LIGHT"@, false, "Output color for this Light."@),
        builtin_variable("vec4"@, "SPECULAR_SHININESS"@, true, "Specular shininess, as set in the object's texture."@),
        builtin_variable("vec4"@, "SHADOW_MODULATE"@, false, "Multiply shadows cast at this point by this color."@),
    ]
}

/// Names that the `light` function of a canvas-item shader sees.
pub fn canvas_item_light_vars() -> (r: Vec<(String, ValueInfo)>)
    ensures
        r.deep_view() == canvas_item_light_vars_table(),
        r.len() == 17,
{
    let mut r: Vec<(String, ValueInfo)> = Vec::new();
    assert(r.deep_view() =~= Seq::empty());
    add_variable(&mut r, "vec4", "FRAGCOORD", true, "Coordinate of pixel center. In screen space. xy specifies position in window.
Origin is lower-left.");
    add_variable(&mut r, "vec3", "NORMAL", true, "Input Normal.");
    add_variable(&mut r, "vec4", "COLOR", true, "Input Color. This is the output of the fragment function.");
    add_variable(&mut r, "vec2", "UV", true, "UV from vertex function, equivalent to the UV in the fragment function.");
    add_variable(&mut r, "sampler2D", "TEXTURE", false, "Current texture in use for CanvasItem.");
    add_variable(&mut r, "vec2", "TEXTURE_PIXEL_SIZE", true, "Normalized pixel size of TEXTURE. For a Sprite2D with a TEXTURE of size
64x32px, TEXTURE_PIXEL_SIZE = vec2(1/64, 1/32)");
    add_variable(&mut r, "vec2", "SCREEN_UV", true, "Screen UV coordinate for current pixel.");
    add_variable(&mut r, "vec2", "POINT_COORD", true, "UV for Point Sprite.");
    add_variable(&mut r, "vec4", "LIGHT_COLOR", true, "Color of Light multiplied by Light's texture.");
    add_variable(&mut r, "float", "LIGHT_ENERGY", true, "Energy multiplier of Light.");
    add_variable(&mut r, "vec3", "LIGHT_POSITION", true, "Position of Light in screen space. If using a DirectionalLight2D this is always vec3(0,0,0).");
    add_variable(&mut r, "vec3", "LIGHT_DIRECTION", true, "Direction of Light in screen space.");
    add_variable(&mut r, "bool", "LIGHT_IS_DIRECTIONAL", true, "true if this pass is a DirectionalLight2D.");
    add_variable(&mut r, "vec3", "LIGHT_VERTEX", true, "Pixel position, in screen space as modified in the fragment function.");
    add_variable(&mut r, "vec4", "LIGHT", false, "Output color for this Light.");
    add_variable(&mut r, "vec4", "SPECULAR_SHININESS", true, "Specular shininess, as set in the object's texture.");
    add_variable(&mut r, "vec4", "SHADOW_MODULATE", false, "Multiply shadows cast at this point by this color.");
    r
}

/// Names that both the `start` and the `process` function of a particle shader see.
pub open spec fn particle_start_process_table() -> SpecTable<SpecValueInfo> {
    seq![
        builtin_variable("float"@, "LIFETIME"@, true, "Particle lifetime."@),
        builtin_variable("float"@, "DELTA"@, true, "Delta process time."@),
        builtin_variable("uint"@, "NUMBER"@, true, "Unique number since emission start."@),
        builtin_variable("uint"@, "INDEX"@, true, "Particle index (from total particles)."@),
        builtin_variable("mat4"@, "EMISSION_TRANSFORM"@, true, "Emitter transform (used for non-local systems)."@),
        builtin_variable("uint"@, "RANDOM_SEED"@, true, "Random seed used as base for random."@),
        builtin_variable("bool"@, "ACTIVE"@, false, "true when the particle is active, can be set false."@),
        builtin_variable("vec4"@, "COLOR"@, false, "Particle color, can be written to and accessed in mesh's vertex function."@),
        builtin_variable("vec3"@, "VELOCITY"@, false, "Particle velocity, can be modified."@),
        builtin_variable("mat4"@, "TRANSFORM"@, false, "Particle transform."@),
        builtin_variable("vec4"@, "CUSTOM"@, false, "Custom particle data. Accessible from shader of mesh as INSTANCE_CUSTOM."@),
        builtin_variable("float"@, "MASS"@, false, "Particle mass, intended to be used with attractors. Equals 1.0 by default."@),
        builtin_variable("vec4"@, "USERDATAX"@, false, "Vector that enables the integration of supplementary user-defined data into the
particle process shader. USERDATAX are six built-ins identified by number, X can
be numbers between 1 and 6."@),
        builtin_variable("uint"@, "FLAG_EMIT_POSITION"@, false, "A flag for using on the last argument of emit_subparticle function to assign a
position to a new particle's transform."@),
        builtin_variable("uint"@, "FLAG_EMIT_ROT_SCALE"@, false, "A flag for using on the last argument of emit_subparticle function to assign the
rotation and scale to a new particle's transform."@),
        builtin_variable("uint"@, "FLAG_EMIT_VELOCITY"@, false, "A flag for using on the last argument of emit_subparticle function to assign a
velocity to a new particle."@),
        builtin_variable("uint"@, "FLAG_EMIT_COLOR"@, false, "A flag for using on the last argument of emit_subparticle function to assign a
color to a new particle."@),
        builtin_variable("uint"@, "FLAG_EMIT_CUSTOM"@, false, "A flag for using on the last argument of emit_subparticle function to assign a
custom data vector to a new particle."@),
        builtin_variable("vec3"@, "EMITTER_VELOCITY"@, false, "Velocity of the Particles node."@),
        builtin_variable("float"@, "INTERPOLATE_TO_END"@, false, "Value of interp_to_end property of Particles node."@),
        builtin_variable("uint"@, "AMOUNT_RATIO"@, false, "Value of amount_ratio property of Particles node."@),
    ]
}

/// Names that both the `start` and the `process` function of a particle shader see.
pub fn particle_start_process() -> (r: Vec<(String, ValueInfo)>)
    ensures
        r.deep_view() == particle_start_process_table(),
        r.len() == 21,
{
    let mut r: Vec<(String, ValueInfo)> = Vec::new();
    assert(r.deep_view() =~= Seq::empty());
    add_variable(&mut r, "float", "LIFETIME", true, "Particle lifetime.");
    add_variable(&mut r, "float", "DELTA", true, "Delta process time.");
    add_variable(&mut r, "uint", "NUMBER", true, "Unique number since emission start.");
    add_variable(&mut r, "uint", "INDEX", true, "Particle index (from total particles).");
    add_variable(&mut r, "mat4", "EMISSION_TRANSFORM", true, "Emitter transform (used for non-local systems).");
    add_variable(&mut r, "uint", "RANDOM_SEED", true, "Random seed used as base for random.");
    add_variable(&mut r, "bool", "ACTIVE", false, "true when the particle is active, can be set false.");
    add_variable(&mut r, "vec4", "COLOR", false, "Particle color, can be written to and accessed in mesh's vertex function.");
    add_variable(&mut r, "vec3", "VELOCITY", false, "Particle velocity, can be modified.");
    add_variable(&mut r, "mat4", "TRANSFORM", false, "Particle transform.");
    add_variable(&mut r, "vec4", "CUSTOM", false, "Custom particle data. Accessible from shader of mesh as INSTANCE_CUSTOM.");
    add_variable(&mut r, "float", "MASS", false, "Particle mass, intended to be used with attractors. Equals 1.0 by default.");
    add_variable(&mut r, "vec4", "USERDATAX", false, "Vector that enables the integration of supplementary user-defined data into the
particle process shader. USERDATAX are six built-ins identified by number, X can
be numbers between 1 and 6.");
    add_variable(&mut r, "uint", "FLAG_EMIT_POSITION", false, "A flag for using on the last argument of emit_subparticle function to assign a
position to a new particle's transform.");
    add_variable(&mut r, "uint", "FLAG_EMIT_ROT_SCALE", false, "A flag for using on the last argument of emit_subparticle function to assign the
rotation and scale to a new particle's transform.");
    add_variable(&mut r, "uint", "FLAG_EMIT_VELOCITY", false, "A flag for using on the last argument of emit_subparticle function to assign a
velocity to a new particle.");
    add_variable(&mut r, "uint", "FLAG_EMIT_COLOR", false, "A flag for using on the last argument of emit_subparticle function to assign a
color to a new particle.");
    add_variable(&mut r, "uint", "FLAG_EMIT_CUSTOM", false, "A flag for using on the last argument of emit_subparticle function to assign a
custom data vector to a new particle.");
    add_variable(&mut r, "vec3", "EMITTER_VELOCITY", false, "Velocity of the Particles node.");
    add_variable(&mut r, "float", "INTERPOLATE_TO_END", false, "Value of interp_to_end property of Particles node.");
    add_variable(&mut r, "uint", "AMOUNT_RATIO", false, "Value of amount_ratio property of Particles node.");
    r
}

/// Names that the `start` function of a particle shader sees.
pub open spec fn particle_start_table() -> SpecTable<SpecValueInfo> {
    seq![
        builtin_variable("bool"@, "RESTART_POSITION"@, true, "true if particle is restarted, or emitted without a custom position
(i.e. this particle was created by emit_subparticle() without the FLAG_EMIT_POSITION flag)."@),
        builtin_variable("bool"@, "RESTART_ROT_SCALE"@, true, "true if particle is restarted, or emitted without a custom rotation or scale
(i.e. this particle was created by emit_subparticle() without the FLAG_EMIT_ROT_SCALE flag)."@),
        builtin_variable("bool"@, "RESTART_VELOCITY"@, true, "true if particle is restarted, or emitted without a custom velocity
(i.e. this particle was created by emit_subparticle() without the FLAG_EMIT_VELOCITY flag)."@),
        builtin_variable("bool"@, "RESTART_COLOR"@, true, "true if particle is restarted, or emitted without a custom color
(i.e. this particle was created by emit_subparticle() without the FLAG_EMIT_COLOR flag)."@),
        builtin_variable("bool"@, "RESTART_CUSTOM"@, true, "true if particle is restarted, or emitted without a custom property
(i.e. this particle was created by emit_subparticle() without the FLAG_EMIT_CUSTOM flag)."@),
    ]
}

/// Names that the `start` function of a particle shader sees.
pub fn particle_start() -> (r: Vec<(String, ValueInfo)>)
    ensures
        r.deep_view() == particle_start_table(),
        r.len() == 5,
{
    let mut r: Vec<(String, ValueInfo)> = Vec::new();
    assert(r.deep_view() =~= Seq::empty());
    add_variable(&mut r, "bool", "RESTART_POSITION", true, "true if particle is restarted, or emitted without a custom position
(i.e. this particle was created by emit_subparticle() without the FLAG_EMIT_POSITION flag).");
    add_variable(&mut r, "bool", "RESTART_ROT_SCALE", true, "true if particle is restarted, or emitted without a custom rotation or scale
(i.e. this particle was created by emit_subparticle() without the FLAG_EMIT_ROT_SCALE flag).");
    add_variable(&mut r, "bool", "RESTART_VELOCITY", true, "true if particle is restarted, or emitted without a custom velocity
(i.e. this particle was created by emit_subparticle() without the FLAG_EMIT_VELOCITY flag).");
    add_variable(&mut r, "bool", "RESTART_COLOR", true, "true if particle is restarted, or emitted without a custom color
(i.e. this particle was created by emit_subparticle() without the FLAG_EMIT_COLOR flag).");
    add_variable(&mut r, "bool", "RESTART_CUSTOM", true, "true if particle is restarted, or emitted without a custom property
(i.e. this particle was created by emit_subparticle() without the FLAG_EMIT_CUSTOM flag).");
    r
}

/// Names that the `process` function of a particle shader sees.
pub open spec fn particle_process_table() -> SpecTable<SpecValueInfo> {
    seq![
        builtin_variable("bool"@, "RESTART"@, true, "true if the current process frame is first for the particle."@),
        builtin_variable("bool"@, "COLLIDED"@, true, "true when the particle has collided with a particle collider."@),
        builtin_variable("vec3"@, "COLLISION_NORMAL"@, true, "A normal of the last collision. If there is no collision detected it is equal to vec3(0.0)."@),
        builtin_variable("float"@, "COLLISION_DEPTH"@, true, "A length of normal of the last collision. If there is no collision detected it is equal to 0.0."@),
        builtin_variable("vec3"@, "ATTRACTOR_FORCE"@, true, "A combined force of the attractors at the moment on that particle."@),
    ]
}

/// Names that the `process` function of a particle shader sees.
pub fn particle_process() -> (r: Vec<(String, ValueInfo)>)
    ensures
        r.deep_view() == particle_process_table(),
        r.len() == 5,
{
    let mut r: Vec<(String, ValueInfo)> = Vec::new();
    assert(r.deep_view() =~= Seq::empty());
    add_variable(&mut r, "bool", "RESTART", true, "true if the current process frame is first for the particle.");
    add_variable(&mut r, "bool", "COLLIDED", true, "true when the particle has collided with a particle collider.");
    add_variable(&mut r, "vec3", "COLLISION_NORMAL", true, "A normal of the last collision. If there is no collision detected it is equal to vec3(0.0).");
    add_variable(&mut r, "float", "COLLISION_DEPTH", true, "A length of normal of the last collision. If there is no collision detected it is equal to 0.0.");
    add_variable(&mut r, "vec3", "ATTRACTOR_FORCE", true, "A combined force of the attractors at the moment on that particle.");
    r
}

/// Names that a sky shader sees everywhere.
pub open spec fn sky_builtins_table() -> SpecTable<SpecValueInfo> {
    seq![
        builtin_variable("vec3"@, "POSITION"@, true, "Camera position in world space."@),
        builtin_variable("samplerCube"@, "RADIANCE"@, true, "Radiance cubemap. Can only be read from during background pass.
Check !AT_CUBEMAP_PASS before using."@),
        builtin_variable("bool"@, "AT_HALF_RES_PASS"@, true, "Currently rendering to half resolution pass."@),
        builtin_variable("bool"@, "AT_QUARTER_RES_PASS"@, true, "Currently rendering to quarter resolution pass."@),
        builtin_variable("bool"@, "AT_CUBEMAP_PASS"@, true, "Currently rendering to radiance cubemap."@),
        builtin_variable("bool"@, "LIGHTX_ENABLED"@, true, "LightX is visible and in the scene. If false, other light properties may be garbage."@),
        builtin_variable("float"@, "LIGHTX_ENERGY"@, true, "Energy multiplier for LIGHTX."@),
        builtin_variable("vec3"@, "LIGHTX_DIRECTION"@, true, "Direction that LIGHTX is facing."@),
        builtin_variable("vec3"@, "LIGHTX_COLOR"@, true, "Color of LIGHTX."@),
        builtin_variable("float"@, "LIGHTX_SIZE"@, true, "Angular diameter of LIGHTX in the sky. Expressed in degrees. For reference,
the sun from earth is about 0.5 degrees."@),
    ]
}

/// Names that a sky shader sees everywhere.
pub fn sky_builtins() -> (r: Vec<(String, ValueInfo)>)
    ensures
        r.deep_view() == sky_builtins_table(),
        r.len() == 10,
{
    let mut r: Vec<(String, ValueInfo)> = Vec::new();
    assert(r.deep_view() =~= Seq::empty());
    add_variable(&mut r, "vec3", "POSITION", true, "Camera position in world space.");
    add_variable(&mut r, "samplerCube", "RADIANCE", true, "Radiance cubemap. Can only be read from during background pass.
Check !AT_CUBEMAP_PASS before using.");
    add_variable(&mut r, "bool", "AT_HALF_RES_PASS", true, "Currently rendering to half resolution pass.");
    add_variable(&mut r, "bool", "AT_QUARTER_RES_PASS", true, "Currently rendering to quarter resolution pass.");
    add_variable(&mut r, "bool", "AT_CUBEMAP_PASS", true, "Currently rendering to radiance cubemap.");
    add_variable(&mut r, "bool", "LIGHTX_ENABLED", true, "LightX is visible and in the scene. If false, other light properties may be garbage.");
    add_variable(&mut r, "float", "LIGHTX_ENERGY", true, "Energy multiplier for LIGHTX.");
    add_variable(&mut r, "vec3", "LIGHTX_DIRECTION", true, "Direction that LIGHTX is facing.");
    add_variable(&mut r, "vec3", "LIGHTX_COLOR", true, "Color of LIGHTX.");
    add_variable(&mut r, "float", "LIGHTX_SIZE", true, "Angular diameter of LIGHTX in the sky. Expressed in degrees. For reference,
the sun from earth is about 0.5 degrees.");
    r
}

/// Names that the sky function sees.
pub open spec fn sky_stuff_table() -> SpecTable<SpecValueInfo> {
    seq![
        builtin_variable("vec3"@, "EYEDIR"@, true, "Normalized direction of current pixel. Use this as your basic direction for procedural effects."@),
        builtin_variable("vec2"@, "SCREEN_UV"@, true, "Screen UV coordinate for current pixel. Used to map a texture to the full screen."@),
        builtin_variable("vec2"@, "SKY_COORDS"@, true, "Sphere UV. Used to map a panorama texture to the sky."@),
        builtin_variable("vec4"@, "HALF_RES_COLOR"@, true, "Color value of corresponding pixel from half resolution pass. Uses linear filter."@),
        builtin_variable("vec4"@, "QUARTER_RES_COLOR"@, true, "Color value of corresponding pixel from quarter resolution pass. Uses linear filter."@),
        builtin_variable("vec3"@, "COLOR"@, false, "Output color."@),
        builtin_variable("float"@, "ALPHA"@, false, "Output alpha value, can only be used in subpasses."@),
        builtin_variable("vec4"@, "FOG"@, false, ""@),
    ]
}

/// Names that the sky function sees.
pub fn sky_stuff() -> (r: Vec<(String, ValueInfo)>)
    ensures
        r.deep_view() == sky_stuff_table(),
        r.len() == 8,
{
    let mut r: Vec<(String, ValueInfo)> = Vec::new();
    assert(r.deep_view() =~= Seq::empty());
    add_variable(&mut r, "vec3", "EYEDIR", true, "Normalized direction of current pixel. Use this as your basic direction for procedural effects.");
    add_variable(&mut r, "vec2", "SCREEN_UV", true, "Screen UV coordinate for current pixel. Used to map a texture to the full screen.");
    add_variable(&mut r, "vec2", "SKY_COORDS", true, "Sphere UV. Used to map a panorama texture to the sky.");
    add_variable(&mut r, "vec4", "HALF_RES_COLOR", true, "Color value of corresponding pixel from half resolution pass. Uses linear filter.");
    add_variable(&mut r, "vec4", "QUARTER_RES_COLOR", true, "Color value of corresponding pixel from quarter resolution pass. Uses linear filter.");
    add_variable(&mut r, "vec3", "COLOR", false, "Output color.");
    add_variable(&mut r, "float", "ALPHA", false, "Output alpha value, can only be used in subpasses.");
    add_variable(&mut r, "vec4", "FOG", false, "");
    r
}

/// Names that the fog function sees.
pub open spec fn fog_stuff_table() -> SpecTable<SpecValueInfo> {
    seq![
        builtin_variable("vec3"@, "WORLD_POSITION"@, true, "Position of current froxel cell in world space."@),
        builtin_variable("vec3"@, "OBJECT_POSITION"@, true, "Position of the center of the current FogVolume in world space."@),
        builtin_variable("vec3"@, "UVW"@, true, "3-dimensional uv, used to map a 3D texture to the current FogVolume."@),
        builtin_variable("vec3"@, "SIZE"@, true, "Size of the current FogVolume when its shape has a size."@),
        builtin_variable("vec3"@, "SDF"@, true, "Signed distance field to the surface of the FogVolume. Negative if inside volume,
positive otherwise."@),
        builtin_variable("vec3"@, "ALBEDO"@, false, "Output base color value, interacts with light to produce final color. Only written
to fog volume if used."@),
        builtin_variable("float"@, "DENSITY"@, false, "Output density value. Can be negative to allow subtracting one volume from another.
Density must be used for fog shader to write anything at all."@),
        builtin_variable("vec3"@, "EMISSION"@, false, "Output emission color value, added to color during light pass to produce final color.
Only written to fog volume if used."@),
    ]
}

/// Names that the fog function sees.
pub fn fog_stuff() -> (r: Vec<(String, ValueInfo)>)
    ensures
        r.deep_view() == fog_stuff_table(),
        r.len() == 8,
{
    let mut r: Vec<(String, ValueInfo)> = Vec::new();
    assert(r.deep_view() =~= Seq::empty());
    add_variable(&mut r, "vec3", "WORLD_POSITION", true, "Position of current froxel cell in world space.");
    add_variable(&mut r, "vec3", "OBJECT_POSITION", true, "Position of the center of the current FogVolume in world space.");
    add_variable(&mut r, "vec3", "UVW", true, "3-dimensional uv, used to map a 3D texture to the current FogVolume.");
    add_variable(&mut r, "vec3", "SIZE", true, "Size of the current FogVolume when its shape has a size.");
    add_variable(&mut r, "vec3", "SDF", true, "Signed distance field to the surface of the FogVolume. Negative if inside volume,
positive otherwise.");
    add_variable(&mut r, "vec3", "ALBEDO", false, "Output base color value, interacts with light to produce final color. Only written
to fog volume if used.");
    add_variable(&mut r, "float", "DENSITY", false, "Output density value. Can be negative to allow subtracting one volume from another.
Density must be used for fog shader to write anything at all.");
    add_variable(&mut r, "vec3", "EMISSION", false, "Output emission color value, added to color during light pass to produce final color.
Only written to fog volume if used.");
    r
}

} // verus!
