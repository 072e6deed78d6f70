//! Hints: annotations on uniforms.

use vstd::prelude::*;
use vstd::string::*;
use crate::memory::table::SpecTable;
use crate::memory::types::{plain_type, SpecTypeInfo, TypeInfo};

verus! {

/// What a hint accepts: the types it may annotate and the numbers of
/// arguments it may take.
#[derive(Debug)]
pub struct HintInfo {
    pub type_info: Vec<TypeInfo>,
    pub num_arguments: Vec<usize>,
    pub description: String,
}

/// The mathematical value of a [`HintInfo`].
pub struct SpecHintInfo {
    pub type_info: Seq<SpecTypeInfo>,
    pub num_arguments: Seq<usize>,
    pub description: Seq<char>,
}

impl DeepView for HintInfo {
    type V = SpecHintInfo;

    open spec fn deep_view(&self) -> SpecHintInfo {
        SpecHintInfo {
            type_info: self.type_info.deep_view(),
            num_arguments: self.num_arguments@,
            description: self.description@,
        }
    }
}

/// The hint that accepts the types of the given names and the given
/// numbers of arguments.
pub open spec fn hint_for(types: Seq<Seq<char>>, counts: Seq<usize>, description: Seq<char>)
    -> SpecHintInfo {
    SpecHintInfo {
        type_info: types.map_values(|t: Seq<char>| plain_type(t)),
        num_arguments: counts,
        description,
    }
}

fn add_hint(
    list: &mut Vec<(String, HintInfo)>,
    name: &str,
    types: Vec<&'static str>,
    counts: Vec<usize>,
    description: &str,
)
    ensures
        final(list).deep_view() == old(list).deep_view().push(
            (
                name@,
                hint_for(types@.map_values(|t: &'static str| t@), counts@, description@),
            ),
        ),
        final(list).len() == old(list).len() + 1,
{
    let mut type_info: Vec<TypeInfo> = Vec::new();
    let mut i: usize = 0;
    while i < types.len()
        invariant
            i <= types.len(),
            type_info.len() == i,
            forall|j: int| 0 <= j < i ==> type_info@[j]@ == plain_type(types@[j]@),
        decreases types.len() - i,
    {
        type_info.push(TypeInfo::from_str(types[i]));
        i += 1;
    }
    let info = HintInfo {
        type_info,
        num_arguments: counts,
        description: String::from_str(description),
    };
    assert(info.deep_view().type_info =~= types@.map_values(|t: &'static str| t@).map_values(
        |t: Seq<char>| plain_type(t),
    ));
    list.push((String::from_str(name), info));
    assert(list.deep_view() =~= old(list).deep_view().push(
        (name@, hint_for(types@.map_values(|t: &'static str| t@), counts@, description@)),
    ));
}

/// The hints that a uniform may carry.
pub open spec fn builtin_hint_table() -> SpecTable<SpecHintInfo> {
    seq![
        ("source_color"@, hint_for(seq!["vec3"@, "vec4"@, "sampler2D"@], seq![0usize], "Used as color."@)),
        ("hint_range"@, hint_for(seq!["float"@, "int"@], seq![2usize, 3usize], "Restricted to values in a range (with min/max/step)."@)),
        ("hint_normal"@, hint_for(seq!["sampler2D"@], seq![0usize], "Used as normalmap."@)),
        ("hint_default_white"@, hint_for(seq!["sampler2D"@], seq![0usize], "As value or albedo color, default to opaque white."@)),
        ("hint_default_black"@, hint_for(seq!["sampler2D"@], seq![0usize], "As value or albedo color, default to opaque black."@)),
        ("hint_default_transparent"@, hint_for(seq!["sampler2D"@], seq![0usize], "As value or albedo color, default to transparent black."@)),
        ("hint_anisotropy"@, hint_for(seq!["sampler2D"@], seq![0usize], "As flowmap, default to right."@)),
        ("hint_roughness_r"@, hint_for(seq!["sampler2D"@], seq![0usize], "Used for roughness limiter on import (attempts reducing specular aliasing).
_normal is a normal map that guides the roughness limiter, with roughness
increasing in areas that have high-frequency detail."@)),
        ("hint_roughness_g"@, hint_for(seq!["sampler2D"@], seq![0usize], "Used for roughness limiter on import (attempts reducing specular aliasing).
_normal is a normal map that guides the roughness limiter, with roughness
increasing in areas that have high-frequency detail."@)),
        ("hint_roughness_b"@, hint_for(seq!["sampler2D"@], seq![0usize], "Used for roughness limiter on import (attempts reducing specular aliasing).
_normal is a normal map that guides the roughness limiter, with roughness
increasing in areas that have high-frequency detail."@)),
        ("hint_roughness_a"@, hint_for(seq!["sampler2D"@], seq![0usize], "Used for roughness limiter on import (attempts reducing specular aliasing).
_normal is a normal map that guides the roughness limiter, with roughness
increasing in areas that have high-frequency detail."@)),
        ("hint_roughness_normal"@, hint_for(seq!["sampler2D"@], seq![0usize], "Used for roughness limiter on import (attempts reducing specular aliasing).
_normal is a normal map that guides the roughness limiter, with roughness
increasing in areas that have high-frequency detail."@)),
        ("hint_roughness_gray"@, hint_for(seq!["sampler2D"@], seq![0usize], "Used for roughness limiter on import (attempts reducing specular aliasing).
_normal is a normal map that guides the roughness limiter, with roughness
increasing in areas that have high-frequency detail."@)),
        ("filter_nearest"@, hint_for(seq!["sampler2D"@], seq![0usize], "Enabled specified texture filtering."@)),
        ("filter_linear"@, hint_for(seq!["sampler2D"@], seq![0usize], "Enabled specified texture filtering."@)),
        ("filter_nearest_mipmap"@, hint_for(seq!["sampler2D"@], seq![0usize], "Enabled specified texture filtering."@)),
        ("filter_linear_mipmap"@, hint_for(seq!["sampler2D"@], seq![0usize], "Enabled specified texture filtering."@)),
        ("filter_nearest_mipmap_anisotropic"@, hint_for(seq!["sampler2D"@], seq![0usize], "Enabled specified texture filtering."@)),
        ("filter_linear_mipmap_anisotropic"@, hint_for(seq!["sampler2D"@], seq![0usize], "Enabled specified texture filtering."@)),
        ("repeat_enable"@, hint_for(seq!["sampler2D"@], seq![0usize], "Enabled texture repeating."@)),
        ("repeat_disable"@, hint_for(seq!["sampler2D"@], seq![0usize], "Enabled texture repeating."@)),
        ("hint_screen_texture"@, hint_for(seq!["sampler2D"@], seq![0usize], "Texture is the screen texture."@)),
        ("hint_depth_texture"@, hint_for(seq!["sampler2D"@], seq![0usize], "Texture is the depth texture."@)),
        ("hint_normal_roughness_texture"@, hint_for(seq!["sampler2D"@], seq![0usize], "Texture is the normal roughness texture (only supported in Forward+)"@)),
    ]
}

/// The hints that a uniform may carry.
pub fn make_builtin_hints() -> (r: Vec<(String, HintInfo)>)
    ensures
        r.deep_view() == builtin_hint_table(),
        r.len() == 24,
{
    let mut r: Vec<(String, HintInfo)> = Vec::new();
    assert(r.deep_view() =~= Seq::empty());
    let types = vec!["vec3", "vec4", "sampler2D"];
    assert(types@.map_values(|t: &'static str| t@) =~= seq!["vec3"@, "vec4"@, "sampler2D"@]);
    let counts: Vec<usize> = vec![0];
    assert(counts@ =~= seq![0usize]);
    add_hint(&mut r, "source_color", types, counts, "Used as color.");
    let types = vec!["float", "int"];
    assert(types@.map_values(|t: &'static str| t@) =~= seq!["float"@, "int"@]);
    let counts: Vec<usize> = vec![2, 3];
    assert(counts@ =~= seq![2usize, 3usize]);
    add_hint(&mut r, "hint_range", types, counts, "Restricted to values in a range (with min/max/step).");
    let types = vec!["sampler2D"];
    assert(types@.map_values(|t: &'static str| t@) =~= seq!["sampler2D"@]);
    let counts: Vec<usize> = vec![0];
    assert(counts@ =~= seq![0usize]);
    add_hint(&mut r, "hint_normal", types, counts, "Used as normalmap.");
    let types = vec!["sampler2D"];
    assert(types@.map_values(|t: &'static str| t@) =~= seq!["sampler2D"@]);
    let counts: Vec<usize> = vec![0];
    assert(counts@ =~= seq![0usize]);
    add_hint(&mut r, "hint_default_white", types, counts, "As value or albedo color, default to opaque white.");
    let types = vec!["sampler2D"];
    assert(types@.map_values(|t: &'static str| t@) =~= seq!["sampler2D"@]);
    let counts: Vec<usize> = vec![0];
    assert(counts@ =~= seq![0usize]);
    add_hint(&mut r, "hint_default_black", types, counts, "As value or albedo color, default to opaque black.");
    let types = vec!["sampler2D"];
    assert(types@.map_values(|t: &'static str| t@) =~= seq!["sampler2D"@]);
    let counts: Vec<usize> = vec![0];
    assert(counts@ =~= seq![0usize]);
    add_hint(&mut r, "hint_default_transparent", types, counts, "As value or albedo color, default to transparent black.");
    let types = vec!["sampler2D"];
    assert(types@.map_values(|t: &'static str| t@) =~= seq!["sampler2D"@]);
    let counts: Vec<usize> = vec![0];
    assert(counts@ =~= seq![0usize]);
    add_hint(&mut r, "hint_anisotropy", types, counts, "As flowmap, default to right.");
    let types = vec!["sampler2D"];
    assert(types@.map_values(|t: &'static str| t@) =~= seq!["sampler2D"@]);
    let counts: Vec<usize> = vec![0];
    assert(counts@ =~= seq![0usize]);
    add_hint(&mut r, "hint_roughness_r", types, counts, "Used for roughness limiter on import (attempts reducing specular aliasing).
_normal is a normal map that guides the roughness limiter, with roughness
increasing in areas that have high-frequency detail.");
    let types = vec!["sampler2D"];
    assert(types@.map_values(|t: &'static str| t@) =~= seq!["sampler2D"@]);
    let counts: Vec<usize> = vec![0];
    assert(counts@ =~= seq![0usize]);
    add_hint(&mut r, "hint_roughness_g", types, counts, "Used for roughness limiter on import (attempts reducing specular aliasing).
_normal is a normal map that guides the roughness limiter, with roughness
increasing in areas that have high-frequency detail.");
    let types = vec!["sampler2D"];
    assert(types@.map_values(|t: &'static str| t@) =~= seq!["sampler2D"@]);
    let counts: Vec<usize> = vec![0];
    assert(counts@ =~= seq![0usize]);
    add_hint(&mut r, "hint_roughness_b", types, counts, "Used for roughness limiter on import (attempts reducing specular aliasing).
_normal is a normal map that guides the roughness limiter, with roughness
increasing in areas that have high-frequency detail.");
    let types = vec!["sampler2D"];
    assert(types@.map_values(|t: &'static str| t@) =~= seq!["sampler2D"@]);
    let counts: Vec<usize> = vec![0];
    assert(counts@ =~= seq![0usize]);
    add_hint(&mut r, "hint_roughness_a", types, counts, "Used for roughness limiter on import (attempts reducing specular aliasing).
_normal is a normal map that guides the roughness limiter, with roughness
increasing in areas that have high-frequency detail.");
    let types = vec!["sampler2D"];
    assert(types@.map_values(|t: &'static str| t@) =~= seq!["sampler2D"@]);
    let counts: Vec<usize> = vec![0];
    assert(counts@ =~= seq![0usize]);
    add_hint(&mut r, "hint_roughness_normal", types, counts, "Used for roughness limiter on import (attempts reducing specular aliasing).
_normal is a normal map that guides the roughness limiter, with roughness
increasing in areas that have high-frequency detail.");
    let types = vec!["sampler2D"];
    assert(types@.map_values(|t: &'static str| t@) =~= seq!["sampler2D"@]);
    let counts: Vec<usize> = vec![0];
    assert(counts@ =~= seq![0usize]);
    add_hint(&mut r, "hint_roughness_gray", types, counts, "Used for roughness limiter on import (attempts reducing specular aliasing).
_normal is a normal map that guides the roughness limiter, with roughness
increasing in areas that have high-frequency detail.");
    let types = vec!["sampler2D"];
    assert(types@.map_values(|t: &'static str| t@) =~= seq!["sampler2D"@]);
    let counts: Vec<usize> = vec![0];
    assert(counts@ =~= seq![0usize]);
    add_hint(&mut r, "filter_nearest", types, counts, "Enabled specified texture filtering.");
    let types = vec!["sampler2D"];
    assert(types@.map_values(|t: &'static str| t@) =~= seq!["sampler2D"@]);
    let counts: Vec<usize> = vec![0];
    assert(counts@ =~= seq![0usize]);
    add_hint(&mut r, "filter_linear", types, counts, "Enabled specified texture filtering.");
    let types = vec!["sampler2D"];
    assert(types@.map_values(|t: &'static str| t@) =~= seq!["sampler2D"@]);
    let counts: Vec<usize> = vec![0];
    assert(counts@ =~= seq![0usize]);
    add_hint(&mut r, "filter_nearest_mipmap", types, counts, "Enabled specified texture filtering.");
    let types = vec!["sampler2D"];
    assert(types@.map_values(|t: &'static str| t@) =~= seq!["sampler2D"@]);
    let counts: Vec<usize> = vec![0];
    assert(counts@ =~= seq![0usize]);
    add_hint(&mut r, "filter_linear_mipmap", types, counts, "Enabled specified texture filtering.");
    let types = vec!["sampler2D"];
    assert(types@.map_values(|t: &'static str| t@) =~= seq!["sampler2D"@]);
    let counts: Vec<usize> = vec![0];
    assert(counts@ =~= seq![0usize]);
    add_hint(&mut r, "filter_nearest_mipmap_anisotropic", types, counts, "Enabled specified texture filtering.");
    let types = vec!["sampler2D"];
    assert(types@.map_values(|t: &'static str| t@) =~= seq!["sampler2D"@]);
    let counts: Vec<usize> = vec![0];
    assert(counts@ =~= seq![0usize]);
    add_hint(&mut r, "filter_linear_mipmap_anisotropic", types, counts, "Enabled specified texture filtering.");
    let types = vec!["sampler2D"];
    assert(types@.map_values(|t: &'static str| t@) =~= seq!["sampler2D"@]);
    let counts: Vec<usize> = vec![0];
    assert(counts@ =~= seq![0usize]);
    add_hint(&mut r, "repeat_enable", types, counts, "Enabled texture repeating.");
    let types = vec!["sampler2D"];
    assert(types@.map_values(|t: &'static str| t@) =~= seq!["sampler2D"@]);
    let counts: Vec<usize> = vec![0];
    assert(counts@ =~= seq![0usize]);
    add_hint(&mut r, "repeat_disable", types, counts, "Enabled texture repeating.");
    let types = vec!["sampler2D"];
    assert(types@.map_values(|t: &'static str| t@) =~= seq!["sampler2D"@]);
    let counts: Vec<usize> = vec![0];
    assert(counts@ =~= seq![0usize]);
    add_hint(&mut r, "hint_screen_texture", types, counts, "Texture is the screen texture.");
    let types = vec!["sampler2D"];
    assert(types@.map_values(|t: &'static str| t@) =~= seq!["sampler2D"@]);
    let counts: Vec<usize> = vec![0];
    assert(counts@ =~= seq![0usize]);
    add_hint(&mut r, "hint_depth_texture", types, counts, "Texture is the depth texture.");
    let types = vec!["sampler2D"];
    assert(types@.map_values(|t: &'static str| t@) =~= seq!["sampler2D"@]);
    let counts: Vec<usize> = vec![0];
    assert(counts@ =~= seq![0usize]);
    add_hint(&mut r, "hint_normal_roughness_texture", types, counts, "Texture is the normal roughness texture (only supported in Forward+)");
    r
}

} // verus!
