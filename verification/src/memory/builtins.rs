//! The built-in environment: the tables of names that the language
//! defines, built once and consulted as data.

use vstd::prelude::*;
use vstd::string::*;
use crate::memory::functions::{
    builtin_function_table, make_builtin_functions, FunctionInfo, FunctionParam,
    FunctionSignature, SpecFunctionInfo,
};
use crate::memory::hint::{builtin_hint_table, make_builtin_hints, HintInfo, SpecHintInfo};
use crate::memory::render_modes::{
    canvas_item_render_modes, canvas_item_render_modes_table, particle_render_modes,
    particle_render_modes_table, sky_render_modes, sky_render_modes_table,
    spatial_render_modes, spatial_render_modes_table,
};
use crate::memory::table::SpecTable;
use crate::memory::types::TypeInfo;
use crate::memory::variables::{
    canvas_item_fragment_vars, canvas_item_fragment_vars_table, canvas_item_light_vars,
    canvas_item_light_vars_table, canvas_item_vertex_vars, canvas_item_vertex_vars_table,
    fog_stuff, fog_stuff_table, particle_process, particle_process_table, particle_start,
    particle_start_process, particle_start_process_table, particle_start_table, sky_builtins,
    sky_builtins_table, sky_stuff, sky_stuff_table, spatial_fragment_vars,
    spatial_fragment_vars_table, spatial_light_vars, spatial_light_vars_table,
    spatial_vertex_vars, spatial_vertex_vars_table, variable_builtins, variable_builtins_table,
};
use crate::memory::{ShaderType, SpecValueInfo, ValueInfo};
use crate::text::str_eq;

verus! {

/// A copy of a table of variables.
pub fn copy_values(table: &Vec<(String, ValueInfo)>) -> (r: Vec<(String, ValueInfo)>)
    ensures
        r.deep_view() == table.deep_view(),
{
    let mut r: Vec<(String, ValueInfo)> = Vec::new();
    let mut i: usize = 0;
    while i < table.len()
        invariant
            i <= table.len(),
            r.len() == i,
            forall|j: int| 0 <= j < i ==> r@[j].deep_view() == table@[j].deep_view(),
        decreases table.len() - i,
    {
        r.push((table[i].0.clone(), table[i].1.clone()));
        i += 1;
    }
    assert(r.deep_view() =~= table.deep_view());
    r
}

/// A copy of a table of render modes.
pub fn copy_modes(table: &Vec<(String, String)>) -> (r: Vec<(String, String)>)
    ensures
        r.deep_view() == table.deep_view(),
{
    let mut r: Vec<(String, String)> = Vec::new();
    let mut i: usize = 0;
    while i < table.len()
        invariant
            i <= table.len(),
            r.len() == i,
            forall|j: int| 0 <= j < i ==> r@[j].deep_view() == table@[j].deep_view(),
        decreases table.len() - i,
    {
        r.push((table[i].0.clone(), table[i].1.clone()));
        i += 1;
    }
    assert(r.deep_view() =~= table.deep_view());
    r
}

/// A copy of a list of types.
pub fn copy_types(list: &Vec<TypeInfo>) -> (r: Vec<TypeInfo>)
    ensures
        r.deep_view() == list.deep_view(),
{
    let mut r: Vec<TypeInfo> = Vec::new();
    let mut i: usize = 0;
    while i < list.len()
        invariant
            i <= list.len(),
            r.len() == i,
            forall|j: int| 0 <= j < i ==> r@[j]@ == list@[j]@,
        decreases list.len() - i,
    {
        r.push(list[i].clone());
        i += 1;
    }
    assert(r.deep_view() =~= list.deep_view());
    r
}

fn copy_text(text: &Option<String>) -> (r: Option<String>)
    ensures
        r == *text,
{
    match text {
        Some(t) => Some(t.clone()),
        None => None,
    }
}

fn copy_counts(list: &Vec<usize>) -> (r: Vec<usize>)
    ensures
        r@ == list@,
{
    let mut r: Vec<usize> = Vec::new();
    let mut i: usize = 0;
    while i < list.len()
        invariant
            i <= list.len(),
            r@ == list@.subrange(0, i as int),
        decreases list.len() - i,
    {
        r.push(list[i]);
        i += 1;
        assert(r@ =~= list@.subrange(0, i as int));
    }
    assert(list@.subrange(0, list@.len() as int) =~= list@);
    r
}

/// A copy of a hint.
pub fn copy_hint(hint: &HintInfo) -> (r: HintInfo)
    ensures
        r.deep_view() == hint.deep_view(),
{
    HintInfo {
        type_info: copy_types(&hint.type_info),
        num_arguments: copy_counts(&hint.num_arguments),
        description: hint.description.clone(),
    }
}

/// A copy of a table of hints.
pub fn copy_hints(table: &Vec<(String, HintInfo)>) -> (r: Vec<(String, HintInfo)>)
    ensures
        r.deep_view() == table.deep_view(),
{
    let mut r: Vec<(String, HintInfo)> = Vec::new();
    let mut i: usize = 0;
    while i < table.len()
        invariant
            i <= table.len(),
            r.len() == i,
            forall|j: int| 0 <= j < i ==> r@[j].deep_view() == table@[j].deep_view(),
        decreases table.len() - i,
    {
        r.push((table[i].0.clone(), copy_hint(&table[i].1)));
        i += 1;
    }
    assert(r.deep_view() =~= table.deep_view());
    r
}

fn copy_params(list: &Vec<FunctionParam>) -> (r: Vec<FunctionParam>)
    ensures
        r.deep_view() == list.deep_view(),
{
    let mut r: Vec<FunctionParam> = Vec::new();
    let mut i: usize = 0;
    while i < list.len()
        invariant
            i <= list.len(),
            r.len() == i,
            forall|j: int| 0 <= j < i ==> r@[j].deep_view() == list@[j].deep_view(),
        decreases list.len() - i,
    {
        r.push(list[i].clone());
        i += 1;
    }
    assert(r.deep_view() =~= list.deep_view());
    r
}

fn copy_signatures(list: &Vec<FunctionSignature>) -> (r: Vec<FunctionSignature>)
    ensures
        r.deep_view() == list.deep_view(),
{
    let mut r: Vec<FunctionSignature> = Vec::new();
    let mut i: usize = 0;
    while i < list.len()
        invariant
            i <= list.len(),
            r.len() == i,
            forall|j: int| 0 <= j < i ==> r@[j].deep_view() == list@[j].deep_view(),
        decreases list.len() - i,
    {
        r.push(
            FunctionSignature {
                return_type: list[i].return_type.clone(),
                params: copy_params(&list[i].params),
            },
        );
        i += 1;
    }
    assert(r.deep_view() =~= list.deep_view());
    r
}

/// A copy of a table of functions.
pub fn copy_functions(table: &Vec<(String, FunctionInfo)>) -> (r: Vec<(String, FunctionInfo)>)
    ensures
        r.deep_view() == table.deep_view(),
{
    let mut r: Vec<(String, FunctionInfo)> = Vec::new();
    let mut i: usize = 0;
    while i < table.len()
        invariant
            i <= table.len(),
            r.len() == i,
            forall|j: int| 0 <= j < i ==> r@[j].deep_view() == table@[j].deep_view(),
        decreases table.len() - i,
    {
        let info = &table[i].1;
        r.push(
            (
                table[i].0.clone(),
                FunctionInfo {
                    signatures: copy_signatures(&info.signatures),
                    range: info.range,
                    description: copy_text(&info.description),
                    is_const: info.is_const,
                },
            ),
        );
        i += 1;
    }
    assert(r.deep_view() =~= table.deep_view());
    r
}

/// The tables of built-in names.
pub struct Builtins {
    pub globals: Vec<(String, ValueInfo)>,
    pub spatial_vertex: Vec<(String, ValueInfo)>,
    pub spatial_fragment: Vec<(String, ValueInfo)>,
    pub spatial_light: Vec<(String, ValueInfo)>,
    pub canvas_item_vertex: Vec<(String, ValueInfo)>,
    pub canvas_item_fragment: Vec<(String, ValueInfo)>,
    pub canvas_item_light: Vec<(String, ValueInfo)>,
    pub particle_start_process: Vec<(String, ValueInfo)>,
    pub particle_start: Vec<(String, ValueInfo)>,
    pub particle_process: Vec<(String, ValueInfo)>,
    pub sky: Vec<(String, ValueInfo)>,
    pub sky_function: Vec<(String, ValueInfo)>,
    pub fog_function: Vec<(String, ValueInfo)>,
    pub spatial_modes: Vec<(String, String)>,
    pub canvas_item_modes: Vec<(String, String)>,
    pub particle_modes: Vec<(String, String)>,
    pub sky_modes: Vec<(String, String)>,
    pub functions: Vec<(String, FunctionInfo)>,
    pub hints: Vec<(String, HintInfo)>,
}

/// The mathematical value of [`Builtins`].
pub struct SpecBuiltins {
    pub globals: SpecTable<SpecValueInfo>,
    pub spatial_vertex: SpecTable<SpecValueInfo>,
    pub spatial_fragment: SpecTable<SpecValueInfo>,
    pub spatial_light: SpecTable<SpecValueInfo>,
    pub canvas_item_vertex: SpecTable<SpecValueInfo>,
    pub canvas_item_fragment: SpecTable<SpecValueInfo>,
    pub canvas_item_light: SpecTable<SpecValueInfo>,
    pub particle_start_process: SpecTable<SpecValueInfo>,
    pub particle_start: SpecTable<SpecValueInfo>,
    pub particle_process: SpecTable<SpecValueInfo>,
    pub sky: SpecTable<SpecValueInfo>,
    pub sky_function: SpecTable<SpecValueInfo>,
    pub fog_function: SpecTable<SpecValueInfo>,
    pub spatial_modes: SpecTable<Seq<char>>,
    pub canvas_item_modes: SpecTable<Seq<char>>,
    pub particle_modes: SpecTable<Seq<char>>,
    pub sky_modes: SpecTable<Seq<char>>,
    pub functions: SpecTable<SpecFunctionInfo>,
    pub hints: SpecTable<SpecHintInfo>,
}

impl DeepView for Builtins {
    type V = SpecBuiltins;

    open spec fn deep_view(&self) -> SpecBuiltins {
        SpecBuiltins {
            globals: self.globals.deep_view(),
            spatial_vertex: self.spatial_vertex.deep_view(),
            spatial_fragment: self.spatial_fragment.deep_view(),
            spatial_light: self.spatial_light.deep_view(),
            canvas_item_vertex: self.canvas_item_vertex.deep_view(),
            canvas_item_fragment: self.canvas_item_fragment.deep_view(),
            canvas_item_light: self.canvas_item_light.deep_view(),
            particle_start_process: self.particle_start_process.deep_view(),
            particle_start: self.particle_start.deep_view(),
            particle_process: self.particle_process.deep_view(),
            sky: self.sky.deep_view(),
            sky_function: self.sky_function.deep_view(),
            fog_function: self.fog_function.deep_view(),
            spatial_modes: self.spatial_modes.deep_view(),
            canvas_item_modes: self.canvas_item_modes.deep_view(),
            particle_modes: self.particle_modes.deep_view(),
            sky_modes: self.sky_modes.deep_view(),
            functions: self.functions.deep_view(),
            hints: self.hints.deep_view(),
        }
    }
}

/// The tables of the language as it stands.
pub open spec fn standard_builtins() -> SpecBuiltins {
    SpecBuiltins {
        globals: variable_builtins_table(),
        spatial_vertex: spatial_vertex_vars_table(),
        spatial_fragment: spatial_fragment_vars_table(),
        spatial_light: spatial_light_vars_table(),
        canvas_item_vertex: canvas_item_vertex_vars_table(),
        canvas_item_fragment: canvas_item_fragment_vars_table(),
        canvas_item_light: canvas_item_light_vars_table(),
        particle_start_process: particle_start_process_table(),
        particle_start: particle_start_table(),
        particle_process: particle_process_table(),
        sky: sky_builtins_table(),
        sky_function: sky_stuff_table(),
        fog_function: fog_stuff_table(),
        spatial_modes: spatial_render_modes_table(),
        canvas_item_modes: canvas_item_render_modes_table(),
        particle_modes: particle_render_modes_table(),
        sky_modes: sky_render_modes_table(),
        functions: builtin_function_table(),
        hints: builtin_hint_table(),
    }
}

/// The variables that a function named `name` sees on entry, as the tables
/// to bind in order, under the given kind of shader.
pub open spec fn entry_variables(
    builtins: SpecBuiltins,
    shader: ShaderType,
    name: Seq<char>,
) -> Seq<SpecTable<SpecValueInfo>> {
    match shader {
        ShaderType::Spatial => if name == "vertex"@ {
            seq![builtins.spatial_vertex]
        } else if name == "fragment"@ {
            seq![builtins.spatial_fragment]
        } else if name == "light"@ {
            seq![builtins.spatial_light]
        } else {
            Seq::empty()
        },
        ShaderType::CanvasItem => if name == "vertex"@ {
            seq![builtins.canvas_item_vertex]
        } else if name == "fragment"@ {
            seq![builtins.canvas_item_fragment]
        } else if name == "light"@ {
            seq![builtins.canvas_item_light]
        } else {
            Seq::empty()
        },
        ShaderType::Particles => if name == "start"@ {
            seq![builtins.particle_start_process, builtins.particle_start]
        } else if name == "process"@ {
            seq![builtins.particle_start_process, builtins.particle_process]
        } else {
            Seq::empty()
        },
        ShaderType::Sky => if name == "fog"@ {
            seq![builtins.sky_function]
        } else {
            Seq::empty()
        },
        ShaderType::Fog => if name == "sky"@ {
            seq![builtins.fog_function]
        } else {
            Seq::empty()
        },
    }
}

/// The render modes that a kind of shader accepts; a fog shader has none
/// of its own and keeps those in force.
pub open spec fn modes_of(builtins: SpecBuiltins, shader: ShaderType) -> Option<
    SpecTable<Seq<char>>,
> {
    match shader {
        ShaderType::Spatial => Some(builtins.spatial_modes),
        ShaderType::CanvasItem => Some(builtins.canvas_item_modes),
        ShaderType::Particles => Some(builtins.particle_modes),
        ShaderType::Sky => Some(builtins.sky_modes),
        ShaderType::Fog => None,
    }
}

impl Builtins {
    /// The tables of the language as it stands.
    pub fn standard() -> (r: Self)
        ensures
            r.deep_view() == standard_builtins(),
    {
        Builtins {
            globals: variable_builtins(),
            spatial_vertex: spatial_vertex_vars(),
            spatial_fragment: spatial_fragment_vars(),
            spatial_light: spatial_light_vars(),
            canvas_item_vertex: canvas_item_vertex_vars(),
            canvas_item_fragment: canvas_item_fragment_vars(),
            canvas_item_light: canvas_item_light_vars(),
            particle_start_process: particle_start_process(),
            particle_start: particle_start(),
            particle_process: particle_process(),
            sky: sky_builtins(),
            sky_function: sky_stuff(),
            fog_function: fog_stuff(),
            spatial_modes: spatial_render_modes(),
            canvas_item_modes: canvas_item_render_modes(),
            particle_modes: particle_render_modes(),
            sky_modes: sky_render_modes(),
            functions: make_builtin_functions(),
            hints: make_builtin_hints(),
        }
    }

    /// Copies of the tables that a function named `name` sees on entry.
    pub fn entry_tables(&self, shader: ShaderType, name: &str) -> (r: Vec<
        Vec<(String, ValueInfo)>,
    >)
        ensures
            r.deep_view() == entry_variables(self.deep_view(), shader, name@),
    {
        let mut r: Vec<Vec<(String, ValueInfo)>> = Vec::new();
        match shader {
            ShaderType::Spatial => {
                if str_eq(name, "vertex") {
                    r.push(copy_values(&self.spatial_vertex));
                } else if str_eq(name, "fragment") {
                    r.push(copy_values(&self.spatial_fragment));
                } else if str_eq(name, "light") {
                    r.push(copy_values(&self.spatial_light));
                }
            },
            ShaderType::CanvasItem => {
                if str_eq(name, "vertex") {
                    r.push(copy_values(&self.canvas_item_vertex));
                } else if str_eq(name, "fragment") {
                    r.push(copy_values(&self.canvas_item_fragment));
                } else if str_eq(name, "light") {
                    r.push(copy_values(&self.canvas_item_light));
                }
            },
            ShaderType::Particles => {
                if str_eq(name, "start") {
                    r.push(copy_values(&self.particle_start_process));
                    r.push(copy_values(&self.particle_start));
                } else if str_eq(name, "process") {
                    r.push(copy_values(&self.particle_start_process));
                    r.push(copy_values(&self.particle_process));
                }
            },
            ShaderType::Sky => {
                if str_eq(name, "fog") {
                    r.push(copy_values(&self.sky_function));
                }
            },
            ShaderType::Fog => {
                if str_eq(name, "sky") {
                    r.push(copy_values(&self.fog_function));
                }
            },
        }
        assert(r.deep_view() =~= entry_variables(self.deep_view(), shader, name@));
        r
    }

    /// A copy of the render modes of a kind of shader.
    pub fn modes(&self, shader: ShaderType) -> (r: Option<Vec<(String, String)>>)
        ensures
            r.deep_view() == modes_of(self.deep_view(), shader),
    {
        match shader {
            ShaderType::Spatial => Some(copy_modes(&self.spatial_modes)),
            ShaderType::CanvasItem => Some(copy_modes(&self.canvas_item_modes)),
            ShaderType::Particles => Some(copy_modes(&self.particle_modes)),
            ShaderType::Sky => Some(copy_modes(&self.sky_modes)),
            ShaderType::Fog => None,
        }
    }
}

} // verus!
