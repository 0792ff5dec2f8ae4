//! Materials: a shader program with the uniform values that go into it.

use crate::shader_program::Blending;
use crate::shader_program::ShaderProgram;
use crate::shader_program::ShaderProgramModel;
use crate::shader_program::ShaderTag;
use crate::sync::clone_arc;
use crate::sync::lock_outcome;
use crate::sync::LockUnavailable;
use crate::uniform::Uniform;
use crate::uniform::UniformItem;
use crate::uniform::UniformName;
use crate::uniform::Vector3;
use crate::uniform::Vector4;
use crate::uniform::ONE;
use crate::uniform::ZERO;
use std::slice::IterMut;
use std::sync::Arc;
use std::sync::Mutex;
use std::sync::MutexGuard;
use vstd::prelude::*;
use vstd::string::*;

verus! {

/// A named set of uniforms for one shader program. No two uniforms of a
/// material made by this module bear the same shader name.
///
/// A material is the single owner of its program: the program is reached
/// through the material, by borrowing it, and a clone of a material has a
/// program of its own. Materials that are to be shared go into
/// [`SharedMaterials`].
#[derive(Debug, Clone)]
pub struct Material {
    pub name: String,
    pub blending: Blending,
    pub uniforms: Vec<UniformItem>,
    shader_program: ShaderProgram,
}

/// What a [`Material`] stands for.
pub ghost struct MaterialModel {
    pub name: Seq<char>,
    pub blending: Blending,
    pub uniforms: Seq<UniformItem>,
    pub program: ShaderProgramModel,
}

impl View for Material {
    type V = MaterialModel;

    closed spec fn view(&self) -> MaterialModel {
        MaterialModel {
            name: self.name@,
            blending: self.blending,
            uniforms: self.uniforms@,
            program: self.shader_program@,
        }
    }
}

/// The first index from `from` on at which a uniform named `name` stands.
pub open spec fn position(items: Seq<UniformItem>, name: Seq<char>, from: nat) -> Option<int>
    decreases items.len() - from,
{
    if from >= items.len() {
        None
    } else if items[from as int].name@ == name {
        Some(from as int)
    } else {
        position(items, name, from + 1)
    }
}

/// `item` is the uniform `name` with the value `uniform`, not yet sent.
pub open spec fn item_is(item: UniformItem, name: Seq<char>, uniform: Uniform) -> bool {
    item.name@ == name && item.uniform == uniform && item.need_update
}

/// `after` is `before` with `uniform` written under `name`: in the place of
/// the uniform that bore the name, or at the end if there was none.
pub open spec fn is_written(
    before: Seq<UniformItem>,
    after: Seq<UniformItem>,
    name: Seq<char>,
    uniform: Uniform,
) -> bool {
    match position(before, name, 0) {
        Some(i) => after.len() == before.len() && item_is(after[i], name, uniform) && forall|
            j: int,
        |
            0 <= j < before.len() && j != i ==> after[j] == before[j],
        None => after.len() == before.len() + 1 && item_is(
            after[before.len() as int],
            name,
            uniform,
        ) && forall|j: int| 0 <= j < before.len() ==> after[j] == before[j],
    }
}

/// No two uniforms bear the same name.
pub open spec fn names_distinct(items: Seq<UniformItem>) -> bool {
    forall|i: int, j: int| 0 <= i < j < items.len() ==> items[i].name@ != items[j].name@
}

/// The uniforms are exactly the `expected` ones, name and value, in this order,
/// and none of them has been sent.
pub open spec fn holds_exactly(items: Seq<UniformItem>, expected: Seq<(Seq<char>, Uniform)>) -> bool {
    items.len() == expected.len() && forall|i: int|
        0 <= i < items.len() ==> item_is(items[i], expected[i].0, expected[i].1)
}

/// What `position` finds is the first uniform of that name, and it finds one
/// if there is any.
pub proof fn lemma_position(items: Seq<UniformItem>, name: Seq<char>, from: nat)
    ensures
        match position(items, name, from) {
            Some(i) => from <= i < items.len() && items[i].name@ == name && forall|j: int|
                from <= j < i ==> items[j].name@ != name,
            None => forall|j: int| from <= j < items.len() ==> items[j].name@ != name,
        },
    decreases items.len() - from,
{
    if from < items.len() && items[from as int].name@ != name {
        lemma_position(items, name, from + 1);
    }
}

/// Writing a uniform keeps the names apart.
pub proof fn lemma_written_keeps_names_distinct(
    before: Seq<UniformItem>,
    after: Seq<UniformItem>,
    name: Seq<char>,
    uniform: Uniform,
)
    requires
        names_distinct(before),
        is_written(before, after, name, uniform),
    ensures
        names_distinct(after),
{
    lemma_position(before, name, 0);
    match position(before, name, 0) {
        Some(k) => {
            assert forall|i: int, j: int| 0 <= i < j < after.len() implies after[i].name@
                != after[j].name@ by {
                assert(before[i].name@ != before[j].name@);
            }
        },
        None => {},
    }
}

impl Material {
    /// The invariant of a material: no two of its uniforms bear the same name.
    /// Every constructor establishes it and every method keeps it. The uniforms
    /// are open to the caller, who has to keep the names apart when writing to
    /// them directly.
    pub open spec fn well_formed(&self) -> bool {
        names_distinct(self@.uniforms)
    }

    pub fn get_shader_program(&self) -> (program: &ShaderProgram)
        ensures
            program@ == self@.program,
    {
        &self.shader_program
    }

    /// The uniforms, in their order.
    pub fn get_uniforms(&self) -> (uniforms: &Vec<UniformItem>)
        ensures
            uniforms@ == self@.uniforms,
    {
        &self.uniforms
    }

    /// The uniforms, open to change; whatever is done to them is done to the
    /// material, and to nothing else of it. The material is well formed
    /// afterwards if the names have been kept apart.
    pub fn get_uniforms_mut(&mut self) -> (uniforms: &mut Vec<UniformItem>)
        ensures
            uniforms@ == old(self)@.uniforms,
            final(self)@ == (MaterialModel { uniforms: final(uniforms)@, ..old(self)@ }),
            final(self).well_formed() == names_distinct(final(uniforms)@),
    {
        &mut self.uniforms
    }

    /// Asks for the program to be built again.
    pub fn need_update(&mut self)
        ensures
            final(self)@ == (MaterialModel {
                program: ShaderProgramModel { need_update: true, ..old(self)@.program },
                ..old(self)@
            }),
            old(self).well_formed() ==> final(self).well_formed(),
    {
        self.shader_program.set_need_update(true)
    }

    /// Switches `tag` on in the program, which has to be built again.
    pub fn add_tag(&mut self, tag: ShaderTag)
        ensures
            final(self)@ == (MaterialModel {
                program: ShaderProgramModel {
                    tags: old(self)@.program.tags.insert(tag),
                    need_update: true,
                    ..old(self)@.program
                },
                ..old(self)@
            }),
            old(self).well_formed() ==> final(self).well_formed(),
    {
        self.shader_program.add_tag(tag);
    }

    pub fn has_tag(&self, tag: ShaderTag) -> (b: bool)
        ensures
            b == self@.program.tags.contains(tag),
    {
        self.shader_program.has_tag(tag)
    }

    /// Switches `tag` off in the program, which has to be built again.
    pub fn remove_tag(&mut self, tag: ShaderTag)
        ensures
            final(self)@ == (MaterialModel {
                program: ShaderProgramModel {
                    tags: old(self)@.program.tags.remove(tag),
                    need_update: true,
                    ..old(self)@.program
                },
                ..old(self)@
            }),
            old(self).well_formed() ==> final(self).well_formed(),
    {
        self.shader_program.remove_tag(tag);
    }

    /// Writes `value` to the uniform `name`, which is added if the material
    /// does not have it yet. The uniform is marked as not yet sent.
    pub fn set_uniform(&mut self, name: UniformName, value: Uniform)
        ensures
            is_written(old(self)@.uniforms, final(self)@.uniforms, name.shader_name(), value),
            old(self).well_formed() ==> final(self).well_formed(),
            final(self)@.name == old(self)@.name,
            final(self)@.blending == old(self)@.blending,
            final(self)@.program == old(self)@.program,
    {
        let key = name.get_name();
        let n = self.uniforms.len();
        let mut i: usize = 0;
        while i < n
            invariant
                i <= n,
                n == self.uniforms@.len(),
                *self == *old(self),
                key@ == name.shader_name(),
                position(self.uniforms@, key@, 0) == position(self.uniforms@, key@, i as nat),
            decreases n - i,
        {
            if self.uniforms[i].name == key {
                self.uniforms[i].uniform = value;
                self.uniforms[i].need_update = true;
                proof {
                    if names_distinct(old(self)@.uniforms) {
                        lemma_written_keeps_names_distinct(
                            old(self)@.uniforms,
                            self@.uniforms,
                            key@,
                            value,
                        );
                    }
                }
                return ;
            }
            i = i + 1;
        }
        self.uniforms.push(UniformItem::new(key, value));
        proof {
            if names_distinct(old(self)@.uniforms) {
                lemma_written_keeps_names_distinct(
                    old(self)@.uniforms,
                    self@.uniforms,
                    key@,
                    value,
                );
            }
        }
    }

    /// A material for the shader `src`: no uniforms, no tags, no name, and no
    /// blending.
    pub fn new(src: &str) -> (material: Self)
        ensures
            material@ == (MaterialModel {
                name: Seq::empty(),
                blending: Blending::NoBlending,
                uniforms: Seq::empty(),
                program: ShaderProgramModel {
                    src: src@,
                    tags: Set::empty(),
                    need_update: true,
                },
            }),
            material.well_formed(),
    {
        Self {
            uniforms: Vec::new(),
            name: String::new(),
            blending: Blending::NoBlending,
            shader_program: ShaderProgram::new(String::from_str(src)),
        }
    }
}

/// A name that no uniform bears is found nowhere.
proof fn lemma_absent(items: Seq<UniformItem>, name: Seq<char>)
    requires
        forall|j: int| 0 <= j < items.len() ==> (#[trigger] items[j]).name@ != name,
    ensures
        position(items, name, 0) is None,
{
    lemma_position(items, name, 0);
}

/// The names that the constructors below give to uniforms differ from each
/// other where they stand in one material.
proof fn lemma_names_differ()
    ensures
        "color"@ != "color_light"@,
        "color"@ != "position_light"@,
        "color"@ != "colors[0]"@,
        "color"@ != "colors[1]"@,
        "color"@ != "map_specular"@,
        "color"@ != "map_color"@,
        "color"@ != "specular"@,
        "color"@ != "roughness"@,
        "color"@ != "metalness"@,
        "color"@ != "ambient_light"@,
        "color_light"@ != "position_light"@,
        "color_light"@ != "colors[0]"@,
        "color_light"@ != "colors[1]"@,
        "color_light"@ != "map_specular"@,
        "color_light"@ != "map_color"@,
        "position_light"@ != "colors[0]"@,
        "position_light"@ != "colors[1]"@,
        "position_light"@ != "map_specular"@,
        "position_light"@ != "map_color"@,
        "colors[0]"@ != "colors[1]"@,
        "map_specular"@ != "map_color"@,
        "specular"@ != "roughness"@,
        "specular"@ != "metalness"@,
        "specular"@ != "ambient_light"@,
        "roughness"@ != "metalness"@,
        "roughness"@ != "ambient_light"@,
        "metalness"@ != "ambient_light"@,
{
    reveal_strlit("color");
    reveal_strlit("color_light");
    reveal_strlit("position_light");
    reveal_strlit("colors[0]");
    reveal_strlit("colors[1]");
    reveal_strlit("map_specular");
    reveal_strlit("map_color");
    reveal_strlit("specular");
    reveal_strlit("roughness");
    reveal_strlit("metalness");
    reveal_strlit("ambient_light");
    assert("color"@.len() == 5);
    assert("color_light"@.len() == 11);
    assert("position_light"@.len() == 14);
    assert("colors[0]"@.len() == 9);
    assert("colors[1]"@.len() == 9);
    assert("map_specular"@.len() == 12);
    assert("map_color"@.len() == 9);
    assert("specular"@.len() == 8);
    assert("roughness"@.len() == 9);
    assert("metalness"@.len() == 9);
    assert("ambient_light"@.len() == 13);
    assert("colors[0]"@[7] != "colors[1]"@[7]);
    assert("roughness"@[0] != "metalness"@[0]);
}

impl Material {
    /// Writes a uniform that the material does not have yet.
    fn append_uniform(&mut self, name: UniformName, value: Uniform)
        requires
            forall|j: int|
                0 <= j < old(self)@.uniforms.len() ==> (#[trigger] old(self)@.uniforms[j]).name@
                    != name.shader_name(),
        ensures
            final(self)@.uniforms.len() == old(self)@.uniforms.len() + 1,
            forall|j: int|
                0 <= j < old(self)@.uniforms.len() ==> final(self)@.uniforms[j] == old(
                    self,
                )@.uniforms[j],
            item_is(
                final(self)@.uniforms[old(self)@.uniforms.len() as int],
                name.shader_name(),
                value,
            ),
            old(self).well_formed() ==> final(self).well_formed(),
            final(self)@.name == old(self)@.name,
            final(self)@.blending == old(self)@.blending,
            final(self)@.program == old(self)@.program,
    {
        proof {
            lemma_absent(self@.uniforms, name.shader_name());
        }
        self.set_uniform(name, value);
    }

    /// The material of the shader `basic`, with its color.
    pub fn new_basic(color: Vector4) -> (material: Self)
        ensures
            material@.program == (ShaderProgramModel {
                src: "basic"@,
                tags: Set::empty(),
                need_update: true,
            }),
            holds_exactly(material@.uniforms, seq![("color"@, Uniform::Vector4(color))]),
            material.well_formed(),
            material@.name == Seq::<char>::empty(),
            material@.blending == Blending::NoBlending,
    {
        let mut mat = Material::new("basic");
        mat.append_uniform(UniformName::Color, Uniform::Vector4(color));
        mat
    }

    /// The material of the shader `basic-texture`: lit, with a color map that
    /// has no texture yet.
    pub fn new_basic_texture() -> (material: Self)
        ensures
            material@.program == (ShaderProgramModel {
                src: "basic-texture"@,
                tags: set![ShaderTag::Lighting],
                need_update: true,
            }),
            holds_exactly(material@.uniforms, seq![("map_color"@, Uniform::Texture2D(None))]),
            material.well_formed(),
            material@.name == Seq::<char>::empty(),
            material@.blending == Blending::NoBlending,
    {
        let mut mat = Material::new("basic-texture");
        mat.append_uniform(UniformName::MapColor, Uniform::Texture2D(None));
        mat.add_tag(ShaderTag::Lighting);
        assert(mat@.program.tags =~= set![ShaderTag::Lighting]);
        mat
    }

    /// The material of the shader `normal`.
    pub fn new_normal() -> (material: Self)
        ensures
            material@ == (MaterialModel {
                name: Seq::empty(),
                blending: Blending::NoBlending,
                uniforms: Seq::empty(),
                program: ShaderProgramModel {
                    src: "normal"@,
                    tags: Set::empty(),
                    need_update: true,
                },
            }),
            material.well_formed(),
    {
        Material::new("normal")
    }

    /// The material of the shader `mat_cup2`, with a color map that has no
    /// texture yet.
    pub fn new_mat_cup() -> (material: Self)
        ensures
            material@.program == (ShaderProgramModel {
                src: "mat_cup2"@,
                tags: Set::empty(),
                need_update: true,
            }),
            holds_exactly(material@.uniforms, seq![("map_color"@, Uniform::Texture2D(None))]),
            material.well_formed(),
            material@.name == Seq::<char>::empty(),
            material@.blending == Blending::NoBlending,
    {
        let mut mat = Material::new("mat_cup2");
        mat.append_uniform(UniformName::MapColor, Uniform::Texture2D(None));
        mat
    }

    /// The material of the shader `light`: lit, with its color and one light.
    pub fn new_light(color: Vector4, color_light: Vector3, position_light: Vector3) -> (material:
        Self)
        ensures
            material@.program == (ShaderProgramModel {
                src: "light"@,
                tags: set![ShaderTag::Lighting],
                need_update: true,
            }),
            holds_exactly(
                material@.uniforms,
                seq![
                    ("color"@, Uniform::Vector4(color)),
                    ("color_light"@, Uniform::Vector3(color_light)),
                    ("position_light"@, Uniform::Vector3(position_light)),
                ],
            ),
            material.well_formed(),
            material@.name == Seq::<char>::empty(),
            material@.blending == Blending::NoBlending,
    {
        proof {
            lemma_names_differ();
        }
        let mut mat = Material::new("light");
        mat.add_tag(ShaderTag::Lighting);
        assert(mat@.program.tags =~= set![ShaderTag::Lighting]);
        mat.append_uniform(UniformName::Color, Uniform::Vector4(color));
        mat.set_light(color_light, position_light);
        mat
    }

    /// Writes the color and the position of the one light that the lit
    /// shaders know.
    fn set_light(&mut self, color_light: Vector3, position_light: Vector3)
        requires
            old(self)@.uniforms.len() == 1,
            old(self)@.uniforms[0].name@ == "color"@,
        ensures
            final(self)@.uniforms.len() == 3,
            final(self)@.uniforms[0] == old(self)@.uniforms[0],
            item_is(final(self)@.uniforms[1], "color_light"@, Uniform::Vector3(color_light)),
            item_is(final(self)@.uniforms[2], "position_light"@, Uniform::Vector3(position_light)),
            final(self).well_formed(),
            final(self)@.name == old(self)@.name,
            final(self)@.blending == old(self)@.blending,
            final(self)@.program == old(self)@.program,
    {
        proof {
            lemma_names_differ();
        }
        self.append_uniform(
            UniformName::Other(String::from_str("color_light")),
            Uniform::Vector3(color_light),
        );
        self.append_uniform(
            UniformName::Other(String::from_str("position_light")),
            Uniform::Vector3(position_light),
        );
    }

    /// The material of the shader `mesh_phong`: lit, without uniforms.
    pub fn new_mesh_phong() -> (material: Self)
        ensures
            material@ == (MaterialModel {
                name: Seq::empty(),
                blending: Blending::NoBlending,
                uniforms: Seq::empty(),
                program: ShaderProgramModel {
                    src: "mesh_phong"@,
                    tags: set![ShaderTag::Lighting],
                    need_update: true,
                },
            }),
            material.well_formed(),
    {
        let mut mat = Material::new("mesh_phong");
        mat.add_tag(ShaderTag::Lighting);
        assert(mat@.program.tags =~= set![ShaderTag::Lighting]);
        mat
    }

    /// The material of the shader `mesh_standard`: lit, white, fully rough,
    /// not metallic, and without ambient light.
    pub fn new_mesh_standard() -> (material: Self)
        ensures
            material@.program == (ShaderProgramModel {
                src: "mesh_standard"@,
                tags: set![ShaderTag::Lighting],
                need_update: true,
            }),
            holds_exactly(
                material@.uniforms,
                seq![
                    ("color"@, Uniform::Vector3(Vector3 { x: ONE, y: ONE, z: ONE })),
                    ("specular"@, Uniform::Vector3(Vector3 { x: ONE, y: ONE, z: ONE })),
                    ("roughness"@, Uniform::Float(ONE)),
                    ("metalness"@, Uniform::Float(ZERO)),
                    ("ambient_light"@, Uniform::Vector3(Vector3 { x: ZERO, y: ZERO, z: ZERO })),
                ],
            ),
            material.well_formed(),
            material@.name == Seq::<char>::empty(),
            material@.blending == Blending::NoBlending,
    {
        proof {
            lemma_names_differ();
        }
        let mut mat = Material::new("mesh_standard");
        mat.add_tag(ShaderTag::Lighting);
        assert(mat@.program.tags =~= set![ShaderTag::Lighting]);
        mat.append_uniform(UniformName::Color, Uniform::Vector3(Vector3::new_one()));
        mat.append_uniform(UniformName::Specular, Uniform::Vector3(Vector3::new_one()));
        mat.append_uniform(UniformName::Roughness, Uniform::Float(ONE));
        mat.append_uniform(UniformName::Metalness, Uniform::Float(ZERO));
        mat.append_uniform(UniformName::AmbientLight, Uniform::Vector3(Vector3::new(ZERO, ZERO, ZERO)));
        mat
    }

    /// The material of the shader `light_texture`: lit, with its color, one
    /// light, and a specular map and a color map that have no texture yet.
    pub fn new_light_texture(color: Vector4, color_light: Vector3, position_light: Vector3) -> (material:
        Self)
        ensures
            material@.program == (ShaderProgramModel {
                src: "light_texture"@,
                tags: set![ShaderTag::Lighting],
                need_update: true,
            }),
            holds_exactly(
                material@.uniforms,
                seq![
                    ("color"@, Uniform::Vector4(color)),
                    ("color_light"@, Uniform::Vector3(color_light)),
                    ("position_light"@, Uniform::Vector3(position_light)),
                    ("map_specular"@, Uniform::Texture2D(None)),
                    ("map_color"@, Uniform::Texture2D(None)),
                ],
            ),
            material.well_formed(),
            material@.name == Seq::<char>::empty(),
            material@.blending == Blending::NoBlending,
    {
        proof {
            lemma_names_differ();
        }
        let mut mat = Material::new("light_texture");
        mat.add_tag(ShaderTag::Lighting);
        assert(mat@.program.tags =~= set![ShaderTag::Lighting]);
        mat.append_uniform(UniformName::Color, Uniform::Vector4(color));
        mat.set_light(color_light, position_light);
        mat.append_uniform(UniformName::MapSpecular, Uniform::Texture2D(None));
        mat.append_uniform(UniformName::MapColor, Uniform::Texture2D(None));
        mat
    }

    /// The material of the shader `phong`: lit, with its color, one light, and
    /// the two colors green and blue.
    pub fn new_phong(color: Vector4, color_light: Vector3, position_light: Vector3) -> (material:
        Self)
        ensures
            material@.program == (ShaderProgramModel {
                src: "phong"@,
                tags: set![ShaderTag::Lighting],
                need_update: true,
            }),
            holds_exactly(
                material@.uniforms,
                seq![
                    ("color"@, Uniform::Vector4(color)),
                    ("color_light"@, Uniform::Vector3(color_light)),
                    ("position_light"@, Uniform::Vector3(position_light)),
                    ("colors[0]"@, Uniform::Vector3(Vector3 { x: ZERO, y: ONE, z: ZERO })),
                    ("colors[1]"@, Uniform::Vector3(Vector3 { x: ZERO, y: ZERO, z: ONE })),
                ],
            ),
            material.well_formed(),
            material@.name == Seq::<char>::empty(),
            material@.blending == Blending::NoBlending,
    {
        proof {
            lemma_names_differ();
        }
        let mut mat = Material::new("phong");
        mat.add_tag(ShaderTag::Lighting);
        assert(mat@.program.tags =~= set![ShaderTag::Lighting]);
        mat.append_uniform(UniformName::Color, Uniform::Vector4(color));
        mat.set_light(color_light, position_light);
        mat.append_uniform(
            UniformName::Other(String::from_str("colors[0]")),
            Uniform::Vector3(Vector3::new(ZERO, ONE, ZERO)),
        );
        mat.append_uniform(
            UniformName::Other(String::from_str("colors[1]")),
            Uniform::Vector3(Vector3::new(ZERO, ZERO, ONE)),
        );
        mat
    }

    /// The material of the shader `frame_buffer`.
    pub fn new_frame_buffer() -> (material: Self)
        ensures
            material@ == (MaterialModel {
                name: Seq::empty(),
                blending: Blending::NoBlending,
                uniforms: Seq::empty(),
                program: ShaderProgramModel {
                    src: "frame_buffer"@,
                    tags: Set::empty(),
                    need_update: true,
                },
            }),
            material.well_formed(),
    {
        Material::new("frame_buffer")
    }
}

/// The materials of one renderable thing. Each sits in a cell of its own that
/// can be shared with other owners and locked by one of them at a time.
#[derive(Debug, Clone)]
pub struct SharedMaterials(Vec<Arc<Mutex<Material>>>);

impl View for SharedMaterials {
    type V = Seq<Arc<Mutex<Material>>>;

    /// The cells, in order.
    closed spec fn view(&self) -> Seq<Arc<Mutex<Material>>> {
        self.0@
    }
}

/// The cells that `iter` has yet to hand out, in the order in which it will.
pub uninterp spec fn cells_ahead(iter: IterMut<'_, Arc<Mutex<Material>>>) -> Seq<
    Arc<Mutex<Material>>,
>;

/// `<[T]>::iter_mut` on the cells of a list: a fresh iterator has all the
/// cells of the list ahead of it, in their order. Through it a cell can be
/// replaced, but none can be added or taken away.
#[verifier::external_body]
fn cells_mut<'a>(cells: &'a mut Vec<Arc<Mutex<Material>>>) -> (iter: IterMut<
    'a,
    Arc<Mutex<Material>>,
>)
    ensures
        cells_ahead(iter) == old(cells)@,
        final(cells)@.len() == old(cells)@.len(),
{
    cells.iter_mut()
}

/// The cell that `guard` keeps locked.
pub uninterp spec fn material_guarded(guard: MutexGuard<'_, Material>) -> Mutex<Material>;

/// `Mutex::lock` on a material cell, waiting until the lock is free. A guard
/// that comes back is the guard of this cell. A poisoned lock comes back as
/// `None`; whether it is poisoned depends on what its earlier holders did.
#[verifier::external_body]
fn lock_material_cell<'a>(cell: &'a Mutex<Material>) -> (guard: Option<MutexGuard<'a, Material>>)
    ensures
        guard is Some ==> material_guarded(guard->Some_0) == *cell,
{
    cell.lock().ok()
}

/// The material that `cell` was made around: what it held when it was new,
/// whatever its owners have done to it since.
pub uninterp spec fn material_put_in(cell: Mutex<Material>) -> MaterialModel;

/// `Mutex::new`: a fresh, unlocked cell that holds `material`.
#[verifier::external_body]
fn new_material_cell(material: Material) -> (cell: Mutex<Material>)
    ensures
        material_put_in(cell) == material@,
{
    Mutex::new(material)
}

impl SharedMaterials {
    /// A list of one new cell, which holds `material`.
    pub fn new(material: Material) -> (shared: Self)
        ensures
            shared@.len() == 1,
            material_put_in(*shared@[0]) == material@,
    {
        let mut cells: Vec<Arc<Mutex<Material>>> = Vec::new();
        cells.push(Arc::new(new_material_cell(material)));
        SharedMaterials(cells)
    }

    pub fn len(&self) -> (n: usize)
        ensures
            n == self@.len(),
    {
        self.0.len()
    }

    /// A list with one new cell for each of `materials`, in the same order.
    pub fn new_collection(materials: Vec<Material>) -> (shared: Self)
        ensures
            shared@.len() == materials@.len(),
            forall|i: int|
                0 <= i < materials@.len() ==> material_put_in(*#[trigger] shared@[i])
                    == materials@[i]@,
    {
        let mut cells: Vec<Arc<Mutex<Material>>> = Vec::new();
        for material in it: materials
            invariant
                it.seq() == materials@,
                cells@.len() == it.index(),
                forall|i: int|
                    0 <= i < cells@.len() ==> material_put_in(*#[trigger] cells@[i])
                        == materials@[i]@,
        {
            cells.push(Arc::new(new_material_cell(material)));
        }
        SharedMaterials(cells)
    }

    /// Exclusive access to the material at `index`, once no other owner holds
    /// it: the guard of that cell, or [`LockUnavailable`] if its lock is
    /// poisoned. The list is as before.
    pub fn lock(&mut self, index: usize) -> (r: Result<MutexGuard<'_, Material>, LockUnavailable>)
        requires
            index < old(self)@.len(),
        ensures
            final(self)@ == old(self)@,
            r is Ok ==> material_guarded(r->Ok_0) == *old(self)@[index as int],
    {
        lock_outcome(lock_material_cell(&self.0[index]))
    }

    /// An iterator over the cells, from the first to the last.
    pub fn iter(&self) -> (cells: std::slice::Iter<'_, Arc<Mutex<Material>>>)
        ensures
            vstd::std_specs::slice::into_iter_elts(cells) == self@,
    {
        let cells = self.0.iter();
        proof {
            broadcast use vstd::std_specs::slice::axiom_spec_slice_iter;

            assert(self.0@.as_ref().unref() =~= self.0@);
        }
        cells
    }

    /// An iterator over the cells, from the first to the last, each open to
    /// being replaced by another cell. The list keeps its length.
    pub fn iter_mut(&mut self) -> (cells: std::slice::IterMut<'_, Arc<Mutex<Material>>>)
        ensures
            cells_ahead(cells) == old(self)@,
            final(self)@.len() == old(self)@.len(),
    {
        cells_mut(&mut self.0)
    }

    /// Another handle on the cell at `index`.
    pub fn clone_material(&self, index: usize) -> (cell: Arc<Mutex<Material>>)
        requires
            index < self@.len(),
        ensures
            cell == self@[index as int],
    {
        clone_arc(&self.0[index])
    }
}

} // verus!
