use shader_binding::material::Material;
use shader_binding::material::SharedMaterials;
use shader_binding::shader_program::Blending;
use shader_binding::shader_program::ShaderProgram;
use shader_binding::shader_program::ShaderTag;
use shader_binding::uniform::Uniform;
use shader_binding::uniform::UniformItem;
use shader_binding::uniform::UniformName;
use shader_binding::uniform::Vector3;
use shader_binding::uniform::Vector4;
use shader_binding::uniform::ONE;
use shader_binding::uniform::ZERO;

fn bits(x: f32) -> u32 {
    x.to_bits()
}

fn v3(x: f32, y: f32, z: f32) -> Vector3 {
    Vector3 { x: bits(x), y: bits(y), z: bits(z) }
}

fn v4(x: f32, y: f32, z: f32, w: f32) -> Vector4 {
    Vector4 { x: bits(x), y: bits(y), z: bits(z), w: bits(w) }
}

fn listed(material: &Material) -> Vec<String> {
    material
        .uniforms
        .iter()
        .map(|u: &UniformItem| format!("{} = {:?} ({})", u.name, u.uniform, u.need_update))
        .collect()
}

fn entry(name: &str, uniform: Uniform) -> String {
    format!("{} = {:?} (true)", name, uniform)
}

fn lit_only(material: &Material) {
    assert!(material.has_tag(ShaderTag::Lighting));
    assert!(!material.has_tag(ShaderTag::Shadow));
    assert_eq!(material.get_shader_program().get_tags(), vec![ShaderTag::Lighting]);
}

fn plain(material: &Material, src: &str) {
    assert_eq!(material.name, "");
    assert_eq!(material.blending, Blending::NoBlending);
    assert_eq!(material.get_shader_program().get_src(), src);
    assert!(material.get_shader_program().is_need_update());
}

#[test]
fn bit_patterns_of_one_and_zero() {
    assert_eq!(ONE, bits(1.0));
    assert_eq!(ZERO, bits(0.0));
    assert_eq!(Vector3::new_one(), v3(1.0, 1.0, 1.0));
    assert_eq!(Vector3::new(1, 2, 3), Vector3 { x: 1, y: 2, z: 3 });
}

#[test]
fn well_known_uniforms_have_shader_names() {
    assert_eq!(UniformName::Color.get_name(), "color");
    assert_eq!(UniformName::MapColor.get_name(), "map_color");
    assert_eq!(UniformName::MapSpecular.get_name(), "map_specular");
    assert_eq!(UniformName::Specular.get_name(), "specular");
    assert_eq!(UniformName::Roughness.get_name(), "roughness");
    assert_eq!(UniformName::Metalness.get_name(), "metalness");
    assert_eq!(UniformName::AmbientLight.get_name(), "ambient_light");
    assert_eq!(UniformName::Other("colors[0]".to_string()).get_name(), "colors[0]");
}

#[test]
fn a_new_material_is_empty() {
    let material = Material::new("custom");
    plain(&material, "custom");
    assert!(material.uniforms.is_empty());
    assert!(material.get_shader_program().get_tags().is_empty());
}

#[test]
fn mesh_standard_has_its_defaults() {
    let material = Material::new_mesh_standard();
    plain(&material, "mesh_standard");
    lit_only(&material);
    assert_eq!(
        listed(&material),
        vec![
            entry("color", Uniform::Vector3(v3(1.0, 1.0, 1.0))),
            entry("specular", Uniform::Vector3(v3(1.0, 1.0, 1.0))),
            entry("roughness", Uniform::Float(bits(1.0))),
            entry("metalness", Uniform::Float(bits(0.0))),
            entry("ambient_light", Uniform::Vector3(v3(0.0, 0.0, 0.0))),
        ]
    );
}

#[test]
fn basic_has_its_color() {
    let material = Material::new_basic(v4(0.1, 0.2, 0.3, 1.0));
    plain(&material, "basic");
    assert!(material.get_shader_program().get_tags().is_empty());
    assert_eq!(listed(&material), vec![entry("color", Uniform::Vector4(v4(0.1, 0.2, 0.3, 1.0)))]);
}

#[test]
fn basic_texture_is_lit_and_has_an_empty_color_map() {
    let material = Material::new_basic_texture();
    plain(&material, "basic-texture");
    lit_only(&material);
    assert_eq!(listed(&material), vec![entry("map_color", Uniform::Texture2D(None))]);
}

#[test]
fn normal_and_frame_buffer_have_no_uniforms() {
    let normal = Material::new_normal();
    plain(&normal, "normal");
    assert!(normal.uniforms.is_empty());
    assert!(normal.get_shader_program().get_tags().is_empty());
    let frame_buffer = Material::new_frame_buffer();
    plain(&frame_buffer, "frame_buffer");
    assert!(frame_buffer.uniforms.is_empty());
    assert!(frame_buffer.get_shader_program().get_tags().is_empty());
}

#[test]
fn mat_cup_has_an_empty_color_map() {
    let material = Material::new_mat_cup();
    plain(&material, "mat_cup2");
    assert!(material.get_shader_program().get_tags().is_empty());
    assert_eq!(listed(&material), vec![entry("map_color", Uniform::Texture2D(None))]);
}

#[test]
fn mesh_phong_is_lit_and_has_no_uniforms() {
    let material = Material::new_mesh_phong();
    plain(&material, "mesh_phong");
    lit_only(&material);
    assert!(material.uniforms.is_empty());
}

#[test]
fn light_has_its_color_and_its_light() {
    let material =
        Material::new_light(v4(1.0, 0.0, 0.0, 1.0), v3(1.0, 1.0, 0.5), v3(0.0, 10.0, -2.0));
    plain(&material, "light");
    lit_only(&material);
    assert_eq!(
        listed(&material),
        vec![
            entry("color", Uniform::Vector4(v4(1.0, 0.0, 0.0, 1.0))),
            entry("color_light", Uniform::Vector3(v3(1.0, 1.0, 0.5))),
            entry("position_light", Uniform::Vector3(v3(0.0, 10.0, -2.0))),
        ]
    );
}

#[test]
fn light_texture_has_two_empty_maps() {
    let material =
        Material::new_light_texture(v4(1.0, 0.0, 0.0, 1.0), v3(1.0, 1.0, 0.5), v3(0.0, 10.0, -2.0));
    plain(&material, "light_texture");
    lit_only(&material);
    assert_eq!(
        listed(&material),
        vec![
            entry("color", Uniform::Vector4(v4(1.0, 0.0, 0.0, 1.0))),
            entry("color_light", Uniform::Vector3(v3(1.0, 1.0, 0.5))),
            entry("position_light", Uniform::Vector3(v3(0.0, 10.0, -2.0))),
            entry("map_specular", Uniform::Texture2D(None)),
            entry("map_color", Uniform::Texture2D(None)),
        ]
    );
}

#[test]
fn phong_has_green_and_blue() {
    let material =
        Material::new_phong(v4(1.0, 0.0, 0.0, 1.0), v3(1.0, 1.0, 0.5), v3(0.0, 10.0, -2.0));
    plain(&material, "phong");
    lit_only(&material);
    assert_eq!(
        listed(&material),
        vec![
            entry("color", Uniform::Vector4(v4(1.0, 0.0, 0.0, 1.0))),
            entry("color_light", Uniform::Vector3(v3(1.0, 1.0, 0.5))),
            entry("position_light", Uniform::Vector3(v3(0.0, 10.0, -2.0))),
            entry("colors[0]", Uniform::Vector3(v3(0.0, 1.0, 0.0))),
            entry("colors[1]", Uniform::Vector3(v3(0.0, 0.0, 1.0))),
        ]
    );
}

#[test]
fn writing_a_uniform_overwrites_it_in_place_and_marks_it() {
    let mut material = Material::new_mesh_standard();
    for uniform in material.uniforms.iter_mut() {
        uniform.need_update = false;
    }
    material.set_uniform(UniformName::Roughness, Uniform::Float(bits(0.5)));
    assert_eq!(material.uniforms.len(), 5);
    assert_eq!(material.uniforms[2].name, "roughness");
    assert!(matches!(material.uniforms[2].uniform, Uniform::Float(b) if b == bits(0.5)));
    assert!(material.uniforms[2].need_update);
    assert!(!material.uniforms[0].need_update);
    assert!(!material.uniforms[4].need_update);
    material.set_uniform(UniformName::Other("roughness".to_string()), Uniform::Int(3));
    assert_eq!(material.uniforms.len(), 5);
    assert!(matches!(material.uniforms[2].uniform, Uniform::Int(3)));
    material.set_uniform(UniformName::MapColor, Uniform::Texture2D(None));
    assert_eq!(material.uniforms.len(), 6);
    assert_eq!(material.uniforms[5].name, "map_color");
    assert!(material.uniforms[5].need_update);
    assert!(!material.get_shader_program().get_tags().is_empty());
}

#[test]
fn tags_are_a_set_and_changing_them_asks_for_a_rebuild() {
    let mut program = ShaderProgram::new("basic".to_string());
    assert!(program.is_need_update());
    program.set_need_update(false);
    program.add_tag(ShaderTag::Shadow);
    assert!(program.is_need_update());
    program.add_tag(ShaderTag::Shadow);
    program.add_tag(ShaderTag::Lighting);
    assert_eq!(program.get_tags(), vec![ShaderTag::Lighting, ShaderTag::Shadow]);
    program.set_need_update(false);
    program.remove_tag(ShaderTag::Shadow);
    assert!(program.is_need_update());
    assert!(!program.has_tag(ShaderTag::Shadow));
    assert!(program.has_tag(ShaderTag::Lighting));
    program.set_need_update(false);
    program.remove_tag(ShaderTag::Shadow);
    assert!(program.is_need_update());
    assert_eq!(program.get_tags(), vec![ShaderTag::Lighting]);
    assert_eq!(program.get_src(), "basic");
}

#[test]
fn a_material_hands_tags_to_its_program() {
    let mut material = Material::new("custom");
    assert!(!material.has_tag(ShaderTag::Lighting));
    material.add_tag(ShaderTag::Lighting);
    assert!(material.has_tag(ShaderTag::Lighting));
    material.remove_tag(ShaderTag::Lighting);
    assert!(!material.has_tag(ShaderTag::Lighting));
    assert!(material.uniforms.is_empty());
    material.need_update();
    assert!(material.get_shader_program().is_need_update());
}

#[test]
fn shared_materials_keep_their_order() {
    let mut shared = SharedMaterials::new_collection(vec![
        Material::new("first"),
        Material::new("second"),
        Material::new("third"),
    ]);
    assert_eq!(shared.len(), 3);
    assert_eq!(shared.lock(0).unwrap().get_shader_program().get_src(), "first");
    assert_eq!(shared.lock(1).unwrap().get_shader_program().get_src(), "second");
    assert_eq!(shared.lock(2).unwrap().get_shader_program().get_src(), "third");
    assert_eq!(shared.iter().count(), 3);
    assert_eq!(SharedMaterials::new_collection(Vec::new()).len(), 0);
}

#[test]
fn a_shared_material_is_one_material_for_all_owners() {
    let mut shared = SharedMaterials::new(Material::new_mesh_standard());
    assert_eq!(shared.len(), 1);
    let handle = shared.clone_material(0);
    handle.lock().unwrap().set_uniform(UniformName::Metalness, Uniform::Float(bits(1.0)));
    let seen = shared.lock(0).unwrap();
    assert!(matches!(seen.uniforms[3].uniform, Uniform::Float(b) if b == bits(1.0)));
}

#[test]
fn cells_can_be_replaced_through_the_mutable_iterator() {
    let mut shared = SharedMaterials::new_collection(vec![Material::new("a"), Material::new("b")]);
    let first = shared.clone_material(0);
    for cell in shared.iter_mut() {
        *cell = first.clone();
    }
    assert_eq!(shared.len(), 2);
    assert_eq!(shared.lock(1).unwrap().get_shader_program().get_src(), "a");
}

#[test]
fn the_uniforms_of_a_material_can_be_borrowed() {
    let mut material = Material::new_mesh_standard();
    assert_eq!(material.get_uniforms().len(), 5);
    assert_eq!(material.get_uniforms()[2].name, "roughness");
    material.get_uniforms_mut()[2].need_update = false;
    assert!(!material.uniforms[2].need_update);
    material.get_uniforms_mut().pop();
    assert_eq!(material.get_uniforms().len(), 4);
    assert!(material.has_tag(ShaderTag::Lighting));
}
