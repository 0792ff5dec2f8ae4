use shader_binding::gl_shader_program::set_uniform;
use shader_binding::gl_shader_program::set_uniforms;
use shader_binding::gl_shader_program::GLShaderProgramID;
use shader_binding::gl_shader_program::GlCall;
use shader_binding::gl_shader_program::UniformError;
use shader_binding::gl_shader_program::UniformLocation;
use shader_binding::gl_shader_program::NOT_FOUND;
use shader_binding::gl_shader_program::NO_SLOT;
use shader_binding::texture::SharedTexture2D;
use shader_binding::uniform::Matrix3;
use shader_binding::uniform::Matrix4;
use shader_binding::uniform::Uniform;
use shader_binding::uniform::UniformItem;
use shader_binding::uniform::Vector2;
use shader_binding::uniform::Vector3;
use shader_binding::uniform::Vector4;

fn bits(x: f32) -> u32 {
    x.to_bits()
}

fn at(location: i32) -> UniformLocation {
    UniformLocation { location, texture_slot: NO_SLOT }
}

fn program(table: Vec<UniformLocation>) -> GLShaderProgramID {
    GLShaderProgramID {
        fs_source: String::new(),
        vs_source: String::new(),
        id: 7,
        uniform_locations: table,
    }
}

fn show(calls: &[GlCall]) -> String {
    format!("{:?}", calls)
}

#[test]
fn scalars_use_their_own_entry_points() {
    let calls = set_uniform(&Uniform::Float(bits(0.5)), &at(3)).unwrap();
    assert_eq!(show(&calls), format!("[Uniform1f {{ location: 3, value: {} }}]", bits(0.5)));
    let calls = set_uniform(&Uniform::Int(-4), &at(4)).unwrap();
    assert_eq!(show(&calls), "[Uniform1i { location: 4, value: -4 }]");
    let calls = set_uniform(&Uniform::UInt(9), &at(5)).unwrap();
    assert_eq!(show(&calls), "[Uniform1ui { location: 5, value: 9 }]");
}

#[test]
fn vectors_are_sent_with_count_one() {
    let v2 = Vector2 { x: 1, y: 2 };
    let v3 = Vector3 { x: 1, y: 2, z: 3 };
    let v4 = Vector4 { x: 1, y: 2, z: 3, w: 4 };
    assert_eq!(
        show(&set_uniform(&Uniform::Vector2(v2), &at(0)).unwrap()),
        "[Uniform2fv { location: 0, count: 1, data: [1, 2] }]"
    );
    assert_eq!(
        show(&set_uniform(&Uniform::Vector3(v3), &at(1)).unwrap()),
        "[Uniform3fv { location: 1, count: 1, data: [1, 2, 3] }]"
    );
    assert_eq!(
        show(&set_uniform(&Uniform::Vector4(v4), &at(2)).unwrap()),
        "[Uniform4fv { location: 2, count: 1, data: [1, 2, 3, 4] }]"
    );
}

#[test]
fn matrices_are_sent_untransposed() {
    let m3 = Matrix3 { elements: [1, 2, 3, 4, 5, 6, 7, 8, 9] };
    let m4 = Matrix4 { elements: [1, 2, 3, 4, 5, 6, 7, 8, 9, 10, 11, 12, 13, 14, 15, 16] };
    assert_eq!(
        show(&set_uniform(&Uniform::Matrix3f(m3), &at(6)).unwrap()),
        "[UniformMatrix3fv { location: 6, count: 1, transpose: false, data: [1, 2, 3, 4, 5, 6, 7, 8, 9] }]"
    );
    assert_eq!(
        show(&set_uniform(&Uniform::Matrix4f(m4), &at(7)).unwrap()),
        "[UniformMatrix4fv { location: 7, count: 1, transpose: false, data: [1, 2, 3, 4, 5, 6, 7, 8, 9, 10, 11, 12, 13, 14, 15, 16] }]"
    );
}

#[test]
fn arrays_are_flattened_and_counted() {
    let v2 = vec![Vector2 { x: 1, y: 2 }, Vector2 { x: 3, y: 4 }];
    assert_eq!(
        show(&set_uniform(&Uniform::ArrVector2(v2), &at(1)).unwrap()),
        "[Uniform2fv { location: 1, count: 2, data: [1, 2, 3, 4] }]"
    );
    let v3 = vec![Vector3 { x: 1, y: 2, z: 3 }, Vector3 { x: 4, y: 5, z: 6 }];
    assert_eq!(
        show(&set_uniform(&Uniform::ArrVector3(v3), &at(1)).unwrap()),
        "[Uniform3fv { location: 1, count: 2, data: [1, 2, 3, 4, 5, 6] }]"
    );
    let v4 = vec![Vector4 { x: 1, y: 2, z: 3, w: 4 }, Vector4 { x: 5, y: 6, z: 7, w: 8 }];
    assert_eq!(
        show(&set_uniform(&Uniform::ArrVector4(v4), &at(1)).unwrap()),
        "[Uniform4fv { location: 1, count: 2, data: [1, 2, 3, 4, 5, 6, 7, 8] }]"
    );
    let m3 = vec![Matrix3 { elements: [1; 9] }, Matrix3 { elements: [2; 9] }];
    assert_eq!(
        show(&set_uniform(&Uniform::ArrMatrix3f(m3), &at(2)).unwrap()),
        "[UniformMatrix3fv { location: 2, count: 2, transpose: false, data: [1, 1, 1, 1, 1, 1, 1, 1, 1, 2, 2, 2, 2, 2, 2, 2, 2, 2] }]"
    );
    let m4 = vec![Matrix4 { elements: [3; 16] }];
    assert_eq!(
        show(&set_uniform(&Uniform::ArrMatrix4f(m4), &at(2)).unwrap()),
        "[UniformMatrix4fv { location: 2, count: 1, transpose: false, data: [3, 3, 3, 3, 3, 3, 3, 3, 3, 3, 3, 3, 3, 3, 3, 3] }]"
    );
    assert_eq!(
        show(&set_uniform(&Uniform::ArrFloat(vec![5, 6, 7]), &at(3)).unwrap()),
        "[Uniform1fv { location: 3, count: 3, data: [5, 6, 7] }]"
    );
    assert_eq!(
        show(&set_uniform(&Uniform::ArrInt(vec![-1, 2]), &at(3)).unwrap()),
        "[Uniform1iv { location: 3, count: 2, data: [-1, 2] }]"
    );
    assert_eq!(
        show(&set_uniform(&Uniform::ArrUInt(vec![8, 9]), &at(3)).unwrap()),
        "[Uniform1uiv { location: 3, count: 2, data: [8, 9] }]"
    );
}

#[test]
fn an_empty_array_is_an_error() {
    assert_eq!(
        set_uniform(&Uniform::ArrFloat(Vec::new()), &at(1)).unwrap_err(),
        UniformError::EmptyArray
    );
    assert_eq!(
        set_uniform(&Uniform::ArrVector3(Vec::new()), &at(1)).unwrap_err(),
        UniformError::EmptyArray
    );
    assert_eq!(
        set_uniform(&Uniform::ArrMatrix4f(Vec::new()), &at(1)).unwrap_err(),
        UniformError::EmptyArray
    );
}

#[test]
fn an_unused_uniform_is_passed_over_without_error() {
    assert!(set_uniform(&Uniform::Float(1), &at(NOT_FOUND)).unwrap().is_empty());
    assert!(set_uniform(&Uniform::ArrFloat(Vec::new()), &at(NOT_FOUND)).unwrap().is_empty());
    let loc = UniformLocation { location: NOT_FOUND, texture_slot: 0 };
    assert!(set_uniform(&Uniform::Texture2D(None), &loc).unwrap().is_empty());
}

#[test]
fn a_sampler_selects_its_unit_and_binds_its_texture() {
    let texture = SharedTexture2D::new_from_path("wall.png");
    let loc = UniformLocation { location: 4, texture_slot: 2 };
    let calls = set_uniform(&Uniform::Texture2D(Some(texture.share())), &loc).unwrap();
    assert_eq!(calls.len(), 2);
    assert!(matches!(calls[0], GlCall::ActiveTexture { unit: 2 }));
    match &calls[1] {
        GlCall::BindTexture2D { texture: Some(bound) } => assert!(bound.is_same(&texture)),
        other => panic!("unexpected call {:?}", other),
    }
    let calls = set_uniform(&Uniform::Texture2D(None), &loc).unwrap();
    assert!(matches!(calls[0], GlCall::ActiveTexture { unit: 2 }));
    assert!(matches!(calls[1], GlCall::BindTexture2D { texture: None }));
}

#[test]
fn a_sampler_without_a_unit_is_an_error() {
    let loc = UniformLocation { location: 4, texture_slot: NO_SLOT };
    assert_eq!(
        set_uniform(&Uniform::Texture2D(None), &loc).unwrap_err(),
        UniformError::NoTextureSlot
    );
}

fn three_uniforms() -> Vec<UniformItem> {
    vec![
        UniformItem::new("color".to_string(), Uniform::Vector4(Vector4 { x: 1, y: 2, z: 3, w: 4 })),
        UniformItem::new("map_color".to_string(), Uniform::Texture2D(None)),
        UniformItem::new("roughness".to_string(), Uniform::Float(bits(1.0))),
    ]
}

fn three_locations() -> Vec<UniformLocation> {
    vec![
        UniformLocation { location: 10, texture_slot: NO_SLOT },
        UniformLocation { location: 11, texture_slot: 0 },
        UniformLocation { location: 12, texture_slot: NO_SLOT },
    ]
}

#[test]
fn a_pass_sends_what_is_dirty_and_clears_the_flags() {
    let mut uniforms = three_uniforms();
    let calls = set_uniforms(&mut uniforms, &program(three_locations())).unwrap();
    assert_eq!(
        show(&calls),
        format!(
            "[Uniform4fv {{ location: 10, count: 1, data: [1, 2, 3, 4] }}, ActiveTexture {{ unit: 0 }}, BindTexture2D {{ texture: None }}, Uniform1f {{ location: 12, value: {} }}]",
            bits(1.0)
        )
    );
    assert!(!uniforms[0].need_update);
    assert!(uniforms[1].need_update);
    assert!(!uniforms[2].need_update);
}

#[test]
fn a_second_pass_sends_the_texture_calls_only() {
    let mut uniforms = three_uniforms();
    let table = program(three_locations());
    set_uniforms(&mut uniforms, &table).unwrap();
    let again = set_uniforms(&mut uniforms, &table).unwrap();
    assert_eq!(show(&again), "[ActiveTexture { unit: 0 }, BindTexture2D { texture: None }]");
    let third = set_uniforms(&mut uniforms, &table).unwrap();
    assert_eq!(show(&third), show(&again));
}

#[test]
fn a_written_uniform_is_sent_again() {
    let mut uniforms = three_uniforms();
    let table = program(three_locations());
    set_uniforms(&mut uniforms, &table).unwrap();
    uniforms[2] = UniformItem::new("roughness".to_string(), Uniform::Float(bits(0.25)));
    let calls = set_uniforms(&mut uniforms, &table).unwrap();
    assert_eq!(
        show(&calls),
        format!(
            "[ActiveTexture {{ unit: 0 }}, BindTexture2D {{ texture: None }}, Uniform1f {{ location: 12, value: {} }}]",
            bits(0.25)
        )
    );
}

#[test]
fn an_unused_uniform_stays_dirty_and_sends_nothing() {
    let mut uniforms = three_uniforms();
    let mut table = three_locations();
    table[0].location = NOT_FOUND;
    table[1].location = NOT_FOUND;
    let calls = set_uniforms(&mut uniforms, &program(table)).unwrap();
    assert_eq!(show(&calls), format!("[Uniform1f {{ location: 12, value: {} }}]", bits(1.0)));
    assert!(uniforms[0].need_update);
    assert!(!uniforms[2].need_update);
}

#[test]
fn a_pass_that_fails_changes_nothing() {
    let mut uniforms = three_uniforms();
    uniforms.push(UniformItem::new("weights".to_string(), Uniform::ArrFloat(Vec::new())));
    let mut table = three_locations();
    table.push(UniformLocation { location: 13, texture_slot: NO_SLOT });
    let table = program(table);
    assert_eq!(set_uniforms(&mut uniforms, &table).unwrap_err(), UniformError::EmptyArray);
    assert!(uniforms.iter().all(|u| u.need_update));
    uniforms[3].need_update = false;
    let calls = set_uniforms(&mut uniforms, &table).unwrap();
    assert_eq!(calls.len(), 4);
}

#[test]
fn a_pass_over_no_uniforms_sends_nothing() {
    let mut uniforms: Vec<UniformItem> = Vec::new();
    assert!(set_uniforms(&mut uniforms, &program(Vec::new())).unwrap().is_empty());
}
