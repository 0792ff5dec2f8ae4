use shader_binding::error::ShaderError;
use shader_binding::gl_shader_program::compile_shader;
use shader_binding::gl_shader_program::compile_shader_program;
use shader_binding::gl_shader_program::locate_uniforms;
use shader_binding::gl_shader_program::DriverReport;
use shader_binding::gl_shader_program::GLShaderProgramID;
use shader_binding::gl_shader_program::ProgramType;
use shader_binding::gl_shader_program::UniformError;
use shader_binding::gl_shader_program::UniformLocation;
use shader_binding::gl_shader_program::NOT_FOUND;
use shader_binding::uniform::Uniform;
use shader_binding::uniform::UniformItem;
use shader_binding::uniform::Vector4;

fn report(id: u32, success: bool, log: &str) -> DriverReport {
    DriverReport { id, success, info_log: log.to_string() }
}

fn unlinked() -> GLShaderProgramID {
    GLShaderProgramID {
        fs_source: "fragment".to_string(),
        vs_source: "vertex".to_string(),
        id: 0,
        uniform_locations: Vec::new(),
    }
}

fn color_map_roughness() -> Vec<UniformItem> {
    vec![
        UniformItem::new("color".to_string(), Uniform::Vector4(Vector4 { x: 1, y: 1, z: 1, w: 1 })),
        UniformItem::new("map_color".to_string(), Uniform::Texture2D(None)),
        UniformItem::new("roughness".to_string(), Uniform::Float(5)),
    ]
}

#[test]
fn one_sampler_among_three_uniforms_gets_slot_zero() {
    let (table, calls) = locate_uniforms(&color_map_roughness(), &vec![4, 5, 6]);
    assert_eq!(
        table,
        vec![
            UniformLocation { location: 4, texture_slot: -1 },
            UniformLocation { location: 5, texture_slot: 0 },
            UniformLocation { location: 6, texture_slot: -1 },
        ]
    );
    assert_eq!(format!("{:?}", calls), "[Uniform1i { location: 5, value: 0 }]");
}

#[test]
fn samplers_get_consecutive_slots() {
    let uniforms = vec![
        UniformItem::new("a".to_string(), Uniform::Texture2D(None)),
        UniformItem::new("b".to_string(), Uniform::Int(1)),
        UniformItem::new("c".to_string(), Uniform::Texture2D(None)),
        UniformItem::new("d".to_string(), Uniform::Texture2D(None)),
    ];
    let (table, calls) = locate_uniforms(&uniforms, &vec![9, 8, NOT_FOUND, 6]);
    let slots: Vec<i32> = table.iter().map(|l| l.texture_slot).collect();
    let locations: Vec<i32> = table.iter().map(|l| l.location).collect();
    assert_eq!(slots, vec![0, -1, 1, 2]);
    assert_eq!(locations, vec![9, 8, NOT_FOUND, 6]);
    assert_eq!(
        format!("{:?}", calls),
        "[Uniform1i { location: 9, value: 0 }, Uniform1i { location: -1, value: 1 }, Uniform1i { location: 6, value: 2 }]"
    );
}

#[test]
fn no_uniforms_give_an_empty_table() {
    let (table, calls) = locate_uniforms(&Vec::new(), &Vec::new());
    assert!(table.is_empty());
    assert!(calls.is_empty());
}

#[test]
fn a_compiled_stage_yields_its_object() {
    assert_eq!(compile_shader(ProgramType::Vertex, "basic", &report(12, true, "")), Ok(12));
    assert_eq!(compile_shader(ProgramType::Fragment, "basic", &report(13, true, "warning")), Ok(13));
}

#[test]
fn a_failed_stage_is_reported_with_name_stage_and_log() {
    assert_eq!(
        compile_shader(ProgramType::Fragment, "basic", &report(3, false, "0:1: syntax error")),
        Err(ShaderError::ShaderCompileFailed {
            stage: ProgramType::Fragment,
            message: "ERROR::SHADER::FRAGMENT::COMPILATION_FAILED: basic\n0:1: syntax error"
                .to_string(),
        })
    );
    assert_eq!(
        compile_shader(ProgramType::Vertex, "phong", &report(3, false, "bad")),
        Err(ShaderError::ShaderCompileFailed {
            stage: ProgramType::Vertex,
            message: "ERROR::SHADER::VERTEX::COMPILATION_FAILED: phong\nbad".to_string(),
        })
    );
    assert_eq!(
        compile_shader(ProgramType::NoProgram, "phong", &report(3, false, "bad")),
        Err(ShaderError::ShaderCompileFailed {
            stage: ProgramType::NoProgram,
            message: "ERROR::SHADER::?::COMPILATION_FAILED: phong\nbad".to_string(),
        })
    );
}

#[test]
fn a_failed_link_is_fatal_and_touches_nothing() {
    let mut uniforms = color_map_roughness();
    let r = compile_shader_program(
        "basic",
        unlinked(),
        &report(5, false, "unresolved symbol"),
        &vec![1, 2, 3],
        &mut uniforms,
    );
    match r {
        Err(ShaderError::ShaderLinkFailed { message }) => assert_eq!(
            message,
            "ERROR::SHADER::PROGRAM::COMPILATION_FAILED: basic\nunresolved symbol"
        ),
        other => panic!("unexpected result {:?}", other),
    }
    assert!(uniforms.iter().all(|u| u.need_update));
}

#[test]
fn a_linked_program_is_located_and_sent_once() {
    let mut uniforms = color_map_roughness();
    let (program, calls) = compile_shader_program(
        "basic",
        unlinked(),
        &report(5, true, ""),
        &vec![1, 2, 3],
        &mut uniforms,
    )
    .unwrap();
    assert_eq!(program.id, 5);
    assert_eq!(program.vs_source, "vertex");
    assert_eq!(program.fs_source, "fragment");
    assert_eq!(
        program.uniform_locations,
        vec![
            UniformLocation { location: 1, texture_slot: -1 },
            UniformLocation { location: 2, texture_slot: 0 },
            UniformLocation { location: 3, texture_slot: -1 },
        ]
    );
    assert_eq!(
        format!("{:?}", calls),
        "[UseProgram { program: 5 }, Uniform1i { location: 2, value: 0 }, Uniform4fv { location: 1, count: 1, data: [1, 1, 1, 1] }, ActiveTexture { unit: 0 }, BindTexture2D { texture: None }, Uniform1f { location: 3, value: 5 }]"
    );
    assert!(!uniforms[0].need_update);
    assert!(uniforms[1].need_update);
    assert!(!uniforms[2].need_update);
}

#[test]
fn a_uniform_that_cannot_be_sent_fails_the_program() {
    let mut uniforms = vec![UniformItem::new("weights".to_string(), Uniform::ArrInt(Vec::new()))];
    let r = compile_shader_program("basic", unlinked(), &report(5, true, ""), &vec![1], &mut uniforms);
    assert_eq!(r.unwrap_err(), ShaderError::UniformRejected(UniformError::EmptyArray));
    assert!(uniforms[0].need_update);
}
