use shader_binding::error::ShaderError;
use shader_binding::gl_shader_program::ProgramType;
use shader_binding::shader_source::assemble_program;
use shader_binding::shader_source::choose_include;
use shader_binding::shader_source::splice_include;
use shader_binding::shader_source::find_source;
use shader_binding::shader_source::get_program;
use shader_binding::shader_source::read_shader_file;
use shader_binding::shader_source::set_definitions_fragment;
use shader_binding::shader_source::set_definitions_vertex;
use shader_binding::shader_source::shader_file_name;
use shader_binding::shader_source::split_stages;
use shader_binding::shader_source::BindContext;
use shader_binding::shader_source::RenderSettings;
use shader_binding::shader_source::ShaderFile;
use shader_binding::shader_source::INCLUDE_BUDGET;

fn file(name: &str, code: &str) -> ShaderFile {
    ShaderFile { name: name.to_string(), code: code.to_string() }
}

fn context(lights: u32) -> BindContext {
    BindContext {
        render_settings: RenderSettings { num_point_lights: lights },
        definitions: Vec::new(),
    }
}

#[test]
fn a_chain_of_three_includes_is_expanded_in_order() {
    let sources = vec![
        file("top", "a\n#include <one>\nz\n"),
        file("one", "b\n#include <two>\ny\n"),
        file("two", "c\n#include <three>\nx\n"),
        file("three", "d\n"),
    ];
    let text = read_shader_file(&sources, "top").unwrap();
    assert_eq!(text, "a\nb\nc\nd\n\nx\n\ny\n\nz\n");
    assert!(!text.contains("#include"));
}

#[test]
fn a_file_without_includes_is_read_as_it_is() {
    let sources = vec![file("plain", "void main() {}\n")];
    assert_eq!(read_shader_file(&sources, "plain").unwrap(), "void main() {}\n");
}

#[test]
fn every_occurrence_of_a_directive_is_replaced() {
    let sources = vec![file("top", "#include <x>|#include <x>|#include   <y>"), file("x", "X"), file("y", "Y")];
    assert_eq!(read_shader_file(&sources, "top").unwrap(), "X|X|Y");
}

#[test]
fn an_include_needs_white_space_and_angle_brackets() {
    let sources = vec![file("top", "#include<x> #include \"x\" #include x"), file("x", "X")];
    assert_eq!(
        read_shader_file(&sources, "top").unwrap(),
        "#include<x> #include \"x\" #include x"
    );
}

#[test]
fn an_unknown_shader_is_reported_by_name() {
    let sources = vec![file("top", "#include <missing>\n")];
    assert_eq!(
        read_shader_file(&sources, "nothing"),
        Err(ShaderError::ShaderFileNotFound("nothing".to_string()))
    );
    assert_eq!(
        read_shader_file(&sources, "top"),
        Err(ShaderError::ShaderFileNotFound("missing".to_string()))
    );
    assert_eq!(
        read_shader_file(&Vec::new(), "top"),
        Err(ShaderError::ShaderFileNotFound("top".to_string()))
    );
}

#[test]
fn a_file_that_includes_itself_is_refused() {
    let sources = vec![file("loop", "x\n#include <loop>\n")];
    assert_eq!(
        read_shader_file(&sources, "loop"),
        Err(ShaderError::IncludeCycle("loop".to_string()))
    );
}

#[test]
fn files_that_include_each_other_are_refused() {
    let sources = vec![file("a", "#include <b>"), file("b", "x #include <c>"), file("c", "#include <a>")];
    assert_eq!(read_shader_file(&sources, "a"), Err(ShaderError::IncludeCycle("a".to_string())));
    assert_eq!(read_shader_file(&sources, "b"), Err(ShaderError::IncludeCycle("b".to_string())));
    let sources = vec![file("top", "#include <a>"), file("a", "#include <b>"), file("b", "#include <a>")];
    assert_eq!(read_shader_file(&sources, "top"), Err(ShaderError::IncludeCycle("a".to_string())));
}

#[test]
fn a_file_may_be_included_more_than_once() {
    let sources = vec![
        file("top", "#include <left>\n#include <right>\n#include <common>\n"),
        file("left", "l #include <common>"),
        file("right", "r #include <common>"),
        file("common", "c"),
    ];
    assert_eq!(read_shader_file(&sources, "top").unwrap(), "l c\nr c\nc\n");
}

#[test]
fn many_directives_are_all_expanded() {
    let count = 300;
    let mut top = String::new();
    let mut sources = vec![file("top", "")];
    for i in 0..count {
        top.push_str(&format!("#include <p{}>\n", i));
        sources.push(file(&format!("p{}", i), "."));
    }
    sources[0] = file("top", &top);
    assert_eq!(read_shader_file(&sources, "top").unwrap(), ".\n".repeat(count));
}

#[test]
fn a_long_chain_of_includes_is_followed_to_its_end() {
    let depth = 300;
    let mut sources = Vec::new();
    for i in 0..depth {
        sources.push(file(&format!("f{}", i), &format!("{} #include <f{}>", i % 10, i + 1)));
    }
    sources.push(file(&format!("f{}", depth), "end"));
    let text = read_shader_file(&sources, "f0").unwrap();
    assert!(text.starts_with("0 1 2 3 4 5 6 7 8 9 0 1"));
    assert!(text.ends_with("9 end"));
    assert_eq!(text.len(), 2 * depth + 3);
}

#[test]
fn the_budget_is_all_that_a_machine_can_count() {
    assert_eq!(INCLUDE_BUDGET, usize::max_value());
}

#[test]
fn the_first_source_of_a_name_is_the_one_found() {
    let sources = vec![file("a", "first"), file("b", "other"), file("a", "second")];
    assert_eq!(find_source(&sources, "a"), Some(&"first".to_string()));
    assert_eq!(find_source(&sources, "b"), Some(&"other".to_string()));
    assert_eq!(find_source(&sources, "c"), None);
}

#[test]
fn a_shader_file_ends_in_glsl() {
    assert_eq!(shader_file_name("mesh_standard"), "mesh_standard.glsl");
}

#[test]
fn two_vertex_lines_and_three_fragment_lines_are_told_apart() {
    let code = "#<vertex>\nv1\nv2\n#<fragment>\nf1\nf2\nf3\n";
    let (vs, fs) = split_stages(code);
    assert_eq!(vs, "v1\nv2\n");
    assert_eq!(fs, "f1\nf2\nf3\n");
    assert_eq!(vs.lines().count(), 2);
    assert_eq!(fs.lines().count(), 3);
    let program = assemble_program(code, &context(4));
    assert_eq!(program.vs_source, "#version 330 core\nv1\nv2\n");
    assert_eq!(
        program.fs_source,
        "#version 330 core\n#define NUM_POINT_LIGHTS 4\n\n\nf1\nf2\nf3\n"
    );
    assert_eq!(program.vs_source.lines().count(), 1 + 2);
    assert_eq!(program.fs_source.lines().count(), 4 + 3);
    assert_eq!(program.id, 0);
    assert!(program.uniform_locations.is_empty());
}

#[test]
fn lines_before_the_first_marker_are_dropped() {
    let (vs, fs) = split_stages("// header\nshared\n#<fragment>\nf\n#<vertex>\nv\n#<fragment>\ng");
    assert_eq!(vs, "v\n");
    assert_eq!(fs, "f\ng\n");
}

#[test]
fn a_marker_line_may_carry_more_text() {
    let (vs, fs) = split_stages("#<vertex> main stage\r\nv\r\n #<fragment>\n#<fragment>// f\nf");
    assert_eq!(vs, "v\n #<fragment>\n");
    assert_eq!(fs, "f\n");
}

#[test]
fn text_without_markers_has_empty_stages() {
    assert_eq!(split_stages("void main() {}\n"), (String::new(), String::new()));
    assert_eq!(split_stages(""), (String::new(), String::new()));
}

#[test]
fn each_preamble_holds_the_definitions_of_its_stage() {
    let context = BindContext {
        render_settings: RenderSettings { num_point_lights: 12 },
        definitions: vec![
            (ProgramType::Fragment, "USE_FOG".to_string(), "1".to_string()),
            (ProgramType::Vertex, "SKINNING".to_string(), "1".to_string()),
            (ProgramType::Fragment, "GAMMA".to_string(), "2.2".to_string()),
        ],
    };
    assert_eq!(
        set_definitions_fragment(&"code".to_string(), &context),
        "#version 330 core\n#define NUM_POINT_LIGHTS 12\n\n#define USE_FOG 1\n#define GAMMA 2.2\n\ncode"
    );
    assert_eq!(
        set_definitions_vertex(&"code".to_string(), &context),
        "#version 330 core\n#define SKINNING 1\ncode"
    );
}

#[test]
fn the_light_count_is_written_in_decimal() {
    assert_eq!(
        set_definitions_fragment(&String::new(), &context(0)),
        "#version 330 core\n#define NUM_POINT_LIGHTS 0\n\n\n"
    );
    assert_eq!(
        set_definitions_fragment(&String::new(), &context(4294967295)),
        "#version 330 core\n#define NUM_POINT_LIGHTS 4294967295\n\n\n"
    );
}

#[test]
fn a_program_is_built_from_its_name() {
    let sources = vec![
        file("basic", "#<vertex>\n#include <common>\nvoid main() {}\n#<fragment>\n#include <common>\nvoid main() {}\n"),
        file("common", "uniform vec4 color;"),
    ];
    let program = get_program("basic", &sources, &context(2)).unwrap();
    assert_eq!(program.vs_source, "#version 330 core\nuniform vec4 color;\nvoid main() {}\n");
    assert_eq!(
        program.fs_source,
        "#version 330 core\n#define NUM_POINT_LIGHTS 2\n\n\nuniform vec4 color;\nvoid main() {}\n"
    );
    assert_eq!(
        get_program("phong", &sources, &context(2)).unwrap_err(),
        ShaderError::ShaderFileNotFound("phong".to_string())
    );
}

#[test]
fn markers_may_come_out_of_an_include() {
    let sources = vec![file("top", "#include <stages>"), file("stages", "#<vertex>\nv\n#<fragment>\nf")];
    let program = get_program("top", &sources, &context(1)).unwrap();
    assert_eq!(program.vs_source, "#version 330 core\nv\n");
    assert_eq!(program.fs_source, "#version 330 core\n#define NUM_POINT_LIGHTS 1\n\n\nf\n");
}

#[test]
fn the_vertex_preamble_holds_vertex_definitions_only() {
    let context = BindContext {
        render_settings: RenderSettings { num_point_lights: 3 },
        definitions: vec![
            (ProgramType::Fragment, "A".to_string(), "1".to_string()),
            (ProgramType::Vertex, "B".to_string(), "2".to_string()),
            (ProgramType::NoProgram, "C".to_string(), "3".to_string()),
            (ProgramType::Vertex, "D".to_string(), "4".to_string()),
        ],
    };
    let text = set_definitions_vertex(&"void main() {}\n".to_string(), &context);
    assert_eq!(text, "#version 330 core\n#define B 2\n#define D 4\nvoid main() {}\n");
    assert!(!text.contains("#define A 1"));
    assert!(!text.contains("NUM_POINT_LIGHTS"));
    assert_eq!(context.definitions.len(), 4);
    let program = assemble_program("#<vertex>\nv\n#<fragment>\nf\n", &context);
    assert_eq!(program.vs_source, "#version 330 core\n#define B 2\n#define D 4\nv\n");
    assert_eq!(
        program.fs_source,
        "#version 330 core\n#define NUM_POINT_LIGHTS 3\n\n#define A 1\n\nf\n"
    );
}

#[test]
fn without_definitions_the_vertex_preamble_is_the_version() {
    assert_eq!(set_definitions_vertex(&"code".to_string(), &context(5)), "#version 330 core\ncode");
}

fn capture(directive: &str, name: &str) -> Option<(String, String)> {
    Some((directive.to_string(), name.to_string()))
}

#[test]
fn what_follows_a_capture_is_decided_from_the_capture() {
    let sources = vec![file("a", "A"), file("b", "B")];
    let stack = vec!["top".to_string(), "mid".to_string()];
    assert_eq!(choose_include(&sources, &stack, &None, 5), Ok(None));
    assert_eq!(choose_include(&sources, &stack, &None, 0), Ok(None));
    assert_eq!(
        choose_include(&sources, &stack, &capture("#include <a>", "a"), 5),
        Ok(Some(&"A".to_string()))
    );
    assert_eq!(
        choose_include(&sources, &stack, &capture("#include  <b>", "b"), 1),
        Ok(Some(&"B".to_string()))
    );
    assert_eq!(
        choose_include(&sources, &stack, &capture("#include <mid>", "mid"), 5),
        Err(ShaderError::IncludeCycle("mid".to_string()))
    );
    assert_eq!(
        choose_include(&sources, &stack, &capture("#include <top>", "top"), 0),
        Err(ShaderError::IncludeCycle("top".to_string()))
    );
    assert_eq!(
        choose_include(&sources, &stack, &capture("#include <a>", "a"), 0),
        Err(ShaderError::IncludeLimitExceeded)
    );
    assert_eq!(
        choose_include(&sources, &stack, &capture("#include <c>", "c"), 5),
        Err(ShaderError::ShaderFileNotFound("c".to_string()))
    );
    assert_eq!(
        choose_include(&sources, &Vec::new(), &capture("#include <mid>", "mid"), 5),
        Err(ShaderError::ShaderFileNotFound("mid".to_string()))
    );
}

#[test]
fn a_body_is_spliced_in_for_every_occurrence_of_its_directive() {
    assert_eq!(splice_include("x #include <a> y #include <a>", "#include <a>", "A"), "x A y A");
    assert_eq!(splice_include("x #include <a>", "#include <b>", "B"), "x #include <a>");
    assert_eq!(splice_include("#include <a>", "#include <a>", ""), "");
}
