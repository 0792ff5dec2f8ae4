use shader_binding::helpers::find_file;
use shader_binding::helpers::Candidate;

fn candidate(path: &str, exists: bool) -> Candidate {
    Candidate { path: path.to_string(), exists }
}

#[test]
fn the_first_existing_candidate_is_found() {
    let candidates = vec![
        candidate("a/basic.glsl", false),
        candidate("b/basic.glsl", true),
        candidate("c/basic.glsl", true),
    ];
    assert_eq!(find_file(&candidates), Ok("b/basic.glsl".to_string()));
    assert_eq!(find_file(&vec![candidate("only", true)]), Ok("only".to_string()));
}

#[test]
fn the_error_names_the_candidate_tried_last() {
    let candidates = vec![candidate("a/basic.glsl", false), candidate("b/basic.glsl", false)];
    assert_eq!(find_file(&candidates), Err("file not exist b/basic.glsl;".to_string()));
}

#[test]
fn without_candidates_the_message_is_empty() {
    assert_eq!(find_file(&Vec::new()), Err(String::new()));
}
