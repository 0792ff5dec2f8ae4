//! Putting shader source together: includes are pulled in, the text is split
//! into its vertex and fragment parts, and each part gets its preamble.
//!
//! Files are not read here. The caller supplies the sources it has read, each
//! under its shader name.

use crate::error::ShaderError;
use crate::error::ShaderErrorView;
use crate::gl_shader_program::GLShaderProgramID;
use crate::gl_shader_program::ProgramType;
use crate::text::append_chars;
use crate::text::begins_with;
use crate::text::chars_of;
use crate::text::decimal;
use crate::text::decimal_chars;
use crate::text::line_views;
use crate::text::lines_of;
use crate::text::matches_at;
use crate::text::replace;
use crate::text::replace_all;
use crate::text::split_lines;
use crate::text::text_of;
use regex::Regex;
use vstd::prelude::*;
use vstd::string::*;

verus! {

/// The source of one shader file, under the name by which it is included.
#[derive(Debug, Clone, PartialEq, Eq)]
pub struct ShaderFile {
    pub name: String,
    pub code: String,
}

/// Settings of the renderer that shader text depends on.
#[derive(Debug, Clone, Copy, PartialEq, Eq, Structural)]
pub struct RenderSettings {
    pub num_point_lights: u32,
}

/// What is known while a program is bound: the render settings, and the
/// definitions to inject, each as stage, name and value.
#[derive(Debug, Clone)]
pub struct BindContext {
    pub render_settings: RenderSettings,
    pub definitions: Vec<(ProgramType, String, String)>,
}

/// How many expansions one call may make before it gives up. The budget is
/// there so that every call ends; it is as large as a machine can count, and
/// no text that a machine can hold comes near it. Cycles are not left to it:
/// they are found by name.
pub const INCLUDE_BUDGET: usize = usize::MAX;

/// The extension of a shader file.
pub open spec fn shader_extension() -> Seq<char> {
    ".glsl"@
}

/// The name of the file that holds the shader `name`.
pub fn shader_file_name(name: &str) -> (file: String)
    ensures
        file@ == name@ + shader_extension(),
{
    let mut file = String::from_str(name);
    file.append(".glsl");
    file
}

/// The regular expression for an include directive: `#include`, white space,
/// and the name of the shader between angle brackets.
pub open spec fn include_pattern() -> Seq<char> {
    "#include\\s+<(\\S+)>"@
}

/// What the regular expression `pattern` finds first in `text`: the text of
/// the leftmost match and the text of its first capture group. It is `None`
/// when `pattern` is no valid regular expression, when nothing in `text`
/// matches, and when the match has no first group.
pub uninterp spec fn first_capture(pattern: Seq<char>, text: Seq<char>) -> Option<
    (Seq<char>, Seq<char>),
>;

/// `Regex::new` on `pattern`, then `Regex::captures` on `text`, of the `regex`
/// crate. The result is a function of the two strings alone; nothing more is
/// claimed of it than that it is [`first_capture`].
#[verifier::external_body]
fn regex_capture(pattern: &str, text: &str) -> (r: Option<(String, String)>)
    ensures
        match r {
            Some(found) => first_capture(pattern@, text@) == Some((found.0@, found.1@)),
            None => first_capture(pattern@, text@) is None,
        },
{
    let regex = Regex::new(pattern).ok()?;
    let captures = regex.captures(text)?;
    let whole = captures.get(0)?.as_str().to_string();
    let group = captures.get(1)?.as_str().to_string();
    Some((whole, group))
}

/// The source filed under `name`, looking from entry `from` on.
pub open spec fn source_from(files: Seq<ShaderFile>, name: Seq<char>, from: nat) -> Option<
    Seq<char>,
>
    decreases files.len() - from,
{
    if from >= files.len() {
        None
    } else if files[from as int].name@ == name {
        Some(files[from as int].code@)
    } else {
        source_from(files, name, from + 1)
    }
}

/// The source filed under `name`: that of the first entry with this name.
pub open spec fn source_of(files: Seq<ShaderFile>, name: Seq<char>) -> Option<Seq<char>> {
    source_from(files, name, 0)
}

/// Looks up the source filed under `name`.
pub fn find_source<'a>(sources: &'a Vec<ShaderFile>, name: &str) -> (found: Option<&'a String>)
    ensures
        match found {
            Some(code) => source_of(sources@, name@) == Some(code@),
            None => source_of(sources@, name@) is None,
        },
{
    let wanted = String::from_str(name);
    let mut i: usize = 0;
    while i < sources.len()
        invariant
            i <= sources.len(),
            wanted@ == name@,
            source_of(sources@, name@) == source_from(sources@, name@, i as nat),
        decreases sources.len() - i,
    {
        if sources[i].name == wanted {
            return Some(&sources[i].code);
        }
        i = i + 1;
    }
    None
}

/// The names in `stack`, as text.
pub open spec fn name_views(stack: Seq<String>) -> Seq<Seq<char>> {
    stack.map_values(|name: String| name@)
}

/// What is to be done about the directive that was found first in a text,
/// while the shaders named in `stack` are being expanded around it and `fuel`
/// is left of the budget.
///
/// `capture` is the directive and the name in it, or `None` if the text holds
/// no directive. Without a directive there is nothing to do, which is
/// `Ok(None)`. A name that is being expanded closes a cycle, and is refused. So
/// is a directive when the budget is spent, and the name of a shader that is
/// not among `files`. Otherwise the answer is the text of the shader to put in.
pub open spec fn next_include(
    files: Seq<ShaderFile>,
    stack: Seq<Seq<char>>,
    capture: Option<(Seq<char>, Seq<char>)>,
    fuel: nat,
) -> Result<Option<Seq<char>>, ShaderErrorView> {
    match capture {
        None => Ok(None),
        Some((directive, name)) => if stack.contains(name) {
            Err(ShaderErrorView::IncludeCycle(name))
        } else if fuel == 0 {
            Err(ShaderErrorView::IncludeLimitExceeded)
        } else {
            match source_of(files, name) {
                None => Err(ShaderErrorView::ShaderFileNotFound(name)),
                Some(included) => Ok(Some(included)),
            }
        },
    }
}

/// `code` with its include directives expanded, while the shaders named in
/// `stack` are being expanded around it, within a budget of `fuel`.
///
/// As long as the text holds a directive, the leftmost one is taken: the
/// shader it names is expanded in turn, and its text replaces every occurrence
/// of the directive. Whatever [`next_include`] refuses ends the expansion.
pub open spec fn expanded(
    files: Seq<ShaderFile>,
    code: Seq<char>,
    stack: Seq<Seq<char>>,
    fuel: nat,
) -> Result<Seq<char>, ShaderErrorView>
    decreases fuel,
{
    let capture = first_capture(include_pattern(), code);
    match next_include(files, stack, capture, fuel) {
        Err(e) => Err(e),
        Ok(None) => Ok(code),
        Ok(Some(included)) => if fuel == 0 {
            Err(ShaderErrorView::IncludeLimitExceeded)
        } else {
            match expanded(files, included, stack.push(capture->Some_0.1), (fuel - 1) as nat) {
                Err(e) => Err(e),
                Ok(body) => expanded(
                    files,
                    replace_all(code, capture->Some_0.0, body),
                    stack,
                    (fuel - 1) as nat,
                ),
            }
        },
    }
}

/// The full text of the shader `name`.
pub open spec fn resolved(files: Seq<ShaderFile>, name: Seq<char>) -> Result<
    Seq<char>,
    ShaderErrorView,
> {
    match source_of(files, name) {
        None => Err(ShaderErrorView::ShaderFileNotFound(name)),
        Some(code) => expanded(files, code, seq![name], INCLUDE_BUDGET as nat),
    }
}

/// Text whose includes have been expanded holds no include directive.
pub proof fn lemma_expanded_holds_no_include(
    files: Seq<ShaderFile>,
    code: Seq<char>,
    stack: Seq<Seq<char>>,
    fuel: nat,
)
    requires
        expanded(files, code, stack, fuel) is Ok,
    ensures
        first_capture(include_pattern(), expanded(files, code, stack, fuel)->Ok_0) is None,
    decreases fuel,
{
    let capture = first_capture(include_pattern(), code);
    match next_include(files, stack, capture, fuel) {
        Ok(Some(included)) => {
            let body = expanded(
                files,
                included,
                stack.push(capture->Some_0.1),
                (fuel - 1) as nat,
            )->Ok_0;
            lemma_expanded_holds_no_include(
                files,
                replace_all(code, capture->Some_0.0, body),
                stack,
                (fuel - 1) as nat,
            );
        },
        _ => {},
    }
}

/// A directive that names a shader which is being expanded is refused on the
/// spot, however much of the budget is left.
pub proof fn lemma_cycle_is_refused(
    files: Seq<ShaderFile>,
    code: Seq<char>,
    stack: Seq<Seq<char>>,
    fuel: nat,
)
    requires
        first_capture(include_pattern(), code) is Some,
        stack.contains(first_capture(include_pattern(), code)->Some_0.1),
    ensures
        expanded(files, code, stack, fuel) == Err::<Seq<char>, ShaderErrorView>(
            ShaderErrorView::IncludeCycle(first_capture(include_pattern(), code)->Some_0.1),
        ),
{
}

/// Tells whether the shader `name` is being expanded.
fn is_under_expansion(stack: &Vec<String>, name: &String) -> (b: bool)
    ensures
        b == name_views(stack@).contains(name@),
{
    let mut i: usize = 0;
    while i < stack.len()
        invariant
            i <= stack.len(),
            forall|j: int| 0 <= j < i ==> name_views(stack@)[j] != name@,
        decreases stack.len() - i,
    {
        if stack[i] == *name {
            assert(name_views(stack@)[i as int] == name@);
            return true;
        }
        i = i + 1;
    }
    false
}

/// The stack with `name` on top.
fn with_name(stack: &Vec<String>, name: &String) -> (longer: Vec<String>)
    ensures
        name_views(longer@) == name_views(stack@).push(name@),
{
    let mut longer: Vec<String> = Vec::new();
    let mut i: usize = 0;
    while i < stack.len()
        invariant
            i <= stack.len(),
            longer@.len() == i,
            forall|j: int| 0 <= j < i ==> longer@[j]@ == stack@[j]@,
        decreases stack.len() - i,
    {
        longer.push(stack[i].clone());
        i = i + 1;
    }
    longer.push(name.clone());
    assert(name_views(longer@) =~= name_views(stack@).push(name@));
    longer
}

/// Decides what is to be done about the directive that was found first in a
/// text: nothing if there is none, the text of the shader to put in its place,
/// or the reason why the expansion ends here.
pub fn choose_include<'a>(
    sources: &'a Vec<ShaderFile>,
    stack: &Vec<String>,
    capture: &Option<(String, String)>,
    fuel: usize,
) -> (r: Result<Option<&'a String>, ShaderError>)
    ensures
        match next_include(
            sources@,
            name_views(stack@),
            match *capture {
                Some(found) => Some((found.0@, found.1@)),
                None => None,
            },
            fuel as nat,
        ) {
            Ok(Some(text)) => r is Ok && r->Ok_0 is Some && r->Ok_0->Some_0@ == text,
            Ok(None) => r is Ok && r->Ok_0 is None,
            Err(e) => r is Err && r->Err_0@ == e,
        },
{
    let name = match capture {
        None => {
            return Ok(None);
        },
        Some(found) => &found.1,
    };
    if is_under_expansion(stack, name) {
        return Err(ShaderError::IncludeCycle(name.clone()));
    }
    if fuel == 0 {
        return Err(ShaderError::IncludeLimitExceeded);
    }
    match find_source(sources, name.as_str()) {
        None => Err(ShaderError::ShaderFileNotFound(name.clone())),
        Some(included) => Ok(Some(included)),
    }
}

/// Puts `body` in the place of every occurrence of `directive` in `code`.
pub fn splice_include(code: &str, directive: &str, body: &str) -> (text: String)
    ensures
        text@ == replace_all(code@, directive@, body@),
{
    text_of(&replace(&chars_of(code), &chars_of(directive), &chars_of(body)))
}

/// Expands the include directives of `code`.
fn expand_includes(sources: &Vec<ShaderFile>, code: &str, stack: &Vec<String>, fuel: usize) -> (r:
    Result<String, ShaderError>)
    ensures
        match expanded(sources@, code@, name_views(stack@), fuel as nat) {
            Ok(text) => r is Ok && r->Ok_0@ == text,
            Err(e) => r is Err && r->Err_0@ == e,
        },
    decreases fuel,
{
    let mut current = String::from_str(code);
    let mut left = fuel;
    loop
        invariant
            left <= fuel,
            expanded(sources@, code@, name_views(stack@), fuel as nat) == expanded(
                sources@,
                current@,
                name_views(stack@),
                left as nat,
            ),
        decreases left,
    {
        let capture = regex_capture("#include\\s+<(\\S+)>", current.as_str());
        let included = match choose_include(sources, stack, &capture, left) {
            Err(e) => {
                return Err(e);
            },
            Ok(None) => {
                return Ok(current);
            },
            Ok(Some(included)) => included,
        };
        let (directive, name) = capture.unwrap();
        let inner = with_name(stack, &name);
        let body = match expand_includes(sources, included.as_str(), &inner, left - 1) {
            Err(e) => {
                return Err(e);
            },
            Ok(body) => body,
        };
        current = splice_include(current.as_str(), directive.as_str(), body.as_str());
        left = left - 1;
    }
}

/// Reads the shader `path` out of `sources`, with every include expanded.
///
/// The result is [`ShaderError::ShaderFileNotFound`] with the missing name when
/// `path`, or a shader that is included on the way, is not among the sources,
/// and [`ShaderError::IncludeCycle`] when a shader includes itself, directly or
/// through others. Text that comes back holds no include directive.
pub fn read_shader_file(sources: &Vec<ShaderFile>, path: &str) -> (r: Result<String, ShaderError>)
    ensures
        match resolved(sources@, path@) {
            Ok(text) => r is Ok && r->Ok_0@ == text,
            Err(e) => r is Err && r->Err_0@ == e,
        },
        r is Ok ==> first_capture(include_pattern(), r->Ok_0@) is None,
{
    match find_source(sources, path) {
        None => Err(ShaderError::ShaderFileNotFound(String::from_str(path))),
        Some(code) => {
            let mut stack: Vec<String> = Vec::new();
            stack.push(String::from_str(path));
            proof {
                assert(name_views(stack@) =~= seq![path@]);
                if expanded(sources@, code@, seq![path@], INCLUDE_BUDGET as nat) is Ok {
                    lemma_expanded_holds_no_include(
                        sources@,
                        code@,
                        seq![path@],
                        INCLUDE_BUDGET as nat,
                    );
                }
            }
            expand_includes(sources, code.as_str(), &stack, INCLUDE_BUDGET)
        },
    }
}

/// The line that opens the vertex part of a shader file.
pub open spec fn vertex_marker() -> Seq<char> {
    "#<vertex>"@
}

/// The line that opens the fragment part of a shader file.
pub open spec fn fragment_marker() -> Seq<char> {
    "#<fragment>"@
}

/// The stage that `line` switches to, if it is a marker line.
pub open spec fn marker_of(line: Seq<char>) -> ProgramType {
    if begins_with(line, vertex_marker()) {
        ProgramType::Vertex
    } else if begins_with(line, fragment_marker()) {
        ProgramType::Fragment
    } else {
        ProgramType::NoProgram
    }
}

/// The stage that text belongs to after the first `n` lines: that of the last
/// marker among them.
pub open spec fn stage_after(lines: Seq<Seq<char>>, n: nat) -> ProgramType
    decreases n,
{
    if n == 0 {
        ProgramType::NoProgram
    } else if marker_of(lines[n - 1]) != ProgramType::NoProgram {
        marker_of(lines[n - 1])
    } else {
        stage_after(lines, (n - 1) as nat)
    }
}

/// The text of `stage` among the first `n` lines: every line that is no marker
/// and stands under a marker of that stage, each closed by a line feed.
pub open spec fn stage_source(lines: Seq<Seq<char>>, n: nat, stage: ProgramType) -> Seq<char>
    decreases n,
{
    if n == 0 {
        Seq::empty()
    } else {
        let before = stage_source(lines, (n - 1) as nat, stage);
        if marker_of(lines[n - 1]) == ProgramType::NoProgram && stage_after(
            lines,
            (n - 1) as nat,
        ) == stage {
            (before + lines[n - 1]).push('\n')
        } else {
            before
        }
    }
}

/// The vertex part of `code`.
pub open spec fn vertex_part(code: Seq<char>) -> Seq<char> {
    stage_source(lines_of(code), lines_of(code).len(), ProgramType::Vertex)
}

/// The fragment part of `code`.
pub open spec fn fragment_part(code: Seq<char>) -> Seq<char> {
    stage_source(lines_of(code), lines_of(code).len(), ProgramType::Fragment)
}

/// Splits shader text into its vertex part and its fragment part.
///
/// A line that begins with `#<vertex>` or `#<fragment>` sends the lines after
/// it to that part and is itself dropped, as are the lines before the first
/// such marker.
pub fn split_stages(code: &str) -> (parts: (String, String))
    ensures
        parts.0@ == vertex_part(code@),
        parts.1@ == fragment_part(code@),
{
    let lines = split_lines(&chars_of(code));
    let vertex_mark = chars_of("#<vertex>");
    let fragment_mark = chars_of("#<fragment>");
    let mut vs: Vec<char> = Vec::new();
    let mut fs: Vec<char> = Vec::new();
    let mut stage = ProgramType::NoProgram;
    let mut i: usize = 0;
    while i < lines.len()
        invariant
            i <= lines.len(),
            line_views(lines@) == lines_of(code@),
            vertex_mark@ == vertex_marker(),
            fragment_mark@ == fragment_marker(),
            stage == stage_after(lines_of(code@), i as nat),
            vs@ == stage_source(lines_of(code@), i as nat, ProgramType::Vertex),
            fs@ == stage_source(lines_of(code@), i as nat, ProgramType::Fragment),
        decreases lines.len() - i,
    {
        assert(line_views(lines@)[i as int] == lines@[i as int]@);
        if matches_at(&lines[i], 0, &vertex_mark) {
            stage = ProgramType::Vertex;
        } else if matches_at(&lines[i], 0, &fragment_mark) {
            stage = ProgramType::Fragment;
        } else {
            match stage {
                ProgramType::Vertex => {
                    append_chars(&mut vs, &lines[i]);
                    vs.push('\n');
                },
                ProgramType::Fragment => {
                    append_chars(&mut fs, &lines[i]);
                    fs.push('\n');
                },
                ProgramType::NoProgram => {},
            }
        }
        i = i + 1;
    }
    assert(lines@.len() == line_views(lines@).len());
    (text_of(&vs), text_of(&fs))
}

/// The directive that every stage opens with.
pub open spec fn version_line() -> Seq<char> {
    "#version 330 core\n"@
}

/// One definition, on a line of its own.
pub open spec fn definition_line(name: Seq<char>, value: Seq<char>) -> Seq<char> {
    "#define "@ + name + " "@ + value + "\n"@
}

/// The definition lines for `stage` among the first `n` definitions.
pub open spec fn stage_definitions(
    definitions: Seq<(ProgramType, String, String)>,
    stage: ProgramType,
    n: nat,
) -> Seq<char>
    decreases n,
{
    if n == 0 {
        Seq::empty()
    } else {
        let before = stage_definitions(definitions, stage, (n - 1) as nat);
        if definitions[n - 1].0 == stage {
            before + definition_line(definitions[n - 1].1@, definitions[n - 1].2@)
        } else {
            before
        }
    }
}

/// The text of a fragment stage, ready to compile: the version, the number of
/// point lights, an empty line, the definitions for the fragment stage, another
/// empty line, and the code.
pub open spec fn fragment_text(code: Seq<char>, context: BindContext) -> Seq<char> {
    version_line() + definition_line(
        "NUM_POINT_LIGHTS"@,
        decimal(context.render_settings.num_point_lights as nat),
    ) + "\n"@ + stage_definitions(
        context.definitions@,
        ProgramType::Fragment,
        context.definitions@.len(),
    ) + "\n"@ + code
}

/// The text of a vertex stage, ready to compile: the version, the definitions
/// for the vertex stage, and the code.
pub open spec fn vertex_text(code: Seq<char>, context: BindContext) -> Seq<char> {
    version_line() + stage_definitions(
        context.definitions@,
        ProgramType::Vertex,
        context.definitions@.len(),
    ) + code
}

fn push_definition(out: &mut String, name: &str, value: &str)
    ensures
        final(out)@ == old(out)@ + definition_line(name@, value@),
{
    out.append("#define ");
    out.append(name);
    out.append(" ");
    out.append(value);
    out.append("\n");
    assert(out@ =~= old(out)@ + definition_line(name@, value@));
}

/// Appends the definition lines for `stage` to `out`.
fn push_stage_definitions(
    out: &mut String,
    definitions: &Vec<(ProgramType, String, String)>,
    stage: ProgramType,
)
    ensures
        final(out)@ == old(out)@ + stage_definitions(definitions@, stage, definitions@.len()),
{
    let n = definitions.len();
    let mut i: usize = 0;
    assert(out@ =~= old(out)@ + stage_definitions(definitions@, stage, 0));
    while i < n
        invariant
            i <= n,
            n == definitions@.len(),
            out@ == old(out)@ + stage_definitions(definitions@, stage, i as nat),
        decreases n - i,
    {
        let ghost before = stage_definitions(definitions@, stage, i as nat);
        let entry = &definitions[i];
        if entry.0 == stage {
            push_definition(out, entry.1.as_str(), entry.2.as_str());
            assert(out@ =~= old(out)@ + (before + definition_line(entry.1@, entry.2@)));
        }
        i = i + 1;
    }
}

/// Puts the preamble of the fragment stage in front of `code`.
pub fn set_definitions_fragment(code: &String, bind_context: &BindContext) -> (text: String)
    ensures
        text@ == fragment_text(code@, *bind_context),
{
    let mut text = String::from_str("#version 330 core\n");
    let lights = text_of(&decimal_chars(bind_context.render_settings.num_point_lights));
    push_definition(&mut text, "NUM_POINT_LIGHTS", lights.as_str());
    text.append("\n");
    push_stage_definitions(&mut text, &bind_context.definitions, ProgramType::Fragment);
    text.append("\n");
    text.append(code.as_str());
    assert(text@ =~= fragment_text(code@, *bind_context));
    text
}

/// Puts the preamble of the vertex stage in front of `code`.
pub fn set_definitions_vertex(code: &String, bind_context: &BindContext) -> (text: String)
    ensures
        text@ == vertex_text(code@, *bind_context),
{
    let mut text = String::from_str("#version 330 core\n");
    push_stage_definitions(&mut text, &bind_context.definitions, ProgramType::Vertex);
    text.append(code.as_str());
    text
}

/// Builds the program for shader text whose includes have been expanded: both
/// stages with their preambles, no id yet and no locations.
pub fn assemble_program(code: &str, bind_context: &BindContext) -> (program: GLShaderProgramID)
    ensures
        program.vs_source@ == vertex_text(vertex_part(code@), *bind_context),
        program.fs_source@ == fragment_text(fragment_part(code@), *bind_context),
        program.id == 0,
        program.uniform_locations@.len() == 0,
{
    let (vs, fs) = split_stages(code);
    GLShaderProgramID {
        fs_source: set_definitions_fragment(&fs, bind_context),
        vs_source: set_definitions_vertex(&vs, bind_context),
        id: 0,
        uniform_locations: Vec::new(),
    }
}

/// Builds the program of the shader `src` from `sources`: its text is read
/// with all includes, split into stages, and each stage gets its preamble. It
/// fails as [`read_shader_file`] does.
pub fn get_program(src: &str, sources: &Vec<ShaderFile>, bind_context: &BindContext) -> (r: Result<
    GLShaderProgramID,
    ShaderError,
>)
    ensures
        match resolved(sources@, src@) {
            Err(e) => r is Err && r->Err_0@ == e,
            Ok(code) => r is Ok && r->Ok_0.vs_source@ == vertex_text(
                vertex_part(code),
                *bind_context,
            )
                && r->Ok_0.fs_source@ == fragment_text(fragment_part(code), *bind_context)
                && r->Ok_0.id == 0 && r->Ok_0.uniform_locations@.len() == 0,
        },
{
    match read_shader_file(sources, src) {
        Err(e) => Err(e),
        Ok(code) => Ok(assemble_program(code.as_str(), bind_context)),
    }
}

} // verus!
