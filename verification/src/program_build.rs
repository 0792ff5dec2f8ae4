//! The order of events while a program is built.
//!
//! The driver does the work; this module decides what it is asked to do next.
//! The caller starts with [`begin_build`], performs the requests it is given,
//! and hands the driver's report on the one request that has an answer to
//! [`advance_build`], until the build has the program linked or has failed.

use crate::error::ShaderError;
use crate::error::ShaderErrorView;
use crate::gl_shader_program::build_message;
use crate::gl_shader_program::compile_label;
use crate::gl_shader_program::compile_shader;
use crate::gl_shader_program::failure_message;
use crate::gl_shader_program::link_label;
use crate::gl_shader_program::DriverReport;
use crate::gl_shader_program::ProgramType;
use vstd::prelude::*;

verus! {

/// How far the building of a program has come.
#[derive(Debug, Clone, Copy, PartialEq, Eq, Structural)]
pub enum BuildState {
    /// The vertex stage is being compiled.
    Vertex,
    /// The fragment stage is being compiled; `vs` is the vertex stage.
    Fragment { vs: u32 },
    /// The two stages are being linked.
    Link { vs: u32, fs: u32 },
    /// The program `program` is linked; what is left is to locate its
    /// uniforms. Its stage objects are gone.
    Linked { program: u32 },
    /// The build has failed, and everything it made has been given up.
    Failed,
}

/// Something the driver is asked to do.
#[derive(Debug, Clone, Copy, PartialEq, Eq, Structural)]
pub enum DriverRequest {
    /// Compile the text of this stage and report on it.
    CompileStage { stage: ProgramType },
    /// Make a program of the two stages, link and validate it, and report.
    LinkProgram { vs: u32, fs: u32 },
    /// Delete a stage object.
    DeleteShader { shader: u32 },
    /// Delete a program object.
    DeleteProgram { program: u32 },
}

/// What follows from one report of the driver.
#[derive(Debug, Clone, PartialEq, Eq)]
pub struct BuildStep {
    pub state: BuildState,
    /// What to ask of the driver now, in this order. The last request is the
    /// one to report on, if the build goes on.
    pub requests: Vec<DriverRequest>,
    /// Why the build has failed, if it has.
    pub failure: Option<ShaderError>,
}

/// The state that follows `state` when the driver sends `report`.
pub open spec fn next_state(state: BuildState, report: DriverReport) -> BuildState {
    match state {
        BuildState::Vertex => if report.success {
            BuildState::Fragment { vs: report.id }
        } else {
            BuildState::Failed
        },
        BuildState::Fragment { vs } => if report.success {
            BuildState::Link { vs, fs: report.id }
        } else {
            BuildState::Failed
        },
        BuildState::Link { vs, fs } => if report.success {
            BuildState::Linked { program: report.id }
        } else {
            BuildState::Failed
        },
        BuildState::Linked { program } => state,
        BuildState::Failed => state,
    }
}

/// What the driver is asked to do when it sends `report` in `state`.
///
/// A stage that compiled is followed by the next piece of work. A stage that
/// did not is deleted, together with the stage that was compiled before it.
/// Both stages are deleted as soon as the driver has tried to link them, and a
/// program that did not link is deleted as well.
pub open spec fn next_requests(state: BuildState, report: DriverReport) -> Seq<DriverRequest> {
    match state {
        BuildState::Vertex => if report.success {
            seq![DriverRequest::CompileStage { stage: ProgramType::Fragment }]
        } else {
            seq![DriverRequest::DeleteShader { shader: report.id }]
        },
        BuildState::Fragment { vs } => if report.success {
            seq![DriverRequest::LinkProgram { vs, fs: report.id }]
        } else {
            seq![
                DriverRequest::DeleteShader { shader: vs },
                DriverRequest::DeleteShader { shader: report.id },
            ]
        },
        BuildState::Link { vs, fs } => if report.success {
            seq![
                DriverRequest::DeleteShader { shader: vs },
                DriverRequest::DeleteShader { shader: fs },
            ]
        } else {
            seq![
                DriverRequest::DeleteShader { shader: vs },
                DriverRequest::DeleteShader { shader: fs },
                DriverRequest::DeleteProgram { program: report.id },
            ]
        },
        BuildState::Linked { program } => Seq::empty(),
        BuildState::Failed => Seq::empty(),
    }
}

/// Why the build of the shader `src` fails when the driver sends `report` in
/// `state`, if it does.
pub open spec fn next_failure(state: BuildState, src: Seq<char>, report: DriverReport) -> Option<
    ShaderErrorView,
> {
    if report.success {
        None
    } else {
        match state {
            BuildState::Vertex => Some(
                ShaderErrorView::ShaderCompileFailed {
                    stage: ProgramType::Vertex,
                    message: failure_message(
                        compile_label(ProgramType::Vertex),
                        src,
                        report.info_log@,
                    ),
                },
            ),
            BuildState::Fragment { vs } => Some(
                ShaderErrorView::ShaderCompileFailed {
                    stage: ProgramType::Fragment,
                    message: failure_message(
                        compile_label(ProgramType::Fragment),
                        src,
                        report.info_log@,
                    ),
                },
            ),
            BuildState::Link { vs, fs } => Some(
                ShaderErrorView::ShaderLinkFailed {
                    message: failure_message(link_label(), src, report.info_log@),
                },
            ),
            BuildState::Linked { program } => None,
            BuildState::Failed => None,
        }
    }
}

/// Starts a build: the vertex stage is to be compiled.
pub fn begin_build() -> (r: (BuildState, Vec<DriverRequest>))
    ensures
        r.0 == BuildState::Vertex,
        r.1@ == seq![DriverRequest::CompileStage { stage: ProgramType::Vertex }],
{
    let mut requests: Vec<DriverRequest> = Vec::new();
    requests.push(DriverRequest::CompileStage { stage: ProgramType::Vertex });
    (BuildState::Vertex, requests)
}

/// Takes the driver's report on the work that was asked for last in the build
/// of the shader `src`, and says how the build goes on.
///
/// A failure to compile or to link ends the build. Once the build has linked
/// its program or has failed, reports change nothing.
pub fn advance_build(state: BuildState, src: &str, report: &DriverReport) -> (step: BuildStep)
    ensures
        step.state == next_state(state, *report),
        step.requests@ == next_requests(state, *report),
        match next_failure(state, src@, *report) {
            Some(e) => step.failure is Some && step.failure->Some_0@ == e,
            None => step.failure is None,
        },
{
    let mut requests: Vec<DriverRequest> = Vec::new();
    match state {
        BuildState::Vertex => match compile_shader(ProgramType::Vertex, src, report) {
            Ok(vs) => {
                requests.push(DriverRequest::CompileStage { stage: ProgramType::Fragment });
                BuildStep { state: BuildState::Fragment { vs }, requests, failure: None }
            },
            Err(e) => {
                requests.push(DriverRequest::DeleteShader { shader: report.id });
                BuildStep { state: BuildState::Failed, requests, failure: Some(e) }
            },
        },
        BuildState::Fragment { vs } => match compile_shader(ProgramType::Fragment, src, report) {
            Ok(fs) => {
                requests.push(DriverRequest::LinkProgram { vs, fs });
                BuildStep { state: BuildState::Link { vs, fs }, requests, failure: None }
            },
            Err(e) => {
                requests.push(DriverRequest::DeleteShader { shader: vs });
                requests.push(DriverRequest::DeleteShader { shader: report.id });
                BuildStep { state: BuildState::Failed, requests, failure: Some(e) }
            },
        },
        BuildState::Link { vs, fs } => {
            requests.push(DriverRequest::DeleteShader { shader: vs });
            requests.push(DriverRequest::DeleteShader { shader: fs });
            if report.success {
                BuildStep { state: BuildState::Linked { program: report.id }, requests, failure: None }
            } else {
                requests.push(DriverRequest::DeleteProgram { program: report.id });
                let message = build_message(
                    "ERROR::SHADER::PROGRAM::COMPILATION_FAILED: ",
                    src,
                    report.info_log.as_str(),
                );
                BuildStep {
                    state: BuildState::Failed,
                    requests,
                    failure: Some(ShaderError::ShaderLinkFailed { message }),
                }
            }
        },
        BuildState::Linked { program } => BuildStep { state, requests, failure: None },
        BuildState::Failed => BuildStep { state, requests, failure: None },
    }
}

/// The state of a build after the first `n` of `reports`.
pub open spec fn state_after(reports: Seq<DriverReport>, n: nat) -> BuildState
    decreases n,
{
    if n == 0 {
        BuildState::Vertex
    } else {
        next_state(state_after(reports, (n - 1) as nat), reports[n - 1])
    }
}

/// Everything the driver has been asked to do in a build by the time it has
/// sent the first `n` of `reports`.
pub open spec fn requests_after(reports: Seq<DriverReport>, n: nat) -> Seq<DriverRequest>
    decreases n,
{
    if n == 0 {
        seq![DriverRequest::CompileStage { stage: ProgramType::Vertex }]
    } else {
        requests_after(reports, (n - 1) as nat) + next_requests(
            state_after(reports, (n - 1) as nat),
            reports[n - 1],
        )
    }
}

/// The stage objects that `requests` ask to delete, in the order of asking.
pub open spec fn stage_deletions(requests: Seq<DriverRequest>) -> Seq<u32>
    decreases requests.len(),
{
    if requests.len() == 0 {
        Seq::empty()
    } else {
        let before = stage_deletions(requests.drop_last());
        match requests.last() {
            DriverRequest::DeleteShader { shader } => before.push(shader),
            _ => before,
        }
    }
}

/// The program objects that `requests` ask to delete, in the order of asking.
pub open spec fn program_deletions(requests: Seq<DriverRequest>) -> Seq<u32>
    decreases requests.len(),
{
    if requests.len() == 0 {
        Seq::empty()
    } else {
        let before = program_deletions(requests.drop_last());
        match requests.last() {
            DriverRequest::DeleteProgram { program } => before.push(program),
            _ => before,
        }
    }
}

/// The stage objects that the driver made in the first `n` reports, in the
/// order of making. A stage object is made for every compilation that is
/// reported on, whether it succeeded or not.
pub open spec fn stages_made(reports: Seq<DriverReport>, n: nat) -> Seq<u32>
    decreases n,
{
    if n == 0 {
        Seq::empty()
    } else {
        let state = state_after(reports, (n - 1) as nat);
        if state is Vertex || state is Fragment {
            stages_made(reports, (n - 1) as nat).push(reports[n - 1].id)
        } else {
            stages_made(reports, (n - 1) as nat)
        }
    }
}

/// Whether the build still holds stage objects.
pub open spec fn is_under_way(state: BuildState) -> bool {
    state is Vertex || state is Fragment || state is Link
}

proof fn lemma_stage_deletions_add(a: Seq<DriverRequest>, b: Seq<DriverRequest>)
    ensures
        stage_deletions(a + b) == stage_deletions(a) + stage_deletions(b),
    decreases b.len(),
{
    if b.len() == 0 {
        assert(a + b =~= a);
    } else {
        lemma_stage_deletions_add(a, b.drop_last());
        assert((a + b).drop_last() =~= a + b.drop_last());
    }
}

proof fn lemma_program_deletions_add(a: Seq<DriverRequest>, b: Seq<DriverRequest>)
    ensures
        program_deletions(a + b) == program_deletions(a) + program_deletions(b),
    decreases b.len(),
{
    if b.len() == 0 {
        assert(a + b =~= a);
    } else {
        lemma_program_deletions_add(a, b.drop_last());
        assert((a + b).drop_last() =~= a + b.drop_last());
    }
}

/// What one report adds to the deletions.
proof fn lemma_step_deletions(state: BuildState, report: DriverReport)
    ensures
        stage_deletions(next_requests(state, report)) == match state {
            BuildState::Vertex => if report.success {
                Seq::<u32>::empty()
            } else {
                seq![report.id]
            },
            BuildState::Fragment { vs } => if report.success {
                Seq::<u32>::empty()
            } else {
                seq![vs, report.id]
            },
            BuildState::Link { vs, fs } => seq![vs, fs],
            _ => Seq::<u32>::empty(),
        },
        program_deletions(next_requests(state, report)) == if state is Link && !report.success {
            seq![report.id]
        } else {
            Seq::<u32>::empty()
        },
{
    reveal_with_fuel(stage_deletions, 5);
    reveal_with_fuel(program_deletions, 5);
    let r = next_requests(state, report);
    if r.len() == 1 {
        assert(r.drop_last() =~= Seq::empty());
    } else if r.len() == 2 {
        assert(r.drop_last().drop_last() =~= Seq::empty());
    } else if r.len() == 3 {
        assert(r.drop_last().drop_last().drop_last() =~= Seq::empty());
    }
    assert(stage_deletions(r) =~= match state {
        BuildState::Vertex => if report.success {
            Seq::<u32>::empty()
        } else {
            seq![report.id]
        },
        BuildState::Fragment { vs } => if report.success {
            Seq::<u32>::empty()
        } else {
            seq![vs, report.id]
        },
        BuildState::Link { vs, fs } => seq![vs, fs],
        _ => Seq::<u32>::empty(),
    });
    assert(program_deletions(r) =~= if state is Link && !report.success {
        seq![report.id]
    } else {
        Seq::<u32>::empty()
    });
}

/// What a build holds on to while it is under way, and what it has let go of.
proof fn lemma_build_accounts(reports: Seq<DriverReport>, n: nat)
    ensures
        match state_after(reports, n) {
            BuildState::Vertex => stages_made(reports, n) == Seq::<u32>::empty()
                && stage_deletions(requests_after(reports, n)) == Seq::<u32>::empty(),
            BuildState::Fragment { vs } => stages_made(reports, n) == seq![vs] && stage_deletions(
                requests_after(reports, n),
            ) == Seq::<u32>::empty(),
            BuildState::Link { vs, fs } => stages_made(reports, n) == seq![vs, fs]
                && stage_deletions(requests_after(reports, n)) == Seq::<u32>::empty(),
            _ => stage_deletions(requests_after(reports, n)) == stages_made(reports, n),
        },
        state_after(reports, n) is Failed ==> program_deletions(requests_after(reports, n)).len()
            <= 1,
        !(state_after(reports, n) is Failed) ==> program_deletions(requests_after(reports, n))
            == Seq::<u32>::empty(),
    decreases n,
{
    if n == 0 {
        let start = seq![DriverRequest::CompileStage { stage: ProgramType::Vertex }];
        assert(start.drop_last() =~= Seq::empty());
        reveal_with_fuel(stage_deletions, 2);
        reveal_with_fuel(program_deletions, 2);
    } else {
        let before = state_after(reports, (n - 1) as nat);
        let report = reports[n - 1];
        lemma_build_accounts(reports, (n - 1) as nat);
        lemma_step_deletions(before, report);
        lemma_stage_deletions_add(
            requests_after(reports, (n - 1) as nat),
            next_requests(before, report),
        );
        lemma_program_deletions_add(
            requests_after(reports, (n - 1) as nat),
            next_requests(before, report),
        );
        let made = stages_made(reports, (n - 1) as nat);
        let gone = stage_deletions(requests_after(reports, (n - 1) as nat));
        match before {
            BuildState::Vertex => {
                assert(made.push(report.id) =~= seq![report.id]);
                assert(gone + seq![report.id] =~= seq![report.id]);
                assert(gone + Seq::<u32>::empty() =~= gone);
            },
            BuildState::Fragment { vs } => {
                assert(made.push(report.id) =~= seq![vs, report.id]);
                assert(gone + seq![vs, report.id] =~= seq![vs, report.id]);
                assert(gone + Seq::<u32>::empty() =~= gone);
            },
            BuildState::Link { vs, fs } => {
                assert(gone + seq![vs, fs] =~= seq![vs, fs]);
            },
            _ => {
                assert(gone + Seq::<u32>::empty() =~= gone);
            },
        }
        let programs = program_deletions(requests_after(reports, (n - 1) as nat));
        assert(programs + Seq::<u32>::empty() =~= programs);
    }
}

/// A build is over after three reports at the most.
pub proof fn lemma_build_ends(reports: Seq<DriverReport>, n: nat)
    requires
        n >= 3,
    ensures
        !is_under_way(state_after(reports, n)),
    decreases n,
{
    reveal_with_fuel(state_after, 4);
    if n > 3 {
        lemma_build_ends(reports, (n - 1) as nat);
    }
}

/// A build that is over has asked for the deletion of exactly the stage
/// objects that the driver made for it, each once and in the order of making.
/// A build that has linked its program has not asked for any program to be
/// deleted, and a build that has failed has asked for one at the most.
pub proof fn lemma_build_releases_what_it_made(reports: Seq<DriverReport>, n: nat)
    requires
        !is_under_way(state_after(reports, n)),
    ensures
        stage_deletions(requests_after(reports, n)) == stages_made(reports, n),
        state_after(reports, n) is Linked ==> program_deletions(requests_after(reports, n))
            == Seq::<u32>::empty(),
        state_after(reports, n) is Failed ==> program_deletions(requests_after(reports, n)).len()
            <= 1,
{
    lemma_build_accounts(reports, n);
}

/// A program that does not link is deleted on the spot, and only such a
/// program.
pub proof fn lemma_unlinked_program_is_deleted(state: BuildState, report: DriverReport)
    ensures
        program_deletions(next_requests(state, report)) == if state is Link && !report.success {
            seq![report.id]
        } else {
            Seq::<u32>::empty()
        },
{
    lemma_step_deletions(state, report);
}

} // verus!
