//! Building a program from the sources of its two stages.
//!
//! A build allocates a program object, compiles the vertex stage and then the
//! fragment stage. Where either compile ends with 0 the build reports it,
//! releases the shader that did compile, and ends with 0. Otherwise it
//! attaches both shaders, links, reads the link status, validates, releases
//! both shaders and ends with the program's handle. A link status that is not
//! set is reported and changes nothing else.
//!
//! `ProgramBuild` is the state of such a build between two commands. Each
//! state has one command pending; `resume` takes the reply to it.

use crate::command::{
    command_views, reply_views, Command, CommandView, Progress, Reply, ReplyView, Stage,
};
use crate::compiler::{
    lemma_compile_fails, lemma_compile_step, lemma_compile_succeeds, StageCompile,
    StageCompileView,
};
use crate::ledger::{
    commands_of, creates, deletes, lemma_counted, lemma_counts_of_log, times_created,
    times_deleted, Exchange,
};
use vstd::prelude::*;
use vstd::string::StringExecFns;

verus! {

/// A build that waits for the reply to its pending command.
#[derive(Debug)]
pub enum ProgramBuild {
    /// Waiting for the handle of the new program.
    CreatingProgram { vertex_source: String, fragment_source: String },
    /// Waiting on the compile of the vertex stage.
    CompilingVertex { program: u32, compile: StageCompile, fragment_source: String },
    /// Waiting on the compile of the fragment stage.
    CompilingFragment { program: u32, vertex: u32, compile: StageCompile },
    /// Waiting for the failed build to be reported. `survivor` is the shader
    /// that did compile, 0 where none did.
    ReportingFailure { survivor: u32 },
    /// Waiting for the shader that did compile to be released.
    Discarding { shader: u32 },
    /// Waiting for the vertex shader to be attached.
    AttachingVertex { program: u32, vertex: u32, fragment: u32 },
    /// Waiting for the fragment shader to be attached.
    AttachingFragment { program: u32, vertex: u32, fragment: u32 },
    /// Waiting for the link to be over.
    Linking { program: u32, vertex: u32, fragment: u32 },
    /// Waiting for the link status.
    CheckingLink { program: u32, vertex: u32, fragment: u32 },
    /// Waiting for the failed link to be reported.
    ReportingLink { program: u32, vertex: u32, fragment: u32 },
    /// Waiting for the validation to be over.
    Validating { program: u32, vertex: u32, fragment: u32 },
    /// Waiting for the vertex shader to be released.
    ReleasingVertex { program: u32, vertex: u32, fragment: u32 },
    /// Waiting for the fragment shader to be released.
    ReleasingFragment { program: u32, fragment: u32 },
}

/// The view of `ProgramBuild`: the state that contracts speak of.
pub ghost enum ProgramBuildView {
    CreatingProgram { vertex_source: Seq<char>, fragment_source: Seq<char> },
    CompilingVertex { program: u32, compile: StageCompileView, fragment_source: Seq<char> },
    CompilingFragment { program: u32, vertex: u32, compile: StageCompileView },
    ReportingFailure { survivor: u32 },
    Discarding { shader: u32 },
    AttachingVertex { program: u32, vertex: u32, fragment: u32 },
    AttachingFragment { program: u32, vertex: u32, fragment: u32 },
    Linking { program: u32, vertex: u32, fragment: u32 },
    CheckingLink { program: u32, vertex: u32, fragment: u32 },
    ReportingLink { program: u32, vertex: u32, fragment: u32 },
    Validating { program: u32, vertex: u32, fragment: u32 },
    ReleasingVertex { program: u32, vertex: u32, fragment: u32 },
    ReleasingFragment { program: u32, fragment: u32 },
}

impl View for ProgramBuild {
    type V = ProgramBuildView;

    open spec fn view(&self) -> ProgramBuildView {
        match *self {
            ProgramBuild::CreatingProgram {
                vertex_source,
                fragment_source,
            } => ProgramBuildView::CreatingProgram {
                vertex_source: vertex_source@,
                fragment_source: fragment_source@,
            },
            ProgramBuild::CompilingVertex {
                program,
                compile,
                fragment_source,
            } => ProgramBuildView::CompilingVertex {
                program,
                compile: compile@,
                fragment_source: fragment_source@,
            },
            ProgramBuild::CompilingFragment {
                program,
                vertex,
                compile,
            } => ProgramBuildView::CompilingFragment { program, vertex, compile: compile@ },
            ProgramBuild::ReportingFailure { survivor } => ProgramBuildView::ReportingFailure {
                survivor,
            },
            ProgramBuild::Discarding { shader } => ProgramBuildView::Discarding { shader },
            ProgramBuild::AttachingVertex {
                program,
                vertex,
                fragment,
            } => ProgramBuildView::AttachingVertex { program, vertex, fragment },
            ProgramBuild::AttachingFragment {
                program,
                vertex,
                fragment,
            } => ProgramBuildView::AttachingFragment { program, vertex, fragment },
            ProgramBuild::Linking { program, vertex, fragment } => ProgramBuildView::Linking {
                program,
                vertex,
                fragment,
            },
            ProgramBuild::CheckingLink {
                program,
                vertex,
                fragment,
            } => ProgramBuildView::CheckingLink { program, vertex, fragment },
            ProgramBuild::ReportingLink {
                program,
                vertex,
                fragment,
            } => ProgramBuildView::ReportingLink { program, vertex, fragment },
            ProgramBuild::Validating {
                program,
                vertex,
                fragment,
            } => ProgramBuildView::Validating { program, vertex, fragment },
            ProgramBuild::ReleasingVertex {
                program,
                vertex,
                fragment,
            } => ProgramBuildView::ReleasingVertex { program, vertex, fragment },
            ProgramBuild::ReleasingFragment {
                program,
                fragment,
            } => ProgramBuildView::ReleasingFragment { program, fragment },
        }
    }
}

/// The line that reports a build in which a stage did not compile.
pub open spec fn build_failure_message() -> Seq<char> {
    "Shader compilation failed!"@
}

/// The line that reports a link whose status is not set.
pub open spec fn link_failure_message() -> Seq<char> {
    "Program link failed!"@
}

/// Where a build stands once both compiles are over, with `vertex` and
/// `fragment` as their results.
pub open spec fn after_compiles(program: u32, vertex: u32, fragment: u32) -> ProgramBuildView {
    if vertex == 0 || fragment == 0 {
        ProgramBuildView::ReportingFailure {
            survivor: if vertex != 0 {
                vertex
            } else {
                fragment
            },
        }
    } else {
        ProgramBuildView::AttachingVertex { program, vertex, fragment }
    }
}

impl ProgramBuildView {
    /// The state in which a build from the two sources begins.
    pub open spec fn start(
        vertex_source: Seq<char>,
        fragment_source: Seq<char>,
    ) -> ProgramBuildView {
        ProgramBuildView::CreatingProgram { vertex_source, fragment_source }
    }

    /// The command that is pending in this state.
    pub open spec fn command(self) -> CommandView {
        match self {
            ProgramBuildView::CreatingProgram { .. } => CommandView::CreateProgram,
            ProgramBuildView::CompilingVertex { compile, .. } => compile.command(),
            ProgramBuildView::CompilingFragment { compile, .. } => compile.command(),
            ProgramBuildView::ReportingFailure { .. } => CommandView::Print {
                message: build_failure_message(),
            },
            ProgramBuildView::Discarding { shader } => CommandView::DeleteShader { shader },
            ProgramBuildView::AttachingVertex { program, vertex, .. } => CommandView::AttachShader {
                program,
                shader: vertex,
            },
            ProgramBuildView::AttachingFragment {
                program,
                fragment,
                ..
            } => CommandView::AttachShader { program, shader: fragment },
            ProgramBuildView::Linking { program, .. } => CommandView::LinkProgram { program },
            ProgramBuildView::CheckingLink { program, .. } => CommandView::GetLinkStatus {
                program,
            },
            ProgramBuildView::ReportingLink { .. } => CommandView::Print {
                message: link_failure_message(),
            },
            ProgramBuildView::Validating { program, .. } => CommandView::ValidateProgram {
                program,
            },
            ProgramBuildView::ReleasingVertex { vertex, .. } => CommandView::DeleteShader {
                shader: vertex,
            },
            ProgramBuildView::ReleasingFragment { fragment, .. } => CommandView::DeleteShader {
                shader: fragment,
            },
        }
    }

    /// Where the build stands once `reply` has answered the pending command.
    pub open spec fn resume(self, reply: ReplyView) -> Progress<ProgramBuildView> {
        match self {
            ProgramBuildView::CreatingProgram { vertex_source, fragment_source } => {
                Progress::Pending(
                    ProgramBuildView::CompilingVertex {
                        program: reply.handle(),
                        compile: StageCompileView::start(Stage::Vertex, vertex_source),
                        fragment_source,
                    },
                )
            },
            ProgramBuildView::CompilingVertex { program, compile, fragment_source } => {
                match compile.resume(reply) {
                    Progress::Pending(next) => Progress::Pending(
                        ProgramBuildView::CompilingVertex {
                            program,
                            compile: next,
                            fragment_source,
                        },
                    ),
                    Progress::Finished(vertex) => Progress::Pending(
                        ProgramBuildView::CompilingFragment {
                            program,
                            vertex,
                            compile: StageCompileView::start(Stage::Fragment, fragment_source),
                        },
                    ),
                }
            },
            ProgramBuildView::CompilingFragment { program, vertex, compile } => {
                match compile.resume(reply) {
                    Progress::Pending(next) => Progress::Pending(
                        ProgramBuildView::CompilingFragment { program, vertex, compile: next },
                    ),
                    Progress::Finished(fragment) => Progress::Pending(
                        after_compiles(program, vertex, fragment),
                    ),
                }
            },
            ProgramBuildView::ReportingFailure { survivor } => if survivor != 0 {
                Progress::Pending(ProgramBuildView::Discarding { shader: survivor })
            } else {
                Progress::Finished(0)
            },
            ProgramBuildView::Discarding { shader } => Progress::Finished(0),
            ProgramBuildView::AttachingVertex { program, vertex, fragment } => Progress::Pending(
                ProgramBuildView::AttachingFragment { program, vertex, fragment },
            ),
            ProgramBuildView::AttachingFragment { program, vertex, fragment } => Progress::Pending(
                ProgramBuildView::Linking { program, vertex, fragment },
            ),
            ProgramBuildView::Linking { program, vertex, fragment } => Progress::Pending(
                ProgramBuildView::CheckingLink { program, vertex, fragment },
            ),
            ProgramBuildView::CheckingLink { program, vertex, fragment } => if reply.value()
                == 0 {
                Progress::Pending(ProgramBuildView::ReportingLink { program, vertex, fragment })
            } else {
                Progress::Pending(ProgramBuildView::Validating { program, vertex, fragment })
            },
            ProgramBuildView::ReportingLink { program, vertex, fragment } => Progress::Pending(
                ProgramBuildView::Validating { program, vertex, fragment },
            ),
            ProgramBuildView::Validating { program, vertex, fragment } => Progress::Pending(
                ProgramBuildView::ReleasingVertex { program, vertex, fragment },
            ),
            ProgramBuildView::ReleasingVertex { program, vertex, fragment } => Progress::Pending(
                ProgramBuildView::ReleasingFragment { program, fragment },
            ),
            ProgramBuildView::ReleasingFragment { program, fragment } => Progress::Finished(
                program,
            ),
        }
    }
}

/// `progress` is `model`, state by view.
pub open spec fn build_progress_is(
    progress: Progress<ProgramBuild>,
    model: Progress<ProgramBuildView>,
) -> bool {
    match progress {
        Progress::Pending(next) => model == Progress::Pending(next@),
        Progress::Finished(handle) => model == Progress::<ProgramBuildView>::Finished(handle),
    }
}

impl ProgramBuild {
    /// Begins a build from the sources of the two stages.
    pub fn start(vertex_source: String, fragment_source: String) -> (build: ProgramBuild)
        ensures
            build@ == ProgramBuildView::start(vertex_source@, fragment_source@),
    {
        ProgramBuild::CreatingProgram { vertex_source, fragment_source }
    }

    /// The command to carry out next.
    pub fn command(&self) -> (command: Command)
        ensures
            command@ == self@.command(),
    {
        match self {
            ProgramBuild::CreatingProgram { .. } => Command::CreateProgram,
            ProgramBuild::CompilingVertex { compile, .. } => compile.command(),
            ProgramBuild::CompilingFragment { compile, .. } => compile.command(),
            ProgramBuild::ReportingFailure { .. } => Command::Print {
                message: String::from_str("Shader compilation failed!"),
            },
            ProgramBuild::Discarding { shader } => Command::DeleteShader { shader: *shader },
            ProgramBuild::AttachingVertex { program, vertex, .. } => Command::AttachShader {
                program: *program,
                shader: *vertex,
            },
            ProgramBuild::AttachingFragment { program, fragment, .. } => Command::AttachShader {
                program: *program,
                shader: *fragment,
            },
            ProgramBuild::Linking { program, .. } => Command::LinkProgram { program: *program },
            ProgramBuild::CheckingLink { program, .. } => Command::GetLinkStatus {
                program: *program,
            },
            ProgramBuild::ReportingLink { .. } => Command::Print {
                message: String::from_str("Program link failed!"),
            },
            ProgramBuild::Validating { program, .. } => Command::ValidateProgram {
                program: *program,
            },
            ProgramBuild::ReleasingVertex { vertex, .. } => Command::DeleteShader {
                shader: *vertex,
            },
            ProgramBuild::ReleasingFragment { fragment, .. } => Command::DeleteShader {
                shader: *fragment,
            },
        }
    }

    /// Takes in the reply to the pending command.
    pub fn resume(self, reply: Reply) -> (progress: Progress<ProgramBuild>)
        ensures
            build_progress_is(progress, self@.resume(reply@)),
    {
        match self {
            ProgramBuild::CreatingProgram { vertex_source, fragment_source } => {
                Progress::Pending(
                    ProgramBuild::CompilingVertex {
                        program: reply.handle(),
                        compile: StageCompile::start(Stage::Vertex, vertex_source),
                        fragment_source,
                    },
                )
            },
            ProgramBuild::CompilingVertex { program, compile, fragment_source } => {
                match compile.resume(reply) {
                    Progress::Pending(next) => Progress::Pending(
                        ProgramBuild::CompilingVertex { program, compile: next, fragment_source },
                    ),
                    Progress::Finished(vertex) => Progress::Pending(
                        ProgramBuild::CompilingFragment {
                            program,
                            vertex,
                            compile: StageCompile::start(Stage::Fragment, fragment_source),
                        },
                    ),
                }
            },
            ProgramBuild::CompilingFragment { program, vertex, compile } => {
                match compile.resume(reply) {
                    Progress::Pending(next) => Progress::Pending(
                        ProgramBuild::CompilingFragment { program, vertex, compile: next },
                    ),
                    Progress::Finished(fragment) => {
                        if vertex == 0 || fragment == 0 {
                            let survivor: u32 = if vertex != 0 {
                                vertex
                            } else {
                                fragment
                            };
                            Progress::Pending(ProgramBuild::ReportingFailure { survivor })
                        } else {
                            Progress::Pending(
                                ProgramBuild::AttachingVertex { program, vertex, fragment },
                            )
                        }
                    },
                }
            },
            ProgramBuild::ReportingFailure { survivor } => {
                if survivor != 0 {
                    Progress::Pending(ProgramBuild::Discarding { shader: survivor })
                } else {
                    Progress::Finished(0)
                }
            },
            ProgramBuild::Discarding { shader } => Progress::Finished(0),
            ProgramBuild::AttachingVertex { program, vertex, fragment } => Progress::Pending(
                ProgramBuild::AttachingFragment { program, vertex, fragment },
            ),
            ProgramBuild::AttachingFragment { program, vertex, fragment } => Progress::Pending(
                ProgramBuild::Linking { program, vertex, fragment },
            ),
            ProgramBuild::Linking { program, vertex, fragment } => Progress::Pending(
                ProgramBuild::CheckingLink { program, vertex, fragment },
            ),
            ProgramBuild::CheckingLink { program, vertex, fragment } => {
                if reply.value() == 0 {
                    Progress::Pending(ProgramBuild::ReportingLink { program, vertex, fragment })
                } else {
                    Progress::Pending(ProgramBuild::Validating { program, vertex, fragment })
                }
            },
            ProgramBuild::ReportingLink { program, vertex, fragment } => Progress::Pending(
                ProgramBuild::Validating { program, vertex, fragment },
            ),
            ProgramBuild::Validating { program, vertex, fragment } => Progress::Pending(
                ProgramBuild::ReleasingVertex { program, vertex, fragment },
            ),
            ProgramBuild::ReleasingVertex { program, vertex, fragment } => Progress::Pending(
                ProgramBuild::ReleasingFragment { program, fragment },
            ),
            ProgramBuild::ReleasingFragment { program, fragment } => Progress::Finished(program),
        }
    }
}

/// 1 where `held` is `shader`, else 0.
pub open spec fn one_if_same(held: u32, shader: u32) -> int {
    if held == shader {
        1
    } else {
        0
    }
}

impl ProgramBuildView {
    /// The record of the build that goes on from this state and takes
    /// `replies` in, one after the other, until it is over or they are used
    /// up.
    pub open spec fn exchanges(self, replies: Seq<ReplyView>) -> Seq<Exchange>
        decreases replies.len(),
    {
        if replies.len() == 0 {
            Seq::empty()
        } else {
            let head = Exchange { command: self.command(), reply: replies.first() };
            match self.resume(replies.first()) {
                Progress::Pending(next) => seq![head] + next.exchanges(replies.drop_first()),
                Progress::Finished(_) => seq![head],
            }
        }
    }

    /// The result of the build that goes on from this state and takes
    /// `replies` in: `None` where they are used up before it is over.
    pub open spec fn outcome(self, replies: Seq<ReplyView>) -> Option<u32>
        decreases replies.len(),
    {
        if replies.len() == 0 {
            None
        } else {
            match self.resume(replies.first()) {
                Progress::Pending(next) => next.outcome(replies.drop_first()),
                Progress::Finished(handle) => Some(handle),
            }
        }
    }

    /// How often the build in this state has `shader` to release.
    pub open spec fn holds(self, shader: u32) -> int {
        match self {
            ProgramBuildView::CreatingProgram { .. } => 0,
            ProgramBuildView::CompilingVertex { compile, .. } => compile.holds(shader),
            ProgramBuildView::CompilingFragment { vertex, compile, .. } => one_if_same(
                vertex,
                shader,
            ) + compile.holds(shader),
            ProgramBuildView::ReportingFailure { survivor } => one_if_same(survivor, shader),
            ProgramBuildView::Discarding { shader: held } => one_if_same(held, shader),
            ProgramBuildView::AttachingVertex { vertex, fragment, .. }
            | ProgramBuildView::AttachingFragment { vertex, fragment, .. }
            | ProgramBuildView::Linking { vertex, fragment, .. }
            | ProgramBuildView::CheckingLink { vertex, fragment, .. }
            | ProgramBuildView::ReportingLink { vertex, fragment, .. }
            | ProgramBuildView::Validating { vertex, fragment, .. }
            | ProgramBuildView::ReleasingVertex { vertex, fragment, .. } => one_if_same(
                vertex,
                shader,
            ) + one_if_same(fragment, shader),
            ProgramBuildView::ReleasingFragment { fragment, .. } => one_if_same(fragment, shader),
        }
    }

    /// The build has both shaders compiled and is on its way to the handle of
    /// `program`.
    pub open spec fn links(self, program: u32) -> bool {
        match self {
            ProgramBuildView::AttachingVertex { program: linked, .. }
            | ProgramBuildView::AttachingFragment { program: linked, .. }
            | ProgramBuildView::Linking { program: linked, .. }
            | ProgramBuildView::CheckingLink { program: linked, .. }
            | ProgramBuildView::ReportingLink { program: linked, .. }
            | ProgramBuildView::Validating { program: linked, .. }
            | ProgramBuildView::ReleasingVertex { program: linked, .. }
            | ProgramBuildView::ReleasingFragment { program: linked, .. } => linked == program,
            _ => false,
        }
    }

    /// The build has given up.
    pub open spec fn has_failed(self) -> bool {
        self is ReportingFailure || self is Discarding
    }
}

impl ProgramBuild {
    /// Goes on from this state on recorded replies, taken in one after the
    /// other until the build is over or they are used up. Gives the
    /// commands that the replies answered and the result of the build,
    /// `None` where it is not over.
    pub fn replay(self, replies: Vec<Reply>) -> (run: (Vec<Command>, Option<u32>))
        ensures
            command_views(run.0@) == commands_of(self@.exchanges(reply_views(replies@))),
            run.1 == self@.outcome(reply_views(replies@)),
    {
        let ghost begin = self@;
        let ghost all = reply_views(replies@);
        let mut state = self;
        let mut commands: Vec<Command> = Vec::new();
        proof {
            assert(all.skip(0) == all);
            assert(command_views(commands@) + commands_of(begin.exchanges(all)) == commands_of(
                begin.exchanges(all),
            ));
        }
        for reply in it: replies
            invariant
                begin == self@,
                all == reply_views(replies@),
                all == reply_views(it.seq()),
                commands_of(begin.exchanges(all)) == command_views(commands@) + commands_of(
                    state@.exchanges(all.skip(it.index())),
                ),
                begin.outcome(all) == state@.outcome(all.skip(it.index())),
        {
            let ghost rest = all.skip(it.index());
            let ghost issued = command_views(commands@);
            let ghost head = Exchange { command: state@.command(), reply: reply@ };
            proof {
                assert(rest.first() == reply@);
                assert(rest.drop_first() == all.skip(it.index() + 1));
            }
            let command = state.command();
            proof {
                assert(command_views(commands@.push(command)) == issued.push(command@));
            }
            commands.push(command);
            match state.resume(reply) {
                Progress::Pending(next) => {
                    proof {
                        let tail = next@.exchanges(rest.drop_first());
                        assert(commands_of(seq![head] + tail) == seq![head.command] + commands_of(
                            tail,
                        ));
                        assert(issued + (seq![head.command] + commands_of(tail)) == issued.push(
                            head.command,
                        ) + commands_of(tail));
                    }
                    state = next;
                },
                Progress::Finished(handle) => {
                    proof {
                        assert(commands_of(seq![head]) == seq![head.command]);
                        assert(issued + seq![head.command] == issued.push(head.command));
                    }
                    return (commands, Some(handle));
                },
            }
        }
        proof {
            assert(all.skip(all.len() as int).len() == 0);
            assert(command_views(commands@) + Seq::<CommandView>::empty() == command_views(
                commands@,
            ));
        }
        (commands, None)
    }
}

/// What a build holds of `shader` once a step is over.
pub open spec fn still_holds(progress: Progress<ProgramBuildView>, shader: u32) -> int {
    match progress {
        Progress::Pending(next) => next.holds(shader),
        Progress::Finished(_) => 0,
    }
}

/// One step of a build keeps the count: what it held and was handed out is
/// what it released and still holds.
pub proof fn lemma_build_step(state: ProgramBuildView, reply: ReplyView, shader: u32)
    requires
        shader != 0,
    ensures
        ({
            let exchange = Exchange { command: state.command(), reply };
            state.holds(shader) + creates(exchange, shader) == deletes(exchange, shader)
                + still_holds(state.resume(reply), shader)
        }),
{
    match state {
        ProgramBuildView::CompilingVertex { compile, .. } => {
            lemma_compile_step(compile, reply, shader);
        },
        ProgramBuildView::CompilingFragment { compile, .. } => {
            lemma_compile_step(compile, reply, shader);
        },
        _ => {},
    }
}

/// A build that is over has released every shader object that it was handed
/// out or held: none is left, however the compiles and the link went.
pub proof fn lemma_build_balance(state: ProgramBuildView, replies: Seq<ReplyView>, shader: u32)
    requires
        shader != 0,
        state.outcome(replies) is Some,
    ensures
        state.holds(shader) + times_created(state.exchanges(replies), shader) == times_deleted(
            state.exchanges(replies),
            shader,
        ),
    decreases replies.len(),
{
    let head = Exchange { command: state.command(), reply: replies.first() };
    lemma_build_step(state, replies.first(), shader);
    match state.resume(replies.first()) {
        Progress::Pending(next) => {
            lemma_build_balance(next, replies.drop_first(), shader);
            lemma_counts_of_log(head, next.exchanges(replies.drop_first()), shader);
        },
        Progress::Finished(_) => {
            lemma_counts_of_log(head, Seq::empty(), shader);
            assert(seq![head] + Seq::<Exchange>::empty() == seq![head]);
        },
    }
}

/// Each exchange of a build holds the reply that stands at its place among
/// those given.
pub proof fn lemma_build_log_replies(state: ProgramBuildView, replies: Seq<ReplyView>)
    ensures
        state.exchanges(replies).len() <= replies.len(),
        forall|i: int|
            0 <= i < state.exchanges(replies).len() ==> (#[trigger] state.exchanges(
                replies,
            )[i]).reply == replies[i],
    decreases replies.len(),
{
    if replies.len() > 0 {
        match state.resume(replies.first()) {
            Progress::Pending(next) => {
                lemma_build_log_replies(next, replies.drop_first());
                let rest = next.exchanges(replies.drop_first());
                assert forall|i: int| 0 <= i < state.exchanges(replies).len() implies (
                #[trigger] state.exchanges(replies)[i]).reply == replies[i] by {
                    if i > 0 {
                        assert(state.exchanges(replies)[i] == rest[i - 1]);
                        assert(replies.drop_first()[i - 1] == replies[i]);
                    }
                }
            },
            Progress::Finished(_) => {},
        }
    }
}

/// A build that has both shaders compiled ends with the handle of its
/// program, whatever the link status is.
pub proof fn lemma_linked_result(state: ProgramBuildView, program: u32, replies: Seq<ReplyView>)
    requires
        state.links(program),
        state.outcome(replies) is Some,
    ensures
        state.outcome(replies) == Some(program),
    decreases replies.len(),
{
    match state.resume(replies.first()) {
        Progress::Pending(next) => {
            lemma_linked_result(next, program, replies.drop_first());
        },
        Progress::Finished(_) => {},
    }
}

/// A build that has given up ends with 0.
pub proof fn lemma_failed_result(state: ProgramBuildView, replies: Seq<ReplyView>)
    requires
        state.has_failed(),
        state.outcome(replies) is Some,
    ensures
        state.outcome(replies) == Some(0u32),
    decreases replies.len(),
{
    match state.resume(replies.first()) {
        Progress::Pending(next) => {
            lemma_failed_result(next, replies.drop_first());
        },
        Progress::Finished(_) => {},
    }
}

/// While the vertex stage compiles, the build does what the compile does;
/// once the compile is over, with `used` replies taken in, the build goes on
/// to compile the fragment stage.
pub proof fn lemma_vertex_phase(
    program: u32,
    compile: StageCompileView,
    fragment_source: Seq<char>,
    replies: Seq<ReplyView>,
)
    requires
        compile.outcome(replies) is Some,
    ensures
        ({
            let build = ProgramBuildView::CompilingVertex { program, compile, fragment_source };
            let used = compile.exchanges(replies).len() as int;
            let next = ProgramBuildView::CompilingFragment {
                program,
                vertex: compile.outcome(replies)->0,
                compile: StageCompileView::start(Stage::Fragment, fragment_source),
            };
            &&& 1 <= used <= replies.len()
            &&& build.outcome(replies) == next.outcome(replies.skip(used))
            &&& build.exchanges(replies) == compile.exchanges(replies) + next.exchanges(
                replies.skip(used),
            )
        }),
    decreases replies.len(),
{
    let build = ProgramBuildView::CompilingVertex { program, compile, fragment_source };
    let head = Exchange { command: compile.command(), reply: replies.first() };
    let rest = replies.drop_first();
    match compile.resume(replies.first()) {
        Progress::Pending(inner) => {
            lemma_vertex_phase(program, inner, fragment_source, rest);
            let used = inner.exchanges(rest).len() as int;
            let next = ProgramBuildView::CompilingFragment {
                program,
                vertex: inner.outcome(rest)->0,
                compile: StageCompileView::start(Stage::Fragment, fragment_source),
            };
            assert(rest.skip(used) == replies.skip(used + 1));
            assert(build.exchanges(replies) =~= compile.exchanges(replies) + next.exchanges(
                replies.skip(used + 1),
            ));
        },
        Progress::Finished(vertex) => {
            let next = ProgramBuildView::CompilingFragment {
                program,
                vertex,
                compile: StageCompileView::start(Stage::Fragment, fragment_source),
            };
            assert(rest == replies.skip(1));
            assert(compile.exchanges(replies) == seq![head]);
        },
    }
}

/// While the fragment stage compiles, the build does what the compile does;
/// once the compile is over, with `used` replies taken in, the build goes on
/// to link or to give up.
pub proof fn lemma_fragment_phase(
    program: u32,
    vertex: u32,
    compile: StageCompileView,
    replies: Seq<ReplyView>,
)
    requires
        compile.outcome(replies) is Some,
    ensures
        ({
            let build = ProgramBuildView::CompilingFragment { program, vertex, compile };
            let used = compile.exchanges(replies).len() as int;
            let next = after_compiles(program, vertex, compile.outcome(replies)->0);
            &&& 1 <= used <= replies.len()
            &&& build.outcome(replies) == next.outcome(replies.skip(used))
            &&& build.exchanges(replies) == compile.exchanges(replies) + next.exchanges(
                replies.skip(used),
            )
        }),
    decreases replies.len(),
{
    let build = ProgramBuildView::CompilingFragment { program, vertex, compile };
    let head = Exchange { command: compile.command(), reply: replies.first() };
    let rest = replies.drop_first();
    match compile.resume(replies.first()) {
        Progress::Pending(inner) => {
            lemma_fragment_phase(program, vertex, inner, rest);
            let used = inner.exchanges(rest).len() as int;
            let next = after_compiles(program, vertex, inner.outcome(rest)->0);
            assert(rest.skip(used) == replies.skip(used + 1));
            assert(build.exchanges(replies) =~= compile.exchanges(replies) + next.exchanges(
                replies.skip(used + 1),
            ));
        },
        Progress::Finished(fragment) => {
            assert(rest == replies.skip(1));
            assert(compile.exchanges(replies) == seq![head]);
        },
    }
}

/// A build in which both compile flags are read as set ends with the handle
/// of its program, whatever the link status is, and by then has released both
/// shaders.
///
/// The reply at place 0 answers the allocation of the program, those at
/// places 1 and 5 the allocations of the two shaders, those at places 4 and
/// 8 the reads of their compile status.
pub proof fn lemma_build_links(
    vertex_source: Seq<char>,
    fragment_source: Seq<char>,
    replies: Seq<ReplyView>,
)
    requires
        replies.len() >= 9,
        replies[1].handle() != 0,
        replies[4].value() != 0,
        replies[5].handle() != 0,
        replies[8].value() != 0,
        ProgramBuildView::start(vertex_source, fragment_source).outcome(replies) is Some,
    ensures
        ({
            let build = ProgramBuildView::start(vertex_source, fragment_source);
            let log = build.exchanges(replies);
            let vertex = replies[1].handle();
            let fragment = replies[5].handle();
            &&& build.outcome(replies) == Some(replies[0].handle())
            &&& log.len() > 9
            &&& log[0].command == CommandView::CreateProgram
            &&& log[1].command == (CommandView::CreateShader { stage: Stage::Vertex })
            &&& log[4].command == (CommandView::GetCompileStatus { shader: vertex })
            &&& log[5].command == (CommandView::CreateShader { stage: Stage::Fragment })
            &&& log[8].command == (CommandView::GetCompileStatus { shader: fragment })
            &&& times_deleted(log, vertex) >= 1
            &&& times_deleted(log, fragment) >= 1
            &&& forall|shader: u32|
                shader != 0 ==> times_created(log, shader) == times_deleted(log, shader)
        }),
{
    let build = ProgramBuildView::start(vertex_source, fragment_source);
    let log = build.exchanges(replies);
    let program = replies[0].handle();
    let vertex = replies[1].handle();
    let fragment = replies[5].handle();
    let head = Exchange { command: CommandView::CreateProgram, reply: replies.first() };
    let r1 = replies.drop_first();
    let r5 = r1.skip(4);
    let r9 = r5.skip(4);
    let first = StageCompileView::start(Stage::Vertex, vertex_source);
    let second = StageCompileView::start(Stage::Fragment, fragment_source);
    let compiling = ProgramBuildView::CompilingVertex {
        program,
        compile: first,
        fragment_source,
    };
    let compiling_second = ProgramBuildView::CompilingFragment {
        program,
        vertex,
        compile: second,
    };
    let linking = ProgramBuildView::AttachingVertex { program, vertex, fragment };
    assert(r1[0] == replies[1] && r1[3] == replies[4]);
    assert(r5[0] == replies[5] && r5[3] == replies[8]);
    lemma_compile_succeeds(Stage::Vertex, vertex_source, r1);
    lemma_vertex_phase(program, first, fragment_source, r1);
    lemma_compile_succeeds(Stage::Fragment, fragment_source, r5);
    lemma_fragment_phase(program, vertex, second, r5);
    assert(build.outcome(replies) == compiling.outcome(r1));
    assert(compiling.outcome(r1) == compiling_second.outcome(r5));
    assert(compiling_second.outcome(r5) == linking.outcome(r9));
    lemma_linked_result(linking, program, r9);
    assert(linking.exchanges(r9).len() >= 1);
    assert(log == seq![head] + compiling.exchanges(r1));
    let first_log = first.exchanges(r1);
    let second_log = second.exchanges(r5);
    assert(log[1] == first_log[0] && log[4] == first_log[3]);
    assert(log[5] == second_log[0] && log[8] == second_log[3]);
    lemma_build_log_replies(build, replies);
    lemma_counted(log, 1, vertex);
    lemma_counted(log, 5, fragment);
    lemma_build_balance(build, replies, vertex);
    lemma_build_balance(build, replies, fragment);
    assert forall|shader: u32| shader != 0 implies times_created(log, shader) == times_deleted(
        log,
        shader,
    ) by {
        lemma_build_balance(build, replies, shader);
    }
}

/// A build in which the compile flag of the vertex stage is read as not set
/// and that of the fragment stage as set ends with 0, and by then has
/// released the fragment shader too.
///
/// The reply at place 1 answers the allocation of the vertex shader and that
/// at place 4 the read of its compile status; the replies at places 9 and 12
/// do so for the fragment shader.
pub proof fn lemma_build_fails_on_vertex(
    vertex_source: Seq<char>,
    fragment_source: Seq<char>,
    replies: Seq<ReplyView>,
)
    requires
        replies.len() >= 13,
        replies[4].value() == 0,
        replies[12].value() != 0,
        ProgramBuildView::start(vertex_source, fragment_source).outcome(replies) is Some,
    ensures
        ({
            let build = ProgramBuildView::start(vertex_source, fragment_source);
            let log = build.exchanges(replies);
            let vertex = replies[1].handle();
            let fragment = replies[9].handle();
            &&& build.outcome(replies) == Some(0u32)
            &&& log.len() > 13
            &&& log[1].command == (CommandView::CreateShader { stage: Stage::Vertex })
            &&& log[4].command == (CommandView::GetCompileStatus { shader: vertex })
            &&& log[9].command == (CommandView::CreateShader { stage: Stage::Fragment })
            &&& log[12].command == (CommandView::GetCompileStatus { shader: fragment })
            &&& fragment != 0 ==> times_deleted(log, fragment) >= 1
            &&& forall|shader: u32|
                shader != 0 ==> times_created(log, shader) == times_deleted(log, shader)
        }),
{
    let build = ProgramBuildView::start(vertex_source, fragment_source);
    let log = build.exchanges(replies);
    let program = replies[0].handle();
    let vertex = replies[1].handle();
    let fragment = replies[9].handle();
    let head = Exchange { command: CommandView::CreateProgram, reply: replies.first() };
    let r1 = replies.drop_first();
    let r9 = r1.skip(8);
    let r13 = r9.skip(4);
    let first = StageCompileView::start(Stage::Vertex, vertex_source);
    let second = StageCompileView::start(Stage::Fragment, fragment_source);
    let compiling = ProgramBuildView::CompilingVertex {
        program,
        compile: first,
        fragment_source,
    };
    let compiling_second = ProgramBuildView::CompilingFragment {
        program,
        vertex: 0,
        compile: second,
    };
    let failed = ProgramBuildView::ReportingFailure { survivor: fragment };
    assert(r1[0] == replies[1] && r1[3] == replies[4]);
    assert(r9[0] == replies[9] && r9[3] == replies[12]);
    lemma_compile_fails(Stage::Vertex, vertex_source, r1);
    lemma_vertex_phase(program, first, fragment_source, r1);
    lemma_compile_succeeds(Stage::Fragment, fragment_source, r9);
    lemma_fragment_phase(program, 0, second, r9);
    assert(build.outcome(replies) == compiling.outcome(r1));
    assert(compiling.outcome(r1) == compiling_second.outcome(r9));
    assert(compiling_second.outcome(r9) == failed.outcome(r13));
    lemma_failed_result(failed, r13);
    assert(failed.exchanges(r13).len() >= 1);
    assert(log == seq![head] + compiling.exchanges(r1));
    let first_log = first.exchanges(r1);
    let second_log = second.exchanges(r9);
    assert(log[1] == first_log[0] && log[4] == first_log[3]);
    assert(log[9] == second_log[0] && log[12] == second_log[3]);
    lemma_build_log_replies(build, replies);
    lemma_counted(log, 9, fragment);
    if fragment != 0 {
        lemma_build_balance(build, replies, fragment);
    }
    assert forall|shader: u32| shader != 0 implies times_created(log, shader) == times_deleted(
        log,
        shader,
    ) by {
        lemma_build_balance(build, replies, shader);
    }
}

} // verus!
