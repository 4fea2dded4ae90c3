//! Compiling one stage.
//!
//! A compile allocates a shader object, hands it the source, compiles it and
//! reads the compile status. Where the flag is set the shader's handle is the
//! result. Where it is not, the diagnostic log is read and printed, the shader
//! is released, and the result is 0.
//!
//! `StageCompile` is the state of such a compile between two commands. Each
//! state has one command pending; `resume` takes the reply to it.

use crate::command::{
    command_views, reply_views, Command, CommandView, Progress, Reply, ReplyView, Stage,
};
use crate::ledger::{
    commands_of, creates, deletes, lemma_counts_of_log, times_created, times_deleted, Exchange,
};
use vstd::prelude::*;
use vstd::string::StringExecFns;

verus! {

/// A compile that waits for the reply to its pending command.
#[derive(Debug)]
pub enum StageCompile {
    /// Waiting for the handle of the new shader.
    Creating { stage: Stage, source: String },
    /// Waiting for the source to be handed to the shader.
    Submitting { shader: u32, source: String },
    /// Waiting for the compilation to be over.
    Compiling { shader: u32 },
    /// Waiting for the compile status.
    Checking { shader: u32 },
    /// Waiting for the length of the diagnostic log.
    Measuring { shader: u32 },
    /// Waiting for the diagnostic log.
    Reading { shader: u32, length: i32 },
    /// Waiting for the diagnostic to be printed.
    Reporting { shader: u32, message: String },
    /// Waiting for the shader to be released.
    Releasing { shader: u32 },
}

/// The view of `StageCompile`: the state that contracts speak of.
pub ghost enum StageCompileView {
    Creating { stage: Stage, source: Seq<char> },
    Submitting { shader: u32, source: Seq<char> },
    Compiling { shader: u32 },
    Checking { shader: u32 },
    Measuring { shader: u32 },
    Reading { shader: u32, length: i32 },
    Reporting { shader: u32, message: Seq<char> },
    Releasing { shader: u32 },
}

impl View for StageCompile {
    type V = StageCompileView;

    open spec fn view(&self) -> StageCompileView {
        match *self {
            StageCompile::Creating { stage, source } => StageCompileView::Creating {
                stage,
                source: source@,
            },
            StageCompile::Submitting { shader, source } => StageCompileView::Submitting {
                shader,
                source: source@,
            },
            StageCompile::Compiling { shader } => StageCompileView::Compiling { shader },
            StageCompile::Checking { shader } => StageCompileView::Checking { shader },
            StageCompile::Measuring { shader } => StageCompileView::Measuring { shader },
            StageCompile::Reading { shader, length } => StageCompileView::Reading {
                shader,
                length,
            },
            StageCompile::Reporting { shader, message } => StageCompileView::Reporting {
                shader,
                message: message@,
            },
            StageCompile::Releasing { shader } => StageCompileView::Releasing { shader },
        }
    }
}

/// The line that reports a failed compile: a fixed head and the diagnostic
/// log.
pub open spec fn compile_failure_message(log: Seq<char>) -> Seq<char> {
    "Failed to compile shader: "@ + log
}

impl StageCompileView {
    /// The state in which a compile of `source` for `stage` begins.
    pub open spec fn start(stage: Stage, source: Seq<char>) -> StageCompileView {
        StageCompileView::Creating { stage, source }
    }

    /// The command that is pending in this state.
    pub open spec fn command(self) -> CommandView {
        match self {
            StageCompileView::Creating { stage, source } => CommandView::CreateShader { stage },
            StageCompileView::Submitting { shader, source } => CommandView::ShaderSource {
                shader,
                source,
            },
            StageCompileView::Compiling { shader } => CommandView::CompileShader { shader },
            StageCompileView::Checking { shader } => CommandView::GetCompileStatus { shader },
            StageCompileView::Measuring { shader } => CommandView::GetInfoLogLength { shader },
            StageCompileView::Reading { shader, length } => CommandView::GetInfoLog {
                shader,
                length,
            },
            StageCompileView::Reporting { shader, message } => CommandView::Print { message },
            StageCompileView::Releasing { shader } => CommandView::DeleteShader { shader },
        }
    }

    /// Where the compile stands once `reply` has answered the pending
    /// command.
    pub open spec fn resume(self, reply: ReplyView) -> Progress<StageCompileView> {
        match self {
            StageCompileView::Creating { stage, source } => Progress::Pending(
                StageCompileView::Submitting { shader: reply.handle(), source },
            ),
            StageCompileView::Submitting { shader, source } => Progress::Pending(
                StageCompileView::Compiling { shader },
            ),
            StageCompileView::Compiling { shader } => Progress::Pending(
                StageCompileView::Checking { shader },
            ),
            StageCompileView::Checking { shader } => if reply.value() == 0 {
                Progress::Pending(StageCompileView::Measuring { shader })
            } else {
                Progress::Finished(shader)
            },
            StageCompileView::Measuring { shader } => Progress::Pending(
                StageCompileView::Reading { shader, length: reply.value() },
            ),
            StageCompileView::Reading { shader, length } => Progress::Pending(
                StageCompileView::Reporting {
                    shader,
                    message: compile_failure_message(reply.text()),
                },
            ),
            StageCompileView::Reporting { shader, message } => Progress::Pending(
                StageCompileView::Releasing { shader },
            ),
            StageCompileView::Releasing { shader } => Progress::Finished(0),
        }
    }
}

/// `progress` is `model`, state by view.
pub open spec fn compile_progress_is(
    progress: Progress<StageCompile>,
    model: Progress<StageCompileView>,
) -> bool {
    match progress {
        Progress::Pending(next) => model == Progress::Pending(next@),
        Progress::Finished(handle) => model == Progress::<StageCompileView>::Finished(handle),
    }
}

impl StageCompile {
    /// Begins a compile of `source` for `stage`.
    pub fn start(stage: Stage, source: String) -> (compile: StageCompile)
        ensures
            compile@ == StageCompileView::start(stage, source@),
    {
        StageCompile::Creating { stage, source }
    }

    /// The command to carry out next.
    pub fn command(&self) -> (command: Command)
        ensures
            command@ == self@.command(),
    {
        match self {
            StageCompile::Creating { stage, source } => Command::CreateShader { stage: *stage },
            StageCompile::Submitting { shader, source } => Command::ShaderSource {
                shader: *shader,
                source: source.clone(),
            },
            StageCompile::Compiling { shader } => Command::CompileShader { shader: *shader },
            StageCompile::Checking { shader } => Command::GetCompileStatus { shader: *shader },
            StageCompile::Measuring { shader } => Command::GetInfoLogLength { shader: *shader },
            StageCompile::Reading { shader, length } => Command::GetInfoLog {
                shader: *shader,
                length: *length,
            },
            StageCompile::Reporting { shader, message } => Command::Print {
                message: message.clone(),
            },
            StageCompile::Releasing { shader } => Command::DeleteShader { shader: *shader },
        }
    }

    /// Takes in the reply to the pending command.
    pub fn resume(self, reply: Reply) -> (progress: Progress<StageCompile>)
        ensures
            compile_progress_is(progress, self@.resume(reply@)),
    {
        match self {
            StageCompile::Creating { stage, source } => Progress::Pending(
                StageCompile::Submitting { shader: reply.handle(), source },
            ),
            StageCompile::Submitting { shader, source } => Progress::Pending(
                StageCompile::Compiling { shader },
            ),
            StageCompile::Compiling { shader } => Progress::Pending(
                StageCompile::Checking { shader },
            ),
            StageCompile::Checking { shader } => {
                if reply.value() == 0 {
                    Progress::Pending(StageCompile::Measuring { shader })
                } else {
                    Progress::Finished(shader)
                }
            },
            StageCompile::Measuring { shader } => Progress::Pending(
                StageCompile::Reading { shader, length: reply.value() },
            ),
            StageCompile::Reading { shader, length } => {
                let log = reply.text();
                let mut message = String::from_str("Failed to compile shader: ");
                message.append(log.as_str());
                Progress::Pending(StageCompile::Reporting { shader, message })
            },
            StageCompile::Reporting { shader, message } => Progress::Pending(
                StageCompile::Releasing { shader },
            ),
            StageCompile::Releasing { shader } => Progress::Finished(0),
        }
    }
}

impl StageCompileView {
    /// The record of the compile that goes on from this state and takes
    /// `replies` in, one after the other, until it is over or they are used
    /// up.
    pub open spec fn exchanges(self, replies: Seq<ReplyView>) -> Seq<Exchange>
        decreases replies.len(),
    {
        if replies.len() == 0 {
            Seq::empty()
        } else {
            let head = Exchange { command: self.command(), reply: replies.first() };
            match self.resume(replies.first()) {
                Progress::Pending(next) => seq![head] + next.exchanges(replies.drop_first()),
                Progress::Finished(_) => seq![head],
            }
        }
    }

    /// The result of the compile that goes on from this state and takes
    /// `replies` in: `None` where they are used up before it is over.
    pub open spec fn outcome(self, replies: Seq<ReplyView>) -> Option<u32>
        decreases replies.len(),
    {
        if replies.len() == 0 {
            None
        } else {
            match self.resume(replies.first()) {
                Progress::Pending(next) => next.outcome(replies.drop_first()),
                Progress::Finished(handle) => Some(handle),
            }
        }
    }

    /// 1 where the compile in this state has `shader` to release or to hand
    /// over, else 0.
    pub open spec fn holds(self, shader: u32) -> int {
        match self {
            StageCompileView::Creating { .. } => 0,
            StageCompileView::Submitting { shader: held, .. }
            | StageCompileView::Compiling { shader: held }
            | StageCompileView::Checking { shader: held }
            | StageCompileView::Measuring { shader: held }
            | StageCompileView::Reading { shader: held, .. }
            | StageCompileView::Reporting { shader: held, .. }
            | StageCompileView::Releasing { shader: held } => if held == shader {
                1int
            } else {
                0int
            },
        }
    }
}

impl StageCompile {
    /// Goes on from this state on recorded replies, taken in one after the
    /// other until the compile is over or they are used up. Gives the
    /// commands that the replies answered and the result of the compile,
    /// `None` where it is not over.
    pub fn replay(self, replies: Vec<Reply>) -> (run: (Vec<Command>, Option<u32>))
        ensures
            command_views(run.0@) == commands_of(self@.exchanges(reply_views(replies@))),
            run.1 == self@.outcome(reply_views(replies@)),
    {
        let ghost begin = self@;
        let ghost all = reply_views(replies@);
        let mut state = self;
        let mut commands: Vec<Command> = Vec::new();
        proof {
            assert(all.skip(0) == all);
            assert(command_views(commands@) + commands_of(begin.exchanges(all)) == commands_of(
                begin.exchanges(all),
            ));
        }
        for reply in it: replies
            invariant
                begin == self@,
                all == reply_views(replies@),
                all == reply_views(it.seq()),
                commands_of(begin.exchanges(all)) == command_views(commands@) + commands_of(
                    state@.exchanges(all.skip(it.index())),
                ),
                begin.outcome(all) == state@.outcome(all.skip(it.index())),
        {
            let ghost rest = all.skip(it.index());
            let ghost issued = command_views(commands@);
            let ghost head = Exchange { command: state@.command(), reply: reply@ };
            proof {
                assert(rest.first() == reply@);
                assert(rest.drop_first() == all.skip(it.index() + 1));
            }
            let command = state.command();
            proof {
                assert(command_views(commands@.push(command)) == issued.push(command@));
            }
            commands.push(command);
            match state.resume(reply) {
                Progress::Pending(next) => {
                    proof {
                        let tail = next@.exchanges(rest.drop_first());
                        assert(commands_of(seq![head] + tail) == seq![head.command] + commands_of(
                            tail,
                        ));
                        assert(issued + (seq![head.command] + commands_of(tail)) == issued.push(
                            head.command,
                        ) + commands_of(tail));
                    }
                    state = next;
                },
                Progress::Finished(handle) => {
                    proof {
                        assert(commands_of(seq![head]) == seq![head.command]);
                        assert(issued + seq![head.command] == issued.push(head.command));
                    }
                    return (commands, Some(handle));
                },
            }
        }
        proof {
            assert(all.skip(all.len() as int).len() == 0);
            assert(command_views(commands@) + Seq::<CommandView>::empty() == command_views(
                commands@,
            ));
        }
        (commands, None)
    }
}

/// 1 where a compile that is over has handed `shader` to its caller, else 0.
pub open spec fn hands_over(progress: Progress<StageCompileView>, shader: u32) -> int {
    match progress {
        Progress::Pending(next) => next.holds(shader),
        Progress::Finished(handle) => if handle == shader {
            1
        } else {
            0
        },
    }
}

/// One step of a compile keeps the count: what it held and was handed out
/// is what it released and holds or hands over.
pub proof fn lemma_compile_step(state: StageCompileView, reply: ReplyView, shader: u32)
    requires
        shader != 0,
    ensures
        ({
            let exchange = Exchange { command: state.command(), reply };
            state.holds(shader) + creates(exchange, shader) == deletes(exchange, shader)
                + hands_over(state.resume(reply), shader)
        }),
{
}

/// A compile that is over has released every shader object that it was
/// handed out or held, but for the one that is its result.
pub proof fn lemma_compile_balance(state: StageCompileView, replies: Seq<ReplyView>, shader: u32)
    requires
        shader != 0,
        state.outcome(replies) is Some,
    ensures
        state.holds(shader) + times_created(state.exchanges(replies), shader) == times_deleted(
            state.exchanges(replies),
            shader,
        ) + (if state.outcome(replies) == Some(shader) {
            1int
        } else {
            0int
        }),
    decreases replies.len(),
{
    let head = Exchange { command: state.command(), reply: replies.first() };
    lemma_compile_step(state, replies.first(), shader);
    match state.resume(replies.first()) {
        Progress::Pending(next) => {
            lemma_compile_balance(next, replies.drop_first(), shader);
            lemma_counts_of_log(head, next.exchanges(replies.drop_first()), shader);
        },
        Progress::Finished(_) => {
            lemma_counts_of_log(head, Seq::empty(), shader);
            assert(seq![head] + Seq::<Exchange>::empty() == seq![head]);
        },
    }
}

/// A compile whose status flag is read as set ends, with the reply to its
/// fourth command, with the handle of its shader, and has released nothing.
pub proof fn lemma_compile_succeeds(stage: Stage, source: Seq<char>, replies: Seq<ReplyView>)
    requires
        replies.len() >= 4,
        replies[3].value() != 0,
    ensures
        ({
            let compile = StageCompileView::start(stage, source);
            let log = compile.exchanges(replies);
            &&& compile.outcome(replies) == Some(replies[0].handle())
            &&& log.len() == 4
            &&& log[0].command == (CommandView::CreateShader { stage })
            &&& log[3].command == (CommandView::GetCompileStatus { shader: replies[0].handle() })
            &&& forall|shader: u32| times_deleted(log, shader) == 0
        }),
{
    let compile = StageCompileView::start(stage, source);
    let shader = replies[0].handle();
    let r1 = replies.drop_first();
    let r2 = r1.drop_first();
    let r3 = r2.drop_first();
    let s1 = StageCompileView::Submitting { shader, source };
    let s2 = StageCompileView::Compiling { shader };
    let s3 = StageCompileView::Checking { shader };
    assert(r3.first() == replies[3]);
    assert(s3.outcome(r3) == Some(shader));
    assert(s2.outcome(r2) == Some(shader));
    assert(s1.outcome(r1) == Some(shader));
    let log3 = s3.exchanges(r3);
    let log2 = s2.exchanges(r2);
    let log1 = s1.exchanges(r1);
    let log = compile.exchanges(replies);
    assert(log3.len() == 1);
    assert(log2.len() == 2 && log2[1] == log3[0]);
    assert(log1.len() == 3 && log1[2] == log2[1]);
    assert(log.len() == 4 && log[3] == log1[2]);
    assert forall|shader: u32| times_deleted(log, shader) == 0 by {
        lemma_counts_of_log(log3[0], Seq::empty(), shader);
        assert(seq![log3[0]] + Seq::<Exchange>::empty() == log3);
        lemma_counts_of_log(log2[0], log3, shader);
        lemma_counts_of_log(log1[0], log2, shader);
        lemma_counts_of_log(log[0], log1, shader);
    }
}

/// A compile whose status flag is read as not set ends with 0, and by then
/// has released every shader object that it was handed out.
pub proof fn lemma_compile_fails(stage: Stage, source: Seq<char>, replies: Seq<ReplyView>)
    requires
        replies.len() >= 8,
        replies[3].value() == 0,
    ensures
        ({
            let compile = StageCompileView::start(stage, source);
            let log = compile.exchanges(replies);
            &&& compile.outcome(replies) == Some(0u32)
            &&& log.len() == 8
            &&& log[3].command == (CommandView::GetCompileStatus { shader: replies[0].handle() })
            &&& log[6].command == (CommandView::Print {
                message: compile_failure_message(replies[5].text()),
            })
            &&& log[7].command == (CommandView::DeleteShader { shader: replies[0].handle() })
            &&& forall|shader: u32|
                shader != 0 ==> times_created(log, shader) == times_deleted(log, shader)
        }),
{
    let compile = StageCompileView::start(stage, source);
    let shader = replies[0].handle();
    let r1 = replies.drop_first();
    let r2 = r1.drop_first();
    let r3 = r2.drop_first();
    let r4 = r3.drop_first();
    let r5 = r4.drop_first();
    let r6 = r5.drop_first();
    let r7 = r6.drop_first();
    let s1 = StageCompileView::Submitting { shader, source };
    let s2 = StageCompileView::Compiling { shader };
    let s3 = StageCompileView::Checking { shader };
    let s4 = StageCompileView::Measuring { shader };
    assert(r3.first() == replies[3]);
    assert(compile.outcome(replies) == s1.outcome(r1));
    assert(s1.outcome(r1) == s2.outcome(r2));
    assert(s2.outcome(r2) == s3.outcome(r3));
    assert(s3.outcome(r3) == s4.outcome(r4));
    assert(r4.len() > 0);
    let s5 = StageCompileView::Reading { shader, length: r4.first().value() };
    assert(s4.outcome(r4) == s5.outcome(r5));
    assert(r5.len() > 0);
    assert(r5.first() == replies[5]);
    let s6 = StageCompileView::Reporting {
        shader,
        message: compile_failure_message(r5.first().text()),
    };
    assert(s5.outcome(r5) == s6.outcome(r6));
    assert(r6.len() > 0);
    let s7 = StageCompileView::Releasing { shader };
    assert(s6.outcome(r6) == s7.outcome(r7));
    assert(r7.len() > 0);
    assert(s7.outcome(r7) == Some(0u32));
    let log7 = s7.exchanges(r7);
    let log6 = s6.exchanges(r6);
    let log5 = s5.exchanges(r5);
    let log4 = s4.exchanges(r4);
    let log3 = s3.exchanges(r3);
    let log2 = s2.exchanges(r2);
    let log1 = s1.exchanges(r1);
    let log = compile.exchanges(replies);
    assert(log7.len() == 1);
    assert(log6.len() == 2 && log6[1] == log7[0]);
    assert(log5.len() == 3 && log5[1] == log6[0] && log5[2] == log6[1]);
    assert(log4.len() == 4 && log4[2] == log5[1] && log4[3] == log5[2]);
    assert(log3.len() == 5 && log3[3] == log4[2] && log3[4] == log4[3]);
    assert(log2.len() == 6 && log2[1] == log3[0] && log2[4] == log3[3] && log2[5] == log3[4]);
    assert(log1.len() == 7 && log1[2] == log2[1] && log1[5] == log2[4] && log1[6] == log2[5]);
    assert(log.len() == 8 && log[3] == log1[2] && log[6] == log1[5] && log[7] == log1[6]);
    assert forall|shader: u32| shader != 0 implies times_created(log, shader) == times_deleted(
        log,
        shader,
    ) by {
        lemma_compile_balance(compile, replies, shader);
    }
}

} // verus!
