use shader_pipeline::command::{Command, Progress, Reply, Stage};
use shader_pipeline::compiler::StageCompile;
use shader_pipeline::linker::ProgramBuild;
use shader_pipeline::source::parse_shader_source;

/// A graphics context that lives in memory. A source compiles unless it
/// holds the word `error`; a program links unless `link_fails` is set.
struct Context {
    last_handle: u32,
    live_shaders: Vec<u32>,
    live_programs: Vec<u32>,
    sources: Vec<(u32, String)>,
    failed: Vec<u32>,
    attached: Vec<(u32, u32)>,
    link_fails: bool,
    printed: Vec<String>,
    commands: Vec<Command>,
}

impl Context {
    fn new() -> Context {
        Context {
            last_handle: 0,
            live_shaders: Vec::new(),
            live_programs: Vec::new(),
            sources: Vec::new(),
            failed: Vec::new(),
            attached: Vec::new(),
            link_fails: false,
            printed: Vec::new(),
            commands: Vec::new(),
        }
    }

    fn source_of(&self, shader: u32) -> String {
        match self.sources.iter().find(|entry| entry.0 == shader) {
            Some(entry) => entry.1.clone(),
            None => String::new(),
        }
    }

    fn perform(&mut self, command: Command) -> Reply {
        self.commands.push(command.clone());
        match command {
            Command::CreateProgram => {
                self.last_handle += 1;
                self.live_programs.push(self.last_handle);
                Reply::Handle(self.last_handle)
            }
            Command::CreateShader { .. } => {
                self.last_handle += 1;
                self.live_shaders.push(self.last_handle);
                Reply::Handle(self.last_handle)
            }
            Command::ShaderSource { shader, source } => {
                assert!(self.live_shaders.contains(&shader));
                self.sources.push((shader, source));
                Reply::Done
            }
            Command::CompileShader { shader } => {
                assert!(self.live_shaders.contains(&shader));
                if self.source_of(shader).contains("error") {
                    self.failed.push(shader);
                }
                Reply::Done
            }
            Command::GetCompileStatus { shader } => {
                assert!(self.live_shaders.contains(&shader));
                Reply::Value(if self.failed.contains(&shader) { 0 } else { 1 })
            }
            Command::GetInfoLogLength { shader } => {
                assert!(self.live_shaders.contains(&shader));
                Reply::Value(9)
            }
            Command::GetInfoLog { shader, length } => {
                assert!(self.live_shaders.contains(&shader));
                assert_eq!(length, 9);
                Reply::Text(String::from("bad input"))
            }
            Command::DeleteShader { shader } => {
                assert!(self.live_shaders.contains(&shader), "released twice or never allocated");
                self.live_shaders.retain(|live| *live != shader);
                Reply::Done
            }
            Command::AttachShader { program, shader } => {
                assert!(self.live_programs.contains(&program));
                assert!(self.live_shaders.contains(&shader));
                self.attached.push((program, shader));
                Reply::Done
            }
            Command::LinkProgram { program } => {
                assert!(self.live_programs.contains(&program));
                Reply::Done
            }
            Command::GetLinkStatus { program } => {
                assert!(self.live_programs.contains(&program));
                Reply::Value(if self.link_fails { 0 } else { 1 })
            }
            Command::ValidateProgram { program } => {
                assert!(self.live_programs.contains(&program));
                Reply::Done
            }
            Command::Print { message } => {
                self.printed.push(message);
                Reply::Done
            }
        }
    }

    fn compile(&mut self, stage: Stage, source: &str) -> u32 {
        let mut compile = StageCompile::start(stage, String::from(source));
        loop {
            let reply = self.perform(compile.command());
            match compile.resume(reply) {
                Progress::Pending(next) => compile = next,
                Progress::Finished(handle) => return handle,
            }
        }
    }

    fn build(&mut self, vertex_source: &str, fragment_source: &str) -> u32 {
        let mut build = ProgramBuild::start(String::from(vertex_source), String::from(fragment_source));
        loop {
            let reply = self.perform(build.command());
            match build.resume(reply) {
                Progress::Pending(next) => build = next,
                Progress::Finished(handle) => return handle,
            }
        }
    }
}

fn print(message: &str) -> Command {
    Command::Print { message: String::from(message) }
}

#[test]
fn compile_of_valid_source_gives_the_shader() {
    let mut context = Context::new();
    let shader = context.compile(Stage::Vertex, "void main() {}\n");
    assert_eq!(shader, 1);
    assert_eq!(context.live_shaders, vec![1]);
    assert!(context.printed.is_empty());
    assert_eq!(
        context.commands,
        vec![
            Command::CreateShader { stage: Stage::Vertex },
            Command::ShaderSource { shader: 1, source: String::from("void main() {}\n") },
            Command::CompileShader { shader: 1 },
            Command::GetCompileStatus { shader: 1 },
        ]
    );
}

#[test]
fn compile_of_invalid_source_gives_zero_and_releases_the_shader() {
    let mut context = Context::new();
    let shader = context.compile(Stage::Fragment, "error\n");
    assert_eq!(shader, 0);
    assert!(context.live_shaders.is_empty());
    assert_eq!(context.printed, vec!["Failed to compile shader: bad input"]);
    assert_eq!(
        context.commands,
        vec![
            Command::CreateShader { stage: Stage::Fragment },
            Command::ShaderSource { shader: 1, source: String::from("error\n") },
            Command::CompileShader { shader: 1 },
            Command::GetCompileStatus { shader: 1 },
            Command::GetInfoLogLength { shader: 1 },
            Command::GetInfoLog { shader: 1, length: 9 },
            print("Failed to compile shader: bad input"),
            Command::DeleteShader { shader: 1 },
        ]
    );
}

#[test]
fn compile_of_empty_source_is_passed_through() {
    let mut context = Context::new();
    let shader = context.compile(Stage::Vertex, "");
    assert_eq!(shader, 1);
    assert_eq!(context.sources, vec![(1, String::new())]);
}

#[test]
fn build_of_valid_sources_gives_the_program() {
    let mut context = Context::new();
    let program = context.build("vertex body\n", "fragment body\n");
    assert_eq!(program, 1);
    assert_ne!(program, 0);
    assert!(context.live_shaders.is_empty());
    assert_eq!(context.live_programs, vec![1]);
    assert_eq!(context.attached, vec![(1, 2), (1, 3)]);
    assert!(context.printed.is_empty());
    assert_eq!(
        context.commands,
        vec![
            Command::CreateProgram,
            Command::CreateShader { stage: Stage::Vertex },
            Command::ShaderSource { shader: 2, source: String::from("vertex body\n") },
            Command::CompileShader { shader: 2 },
            Command::GetCompileStatus { shader: 2 },
            Command::CreateShader { stage: Stage::Fragment },
            Command::ShaderSource { shader: 3, source: String::from("fragment body\n") },
            Command::CompileShader { shader: 3 },
            Command::GetCompileStatus { shader: 3 },
            Command::AttachShader { program: 1, shader: 2 },
            Command::AttachShader { program: 1, shader: 3 },
            Command::LinkProgram { program: 1 },
            Command::GetLinkStatus { program: 1 },
            Command::ValidateProgram { program: 1 },
            Command::DeleteShader { shader: 2 },
            Command::DeleteShader { shader: 3 },
        ]
    );
}

#[test]
fn failed_link_is_reported_and_still_gives_the_program() {
    let mut context = Context::new();
    context.link_fails = true;
    let program = context.build("vertex body\n", "fragment body\n");
    assert_eq!(program, 1);
    assert!(context.live_shaders.is_empty());
    assert_eq!(context.printed, vec!["Program link failed!"]);
    assert_eq!(
        context.commands[12..],
        [
            Command::GetLinkStatus { program: 1 },
            print("Program link failed!"),
            Command::ValidateProgram { program: 1 },
            Command::DeleteShader { shader: 2 },
            Command::DeleteShader { shader: 3 },
        ]
    );
}

#[test]
fn invalid_vertex_stage_fails_the_build_and_releases_the_fragment_shader() {
    let mut context = Context::new();
    let program = context.build("error\n", "fragment body\n");
    assert_eq!(program, 0);
    assert!(context.live_shaders.is_empty());
    assert!(context.attached.is_empty());
    assert_eq!(
        context.printed,
        vec!["Failed to compile shader: bad input", "Shader compilation failed!"]
    );
    assert_eq!(
        context.commands,
        vec![
            Command::CreateProgram,
            Command::CreateShader { stage: Stage::Vertex },
            Command::ShaderSource { shader: 2, source: String::from("error\n") },
            Command::CompileShader { shader: 2 },
            Command::GetCompileStatus { shader: 2 },
            Command::GetInfoLogLength { shader: 2 },
            Command::GetInfoLog { shader: 2, length: 9 },
            print("Failed to compile shader: bad input"),
            Command::DeleteShader { shader: 2 },
            Command::CreateShader { stage: Stage::Fragment },
            Command::ShaderSource { shader: 3, source: String::from("fragment body\n") },
            Command::CompileShader { shader: 3 },
            Command::GetCompileStatus { shader: 3 },
            print("Shader compilation failed!"),
            Command::DeleteShader { shader: 3 },
        ]
    );
}

#[test]
fn invalid_fragment_stage_fails_the_build_and_releases_the_vertex_shader() {
    let mut context = Context::new();
    let program = context.build("vertex body\n", "error\n");
    assert_eq!(program, 0);
    assert!(context.live_shaders.is_empty());
    assert!(context.attached.is_empty());
    assert_eq!(
        context.printed,
        vec!["Failed to compile shader: bad input", "Shader compilation failed!"]
    );
    assert_eq!(
        context.commands[13..],
        [print("Shader compilation failed!"), Command::DeleteShader { shader: 2 }]
    );
}

#[test]
fn two_invalid_stages_fail_the_build() {
    let mut context = Context::new();
    let program = context.build("error\n", "error too\n");
    assert_eq!(program, 0);
    assert!(context.live_shaders.is_empty());
    assert_eq!(
        context.printed,
        vec![
            "Failed to compile shader: bad input",
            "Failed to compile shader: bad input",
            "Shader compilation failed!"
        ]
    );
    assert_eq!(context.commands.last(), Some(&print("Shader compilation failed!")));
}

#[test]
fn pipeline_run_twice_gives_two_programs() {
    let text = "#shader vertex\nvertex body\n#shader fragment\nfragment body\n";
    let mut context = Context::new();
    let first_sources = parse_shader_source(text);
    let first = context.build(&first_sources.vertex_source, &first_sources.fragment_source);
    let first_commands = context.commands.len();
    let second_sources = parse_shader_source(text);
    let second = context.build(&second_sources.vertex_source, &second_sources.fragment_source);
    assert_ne!(first, 0);
    assert_ne!(second, 0);
    assert_ne!(first, second);
    assert_eq!(first_sources.vertex_source, second_sources.vertex_source);
    assert_eq!(first_sources.fragment_source, second_sources.fragment_source);
    assert_eq!(context.commands.len(), 2 * first_commands);
    assert!(context.live_shaders.is_empty());
    assert_eq!(context.live_programs, vec![first, second]);
}

#[test]
fn builds_do_not_share_state() {
    let mut one = ProgramBuild::start(String::from("a"), String::from("b"));
    let mut two = ProgramBuild::start(String::from("a"), String::from("b"));
    one = match one.resume(Reply::Handle(7)) {
        Progress::Pending(next) => next,
        Progress::Finished(_) => unreachable!(),
    };
    assert_eq!(two.command(), Command::CreateProgram);
    two = match two.resume(Reply::Handle(9)) {
        Progress::Pending(next) => next,
        Progress::Finished(_) => unreachable!(),
    };
    assert_eq!(one.command(), Command::CreateShader { stage: Stage::Vertex });
    assert_eq!(two.command(), Command::CreateShader { stage: Stage::Vertex });
}

#[test]
fn parsed_bodies_reach_the_context_unchanged() {
    let sources = parse_shader_source("#shader vertex\nA\n#shader fragment\nB\n");
    let mut context = Context::new();
    context.build(&sources.vertex_source, &sources.fragment_source);
    assert_eq!(context.sources, vec![(2, String::from("A\n")), (3, String::from("B\n"))]);
}

#[test]
fn reply_of_another_kind_counts_as_nothing() {
    assert_eq!(Reply::Handle(5).handle(), 5);
    assert_eq!(Reply::Done.handle(), 0);
    assert_eq!(Reply::Value(5).handle(), 0);
    assert_eq!(Reply::Text(String::from("5")).handle(), 0);
    assert_eq!(Reply::Value(-3).value(), -3);
    assert_eq!(Reply::Done.value(), 0);
    assert_eq!(Reply::Handle(3).value(), 0);
    assert_eq!(Reply::Text(String::from("log")).text(), "log");
    assert_eq!(Reply::Done.text(), "");
    assert_eq!(Reply::Value(1).text(), "");
}

#[test]
fn status_reply_of_another_kind_is_read_as_not_set() {
    let mut compile = StageCompile::start(Stage::Vertex, String::from("x"));
    let replies = [Reply::Handle(4), Reply::Done, Reply::Done, Reply::Handle(1)];
    for reply in replies {
        compile = match compile.resume(reply) {
            Progress::Pending(next) => next,
            Progress::Finished(_) => unreachable!(),
        };
    }
    assert_eq!(compile.command(), Command::GetInfoLogLength { shader: 4 });
}

#[test]
fn any_nonzero_status_counts_as_set() {
    let mut compile = StageCompile::start(Stage::Vertex, String::from("x"));
    for reply in [Reply::Handle(4), Reply::Done, Reply::Done] {
        compile = match compile.resume(reply) {
            Progress::Pending(next) => next,
            Progress::Finished(_) => unreachable!(),
        };
    }
    assert!(matches!(compile.resume(Reply::Value(-1)), Progress::Finished(4)));
}

#[test]
fn shader_handle_zero_fails_the_build() {
    let mut build = ProgramBuild::start(String::from("a"), String::from("b"));
    let replies = [
        Reply::Handle(1),
        Reply::Handle(0),
        Reply::Done,
        Reply::Done,
        Reply::Value(1),
        Reply::Handle(6),
        Reply::Done,
        Reply::Done,
        Reply::Value(1),
    ];
    for reply in replies {
        build = match build.resume(reply) {
            Progress::Pending(next) => next,
            Progress::Finished(_) => unreachable!(),
        };
    }
    assert_eq!(build.command(), print("Shader compilation failed!"));
    build = match build.resume(Reply::Done) {
        Progress::Pending(next) => next,
        Progress::Finished(_) => unreachable!(),
    };
    assert_eq!(build.command(), Command::DeleteShader { shader: 6 });
    assert!(matches!(build.resume(Reply::Done), Progress::Finished(0)));
}

#[test]
fn failure_with_no_shader_left_ends_after_the_report() {
    let build = ProgramBuild::ReportingFailure { survivor: 0 };
    assert_eq!(build.command(), print("Shader compilation failed!"));
    assert!(matches!(build.resume(Reply::Done), Progress::Finished(0)));
}

#[test]
fn empty_diagnostic_log_is_reported() {
    let compile = StageCompile::Reading { shader: 3, length: 0 };
    assert_eq!(compile.command(), Command::GetInfoLog { shader: 3, length: 0 });
    let next = match compile.resume(Reply::Text(String::new())) {
        Progress::Pending(next) => next,
        Progress::Finished(_) => unreachable!(),
    };
    assert_eq!(next.command(), print("Failed to compile shader: "));
}
