use shader_pipeline::command::{Command, Reply, Stage};
use shader_pipeline::compiler::StageCompile;
use shader_pipeline::linker::ProgramBuild;

fn text(value: &str) -> String {
    String::from(value)
}

/// The shaders that the replies hand out and the commands do not release.
fn left_over(commands: &[Command], replies: &[Reply]) -> Vec<u32> {
    let mut live: Vec<u32> = Vec::new();
    for (command, reply) in commands.iter().zip(replies.iter()) {
        match command {
            Command::CreateShader { .. } => {
                if reply.handle() != 0 {
                    live.push(reply.handle());
                }
            }
            Command::DeleteShader { shader } => {
                if *shader != 0 {
                    let at = live.iter().position(|held| held == shader);
                    assert!(at.is_some(), "released a shader that is not held");
                    live.remove(at.unwrap());
                }
            }
            _ => {}
        }
    }
    live
}

#[test]
fn replayed_compile_with_flag_set_ends_with_the_shader() {
    let replies = vec![Reply::Handle(4), Reply::Done, Reply::Done, Reply::Value(1)];
    let (commands, result) = StageCompile::start(Stage::Vertex, text("body")).replay(replies.clone());
    assert_eq!(result, Some(4));
    assert_eq!(
        commands,
        vec![
            Command::CreateShader { stage: Stage::Vertex },
            Command::ShaderSource { shader: 4, source: text("body") },
            Command::CompileShader { shader: 4 },
            Command::GetCompileStatus { shader: 4 },
        ]
    );
    assert_eq!(left_over(&commands, &replies), vec![4]);
}

#[test]
fn replayed_compile_with_flag_not_set_ends_with_zero_and_nothing_left() {
    let replies = vec![
        Reply::Handle(4),
        Reply::Done,
        Reply::Done,
        Reply::Value(0),
        Reply::Value(12),
        Reply::Text(text("0:1: syntax")),
        Reply::Done,
        Reply::Done,
    ];
    let (commands, result) = StageCompile::start(Stage::Fragment, text("body")).replay(replies.clone());
    assert_eq!(result, Some(0));
    assert_eq!(
        commands,
        vec![
            Command::CreateShader { stage: Stage::Fragment },
            Command::ShaderSource { shader: 4, source: text("body") },
            Command::CompileShader { shader: 4 },
            Command::GetCompileStatus { shader: 4 },
            Command::GetInfoLogLength { shader: 4 },
            Command::GetInfoLog { shader: 4, length: 12 },
            Command::Print { message: text("Failed to compile shader: 0:1: syntax") },
            Command::DeleteShader { shader: 4 },
        ]
    );
    assert!(left_over(&commands, &replies).is_empty());
}

#[test]
fn replay_stops_where_the_replies_end() {
    let replies = vec![Reply::Handle(4), Reply::Done];
    let (commands, result) = StageCompile::start(Stage::Vertex, text("body")).replay(replies);
    assert_eq!(result, None);
    assert_eq!(commands.len(), 2);
    let (none, open) = StageCompile::start(Stage::Vertex, text("body")).replay(Vec::new());
    assert_eq!(open, None);
    assert!(none.is_empty());
}

#[test]
fn replay_stops_where_the_compile_ends() {
    let replies = vec![
        Reply::Handle(4),
        Reply::Done,
        Reply::Done,
        Reply::Value(1),
        Reply::Handle(9),
        Reply::Done,
    ];
    let (commands, result) = StageCompile::start(Stage::Vertex, text("body")).replay(replies);
    assert_eq!(result, Some(4));
    assert_eq!(commands.len(), 4);
}

#[test]
fn replay_goes_on_from_any_state() {
    let (commands, result) = StageCompile::Reporting { shader: 3, message: text("m") }
        .replay(vec![Reply::Done, Reply::Done]);
    assert_eq!(result, Some(0));
    assert_eq!(
        commands,
        vec![Command::Print { message: text("m") }, Command::DeleteShader { shader: 3 }]
    );
}

fn linking_replies(link_status: i32) -> Vec<Reply> {
    let mut replies = vec![
        Reply::Handle(10),
        Reply::Handle(11),
        Reply::Done,
        Reply::Done,
        Reply::Value(1),
        Reply::Handle(12),
        Reply::Done,
        Reply::Done,
        Reply::Value(1),
        Reply::Done,
        Reply::Done,
        Reply::Done,
        Reply::Value(link_status),
    ];
    if link_status == 0 {
        replies.push(Reply::Done);
    }
    replies.extend(vec![Reply::Done, Reply::Done, Reply::Done]);
    replies
}

#[test]
fn replayed_build_with_both_flags_set_ends_with_the_program() {
    let replies = linking_replies(1);
    let (commands, result) = ProgramBuild::start(text("v"), text("f")).replay(replies.clone());
    assert_eq!(result, Some(10));
    assert_eq!(commands.len(), 16);
    assert_eq!(commands[0], Command::CreateProgram);
    assert_eq!(commands[4], Command::GetCompileStatus { shader: 11 });
    assert_eq!(commands[8], Command::GetCompileStatus { shader: 12 });
    assert_eq!(commands[14], Command::DeleteShader { shader: 11 });
    assert_eq!(commands[15], Command::DeleteShader { shader: 12 });
    assert!(left_over(&commands, &replies).is_empty());
}

#[test]
fn replayed_build_with_link_flag_not_set_ends_with_the_program() {
    let replies = linking_replies(0);
    let (commands, result) = ProgramBuild::start(text("v"), text("f")).replay(replies.clone());
    assert_eq!(result, Some(10));
    assert_eq!(commands.len(), 17);
    assert_eq!(commands[13], Command::Print { message: text("Program link failed!") });
    assert_eq!(commands[15], Command::DeleteShader { shader: 11 });
    assert_eq!(commands[16], Command::DeleteShader { shader: 12 });
    assert!(left_over(&commands, &replies).is_empty());
}

#[test]
fn replayed_build_with_vertex_flag_not_set_ends_with_zero() {
    let replies = vec![
        Reply::Handle(10),
        Reply::Handle(11),
        Reply::Done,
        Reply::Done,
        Reply::Value(0),
        Reply::Value(4),
        Reply::Text(text("bad")),
        Reply::Done,
        Reply::Done,
        Reply::Handle(12),
        Reply::Done,
        Reply::Done,
        Reply::Value(1),
        Reply::Done,
        Reply::Done,
    ];
    let (commands, result) = ProgramBuild::start(text("v"), text("f")).replay(replies.clone());
    assert_eq!(result, Some(0));
    assert_eq!(commands.len(), 15);
    assert_eq!(commands[4], Command::GetCompileStatus { shader: 11 });
    assert_eq!(commands[8], Command::DeleteShader { shader: 11 });
    assert_eq!(commands[12], Command::GetCompileStatus { shader: 12 });
    assert_eq!(commands[13], Command::Print { message: text("Shader compilation failed!") });
    assert_eq!(commands[14], Command::DeleteShader { shader: 12 });
    assert!(left_over(&commands, &replies).is_empty());
}

#[test]
fn replayed_build_leaves_no_shader_whatever_the_flags_are() {
    for vertex_status in [0, 1] {
        for fragment_status in [0, 1] {
            for link_status in [0, 1] {
                let mut replies = vec![Reply::Handle(10), Reply::Handle(11), Reply::Done, Reply::Done];
                replies.push(Reply::Value(vertex_status));
                if vertex_status == 0 {
                    replies.extend(vec![
                        Reply::Value(1),
                        Reply::Text(text("x")),
                        Reply::Done,
                        Reply::Done,
                    ]);
                }
                replies.extend(vec![Reply::Handle(12), Reply::Done, Reply::Done]);
                replies.push(Reply::Value(fragment_status));
                if fragment_status == 0 {
                    replies.extend(vec![
                        Reply::Value(1),
                        Reply::Text(text("x")),
                        Reply::Done,
                        Reply::Done,
                    ]);
                }
                replies.extend(vec![Reply::Done, Reply::Done, Reply::Done]);
                replies.push(Reply::Value(link_status));
                replies.extend(vec![Reply::Done, Reply::Done, Reply::Done, Reply::Done]);
                let (commands, result) =
                    ProgramBuild::start(text("v"), text("f")).replay(replies.clone());
                let expected = if vertex_status != 0 && fragment_status != 0 { 10 } else { 0 };
                assert_eq!(result, Some(expected));
                assert!(left_over(&commands, &replies).is_empty());
            }
        }
    }
}
