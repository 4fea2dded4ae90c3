//! The commands that a build hands to the graphics context, and the replies
//! that it takes back.
//!
//! The library never talks to the graphics context itself. It says which call
//! is to be made next; the caller makes it and reports what came back.

use vstd::prelude::*;

verus! {

/// A programmable stage of a shader program.
#[derive(Clone, Copy, PartialEq, Eq, Structural, Debug)]
pub enum Stage {
    Vertex,
    Fragment,
}

/// One call into the graphics context, or one line for the console.
#[derive(Clone, PartialEq, Eq, Debug)]
pub enum Command {
    /// Allocate a program object. Answered by its handle.
    CreateProgram,
    /// Allocate a shader object for `stage`. Answered by its handle.
    CreateShader { stage: Stage },
    /// Make `source` the text of `shader`.
    ShaderSource { shader: u32, source: String },
    /// Compile the text of `shader`.
    CompileShader { shader: u32 },
    /// Read the compile status of `shader`. Answered by the flag.
    GetCompileStatus { shader: u32 },
    /// Read the length of the diagnostic log of `shader`. Answered by it.
    GetInfoLogLength { shader: u32 },
    /// Read `length` bytes of the diagnostic log of `shader`. Answered by
    /// the text.
    GetInfoLog { shader: u32, length: i32 },
    /// Release `shader`.
    DeleteShader { shader: u32 },
    /// Attach `shader` to `program`.
    AttachShader { program: u32, shader: u32 },
    /// Link `program`.
    LinkProgram { program: u32 },
    /// Read the link status of `program`. Answered by the flag.
    GetLinkStatus { program: u32 },
    /// Validate `program`.
    ValidateProgram { program: u32 },
    /// Write `message` and a line feed to the console.
    Print { message: String },
}

/// The view of `Command`: the command that contracts speak of.
pub ghost enum CommandView {
    CreateProgram,
    CreateShader { stage: Stage },
    ShaderSource { shader: u32, source: Seq<char> },
    CompileShader { shader: u32 },
    GetCompileStatus { shader: u32 },
    GetInfoLogLength { shader: u32 },
    GetInfoLog { shader: u32, length: i32 },
    DeleteShader { shader: u32 },
    AttachShader { program: u32, shader: u32 },
    LinkProgram { program: u32 },
    GetLinkStatus { program: u32 },
    ValidateProgram { program: u32 },
    Print { message: Seq<char> },
}

impl View for Command {
    type V = CommandView;

    open spec fn view(&self) -> CommandView {
        match *self {
            Command::CreateProgram => CommandView::CreateProgram,
            Command::CreateShader { stage } => CommandView::CreateShader { stage },
            Command::ShaderSource { shader, source } => CommandView::ShaderSource {
                shader,
                source: source@,
            },
            Command::CompileShader { shader } => CommandView::CompileShader { shader },
            Command::GetCompileStatus { shader } => CommandView::GetCompileStatus { shader },
            Command::GetInfoLogLength { shader } => CommandView::GetInfoLogLength { shader },
            Command::GetInfoLog { shader, length } => CommandView::GetInfoLog { shader, length },
            Command::DeleteShader { shader } => CommandView::DeleteShader { shader },
            Command::AttachShader { program, shader } => CommandView::AttachShader {
                program,
                shader,
            },
            Command::LinkProgram { program } => CommandView::LinkProgram { program },
            Command::GetLinkStatus { program } => CommandView::GetLinkStatus { program },
            Command::ValidateProgram { program } => CommandView::ValidateProgram { program },
            Command::Print { message } => CommandView::Print { message: message@ },
        }
    }
}

/// What the caller reports once a command has been carried out.
#[derive(Clone, PartialEq, Eq, Debug)]
pub enum Reply {
    /// The command gives nothing back.
    Done,
    /// The handle of the object that was allocated.
    Handle(u32),
    /// The integer that was read.
    Value(i32),
    /// The text that was read.
    Text(String),
}

/// The view of `Reply`: the reply that contracts speak of.
pub ghost enum ReplyView {
    Done,
    Handle(u32),
    Value(i32),
    Text(Seq<char>),
}

impl View for Reply {
    type V = ReplyView;

    open spec fn view(&self) -> ReplyView {
        match *self {
            Reply::Done => ReplyView::Done,
            Reply::Handle(handle) => ReplyView::Handle(handle),
            Reply::Value(value) => ReplyView::Value(value),
            Reply::Text(text) => ReplyView::Text(text@),
        }
    }
}

impl ReplyView {
    /// The handle that the reply holds. A reply of another kind counts as the
    /// handle 0, which names no object.
    pub open spec fn handle(self) -> u32 {
        match self {
            ReplyView::Handle(handle) => handle,
            _ => 0,
        }
    }

    /// The integer that the reply holds. A reply of another kind counts as 0,
    /// the flag that is not set.
    pub open spec fn value(self) -> i32 {
        match self {
            ReplyView::Value(value) => value,
            _ => 0,
        }
    }

    /// The text that the reply holds. A reply of another kind counts as the
    /// empty text.
    pub open spec fn text(self) -> Seq<char> {
        match self {
            ReplyView::Text(text) => text,
            _ => Seq::empty(),
        }
    }
}

impl Reply {
    /// The handle that the reply holds, 0 for a reply of another kind.
    pub fn handle(&self) -> (handle: u32)
        ensures
            handle == self@.handle(),
    {
        match self {
            Reply::Handle(handle) => *handle,
            _ => 0,
        }
    }

    /// The integer that the reply holds, 0 for a reply of another kind.
    pub fn value(&self) -> (value: i32)
        ensures
            value == self@.value(),
    {
        match self {
            Reply::Value(value) => *value,
            _ => 0,
        }
    }

    /// The text that the reply holds, empty for a reply of another kind.
    pub fn text(self) -> (text: String)
        ensures
            text@ == self@.text(),
    {
        match self {
            Reply::Text(text) => text,
            _ => String::new(),
        }
    }
}

/// How far a build has come once a reply is taken in.
#[derive(Debug)]
pub enum Progress<M> {
    /// The build goes on from this state.
    Pending(M),
    /// The build is over, with this handle as its result.
    Finished(u32),
}

/// The views of `commands`, in order.
pub open spec fn command_views(commands: Seq<Command>) -> Seq<CommandView> {
    commands.map_values(|command: Command| command@)
}

/// The views of `replies`, in order.
pub open spec fn reply_views(replies: Seq<Reply>) -> Seq<ReplyView> {
    replies.map_values(|reply: Reply| reply@)
}

} // verus!
