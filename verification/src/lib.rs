//! Shader source partitioning and the program build pipeline of a small
//! rendering harness.
//!
//! `source` splits the text of a combined shader file into the bodies of its
//! stages. `compiler` and `linker` decide, command by command, how the stages
//! are compiled and linked into a program; the caller carries each command out
//! on the graphics context and hands the reply back. `ledger` counts what a
//! build allocates and releases.

pub mod command;
pub mod compiler;
pub mod ledger;
pub mod linker;
pub mod source;
pub mod text;
