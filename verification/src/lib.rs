//! An interactive command-line shell's interpretation pipeline, verified.
//!
//! A raw input line flows through the tokenizer (quote and escape handling),
//! the redirection planner (extraction of `>`/`1>`/`2>` targets), the command
//! classifier (builtin versus external), and the builtin execution rules.
//! All of that is pure logic and lives here, with contracts. Reading lines,
//! listing directories, opening redirection targets, changing the working
//! directory and spawning child processes are left to the surrounding
//! program, which hands this library plain values and carries out the
//! actions it decides on.

pub mod builtins;
pub mod classify;
pub mod dispatch;
pub mod redirect;
pub mod resolve;
pub mod text;
pub mod tokenizer;
