//! Classifying the first token of a line as a builtin or an external command.

use vstd::prelude::*;
use crate::text::str_eq;

verus! {

/// The fixed set of commands the shell implements itself.
#[derive(Clone, Copy, PartialEq, Eq, Structural, Debug)]
pub enum Builtin {
    Cd,
    Echo,
    Exit,
    Pwd,
    Type,
}

/// A classified command: one of the builtins, or an external command
/// carrying its literal name.
#[derive(PartialEq, Eq, Debug)]
pub enum MyCmd {
    Builtin(Builtin),
    Other(String),
}

/// Whether `s` is the name of a builtin. Exact, case-sensitive equality;
/// no prefix or abbreviation matching.
pub open spec fn spec_is_builtin_name(s: Seq<char>) -> bool {
    s == "cd"@ || s == "echo"@ || s == "exit"@ || s == "pwd"@ || s == "type"@
}

/// Which builtin a builtin name denotes. Meaningful only when
/// `spec_is_builtin_name(s)` holds.
pub open spec fn spec_builtin_of(s: Seq<char>) -> Builtin
    recommends
        spec_is_builtin_name(s),
{
    if s == "cd"@ {
        Builtin::Cd
    } else if s == "exit"@ {
        Builtin::Exit
    } else if s == "echo"@ {
        Builtin::Echo
    } else if s == "pwd"@ {
        Builtin::Pwd
    } else {
        Builtin::Type
    }
}

/// Maps the first token of a line to a builtin, or to an external command
/// that keeps the literal name.
pub fn parse_command(command_str: &str) -> (cmd: MyCmd)
    ensures
        spec_is_builtin_name(command_str@) ==> (cmd matches MyCmd::Builtin(b) && b
            == spec_builtin_of(command_str@)),
        !spec_is_builtin_name(command_str@) ==> (cmd matches MyCmd::Other(name) && name@
            == command_str@),
{
    if str_eq(command_str, "cd") {
        MyCmd::Builtin(Builtin::Cd)
    } else if str_eq(command_str, "exit") {
        MyCmd::Builtin(Builtin::Exit)
    } else if str_eq(command_str, "echo") {
        MyCmd::Builtin(Builtin::Echo)
    } else if str_eq(command_str, "pwd") {
        MyCmd::Builtin(Builtin::Pwd)
    } else if str_eq(command_str, "type") {
        MyCmd::Builtin(Builtin::Type)
    } else {
        MyCmd::Other(command_str.to_owned())
    }
}

} // verus!
