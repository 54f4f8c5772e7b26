//! The execution rules of the builtin commands.
//!
//! Each builtin is a pure function from its resolved arguments (and, where
//! needed, plain values read from the environment) to the exact text it
//! writes and the action it asks the surrounding program to carry out.

use vstd::prelude::*;
use crate::classify::spec_is_builtin_name;
use crate::resolve::DirListing;
use crate::resolve::look_in_path;
use crate::resolve::spec_resolve;
use crate::text::str_eq;

verus! {

/// Text a command writes: one part for the standard-output target and one
/// for the standard-error target. An empty part means nothing is written.
#[derive(PartialEq, Eq, Debug, Clone)]
pub struct Output {
    pub out: String,
    pub err: String,
}

/// Ghost counterpart of [`Output`].
#[verifier::ext_equal]
pub struct SpecOutput {
    pub out: Seq<char>,
    pub err: Seq<char>,
}

/// The arguments joined with single spaces: empty for no arguments, and no
/// separator before the first or after the last.
pub open spec fn spec_join_spaces(args: Seq<Seq<char>>) -> Seq<char>
    decreases args.len(),
{
    if args.len() == 0 {
        Seq::empty()
    } else if args.len() == 1 {
        args[0]
    } else {
        spec_join_spaces(args.drop_last()) + " "@ + args.last()
    }
}

/// The line `echo` writes: its arguments joined with spaces, then a newline.
pub open spec fn spec_echo_line(args: Seq<Seq<char>>) -> Seq<char> {
    spec_join_spaces(args) + "\n"@
}

/// Joins all arguments with a single space and appends a line terminator:
/// the exact text `echo` sends to the standard-output target.
pub fn handle_echo_command(args: &Vec<String>) -> (r: String)
    ensures
        r@ == spec_echo_line(args.deep_view()),
{
    let ghost argseq = args.deep_view();
    let mut line = String::new();
    let n = args.len();
    let mut i: usize = 0;
    proof {
        assert(argseq.subrange(0, 0) =~= Seq::<Seq<char>>::empty());
    }
    while i < n
        invariant
            n == args.len(),
            argseq == args.deep_view(),
            i <= n,
            line@ == spec_join_spaces(argseq.subrange(0, i as int)),
        decreases n - i,
    {
        proof {
            assert(argseq.subrange(0, i as int + 1).drop_last() =~= argseq.subrange(0, i as int));
            assert(argseq.subrange(0, i as int + 1).last() == argseq[i as int]);
            assert(args[i as int]@ == argseq[i as int]);
        }
        if i > 0 {
            line.append(" ");
        }
        line.append(args[i].as_str());
        proof {
            if i == 0 {
                assert(line@ =~= argseq[0]);
                assert(argseq.subrange(0, 1).len() == 1);
            }
        }
        i = i + 1;
    }
    proof {
        assert(argseq.subrange(0, n as int) =~= argseq);
    }
    line.append("\n");
    line
}

/// The exact line `pwd` writes: the working directory, then a newline.
pub fn handle_pwd_command(cwd: &str) -> (r: String)
    ensures
        r@ == cwd@ + "\n"@,
{
    let mut line = String::new();
    line.append(cwd);
    line.append("\n");
    proof {
        assert(line@ =~= cwd@ + "\n"@);
    }
    line
}

/// The message reported when `cd` is given a path that does not exist.
pub open spec fn spec_cd_not_found(path: Seq<char>) -> Seq<char> {
    "cd: "@ + path + ": No such file or directory\n"@
}

/// The exact message `cd` writes to the standard-error target when the
/// target path does not exist.
pub fn cd_not_found_message(path: &str) -> (r: String)
    ensures
        r@ == spec_cd_not_found(path@),
{
    let mut line = String::new();
    line.append("cd: ");
    line.append(path);
    line.append(": No such file or directory\n");
    proof {
        assert(line@ =~= spec_cd_not_found(path@));
    }
    line
}

/// Where `cd` decides to go: the directory to change to, or the error
/// message to report. `~` stands for the home directory; a missing home
/// directory and a wrong argument count are reported rather than fatal, so
/// that one bad command cannot end the session.
pub open spec fn spec_cd_decision(args: Seq<Seq<char>>, home: Option<Seq<char>>) -> Result<
    Seq<char>,
    Seq<char>,
> {
    if args.len() != 1 {
        Err("cd: expected one argument\n"@)
    } else if args[0] == "~"@ {
        match home {
            Some(h) => Ok(h),
            None => Err("cd: HOME is not set\n"@),
        }
    } else {
        Ok(args[0])
    }
}

/// Decides what `cd` does: `Ok` carries the directory the working directory
/// should change to (with `~` replaced by the home directory), `Err` the
/// message for the standard-error target.
pub fn handle_cd_command(args: &Vec<String>, home: &Option<String>) -> (r: Result<String, String>)
    ensures
        (r matches Ok(t) ==> spec_cd_decision(args.deep_view(), spec_opt_str(*home)) matches
            Ok(q) && t@ == q),
        (r matches Err(m) ==> spec_cd_decision(args.deep_view(), spec_opt_str(*home)) matches
            Err(q) && m@ == q),
{
    if args.len() != 1 {
        let mut line = String::new();
        line.append("cd: expected one argument\n");
        return Err(line);
    }
    proof {
        assert(args[0]@ == args.deep_view()[0]);
    }
    if str_eq(args[0].as_str(), "~") {
        match home {
            Some(h) => Ok(h.clone()),
            None => {
                let mut line = String::new();
                line.append("cd: HOME is not set\n");
                Err(line)
            }
        }
    } else {
        Ok(args[0].clone())
    }
}

/// The view of an optional owned string.
pub open spec fn spec_opt_str(o: Option<String>) -> Option<Seq<char>> {
    match o {
        Some(s) => Some(s@),
        None => None,
    }
}

/// What `type` writes for `arg`: builtins are always reported as builtins,
/// whatever the search path holds; anything else is looked up on the search
/// path and reported with its full path, or reported as not found on the
/// standard-error target.
pub open spec fn spec_type_output(listings: Seq<DirListing>, arg: Seq<char>) -> SpecOutput {
    if spec_is_builtin_name(arg) {
        SpecOutput { out: arg + " is a shell builtin\n"@, err: Seq::empty() }
    } else {
        match spec_resolve(listings, arg) {
            Some(p) => SpecOutput { out: arg + " is "@ + p + "\n"@, err: Seq::empty() },
            None => SpecOutput { out: Seq::empty(), err: arg + ": not found\n"@ },
        }
    }
}

/// Law: `type` reports every builtin name — `cd`, `echo`, `exit`, `pwd` and
/// `type` — as a shell builtin, whatever the search path holds, and writes
/// nothing to the standard-error target.
pub proof fn lemma_type_reports_builtin(listings: Seq<DirListing>, arg: Seq<char>)
    requires
        spec_is_builtin_name(arg),
    ensures
        spec_type_output(listings, arg).out == arg + " is a shell builtin\n"@,
        spec_type_output(listings, arg).err == Seq::<char>::empty(),
{
}

/// Classifies `arg` and reports what it is: a shell builtin, an external
/// command with its resolved path, or not found.
pub fn handle_type_command(listings: &Vec<DirListing>, arg: &str) -> (r: Output)
    ensures
        r.out@ == spec_type_output(listings@, arg@).out,
        r.err@ == spec_type_output(listings@, arg@).err,
{
    let cmd = crate::classify::parse_command(arg);
    match cmd {
        crate::classify::MyCmd::Builtin(_) => {
            let mut line = String::new();
            line.append(arg);
            line.append(" is a shell builtin\n");
            proof {
                assert(line@ =~= arg@ + " is a shell builtin\n"@);
            }
            Output { out: line, err: String::new() }
        }
        crate::classify::MyCmd::Other(_) => {
            match look_in_path(listings, arg) {
                Some(path) => {
                    let mut line = String::new();
                    line.append(arg);
                    line.append(" is ");
                    line.append(path.as_str());
                    line.append("\n");
                    proof {
                        assert(line@ =~= arg@ + " is "@ + path@ + "\n"@);
                    }
                    Output { out: line, err: String::new() }
                }
                None => {
                    let mut line = String::new();
                    line.append(arg);
                    line.append(": not found\n");
                    proof {
                        assert(line@ =~= arg@ + ": not found\n"@);
                    }
                    Output { out: String::new(), err: line }
                }
            }
        }
    }
}

/// The message written when an external command cannot be resolved. It goes
/// to the standard-output target, not the standard-error target: a quirk
/// kept deliberately for compatibility.
pub fn command_not_found_message(name: &str) -> (r: String)
    ensures
        r@ == name@ + ": command not found\n"@,
{
    let mut line = String::new();
    line.append(name);
    line.append(": command not found\n");
    proof {
        assert(line@ =~= name@ + ": command not found\n"@);
    }
    line
}

} // verus!
