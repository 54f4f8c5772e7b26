use minishell::classify::Builtin;
use minishell::classify::MyCmd;
use minishell::dispatch::CommandResult;
use minishell::dispatch::ContinueExec;
use minishell::dispatch::FollowUp;
use minishell::dispatch::ParseError;
use minishell::dispatch::parse_input;
use minishell::dispatch::handle_command;
use minishell::resolve::DirListing;
use minishell::resolve::PathEntry;

fn strings(words: &[&str]) -> Vec<String> {
    words.iter().map(|w| w.to_string()).collect()
}

fn listing(entries: &[(&str, &str)]) -> DirListing {
    DirListing {
        entries: entries
            .iter()
            .map(|(n, p)| PathEntry { name: n.to_string(), path: p.to_string() })
            .collect(),
    }
}

fn run(listings: &Vec<DirListing>, line: &str) -> CommandResult {
    handle_command(listings, &Some("/home/someone".to_string()), "/work", line)
}

#[test]
fn parse_input_splits_command_and_arguments() {
    let p = parse_input("echo a b").unwrap();
    assert_eq!(p.cmd, MyCmd::Builtin(Builtin::Echo));
    assert_eq!(p.args, strings(&["a", "b"]));
    assert_eq!(p.plan.out_target, None);
    assert_eq!(p.plan.err_target, None);
}

#[test]
fn parse_input_extracts_redirections() {
    let p = parse_input("foo a 1> out.txt 2> err.txt").unwrap();
    assert_eq!(p.cmd, MyCmd::Other("foo".to_string()));
    assert_eq!(p.args, strings(&["a"]));
    assert_eq!(p.plan.out_target, Some("out.txt".to_string()));
    assert_eq!(p.plan.err_target, Some("err.txt".to_string()));
}

#[test]
fn parse_input_rejects_an_empty_line() {
    assert_eq!(parse_input(""), Err(ParseError::EmptyInput));
    assert_eq!(parse_input("   "), Err(ParseError::EmptyInput));
}

#[test]
fn parse_input_rejects_a_line_that_is_only_a_redirection() {
    assert_eq!(parse_input("> f"), Err(ParseError::EmptyInput));
}

#[test]
fn parse_input_rejects_a_trailing_operator() {
    assert_eq!(parse_input("echo hi >"), Err(ParseError::MissingRedirectTarget));
}

#[test]
fn empty_line_does_nothing_and_continues() {
    let r = run(&vec![], "");
    assert_eq!(r.output.out, "");
    assert_eq!(r.output.err, "");
    assert_eq!(r.action, FollowUp::Inert);
    assert_eq!(r.cont, ContinueExec::Continue);
}

#[test]
fn unknown_command_reports_on_the_output_target() {
    let r = run(&vec![], "nonexistent_cmd_xyz arg1");
    assert_eq!(r.output.out, "nonexistent_cmd_xyz: command not found\n");
    assert_eq!(r.output.err, "");
    assert_eq!(r.action, FollowUp::Inert);
    assert_eq!(r.cont, ContinueExec::Continue);
}

#[test]
fn resolved_command_becomes_a_spawn() {
    let listings = vec![listing(&[("ls", "/bin/ls")])];
    let r = run(&listings, "ls -l x");
    assert_eq!(r.action, FollowUp::Spawn("/bin/ls".to_string(), strings(&["-l", "x"])));
    assert_eq!(r.output.out, "");
    assert_eq!(r.output.err, "");
    assert_eq!(r.cont, ContinueExec::Continue);
}

#[test]
fn echo_redirected_writes_to_the_named_file_only() {
    let r = run(&vec![], "echo hi 1> /tmp/out.txt");
    assert_eq!(r.plan.out_target, Some("/tmp/out.txt".to_string()));
    assert_eq!(r.plan.err_target, None);
    assert_eq!(r.output.out, "hi\n");
    assert_eq!(r.output.err, "");
    assert_eq!(r.cont, ContinueExec::Continue);
}

#[test]
fn echo_quoted_arguments_survive_whole() {
    let r = run(&vec![], "echo 'a b' \"c\\\"d\"");
    assert_eq!(r.output.out, "a b c\"d\n");
}

#[test]
fn pwd_reports_the_working_directory() {
    let r = run(&vec![], "pwd");
    assert_eq!(r.output.out, "/work\n");
    assert_eq!(r.output.err, "");
}

#[test]
fn cd_tilde_heads_home() {
    let r = run(&vec![], "cd ~");
    assert_eq!(r.action, FollowUp::Chdir("/home/someone".to_string()));
    assert_eq!(r.output.out, "");
    assert_eq!(r.output.err, "");
    assert_eq!(r.cont, ContinueExec::Continue);
}

#[test]
fn cd_to_a_plain_path_is_passed_through() {
    let r = run(&vec![], "cd /nonexistent");
    assert_eq!(r.action, FollowUp::Chdir("/nonexistent".to_string()));
    assert_eq!(r.cont, ContinueExec::Continue);
}

#[test]
fn type_of_a_builtin_goes_through_the_whole_pipeline() {
    let r = run(&vec![], "type echo");
    assert_eq!(r.output.out, "echo is a shell builtin\n");
    assert_eq!(r.output.err, "");
}

#[test]
fn type_wants_exactly_one_argument() {
    let r = run(&vec![], "type a b");
    assert_eq!(r.output.out, "");
    assert_eq!(r.output.err, "type: expected one argument\n");
    assert_eq!(r.cont, ContinueExec::Continue);
}

#[test]
fn exit_zero_stops() {
    let r = run(&vec![], "exit 0");
    assert_eq!(r.cont, ContinueExec::Stop);
    assert_eq!(r.output.out, "");
    assert_eq!(r.output.err, "");
    assert_eq!(r.action, FollowUp::Inert);
}

#[test]
fn exit_one_does_not_stop() {
    let r = run(&vec![], "exit 1");
    assert_eq!(r.cont, ContinueExec::Continue);
    assert_eq!(r.output.err, "exit: expected the single argument 0\n");
}

#[test]
fn exit_without_arguments_does_not_stop() {
    let r = run(&vec![], "exit");
    assert_eq!(r.cont, ContinueExec::Continue);
    assert_eq!(r.output.err, "exit: expected the single argument 0\n");
}

#[test]
fn stderr_redirect_routes_the_not_found_report() {
    let r = run(&vec![], "type missing_cmd 2> /tmp/err.txt");
    assert_eq!(r.plan.err_target, Some("/tmp/err.txt".to_string()));
    assert_eq!(r.output.out, "");
    assert_eq!(r.output.err, "missing_cmd: not found\n");
}

#[test]
fn cd_with_two_arguments_reports_and_continues() {
    let r = run(&vec![], "cd a b");
    assert_eq!(r.output.err, "cd: expected one argument\n");
    assert_eq!(r.action, FollowUp::Inert);
    assert_eq!(r.cont, ContinueExec::Continue);
}

#[test]
fn trailing_operator_is_reported_and_the_loop_continues() {
    let r = run(&vec![], "echo hi >");
    assert_eq!(r.output.err, "syntax error: redirection target missing\n");
    assert_eq!(r.cont, ContinueExec::Continue);
    assert_eq!(r.plan.out_target, None);
}
