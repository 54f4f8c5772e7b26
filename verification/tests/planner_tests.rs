use minishell::redirect::PlanError;
use minishell::redirect::setup_output;

fn strings(words: &[&str]) -> Vec<String> {
    words.iter().map(|w| w.to_string()).collect()
}

#[test]
fn no_operators_is_a_no_op() {
    let (plan, args) = setup_output(strings(&["echo", "hi", "there"])).unwrap();
    assert_eq!(plan.out_target, None);
    assert_eq!(plan.err_target, None);
    assert_eq!(args, strings(&["echo", "hi", "there"]));
}

#[test]
fn stdout_redirect_with_bare_operator() {
    let (plan, args) = setup_output(strings(&["echo", "hi", ">", "f.txt"])).unwrap();
    assert_eq!(plan.out_target, Some("f.txt".to_string()));
    assert_eq!(plan.err_target, None);
    assert_eq!(args, strings(&["echo", "hi"]));
}

#[test]
fn stdout_redirect_with_numbered_operator() {
    let (plan, args) = setup_output(strings(&["echo", "hi", "1>", "out.txt"])).unwrap();
    assert_eq!(plan.out_target, Some("out.txt".to_string()));
    assert_eq!(args, strings(&["echo", "hi"]));
}

#[test]
fn stderr_redirect() {
    let (plan, args) = setup_output(strings(&["cmd", "2>", "err.txt"])).unwrap();
    assert_eq!(plan.out_target, None);
    assert_eq!(plan.err_target, Some("err.txt".to_string()));
    assert_eq!(args, strings(&["cmd"]));
}

#[test]
fn both_streams_redirected() {
    let (plan, args) = setup_output(strings(&["c", "1>", "o", "2>", "e", "x"])).unwrap();
    assert_eq!(plan.out_target, Some("o".to_string()));
    assert_eq!(plan.err_target, Some("e".to_string()));
    assert_eq!(args, strings(&["c", "x"]));
}

#[test]
fn later_target_wins() {
    let (plan, args) = setup_output(strings(&["c", ">", "first", ">", "second"])).unwrap();
    assert_eq!(plan.out_target, Some("second".to_string()));
    assert_eq!(args, strings(&["c"]));
}

#[test]
fn operator_token_after_operator_is_a_target() {
    let (plan, args) = setup_output(strings(&["c", ">", "2>"])).unwrap();
    assert_eq!(plan.out_target, Some("2>".to_string()));
    assert_eq!(plan.err_target, None);
    assert_eq!(args, strings(&["c"]));
}

#[test]
fn trailing_operator_is_rejected() {
    assert_eq!(
        setup_output(strings(&["echo", "hi", ">"])),
        Err(PlanError::MissingRedirectTarget)
    );
    assert_eq!(
        setup_output(strings(&["echo", "2>"])),
        Err(PlanError::MissingRedirectTarget)
    );
}
