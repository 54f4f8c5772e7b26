use minishell::tokenizer::split_string;

fn toks(line: &str) -> Vec<String> {
    split_string(line)
}

#[test]
fn quotes_single_and_double() {
    assert_eq!(toks("echo 'a b' \"c\\\"d\""), vec!["echo", "a b", "c\"d"]);
}

#[test]
fn unquoted_backslash_space() {
    assert_eq!(toks("echo a\\ b"), vec!["echo", "a b"]);
}

#[test]
fn plain_words() {
    assert_eq!(toks("echo hello world"), vec!["echo", "hello", "world"]);
}

#[test]
fn consecutive_spaces_collapse() {
    assert_eq!(toks("a   b     c"), vec!["a", "b", "c"]);
}

#[test]
fn empty_line_has_no_tokens() {
    assert_eq!(toks(""), Vec::<String>::new());
    assert_eq!(toks("     "), Vec::<String>::new());
}

#[test]
fn quotes_concatenate_within_a_token() {
    assert_eq!(toks("'a'\"b\"c"), vec!["abc"]);
}

#[test]
fn empty_quotes_emit_nothing() {
    assert_eq!(toks("''"), Vec::<String>::new());
    assert_eq!(toks("echo ''"), vec!["echo"]);
}

#[test]
fn single_quotes_take_everything_literally() {
    assert_eq!(toks("'a \\ \"x\" b'"), vec!["a \\ \"x\" b"]);
}

#[test]
fn double_quote_backslash_escapes_only_three() {
    assert_eq!(toks("\"a\\$b\""), vec!["a$b"]);
    assert_eq!(toks("\"a\\\\b\""), vec!["a\\b"]);
    assert_eq!(toks("\"a\\\"b\""), vec!["a\"b"]);
    // Before any other character the backslash itself is kept.
    assert_eq!(toks("\"a\\nb\""), vec!["a\\nb"]);
}

#[test]
fn unterminated_quote_swallows_the_rest() {
    assert_eq!(toks("echo 'a b"), vec!["echo", "a b"]);
    assert_eq!(toks("echo \"a b"), vec!["echo", "a b"]);
}

#[test]
fn trailing_backslash_is_dropped() {
    assert_eq!(toks("ab\\"), vec!["ab"]);
}
