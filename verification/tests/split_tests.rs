use window_update_blocker::split::{join_tokens, needs_quoting, split_command_line, split_tokens};

fn cv(s: &str) -> Vec<char> {
    s.chars().collect()
}

fn sv(v: &Vec<char>) -> String {
    v.iter().collect()
}

fn split_strings(s: &str) -> Vec<String> {
    split_tokens(&cv(s)).iter().map(|t| t.iter().collect()).collect()
}

#[test]
fn splits_quoted_path_with_arguments() {
    let line = cv(r#""C:\Program Files\svc.exe" --flag value"#);
    let cl = split_command_line(&line).unwrap();
    assert_eq!(sv(&cl.executable), r"C:\Program Files\svc.exe");
    let args: Vec<String> = cl.arguments.iter().map(|t| t.iter().collect()).collect();
    assert_eq!(args, vec!["--flag".to_string(), "value".to_string()]);
}

#[test]
fn round_trip_preserves_tokens_and_order() {
    let line = cv(r#""C:\Program Files\svc.exe" --flag value"#);
    let tokens = split_tokens(&line);
    let joined = join_tokens(&tokens);
    assert_eq!(sv(&joined), r#""C:\Program Files\svc.exe" --flag value"#);
    let again = split_tokens(&joined);
    assert_eq!(tokens, again);
}

#[test]
fn round_trip_with_empty_and_spaced_tokens() {
    let tokens: Vec<Vec<char>> = vec![cv("a b"), cv(""), cv("c")];
    let joined = join_tokens(&tokens);
    assert_eq!(sv(&joined), r#""a b" "" c"#);
    assert_eq!(split_tokens(&joined), tokens);
}

#[test]
fn empty_line_has_no_executable() {
    assert!(split_command_line(&cv("")).is_none());
    assert!(split_command_line(&cv("   ")).is_none());
}

#[test]
fn collapses_repeated_separators() {
    assert_eq!(split_strings("a  b\t\tc"), vec!["a", "b", "c"]);
}

#[test]
fn strips_matching_single_quotes() {
    assert_eq!(split_strings("'a b' c"), vec!["a b", "c"]);
}

#[test]
fn quote_in_the_middle_of_a_word_extends_the_token() {
    assert_eq!(split_strings(r#"a"b c"d"#), vec!["ab cd"]);
}

#[test]
fn other_quote_kind_stays_inside_quotes() {
    assert_eq!(split_strings(r#""it's" fine"#), vec!["it's", "fine"]);
}

#[test]
fn unclosed_quote_runs_to_the_end() {
    assert_eq!(split_strings(r#"a "b c"#), vec!["a", "b c"]);
}

#[test]
fn empty_quotes_make_an_empty_token() {
    assert_eq!(split_strings(r#""" x"#), vec!["", "x"]);
}

#[test]
fn quoting_is_needed_for_empty_or_spaced_tokens_only() {
    assert!(needs_quoting(&cv("")));
    assert!(needs_quoting(&cv("a b")));
    assert!(needs_quoting(&cv("a\tb")));
    assert!(!needs_quoting(&cv("plain")));
}

#[test]
fn join_of_nothing_is_empty() {
    let tokens: Vec<Vec<char>> = Vec::new();
    assert_eq!(join_tokens(&tokens), Vec::<char>::new());
}
