use script_picker::cli::{parse_args, ArgsError};

fn args(words: &[&str]) -> Vec<String> {
    words.iter().map(|s| s.to_string()).collect()
}

#[test]
fn script_path_alone() {
    let o = parse_args(&args(&["picker", "run.sh"])).unwrap();
    assert_eq!(o.script_name, "run.sh");
    assert!(!o.debug_mode);
    assert_eq!(o.initial_query, "");
}

#[test]
fn debug_and_query_flags() {
    let o = parse_args(&args(&["picker", "-d", "-q", "foo bar", "run.sh"])).unwrap();
    assert_eq!(o.script_name, "run.sh");
    assert!(o.debug_mode);
    assert_eq!(o.initial_query, "foo bar");
    let o = parse_args(&args(&["picker", "run.sh", "--query", "a", "--query", "b"])).unwrap();
    assert_eq!(o.initial_query, "b");
    assert!(!o.debug_mode);
}

#[test]
fn query_flag_needs_a_value() {
    assert_eq!(parse_args(&args(&["picker", "run.sh", "-q"])).err(), Some(ArgsError::MissingQueryValue));
    assert_eq!(parse_args(&args(&["picker", "--query"])).err(), Some(ArgsError::MissingQueryValue));
}

#[test]
fn one_script_path_required() {
    assert_eq!(parse_args(&args(&["picker"])).err(), Some(ArgsError::Usage));
    assert_eq!(parse_args(&args(&["picker", "-d"])).err(), Some(ArgsError::Usage));
    assert_eq!(parse_args(&args(&["picker", "a.sh", "b.sh"])).err(), Some(ArgsError::Usage));
    assert_eq!(parse_args(&args(&[])).err(), Some(ArgsError::Usage));
}

#[test]
fn flag_like_value_after_query_is_the_query() {
    let o = parse_args(&args(&["picker", "-q", "-d", "x.sh"])).unwrap();
    assert_eq!(o.initial_query, "-d");
    assert!(!o.debug_mode);
    assert_eq!(o.script_name, "x.sh");
}
