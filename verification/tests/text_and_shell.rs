use std::path::PathBuf;
use neuroplasticity::shell::{chain_setup_and_command, join_strings, quote_shell_arg};
use neuroplasticity::text::{
    contains_char, decimal_string, is_whitespace, join_path, str_contains, str_ends_with, str_eq,
    str_starts_with, trim_str,
};

#[test]
fn decimal_rendering_matches_display() {
    for n in [0u64, 7, 10, 99, 120, 4096, u64::MAX] {
        assert_eq!(decimal_string(n), n.to_string());
    }
}

#[test]
fn whitespace_agrees_with_std() {
    for v in 0u32..0x3100 {
        if let Some(c) = char::from_u32(v) {
            assert_eq!(is_whitespace(c), c.is_whitespace(), "{:#x}", v);
        }
    }
}

#[test]
fn trim_agrees_with_std() {
    for s in ["  PASS \n", "\tFAIL", "", "   ", "a b", "\u{3000}x\u{85}"] {
        assert_eq!(trim_str(s), s.trim());
    }
}

#[test]
fn string_predicates() {
    assert!(str_eq("git", "git"));
    assert!(!str_eq("git", "gi"));
    assert!(contains_char("./run.sh", '.'));
    assert!(!contains_char("git", '.'));
    assert!(str_starts_with("/usr/bin/git", "/"));
    assert!(str_ends_with("/usr/bin/git", "/git"));
    assert!(!str_ends_with("git", "/git"));
    assert!(str_contains("AWS_SECRET_TOKEN", "SECRET"));
    assert!(!str_contains("MY_TOKEN", "SECRET"));
    assert!(str_contains("abc", ""));
}

#[test]
fn path_joining_follows_pathbuf() {
    for (b, r) in [(".neuroplasticity", "runs"), ("a/", "b"), ("", "x"), ("base", "/abs"), ("/", "etc")] {
        assert_eq!(join_path(b, r), PathBuf::from(b).join(r).to_string_lossy());
    }
}

#[test]
fn plain_arguments_stay_unquoted() {
    assert_eq!(quote_shell_arg("hello", false), "hello");
    assert_eq!(quote_shell_arg("*.py", false), "*.py");
    assert_eq!(quote_shell_arg("$HOME", false), "$HOME");
}

#[test]
fn arguments_with_spaces_or_quotes_are_quoted() {
    assert_eq!(quote_shell_arg("a b", false), "'a b'");
    assert_eq!(quote_shell_arg("say \"hi\"", false), "'say \"hi\"'");
    assert_eq!(quote_shell_arg("it's", false), "'it'\\''s'");
}

#[test]
fn agent_quoting_also_covers_globs_and_variables() {
    assert_eq!(quote_shell_arg("*.py", true), "'*.py'");
    assert_eq!(quote_shell_arg("$HOME", true), "'$HOME'");
    assert_eq!(quote_shell_arg("plain", true), "plain");
}

#[test]
fn joining_and_chaining() {
    let items = vec!["a".to_string(), "b".to_string(), "c".to_string()];
    assert_eq!(join_strings(&items, " && "), "a && b && c");
    assert_eq!(join_strings(&[], ", "), "");
    let setup = vec!["pip install astroid".to_string()];
    let cmd = vec!["python".to_string(), "-c".to_string(), "import ast".to_string()];
    assert_eq!(
        chain_setup_and_command(&setup, &cmd, false),
        "pip install astroid && python -c 'import ast'"
    );
}
