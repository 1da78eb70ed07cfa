//! Merging of command-line, file and default values.

use trellis::config::{BoolMerger, ConfigMerger};

#[test]
fn test_vec_string_merger() {
    // CLI value takes precedence when non-empty
    let result = Vec::<String>::merge(
        vec!["cli".to_string()],
        Some(vec!["file".to_string()]),
        vec!["default".to_string()],
    );
    assert_eq!(result, vec!["cli"]);

    // File value used when CLI is empty
    let result = Vec::<String>::merge(
        vec![],
        Some(vec!["file".to_string()]),
        vec!["default".to_string()],
    );
    assert_eq!(result, vec!["file"]);

    // Default used when both CLI and file are empty/None
    let result = Vec::<String>::merge(vec![], None, vec!["default".to_string()]);
    assert_eq!(result, Vec::<String>::new());
}

#[test]
fn test_string_merger() {
    // CLI value takes precedence when different from default
    let result = String::merge(
        "cli_value".to_string(),
        Some("file_value".to_string()),
        "default".to_string(),
    );
    assert_eq!(result, "cli_value");

    // File value used when CLI equals default
    let result = String::merge(
        "default".to_string(),
        Some("file_value".to_string()),
        "default".to_string(),
    );
    assert_eq!(result, "file_value");

    // Default used when CLI equals default and no file value
    let result = String::merge("default".to_string(), None, "default".to_string());
    assert_eq!(result, "default");
}

#[test]
fn test_option_merger() {
    // CLI value takes precedence when Some
    let result = Option::<String>::merge(
        Some("cli".to_string()),
        Some(Some("file".to_string())),
        None,
    );
    assert_eq!(result, Some("cli".to_string()));

    // File value used when CLI is None
    let result = Option::<String>::merge(None, Some(Some("file".to_string())), None);
    assert_eq!(result, Some("file".to_string()));

    // None when both CLI and file are None
    let result = Option::<String>::merge(None, None, None);
    assert_eq!(result, None);
}

#[test]
fn test_bool_merger() {
    // CLI value takes precedence when Some
    let result = BoolMerger::merge(Some(true), Some(false), false);
    assert_eq!(result, true);

    // File value used when CLI is None
    let result = BoolMerger::merge(None, Some(true), false);
    assert_eq!(result, true);

    // Default used when both CLI and file are None
    let result = BoolMerger::merge(None, None, true);
    assert_eq!(result, true);
}

#[test]
fn test_bool_merger_cli_false_wins_over_file_true() {
    assert!(!BoolMerger::merge(Some(false), Some(true), true));
}

#[test]
fn test_string_merger_cli_default_with_file_absent_inner() {
    // A CLI value equal to the default defers to the file, even when the file
    // value is the empty string.
    let result = String::merge("d".to_string(), Some(String::new()), "d".to_string());
    assert_eq!(result, "");
}

#[test]
fn test_option_merger_file_inner_none() {
    let result = Option::<u32>::merge(None, Some(None), Some(7));
    assert_eq!(result, None);
}
