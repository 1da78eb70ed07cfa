//! Validation of configurations.

use std::path::Path;
use trellis::config::validator::parent_dir;
use trellis::config::{ConfigError, ConfigValidator, PathFacts, TrellisConfig};

fn create_test_config() -> TrellisConfig {
    TrellisConfig {
        builder_stages: vec!["base".to_string()],
        rootfs_stages: vec!["stage1".to_string()],
        rootfs_base: "scratch".to_string(),
        extra_contexts: vec![],
        extra_mounts: vec![],
        builder_tag: "test-builder".to_string(),
        rootfs_tag: "test-rootfs".to_string(),
        podman_build_cache: true,
        auto_clean: false,
        pacman_cache: None,
        aur_cache: None,
        src_dir: "/tmp/trellis-test-src".to_string(),
        hooks_dir: None,
        quiet: false,
    }
}

/// What the filesystem says of a configuration whose source directory
/// exists and whose cache parents exist.
fn good_facts() -> PathFacts {
    PathFacts {
        src_dir_exists: true,
        src_dir_is_dir: true,
        pacman_cache_parent_exists: true,
        aur_cache_parent_exists: true,
    }
}

#[test]
fn test_validate_complete_success() {
    let config = create_test_config();
    let result = ConfigValidator::validate_complete(&config, &good_facts());
    assert!(result.is_ok());
}

#[test]
fn test_validate_stages_empty_builder() {
    let result = ConfigValidator::validate_stages(&[], "builder");
    assert!(result.is_err());
    assert!(result.unwrap_err().message().contains("builder"));
}

#[test]
fn test_validate_stages_empty_rootfs() {
    let result = ConfigValidator::validate_stages(&[], "rootfs");
    assert!(result.is_err());
    assert!(result.unwrap_err().message().contains("rootfs"));
}

#[test]
fn test_validate_stages_non_empty() {
    let stages = vec!["stage1".to_string(), "stage2".to_string()];
    assert!(ConfigValidator::validate_stages(&stages, "builder").is_ok());
}

#[test]
fn test_validate_paths_nonexistent_src_dir() {
    let mut config = create_test_config();
    config.src_dir = "/nonexistent/path".to_string();
    let facts = PathFacts { src_dir_exists: false, src_dir_is_dir: false, ..good_facts() };

    let result = ConfigValidator::validate_paths(&config, &facts);
    assert!(result.is_err());
    let message = result.unwrap_err().message();
    assert!(message.contains("does not exist"));
    assert_eq!(message, "Source directory does not exist: /nonexistent/path");
}

#[test]
fn test_validate_cross_dependencies_same_tags() {
    let mut config = create_test_config();
    config.builder_tag = "same-tag".to_string();
    config.rootfs_tag = "same-tag".to_string();

    let result = ConfigValidator::validate_cross_dependencies(&config);
    assert!(result.is_err());
    let err = result.unwrap_err();
    assert!(err.message().contains("must be different"));
    assert_eq!(err, ConfigError::SameTags("same-tag".to_string()));
}

#[test]
fn test_validate_cross_dependencies_empty_tag() {
    let mut config = create_test_config();
    config.builder_tag = "".to_string();

    let result = ConfigValidator::validate_cross_dependencies(&config);
    assert!(result.is_err());
    assert!(result.unwrap_err().message().contains("cannot be empty"));
}

#[test]
fn test_validate_cross_dependencies_empty_rootfs_tag() {
    let mut config = create_test_config();
    config.rootfs_tag = "".to_string();

    let result = ConfigValidator::validate_cross_dependencies(&config);
    assert!(result.is_err());
    let err = result.unwrap_err();
    assert!(err.message().contains("cannot be empty"));
    assert_eq!(err.message(), "Rootfs tag cannot be empty");
}

#[test]
fn test_validate_stages_unknown_type() {
    let stages = vec!["stage1".to_string()];
    let result = ConfigValidator::validate_stages(&stages, "unknown");
    assert!(result.is_ok()); // Should still pass for unknown stage types
}

#[test]
fn test_validate_stages_empty_unknown_type() {
    let result = ConfigValidator::validate_stages(&[], "unknown");
    assert!(result.is_err());
    assert!(result.unwrap_err().message().contains("No stages defined"));
}

#[test]
fn test_validate_paths_src_dir_is_file() {
    let config = create_test_config();
    let facts = PathFacts { src_dir_is_dir: false, ..good_facts() };

    let result = ConfigValidator::validate_paths(&config, &facts);
    assert!(result.is_err());
    assert!(result.unwrap_err().message().contains("not a directory"));
}

#[test]
fn test_validate_paths_pacman_cache_parent_not_exists() {
    let mut config = create_test_config();
    config.pacman_cache = Some("/nonexistent/parent/cache".to_string());
    let facts = PathFacts { pacman_cache_parent_exists: false, ..good_facts() };

    let result = ConfigValidator::validate_paths(&config, &facts);
    assert!(result.is_err());
    let message = result.unwrap_err().message();
    assert!(message.contains("Pacman cache parent directory does not exist"));
    assert!(message.ends_with("/nonexistent/parent"));
}

#[test]
fn test_validate_paths_aur_cache_parent_not_exists() {
    let mut config = create_test_config();
    config.aur_cache = Some("/nonexistent/parent/cache".to_string());
    let facts = PathFacts { aur_cache_parent_exists: false, ..good_facts() };

    let result = ConfigValidator::validate_paths(&config, &facts);
    assert!(result.is_err());
    assert!(result
        .unwrap_err()
        .message()
        .contains("AUR cache parent directory does not exist"));
}

#[test]
fn test_validate_paths_cache_dirs_with_valid_parents() {
    let mut config = create_test_config();
    config.pacman_cache = Some("/tmp/pacman_cache".to_string());
    config.aur_cache = Some("/tmp/aur_cache".to_string());
    assert_eq!(
        ConfigValidator::cache_parents(&config),
        (Some("/tmp".to_string()), Some("/tmp".to_string()))
    );

    let result = ConfigValidator::validate_paths(&config, &good_facts());
    assert!(result.is_ok());
}

#[test]
fn test_validate_paths_cache_dirs_none() {
    let mut config = create_test_config();
    config.pacman_cache = None;
    config.aur_cache = None;

    let result = ConfigValidator::validate_paths(&config, &good_facts());
    assert!(result.is_ok());
}

#[test]
fn test_validate_complete_with_path_error() {
    let mut config = create_test_config();
    config.src_dir = "/nonexistent/path".to_string();
    let facts = PathFacts { src_dir_exists: false, ..good_facts() };

    let result = ConfigValidator::validate_complete(&config, &facts);
    assert!(result.is_err());
}

#[test]
fn test_validate_complete_with_cross_dependency_error() {
    let mut config = create_test_config();
    config.builder_tag = "same".to_string();
    config.rootfs_tag = "same".to_string();

    let result = ConfigValidator::validate_complete(&config, &good_facts());
    assert!(result.is_err());
}

#[test]
fn test_validate_complete_reports_path_error_before_tags() {
    let mut config = create_test_config();
    config.builder_tag = "same".to_string();
    config.rootfs_tag = "same".to_string();
    let facts = PathFacts { src_dir_exists: false, ..good_facts() };

    let err = ConfigValidator::validate_complete(&config, &facts).unwrap_err();
    assert_eq!(err, ConfigError::SrcDirMissing("/tmp/trellis-test-src".to_string()));
}

#[test]
fn test_validate_paths_pacman_before_aur() {
    let mut config = create_test_config();
    config.pacman_cache = Some("/p/cache".to_string());
    config.aur_cache = Some("/a/cache".to_string());
    let facts = PathFacts { pacman_cache_parent_exists: false, aur_cache_parent_exists: false, ..good_facts() };
    let err = ConfigValidator::validate_paths(&config, &facts).unwrap_err();
    assert_eq!(err.message(), "Pacman cache parent directory does not exist: /p");
}

#[test]
fn test_validate_stage_error_messages_exact() {
    assert_eq!(
        ConfigValidator::validate_stages(&[], "builder").unwrap_err().message(),
        "No builder stages defined"
    );
    assert_eq!(
        ConfigValidator::validate_stages(&[], "rootfs").unwrap_err().message(),
        "No rootfs stages defined"
    );
}

#[test]
fn test_validate_paths_aur_parent_named_exactly() {
    let mut config = create_test_config();
    config.aur_cache = Some("/var/cache/aur/".to_string());
    let facts = PathFacts { aur_cache_parent_exists: false, ..good_facts() };
    let err = ConfigValidator::validate_paths(&config, &facts).unwrap_err();
    assert_eq!(err, ConfigError::AurCacheParentMissing("/var/cache".to_string()));
    assert_eq!(err.message(), "AUR cache parent directory does not exist: /var/cache");
}

#[test]
fn test_validate_paths_cache_without_parent_is_not_checked() {
    let mut config = create_test_config();
    config.pacman_cache = Some("/".to_string());
    config.aur_cache = Some("".to_string());
    let facts = PathFacts { pacman_cache_parent_exists: false, aur_cache_parent_exists: false, ..good_facts() };
    assert_eq!(ConfigValidator::cache_parents(&config), (None, None));
    assert!(ConfigValidator::validate_paths(&config, &facts).is_ok());
}

#[test]
fn test_validate_paths_unset_cache_is_not_checked() {
    let mut config = create_test_config();
    config.aur_cache = Some("/srv/aur".to_string());
    let facts = PathFacts { pacman_cache_parent_exists: false, ..good_facts() };
    assert!(ConfigValidator::validate_paths(&config, &facts).is_ok());
}

#[test]
fn test_parent_dir_agrees_with_path_parent() {
    let cases = [
        "/var/cache/pacman", "/a", "a", "/", "", "//a", "a/./b", "./a", "a/.", "./.", "/.",
        "..", "a//b/", "a/..", ".a", "./", ".", "/./a", ".//a", "a/b/c/", "/tmp/x/./",
        "//", "a/b/..", "~/cache", "/var//cache///pacman//",
    ];
    for case in cases {
        let expected = Path::new(case).parent().map(|p| p.to_str().unwrap().to_string());
        assert_eq!(parent_dir(case), expected, "parent of {case:?}");
    }
}
