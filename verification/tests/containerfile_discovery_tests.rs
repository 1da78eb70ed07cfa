//! Stage names, containerfile choice and the discovery cache.

use trellis::config::TrellisConfig;
use trellis::trellis::discovery::{
    containerfile_name, select_containerfile, stage_groups, ContainerfileCache,
    ContainerfileDiscovery,
};

fn create_discovery_config() -> TrellisConfig {
    TrellisConfig {
        builder_stages: vec![],
        builder_tag: "test-builder".to_string(),
        podman_build_cache: false,
        auto_clean: false,
        pacman_cache: None,
        aur_cache: None,
        src_dir: "/srv/src".to_string(),
        rootfs_stages: vec![],
        rootfs_base: "scratch".to_string(),
        extra_contexts: vec![],
        extra_mounts: vec![],
        rootfs_tag: "test-rootfs".to_string(),
        hooks_dir: None,
        quiet: false,
    }
}

#[test]
fn test_parse_stage_name_simple() {
    let (group, stage) = ContainerfileDiscovery::parse_stage_name("base");
    assert_eq!(group, "base");
    assert_eq!(stage, "base");
}

#[test]
fn test_parse_stage_name_with_group() {
    let (group, stage) = ContainerfileDiscovery::parse_stage_name("gpu:cuda");
    assert_eq!(group, "gpu");
    assert_eq!(stage, "cuda");
}

#[test]
fn test_parse_stage_name_multiple_colons() {
    let (group, stage) = ContainerfileDiscovery::parse_stage_name("features:gpu:latest");
    assert_eq!(group, "features");
    assert_eq!(stage, "gpu:latest");
}

#[test]
fn test_parse_stage_name_empty() {
    let (group, stage) = ContainerfileDiscovery::parse_stage_name("");
    assert_eq!(group, "");
    assert_eq!(stage, "");
}

#[test]
fn test_parse_stage_name_only_colon() {
    let (group, stage) = ContainerfileDiscovery::parse_stage_name(":");
    assert_eq!(group, "");
    assert_eq!(stage, "");
}

#[test]
fn test_parse_stage_name_leading_colon() {
    let (group, stage) = ContainerfileDiscovery::parse_stage_name(":stage");
    assert_eq!(group, "");
    assert_eq!(stage, "stage");
}

#[test]
fn test_parse_stage_name_trailing_colon() {
    let (group, stage) = ContainerfileDiscovery::parse_stage_name("group:");
    assert_eq!(group, "group");
    assert_eq!(stage, "");
}

#[test]
fn test_validate_stages_all_exist() {
    let config = create_discovery_config();
    let discovery = ContainerfileDiscovery::new(&config);
    let stages = vec!["base".to_string(), "tools".to_string(), "final".to_string()];
    let result = discovery.validate_stages(&stages, &[true, true, true]);
    assert!(result.is_ok());
}

#[test]
fn test_validate_stages_some_missing() {
    let config = create_discovery_config();
    let discovery = ContainerfileDiscovery::new(&config);
    let stages = vec!["base".to_string(), "tools".to_string(), "final".to_string()];
    let result = discovery.validate_stages(&stages, &[true, true, false]);
    assert!(result.is_err());
    let message = result.unwrap_err().message();
    assert!(message.contains("Missing required containerfiles"));
    assert!(message.contains("Containerfile.final"));
}

#[test]
fn test_validate_stages_empty_list() {
    let config = create_discovery_config();
    let discovery = ContainerfileDiscovery::new(&config);
    let stages: Vec<String> = vec![];
    let result = discovery.validate_stages(&stages, &[]);
    assert!(result.is_ok()); // Empty list should be valid
}

#[test]
fn test_validate_stages_mixed_flat_and_nested() {
    let config = create_discovery_config();
    let discovery = ContainerfileDiscovery::new(&config);
    let stages = vec!["base".to_string(), "gpu:cuda".to_string(), "features:debug".to_string()];
    assert_eq!(stage_groups(&stages), vec!["base", "gpu", "features"]);
    let result = discovery.validate_stages(&stages, &[true, true, true]);
    assert!(result.is_ok());
}

#[test]
fn test_validate_stages_nested_syntax_missing() {
    let config = create_discovery_config();
    let discovery = ContainerfileDiscovery::new(&config);
    let stages = vec!["gpu:base".to_string(), "other:cuda".to_string()];
    let result = discovery.validate_stages(&stages, &[true, false]);
    assert!(result.is_err());
    let message = result.unwrap_err().message();
    assert!(message.contains("Missing required containerfiles"));
    assert!(message.contains("Containerfile.other"));
}

#[test]
fn test_validate_stages_error_message_content() {
    let config = create_discovery_config();
    let discovery = ContainerfileDiscovery::new(&config);
    let stages = vec!["base".to_string(), "tools".to_string(), "final".to_string()];
    let result = discovery.validate_stages(&stages, &[true, false, false]);
    assert!(result.is_err());

    let error_message = result.unwrap_err().message();
    assert!(error_message.contains("Missing required containerfiles"));
    assert!(error_message.contains("Containerfile.tools"));
    assert!(error_message.contains("Containerfile.final"));
    // Should not mention "base" since it exists
    assert!(!error_message.contains("Containerfile.base"));
    assert_eq!(
        error_message,
        "Missing required containerfiles: Containerfile.tools, Containerfile.final"
    );
}

#[test]
fn test_find_containerfile_prefers_subdirectory() {
    let candidates = vec![
        ("/srv/src/Containerfile.base".to_string(), 4),
        ("/srv/src/base/Containerfile.base".to_string(), 5),
    ];
    assert_eq!(select_containerfile(&candidates), Some("/srv/src/base/Containerfile.base".to_string()));
}

#[test]
fn test_find_containerfile_deep_nesting() {
    let candidates = vec![
        ("/s/a/Containerfile.x".to_string(), 4),
        ("/s/a/b/c/d/Containerfile.x".to_string(), 7),
        ("/s/a/b/Containerfile.x".to_string(), 5),
    ];
    assert_eq!(select_containerfile(&candidates), Some("/s/a/b/c/d/Containerfile.x".to_string()));
}

#[test]
fn test_find_containerfile_multiple_matches() {
    // Equally deep matches: the first one found is chosen.
    let candidates = vec![("/s/one/Containerfile.x".to_string(), 4), ("/s/two/Containerfile.x".to_string(), 4)];
    assert_eq!(select_containerfile(&candidates), Some("/s/one/Containerfile.x".to_string()));
    assert_eq!(select_containerfile(&[]), None);
}

#[test]
fn containerfile_discovery_tests_test_find_containerfile_not_found() {
    let config = create_discovery_config();
    let discovery = ContainerfileDiscovery::new(&config);
    let result = discovery.choose_containerfile("missing", &[]);
    assert!(result.is_err());
    let message = result.unwrap_err().message();
    assert!(message.contains("Containerfile not found"));
    assert!(message.contains("Containerfile.missing"));
    assert_eq!(containerfile_name("gpu"), "Containerfile.gpu");
}

#[test]
fn unit_tests_test_find_containerfile_not_found() {
    let config = create_discovery_config();
    let discovery = ContainerfileDiscovery::new(&config);
    let result = discovery.choose_containerfile("nonexistent", &[]);
    assert!(result.is_err());
    assert!(result.unwrap_err().message().contains("Containerfile not found"));
}

#[test]
fn trellis_test_find_containerfile_not_found() {
    let config = create_discovery_config();
    let discovery = ContainerfileDiscovery::new(&config);
    let result = discovery.choose_containerfile("nonexistent", &[]);
    assert!(result.unwrap_err().message().contains("Containerfile not found"));
}

#[test]
fn test_discovery_cache_read_after_write() {
    let config = create_discovery_config();
    let mut discovery = ContainerfileDiscovery::new(&config);
    assert_eq!(discovery.cached_containerfile("base", Some(10)), None);
    discovery.remember_containerfile("base".to_string(), "/srv/src/Containerfile.base".to_string());
    assert_eq!(
        discovery.cached_containerfile("base", Some(10)),
        Some("/srv/src/Containerfile.base".to_string())
    );
    // Unchanged or older directory: still valid.
    assert!(discovery.cached_containerfile("base", Some(5)).is_some());
    discovery.forget_containerfile("base");
    assert_eq!(discovery.cached_containerfile("base", Some(10)), None);
}

#[test]
fn test_discovery_cache_dropped_when_directory_changes() {
    let config = create_discovery_config();
    let mut discovery = ContainerfileDiscovery::new(&config);
    let _ = discovery.cached_containerfile("base", Some(10));
    discovery.remember_containerfile("base".to_string(), "/p".to_string());
    // The directory was modified after the results were recorded.
    assert_eq!(discovery.cached_containerfile("base", Some(11)), None);
    // Unknown modification time: nothing cached is trusted.
    discovery.remember_containerfile("base".to_string(), "/p".to_string());
    assert_eq!(discovery.cached_containerfile("base", None), None);
}

#[test]
fn test_containerfile_cache_capacity_and_validity() {
    let mut cache = ContainerfileCache::new();
    assert!(!cache.is_valid(Some(1)));
    cache.update_src_dir_mtime(Some(3));
    assert!(cache.is_valid(Some(3)));
    assert!(cache.is_valid(Some(-4)));
    assert!(!cache.is_valid(Some(4)));
    assert!(!cache.is_valid(None));
    for i in 0..150 {
        cache.put(format!("g{i}"), format!("/p{i}"));
    }
    // The most recent results stay; the oldest were evicted.
    assert_eq!(cache.get("g149"), Some("/p149".to_string()));
    assert_eq!(cache.get("g0"), None);
    cache.invalidate();
    assert_eq!(cache.get("g149"), None);
    assert!(!cache.is_valid(Some(0)));
}
