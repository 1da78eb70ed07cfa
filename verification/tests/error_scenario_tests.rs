//! Error scenarios of configuration, discovery and cleanup decisions.

use trellis::config::{ConfigValidator, TrellisConfig};
use trellis::trellis::cleaner::ImageCleaner;
use trellis::trellis::discovery::ContainerfileDiscovery;

fn config_with_tags(builder_tag: &str, rootfs_tag: &str) -> TrellisConfig {
    TrellisConfig {
        builder_stages: vec![],
        builder_tag: builder_tag.to_string(),
        podman_build_cache: false,
        auto_clean: false,
        pacman_cache: None,
        aur_cache: None,
        src_dir: "/tmp".to_string(),
        rootfs_stages: vec![],
        rootfs_base: "scratch".to_string(),
        extra_contexts: vec![],
        extra_mounts: vec![],
        rootfs_tag: rootfs_tag.to_string(),
        hooks_dir: None,
        quiet: false,
    }
}

#[test]
fn test_image_filtering_logic() {
    let config = config_with_tags("custom-builder", "custom-rootfs");

    let _cleaner = ImageCleaner::new(&config);

    // The configuration is set up as the cleaner reads it
    assert_eq!(config.builder_tag, "custom-builder");
    assert_eq!(config.rootfs_tag, "custom-rootfs");
}

#[test]
fn test_stage_name_parsing() {
    let test_cases = vec![
        ("base", ("base", "base")),
        ("gpu:cuda", ("gpu", "cuda")),
        ("features:debug:extra", ("features", "debug:extra")),
        ("", ("", "")),
    ];
    for (input, (group, stage)) in test_cases {
        let (g, s) = ContainerfileDiscovery::parse_stage_name(input);
        assert_eq!(g, group, "group of {input}");
        assert_eq!(s, stage, "stage of {input}");
    }
}

#[test]
fn test_empty_stages_validation() {
    let config = config_with_tags("b", "r");
    let builder = ConfigValidator::validate_stages(&config.builder_stages, "builder");
    assert!(builder.unwrap_err().message().contains("No builder stages defined"));
    let rootfs = ConfigValidator::validate_stages(&config.rootfs_stages, "rootfs");
    assert!(rootfs.unwrap_err().message().contains("No rootfs stages defined"));
}

#[test]
fn test_stage_validation_with_missing_files() {
    let config = config_with_tags("b", "r");
    let discovery = ContainerfileDiscovery::new(&config);
    let stages = vec!["base".to_string(), "missing".to_string()];
    let err = discovery.validate_stages(&stages, &[true, false]).unwrap_err();
    let message = err.message();
    assert!(message.contains("Missing required containerfiles"));
    assert!(message.contains("Containerfile.missing"));
    assert!(!message.contains("Containerfile.base"));
}

#[test]
fn test_missing_containerfile_error() {
    let config = config_with_tags("b", "r");
    let discovery = ContainerfileDiscovery::new(&config);
    let err = discovery.choose_containerfile("nonexistent", &[]).unwrap_err();
    let message = err.message();
    assert!(message.starts_with("Containerfile not found: Containerfile.nonexistent"));
    assert!(message.contains("searched recursively in /tmp"));
    assert!(message.ends_with("Use 'find /tmp -name \"Containerfile.nonexistent\"' to verify file location."));
}
