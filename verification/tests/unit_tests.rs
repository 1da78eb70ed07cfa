//! Configuration defaults and merging.

use trellis::cli::{Cli, Commands};
use trellis::config::{BuildConfig, Config, ConfigError, EnvironmentConfig, TrellisConfig};
use trellis::trellis::builder::{BuildType, ContainerBuilder};

fn create_test_cli() -> Cli {
    Cli {
        command: Commands::Build,
        builder_tag: "test-builder".to_string(),
        podman_build_cache: None,
        auto_clean: false,
        pacman_cache: None,
        aur_cache: None,
        src_dir: None,
        extra_contexts: vec![],
        extra_mounts: vec![],
        rootfs_stages: vec![],
        rootfs_base: "scratch".to_string(),
        rootfs_tag: "test-rootfs".to_string(),
        builder_stages: vec![],
        quiet: false,
    }
}

/// The configuration trellis uses when no configuration file exists.
fn no_file() -> Config {
    Config::default()
}

fn config_with_base(rootfs_base: &str, stages: &[&str]) -> TrellisConfig {
    TrellisConfig {
        builder_stages: vec![],
        builder_tag: "test-builder".to_string(),
        podman_build_cache: false,
        auto_clean: false,
        pacman_cache: None,
        aur_cache: None,
        src_dir: "/tmp".to_string(),
        rootfs_stages: stages.iter().map(|s| s.to_string()).collect(),
        rootfs_base: rootfs_base.to_string(),
        extra_contexts: vec![],
        extra_mounts: vec![],
        rootfs_tag: "test-rootfs".to_string(),
        hooks_dir: None,
        quiet: false,
    }
}

fn empty_build_config() -> BuildConfig {
    BuildConfig {
        builder_stages: None,
        rootfs_stages: None,
        rootfs_base: None,
        builder_tag: None,
        rootfs_tag: None,
        podman_build_cache: None,
        auto_clean: None,
        extra_contexts: None,
        extra_mounts: None,
    }
}

#[test]
fn test_config_default() {
    let config = Config::default();
    assert!(config.build.is_some());
    assert!(config.environment.is_some());

    let build = config.build.unwrap();
    assert_eq!(build.builder_tag, Some("trellis-builder".to_string()));
    assert_eq!(build.rootfs_tag, Some("trellis-rootfs".to_string()));
    assert_eq!(build.rootfs_base, Some("scratch".to_string()));
    assert_eq!(build.podman_build_cache, Some(false));
}

#[test]
fn test_rootfs_base_default_value() {
    let cli = create_test_cli();
    let config = TrellisConfig::new(cli, no_file(), false).unwrap();

    // Default value should be "scratch"
    assert_eq!(config.rootfs_base, "scratch");
}

#[test]
fn test_rootfs_base_cli_override() {
    let mut cli = create_test_cli();
    cli.rootfs_base = "alpine:latest".to_string();

    let config = TrellisConfig::new(cli, no_file(), false).unwrap();

    // CLI value should override default
    assert_eq!(config.rootfs_base, "alpine:latest");
}

#[test]
fn test_trellis_config_with_defaults() {
    let cli = create_test_cli();
    let config = TrellisConfig::new(cli, no_file(), false).unwrap();

    // CLI values should override defaults when they differ from defaults
    assert_eq!(config.builder_tag, "test-builder");
    assert_eq!(config.rootfs_tag, "test-rootfs");
    assert!(!config.podman_build_cache);
}

#[test]
fn test_trellis_config_with_cli_overrides() {
    let mut cli = create_test_cli();
    cli.builder_stages = vec!["stage1".to_string(), "stage2".to_string()];
    cli.rootfs_stages = vec!["base".to_string(), "final".to_string()];
    cli.podman_build_cache = Some(true);

    let config = TrellisConfig::new(cli, no_file(), false).unwrap();

    assert_eq!(config.builder_stages, vec!["stage1", "stage2"]);
    assert_eq!(config.rootfs_stages, vec!["base", "final"]);
    assert!(config.podman_build_cache);
}

#[test]
fn test_trellis_config_with_file() {
    // The values of a file with stages, base, tags and cache settings.
    let file = Config {
        build: Some(BuildConfig {
            builder_stages: Some(vec!["builder1".to_string(), "builder2".to_string()]),
            rootfs_stages: Some(vec!["base".to_string(), "apps".to_string()]),
            rootfs_base: Some("ubuntu:22.04".to_string()),
            builder_tag: Some("file-builder".to_string()),
            rootfs_tag: Some("file-rootfs".to_string()),
            podman_build_cache: Some(true),
            ..empty_build_config()
        }),
        environment: None,
    };
    let mut cli = create_test_cli();
    cli.builder_tag = "trellis-builder".to_string();
    cli.rootfs_tag = "trellis-rootfs".to_string();

    let config = TrellisConfig::new(cli, file, false).unwrap();
    assert_eq!(config.builder_stages, vec!["builder1", "builder2"]);
    assert_eq!(config.rootfs_stages, vec!["base", "apps"]);
    assert_eq!(config.rootfs_base, "ubuntu:22.04");
    assert_eq!(config.builder_tag, "file-builder");
    assert_eq!(config.rootfs_tag, "file-rootfs");
    assert!(config.podman_build_cache);
    assert_eq!(config.src_dir, "/var/lib/trellis/src");
}

#[test]
fn test_rootfs_base_cli_overrides_config() {
    let file = Config {
        build: Some(BuildConfig { rootfs_base: Some("ubuntu:20.04".to_string()), ..empty_build_config() }),
        environment: None,
    };
    assert_eq!(file.build.as_ref().unwrap().rootfs_base, Some("ubuntu:20.04".to_string()));

    // CLI should override this value
    let mut cli = create_test_cli();
    cli.rootfs_base = "alpine:edge".to_string();

    let trellis_config = TrellisConfig::new(cli, file, false).unwrap();

    // CLI value should take precedence
    assert_eq!(trellis_config.rootfs_base, "alpine:edge");
}

#[test]
fn test_rootfs_base_empty_config_uses_default() {
    let file = Config {
        build: Some(BuildConfig { builder_tag: Some("test".to_string()), ..empty_build_config() }),
        environment: None,
    };
    assert_eq!(file.build.as_ref().unwrap().rootfs_base, None);

    // When no config file value and CLI uses default, should get "scratch"
    let cli = create_test_cli();
    let trellis_config = TrellisConfig::new(cli, file, false).unwrap();
    assert_eq!(trellis_config.rootfs_base, "scratch");
}

#[test]
fn test_auto_clean_config() {
    let mut cli = create_test_cli();
    cli.auto_clean = true;
    let config = TrellisConfig::new(cli, no_file(), false).unwrap();
    assert!(config.auto_clean);

    let file = Config {
        build: Some(BuildConfig { auto_clean: Some(true), ..empty_build_config() }),
        environment: None,
    };
    let config = TrellisConfig::new(create_test_cli(), file, false).unwrap();
    assert!(config.auto_clean);

    let config = TrellisConfig::new(create_test_cli(), no_file(), false).unwrap();
    assert!(!config.auto_clean);
}

#[test]
fn test_file_with_empty_stage_lists_is_refused() {
    let file = Config {
        build: Some(BuildConfig { builder_stages: Some(vec![]), ..empty_build_config() }),
        environment: None,
    };
    let err = TrellisConfig::new(create_test_cli(), file, false).unwrap_err();
    assert_eq!(err, ConfigError::EmptyFileBuilderStages);
    assert_eq!(err.message(), "Builder stages cannot be empty");

    let file = Config {
        build: Some(BuildConfig { rootfs_stages: Some(vec![]), ..empty_build_config() }),
        environment: None,
    };
    let err = TrellisConfig::new(create_test_cli(), file, false).unwrap_err();
    assert_eq!(err.message(), "Rootfs stages cannot be empty");
}

#[test]
fn test_environment_paths_and_hooks() {
    let file = Config {
        build: None,
        environment: Some(EnvironmentConfig {
            pacman_cache: Some("/tmp/test-pacman".to_string()),
            aur_cache: Some("/tmp/test-aur".to_string()),
            src_dir: Some("/srv/stages".to_string()),
            hooks_dir: Some("/srv/hooks".to_string()),
        }),
    };
    let mut cli = create_test_cli();
    cli.aur_cache = Some("/cli/aur".to_string());
    let config = TrellisConfig::new(cli, file.clone(), true).unwrap();
    assert_eq!(config.pacman_cache, Some("/tmp/test-pacman".to_string()));
    assert_eq!(config.aur_cache, Some("/cli/aur".to_string()));
    assert_eq!(config.src_dir, "/srv/stages");
    assert_eq!(config.hooks_dir, Some("/srv/hooks".to_string()));
    assert_eq!(TrellisConfig::hooks_dir_candidate(file.environment.as_ref()), "/srv/hooks");

    let config = TrellisConfig::new(create_test_cli(), file, false).unwrap();
    assert_eq!(config.hooks_dir, None);
}

#[test]
fn test_default_file_gives_default_caches() {
    let config = TrellisConfig::new(create_test_cli(), no_file(), true).unwrap();
    assert_eq!(config.pacman_cache, Some("/var/cache/pacman/pkg".to_string()));
    assert_eq!(config.aur_cache, Some("/var/cache/trellis/aur".to_string()));
    assert_eq!(config.hooks_dir, Some("/etc/trellis/hooks.d".to_string()));
    assert_eq!(config.src_dir, "/var/lib/trellis/src");
}

#[test]
fn test_rootfs_base_functionality_first_stage() {
    let config = config_with_base("ubuntu:22.04", &["base"]);
    let builder = ContainerBuilder::new(&config);

    // Test first stage (empty last_stage) for rootfs build
    let base_image = builder.determine_base_image(0, BuildType::Rootfs, "");
    assert_eq!(base_image, "ubuntu:22.04");

    // Test first stage (empty last_stage) for builder build
    let base_image = builder.determine_base_image(0, BuildType::Builder, "");
    assert_eq!(base_image, "scratch");
}

#[test]
fn test_rootfs_base_functionality_subsequent_stages() {
    let config = config_with_base("alpine:latest", &["base", "tools"]);
    let builder = ContainerBuilder::new(&config);

    let base_image = builder.determine_base_image(1, BuildType::Rootfs, "trellis-stage-base");
    assert_eq!(base_image, "localhost/trellis-stage-base");

    let base_image = builder.determine_base_image(1, BuildType::Builder, "trellis-builder-base");
    assert_eq!(base_image, "localhost/trellis-builder-base");
}

#[test]
fn test_rootfs_base_with_default_scratch() {
    let config = config_with_base("scratch", &["base"]);
    let builder = ContainerBuilder::new(&config);
    let base_image = builder.determine_base_image(0, BuildType::Rootfs, "");
    assert_eq!(base_image, "scratch");
}

#[test]
fn test_rootfs_base_with_custom_images() {
    let test_cases = vec![
        "fedora:39",
        "archlinux:latest",
        "registry.example.com/custom:v1.0",
        "localhost/my-custom-base:latest",
    ];

    for base_image_value in test_cases {
        let config = config_with_base(base_image_value, &["base"]);
        let builder = ContainerBuilder::new(&config);
        let result = builder.determine_base_image(0, BuildType::Rootfs, "");
        assert_eq!(result, base_image_value, "Failed for base image: {base_image_value}");
    }
}
