//! Image references and disk image command lines.

use trellis::config::TrellisConfig;
use trellis::trellis::common::Outcome;
use trellis::trellis::image_generator::{
    bootc_install_args_for, calculate_disk_size, copy_contents_args, disk_size_gb, fallocate_args_for,
    get_image_size_bytes, image_config, image_listed, image_listing_args_for, loop_setup_args,
    generation_steps, install_result, mkfs_check_args_for, mkfs_check_result, plan_image_file,
    resolve_image_tag, root_partition, GenerationStep, SizingError,
};

/// Create a minimal TrellisConfig for testing.
fn create_test_config() -> TrellisConfig {
    TrellisConfig {
        builder_stages: vec!["base".to_string()],
        builder_tag: "test-builder".to_string(),
        podman_build_cache: false,
        auto_clean: false,
        pacman_cache: None,
        aur_cache: None,
        src_dir: "/tmp".to_string(),
        rootfs_stages: vec!["base".to_string()],
        rootfs_base: "scratch".to_string(),
        extra_contexts: vec![],
        extra_mounts: vec![],
        rootfs_tag: "trellis-rootfs".to_string(),
        hooks_dir: None,
        quiet: false,
    }
}

#[test]
fn resolve_image_tag_full_path_with_version() {
    let config = create_test_config();
    let result = resolve_image_tag(&config, Some("registry.io/my-image:v1"));
    assert_eq!(result, "registry.io/my-image:v1");
}

#[test]
fn resolve_image_tag_full_path_no_version() {
    let config = create_test_config();
    let result = resolve_image_tag(&config, Some("registry.io/my-image"));
    assert_eq!(result, "registry.io/my-image:latest");
}

#[test]
fn resolve_image_tag_with_version_no_registry() {
    let config = create_test_config();
    let result = resolve_image_tag(&config, Some("my-image:v1"));
    assert_eq!(result, "localhost/my-image:v1");
}

#[test]
fn resolve_image_tag_name_only() {
    let config = create_test_config();
    let result = resolve_image_tag(&config, Some("my-image"));
    assert_eq!(result, "localhost/my-image:latest");
}

#[test]
fn resolve_image_tag_none_uses_config() {
    let config = create_test_config();
    let result = resolve_image_tag(&config, None);
    assert_eq!(result, "localhost/trellis-rootfs:latest");
}

#[test]
fn resolve_image_tag_complex_registry() {
    let config = create_test_config();
    let result = resolve_image_tag(&config, Some("quay.io/org/my-image:latest"));
    assert_eq!(result, "quay.io/org/my-image:latest");
}

#[test]
fn resolve_image_tag_complex_registry_no_tag() {
    let config = create_test_config();
    let result = resolve_image_tag(&config, Some("quay.io/org/my-image"));
    assert_eq!(result, "quay.io/org/my-image:latest");
}

#[test]
fn resolve_image_tag_is_idempotent_on_examples() {
    let config = create_test_config();
    for input in [None, Some("my-image"), Some("my-image:v1"), Some("registry.io/x"), Some("a/b:c")] {
        let once = resolve_image_tag(&config, input);
        let twice = resolve_image_tag(&config, Some(once.as_str()));
        assert_eq!(once, twice);
        assert!(once.contains('/') && once.contains(':'));
    }
}

#[test]
fn image_listing_and_detection() {
    assert_eq!(
        image_listing_args_for("localhost/x:latest"),
        vec!["--filter", "reference=localhost/x:latest", "--format", "{{.Repository}}:{{.Tag}}"]
    );
    assert!(!image_listed(""));
    assert!(!image_listed("  \n\t\n"));
    assert!(image_listed("localhost/x:latest\n"));
}

#[test]
fn fallocate_arguments_give_size_in_gigabytes() {
    assert_eq!(fallocate_args_for("/out/disk.img", 20), vec!["-l", "20G", "/out/disk.img"]);
    assert_eq!(fallocate_args_for("d.img", 0), vec!["-l", "0G", "d.img"]);
    assert_eq!(
        fallocate_args_for("d.img", u64::MAX),
        vec!["-l", "18446744073709551615G", "d.img"]
    );
}

#[test]
fn mkfs_check_arguments() {
    assert_eq!(
        mkfs_check_args_for("img"),
        vec!["run", "--rm", "img", "sh", "-c", "which mkfs.fat || which mkfs.vfat"]
    );
}

#[test]
fn bootc_install_arguments_with_and_without_selinux() {
    let with = bootc_install_args_for("localhost/r:latest", "/out", "disk.img", "ext4", true);
    assert_eq!(&with[..5], &["--rm", "--privileged", "--pid=host", "-v", "/sys/fs/selinux:/sys/fs/selinux"]);
    assert!(with.contains(&"/out:/data".to_string()));
    assert!(with.contains(&"/data/disk.img".to_string()));
    assert_eq!(with.last().unwrap(), "systemd");
    let without = bootc_install_args_for("localhost/r:latest", "/out", "disk.img", "xfs", false);
    assert_eq!(without.len() + 2, with.len());
    assert!(!without.contains(&"/sys/fs/selinux:/sys/fs/selinux".to_string()));
    let fs_pos = without.iter().position(|a| a == "--filesystem").unwrap();
    assert_eq!(without[fs_pos + 1], "xfs");
}

#[test]
fn injected_configuration_carries_build_values() {
    let mut config = create_test_config();
    config.builder_stages = vec!["b1".to_string(), "b2".to_string()];
    config.rootfs_stages = vec!["base".to_string(), "apps".to_string()];
    let c = image_config(&config);
    let build = c.build.unwrap();
    assert_eq!(build.builder_stages, Some(vec!["b1".to_string(), "b2".to_string()]));
    assert_eq!(build.rootfs_stages, Some(vec!["base".to_string(), "apps".to_string()]));
    assert_eq!(build.builder_tag, Some("test-builder".to_string()));
    assert_eq!(build.rootfs_tag, Some("trellis-rootfs".to_string()));
    assert_eq!(build.rootfs_base, Some("scratch".to_string()));
    let env = c.environment.unwrap();
    assert_eq!(env.src_dir, Some("/var/lib/trellis/stages".to_string()));
}

#[test]
fn loop_device_helpers() {
    assert_eq!(loop_setup_args("/d.img"), vec!["--find", "--show", "--partscan", "/d.img"]);
    assert_eq!(root_partition("/dev/loop0"), "/dev/loop0p3");
    assert_eq!(copy_contents_args("/src", "/mnt/x"), vec!["-r", "/src/.", "/mnt/x"]);
}

fn inspect_output(bytes: u64) -> Outcome {
    Outcome::Succeeded(format!(r#"[{{"Size": {}}}]"#, bytes))
}

#[test]
fn get_image_size_bytes_parses_valid_size() {
    let size = get_image_size_bytes(r#"[{"Size": 1073741824}]"#);
    assert_eq!(size, Some(1_073_741_824), "Should correctly parse image size");
}

#[test]
fn calculate_disk_size_small_image() {
    // 500MB + 1GB = 1.5GB, rounds up to 2GB minimum
    assert_eq!(calculate_disk_size(inspect_output(536870912)).ok(), Some(2));
}

#[test]
fn calculate_disk_size_larger_image() {
    // 3GB + 1GB = 4GB exactly
    assert_eq!(calculate_disk_size(inspect_output(3221225472)).ok(), Some(4));
}

#[test]
fn calculate_disk_size_rounds_up() {
    // 2.5GB + 1GB = 3.5GB, rounds up to 4GB
    let two_point_five_gb = (2.5 * 1_073_741_824.0) as u64;
    assert_eq!(calculate_disk_size(inspect_output(two_point_five_gb)).ok(), Some(4));
}

#[test]
fn calculate_disk_size_adds_1gb_buffer() {
    let five_gb = 5_u64 * 1_073_741_824;
    assert_eq!(calculate_disk_size(inspect_output(five_gb)).ok(), Some(6));
}

#[test]
fn calculate_disk_size_enforces_minimum() {
    // 100MB + 1GB = 1.1GB, but at least 2GB
    assert_eq!(calculate_disk_size(inspect_output(100_000_000)).ok(), Some(2));
}

#[test]
fn calculate_disk_size_very_large_image() {
    let fifty_gb = 50_u64 * 1_073_741_824;
    assert_eq!(calculate_disk_size(inspect_output(fifty_gb)).ok(), Some(51));
}

#[test]
fn calculate_disk_size_fractional_bytes() {
    // 1.7GB + 1GB = 2.7GB, rounds up to 3GB
    let one_point_seven_gb = (1.7 * 1_073_741_824.0) as u64;
    assert_eq!(calculate_disk_size(inspect_output(one_point_seven_gb)).ok(), Some(3));
}

#[test]
fn calculate_disk_size_error_on_invalid_image_size() {
    let result = calculate_disk_size(Outcome::Failed("Image not found".to_string()));
    assert!(result.is_err(), "Should return error when image inspection fails");
    assert_eq!(result.err().unwrap().message(), "Failed to inspect image: Image not found");
}

#[test]
fn calculate_disk_size_error_on_invalid_size_format() {
    let result = calculate_disk_size(Outcome::Succeeded(r#"[{"Size": "not-a-number"}]"#.to_string()));
    assert!(result.is_err(), "Should return error when size cannot be parsed");
    assert!(matches!(result, Err(SizingError::UnreadableSize)));
}

#[test]
fn generate_bootable_image_automatic_sizing_uses_correct_size() {
    // 2.5GB + 1GB = 3.5GB, rounds up to 4GB
    assert_eq!(calculate_disk_size(inspect_output(2684354560)).ok(), Some(4));
}

#[test]
fn test_image_size_parsing_edges() {
    assert_eq!(get_image_size_bytes("[\n  {\n    \"Id\": \"abc\",\n    \"Size\" :\t42,\n    \"VirtualSize\": 7\n  }\n]"), Some(42));
    assert_eq!(get_image_size_bytes(r#"[{"VirtualSize": 42}]"#), None);
    assert_eq!(get_image_size_bytes(r#"[{"Size": 18446744073709551615}]"#), Some(u64::MAX));
    assert_eq!(get_image_size_bytes(r#"[{"Size": 18446744073709551616}]"#), None);
    assert_eq!(get_image_size_bytes(""), None);
    assert_eq!(disk_size_gb(0), 2);
    assert_eq!(disk_size_gb(1_073_741_824), 2);
    assert_eq!(disk_size_gb(1_073_741_825), 3);
    assert_eq!(disk_size_gb(u64::MAX), 17_179_869_185);
}

#[test]
fn test_mkfs_check_passes_when_a_path_is_printed() {
    assert_eq!(mkfs_check_result("localhost/img:latest", Outcome::Succeeded("/usr/bin/mkfs.fat\n".to_string())), Ok(()));
}

#[test]
fn test_mkfs_check_fails_on_blank_output_or_failure() {
    let expected = "Required filesystem tool mkfs.fat (or mkfs.vfat) not found in image 'localhost/img:latest'. Please install dosfstools or provide an image with mkfs.fat available.".to_string();
    assert_eq!(mkfs_check_result("localhost/img:latest", Outcome::Succeeded("  \n".to_string())), Err(expected.clone()));
    assert_eq!(mkfs_check_result("localhost/img:latest", Outcome::Failed("exit 1".to_string())), Err(expected));
    assert_eq!(
        mkfs_check_result("localhost/img:latest", Outcome::Unavailable("podman: not found".to_string())),
        Err("podman: not found".to_string())
    );
}

#[test]
fn test_install_result_messages() {
    assert_eq!(install_result(true, Outcome::Succeeded(String::new())), Ok(()));
    assert_eq!(
        install_result(true, Outcome::Failed("no space left".to_string())),
        Err("Bootc install failed: no space left".to_string())
    );
    assert_eq!(
        install_result(false, Outcome::Failed("Some(1)".to_string())),
        Err("Bootc install failed with exit code: Some(1)".to_string())
    );
    assert_eq!(install_result(false, Outcome::Unavailable("spawn failed".to_string())), Err("spawn failed".to_string()));
}

#[test]
fn test_plan_image_file_keeps_an_existing_file() {
    assert_eq!(
        plan_image_file("/out/disk.img", 20, true),
        ("Image file already exists: /out/disk.img".to_string(), None)
    );
    assert_eq!(
        plan_image_file("/out/disk.img", 20, false),
        (
            "Creating 20GB image file: /out/disk.img".to_string(),
            Some(vec!["-l".to_string(), "20G".to_string(), "/out/disk.img".to_string()])
        )
    );
}

#[test]
fn test_generation_steps_in_order() {
    assert_eq!(
        generation_steps(true),
        vec![
            GenerationStep::CheckImage,
            GenerationStep::CreateImageFile,
            GenerationStep::InstallSystem,
            GenerationStep::InjectConfiguration,
        ]
    );
    assert_eq!(generation_steps(false)[1], GenerationStep::SizeDisk);
    assert_eq!(generation_steps(false).len(), 5);
}
