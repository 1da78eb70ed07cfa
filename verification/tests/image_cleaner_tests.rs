//! Which images a cleanup removes, and how a cleanup goes.

use trellis::config::TrellisConfig;
use trellis::trellis::cleaner::{CleanMode, ImageCleaner, ImageRemoval, RemovalCommand, RemovalStep};
use trellis::trellis::common::{NoteKind, Outcome};

/// What a cleanup did: its result, the podman commands it ran and the
/// notes it showed.
struct Run {
    result: Result<u32, String>,
    commands: Vec<(String, Vec<String>)>,
    notes: Vec<(NoteKind, String)>,
}

/// Runs a cleanup, answering each podman command with `respond`.
fn drive(start: (ImageRemoval, RemovalStep), mut respond: impl FnMut(&str, &[String]) -> Outcome) -> Run {
    let (mut removal, mut step) = start;
    let mut commands = Vec::new();
    let mut notes = Vec::new();
    loop {
        for note in &step.notes {
            notes.push((note.kind, note.text.clone()));
        }
        let outcome = match &step.command {
            RemovalCommand::Finish { removed } => return Run { result: Ok(*removed), commands, notes },
            RemovalCommand::Abort { message, .. } => return Run { result: Err(message.clone()), commands, notes },
            RemovalCommand::ListImages { args } => {
                commands.push(("images".to_string(), args.clone()));
                respond("images", args)
            }
            RemovalCommand::RemoveImages { args } => {
                commands.push(("rmi".to_string(), args.clone()));
                respond("rmi", args)
            }
        };
        assert!(removal.is_running());
        let (next, next_step) = removal.advance(outcome);
        removal = next;
        step = next_step;
    }
}

fn succeeded(text: &str) -> Outcome {
    Outcome::Succeeded(text.to_string())
}

fn create_cleaner_config() -> TrellisConfig {
    TrellisConfig {
        builder_stages: vec!["base".to_string()],
        builder_tag: "test-builder".to_string(),
        podman_build_cache: false,
        auto_clean: false,
        pacman_cache: None,
        aur_cache: None,
        src_dir: "/tmp".to_string(),
        rootfs_stages: vec!["base".to_string()],
        rootfs_base: "scratch".to_string(),
        extra_contexts: vec![],
        extra_mounts: vec![],
        rootfs_tag: "test-rootfs".to_string(),
        hooks_dir: None,
        quiet: false,
    }
}

fn listing(images: &[&str]) -> String {
    let mut out = String::new();
    for image in images {
        out.push_str(image);
        out.push('\n');
    }
    out
}

#[test]
fn test_image_cleaner_creation() {
    let config = create_cleaner_config();
    let cleaner = ImageCleaner::new(&config);
    assert!(!cleaner.auto_clean_enabled());
}

#[test]
fn test_image_filtering_trellis_images() {
    let config = create_cleaner_config();
    let cleaner = ImageCleaner::new(&config);
    let out = listing(&[
        "localhost/test-builder:latest",
        "localhost/test-rootfs:latest",
        "localhost/trellis-builder-base:latest",
        "localhost/trellis-stage-tools:latest",
        "docker.io/ubuntu:latest",
    ]);
    assert_eq!(
        cleaner.images_to_remove(&out, CleanMode::Full),
        vec![
            "localhost/test-builder:latest",
            "localhost/test-rootfs:latest",
            "localhost/trellis-builder-base:latest",
            "localhost/trellis-stage-tools:latest",
        ]
    );
}

#[test]
fn test_image_filtering_non_trellis_images() {
    let config = create_cleaner_config();
    let cleaner = ImageCleaner::new(&config);
    let out = listing(&["docker.io/ubuntu:latest", "quay.io/fedora:39", "registry.example.com/app:v1.0"]);
    assert!(cleaner.images_to_remove(&out, CleanMode::Full).is_empty());
    assert!(cleaner.images_to_remove(&out, CleanMode::Auto).is_empty());
}

#[test]
fn test_custom_builder_and_rootfs_tags() {
    let mut config = create_cleaner_config();
    config.builder_tag = "custom-builder".to_string();
    config.rootfs_tag = "custom-rootfs".to_string();
    let cleaner = ImageCleaner::new(&config);
    let out = listing(&[
        "localhost/custom-builder:latest",
        "localhost/custom-rootfs:latest",
        "localhost/trellis-stage-base:latest",
        "localhost/test-builder:latest",
    ]);
    assert_eq!(
        cleaner.images_to_remove(&out, CleanMode::Full),
        vec![
            "localhost/custom-builder:latest",
            "localhost/custom-rootfs:latest",
            "localhost/trellis-stage-base:latest",
        ]
    );
    assert_eq!(cleaner.expected_builder(), "localhost/custom-builder:latest");
    assert_eq!(cleaner.expected_rootfs(), "localhost/custom-rootfs:latest");
}

#[test]
fn test_clean_mode_full_vs_auto() {
    let mut config = create_cleaner_config();
    config.auto_clean = true;
    let cleaner = ImageCleaner::new(&config);
    assert!(cleaner.auto_clean_enabled());
    let out = listing(&[
        "localhost/test-builder:latest",
        "localhost/test-rootfs:latest",
        "localhost/trellis-stage-intermediate:latest",
    ]);
    assert_eq!(cleaner.images_to_remove(&out, CleanMode::Auto), vec!["localhost/trellis-stage-intermediate:latest"]);
    assert_eq!(cleaner.images_to_remove(&out, CleanMode::Full).len(), 3);
    let auto = drive(cleaner.auto_clean(), |cmd, _| if cmd == "images" { succeeded(&out) } else { succeeded("") });
    assert_eq!(auto.result, Ok(1));
    let full = drive(cleaner.clean_all(), |cmd, _| if cmd == "images" { succeeded(&out) } else { succeeded("") });
    assert_eq!(full.result, Ok(3));
}

#[test]
fn test_empty_image_list() {
    let config = create_cleaner_config();
    let cleaner = ImageCleaner::new(&config);
    assert!(cleaner.images_to_remove("", CleanMode::Full).is_empty());
    assert!(cleaner.images_to_remove("\n\n   \n", CleanMode::Full).is_empty());
    let header = "REPOSITORY\tTAG\tIMAGE ID\tCREATED\tSIZE\n";
    let run = drive(cleaner.clean_all(), |_, _| succeeded(header));
    assert_eq!(run.result, Ok(0));
}

#[test]
fn test_malformed_image_list() {
    let config = create_cleaner_config();
    let cleaner = ImageCleaner::new(&config);
    assert!(cleaner
        .images_to_remove("malformed\nlines\nwithout:proper:format", CleanMode::Full)
        .is_empty());
    let run = drive(cleaner.clean_all(), |_, _| succeeded("malformed\nlines\nwithout:proper:format"));
    assert_eq!(run.result, Ok(0));
}

#[test]
fn test_listing_lines_are_trimmed() {
    let config = create_cleaner_config();
    let cleaner = ImageCleaner::new(&config);
    let out = "  localhost/trellis-stage-a:latest \r\n\tlocalhost/test-rootfs:latest";
    assert_eq!(
        cleaner.images_to_remove(out, CleanMode::Full),
        vec!["localhost/trellis-stage-a:latest", "localhost/test-rootfs:latest"]
    );
}

#[test]
fn test_clean_mode_auto_preserves_final_tags() {
    let mut config = create_cleaner_config();
    config.auto_clean = true;
    let cleaner = ImageCleaner::new(&config);
    let out = listing(&[
        "localhost/test-builder:latest",
        "localhost/test-rootfs:latest",
        "localhost/trellis-stage-intermediate:latest",
        "localhost/trellis-builder-temp:latest",
    ]);
    let removed = cleaner.images_to_remove(&out, CleanMode::Auto);
    assert_eq!(removed, vec!["localhost/trellis-stage-intermediate:latest", "localhost/trellis-builder-temp:latest"]);
    let args = ImageCleaner::removal_args(&removed);
    for arg in &args {
        assert!(!arg.contains("localhost/test-builder:latest"));
        assert!(!arg.contains("localhost/test-rootfs:latest"));
    }
    assert_eq!(args[0], "-f");
    let run = drive(cleaner.auto_clean(), |cmd, args| {
        if cmd == "images" {
            return succeeded(&out);
        }
        for arg in args {
            assert!(!arg.contains("localhost/test-builder:latest"));
            assert!(!arg.contains("localhost/test-rootfs:latest"));
        }
        succeeded("Images removed")
    });
    assert!(run.result.is_ok());
}

#[test]
fn test_should_remove_image_modes() {
    let config = create_cleaner_config();
    let cleaner = ImageCleaner::new(&config);
    let b = "localhost/test-builder:latest";
    let r = "localhost/test-rootfs:latest";
    assert!(cleaner.should_remove_image(b, CleanMode::Full, b, r));
    assert!(!cleaner.should_remove_image(b, CleanMode::Auto, b, r));
    assert!(cleaner.should_remove_image("localhost/trellis-stage-x:1", CleanMode::Auto, b, r));
    assert!(!cleaner.should_remove_image("trellis-stage-x:1", CleanMode::Full, b, r));
}

#[test]
fn test_cleanup_reports() {
    assert_eq!(ImageCleaner::cleanup_report(0), "No trls-generated images found to clean");
    assert_eq!(ImageCleaner::cleanup_report(3), "Cleanup completed - removed 3 images");
    assert_eq!(ImageCleaner::auto_clean_report(0), None);
    assert_eq!(
        ImageCleaner::auto_clean_report(12),
        Some("Auto-cleanup removed 12 intermediate images".to_string())
    );
}

#[test]
fn test_clean_all_success() {
    let config = create_cleaner_config();
    let cleaner = ImageCleaner::new(&config);
    let out = listing(&[
        "localhost/test-builder:latest",
        "localhost/trellis-stage-base:latest",
        "docker.io/library/alpine:latest",
    ]);
    let run = drive(cleaner.clean_all(), |cmd, _| if cmd == "images" { succeeded(&out) } else { succeeded("") });
    assert_eq!(run.result, Ok(2));
    assert_eq!(run.commands.len(), 2);
    assert_eq!(
        run.commands[0],
        ("images".to_string(), vec!["--format".to_string(), "{{.Repository}}:{{.Tag}}".to_string()])
    );
    assert_eq!(
        run.commands[1].1,
        vec!["-f", "localhost/test-builder:latest", "localhost/trellis-stage-base:latest"]
    );
    assert_eq!(run.notes[0], (NoteKind::Info, "Cleaning trls-generated images...".to_string()));
    assert_eq!(run.notes[1], (NoteKind::Info, "Found 2 all trls-generated images to remove".to_string()));
    assert_eq!(run.notes[2], (NoteKind::Info, "Batch removed 2 images".to_string()));
    assert_eq!(run.notes[3], (NoteKind::Info, "Cleanup completed - removed 2 images".to_string()));
}

#[test]
fn test_clean_all_no_images() {
    let config = create_cleaner_config();
    let cleaner = ImageCleaner::new(&config);
    let run = drive(cleaner.clean_all(), |_, _| succeeded(""));
    assert_eq!(run.result, Ok(0));
    assert_eq!(run.commands.len(), 1);
    assert_eq!(run.notes.last().unwrap().1, "No trls-generated images found to clean");
}

#[test]
fn test_auto_clean_disabled() {
    let mut config = create_cleaner_config();
    config.auto_clean = false;
    let cleaner = ImageCleaner::new(&config);
    let run = drive(cleaner.auto_clean(), |_, _| panic!("no command runs when auto-clean is off"));
    assert_eq!(run.result, Ok(0));
    assert!(run.commands.is_empty());
    assert!(run.notes.is_empty());
}

#[test]
fn test_auto_clean_enabled() {
    let mut config = create_cleaner_config();
    config.auto_clean = true;
    let cleaner = ImageCleaner::new(&config);
    let out = listing(&[
        "localhost/test-builder:latest",
        "localhost/trellis-stage-base:latest",
        "localhost/trellis-builder-base:latest",
    ]);
    let run = drive(cleaner.auto_clean(), |cmd, _| if cmd == "images" { succeeded(&out) } else { succeeded("") });
    assert_eq!(run.result, Ok(2));
    assert_eq!(
        run.notes,
        vec![
            (NoteKind::Info, "Found 2 intermediate trls-generated images to remove".to_string()),
            (NoteKind::Info, "Batch removed 2 images".to_string()),
            (NoteKind::Info, "Auto-cleanup removed 2 intermediate images".to_string()),
        ]
    );
}

#[test]
fn test_auto_clean_enabled_no_images() {
    let mut config = create_cleaner_config();
    config.auto_clean = true;
    let cleaner = ImageCleaner::new(&config);
    let run = drive(cleaner.auto_clean(), |_, _| succeeded(""));
    assert_eq!(run.result, Ok(0));
    assert_eq!(run.commands.len(), 1);
    assert!(run.notes.is_empty());
}

#[test]
fn test_clean_with_images_command_failure() {
    let config = create_cleaner_config();
    let cleaner = ImageCleaner::new(&config);
    let run = drive(cleaner.clean_all(), |_, _| Outcome::Unavailable("Images command failed".to_string()));
    assert!(run.result.is_err());
    assert!(run.result.unwrap_err().contains("Failed to list podman images"));
}

#[test]
fn test_clean_with_rmi_command_failure() {
    let config = create_cleaner_config();
    let cleaner = ImageCleaner::new(&config);
    let out = listing(&["localhost/test-builder:latest", "localhost/trellis-stage-base:latest"]);
    let run = drive(cleaner.clean_all(), |cmd, _| {
        if cmd == "images" {
            succeeded(&out)
        } else {
            Outcome::Unavailable("RMI command failed".to_string())
        }
    });
    assert!(run.result.is_err());
    assert!(run.result.unwrap_err().contains("Failed to remove image"));
}

#[test]
fn test_images_command_stderr_output() {
    let config = create_cleaner_config();
    let cleaner = ImageCleaner::new(&config);
    let run = drive(cleaner.clean_all(), |_, _| Outcome::Failed("Images command error".to_string()));
    assert!(run.result.is_err());
    let message = run.result.unwrap_err();
    assert!(message.contains("Failed to list images"));
    assert_eq!(message, "Failed to list images: Images command error");
}

#[test]
fn test_batch_removal_with_fallback_to_individual() {
    let config = create_cleaner_config();
    let cleaner = ImageCleaner::new(&config);
    let out = listing(&["localhost/test-builder:latest", "localhost/trellis-stage-base:latest"]);
    let mut call_count = 0;
    let run = drive(cleaner.clean_all(), |cmd, args| {
        if cmd == "images" {
            return succeeded(&out);
        }
        call_count += 1;
        if call_count == 1 && args.len() > 2 {
            Outcome::Failed("Batch removal failed".to_string())
        } else {
            succeeded("Image removed")
        }
    });
    assert_eq!(run.result, Ok(2));
    assert_eq!(call_count, 3);
    assert_eq!(run.commands[2].1, vec!["-f", "localhost/test-builder:latest"]);
    assert_eq!(run.commands[3].1, vec!["-f", "localhost/trellis-stage-base:latest"]);
    assert!(run.notes.contains(&(NoteKind::Info, "Batch removal failed: Batch removal failed".to_string())));
    assert!(run.notes.contains(&(NoteKind::Info, "Trying individual removal...".to_string())));
}

#[test]
fn test_single_image_removal_success() {
    let config = create_cleaner_config();
    let cleaner = ImageCleaner::new(&config);
    let out = listing(&["localhost/trellis-stage-base:latest"]);
    let run = drive(cleaner.clean_all(), |cmd, _| if cmd == "images" { succeeded(&out) } else { succeeded("Image removed") });
    assert_eq!(run.result, Ok(1));
    assert_eq!(run.commands.len(), 2);
    assert_eq!(run.commands[1].1, vec!["-f", "localhost/trellis-stage-base:latest"]);
    assert!(run.notes.contains(&(NoteKind::Info, "Removed image: localhost/trellis-stage-base:latest".to_string())));
}

#[test]
fn test_single_image_removal_failure() {
    let config = create_cleaner_config();
    let cleaner = ImageCleaner::new(&config);
    let out = listing(&["localhost/trellis-stage-base:latest"]);
    let run = drive(cleaner.clean_all(), |cmd, _| {
        if cmd == "images" {
            succeeded(&out)
        } else {
            Outcome::Failed("Image removal failed".to_string())
        }
    });
    assert_eq!(run.result, Ok(0));
    assert_eq!(run.commands.len(), 2);
    assert!(run.notes.contains(&(
        NoteKind::Warning,
        "Failed to remove image localhost/trellis-stage-base:latest: Image removal failed".to_string()
    )));
    assert_eq!(run.notes.last().unwrap().1, "No trls-generated images found to clean");
}

#[test]
fn test_batch_removal_command_error_fallback() {
    let config = create_cleaner_config();
    let cleaner = ImageCleaner::new(&config);
    let out = listing(&["localhost/test-builder:latest", "localhost/trellis-stage-base:latest"]);
    let mut call_count = 0;
    let run = drive(cleaner.clean_all(), |cmd, args| {
        if cmd == "images" {
            return succeeded(&out);
        }
        call_count += 1;
        if call_count == 1 && args.len() > 2 {
            Outcome::Unavailable("Command execution failed".to_string())
        } else {
            succeeded("Image removed")
        }
    });
    assert_eq!(run.result, Ok(2));
    assert_eq!(call_count, 3);
    assert!(run.notes.contains(&(
        NoteKind::Warning,
        "Failed to execute batch removal: Command execution failed".to_string()
    )));
}

#[test]
fn test_one_by_one_counts_only_successes() {
    let config = create_cleaner_config();
    let cleaner = ImageCleaner::new(&config);
    let out = listing(&[
        "localhost/trellis-stage-a:latest",
        "localhost/trellis-stage-b:latest",
        "localhost/trellis-stage-c:latest",
    ]);
    let run = drive(cleaner.clean_all(), |cmd, args| {
        if cmd == "images" {
            succeeded(&out)
        } else if args.len() > 2 || args[1].contains("-b:") {
            Outcome::Failed("in use".to_string())
        } else {
            succeeded("")
        }
    });
    assert_eq!(run.result, Ok(2));
    assert_eq!(run.notes.last().unwrap().1, "Cleanup completed - removed 2 images");
}

#[test]
fn test_batch_image_removal() {
    let config = create_cleaner_config();
    let cleaner = ImageCleaner::new(&config);
    let out = listing(&[
        "localhost/test-builder:latest",
        "localhost/test-rootfs:latest",
        "localhost/trellis-builder-base:latest",
        "localhost/trellis-stage-tools:latest",
        "localhost/trellis-stage-final:latest",
    ]);
    let mut rmi_calls = 0;
    let run = drive(cleaner.clean_all(), |cmd, _| {
        if cmd == "images" {
            succeeded(&out)
        } else {
            rmi_calls += 1;
            succeeded("Multiple images removed")
        }
    });
    assert!(run.result.is_ok());
    assert_eq!(rmi_calls, 1);
    assert_eq!(run.commands[1].1.len(), 6);
    assert_eq!(run.result, Ok(5));
}

#[test]
fn test_cleaner_with_malformed_image_output() {
    let config = create_cleaner_config();
    let cleaner = ImageCleaner::new(&config);
    let run = drive(cleaner.clean_all(), |_, _| succeeded("malformed\nimage\nlist"));
    assert!(run.result.is_ok());
    assert_eq!(run.commands.len(), 1);
}

#[test]
fn test_cleaner_with_special_character_image_names() {
    let config = create_cleaner_config();
    let cleaner = ImageCleaner::new(&config);
    let out = listing(&["localhost/test-image!@#$%:latest", "localhost/测试镜像:v1.0", "localhost/image with spaces:latest"]);
    let run = drive(cleaner.clean_all(), |cmd, _| if cmd == "images" { succeeded(&out) } else { succeeded("Images removed") });
    assert!(run.result.is_ok());
    assert_eq!(run.result, Ok(0));
}
