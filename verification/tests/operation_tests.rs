//! The build operations: builder build, rootfs build, update and disk image
//! generation, and what a failed step leads to.

use trellis::config::TrellisConfig;
use trellis::trellis::common::{NoteKind, Outcome};
use trellis::trellis::operation::{Goal, Operation, OperationCommand};

fn create_test_config() -> TrellisConfig {
    TrellisConfig {
        builder_stages: vec!["base".to_string()],
        builder_tag: "test-builder".to_string(),
        podman_build_cache: false,
        auto_clean: true,
        pacman_cache: None,
        aur_cache: None,
        src_dir: "/srv/src".to_string(),
        rootfs_stages: vec!["base".to_string(), "final".to_string()],
        rootfs_base: "scratch".to_string(),
        extra_contexts: vec![],
        extra_mounts: vec![],
        rootfs_tag: "test-rootfs".to_string(),
        hooks_dir: None,
        quiet: false,
    }
}

/// What an operation did: its result, the commands it issued (as text) and
/// the notes it showed.
struct Run {
    result: Result<(), String>,
    commands: Vec<String>,
    notes: Vec<(NoteKind, String)>,
}

fn render(command: &OperationCommand) -> String {
    match command {
        OperationCommand::ListBuilderImage { args } => format!("images {}", args.join(" ")),
        OperationCommand::Ask { question } => format!("ask {question}"),
        OperationCommand::BuildStages { tmp_name, final_tag, stages, .. } => {
            format!("build {tmp_name} {final_tag} {}", stages.join(","))
        }
        OperationCommand::AutoClean => "auto-clean".to_string(),
        OperationCommand::BootcUpgrade => "bootc-upgrade".to_string(),
        OperationCommand::GenerateImage { image_tag } => format!("image {image_tag}"),
        OperationCommand::Finish => "finish".to_string(),
        OperationCommand::Abort { message, .. } => format!("abort {message}"),
    }
}

/// Runs an operation, answering each command with `respond`.
fn drive(
    config: &TrellisConfig,
    goal: Goal,
    build_image: bool,
    cli_image: Option<&str>,
    mut respond: impl FnMut(&str) -> Outcome,
) -> Run {
    let (mut operation, mut step) = Operation::start(config, goal, build_image, cli_image);
    let mut run = Run { result: Ok(()), commands: Vec::new(), notes: Vec::new() };
    loop {
        for note in &step.notes {
            run.notes.push((note.kind, note.text.clone()));
        }
        let text = render(&step.command);
        run.commands.push(text.clone());
        match &step.command {
            OperationCommand::Finish => return run,
            OperationCommand::Abort { message, .. } => {
                run.result = Err(message.clone());
                return run;
            }
            _ => {}
        }
        assert!(operation.is_running());
        step = operation.advance(respond(&text));
    }
}

/// Lists the builder image and lets every step succeed.
fn all_success(command: &str) -> Outcome {
    if command.starts_with("images ") {
        Outcome::Succeeded("localhost/test-builder:latest\n".to_string())
    } else {
        Outcome::Succeeded(String::new())
    }
}

fn failed(text: &str) -> Outcome {
    Outcome::Failed(text.to_string())
}

#[test]
fn test_trellis_creation() {
    let config = create_test_config();
    let (operation, step) = Operation::start(&config, Goal::BuildRootfs, false, None);
    assert!(operation.is_running());
    assert_eq!(
        render(&step.command),
        "images --filter reference=localhost/test-builder --format {{.Repository}}:{{.Tag}}"
    );
}

#[test]
fn test_build_builder_container_success() {
    let config = create_test_config();
    let run = drive(&config, Goal::BuildBuilder, false, None, all_success);
    assert!(run.result.is_ok());
    assert_eq!(run.commands, vec!["build builder test-builder base", "auto-clean", "finish"]);
    assert_eq!(run.notes, vec![(NoteKind::Info, "Builder container built successfully".to_string())]);
}

#[test]
fn test_build_rootfs_container_success() {
    let config = create_test_config();
    let run = drive(&config, Goal::BuildRootfs, false, None, all_success);
    assert!(run.result.is_ok());
    assert_eq!(run.commands[1..], ["build stage test-rootfs base,final", "auto-clean", "finish"]);
}

#[test]
fn test_update_operation() {
    let config = create_test_config();
    let run = drive(&config, Goal::Update, false, None, all_success);
    assert!(run.result.is_ok());
    assert_eq!(run.commands[1..], ["build stage test-rootfs base,final", "auto-clean", "bootc-upgrade", "finish"]);
}

#[test]
fn test_build_builder_with_empty_stages() {
    let mut config = create_test_config();
    config.builder_stages = vec![];
    let run = drive(&config, Goal::BuildBuilder, false, None, all_success);
    assert!(run.result.unwrap_err().contains("No builder stages defined"));
    assert_eq!(run.commands.len(), 1);
}

#[test]
fn test_build_rootfs_with_empty_stages() {
    let mut config = create_test_config();
    config.rootfs_stages = vec![];
    let run = drive(&config, Goal::BuildRootfs, false, None, all_success);
    assert!(run.result.unwrap_err().contains("No rootfs stages defined"));
    assert_eq!(run.commands.len(), 1);
}

#[test]
fn test_build_with_command_failures() {
    let config = create_test_config();
    let run = drive(&config, Goal::BuildRootfs, false, None, |c| {
        if c.starts_with("build ") {
            failed("Podman build failed with exit code: Some(1)")
        } else {
            all_success(c)
        }
    });
    assert!(run.result.is_err());
    assert!(!run.commands.contains(&"auto-clean".to_string()));
}

#[test]
fn test_error_propagation_from_builder() {
    let config = create_test_config();
    let run = drive(&config, Goal::BuildBuilder, false, None, |c| {
        if c.starts_with("build ") {
            failed("Failed to build stage: base: Build command failed")
        } else {
            all_success(c)
        }
    });
    assert!(run.result.unwrap_err().contains("Failed to build stage"));
}

#[test]
fn test_error_propagation_from_cleaner() {
    let config = create_test_config();
    let run = drive(&config, Goal::BuildBuilder, false, None, |c| {
        if c == "auto-clean" {
            failed("Failed to list podman images: Images command failed")
        } else {
            all_success(c)
        }
    });
    assert!(run.result.unwrap_err().contains("Failed to list podman images"));
}

#[test]
fn test_update_failure_in_build_phase() {
    let config = create_test_config();
    let run = drive(&config, Goal::Update, false, None, |c| {
        if c.starts_with("build ") {
            failed("Missing required containerfiles: Containerfile.base")
        } else {
            all_success(c)
        }
    });
    assert!(run.result.is_err());
    assert!(!run.commands.contains(&"bootc-upgrade".to_string()));
}

#[test]
fn test_update_failure_in_bootc_phase() {
    let config = create_test_config();
    let run = drive(&config, Goal::Update, false, None, |c| {
        if c == "bootc-upgrade" {
            failed("Failed to execute bootc upgrade: bootc upgrade failed")
        } else {
            all_success(c)
        }
    });
    assert!(run.result.unwrap_err().contains("Failed to execute bootc upgrade"));
}

#[test]
fn trellis_core_tests_test_auto_clean_integration() {
    let config = create_test_config();
    let run = drive(&config, Goal::BuildRootfs, false, None, all_success);
    assert!(run.result.is_ok());
    let build = run.commands.iter().position(|c| c.starts_with("build ")).unwrap();
    assert_eq!(run.commands[build + 1], "auto-clean");
}

#[test]
fn test_missing_builder_is_built_when_the_user_agrees() {
    let config = create_test_config();
    let run = drive(&config, Goal::BuildRootfs, false, None, |c| {
        if c.starts_with("images ") {
            Outcome::Succeeded("docker.io/library/alpine:latest\n".to_string())
        } else {
            Outcome::Succeeded(String::new())
        }
    });
    assert!(run.result.is_ok());
    assert_eq!(
        run.commands[1..],
        [
            "ask Would you like to build it now? [y/N]: ",
            "build builder test-builder base",
            "auto-clean",
            "build stage test-rootfs base,final",
            "auto-clean",
            "finish",
        ]
    );
    assert_eq!(run.notes[0], (NoteKind::Warning, "Builder container 'test-builder' not found".to_string()));
    assert_eq!(run.notes[2], (NoteKind::Info, "Building builder container...".to_string()));
}

#[test]
fn test_missing_builder_is_skipped_when_the_user_declines() {
    let config = create_test_config();
    let run = drive(&config, Goal::BuildRootfs, false, None, |c| {
        if c.starts_with("images ") {
            Outcome::Succeeded(String::new())
        } else if c.starts_with("ask ") {
            failed("")
        } else {
            Outcome::Succeeded(String::new())
        }
    });
    assert!(run.result.is_ok());
    assert_eq!(run.commands[2..], ["build stage test-rootfs base,final", "auto-clean", "finish"]);
}

#[test]
fn test_builder_listing_failure() {
    let config = create_test_config();
    let run = drive(&config, Goal::BuildRootfs, false, None, |_| failed("Some(125)"));
    assert_eq!(run.result, Err("Podman images command failed with exit code: Some(125)".to_string()));
}

#[test]
fn test_image_generation_with_and_without_build() {
    let config = create_test_config();
    let plain = drive(&config, Goal::Image, false, Some("my-image"), all_success);
    assert_eq!(plain.commands, vec!["image localhost/my-image:latest", "finish"]);
    let built = drive(&config, Goal::Image, true, None, all_success);
    assert_eq!(
        built.commands[1..],
        ["build stage test-rootfs base,final", "auto-clean", "image localhost/test-rootfs:latest", "finish"]
    );
}
