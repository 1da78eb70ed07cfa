//! The quick update: topgrade in a temporary container of the rootfs image,
//! committed back, and the container always removed.

use trellis::trellis::common::{NoteKind, Outcome};
use trellis::trellis::runner::{
    quick_update_container_name, QuickUpdate, QuickUpdateCommand, QuickUpdateStep,
};

/// What a quick update did: its result, the commands it issued (rendered
/// as text) and the notes it showed.
struct Run {
    result: Result<(), String>,
    commands: Vec<String>,
    notes: Vec<(NoteKind, String)>,
}

fn render(command: &QuickUpdateCommand) -> String {
    match command {
        QuickUpdateCommand::Podman { args } => format!("podman {}", args.join(" ")),
        QuickUpdateCommand::CheckCommand { container_tag, command } => format!("check {container_tag} {command}"),
        QuickUpdateCommand::RunTopgrade { args } => format!("run {}", args.join(" ")),
        QuickUpdateCommand::Commit { args } => format!("commit {}", args.join(" ")),
        QuickUpdateCommand::Finish => "finish".to_string(),
        QuickUpdateCommand::Abort { message, .. } => format!("abort {message}"),
    }
}

/// Runs a quick update of `test-rootfs`, answering each command with
/// `respond`.
fn drive(mut respond: impl FnMut(&str) -> Outcome) -> Run {
    let name = quick_update_container_name(1_700_000_000, 5);
    let (mut update, mut step): (QuickUpdate, QuickUpdateStep) = QuickUpdate::start("test-rootfs", &name);
    let mut commands = Vec::new();
    let mut notes = Vec::new();
    loop {
        for note in &step.notes {
            notes.push((note.kind, note.text.clone()));
        }
        let text = render(&step.command);
        commands.push(text.clone());
        match &step.command {
            QuickUpdateCommand::Finish => return Run { result: Ok(()), commands, notes },
            QuickUpdateCommand::Abort { message, .. } => return Run { result: Err(message.clone()), commands, notes },
            _ => {}
        }
        assert!(update.is_running());
        step = update.advance(respond(&text));
    }
}

fn ok() -> Outcome {
    Outcome::Succeeded(String::new())
}

#[test]
fn test_quick_update_success() {
    let run = drive(|_| ok());
    assert!(run.result.is_ok());
    assert_eq!(
        run.commands,
        vec![
            "podman image exists localhost/test-rootfs",
            "check test-rootfs topgrade",
            "run --net host --cap-add SYS_ADMIN --cap-add DAC_OVERRIDE --cap-add CHOWN --cap-add FOWNER --cap-add SETUID --cap-add SETGID --cap-add SYS_PTRACE --name trellis-quick-update-1700000000000000005 localhost/test-rootfs topgrade -y",
            "commit trellis-quick-update-1700000000000000005 localhost/test-rootfs",
            "podman rm trellis-quick-update-1700000000000000005",
            "finish",
        ]
    );
    assert_eq!(run.notes.last().unwrap(), &(NoteKind::Info, "Quick update completed successfully".to_string()));
}

#[test]
fn test_quick_update_missing_container() {
    let run = drive(|cmd| if cmd.starts_with("podman image exists") { Outcome::Failed("Image not found".to_string()) } else { ok() });
    assert!(run.result.is_err());
    assert!(run.result.unwrap_err().contains("Container image not found"));
    assert_eq!(run.commands.len(), 2);
}

#[test]
fn test_quick_update_missing_topgrade() {
    let run = drive(|cmd| if cmd.starts_with("check ") { Outcome::Failed(String::new()) } else { ok() });
    assert!(run.result.is_err());
    assert!(run.result.unwrap_err().contains("topgrade is not available"));
    assert!(!run.commands.iter().any(|c| c.starts_with("run ")));
}

#[test]
fn test_quick_update_topgrade_failure() {
    let run = drive(|cmd| {
        if cmd.starts_with("run ") {
            Outcome::Failed("Some(1). Error: topgrade failed".to_string())
        } else {
            ok()
        }
    });
    assert!(run.result.is_err());
    assert!(run.result.unwrap_err().contains("topgrade failed"));
    assert!(!run.commands.iter().any(|c| c.starts_with("commit ")));
}

#[test]
fn test_quick_update_commit_failure() {
    let run = drive(|cmd| if cmd.starts_with("commit ") { Outcome::Failed("commit failed".to_string()) } else { ok() });
    assert!(run.result.is_err());
    assert!(run.result.unwrap_err().contains("Failed to commit container"));
}

#[test]
fn test_quick_update_cleanup_on_commit_failure() {
    let run = drive(|cmd| if cmd.starts_with("commit ") { Outcome::Failed("commit failed".to_string()) } else { ok() });
    assert!(run.result.is_err());
    assert!(run.result.as_ref().unwrap_err().contains("Failed to commit container"));
    let n = run.commands.len();
    assert!(run.commands[n - 2].starts_with("podman rm "), "the container is removed before the error is reported");
}

#[test]
fn test_quick_update_removal_failure_only_warns() {
    let run = drive(|cmd| if cmd.starts_with("podman rm") { Outcome::Failed("busy".to_string()) } else { ok() });
    assert!(run.result.is_ok());
    assert!(run.notes.contains(&(
        NoteKind::Warning,
        "Failed to clean up temporary container 'trellis-quick-update-1700000000000000005'. You may need to remove it manually.".to_string()
    )));
}

#[test]
fn test_quick_update_commit_unavailable_keeps_cause() {
    let run = drive(|cmd| if cmd.starts_with("commit ") { Outcome::Unavailable("podman missing".to_string()) } else { ok() });
    assert_eq!(run.result, Err("Failed to commit container updates".to_string()));
    let n = run.commands.len();
    assert!(run.commands[n - 2].starts_with("podman rm "));
}
