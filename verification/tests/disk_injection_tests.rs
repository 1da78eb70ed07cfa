//! Writing the configuration into a disk image: the commands, in order,
//! and what a failed command leads to.

use trellis::trellis::common::{NoteKind, Outcome};
use trellis::trellis::injection::{ConfigInjection, InjectCommand, InjectStep};

/// What an injection did: its result, the commands it issued (rendered as
/// text) and the notes it showed.
struct Run {
    result: Result<(), String>,
    commands: Vec<String>,
    notes: Vec<(NoteKind, String)>,
}

fn render(command: &InjectCommand) -> String {
    match command {
        InjectCommand::Execute { program, args } => format!("{} {}", program, args.join(" ")).trim_end().to_string(),
        InjectCommand::CreateDir { path } => format!("mkdir {path}"),
        InjectCommand::WriteConfig { path } => format!("write {path}"),
        InjectCommand::RemoveDir { path } => format!("rmdir {path}"),
        InjectCommand::Finish => "finish".to_string(),
        InjectCommand::Abort { message, cause } => match cause {
            Some(cause) => format!("abort {message}: {cause}"),
            None => format!("abort {message}"),
        },
    }
}

/// Runs an injection, answering each command with `respond`.
fn drive(start: (ConfigInjection, InjectStep), mut respond: impl FnMut(&str) -> Outcome) -> Run {
    let (mut injection, mut step) = start;
    let mut commands = Vec::new();
    let mut notes = Vec::new();
    loop {
        for note in &step.notes {
            notes.push((note.kind, note.text.clone()));
        }
        let text = render(&step.command);
        commands.push(text.clone());
        match &step.command {
            InjectCommand::Finish => return Run { result: Ok(()), commands, notes },
            InjectCommand::Abort { message, .. } => return Run { result: Err(message.clone()), commands, notes },
            _ => {}
        }
        assert!(injection.is_running());
        let outcome = respond(&text);
        step = injection.advance(outcome);
    }
}

fn ok(text: &str) -> Outcome {
    Outcome::Succeeded(text.to_string())
}

fn start(src_dir_exists: bool) -> (ConfigInjection, InjectStep) {
    ConfigInjection::start("/out/disk.img", "/tmp/trellis-mount-7", "/src/stages", src_dir_exists)
}

#[test]
fn test_injection_all_steps_succeed() {
    let run = drive(start(true), |cmd| if cmd.starts_with("losetup --find") { ok("/dev/loop3\n") } else { ok("") });
    assert_eq!(run.result, Ok(()));
    assert_eq!(
        run.commands,
        vec![
            "losetup --find --show --partscan /out/disk.img",
            "mkdir /tmp/trellis-mount-7",
            "mount /dev/loop3p3 /tmp/trellis-mount-7",
            "mkdir /tmp/trellis-mount-7/etc/trellis",
            "mkdir /tmp/trellis-mount-7/var/lib/trellis/stages",
            "write /tmp/trellis-mount-7/etc/trellis/trellis.toml",
            "cp -r /src/stages/. /tmp/trellis-mount-7/var/lib/trellis/stages",
            "sync",
            "umount /tmp/trellis-mount-7",
            "rmdir /tmp/trellis-mount-7",
            "losetup -d /dev/loop3",
            "finish",
        ]
    );
    assert_eq!(
        run.notes,
        vec![
            (NoteKind::Info, "Injecting trellis configuration into disk image".to_string()),
            (NoteKind::Info, "Created loopback device: /dev/loop3".to_string()),
            (NoteKind::Info, "Mounted /dev/loop3p3 at /tmp/trellis-mount-7".to_string()),
            (NoteKind::Info, "Wrote configuration to /tmp/trellis-mount-7/etc/trellis/trellis.toml".to_string()),
            (NoteKind::Info, "Copying stages from /src/stages to disk image".to_string()),
            (NoteKind::Info, "Configuration injected successfully".to_string()),
        ]
    );
}

#[test]
fn test_injection_without_stages_dir_skips_copy() {
    let run = drive(start(false), |cmd| if cmd.starts_with("losetup --find") { ok("/dev/loop0") } else { ok("") });
    assert_eq!(run.result, Ok(()));
    assert!(!run.commands.iter().any(|c| c.starts_with("cp ")));
    assert_eq!(run.commands.len(), 11);
}

#[test]
fn test_injection_loop_setup_failure() {
    let run = drive(start(true), |_| Outcome::Failed("no free loop devices".to_string()));
    assert_eq!(run.result, Err("Failed to set up loopback device: no free loop devices".to_string()));
    assert_eq!(run.commands.len(), 2);
}

#[test]
fn test_injection_mount_failure_cleans_up() {
    let run = drive(start(true), |cmd| {
        if cmd.starts_with("losetup --find") {
            ok("/dev/loop1")
        } else if cmd.starts_with("mount ") {
            Outcome::Failed("bad superblock".to_string())
        } else if cmd.starts_with("umount") {
            Outcome::Failed("not mounted".to_string())
        } else {
            ok("")
        }
    });
    assert_eq!(run.result, Err("Failed to mount root partition /dev/loop1p3: bad superblock".to_string()));
    assert_eq!(
        run.commands[3..],
        [
            "umount /tmp/trellis-mount-7",
            "rmdir /tmp/trellis-mount-7",
            "losetup -d /dev/loop1",
            "abort Failed to mount root partition /dev/loop1p3: bad superblock",
        ]
    );
}

#[test]
fn test_injection_write_failure_cleans_up() {
    let run = drive(start(true), |cmd| {
        if cmd.starts_with("losetup --find") {
            ok("/dev/loop1")
        } else if cmd.starts_with("write ") {
            Outcome::Failed("read-only file system".to_string())
        } else {
            ok("")
        }
    });
    assert_eq!(run.result, Err("Failed to write trellis.toml: read-only file system".to_string()));
    let n = run.commands.len();
    assert_eq!(run.commands[n - 4], "umount /tmp/trellis-mount-7");
    assert_eq!(run.commands[n - 2], "losetup -d /dev/loop1");
}

#[test]
fn test_injection_mount_point_failure_keeps_cause() {
    let run = drive(start(true), |cmd| {
        if cmd.starts_with("losetup --find") {
            ok("/dev/loop1")
        } else {
            Outcome::Failed("permission denied".to_string())
        }
    });
    assert_eq!(run.result, Err("Failed to create mount point".to_string()));
    assert_eq!(run.commands.last().unwrap(), "abort Failed to create mount point: permission denied");
}

#[test]
fn test_injection_failed_unmount_is_an_error() {
    let run = drive(start(false), |cmd| {
        if cmd.starts_with("losetup --find") {
            ok("/dev/loop2")
        } else if cmd.starts_with("umount") {
            Outcome::Failed("target is busy".to_string())
        } else if cmd.starts_with("losetup -d") {
            Outcome::Failed("device busy".to_string())
        } else {
            ok("")
        }
    });
    assert_eq!(run.result, Err("Failed to unmount cleanly: target is busy".to_string()));
    let n = run.commands.len();
    assert_eq!(
        run.commands[n - 4..],
        [
            "umount /tmp/trellis-mount-7",
            "rmdir /tmp/trellis-mount-7",
            "losetup -d /dev/loop2",
            "abort Failed to unmount cleanly: target is busy",
        ]
    );
    assert!(!run.notes.iter().any(|(_, text)| text == "Configuration injected successfully"));
}

#[test]
fn test_injection_failed_detach_only_warns() {
    let run = drive(start(false), |cmd| {
        if cmd.starts_with("losetup --find") {
            ok("/dev/loop2")
        } else if cmd.starts_with("losetup -d") {
            Outcome::Failed("device busy".to_string())
        } else {
            ok("")
        }
    });
    assert_eq!(run.result, Ok(()));
    assert!(run.notes.contains(&(NoteKind::Warning, "Failed to detach loopback device: device busy".to_string())));
    assert_eq!(run.notes.last().unwrap(), &(NoteKind::Info, "Configuration injected successfully".to_string()));
}

#[test]
fn test_injection_command_that_cannot_run_stops_at_once() {
    let run = drive(start(true), |cmd| {
        if cmd.starts_with("losetup --find") {
            ok("/dev/loop2")
        } else if cmd.starts_with("mount ") {
            Outcome::Unavailable("mount: command not found".to_string())
        } else {
            ok("")
        }
    });
    assert_eq!(run.result, Err("mount: command not found".to_string()));
    assert_eq!(run.commands.len(), 4);
}

#[test]
fn test_injection_mount_point_with_trailing_separator() {
    let run = drive(
        ConfigInjection::start("disk.img", "/mnt/", "stages", false),
        |cmd| if cmd.starts_with("losetup --find") { ok("/dev/loop5") } else { ok("") },
    );
    assert_eq!(run.commands[3], "mkdir /mnt/etc/trellis");
    assert_eq!(run.commands[5], "write /mnt/etc/trellis/trellis.toml");
}
