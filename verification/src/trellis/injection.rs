//! Writing the trellis configuration into an installed disk image.
//!
//! The injection attaches the image to a loop device, mounts its root
//! partition, writes the configuration and the containerfiles into it, and
//! detaches it again. Each step is a command that the caller carries out;
//! `ConfigInjection` decides, from how the last command went, what comes
//! next. Once the loop device is attached, a failed step still unmounts
//! the partition and detaches the device before the error is reported.

use vstd::prelude::*;

use crate::text::{concat2, trim, trim_str, views};
use crate::trellis::common::{info, note_views, outcome_text, warning, Note, NoteKind, Outcome, OutcomeView};
use crate::trellis::image_generator::{copy_contents_args, loop_setup_args, root_partition};

verus! {

/// Where a configuration injection stands: the command it waits on.
#[derive(Debug, Clone, Copy, PartialEq, Eq, Structural)]
pub enum InjectPhase {
    /// Attaching the disk image to a loop device.
    LoopSetup,
    /// Creating the mount point.
    MountPointCreation,
    /// Mounting the root partition.
    Mounting,
    /// Creating the configuration directory in the image.
    ConfigDirCreation,
    /// Creating the containerfile directory in the image.
    StagesDirCreation,
    /// Writing the configuration file.
    ConfigWriting,
    /// Copying the containerfiles.
    StagesCopying,
    /// Flushing the writes.
    Syncing,
    /// Unmounting the root partition.
    Unmounting,
    /// Removing the mount point.
    MountPointRemoval,
    /// Detaching the loop device.
    Detaching,
    /// Unmounting after a failed step.
    CleanupUnmounting,
    /// Removing the mount point after a failed step.
    CleanupMountPointRemoval,
    /// Detaching the loop device after a failed step.
    CleanupDetaching,
    /// Done, with success or with an error.
    Finished,
}

/// What the caller does next.
pub enum InjectCommand {
    /// Run `program` with `args`.
    Execute { program: String, args: Vec<String> },
    /// Create the directory `path` with its parents.
    CreateDir { path: String },
    /// Write the serialised configuration to the file `path`.
    WriteConfig { path: String },
    /// Remove the empty directory `path`.
    RemoveDir { path: String },
    /// Stop: the configuration was injected.
    Finish,
    /// Stop with the error `message`, caused by `cause` where there is one.
    Abort { message: String, cause: Option<String> },
}

/// A command, with its texts as character sequences.
pub enum CommandView {
    Execute { program: Seq<char>, args: Seq<Seq<char>> },
    CreateDir { path: Seq<char> },
    WriteConfig { path: Seq<char> },
    RemoveDir { path: Seq<char> },
    Finish,
    Abort { message: Seq<char>, cause: Option<Seq<char>> },
}

impl View for InjectCommand {
    type V = CommandView;

    open spec fn view(&self) -> CommandView {
        match self {
            InjectCommand::Execute { program, args } => CommandView::Execute {
                program: program@,
                args: views(args@),
            },
            InjectCommand::CreateDir { path } => CommandView::CreateDir { path: path@ },
            InjectCommand::WriteConfig { path } => CommandView::WriteConfig { path: path@ },
            InjectCommand::RemoveDir { path } => CommandView::RemoveDir { path: path@ },
            InjectCommand::Finish => CommandView::Finish,
            InjectCommand::Abort { message, cause } => CommandView::Abort {
                message: message@,
                cause: match cause {
                    Some(c) => Some(c@),
                    None => None,
                },
            },
        }
    }
}

/// The notes to show and the command to carry out next.
pub struct InjectStep {
    pub notes: Vec<Note>,
    pub command: InjectCommand,
}

/// The state of an injection.
pub struct InjectionView {
    pub phase: InjectPhase,
    /// Where the root partition is mounted.
    pub mount_point: Seq<char>,
    /// The containerfile directory on the host.
    pub src_dir: Seq<char>,
    /// Whether the containerfiles are copied into the image.
    pub copy_stages: bool,
    /// The loop device the image is attached to.
    pub loop_device: Seq<char>,
    /// The error reported once the cleanup after a failed step is done.
    pub error: Seq<char>,
}

/// `rel` appended to the path `base` as `Path::join` does for a relative
/// `rel`: with one separator between them.
pub open spec fn path_join(base: Seq<char>, rel: Seq<char>) -> Seq<char> {
    if base.len() == 0 {
        rel
    } else if base.last() == '/' {
        base + rel
    } else {
        base + "/"@ + rel
    }
}

/// The configuration directory of the image mounted at `mount_point`.
pub open spec fn config_dir_in(mount_point: Seq<char>) -> Seq<char> {
    path_join(mount_point, "etc/trellis"@)
}

/// The containerfile directory of the image mounted at `mount_point`.
pub open spec fn stages_dir_in(mount_point: Seq<char>) -> Seq<char> {
    path_join(mount_point, "var/lib/trellis/stages"@)
}

/// The configuration file of the image mounted at `mount_point`.
pub open spec fn config_file_in(mount_point: Seq<char>) -> Seq<char> {
    path_join(config_dir_in(mount_point), "trellis.toml"@)
}

/// The root partition of the attached image.
pub open spec fn root_of(v: InjectionView) -> Seq<char> {
    v.loop_device + "p3"@
}

/// Running `program` with `args`.
pub open spec fn run_of(program: Seq<char>, args: Seq<Seq<char>>) -> CommandView {
    CommandView::Execute { program, args }
}

/// Stopping with the error `message` and no cause.
pub open spec fn abort_with(message: Seq<char>) -> CommandView {
    CommandView::Abort { message, cause: None }
}


/// `v` moved to the phase `phase`.
pub open spec fn moved_to(v: InjectionView, phase: InjectPhase) -> InjectionView {
    InjectionView {
        phase,
        mount_point: v.mount_point,
        src_dir: v.src_dir,
        copy_stages: v.copy_stages,
        loop_device: v.loop_device,
        error: v.error,
    }
}

/// After the step of `v` failed with `error`: unmount first, and report
/// `error` once the loop device is detached.
pub open spec fn failed_with(v: InjectionView, error: Seq<char>) -> (
    InjectionView,
    Seq<(NoteKind, Seq<char>)>,
    CommandView,
) {
    (
        InjectionView {
            phase: InjectPhase::CleanupUnmounting,
            mount_point: v.mount_point,
            src_dir: v.src_dir,
            copy_stages: v.copy_stages,
            loop_device: v.loop_device,
            error,
        },
        Seq::empty(),
        run_of("umount"@, seq![v.mount_point]),
    )
}

/// Stopping at once with the error `message`.
pub open spec fn stopped_with(v: InjectionView, message: Seq<char>) -> (
    InjectionView,
    Seq<(NoteKind, Seq<char>)>,
    CommandView,
) {
    (moved_to(v, InjectPhase::Finished), Seq::empty(), abort_with(message))
}

/// The state an injection starts in.
pub open spec fn injection_start(mount_point: Seq<char>, src_dir: Seq<char>, src_dir_exists: bool) -> InjectionView {
    InjectionView {
        phase: InjectPhase::LoopSetup,
        mount_point,
        src_dir,
        copy_stages: src_dir_exists,
        loop_device: Seq::empty(),
        error: Seq::empty(),
    }
}

/// The command an injection of `disk_image` starts with.
pub open spec fn injection_first_command(disk_image: Seq<char>) -> CommandView {
    run_of("losetup"@, seq!["--find"@, "--show"@, "--partscan"@, disk_image])
}

/// The next state, the notes and the next command of an injection in
/// state `v` whose last command had the outcome `o`.
pub open spec fn injection_next(v: InjectionView, o: OutcomeView) -> (
    InjectionView,
    Seq<(NoteKind, Seq<char>)>,
    CommandView,
) {
    let mp = v.mount_point;
    match v.phase {
        InjectPhase::LoopSetup => match o {
            OutcomeView::Succeeded(out) => (
                InjectionView {
                    phase: InjectPhase::MountPointCreation,
                    mount_point: v.mount_point,
                    src_dir: v.src_dir,
                    copy_stages: v.copy_stages,
                    loop_device: trim(out),
                    error: v.error,
                },
                seq![info("Created loopback device: "@ + trim(out))],
                CommandView::CreateDir { path: mp },
            ),
            OutcomeView::Failed(e) => stopped_with(v, "Failed to set up loopback device: "@ + e),
            OutcomeView::Unavailable(e) => stopped_with(v, e),
        },
        InjectPhase::MountPointCreation => match o {
            OutcomeView::Succeeded(_) => (
                moved_to(v, InjectPhase::Mounting),
                Seq::empty(),
                run_of("mount"@, seq![root_of(v), mp]),
            ),
            _ => (
                moved_to(v, InjectPhase::Finished),
                Seq::empty(),
                CommandView::Abort {
                    message: "Failed to create mount point"@,
                    cause: Some(outcome_text(o)),
                },
            ),
        },
        InjectPhase::Mounting => match o {
            OutcomeView::Succeeded(_) => (
                moved_to(v, InjectPhase::ConfigDirCreation),
                seq![info("Mounted "@ + root_of(v) + " at "@ + mp)],
                CommandView::CreateDir { path: config_dir_in(mp) },
            ),
            OutcomeView::Failed(e) => failed_with(
                v,
                "Failed to mount root partition "@ + root_of(v) + ": "@ + e,
            ),
            OutcomeView::Unavailable(e) => stopped_with(v, e),
        },
        InjectPhase::ConfigDirCreation => match o {
            OutcomeView::Succeeded(_) => (
                moved_to(v, InjectPhase::StagesDirCreation),
                Seq::empty(),
                CommandView::CreateDir { path: stages_dir_in(mp) },
            ),
            _ => failed_with(v, "Failed to create config directory: "@ + outcome_text(o)),
        },
        InjectPhase::StagesDirCreation => match o {
            OutcomeView::Succeeded(_) => (
                moved_to(v, InjectPhase::ConfigWriting),
                Seq::empty(),
                CommandView::WriteConfig { path: config_file_in(mp) },
            ),
            _ => failed_with(v, "Failed to create stages directory: "@ + outcome_text(o)),
        },
        InjectPhase::ConfigWriting => match o {
            OutcomeView::Succeeded(_) => if v.copy_stages {
                (
                    moved_to(v, InjectPhase::StagesCopying),
                    seq![
                        info("Wrote configuration to "@ + config_file_in(mp)),
                        info("Copying stages from "@ + v.src_dir + " to disk image"@),
                    ],
                    run_of("cp"@, seq!["-r"@, v.src_dir + "/."@, stages_dir_in(mp)]),
                )
            } else {
                (
                    moved_to(v, InjectPhase::Syncing),
                    seq![info("Wrote configuration to "@ + config_file_in(mp))],
                    run_of("sync"@, Seq::empty()),
                )
            },
            _ => failed_with(v, "Failed to write trellis.toml: "@ + outcome_text(o)),
        },
        InjectPhase::StagesCopying => match o {
            OutcomeView::Succeeded(_) => (
                moved_to(v, InjectPhase::Syncing),
                Seq::empty(),
                run_of("sync"@, Seq::empty()),
            ),
            OutcomeView::Failed(e) => failed_with(v, "Failed to copy stages: "@ + e),
            OutcomeView::Unavailable(e) => stopped_with(v, e),
        },
        InjectPhase::Syncing => (
            moved_to(v, InjectPhase::Unmounting),
            Seq::empty(),
            run_of("umount"@, seq![mp]),
        ),
        InjectPhase::Unmounting => match o {
            OutcomeView::Succeeded(_) => (
                moved_to(v, InjectPhase::MountPointRemoval),
                Seq::empty(),
                CommandView::RemoveDir { path: mp },
            ),
            OutcomeView::Failed(e) => (
                InjectionView {
                    phase: InjectPhase::CleanupMountPointRemoval,
                    mount_point: v.mount_point,
                    src_dir: v.src_dir,
                    copy_stages: v.copy_stages,
                    loop_device: v.loop_device,
                    error: "Failed to unmount cleanly: "@ + e,
                },
                Seq::empty(),
                CommandView::RemoveDir { path: mp },
            ),
            OutcomeView::Unavailable(e) => stopped_with(v, e),
        },
        InjectPhase::MountPointRemoval => (
            moved_to(v, InjectPhase::Detaching),
            Seq::empty(),
            run_of("losetup"@, seq!["-d"@, v.loop_device]),
        ),
        InjectPhase::Detaching => match o {
            OutcomeView::Succeeded(_) => (
                moved_to(v, InjectPhase::Finished),
                seq![info("Configuration injected successfully"@)],
                CommandView::Finish,
            ),
            OutcomeView::Failed(e) => (
                moved_to(v, InjectPhase::Finished),
                seq![
                    warning("Failed to detach loopback device: "@ + e),
                    info("Configuration injected successfully"@),
                ],
                CommandView::Finish,
            ),
            OutcomeView::Unavailable(e) => stopped_with(v, e),
        },
        InjectPhase::CleanupUnmounting => (
            moved_to(v, InjectPhase::CleanupMountPointRemoval),
            Seq::empty(),
            CommandView::RemoveDir { path: mp },
        ),
        InjectPhase::CleanupMountPointRemoval => (
            moved_to(v, InjectPhase::CleanupDetaching),
            Seq::empty(),
            run_of("losetup"@, seq!["-d"@, v.loop_device]),
        ),
        InjectPhase::CleanupDetaching => stopped_with(v, v.error),
        InjectPhase::Finished => (v, Seq::empty(), CommandView::Finish),
    }
}

/// The commands that an injection in state `v` issues for the outcomes
/// `outcomes`, one command for each outcome, until it is finished.
pub open spec fn injection_commands(v: InjectionView, outcomes: Seq<OutcomeView>) -> Seq<CommandView>
    decreases outcomes.len(),
{
    if outcomes.len() == 0 || v.phase == InjectPhase::Finished {
        Seq::empty()
    } else {
        let next = injection_next(v, outcomes[0]);
        seq![next.2] + injection_commands(next.0, outcomes.drop_first())
    }
}

/// Whether a command ends an injection.
pub open spec fn is_final_command(c: CommandView) -> bool {
    c is Finish || c is Abort
}

proof fn lemma_commands_unfold(v: InjectionView, outcomes: Seq<OutcomeView>)
    requires
        outcomes.len() > 0,
        v.phase != InjectPhase::Finished,
    ensures
        injection_commands(v, outcomes) == seq![injection_next(v, outcomes[0]).2] + injection_commands(
            injection_next(v, outcomes[0]).0,
            outcomes.skip(1),
        ),
{
    assert(outcomes.drop_first() =~= outcomes.skip(1));
}

/// An injection stops, with `Finish` or `Abort`, exactly when it is
/// finished: every other command is followed by another step.
pub proof fn law_injection_stops_when_finished(v: InjectionView, o: OutcomeView)
    requires
        v.phase != InjectPhase::Finished,
    ensures
        is_final_command(injection_next(v, o).2) <==> injection_next(v, o).0.phase == InjectPhase::Finished,
{
}

/// The commands of an injection in which every command succeeds and
/// `losetup` names the loop device `device`.
pub open spec fn successful_injection_commands(
    mount_point: Seq<char>,
    src_dir: Seq<char>,
    src_dir_exists: bool,
    device: Seq<char>,
) -> Seq<CommandView> {
    seq![
        CommandView::CreateDir { path: mount_point },
        run_of("mount"@, seq![device + "p3"@, mount_point]),
        CommandView::CreateDir { path: config_dir_in(mount_point) },
        CommandView::CreateDir { path: stages_dir_in(mount_point) },
        CommandView::WriteConfig { path: config_file_in(mount_point) },
    ] + (if src_dir_exists {
        seq![run_of("cp"@, seq!["-r"@, src_dir + "/."@, stages_dir_in(mount_point)])]
    } else {
        Seq::<CommandView>::empty()
    }) + seq![
        run_of("sync"@, Seq::empty()),
        run_of("umount"@, seq![mount_point]),
        CommandView::RemoveDir { path: mount_point },
        run_of("losetup"@, seq!["-d"@, device]),
        CommandView::Finish,
    ]
}

/// The state of such an injection after `k` of its `n` commands.
spec fn succeeding_state(
    mount_point: Seq<char>,
    src_dir: Seq<char>,
    src_dir_exists: bool,
    device: Seq<char>,
    k: int,
) -> InjectionView {
    let n: int = if src_dir_exists { 11 } else { 10 };
    InjectionView {
        phase: if k == 1 {
            InjectPhase::MountPointCreation
        } else if k == 2 {
            InjectPhase::Mounting
        } else if k == 3 {
            InjectPhase::ConfigDirCreation
        } else if k == 4 {
            InjectPhase::StagesDirCreation
        } else if k == 5 {
            InjectPhase::ConfigWriting
        } else if k == 6 && src_dir_exists {
            InjectPhase::StagesCopying
        } else if k == n - 4 {
            InjectPhase::Syncing
        } else if k == n - 3 {
            InjectPhase::Unmounting
        } else if k == n - 2 {
            InjectPhase::MountPointRemoval
        } else if k == n - 1 {
            InjectPhase::Detaching
        } else {
            InjectPhase::Finished
        },
        mount_point,
        src_dir,
        copy_stages: src_dir_exists,
        loop_device: device,
        error: Seq::empty(),
    }
}

proof fn lemma_succeeding_tail(
    mount_point: Seq<char>,
    src_dir: Seq<char>,
    src_dir_exists: bool,
    device: Seq<char>,
    outcomes: Seq<OutcomeView>,
    k: int,
)
    requires
        outcomes.len() == if src_dir_exists { 11int } else { 10int },
        forall|i: int| 0 <= i < outcomes.len() ==> #[trigger] outcomes[i] is Succeeded,
        1 <= k <= outcomes.len(),
    ensures
        injection_commands(succeeding_state(mount_point, src_dir, src_dir_exists, device, k), outcomes.skip(k))
            == successful_injection_commands(mount_point, src_dir, src_dir_exists, device).skip(k),
    decreases outcomes.len() - k,
{
    let n = outcomes.len() as int;
    let all = successful_injection_commands(mount_point, src_dir, src_dir_exists, device);
    let v = succeeding_state(mount_point, src_dir, src_dir_exists, device, k);
    assert(all.len() == n);
    if k == n {
        assert(all.skip(k) =~= Seq::<CommandView>::empty());
    } else {
        let rest = outcomes.skip(k);
        assert(rest[0] == outcomes[k]);
        assert(outcomes[k] is Succeeded);
        lemma_commands_unfold(v, rest);
        assert(rest.skip(1) =~= outcomes.skip(k + 1));
        let next = injection_next(v, outcomes[k]);
        assert(next.0 == succeeding_state(mount_point, src_dir, src_dir_exists, device, k + 1));
        assert(next.2 == all[k]);
        lemma_succeeding_tail(mount_point, src_dir, src_dir_exists, device, outcomes, k + 1);
        assert(all.skip(k) =~= seq![all[k]] + all.skip(k + 1));
    }
}

/// When every command succeeds, an injection mounts the third partition of
/// the loop device that `losetup` printed, creates the configuration and
/// containerfile directories, writes the configuration, copies the
/// containerfiles when their directory exists, syncs, unmounts, removes
/// the mount point, detaches the loop device and finishes.
pub proof fn law_injection_succeeds(
    mount_point: Seq<char>,
    src_dir: Seq<char>,
    src_dir_exists: bool,
    outcomes: Seq<OutcomeView>,
)
    requires
        outcomes.len() == if src_dir_exists { 11int } else { 10int },
        forall|i: int| 0 <= i < outcomes.len() ==> #[trigger] outcomes[i] is Succeeded,
    ensures
        injection_commands(injection_start(mount_point, src_dir, src_dir_exists), outcomes)
            == successful_injection_commands(
            mount_point,
            src_dir,
            src_dir_exists,
            trim(outcome_text(outcomes[0])),
        ),
{
    let device = trim(outcome_text(outcomes[0]));
    let v = injection_start(mount_point, src_dir, src_dir_exists);
    let all = successful_injection_commands(mount_point, src_dir, src_dir_exists, device);
    assert(outcomes[0] is Succeeded);
    lemma_commands_unfold(v, outcomes);
    let next = injection_next(v, outcomes[0]);
    assert(next.0 == succeeding_state(mount_point, src_dir, src_dir_exists, device, 1));
    assert(next.2 == all[0]);
    lemma_succeeding_tail(mount_point, src_dir, src_dir_exists, device, outcomes, 1);
    assert(all =~= seq![all[0]] + all.skip(1));
}

/// Once the disk image is attached and its root partition mounted, or its
/// mount failed, a failed step is followed by the cleanup: the partition
/// is unmounted, the mount point removed and the loop device detached,
/// whatever those commands' outcomes, and then the step's error is
/// reported.
pub open spec fn fails_while_attached(v: InjectionView, o: OutcomeView) -> bool {
    ||| (v.phase == InjectPhase::Mounting || v.phase == InjectPhase::StagesCopying) && o is Failed
    ||| (v.phase == InjectPhase::ConfigDirCreation || v.phase == InjectPhase::StagesDirCreation
        || v.phase == InjectPhase::ConfigWriting) && !(o is Succeeded)
}

/// A step that fails while the disk image is attached (see
/// `fails_while_attached`) is followed by unmounting the partition,
/// removing the mount point and detaching the loop device, whatever their
/// outcomes, and then by the step's error.
pub proof fn law_injection_cleans_up_after_failure(v: InjectionView, o: OutcomeView, later: Seq<OutcomeView>)
    requires
        fails_while_attached(v, o),
        later.len() >= 3,
    ensures
        injection_commands(v, seq![o] + later) == seq![
            run_of("umount"@, seq![v.mount_point]),
            CommandView::RemoveDir { path: v.mount_point },
            run_of("losetup"@, seq!["-d"@, v.loop_device]),
            abort_with(injection_next(v, o).0.error),
        ],
{
    let outs = seq![o] + later;
    let v1 = injection_next(v, o).0;
    let v2 = injection_next(v1, later[0]).0;
    let v3 = injection_next(v2, later[1]).0;
    let v4 = injection_next(v3, later[2]).0;
    lemma_commands_unfold(v, outs);
    assert(outs.skip(1) =~= later);
    lemma_commands_unfold(v1, later);
    lemma_commands_unfold(v2, later.skip(1));
    assert(later.skip(1).skip(1) =~= later.skip(2));
    lemma_commands_unfold(v3, later.skip(2));
    assert(later.skip(2).skip(1) =~= later.skip(3));
    assert(v4.phase == InjectPhase::Finished);
    assert(injection_commands(v4, later.skip(3)) =~= Seq::<CommandView>::empty());
    assert(injection_commands(v, outs) =~= seq![
        run_of("umount"@, seq![v.mount_point]),
        CommandView::RemoveDir { path: v.mount_point },
        run_of("losetup"@, seq!["-d"@, v.loop_device]),
        abort_with(injection_next(v, o).0.error),
    ]);
}

/// A failed final unmount is an error: the mount point is still removed
/// and the loop device still detached, whatever those outcomes, and then
/// the injection stops with the unmount error.
pub proof fn law_injection_failed_unmount_is_error(v: InjectionView, outcomes: Seq<OutcomeView>)
    requires
        v.phase == InjectPhase::Syncing,
        outcomes.len() >= 4,
        outcomes[1] is Failed,
    ensures
        injection_commands(v, outcomes) == seq![
            run_of("umount"@, seq![v.mount_point]),
            CommandView::RemoveDir { path: v.mount_point },
            run_of("losetup"@, seq!["-d"@, v.loop_device]),
            abort_with("Failed to unmount cleanly: "@ + outcome_text(outcomes[1])),
        ],
{
    lemma_teardown_unfold(v, outcomes);
}

/// A failed detach at the end of an injection only warns: once the
/// partition is unmounted, the injection finishes with success whether
/// the loop device was detached or not.
pub proof fn law_injection_failed_detach_only_warns(v: InjectionView, outcomes: Seq<OutcomeView>)
    requires
        v.phase == InjectPhase::Syncing,
        outcomes.len() >= 4,
        outcomes[1] is Succeeded,
        !(outcomes[3] is Unavailable),
    ensures
        injection_commands(v, outcomes) == seq![
            run_of("umount"@, seq![v.mount_point]),
            CommandView::RemoveDir { path: v.mount_point },
            run_of("losetup"@, seq!["-d"@, v.loop_device]),
            CommandView::Finish,
        ],
{
    lemma_teardown_unfold(v, outcomes);
}

/// The four commands that follow the sync, with the state after each.
proof fn lemma_teardown_unfold(v: InjectionView, outcomes: Seq<OutcomeView>)
    requires
        v.phase == InjectPhase::Syncing,
        outcomes.len() >= 4,
        !(outcomes[1] is Unavailable),
    ensures
        ({
            let v1 = injection_next(v, outcomes[0]).0;
            let v2 = injection_next(v1, outcomes[1]).0;
            let v3 = injection_next(v2, outcomes[2]).0;
            let c4 = injection_next(v3, outcomes[3]).2;
            injection_commands(v, outcomes) == seq![
                run_of("umount"@, seq![v.mount_point]),
                CommandView::RemoveDir { path: v.mount_point },
                run_of("losetup"@, seq!["-d"@, v.loop_device]),
                c4,
            ]
        }),
{
    let v1 = injection_next(v, outcomes[0]).0;
    let v2 = injection_next(v1, outcomes[1]).0;
    let v3 = injection_next(v2, outcomes[2]).0;
    let v4 = injection_next(v3, outcomes[3]).0;
    lemma_commands_unfold(v, outcomes);
    assert(outcomes.skip(1)[0] == outcomes[1]);
    lemma_commands_unfold(v1, outcomes.skip(1));
    assert(outcomes.skip(1).skip(1) =~= outcomes.skip(2));
    assert(outcomes.skip(2)[0] == outcomes[2]);
    lemma_commands_unfold(v2, outcomes.skip(2));
    assert(outcomes.skip(2).skip(1) =~= outcomes.skip(3));
    assert(outcomes.skip(3)[0] == outcomes[3]);
    lemma_commands_unfold(v3, outcomes.skip(3));
    assert(v4.phase == InjectPhase::Finished);
    assert(injection_commands(v4, outcomes.skip(3).skip(1)) =~= Seq::<CommandView>::empty());
    assert(injection_commands(v, outcomes) =~= seq![
        run_of("umount"@, seq![v.mount_point]),
        CommandView::RemoveDir { path: v.mount_point },
        run_of("losetup"@, seq!["-d"@, v.loop_device]),
        injection_next(v3, outcomes[3]).2,
    ]);
}

/// A configuration injection in progress.
pub struct ConfigInjection {
    phase: InjectPhase,
    mount_point: String,
    src_dir: String,
    copy_stages: bool,
    loop_device: String,
    error: String,
}

impl View for ConfigInjection {
    type V = InjectionView;

    closed spec fn view(&self) -> InjectionView {
        InjectionView {
            phase: self.phase,
            mount_point: self.mount_point@,
            src_dir: self.src_dir@,
            copy_stages: self.copy_stages,
            loop_device: self.loop_device@,
            error: self.error@,
        }
    }
}

/// `rel` appended to the path `base`; see `path_join`.
fn join_path(base: &str, rel: &str) -> (r: String)
    ensures
        r@ == path_join(base@, rel@),
{
    let n = base.unicode_len();
    if n == 0 {
        String::from_str(rel)
    } else if base.get_char(n - 1) == '/' {
        concat2(base, rel)
    } else {
        let b = concat2(base, "/");
        concat2(b.as_str(), rel)
    }
}

/// A command to run `program` with `args`.
fn execute(program: &str, args: Vec<String>) -> (c: InjectCommand)
    ensures
        c@ == run_of(program@, views(args@)),
{
    InjectCommand::Execute { program: String::from_str(program), args }
}

/// A step with no notes.
fn quiet_step(command: InjectCommand) -> (s: InjectStep)
    ensures
        note_views(s.notes@) == Seq::<(NoteKind, Seq<char>)>::empty(),
        s.command@ == command@,
{
    let notes: Vec<Note> = Vec::new();
    assert(note_views(notes@) =~= Seq::<(NoteKind, Seq<char>)>::empty());
    InjectStep { notes, command }
}

/// A step with the one note `text` of kind `kind`.
fn noted_step(kind: NoteKind, text: String, command: InjectCommand) -> (s: InjectStep)
    ensures
        note_views(s.notes@) == seq![(kind, text@)],
        s.command@ == command@,
{
    let mut notes: Vec<Note> = Vec::new();
    notes.push(Note { kind, text });
    assert(note_views(notes@) =~= seq![(kind, notes@[0].text@)]);
    InjectStep { notes, command }
}

/// A step with two notes.
fn twice_noted_step(
    first: (NoteKind, String),
    second: (NoteKind, String),
    command: InjectCommand,
) -> (s: InjectStep)
    ensures
        note_views(s.notes@) == seq![(first.0, first.1@), (second.0, second.1@)],
        s.command@ == command@,
{
    let ghost a = first.1@;
    let ghost b = second.1@;
    let mut notes: Vec<Note> = Vec::new();
    notes.push(Note { kind: first.0, text: first.1 });
    notes.push(Note { kind: second.0, text: second.1 });
    assert(note_views(notes@) =~= seq![(first.0, a), (second.0, b)]);
    InjectStep { notes, command }
}

impl ConfigInjection {
    /// Whether the injection still waits on a command.
    pub fn is_running(&self) -> (r: bool)
        ensures
            r == (self@.phase != InjectPhase::Finished),
    {
        self.phase != InjectPhase::Finished
    }

    /// Starts injecting into `disk_image`, to be mounted at `mount_point`;
    /// the containerfiles of `src_dir` are copied when `src_dir_exists`.
    pub fn start(disk_image: &str, mount_point: &str, src_dir: &str, src_dir_exists: bool) -> (r: (
        ConfigInjection,
        InjectStep,
    ))
        ensures
            r.0@ == injection_start(mount_point@, src_dir@, src_dir_exists),
            note_views(r.1.notes@) == seq![info("Injecting trellis configuration into disk image"@)],
            r.1.command@ == injection_first_command(disk_image@),
    {
        let injection = ConfigInjection {
            phase: InjectPhase::LoopSetup,
            mount_point: String::from_str(mount_point),
            src_dir: String::from_str(src_dir),
            copy_stages: src_dir_exists,
            loop_device: String::new(),
            error: String::new(),
        };
        let step = noted_step(
            NoteKind::Info,
            String::from_str("Injecting trellis configuration into disk image"),
            execute("losetup", loop_setup_args(disk_image)),
        );
        assert(injection@ =~= injection_start(mount_point@, src_dir@, src_dir_exists));
        (injection, step)
    }

    /// Moves to the cleanup after a failed step, to report `error` at its end.
    fn fail_with(&mut self, error: String) -> (s: InjectStep)
        requires
            old(self)@.phase != InjectPhase::Finished,
        ensures
            (final(self)@, note_views(s.notes@), s.command@) == failed_with(old(self)@, error@),
    {
        self.phase = InjectPhase::CleanupUnmounting;
        self.error = error;
        let mut args: Vec<String> = Vec::new();
        args.push(self.mount_point.clone());
        assert(views(args@) =~= seq![self.mount_point@]);
        quiet_step(execute("umount", args))
    }

    /// Stops at once with the error `message`.
    fn stop_with(&mut self, message: String) -> (s: InjectStep)
        ensures
            (final(self)@, note_views(s.notes@), s.command@) == stopped_with(old(self)@, message@),
    {
        self.phase = InjectPhase::Finished;
        quiet_step(InjectCommand::Abort { message, cause: None })
    }

    /// Takes the outcome of the last command; returns the notes and the next
    /// command, as `injection_next` says.
    pub fn advance(&mut self, outcome: Outcome) -> (s: InjectStep)
        requires
            old(self)@.phase != InjectPhase::Finished,
        ensures
            (final(self)@, note_views(s.notes@), s.command@) == injection_next(old(self)@, outcome@),
    {
        match self.phase {
            InjectPhase::LoopSetup => match outcome {
                Outcome::Succeeded(out) => {
                    let device = trim_str(out.as_str());
                    self.phase = InjectPhase::MountPointCreation;
                    self.loop_device = device.clone();
                    let text = concat2("Created loopback device: ", device.as_str());
                    noted_step(
                        NoteKind::Info,
                        text,
                        InjectCommand::CreateDir { path: self.mount_point.clone() },
                    )
                },
                Outcome::Failed(e) => self.stop_with(
                    concat2("Failed to set up loopback device: ", e.as_str()),
                ),
                Outcome::Unavailable(e) => self.stop_with(e),
            },
            InjectPhase::MountPointCreation => match outcome {
                Outcome::Succeeded(_) => {
                    self.phase = InjectPhase::Mounting;
                    let mut args: Vec<String> = Vec::new();
                    args.push(root_partition(self.loop_device.as_str()));
                    args.push(self.mount_point.clone());
                    assert(views(args@) =~= seq![root_of(old(self)@), self.mount_point@]);
                    quiet_step(execute("mount", args))
                },
                Outcome::Failed(e) | Outcome::Unavailable(e) => {
                    self.phase = InjectPhase::Finished;
                    quiet_step(
                        InjectCommand::Abort {
                            message: String::from_str("Failed to create mount point"),
                            cause: Some(e),
                        },
                    )
                },
            },
            InjectPhase::Mounting => match outcome {
                Outcome::Succeeded(_) => {
                    self.phase = InjectPhase::ConfigDirCreation;
                    let root = root_partition(self.loop_device.as_str());
                    let a = concat2("Mounted ", root.as_str());
                    let b = concat2(a.as_str(), " at ");
                    let text = concat2(b.as_str(), self.mount_point.as_str());
                    let dir = join_path(self.mount_point.as_str(), "etc/trellis");
                    noted_step(NoteKind::Info, text, InjectCommand::CreateDir { path: dir })
                },
                Outcome::Failed(e) => {
                    let root = root_partition(self.loop_device.as_str());
                    let a = concat2("Failed to mount root partition ", root.as_str());
                    let b = concat2(a.as_str(), ": ");
                    self.fail_with(concat2(b.as_str(), e.as_str()))
                },
                Outcome::Unavailable(e) => self.stop_with(e),
            },
            InjectPhase::ConfigDirCreation => match outcome {
                Outcome::Succeeded(_) => {
                    self.phase = InjectPhase::StagesDirCreation;
                    let dir = join_path(self.mount_point.as_str(), "var/lib/trellis/stages");
                    quiet_step(InjectCommand::CreateDir { path: dir })
                },
                Outcome::Failed(e) | Outcome::Unavailable(e) => self.fail_with(
                    concat2("Failed to create config directory: ", e.as_str()),
                ),
            },
            InjectPhase::StagesDirCreation => match outcome {
                Outcome::Succeeded(_) => {
                    self.phase = InjectPhase::ConfigWriting;
                    let dir = join_path(self.mount_point.as_str(), "etc/trellis");
                    let file = join_path(dir.as_str(), "trellis.toml");
                    quiet_step(InjectCommand::WriteConfig { path: file })
                },
                Outcome::Failed(e) | Outcome::Unavailable(e) => self.fail_with(
                    concat2("Failed to create stages directory: ", e.as_str()),
                ),
            },
            InjectPhase::ConfigWriting => match outcome {
                Outcome::Succeeded(_) => {
                    let dir = join_path(self.mount_point.as_str(), "etc/trellis");
                    let file = join_path(dir.as_str(), "trellis.toml");
                    let wrote = concat2("Wrote configuration to ", file.as_str());
                    if self.copy_stages {
                        self.phase = InjectPhase::StagesCopying;
                        let a = concat2("Copying stages from ", self.src_dir.as_str());
                        let copying = concat2(a.as_str(), " to disk image");
                        let target = join_path(self.mount_point.as_str(), "var/lib/trellis/stages");
                        let args = copy_contents_args(self.src_dir.as_str(), target.as_str());
                        twice_noted_step(
                            (NoteKind::Info, wrote),
                            (NoteKind::Info, copying),
                            execute("cp", args),
                        )
                    } else {
                        self.phase = InjectPhase::Syncing;
                        let args: Vec<String> = Vec::new();
                        assert(views(args@) =~= Seq::<Seq<char>>::empty());
                        noted_step(NoteKind::Info, wrote, execute("sync", args))
                    }
                },
                Outcome::Failed(e) | Outcome::Unavailable(e) => self.fail_with(
                    concat2("Failed to write trellis.toml: ", e.as_str()),
                ),
            },
            InjectPhase::StagesCopying => match outcome {
                Outcome::Succeeded(_) => {
                    self.phase = InjectPhase::Syncing;
                    let args: Vec<String> = Vec::new();
                    assert(views(args@) =~= Seq::<Seq<char>>::empty());
                    quiet_step(execute("sync", args))
                },
                Outcome::Failed(e) => self.fail_with(concat2("Failed to copy stages: ", e.as_str())),
                Outcome::Unavailable(e) => self.stop_with(e),
            },
            InjectPhase::Syncing => {
                self.phase = InjectPhase::Unmounting;
                let mut args: Vec<String> = Vec::new();
                args.push(self.mount_point.clone());
                assert(views(args@) =~= seq![self.mount_point@]);
                quiet_step(execute("umount", args))
            },
            InjectPhase::Unmounting => match outcome {
                Outcome::Succeeded(_) => {
                    self.phase = InjectPhase::MountPointRemoval;
                    quiet_step(InjectCommand::RemoveDir { path: self.mount_point.clone() })
                },
                Outcome::Failed(e) => {
                    self.phase = InjectPhase::CleanupMountPointRemoval;
                    self.error = concat2("Failed to unmount cleanly: ", e.as_str());
                    quiet_step(InjectCommand::RemoveDir { path: self.mount_point.clone() })
                },
                Outcome::Unavailable(e) => self.stop_with(e),
            },
            InjectPhase::MountPointRemoval | InjectPhase::CleanupMountPointRemoval => {
                self.phase = if self.phase == InjectPhase::MountPointRemoval {
                    InjectPhase::Detaching
                } else {
                    InjectPhase::CleanupDetaching
                };
                let mut args: Vec<String> = Vec::new();
                args.push(String::from_str("-d"));
                args.push(self.loop_device.clone());
                assert(views(args@) =~= seq!["-d"@, self.loop_device@]);
                quiet_step(execute("losetup", args))
            },
            InjectPhase::Detaching => match outcome {
                Outcome::Succeeded(_) => {
                    self.phase = InjectPhase::Finished;
                    noted_step(
                        NoteKind::Info,
                        String::from_str("Configuration injected successfully"),
                        InjectCommand::Finish,
                    )
                },
                Outcome::Failed(e) => {
                    self.phase = InjectPhase::Finished;
                    twice_noted_step(
                        (NoteKind::Warning, concat2("Failed to detach loopback device: ", e.as_str())),
                        (NoteKind::Info, String::from_str("Configuration injected successfully")),
                        InjectCommand::Finish,
                    )
                },
                Outcome::Unavailable(e) => self.stop_with(e),
            },
            InjectPhase::CleanupUnmounting => {
                self.phase = InjectPhase::CleanupMountPointRemoval;
                quiet_step(InjectCommand::RemoveDir { path: self.mount_point.clone() })
            },
            InjectPhase::CleanupDetaching => {
                let message = self.error.clone();
                self.stop_with(message)
            },
            InjectPhase::Finished => quiet_step(InjectCommand::Finish),
        }
    }
}

} // verus!
