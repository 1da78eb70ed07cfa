//! Podman run command lines, and the steps of running a command in the
//! rootfs container, of a bootc upgrade and of a quick update.

use vstd::prelude::*;

use crate::text::{concat2, decimal, decimal_string, push_strs, views};
use crate::trellis::common::{info, note_views, push_note, warning, Note, NoteKind, Outcome, OutcomeView};
use crate::trellis::constants::LOCALHOST_PREFIX;

verus! {

/// Capabilities granted to containers.
#[derive(Debug, Clone, Copy, PartialEq, Eq, Structural)]
pub enum ContainerCapability {
    /// All capabilities.
    All,
    /// SYS_ADMIN: mounts, namespace management.
    SysAdmin,
    /// DAC_OVERRIDE: bypass file permission checks (package management).
    DacOverride,
    /// CHOWN: change file ownership.
    Chown,
    /// FOWNER: change file permissions without owning the file.
    Fowner,
    /// SETUID: set the UID of processes.
    Setuid,
    /// SETGID: set the GID of processes.
    Setgid,
    /// SYS_PTRACE: trace processes.
    SysPtrace,
}

/// The name podman knows a capability by.
pub open spec fn capability_name(cap: ContainerCapability) -> Seq<char> {
    match cap {
        ContainerCapability::All => "ALL"@,
        ContainerCapability::SysAdmin => "SYS_ADMIN"@,
        ContainerCapability::DacOverride => "DAC_OVERRIDE"@,
        ContainerCapability::Chown => "CHOWN"@,
        ContainerCapability::Fowner => "FOWNER"@,
        ContainerCapability::Setuid => "SETUID"@,
        ContainerCapability::Setgid => "SETGID"@,
        ContainerCapability::SysPtrace => "SYS_PTRACE"@,
    }
}

impl ContainerCapability {
    /// The name podman knows the capability by.
    pub fn as_str(self) -> (r: &'static str)
        ensures
            r@ == capability_name(self),
    {
        match self {
            ContainerCapability::All => "ALL",
            ContainerCapability::SysAdmin => "SYS_ADMIN",
            ContainerCapability::DacOverride => "DAC_OVERRIDE",
            ContainerCapability::Chown => "CHOWN",
            ContainerCapability::Fowner => "FOWNER",
            ContainerCapability::Setuid => "SETUID",
            ContainerCapability::Setgid => "SETGID",
            ContainerCapability::SysPtrace => "SYS_PTRACE",
        }
    }
}

/// Builder for podman run arguments; each method appends its arguments.
#[derive(Debug, Clone)]
pub struct PodmanRunCommandBuilder {
    args: Vec<String>,
}

impl View for PodmanRunCommandBuilder {
    type V = Seq<Seq<char>>;

    closed spec fn view(&self) -> Seq<Seq<char>> {
        views(self.args@)
    }
}

impl PodmanRunCommandBuilder {
    fn push_arg(self, arg: String) -> (r: Self)
        ensures
            r@ == self@.push(arg@),
    {
        let mut s = self;
        s.args.push(arg);
        proof {
            assert(views(s.args@) =~= views(self.args@).push(arg@));
        }
        s
    }

    fn push_pair(self, a: String, b: String) -> (r: Self)
        ensures
            r@ == self@ + seq![a@, b@],
    {
        let r = self.push_arg(a).push_arg(b);
        assert(r@ =~= self@ + seq![a@, b@]);
        r
    }

    /// An empty argument list.
    pub fn new() -> (r: Self)
        ensures
            r@ == Seq::<Seq<char>>::empty(),
    {
        let r = PodmanRunCommandBuilder { args: Vec::new() };
        assert(r@ =~= Seq::<Seq<char>>::empty());
        r
    }

    /// Appends `--net host`.
    pub fn network_host(self) -> (r: Self)
        ensures
            r@ == self@ + seq!["--net"@, "host"@],
    {
        self.push_pair(String::from_str("--net"), String::from_str("host"))
    }

    /// Appends `--cap-add <capability>`.
    pub fn add_capability(self, cap: ContainerCapability) -> (r: Self)
        ensures
            r@ == self@ + seq!["--cap-add"@, capability_name(cap)],
    {
        self.push_pair(String::from_str("--cap-add"), String::from_str(cap.as_str()))
    }

    /// Appends `--rm`.
    pub fn remove_on_exit(self) -> (r: Self)
        ensures
            r@ == self@.push("--rm"@),
    {
        self.push_arg(String::from_str("--rm"))
    }

    /// Appends `-it`.
    pub fn interactive(self) -> (r: Self)
        ensures
            r@ == self@.push("-it"@),
    {
        self.push_arg(String::from_str("-it"))
    }

    /// Appends `--name <name>`.
    pub fn name(self, name: &str) -> (r: Self)
        ensures
            r@ == self@ + seq!["--name"@, name@],
    {
        self.push_pair(String::from_str("--name"), String::from_str(name))
    }

    /// Appends the image to run.
    pub fn image(self, image: &str) -> (r: Self)
        ensures
            r@ == self@.push(image@),
    {
        self.push_arg(String::from_str(image))
    }

    /// Appends the command and its arguments.
    pub fn args(self, args: &[String]) -> (r: Self)
        ensures
            r@ == self@ + views(args@),
    {
        let ghost start = self@;
        let mut s = self;
        let mut i: usize = 0;
        while i < args.len()
            invariant
                i <= args@.len(),
                s@ == start + views(args@.take(i as int)),
            decreases args@.len() - i,
        {
            s = s.push_arg(args[i].clone());
            assert(views(args@.take(i + 1)) =~= views(args@.take(i as int)).push(args@[i as int]@));
            i += 1;
        }
        assert(args@.take(args@.len() as int) =~= args@);
        s
    }

    /// The collected arguments.
    pub fn run_args(self) -> (r: Vec<String>)
        ensures
            views(r@) == self@,
    {
        self.args
    }
}

impl Default for PodmanRunCommandBuilder {
    fn default() -> (r: Self)
        ensures
            r@ == Seq::<Seq<char>>::empty(),
    {
        Self::new()
    }
}

/// The capabilities that interactive and update containers get.
pub open spec fn standard_capability_args() -> Seq<Seq<char>> {
    seq![
        "--cap-add"@,
        "SYS_ADMIN"@,
        "--cap-add"@,
        "DAC_OVERRIDE"@,
        "--cap-add"@,
        "CHOWN"@,
        "--cap-add"@,
        "FOWNER"@,
        "--cap-add"@,
        "SETUID"@,
        "--cap-add"@,
        "SETGID"@,
        "--cap-add"@,
        "SYS_PTRACE"@,
    ]
}

fn with_standard_capabilities(b: PodmanRunCommandBuilder) -> (r: PodmanRunCommandBuilder)
    ensures
        r@ == b@ + standard_capability_args(),
{
    let r = b.add_capability(ContainerCapability::SysAdmin).add_capability(
        ContainerCapability::DacOverride,
    ).add_capability(ContainerCapability::Chown).add_capability(ContainerCapability::Fowner).add_capability(
        ContainerCapability::Setuid,
    ).add_capability(ContainerCapability::Setgid).add_capability(ContainerCapability::SysPtrace);
    assert(r@ =~= b@ + standard_capability_args());
    r
}

/// The `podman run` arguments that run `args` interactively in the local
/// image `container_tag`, removed on exit.
pub open spec fn interactive_run_args(container_tag: Seq<char>, args: Seq<Seq<char>>) -> Seq<Seq<char>> {
    seq!["--net"@, "host"@] + standard_capability_args() + seq![
        "--rm"@,
        "-it"@,
        LOCALHOST_PREFIX@ + container_tag,
    ] + args
}

/// The `podman run` arguments that run `args` interactively in the local
/// image `container_tag`.
pub fn interactive_run_args_for(container_tag: &str, args: &[String]) -> (r: Vec<String>)
    ensures
        views(r@) == interactive_run_args(container_tag@, views(args@)),
{
    let image = concat2(LOCALHOST_PREFIX, container_tag);
    let b = with_standard_capabilities(PodmanRunCommandBuilder::new().network_host());
    let r = b.remove_on_exit().interactive().image(image.as_str()).args(args).run_args();
    assert(views(r@) =~= interactive_run_args(container_tag@, views(args@)));
    r
}

/// The `podman run` arguments that run `topgrade -y` in a container named
/// `container_name` from the local image `rootfs_tag`.
pub open spec fn topgrade_run_args(rootfs_tag: Seq<char>, container_name: Seq<char>) -> Seq<Seq<char>> {
    seq!["--net"@, "host"@] + standard_capability_args() + seq![
        "--name"@,
        container_name,
        LOCALHOST_PREFIX@ + rootfs_tag,
        "topgrade"@,
        "-y"@,
    ]
}

/// The `podman run` arguments that run topgrade in a named container.
pub fn topgrade_run_args_for(rootfs_tag: &str, container_name: &str) -> (r: Vec<String>)
    ensures
        views(r@) == topgrade_run_args(rootfs_tag@, container_name@),
{
    let image = concat2(LOCALHOST_PREFIX, rootfs_tag);
    let mut command: Vec<String> = Vec::new();
    push_strs(&mut command, &["topgrade", "-y"]);
    let b = with_standard_capabilities(PodmanRunCommandBuilder::new().network_host());
    let r = b.name(container_name).image(image.as_str()).args(command.as_slice()).run_args();
    assert(views(r@) =~= topgrade_run_args(rootfs_tag@, container_name@));
    r
}

/// The `podman` arguments that check that the local image `container_tag`
/// exists.
pub fn image_exists_args(container_tag: &str) -> (r: Vec<String>)
    ensures
        views(r@) == seq!["image"@, "exists"@, LOCALHOST_PREFIX@ + container_tag@],
{
    let full = concat2(LOCALHOST_PREFIX, container_tag);
    let mut r: Vec<String> = Vec::new();
    push_strs(&mut r, &["image", "exists", full.as_str()]);
    assert(views(r@) =~= seq!["image"@, "exists"@, LOCALHOST_PREFIX@ + container_tag@]);
    r
}

/// The `podman run` arguments that check that `command` is on the path of
/// the local image `container_tag`.
pub fn command_check_args(container_tag: &str, command: &str) -> (r: Vec<String>)
    ensures
        views(r@) == seq!["run"@, "--rm"@, LOCALHOST_PREFIX@ + container_tag@, "which"@, command@],
{
    let full = concat2(LOCALHOST_PREFIX, container_tag);
    let mut r: Vec<String> = Vec::new();
    push_strs(&mut r, &["run", "--rm", full.as_str(), "which", command]);
    assert(views(r@) =~= seq!["run"@, "--rm"@, LOCALHOST_PREFIX@ + container_tag@, "which"@, command@]);
    r
}

/// The `podman commit` arguments that store the container `container_name`
/// as the local image `rootfs_tag`.
pub fn commit_args(container_name: &str, rootfs_tag: &str) -> (r: Vec<String>)
    ensures
        views(r@) == seq![container_name@, LOCALHOST_PREFIX@ + rootfs_tag@],
{
    let full = concat2(LOCALHOST_PREFIX, rootfs_tag);
    let mut r: Vec<String> = Vec::new();
    push_strs(&mut r, &[container_name, full.as_str()]);
    assert(views(r@) =~= seq![container_name@, LOCALHOST_PREFIX@ + rootfs_tag@]);
    r
}

/// The `podman` arguments that remove the container `container_name`.
pub fn container_removal_args(container_name: &str) -> (r: Vec<String>)
    ensures
        views(r@) == seq!["rm"@, container_name@],
{
    let mut r: Vec<String> = Vec::new();
    push_strs(&mut r, &["rm", container_name]);
    assert(views(r@) =~= seq!["rm"@, container_name@]);
    r
}

/// The name of the temporary quick-update container created at the time
/// `secs` seconds and `subsec_nanos` nanoseconds after the epoch: the
/// time in nanoseconds, in decimal, after `trellis-quick-update-`.
pub fn quick_update_container_name(secs: u64, subsec_nanos: u32) -> (r: String)
    requires
        secs * 1_000_000_000 + subsec_nanos <= u64::MAX,
    ensures
        r@ == "trellis-quick-update-"@ + decimal((secs * 1_000_000_000 + subsec_nanos) as nat),
{
    let timestamp = secs * 1_000_000_000 + subsec_nanos as u64;
    let digits = decimal_string(timestamp);
    concat2("trellis-quick-update-", digits.as_str())
}


/// Where a quick update stands: the command it waits on.
#[derive(Debug, Clone, Copy, PartialEq, Eq, Structural)]
pub enum QuickUpdatePhase {
    /// Checking that the rootfs image exists.
    ImageCheck,
    /// Checking that the image has topgrade.
    TopgradeCheck,
    /// Running topgrade in the temporary container.
    TopgradeRun,
    /// Committing the container to the rootfs image.
    Committing,
    /// Removing the temporary container.
    Removing,
    /// Done, with success or with an error.
    Finished,
}

/// What the caller does next.
pub enum QuickUpdateCommand {
    /// Run `podman` with `args`.
    Podman { args: Vec<String> },
    /// Check whether `command` is on the path of the local image
    /// `container_tag`: success when it is, failure when it is not.
    CheckCommand { container_tag: String, command: String },
    /// Run topgrade: `podman run` with `args`.
    RunTopgrade { args: Vec<String> },
    /// `podman commit` with `args`.
    Commit { args: Vec<String> },
    /// Stop: the update is done.
    Finish,
    /// Stop with the error `message`, caused by `cause` where there is one.
    Abort { message: String, cause: Option<String> },
}

/// A quick-update command, with its texts as character sequences.
pub enum QuickUpdateCommandView {
    Podman { args: Seq<Seq<char>> },
    CheckCommand { container_tag: Seq<char>, command: Seq<char> },
    RunTopgrade { args: Seq<Seq<char>> },
    Commit { args: Seq<Seq<char>> },
    Finish,
    Abort { message: Seq<char>, cause: Option<Seq<char>> },
}

/// The view of an optional text.
pub open spec fn opt_text(o: Option<String>) -> Option<Seq<char>> {
    match o {
        Some(t) => Some(t@),
        None => None,
    }
}

impl View for QuickUpdateCommand {
    type V = QuickUpdateCommandView;

    open spec fn view(&self) -> QuickUpdateCommandView {
        match self {
            QuickUpdateCommand::Podman { args } => QuickUpdateCommandView::Podman { args: views(args@) },
            QuickUpdateCommand::CheckCommand { container_tag, command } => QuickUpdateCommandView::CheckCommand {
                container_tag: container_tag@,
                command: command@,
            },
            QuickUpdateCommand::RunTopgrade { args } => QuickUpdateCommandView::RunTopgrade { args: views(args@) },
            QuickUpdateCommand::Commit { args } => QuickUpdateCommandView::Commit { args: views(args@) },
            QuickUpdateCommand::Finish => QuickUpdateCommandView::Finish,
            QuickUpdateCommand::Abort { message, cause } => QuickUpdateCommandView::Abort {
                message: message@,
                cause: opt_text(*cause),
            },
        }
    }
}

/// The notes to show and the command to carry out next.
pub struct QuickUpdateStep {
    pub notes: Vec<Note>,
    pub command: QuickUpdateCommand,
}

/// The state of a quick update.
pub struct QuickUpdateView {
    pub phase: QuickUpdatePhase,
    /// The rootfs image that is updated.
    pub rootfs_tag: Seq<char>,
    /// The temporary container topgrade runs in.
    pub container_name: Seq<char>,
    /// The error of a failed commit, reported once the container is removed.
    pub pending: Option<(Seq<char>, Option<Seq<char>>)>,
}

/// `v` moved to `phase`.
pub open spec fn update_moved(v: QuickUpdateView, phase: QuickUpdatePhase) -> QuickUpdateView {
    QuickUpdateView { phase, rootfs_tag: v.rootfs_tag, container_name: v.container_name, pending: v.pending }
}

/// Stopping at once with an error.
pub open spec fn update_aborted(v: QuickUpdateView, message: Seq<char>, cause: Option<Seq<char>>) -> (
    QuickUpdateView,
    Seq<(NoteKind, Seq<char>)>,
    QuickUpdateCommandView,
) {
    (
        update_moved(v, QuickUpdatePhase::Finished),
        Seq::empty(),
        QuickUpdateCommandView::Abort { message, cause },
    )
}

/// Removing the temporary container after the commit, to report `pending`
/// at the end.
pub open spec fn update_removing(v: QuickUpdateView, pending: Option<(Seq<char>, Option<Seq<char>>)>) -> (
    QuickUpdateView,
    Seq<(NoteKind, Seq<char>)>,
    QuickUpdateCommandView,
) {
    (
        QuickUpdateView {
            phase: QuickUpdatePhase::Removing,
            rootfs_tag: v.rootfs_tag,
            container_name: v.container_name,
            pending,
        },
        seq![info("Cleaning up temporary container..."@)],
        QuickUpdateCommandView::Podman { args: seq!["rm"@, v.container_name] },
    )
}

/// The end of a quick update, after the notes `notes`: success, or the
/// error of the commit.
pub open spec fn update_ended(v: QuickUpdateView, notes: Seq<(NoteKind, Seq<char>)>) -> (
    QuickUpdateView,
    Seq<(NoteKind, Seq<char>)>,
    QuickUpdateCommandView,
) {
    match v.pending {
        None => (
            update_moved(v, QuickUpdatePhase::Finished),
            notes.push(info("Quick update completed successfully"@)),
            QuickUpdateCommandView::Finish,
        ),
        Some((message, cause)) => (
            update_moved(v, QuickUpdatePhase::Finished),
            notes,
            QuickUpdateCommandView::Abort { message, cause },
        ),
    }
}

/// The state a quick update of `rootfs_tag` in the container
/// `container_name` starts in.
pub open spec fn quick_update_start(rootfs_tag: Seq<char>, container_name: Seq<char>) -> QuickUpdateView {
    QuickUpdateView { phase: QuickUpdatePhase::ImageCheck, rootfs_tag, container_name, pending: None }
}

/// The next state, the notes and the next command of a quick update in
/// state `v` whose last command had the outcome `o`.
pub open spec fn quick_update_next(v: QuickUpdateView, o: OutcomeView) -> (
    QuickUpdateView,
    Seq<(NoteKind, Seq<char>)>,
    QuickUpdateCommandView,
) {
    match v.phase {
        QuickUpdatePhase::ImageCheck => match o {
            OutcomeView::Succeeded(_) => (
                update_moved(v, QuickUpdatePhase::TopgradeCheck),
                seq![info("Checking for topgrade availability in container..."@)],
                QuickUpdateCommandView::CheckCommand { container_tag: v.rootfs_tag, command: "topgrade"@ },
            ),
            OutcomeView::Failed(_) => update_aborted(
                v,
                "Container image not found: "@ + LOCALHOST_PREFIX@ + v.rootfs_tag + ". Run 'trls build' first."@,
                None,
            ),
            OutcomeView::Unavailable(e) => update_aborted(v, "Failed to check if image exists"@, Some(e)),
        },
        QuickUpdatePhase::TopgradeCheck => match o {
            OutcomeView::Succeeded(_) => (
                update_moved(v, QuickUpdatePhase::TopgradeRun),
                seq![
                    info("Starting quick update process..."@),
                    info("Running topgrade to update packages..."@),
                ],
                QuickUpdateCommandView::RunTopgrade { args: topgrade_run_args(v.rootfs_tag, v.container_name) },
            ),
            OutcomeView::Failed(_) => update_aborted(
                v,
                "topgrade is not available in the container: "@ + v.rootfs_tag
                    + ". Please rebuild your rootfs container with topgrade installed, or use the regular 'update' command instead."@,
                None,
            ),
            OutcomeView::Unavailable(e) => update_aborted(v, e, None),
        },
        QuickUpdatePhase::TopgradeRun => match o {
            OutcomeView::Succeeded(_) => (
                update_moved(v, QuickUpdatePhase::Committing),
                seq![info("Committing container updates..."@)],
                QuickUpdateCommandView::Commit { args: seq![v.container_name, LOCALHOST_PREFIX@ + v.rootfs_tag] },
            ),
            OutcomeView::Failed(e) => update_aborted(v, "topgrade failed with exit code: "@ + e, None),
            OutcomeView::Unavailable(e) => update_aborted(v, "Failed to run topgrade in container"@, Some(e)),
        },
        QuickUpdatePhase::Committing => match o {
            OutcomeView::Succeeded(_) => update_removing(v, None),
            OutcomeView::Failed(e) => update_removing(v, Some(("Failed to commit container: "@ + e, None))),
            OutcomeView::Unavailable(e) => update_removing(v, Some(("Failed to commit container updates"@, Some(e)))),
        },
        QuickUpdatePhase::Removing => match o {
            OutcomeView::Failed(_) => update_ended(
                v,
                seq![warning(
                    "Failed to clean up temporary container '"@ + v.container_name
                        + "'. You may need to remove it manually."@,
                )],
            ),
            _ => update_ended(v, Seq::empty()),
        },
        QuickUpdatePhase::Finished => (v, Seq::empty(), QuickUpdateCommandView::Finish),
    }
}

/// The commands that a quick update in state `v` issues for the outcomes
/// `outcomes`, one command for each outcome, until it is finished.
pub open spec fn quick_update_commands(v: QuickUpdateView, outcomes: Seq<OutcomeView>) -> Seq<QuickUpdateCommandView>
    decreases outcomes.len(),
{
    if outcomes.len() == 0 || v.phase == QuickUpdatePhase::Finished {
        Seq::empty()
    } else {
        let next = quick_update_next(v, outcomes[0]);
        seq![next.2] + quick_update_commands(next.0, outcomes.drop_first())
    }
}

/// Once topgrade has run, the temporary container is removed whatever the
/// commit's outcome, and only then does the update end: with success when
/// the commit succeeded, else with the commit's error.
pub proof fn law_quick_update_always_removes_container(v: QuickUpdateView, commit: OutcomeView, removal: OutcomeView)
    requires
        v.phase == QuickUpdatePhase::Committing,
    ensures
        quick_update_commands(v, seq![commit, removal]) == seq![
            QuickUpdateCommandView::Podman { args: seq!["rm"@, v.container_name] },
            if commit is Succeeded {
                QuickUpdateCommandView::Finish
            } else {
                quick_update_next(quick_update_next(v, commit).0, removal).2
            },
        ],
        !(commit is Succeeded) ==> quick_update_next(quick_update_next(v, commit).0, removal).2 is Abort,
{
    let outs = seq![commit, removal];
    let v1 = quick_update_next(v, commit).0;
    let v2 = quick_update_next(v1, removal).0;
    assert(outs.drop_first() =~= seq![removal]);
    assert(seq![removal].drop_first() =~= Seq::<OutcomeView>::empty());
    assert(v2.phase == QuickUpdatePhase::Finished);
    assert(quick_update_commands(v2, Seq::<OutcomeView>::empty()) =~= Seq::<QuickUpdateCommandView>::empty());
    assert(quick_update_commands(v1, seq![removal]) =~= seq![quick_update_next(v1, removal).2]);
}

/// A quick update that topgrade cannot run in, or whose image is missing,
/// stops before any container is created.
pub proof fn law_quick_update_checks_before_running(v: QuickUpdateView, o: OutcomeView)
    requires
        v.phase == QuickUpdatePhase::ImageCheck || v.phase == QuickUpdatePhase::TopgradeCheck,
        !(o is Succeeded),
    ensures
        quick_update_next(v, o).2 is Abort,
        quick_update_next(v, o).0.phase == QuickUpdatePhase::Finished,
{
}

/// A quick update in progress.
pub struct QuickUpdate {
    phase: QuickUpdatePhase,
    rootfs_tag: String,
    container_name: String,
    pending: Option<(String, Option<String>)>,
}

impl View for QuickUpdate {
    type V = QuickUpdateView;

    closed spec fn view(&self) -> QuickUpdateView {
        QuickUpdateView {
            phase: self.phase,
            rootfs_tag: self.rootfs_tag@,
            container_name: self.container_name@,
            pending: match self.pending {
                None => None,
                Some((m, c)) => Some((m@, opt_text(c))),
            },
        }
    }
}

/// A copy of an optional text.
fn clone_text(o: &Option<String>) -> (r: Option<String>)
    ensures
        opt_text(r) == opt_text(*o),
{
    match o {
        Some(t) => Some(t.clone()),
        None => None,
    }
}

/// A step with the notes `notes` and the command `command`.
fn update_step(notes: Vec<Note>, command: QuickUpdateCommand) -> (s: QuickUpdateStep)
    ensures
        note_views(s.notes@) == note_views(notes@),
        s.command@ == command@,
{
    QuickUpdateStep { notes, command }
}

impl QuickUpdate {
    /// Starts the quick update of the local image `rootfs_tag`, in the
    /// temporary container `container_name`; the image is checked first.
    pub fn start(rootfs_tag: &str, container_name: &str) -> (r: (QuickUpdate, QuickUpdateStep))
        ensures
            r.0@ == quick_update_start(rootfs_tag@, container_name@),
            note_views(r.1.notes@) == Seq::<(NoteKind, Seq<char>)>::empty(),
            r.1.command@ == (QuickUpdateCommandView::Podman {
                args: seq!["image"@, "exists"@, LOCALHOST_PREFIX@ + rootfs_tag@],
            }),
    {
        let update = QuickUpdate {
            phase: QuickUpdatePhase::ImageCheck,
            rootfs_tag: String::from_str(rootfs_tag),
            container_name: String::from_str(container_name),
            pending: None,
        };
        let notes: Vec<Note> = Vec::new();
        assert(note_views(notes@) =~= Seq::<(NoteKind, Seq<char>)>::empty());
        (update, QuickUpdateStep { notes, command: QuickUpdateCommand::Podman { args: image_exists_args(rootfs_tag) } })
    }

    /// Whether the update still waits on a command.
    pub fn is_running(&self) -> (r: bool)
        ensures
            r == (self@.phase != QuickUpdatePhase::Finished),
    {
        self.phase != QuickUpdatePhase::Finished
    }

    /// Stops at once with an error.
    fn abort(&mut self, message: String, cause: Option<String>) -> (s: QuickUpdateStep)
        ensures
            (final(self)@, note_views(s.notes@), s.command@) == update_aborted(old(self)@, message@, opt_text(cause)),
    {
        self.phase = QuickUpdatePhase::Finished;
        let notes: Vec<Note> = Vec::new();
        assert(note_views(notes@) =~= Seq::<(NoteKind, Seq<char>)>::empty());
        update_step(notes, QuickUpdateCommand::Abort { message, cause })
    }

    /// Removes the temporary container, to report `pending` at the end.
    fn remove_container(&mut self, pending: Option<(String, Option<String>)>) -> (s: QuickUpdateStep)
        ensures
            (final(self)@, note_views(s.notes@), s.command@) == update_removing(
                old(self)@,
                match pending {
                    None => None,
                    Some((m, c)) => Some((m@, opt_text(c))),
                },
            ),
    {
        self.phase = QuickUpdatePhase::Removing;
        self.pending = pending;
        let mut notes: Vec<Note> = Vec::new();
        push_note(&mut notes, NoteKind::Info, String::from_str("Cleaning up temporary container..."));
        assert(note_views(notes@) =~= seq![info("Cleaning up temporary container..."@)]);
        update_step(notes, QuickUpdateCommand::Podman { args: container_removal_args(self.container_name.as_str()) })
    }

    /// Takes the outcome of the last command; returns the notes and the next
    /// command, as `quick_update_next` says.
    pub fn advance(&mut self, outcome: Outcome) -> (s: QuickUpdateStep)
        requires
            old(self)@.phase != QuickUpdatePhase::Finished,
        ensures
            (final(self)@, note_views(s.notes@), s.command@) == quick_update_next(old(self)@, outcome@),
    {
        let mut notes: Vec<Note> = Vec::new();
        let ghost empty = note_views(notes@);
        assert(empty =~= Seq::<(NoteKind, Seq<char>)>::empty());
        match self.phase {
            QuickUpdatePhase::ImageCheck => match outcome {
                Outcome::Succeeded(_) => {
                    self.phase = QuickUpdatePhase::TopgradeCheck;
                    push_note(
                        &mut notes,
                        NoteKind::Info,
                        String::from_str("Checking for topgrade availability in container..."),
                    );
                    assert(note_views(notes@) =~= seq![info("Checking for topgrade availability in container..."@)]);
                    let command = QuickUpdateCommand::CheckCommand {
                        container_tag: self.rootfs_tag.clone(),
                        command: String::from_str("topgrade"),
                    };
                    update_step(notes, command)
                },
                Outcome::Failed(_) => {
                    let a = concat2("Container image not found: ", LOCALHOST_PREFIX);
                    let b = concat2(a.as_str(), self.rootfs_tag.as_str());
                    self.abort(concat2(b.as_str(), ". Run 'trls build' first."), None)
                },
                Outcome::Unavailable(e) => self.abort(String::from_str("Failed to check if image exists"), Some(e)),
            },
            QuickUpdatePhase::TopgradeCheck => match outcome {
                Outcome::Succeeded(_) => {
                    self.phase = QuickUpdatePhase::TopgradeRun;
                    push_note(&mut notes, NoteKind::Info, String::from_str("Starting quick update process..."));
                    push_note(&mut notes, NoteKind::Info, String::from_str("Running topgrade to update packages..."));
                    assert(note_views(notes@) =~= seq![
                        info("Starting quick update process..."@),
                        info("Running topgrade to update packages..."@),
                    ]);
                    let args = topgrade_run_args_for(self.rootfs_tag.as_str(), self.container_name.as_str());
                    update_step(notes, QuickUpdateCommand::RunTopgrade { args })
                },
                Outcome::Failed(_) => {
                    let a = concat2("topgrade is not available in the container: ", self.rootfs_tag.as_str());
                    self.abort(
                        concat2(
                            a.as_str(),
                            ". Please rebuild your rootfs container with topgrade installed, or use the regular 'update' command instead.",
                        ),
                        None,
                    )
                },
                Outcome::Unavailable(e) => self.abort(e, None),
            },
            QuickUpdatePhase::TopgradeRun => match outcome {
                Outcome::Succeeded(_) => {
                    self.phase = QuickUpdatePhase::Committing;
                    push_note(&mut notes, NoteKind::Info, String::from_str("Committing container updates..."));
                    assert(note_views(notes@) =~= seq![info("Committing container updates..."@)]);
                    let args = commit_args(self.container_name.as_str(), self.rootfs_tag.as_str());
                    update_step(notes, QuickUpdateCommand::Commit { args })
                },
                Outcome::Failed(e) => self.abort(concat2("topgrade failed with exit code: ", e.as_str()), None),
                Outcome::Unavailable(e) => self.abort(
                    String::from_str("Failed to run topgrade in container"),
                    Some(e),
                ),
            },
            QuickUpdatePhase::Committing => match outcome {
                Outcome::Succeeded(_) => self.remove_container(None),
                Outcome::Failed(e) => self.remove_container(
                    Some((concat2("Failed to commit container: ", e.as_str()), None)),
                ),
                Outcome::Unavailable(e) => self.remove_container(
                    Some((String::from_str("Failed to commit container updates"), Some(e))),
                ),
            },
            QuickUpdatePhase::Removing => {
                if let Outcome::Failed(_) = outcome {
                    let a = concat2("Failed to clean up temporary container '", self.container_name.as_str());
                    push_note(
                        &mut notes,
                        NoteKind::Warning,
                        concat2(a.as_str(), "'. You may need to remove it manually."),
                    );
                }
                self.phase = QuickUpdatePhase::Finished;
                let command = match &self.pending {
                    None => {
                        push_note(&mut notes, NoteKind::Info, String::from_str("Quick update completed successfully"));
                        QuickUpdateCommand::Finish
                    },
                    Some((message, cause)) => QuickUpdateCommand::Abort {
                        message: message.clone(),
                        cause: clone_text(cause),
                    },
                };
                update_step(notes, command)
            },
            QuickUpdatePhase::Finished => update_step(notes, QuickUpdateCommand::Finish),
        }
    }
}


/// What the caller of a container run or a bootc upgrade does next.
pub enum RunnerCommand {
    /// Run `podman` with `args`, capturing its output.
    Podman { args: Vec<String> },
    /// Run `podman run` with `args`: its output captured in quiet mode, else
    /// shown as it comes.
    PodmanRun { args: Vec<String> },
    /// Run `bootc` with `args`, capturing its output.
    BootcProbe { args: Vec<String> },
    /// Run `bootc` with `args`: its output captured in quiet mode, else shown
    /// as it comes.
    Bootc { args: Vec<String> },
    /// Stop: done.
    Finish,
    /// Stop with the error `message`, caused by `cause` where there is one.
    Abort { message: String, cause: Option<String> },
}

/// A runner command, with its texts as character sequences.
pub enum RunnerCommandView {
    Podman { args: Seq<Seq<char>> },
    PodmanRun { args: Seq<Seq<char>> },
    BootcProbe { args: Seq<Seq<char>> },
    Bootc { args: Seq<Seq<char>> },
    Finish,
    Abort { message: Seq<char>, cause: Option<Seq<char>> },
}

impl View for RunnerCommand {
    type V = RunnerCommandView;

    open spec fn view(&self) -> RunnerCommandView {
        match self {
            RunnerCommand::Podman { args } => RunnerCommandView::Podman { args: views(args@) },
            RunnerCommand::PodmanRun { args } => RunnerCommandView::PodmanRun { args: views(args@) },
            RunnerCommand::BootcProbe { args } => RunnerCommandView::BootcProbe { args: views(args@) },
            RunnerCommand::Bootc { args } => RunnerCommandView::Bootc { args: views(args@) },
            RunnerCommand::Finish => RunnerCommandView::Finish,
            RunnerCommand::Abort { message, cause } => RunnerCommandView::Abort {
                message: message@,
                cause: opt_text(*cause),
            },
        }
    }
}

/// The notes to show and the command to carry out next.
pub struct RunnerStep {
    pub notes: Vec<Note>,
    pub command: RunnerCommand,
}

/// Where a container run or a bootc upgrade stands.
#[derive(Debug, Clone, Copy, PartialEq, Eq, Structural)]
pub enum RunnerPhase {
    /// Checking the precondition: the image exists, or bootc answers.
    Checking,
    /// Running the command itself.
    Running,
    /// Done, with success or with an error.
    Finished,
}

/// Stopping with an error.
pub open spec fn runner_aborted(message: Seq<char>, cause: Option<Seq<char>>) -> (
    RunnerPhase,
    Seq<(NoteKind, Seq<char>)>,
    RunnerCommandView,
) {
    (RunnerPhase::Finished, Seq::empty(), RunnerCommandView::Abort { message, cause })
}

/// The next phase, the notes and the next command of a run of `args` in
/// the local image `container_tag`, in `phase`, whose last command had the
/// outcome `o`.
pub open spec fn container_run_next(
    container_tag: Seq<char>,
    args: Seq<Seq<char>>,
    phase: RunnerPhase,
    o: OutcomeView,
) -> (RunnerPhase, Seq<(NoteKind, Seq<char>)>, RunnerCommandView) {
    match phase {
        RunnerPhase::Checking => match o {
            OutcomeView::Succeeded(_) => (
                RunnerPhase::Running,
                Seq::empty(),
                RunnerCommandView::PodmanRun { args: interactive_run_args(container_tag, args) },
            ),
            OutcomeView::Failed(_) => runner_aborted(
                "Container image not found: "@ + LOCALHOST_PREFIX@ + container_tag + ". Run 'trls build' first."@,
                None,
            ),
            OutcomeView::Unavailable(e) => runner_aborted("Failed to check if image exists"@, Some(e)),
        },
        RunnerPhase::Running => match o {
            OutcomeView::Succeeded(_) => (RunnerPhase::Finished, Seq::empty(), RunnerCommandView::Finish),
            OutcomeView::Failed(d) => runner_aborted("Podman run failed with exit code: "@ + d, None),
            OutcomeView::Unavailable(e) => runner_aborted("Failed to execute podman run command"@, Some(e)),
        },
        RunnerPhase::Finished => (phase, Seq::empty(), RunnerCommandView::Finish),
    }
}

/// The next phase, the notes and the next command of a bootc upgrade, in
/// quiet mode or not, in `phase`, whose last command had the outcome `o`.
/// A failed upgrade is described by its error output in quiet mode and by
/// its exit code otherwise.
pub open spec fn bootc_upgrade_next(quiet: bool, phase: RunnerPhase, o: OutcomeView) -> (
    RunnerPhase,
    Seq<(NoteKind, Seq<char>)>,
    RunnerCommandView,
) {
    match phase {
        RunnerPhase::Checking => match o {
            OutcomeView::Succeeded(_) => (
                RunnerPhase::Running,
                Seq::empty(),
                RunnerCommandView::Bootc { args: seq!["upgrade"@] },
            ),
            OutcomeView::Failed(_) => runner_aborted("bootc is available but not responding correctly"@, None),
            OutcomeView::Unavailable(_) => runner_aborted(
                "bootc is not available. Please install bootc to use the update command."@,
                None,
            ),
        },
        RunnerPhase::Running => match o {
            OutcomeView::Succeeded(_) => (
                RunnerPhase::Finished,
                seq![info("Update completed successfully"@)],
                RunnerCommandView::Finish,
            ),
            OutcomeView::Failed(d) => runner_aborted(
                if quiet {
                    "bootc upgrade failed: "@ + d
                } else {
                    "bootc upgrade failed with exit code: "@ + d
                },
                None,
            ),
            OutcomeView::Unavailable(e) => runner_aborted("Failed to execute bootc upgrade"@, Some(e)),
        },
        RunnerPhase::Finished => (phase, Seq::empty(), RunnerCommandView::Finish),
    }
}

/// Nothing runs in a container whose image is missing: a failed image
/// check stops the run with an error.
pub proof fn law_container_run_needs_image(container_tag: Seq<char>, args: Seq<Seq<char>>, o: OutcomeView)
    requires
        !(o is Succeeded),
    ensures
        container_run_next(container_tag, args, RunnerPhase::Checking, o).0 == RunnerPhase::Finished,
        container_run_next(container_tag, args, RunnerPhase::Checking, o).2 is Abort,
{
}

/// No upgrade is attempted when bootc does not answer: a failed check
/// stops the update with an error.
pub proof fn law_bootc_upgrade_needs_bootc(quiet: bool, o: OutcomeView)
    requires
        !(o is Succeeded),
    ensures
        bootc_upgrade_next(quiet, RunnerPhase::Checking, o).0 == RunnerPhase::Finished,
        bootc_upgrade_next(quiet, RunnerPhase::Checking, o).2 is Abort,
{
}

/// A run of a command in a container of a local image.
pub struct ContainerRun {
    phase: RunnerPhase,
    container_tag: String,
    args: Vec<String>,
}

impl ContainerRun {
    /// The run's phase.
    pub closed spec fn spec_phase(&self) -> RunnerPhase {
        self.phase
    }

    /// The image the run uses.
    pub closed spec fn spec_container_tag(&self) -> Seq<char> {
        self.container_tag@
    }

    /// The command the run runs.
    pub closed spec fn spec_args(&self) -> Seq<Seq<char>> {
        views(self.args@)
    }

    /// Starts running `args` in a container of the local image
    /// `container_tag`; the image is checked first.
    pub fn start(container_tag: &str, args: &[String]) -> (r: (ContainerRun, RunnerStep))
        ensures
            r.0.spec_phase() == RunnerPhase::Checking,
            r.0.spec_container_tag() == container_tag@,
            r.0.spec_args() == views(args@),
            note_views(r.1.notes@) == Seq::<(NoteKind, Seq<char>)>::empty(),
            r.1.command@ == (RunnerCommandView::Podman {
                args: seq!["image"@, "exists"@, LOCALHOST_PREFIX@ + container_tag@],
            }),
    {
        let mut copy: Vec<String> = Vec::new();
        let mut i: usize = 0;
        while i < args.len()
            invariant
                i <= args@.len(),
                views(copy@) == views(args@.take(i as int)),
            decreases args@.len() - i,
        {
            let ghost before = views(copy@);
            copy.push(args[i].clone());
            assert(views(copy@) =~= before.push(args@[i as int]@));
            assert(views(args@.take(i + 1)) =~= views(args@.take(i as int)).push(args@[i as int]@));
            i += 1;
        }
        assert(args@.take(args@.len() as int) =~= args@);
        let run = ContainerRun { phase: RunnerPhase::Checking, container_tag: String::from_str(container_tag), args: copy };
        let notes: Vec<Note> = Vec::new();
        assert(note_views(notes@) =~= Seq::<(NoteKind, Seq<char>)>::empty());
        (run, RunnerStep { notes, command: RunnerCommand::Podman { args: image_exists_args(container_tag) } })
    }

    /// Whether the run still waits on a command.
    pub fn is_running(&self) -> (r: bool)
        ensures
            r == (self.spec_phase() != RunnerPhase::Finished),
    {
        self.phase != RunnerPhase::Finished
    }

    /// Takes the outcome of the last command; returns the notes and the next
    /// command, as `container_run_next` says.
    pub fn advance(&mut self, outcome: Outcome) -> (s: RunnerStep)
        requires
            old(self).spec_phase() != RunnerPhase::Finished,
        ensures
            final(self).spec_container_tag() == old(self).spec_container_tag(),
            final(self).spec_args() == old(self).spec_args(),
            (final(self).spec_phase(), note_views(s.notes@), s.command@) == container_run_next(
                old(self).spec_container_tag(),
                old(self).spec_args(),
                old(self).spec_phase(),
                outcome@,
            ),
    {
        let notes: Vec<Note> = Vec::new();
        assert(note_views(notes@) =~= Seq::<(NoteKind, Seq<char>)>::empty());
        let command = match self.phase {
            RunnerPhase::Checking => match outcome {
                Outcome::Succeeded(_) => {
                    self.phase = RunnerPhase::Running;
                    RunnerCommand::PodmanRun {
                        args: interactive_run_args_for(self.container_tag.as_str(), self.args.as_slice()),
                    }
                },
                Outcome::Failed(_) => {
                    self.phase = RunnerPhase::Finished;
                    let a = concat2("Container image not found: ", LOCALHOST_PREFIX);
                    let b = concat2(a.as_str(), self.container_tag.as_str());
                    RunnerCommand::Abort { message: concat2(b.as_str(), ". Run 'trls build' first."), cause: None }
                },
                Outcome::Unavailable(e) => {
                    self.phase = RunnerPhase::Finished;
                    RunnerCommand::Abort { message: String::from_str("Failed to check if image exists"), cause: Some(e) }
                },
            },
            RunnerPhase::Running => match outcome {
                Outcome::Succeeded(_) => {
                    self.phase = RunnerPhase::Finished;
                    RunnerCommand::Finish
                },
                Outcome::Failed(d) => {
                    self.phase = RunnerPhase::Finished;
                    RunnerCommand::Abort { message: concat2("Podman run failed with exit code: ", d.as_str()), cause: None }
                },
                Outcome::Unavailable(e) => {
                    self.phase = RunnerPhase::Finished;
                    RunnerCommand::Abort {
                        message: String::from_str("Failed to execute podman run command"),
                        cause: Some(e),
                    }
                },
            },
            RunnerPhase::Finished => RunnerCommand::Finish,
        };
        RunnerStep { notes, command }
    }
}

/// A bootc upgrade.
pub struct BootcUpgrade {
    phase: RunnerPhase,
    quiet: bool,
}

impl BootcUpgrade {
    /// The upgrade's phase.
    pub closed spec fn spec_phase(&self) -> RunnerPhase {
        self.phase
    }

    /// Whether the upgrade captures its output.
    pub closed spec fn spec_quiet(&self) -> bool {
        self.quiet
    }

    /// Starts a bootc upgrade, quiet (output captured) or not; bootc is
    /// asked for its version first.
    pub fn start(quiet: bool) -> (r: (BootcUpgrade, RunnerStep))
        ensures
            r.0.spec_phase() == RunnerPhase::Checking,
            r.0.spec_quiet() == quiet,
            note_views(r.1.notes@) == seq![info("Running bootc upgrade..."@)],
            r.1.command@ == (RunnerCommandView::BootcProbe { args: seq!["--version"@] }),
    {
        let mut notes: Vec<Note> = Vec::new();
        push_note(&mut notes, NoteKind::Info, String::from_str("Running bootc upgrade..."));
        assert(note_views(notes@) =~= seq![info("Running bootc upgrade..."@)]);
        let mut args: Vec<String> = Vec::new();
        args.push(String::from_str("--version"));
        assert(views(args@) =~= seq!["--version"@]);
        (BootcUpgrade { phase: RunnerPhase::Checking, quiet }, RunnerStep { notes, command: RunnerCommand::BootcProbe { args } })
    }

    /// Whether the upgrade still waits on a command.
    pub fn is_running(&self) -> (r: bool)
        ensures
            r == (self.spec_phase() != RunnerPhase::Finished),
    {
        self.phase != RunnerPhase::Finished
    }

    /// Takes the outcome of the last command; returns the notes and the next
    /// command, as `bootc_upgrade_next` says.
    pub fn advance(&mut self, outcome: Outcome) -> (s: RunnerStep)
        requires
            old(self).spec_phase() != RunnerPhase::Finished,
        ensures
            final(self).spec_quiet() == old(self).spec_quiet(),
            (final(self).spec_phase(), note_views(s.notes@), s.command@) == bootc_upgrade_next(
                old(self).spec_quiet(),
                old(self).spec_phase(),
                outcome@,
            ),
    {
        let mut notes: Vec<Note> = Vec::new();
        assert(note_views(notes@) =~= Seq::<(NoteKind, Seq<char>)>::empty());
        let command = match self.phase {
            RunnerPhase::Checking => match outcome {
                Outcome::Succeeded(_) => {
                    self.phase = RunnerPhase::Running;
                    let mut args: Vec<String> = Vec::new();
                    args.push(String::from_str("upgrade"));
                    assert(views(args@) =~= seq!["upgrade"@]);
                    RunnerCommand::Bootc { args }
                },
                Outcome::Failed(_) => {
                    self.phase = RunnerPhase::Finished;
                    RunnerCommand::Abort {
                        message: String::from_str("bootc is available but not responding correctly"),
                        cause: None,
                    }
                },
                Outcome::Unavailable(_) => {
                    self.phase = RunnerPhase::Finished;
                    RunnerCommand::Abort {
                        message: String::from_str(
                            "bootc is not available. Please install bootc to use the update command.",
                        ),
                        cause: None,
                    }
                },
            },
            RunnerPhase::Running => match outcome {
                Outcome::Succeeded(_) => {
                    self.phase = RunnerPhase::Finished;
                    push_note(&mut notes, NoteKind::Info, String::from_str("Update completed successfully"));
                    assert(note_views(notes@) =~= seq![info("Update completed successfully"@)]);
                    RunnerCommand::Finish
                },
                Outcome::Failed(d) => {
                    self.phase = RunnerPhase::Finished;
                    let message = if self.quiet {
                        concat2("bootc upgrade failed: ", d.as_str())
                    } else {
                        concat2("bootc upgrade failed with exit code: ", d.as_str())
                    };
                    RunnerCommand::Abort { message, cause: None }
                },
                Outcome::Unavailable(e) => {
                    self.phase = RunnerPhase::Finished;
                    RunnerCommand::Abort { message: String::from_str("Failed to execute bootc upgrade"), cause: Some(e) }
                },
            },
            RunnerPhase::Finished => RunnerCommand::Finish,
        };
        RunnerStep { notes, command }
    }
}

} // verus!
