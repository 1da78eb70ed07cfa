//! Running a multi-stage build: for each stage in order, its containerfile
//! is found, for rootfs builds the cache directories are prepared, and the
//! stage is built on the image of the stage before. The caller carries out
//! each command; `StageBuild` decides, from what came back, what is next.

use vstd::prelude::*;

use crate::config::TrellisConfig;
use crate::text::{concat2, decimal, decimal_string, views};
use crate::trellis::builder::{
    base_image_of, planned_error, stage_args_of, stage_tag_of, BuildType, CacheDirStatus,
    ContainerBuilder,
};
use crate::trellis::constants::BUILDAH_LAYERS_VAR;
use crate::trellis::common::{info, note_views, push_note, warning, Note, NoteKind, Outcome, OutcomeView};
use crate::trellis::discovery::{
    lemma_missing_names_empty, missing_containerfiles, missing_containerfiles_message, missing_names,
    stage_parts, ContainerfileDiscovery, DiscoveryError,
};

verus! {

/// Where a multi-stage build stands: the command it waits on.
#[derive(Debug, Clone, Copy, PartialEq, Eq, Structural)]
pub enum StageBuildPhase {
    /// Finding the containerfile of the current stage.
    Finding,
    /// Preparing the pacman cache directory.
    PreparingPacman,
    /// Preparing the AUR cache directory.
    PreparingAur,
    /// Building the current stage.
    Building,
    /// Done, with success or with an error.
    Finished,
}

/// What came back from the last command.
pub enum BuildEvent {
    /// The containerfile was found at this path.
    Found(String),
    /// It was not found; the text is the error.
    NotFound(String),
    /// What preparing the cache directory found.
    Cache(CacheDirStatus),
    /// How the build went; a failure is described by its exit code and,
    /// when the output was captured, its error output.
    Built(Outcome),
}

/// What the caller does next.
pub enum BuildCommand {
    /// Find the containerfile of `group` below the source directory.
    FindContainerfile { group: String },
    /// Create the cache directory `dir` and check that it is writable.
    PrepareCache { dir: String },
    /// Run `podman build` with `args`.
    Build { args: Vec<String> },
    /// Stop: every stage was built.
    Finish,
    /// Stop with the error `message`, caused by `cause` where there is one.
    Abort { message: String, cause: Option<String> },
}

/// A build command, with its texts as character sequences.
pub enum BuildCommandView {
    FindContainerfile { group: Seq<char> },
    PrepareCache { dir: Seq<char> },
    Build { args: Seq<Seq<char>> },
    Finish,
    Abort { message: Seq<char>, cause: Option<Seq<char>> },
}

impl View for BuildCommand {
    type V = BuildCommandView;

    open spec fn view(&self) -> BuildCommandView {
        match self {
            BuildCommand::FindContainerfile { group } => BuildCommandView::FindContainerfile { group: group@ },
            BuildCommand::PrepareCache { dir } => BuildCommandView::PrepareCache { dir: dir@ },
            BuildCommand::Build { args } => BuildCommandView::Build { args: views(args@) },
            BuildCommand::Finish => BuildCommandView::Finish,
            BuildCommand::Abort { message, cause } => BuildCommandView::Abort {
                message: message@,
                cause: match cause {
                    Some(c) => Some(c@),
                    None => None,
                },
            },
        }
    }
}

/// The notes to show and the command to carry out next.
pub struct BuildStep {
    pub notes: Vec<Note>,
    pub command: BuildCommand,
}

/// The state of a multi-stage build.
pub struct StageBuildView {
    pub phase: StageBuildPhase,
    pub config: TrellisConfig,
    /// The name of the intermediate images (`builder` or `stage`).
    pub tmp_name: Seq<char>,
    /// The tag of the last stage's image.
    pub final_tag: Seq<char>,
    pub stages: Seq<Seq<char>>,
    pub build_type: BuildType,
    /// The current stage.
    pub index: nat,
    /// The tag of the stage built before the current one (empty for the first).
    pub last_stage: Seq<char>,
    /// The containerfile of the current stage.
    pub containerfile: Seq<char>,
    /// What preparing the pacman cache found for the current stage.
    pub pacman: CacheDirStatus,
}

/// The tag of the current stage.
pub open spec fn current_tag(v: StageBuildView) -> Seq<char> {
    stage_tag_of(v.tmp_name, v.final_tag, v.stages, v.index as int)
}

/// `v` moved to `phase`.
pub open spec fn build_moved(v: StageBuildView, phase: StageBuildPhase) -> StageBuildView {
    StageBuildView {
        phase,
        config: v.config,
        tmp_name: v.tmp_name,
        final_tag: v.final_tag,
        stages: v.stages,
        build_type: v.build_type,
        index: v.index,
        last_stage: v.last_stage,
        containerfile: v.containerfile,
        pacman: v.pacman,
    }
}

/// `v` moved to `phase`, having found `containerfile` and `pacman`.
pub open spec fn build_prepared(
    v: StageBuildView,
    phase: StageBuildPhase,
    containerfile: Seq<char>,
    pacman: CacheDirStatus,
) -> StageBuildView {
    StageBuildView {
        phase,
        config: v.config,
        tmp_name: v.tmp_name,
        final_tag: v.final_tag,
        stages: v.stages,
        build_type: v.build_type,
        index: v.index,
        last_stage: v.last_stage,
        containerfile,
        pacman,
    }
}

/// The note that announces the current stage.
pub open spec fn stage_note(v: StageBuildView) -> (NoteKind, Seq<char>) {
    info(
        "Building stage "@ + decimal((v.index + 1) as nat) + "/"@ + decimal(v.stages.len()) + ": "@
            + v.stages[v.index as int] + " -> "@ + current_tag(v),
    )
}

/// The note about the cache directory `dir` (`cache_name` in messages)
/// once preparing it found `status`.
pub open spec fn cache_note(cache_name: Seq<char>, dir: Seq<char>, status: CacheDirStatus) -> (NoteKind, Seq<char>) {
    match status {
        CacheDirStatus::Usable => info("Using "@ + cache_name + " cache: "@ + dir),
        CacheDirStatus::CreateFailed { shown_dir, detail, .. } => warning(
            "Failed to create "@ + cache_name + " cache directory: "@ + shown_dir@ + " - "@ + detail@,
        ),
        CacheDirStatus::ReadOnly { shown_dir } => warning(
            cache_name + " cache directory is read-only: "@ + shown_dir@,
        ),
        CacheDirStatus::Inaccessible { shown_dir, detail } => warning(
            "Cannot access "@ + cache_name + " cache directory: "@ + shown_dir@ + " - "@ + detail@,
        ),
    }
}

/// The current stage once its caches were prepared (`aur` for the AUR
/// cache), after the notes `notes`: its build, or the error of its plan.
pub open spec fn build_planned(v: StageBuildView, aur: CacheDirStatus, notes: Seq<(NoteKind, Seq<char>)>) -> (
    StageBuildView,
    Seq<(NoteKind, Seq<char>)>,
    BuildCommandView,
) {
    match planned_error(v.config, v.build_type, v.pacman, aur) {
        Some(m) => (build_moved(v, StageBuildPhase::Finished), notes, BuildCommandView::Abort { message: m, cause: None }),
        None => (
            build_moved(v, StageBuildPhase::Building),
            notes,
            BuildCommandView::Build {
                args: stage_args_of(
                    v.config,
                    v.build_type,
                    v.containerfile,
                    base_image_of(v.config, v.build_type, v.last_stage),
                    stage_parts(v.stages[v.index as int]).1,
                    current_tag(v),
                ),
            },
        ),
    }
}

/// Stopping with the error `message`.
pub open spec fn build_aborted(v: StageBuildView, message: Seq<char>, cause: Option<Seq<char>>) -> (
    StageBuildView,
    Seq<(NoteKind, Seq<char>)>,
    BuildCommandView,
) {
    (build_moved(v, StageBuildPhase::Finished), Seq::empty(), BuildCommandView::Abort { message, cause })
}

/// Whether `e` answers the command that a build in state `v` waits on.
pub open spec fn build_expects(v: StageBuildView, e: BuildEvent) -> bool {
    match v.phase {
        StageBuildPhase::Finding => e is Found || e is NotFound,
        StageBuildPhase::PreparingPacman | StageBuildPhase::PreparingAur => e is Cache,
        StageBuildPhase::Building => e is Built,
        StageBuildPhase::Finished => false,
    }
}

/// The invariant of a build: the current stage is one of the stages, and
/// a cache is prepared only when it is configured.
pub open spec fn build_wf(v: StageBuildView) -> bool {
    &&& v.phase != StageBuildPhase::Finished ==> v.index < v.stages.len()
    &&& v.phase == StageBuildPhase::PreparingPacman ==> v.config.pacman_cache is Some
    &&& v.phase == StageBuildPhase::PreparingAur ==> v.config.aur_cache is Some
}

/// The state in which a build of `stages` starts, where `found[i]` tells
/// whether the containerfile of stage `i`'s group exists: finished at once
/// when one of them is missing or there are no stages.
pub open spec fn stage_build_start(
    config: TrellisConfig,
    tmp_name: Seq<char>,
    final_tag: Seq<char>,
    stages: Seq<Seq<char>>,
    build_type: BuildType,
    found: Seq<bool>,
) -> StageBuildView {
    StageBuildView {
        phase: if missing_names(stages, found).len() > 0 || stages.len() == 0 {
            StageBuildPhase::Finished
        } else {
            StageBuildPhase::Finding
        },
        config,
        tmp_name,
        final_tag,
        stages,
        build_type,
        index: 0,
        last_stage: Seq::empty(),
        containerfile: Seq::empty(),
        pacman: CacheDirStatus::Usable,
    }
}

/// The command a build of `stages` starts with: the error that names the
/// missing containerfiles when any is missing, else the search for the
/// first stage's containerfile, or `Finish` when there are no stages.
pub open spec fn stage_build_first_command(stages: Seq<Seq<char>>, found: Seq<bool>) -> BuildCommandView {
    if missing_names(stages, found).len() > 0 {
        BuildCommandView::Abort {
            message: missing_containerfiles_message(missing_names(stages, found)),
            cause: None,
        }
    } else if stages.len() == 0 {
        BuildCommandView::Finish
    } else {
        BuildCommandView::FindContainerfile { group: stage_parts(stages[0]).0 }
    }
}

/// The next state, the notes and the next command of a build in state `v`
/// that got the event `e`.
pub open spec fn stage_build_next(v: StageBuildView, e: BuildEvent) -> (
    StageBuildView,
    Seq<(NoteKind, Seq<char>)>,
    BuildCommandView,
) {
    match v.phase {
        StageBuildPhase::Finding => match e {
            BuildEvent::Found(path) => {
                let notes = seq![stage_note(v)];
                if v.build_type == BuildType::Rootfs && v.config.pacman_cache is Some {
                    (
                        build_prepared(v, StageBuildPhase::PreparingPacman, path@, CacheDirStatus::Usable),
                        notes,
                        BuildCommandView::PrepareCache { dir: v.config.pacman_cache->0@ },
                    )
                } else if v.build_type == BuildType::Rootfs && v.config.aur_cache is Some {
                    (
                        build_prepared(v, StageBuildPhase::PreparingAur, path@, CacheDirStatus::Usable),
                        notes,
                        BuildCommandView::PrepareCache { dir: v.config.aur_cache->0@ },
                    )
                } else {
                    build_planned(
                        build_prepared(v, v.phase, path@, CacheDirStatus::Usable),
                        CacheDirStatus::Usable,
                        notes,
                    )
                }
            },
            BuildEvent::NotFound(message) => build_aborted(v, message@, None),
            _ => (v, Seq::empty(), BuildCommandView::Finish),
        },
        StageBuildPhase::PreparingPacman => match e {
            BuildEvent::Cache(status) => {
                let notes = seq![cache_note("pacman"@, v.config.pacman_cache->0@, status)];
                if status is Usable && v.config.aur_cache is Some {
                    (
                        build_prepared(v, StageBuildPhase::PreparingAur, v.containerfile, status),
                        notes,
                        BuildCommandView::PrepareCache { dir: v.config.aur_cache->0@ },
                    )
                } else {
                    build_planned(
                        build_prepared(v, v.phase, v.containerfile, status),
                        CacheDirStatus::Usable,
                        notes,
                    )
                }
            },
            _ => (v, Seq::empty(), BuildCommandView::Finish),
        },
        StageBuildPhase::PreparingAur => match e {
            BuildEvent::Cache(status) => build_planned(
                v,
                status,
                seq![cache_note("AUR"@, v.config.aur_cache->0@, status)],
            ),
            _ => (v, Seq::empty(), BuildCommandView::Finish),
        },
        StageBuildPhase::Building => match e {
            BuildEvent::Built(outcome) => match outcome@ {
                OutcomeView::Succeeded(_) => {
                    let done = StageBuildView {
                        phase: if v.index + 1 == v.stages.len() {
                            StageBuildPhase::Finished
                        } else {
                            StageBuildPhase::Finding
                        },
                        config: v.config,
                        tmp_name: v.tmp_name,
                        final_tag: v.final_tag,
                        stages: v.stages,
                        build_type: v.build_type,
                        index: (v.index + 1) as nat,
                        last_stage: current_tag(v),
                        containerfile: v.containerfile,
                        pacman: v.pacman,
                    };
                    if v.index + 1 == v.stages.len() {
                        (done, Seq::empty(), BuildCommandView::Finish)
                    } else {
                        (
                            done,
                            Seq::empty(),
                            BuildCommandView::FindContainerfile {
                                group: stage_parts(v.stages[v.index + 1int]).0,
                            },
                        )
                    }
                },
                OutcomeView::Failed(detail) => build_aborted(
                    v,
                    "Podman build failed with exit code: "@ + detail
                        + ". Check podman logs for details. Ensure sufficient disk space and proper permissions."@,
                    None,
                ),
                OutcomeView::Unavailable(cause) => build_aborted(
                    v,
                    "Failed to build stage: "@ + v.stages[v.index as int],
                    Some(cause),
                ),
            },
            _ => (v, Seq::empty(), BuildCommandView::Finish),
        },
        StageBuildPhase::Finished => (v, Seq::empty(), BuildCommandView::Finish),
    }
}

/// Whether the build remembers the tag of the stage before the current
/// one: none before the first stage.
pub open spec fn build_chained(v: StageBuildView) -> bool {
    &&& v.index == 0 ==> v.last_stage.len() == 0
    &&& v.index > 0 ==> v.last_stage == stage_tag_of(v.tmp_name, v.final_tag, v.stages, v.index - 1)
}

/// A build starts at its first stage, with nothing built before it.
pub proof fn law_build_starts_unchained(
    config: TrellisConfig,
    tmp_name: Seq<char>,
    final_tag: Seq<char>,
    stages: Seq<Seq<char>>,
    build_type: BuildType,
    found: Seq<bool>,
)
    ensures
        build_wf(stage_build_start(config, tmp_name, final_tag, stages, build_type, found)),
        build_chained(stage_build_start(config, tmp_name, final_tag, stages, build_type, found)),
        stage_build_start(config, tmp_name, final_tag, stages, build_type, found).index == 0,
{
}

/// Every containerfile is checked before anything is built: when the
/// containerfile of any stage is missing, the build stops at once with the
/// error that names every missing one, and no stage is built; when all are
/// there, it starts by looking up the first stage's containerfile.
pub proof fn law_build_checks_containerfiles_first(
    config: TrellisConfig,
    tmp_name: Seq<char>,
    final_tag: Seq<char>,
    stages: Seq<Seq<char>>,
    build_type: BuildType,
    found: Seq<bool>,
)
    requires
        found.len() == stages.len(),
    ensures
        (exists|i: int| 0 <= i < stages.len() && !#[trigger] found[i]) ==> {
            &&& stage_build_start(config, tmp_name, final_tag, stages, build_type, found).phase
                == StageBuildPhase::Finished
            &&& stage_build_first_command(stages, found) == (BuildCommandView::Abort {
                message: missing_containerfiles_message(missing_names(stages, found)),
                cause: None,
            })
        },
        (forall|i: int| 0 <= i < stages.len() ==> #[trigger] found[i]) && stages.len() > 0 ==> {
            &&& stage_build_start(config, tmp_name, final_tag, stages, build_type, found).phase
                == StageBuildPhase::Finding
            &&& stage_build_first_command(stages, found) == (BuildCommandView::FindContainerfile {
                group: stage_parts(stages[0]).0,
            })
        },
{
    lemma_missing_names_empty(stages, found);
}

/// Every step keeps the invariant, and the build keeps remembering the tag
/// of the stage before the current one.
pub proof fn law_build_step_keeps_chain(v: StageBuildView, e: BuildEvent)
    requires
        build_wf(v),
        build_chained(v),
        build_expects(v, e),
    ensures
        build_wf(stage_build_next(v, e).0),
        build_chained(stage_build_next(v, e).0),
{
}

/// The stages are built in order, each on the image of the stage before
/// it: a build issued for the current stage has its tag, its target, and as
/// `BASE_IMAGE` the configured base (or `scratch`) for the first stage and
/// `localhost/<tag of the stage before>` for every other.
pub proof fn law_build_on_previous_stage(v: StageBuildView, e: BuildEvent)
    requires
        build_wf(v),
        build_chained(v),
        build_expects(v, e),
    ensures
        stage_build_next(v, e).2 matches BuildCommandView::Build { args } ==> args == stage_args_of(
            v.config,
            v.build_type,
            stage_build_next(v, e).0.containerfile,
            if v.index == 0 {
                match v.build_type {
                    BuildType::Rootfs => v.config.rootfs_base@,
                    BuildType::Builder => "scratch"@,
                }
            } else {
                crate::trellis::constants::LOCALHOST_PREFIX@ + stage_tag_of(
                    v.tmp_name,
                    v.final_tag,
                    v.stages,
                    v.index - 1,
                )
            },
            stage_parts(v.stages[v.index as int]).1,
            stage_tag_of(v.tmp_name, v.final_tag, v.stages, v.index as int),
        ),
{
    if v.index > 0 {
        let prev = stage_tag_of(v.tmp_name, v.final_tag, v.stages, v.index - 1);
        reveal_strlit("trellis-");
        assert(prev.len() > 0);
    }
}

/// A stage whose containerfile is missing, or whose build fails or cannot
/// run, stops the whole build with an error: no later stage is built.
pub proof fn law_build_stops_at_failure(v: StageBuildView, e: BuildEvent)
    requires
        build_wf(v),
        build_expects(v, e),
        e is NotFound || (e matches BuildEvent::Built(o) && !(o@ is Succeeded)),
    ensures
        stage_build_next(v, e).0.phase == StageBuildPhase::Finished,
        stage_build_next(v, e).2 is Abort,
{
}

/// The build finishes once its last stage was built, and that stage's
/// image has the final tag.
pub proof fn law_build_finishes_with_final_tag(v: StageBuildView, e: BuildEvent)
    requires
        build_wf(v),
        build_expects(v, e),
        v.phase == StageBuildPhase::Building,
        v.index == v.stages.len() - 1,
        e matches BuildEvent::Built(o) && o@ is Succeeded,
    ensures
        stage_build_next(v, e).2 is Finish,
        stage_build_next(v, e).0.last_stage == v.final_tag,
{
}

/// A multi-stage build in progress.
pub struct StageBuild<'a> {
    builder: ContainerBuilder<'a>,
    phase: StageBuildPhase,
    tmp_name: String,
    final_tag: String,
    stages: Vec<String>,
    build_type: BuildType,
    index: usize,
    last_stage: String,
    containerfile: String,
    pacman: CacheDirStatus,
}

impl<'a> View for StageBuild<'a> {
    type V = StageBuildView;

    closed spec fn view(&self) -> StageBuildView {
        StageBuildView {
            phase: self.phase,
            config: self.builder.spec_config(),
            tmp_name: self.tmp_name@,
            final_tag: self.final_tag@,
            stages: views(self.stages@),
            build_type: self.build_type,
            index: self.index as nat,
            last_stage: self.last_stage@,
            containerfile: self.containerfile@,
            pacman: self.pacman,
        }
    }
}

/// The note about a prepared cache directory; see `cache_note`.
fn cache_note_of(cache_name: &str, dir: &str, status: &CacheDirStatus) -> (r: (NoteKind, String))
    ensures
        (r.0, r.1@) == cache_note(cache_name@, dir@, *status),
{
    match status {
        CacheDirStatus::Usable => {
            let a = concat2("Using ", cache_name);
            let b = concat2(a.as_str(), " cache: ");
            (NoteKind::Info, concat2(b.as_str(), dir))
        },
        CacheDirStatus::CreateFailed { shown_dir, detail, .. } => {
            let a = concat2("Failed to create ", cache_name);
            let b = concat2(a.as_str(), " cache directory: ");
            let c = concat2(b.as_str(), shown_dir.as_str());
            let d = concat2(c.as_str(), " - ");
            (NoteKind::Warning, concat2(d.as_str(), detail.as_str()))
        },
        CacheDirStatus::ReadOnly { shown_dir } => {
            let a = concat2(cache_name, " cache directory is read-only: ");
            (NoteKind::Warning, concat2(a.as_str(), shown_dir.as_str()))
        },
        CacheDirStatus::Inaccessible { shown_dir, detail } => {
            let a = concat2("Cannot access ", cache_name);
            let b = concat2(a.as_str(), " cache directory: ");
            let c = concat2(b.as_str(), shown_dir.as_str());
            let d = concat2(c.as_str(), " - ");
            (NoteKind::Warning, concat2(d.as_str(), detail.as_str()))
        },
    }
}

/// The group of stage `i`.
fn group_of(stages: &Vec<String>, i: usize) -> (r: String)
    requires
        i < stages@.len(),
    ensures
        r@ == stage_parts(views(stages@)[i as int]).0,
{
    let (group, _) = ContainerfileDiscovery::parse_stage_name(stages[i].as_str());
    group
}

impl<'a> StageBuild<'a> {
    /// Starts building `stages` in order with `builder`'s configuration;
    /// intermediate images are named after `tmp_name` and the last one is
    /// tagged `final_tag`. `found[i]` tells whether the containerfile of
    /// stage `i`'s group exists: when any is missing, the build stops at once
    /// with the error that names them. With no stages it is finished at once.
    pub fn start(
        builder: ContainerBuilder<'a>,
        tmp_name: &str,
        final_tag: &str,
        stages: Vec<String>,
        build_type: BuildType,
        found: &[bool],
    ) -> (r: (StageBuild<'a>, BuildStep))
        requires
            found@.len() == stages@.len(),
        ensures
            r.0@ == stage_build_start(
                builder.spec_config(),
                tmp_name@,
                final_tag@,
                views(stages@),
                build_type,
                found@,
            ),
            build_wf(r.0@),
            note_views(r.1.notes@) == Seq::<(NoteKind, Seq<char>)>::empty(),
            r.1.command@ == stage_build_first_command(views(stages@), found@),
    {
        let notes: Vec<Note> = Vec::new();
        assert(note_views(notes@) =~= Seq::<(NoteKind, Seq<char>)>::empty());
        let missing = missing_containerfiles(stages.as_slice(), found);
        let any_missing = missing.len() > 0;
        let command = if any_missing {
            let error = DiscoveryError::MissingContainerfiles(missing);
            BuildCommand::Abort { message: error.message(), cause: None }
        } else if stages.len() == 0 {
            BuildCommand::Finish
        } else {
            BuildCommand::FindContainerfile { group: group_of(&stages, 0) }
        };
        let phase = if any_missing || stages.len() == 0 {
            StageBuildPhase::Finished
        } else {
            StageBuildPhase::Finding
        };
        let build = StageBuild {
            builder,
            phase,
            tmp_name: String::from_str(tmp_name),
            final_tag: String::from_str(final_tag),
            stages,
            build_type,
            index: 0,
            last_stage: String::new(),
            containerfile: String::new(),
            pacman: CacheDirStatus::Usable,
        };
        (build, BuildStep { notes, command })
    }

    /// The environment setting the builds run with, if any: layer caching
    /// off (`BUILDAH_LAYERS=false`) when the configuration turns the build
    /// cache off.
    pub fn environment(&self) -> (r: Option<(String, String)>)
        ensures
            self@.config.podman_build_cache ==> r is None,
            !self@.config.podman_build_cache ==> (r matches Some((key, value)) && key@ == BUILDAH_LAYERS_VAR@
                && value@ == "false"@),
    {
        if self.builder.config().podman_build_cache {
            None
        } else {
            Some((String::from_str(BUILDAH_LAYERS_VAR), String::from_str("false")))
        }
    }

    /// Whether the build still waits on a command.
    pub fn is_running(&self) -> (r: bool)
        ensures
            r == (self@.phase != StageBuildPhase::Finished),
    {
        self.phase != StageBuildPhase::Finished
    }

    /// Whether the build's invariant holds; it always does for a build made
    /// by `start` and moved on by `advance`.
    pub fn is_consistent(&self) -> (r: bool)
        ensures
            r == build_wf(self@),
    {
        let config = self.builder.config();
        (self.phase == StageBuildPhase::Finished || self.index < self.stages.len())
            && (self.phase != StageBuildPhase::PreparingPacman || config.pacman_cache.is_some())
            && (self.phase != StageBuildPhase::PreparingAur || config.aur_cache.is_some())
    }

    /// Whether `event` answers the command the build waits on.
    pub fn expects(&self, event: &BuildEvent) -> (r: bool)
        ensures
            r == build_expects(self@, *event),
    {
        match self.phase {
            StageBuildPhase::Finding => matches!(event, BuildEvent::Found(_) | BuildEvent::NotFound(_)),
            StageBuildPhase::PreparingPacman | StageBuildPhase::PreparingAur => matches!(event, BuildEvent::Cache(_)),
            StageBuildPhase::Building => matches!(event, BuildEvent::Built(_)),
            StageBuildPhase::Finished => false,
        }
    }

    /// The build or plan error of the current stage, once its caches were
    /// prepared (`aur` for the AUR cache), after the notes `notes`.
    fn plan_current(&mut self, aur: &CacheDirStatus, notes: Vec<Note>) -> (s: BuildStep)
        requires
            old(self)@.index < old(self)@.stages.len(),
        ensures
            (final(self)@, note_views(s.notes@), s.command@) == build_planned(old(self)@, *aur, note_views(notes@)),
    {
        let planned = self.builder.plan_stage(
            self.tmp_name.as_str(),
            self.final_tag.as_str(),
            self.stages.as_slice(),
            self.index,
            self.build_type,
            self.last_stage.as_str(),
            self.containerfile.as_str(),
            &self.pacman,
            aur,
        );
        match planned {
            Ok(plan) => {
                self.phase = StageBuildPhase::Building;
                BuildStep { notes, command: BuildCommand::Build { args: plan.args } }
            },
            Err(e) => {
                self.phase = StageBuildPhase::Finished;
                BuildStep { notes, command: BuildCommand::Abort { message: e.message(), cause: None } }
            },
        }
    }

    /// Takes the answer to the last command; returns the notes and the next
    /// command, as `stage_build_next` says.
    pub fn advance(&mut self, event: BuildEvent) -> (s: BuildStep)
        requires
            build_wf(old(self)@),
            build_expects(old(self)@, event),
        ensures
            build_wf(final(self)@),
            (final(self)@, note_views(s.notes@), s.command@) == stage_build_next(old(self)@, event),
    {
        let ghost v = self@;
        let n = self.stages.len();
        assert(self.index < n);
        let mut notes: Vec<Note> = Vec::new();
        assert(note_views(notes@) =~= Seq::<(NoteKind, Seq<char>)>::empty());
        match event {
            BuildEvent::Found(path) => {
                let count = decimal_string((self.index + 1) as u64);
                let total = decimal_string(self.stages.len() as u64);
                let tag = ContainerBuilder::stage_tag(
                    self.tmp_name.as_str(),
                    self.final_tag.as_str(),
                    self.stages.as_slice(),
                    self.index,
                );
                let a = concat2("Building stage ", count.as_str());
                let b = concat2(a.as_str(), "/");
                let c = concat2(b.as_str(), total.as_str());
                let d = concat2(c.as_str(), ": ");
                let e = concat2(d.as_str(), self.stages[self.index].as_str());
                let f = concat2(e.as_str(), " -> ");
                push_note(&mut notes, NoteKind::Info, concat2(f.as_str(), tag.as_str()));
                assert(note_views(notes@) =~= seq![stage_note(v)]);
                self.containerfile = path;
                self.pacman = CacheDirStatus::Usable;
                let rootfs = self.build_type == BuildType::Rootfs;
                let config = self.builder.config();
                if rootfs && config.pacman_cache.is_some() {
                    self.phase = StageBuildPhase::PreparingPacman;
                    let dir = match &config.pacman_cache {
                        Some(d) => d.clone(),
                        None => String::new(),
                    };
                    BuildStep { notes, command: BuildCommand::PrepareCache { dir } }
                } else if rootfs && config.aur_cache.is_some() {
                    self.phase = StageBuildPhase::PreparingAur;
                    let dir = match &config.aur_cache {
                        Some(d) => d.clone(),
                        None => String::new(),
                    };
                    BuildStep { notes, command: BuildCommand::PrepareCache { dir } }
                } else {
                    self.plan_current(&CacheDirStatus::Usable, notes)
                }
            },
            BuildEvent::NotFound(message) => {
                self.phase = StageBuildPhase::Finished;
                BuildStep { notes, command: BuildCommand::Abort { message, cause: None } }
            },
            BuildEvent::Cache(status) => {
                let config = self.builder.config();
                if self.phase == StageBuildPhase::PreparingPacman {
                    let dir = match &config.pacman_cache {
                        Some(d) => d.clone(),
                        None => String::new(),
                    };
                    let (kind, text) = cache_note_of("pacman", dir.as_str(), &status);
                    push_note(&mut notes, kind, text);
                    assert(note_views(notes@) =~= seq![cache_note("pacman"@, v.config.pacman_cache->0@, status)]);
                    let usable = matches!(status, CacheDirStatus::Usable);
                    self.pacman = status;
                    if usable && config.aur_cache.is_some() {
                        self.phase = StageBuildPhase::PreparingAur;
                        let aur_dir = match &config.aur_cache {
                            Some(d) => d.clone(),
                            None => String::new(),
                        };
                        BuildStep { notes, command: BuildCommand::PrepareCache { dir: aur_dir } }
                    } else {
                        self.plan_current(&CacheDirStatus::Usable, notes)
                    }
                } else {
                    let dir = match &config.aur_cache {
                        Some(d) => d.clone(),
                        None => String::new(),
                    };
                    let (kind, text) = cache_note_of("AUR", dir.as_str(), &status);
                    push_note(&mut notes, kind, text);
                    assert(note_views(notes@) =~= seq![cache_note("AUR"@, v.config.aur_cache->0@, status)]);
                    self.plan_current(&status, notes)
                }
            },
            BuildEvent::Built(outcome) => match outcome {
                Outcome::Succeeded(_) => {
                    let tag = ContainerBuilder::stage_tag(
                        self.tmp_name.as_str(),
                        self.final_tag.as_str(),
                        self.stages.as_slice(),
                        self.index,
                    );
                    self.last_stage = tag;
                    self.index = self.index + 1;
                    if self.index == self.stages.len() {
                        self.phase = StageBuildPhase::Finished;
                        BuildStep { notes, command: BuildCommand::Finish }
                    } else {
                        self.phase = StageBuildPhase::Finding;
                        let group = group_of(&self.stages, self.index);
                        BuildStep { notes, command: BuildCommand::FindContainerfile { group } }
                    }
                },
                Outcome::Failed(detail) => {
                    self.phase = StageBuildPhase::Finished;
                    let a = concat2("Podman build failed with exit code: ", detail.as_str());
                    let message = concat2(
                        a.as_str(),
                        ". Check podman logs for details. Ensure sufficient disk space and proper permissions.",
                    );
                    BuildStep { notes, command: BuildCommand::Abort { message, cause: None } }
                },
                Outcome::Unavailable(cause) => {
                    self.phase = StageBuildPhase::Finished;
                    let message = concat2("Failed to build stage: ", self.stages[self.index].as_str());
                    BuildStep { notes, command: BuildCommand::Abort { message, cause: Some(cause) } }
                },
            },
        }
    }
}

} // verus!
