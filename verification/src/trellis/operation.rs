//! The build operations of trellis: building the builder image, building
//! the rootfs image (after making sure the builder image exists), the
//! update (a rootfs build, then a bootc upgrade) and disk image generation.
//! The caller carries out each command; `Operation` decides, from how it
//! went, what comes next.

use vstd::prelude::*;

use crate::config::{ConfigError, ConfigValidator, TrellisConfig};
use crate::text::{concat2, views};
use crate::trellis::builder::BuildType;
use crate::trellis::common::{info, note_views, outcome_text, push_note, warning, Note, NoteKind, Outcome, OutcomeView};
use crate::trellis::constants::LOCALHOST_PREFIX;
use crate::trellis::image_generator::{image_listing_args, opt_str_view, resolve_image_tag, resolved_image_ref};
use crate::trellis::{builder_listing_args, lists_prefix};

verus! {

/// What an operation is for.
#[derive(Debug, Clone, Copy, PartialEq, Eq, Structural)]
pub enum Goal {
    /// Build the builder image.
    BuildBuilder,
    /// Build the rootfs image.
    BuildRootfs,
    /// Build the rootfs image, then upgrade the system with bootc.
    Update,
    /// Generate a disk image, after building the rootfs image when asked.
    Image,
}

/// Where an operation stands: the command it waits on.
#[derive(Debug, Clone, Copy, PartialEq, Eq, Structural)]
pub enum OperationPhase {
    /// Checking that the builder image exists.
    CheckingBuilder,
    /// Asking whether to build the missing builder image.
    Asking,
    /// Building the builder image.
    BuildingBuilder,
    /// Cleaning up after the builder build.
    CleaningAfterBuilder,
    /// Building the rootfs image.
    BuildingRootfs,
    /// Cleaning up after the rootfs build.
    CleaningAfterRootfs,
    /// Upgrading the system with bootc.
    Upgrading,
    /// Generating the disk image.
    GeneratingImage,
    /// Done, with success or with an error.
    Finished,
}

/// What the caller does next.
pub enum OperationCommand {
    /// List the builder image with `podman images` and `args`.
    ListBuilderImage { args: Vec<String> },
    /// Ask the user `question`: success when the answer is yes, failure
    /// when it is not.
    Ask { question: String },
    /// Build `stages` in order, the intermediate images named after
    /// `tmp_name` and the last one tagged `final_tag`.
    BuildStages { tmp_name: String, final_tag: String, stages: Vec<String>, build_type: BuildType },
    /// Run the automatic cleanup of intermediate images.
    AutoClean,
    /// Upgrade the system with bootc.
    BootcUpgrade,
    /// Generate the disk image from the image `image_tag`.
    GenerateImage { image_tag: String },
    /// Stop: the operation succeeded.
    Finish,
    /// Stop with the error `message`, caused by `cause` where there is one.
    Abort { message: String, cause: Option<String> },
}

/// An operation command, with its texts as character sequences.
pub enum OperationCommandView {
    ListBuilderImage { args: Seq<Seq<char>> },
    Ask { question: Seq<char> },
    BuildStages { tmp_name: Seq<char>, final_tag: Seq<char>, stages: Seq<Seq<char>>, build_type: BuildType },
    AutoClean,
    BootcUpgrade,
    GenerateImage { image_tag: Seq<char> },
    Finish,
    Abort { message: Seq<char>, cause: Option<Seq<char>> },
}

impl View for OperationCommand {
    type V = OperationCommandView;

    open spec fn view(&self) -> OperationCommandView {
        match self {
            OperationCommand::ListBuilderImage { args } => OperationCommandView::ListBuilderImage { args: views(args@) },
            OperationCommand::Ask { question } => OperationCommandView::Ask { question: question@ },
            OperationCommand::BuildStages { tmp_name, final_tag, stages, build_type } => OperationCommandView::BuildStages {
                tmp_name: tmp_name@,
                final_tag: final_tag@,
                stages: views(stages@),
                build_type: *build_type,
            },
            OperationCommand::AutoClean => OperationCommandView::AutoClean,
            OperationCommand::BootcUpgrade => OperationCommandView::BootcUpgrade,
            OperationCommand::GenerateImage { image_tag } => OperationCommandView::GenerateImage { image_tag: image_tag@ },
            OperationCommand::Finish => OperationCommandView::Finish,
            OperationCommand::Abort { message, cause } => OperationCommandView::Abort {
                message: message@,
                cause: match cause {
                    Some(c) => Some(c@),
                    None => None,
                },
            },
        }
    }
}

/// The notes to show and the command to carry out next.
pub struct OperationStep {
    pub notes: Vec<Note>,
    pub command: OperationCommand,
}

/// The state of an operation.
pub struct OperationView {
    pub goal: Goal,
    pub phase: OperationPhase,
    pub config: TrellisConfig,
    /// The image a disk image is generated from.
    pub image_tag: Seq<char>,
}

/// The build of the builder image.
pub open spec fn builder_build(config: TrellisConfig) -> OperationCommandView {
    OperationCommandView::BuildStages {
        tmp_name: "builder"@,
        final_tag: config.builder_tag@,
        stages: views(config.builder_stages@),
        build_type: BuildType::Builder,
    }
}

/// The build of the rootfs image.
pub open spec fn rootfs_build(config: TrellisConfig) -> OperationCommandView {
    OperationCommandView::BuildStages {
        tmp_name: "stage"@,
        final_tag: config.rootfs_tag@,
        stages: views(config.rootfs_stages@),
        build_type: BuildType::Rootfs,
    }
}

/// `v` moved to `phase`.
pub open spec fn operation_moved(v: OperationView, phase: OperationPhase) -> OperationView {
    OperationView { goal: v.goal, phase, config: v.config, image_tag: v.image_tag }
}

/// Stopping with an error, after the notes `notes`.
pub open spec fn operation_aborted(
    v: OperationView,
    notes: Seq<(NoteKind, Seq<char>)>,
    message: Seq<char>,
    cause: Option<Seq<char>>,
) -> (OperationView, Seq<(NoteKind, Seq<char>)>, OperationCommandView) {
    (operation_moved(v, OperationPhase::Finished), notes, OperationCommandView::Abort { message, cause })
}

/// The builder build, after the notes `notes`: refused when there are no
/// builder stages.
pub open spec fn operation_building_builder(v: OperationView, notes: Seq<(NoteKind, Seq<char>)>) -> (
    OperationView,
    Seq<(NoteKind, Seq<char>)>,
    OperationCommandView,
) {
    if v.config.builder_stages@.len() == 0 {
        operation_aborted(v, notes, ConfigError::NoBuilderStages.spec_message(), None)
    } else {
        (operation_moved(v, OperationPhase::BuildingBuilder), notes, builder_build(v.config))
    }
}

/// The start of a rootfs build: refused when there are no rootfs stages,
/// else the builder image is checked first.
pub open spec fn operation_checking_builder(v: OperationView) -> (
    OperationView,
    Seq<(NoteKind, Seq<char>)>,
    OperationCommandView,
) {
    if v.config.rootfs_stages@.len() == 0 {
        operation_aborted(v, Seq::empty(), ConfigError::NoRootfsStages.spec_message(), None)
    } else {
        (
            operation_moved(v, OperationPhase::CheckingBuilder),
            Seq::empty(),
            OperationCommandView::ListBuilderImage {
                args: image_listing_args(LOCALHOST_PREFIX@ + v.config.builder_tag@),
            },
        )
    }
}

/// The state in which an operation for `goal` starts, before its first
/// command; `image_tag` is the image a disk image is generated from.
pub open spec fn operation_initial(goal: Goal, config: TrellisConfig, image_tag: Seq<char>) -> OperationView {
    OperationView { goal, phase: OperationPhase::Finished, config, image_tag }
}

/// The first state, notes and command of an operation for `goal`; a disk
/// image generation builds the rootfs image first when `build_image`.
pub open spec fn operation_start(goal: Goal, config: TrellisConfig, build_image: bool, image_tag: Seq<char>) -> (
    OperationView,
    Seq<(NoteKind, Seq<char>)>,
    OperationCommandView,
) {
    let v = operation_initial(goal, config, image_tag);
    match goal {
        Goal::BuildBuilder => operation_building_builder(v, Seq::empty()),
        Goal::Image => if build_image {
            operation_checking_builder(v)
        } else {
            (
                operation_moved(v, OperationPhase::GeneratingImage),
                Seq::empty(),
                OperationCommandView::GenerateImage { image_tag },
            )
        },
        _ => operation_checking_builder(v),
    }
}

/// After the rootfs image was built and cleaned up after: the upgrade, the
/// disk image, or the end.
pub open spec fn operation_after_rootfs(v: OperationView) -> (
    OperationView,
    Seq<(NoteKind, Seq<char>)>,
    OperationCommandView,
) {
    match v.goal {
        Goal::Update => (operation_moved(v, OperationPhase::Upgrading), Seq::empty(), OperationCommandView::BootcUpgrade),
        Goal::Image => (
            operation_moved(v, OperationPhase::GeneratingImage),
            Seq::empty(),
            OperationCommandView::GenerateImage { image_tag: v.image_tag },
        ),
        _ => (operation_moved(v, OperationPhase::Finished), Seq::empty(), OperationCommandView::Finish),
    }
}

/// The next state, the notes and the next command of an operation in state
/// `v` whose last command had the outcome `o`. A failed build, cleanup,
/// upgrade or image generation stops the operation with its error.
pub open spec fn operation_next(v: OperationView, o: OutcomeView) -> (
    OperationView,
    Seq<(NoteKind, Seq<char>)>,
    OperationCommandView,
) {
    let tag = v.config.builder_tag@;
    match v.phase {
        OperationPhase::CheckingBuilder => match o {
            OutcomeView::Succeeded(out) => if lists_prefix(out, LOCALHOST_PREFIX@ + tag + ":"@) {
                (operation_moved(v, OperationPhase::BuildingRootfs), Seq::empty(), rootfs_build(v.config))
            } else {
                (
                    operation_moved(v, OperationPhase::Asking),
                    seq![
                        warning("Builder container '"@ + tag + "' not found"@),
                        warning("The builder container is required for rootfs builds"@),
                    ],
                    OperationCommandView::Ask { question: "Would you like to build it now? [y/N]: "@ },
                )
            },
            OutcomeView::Failed(code) => operation_aborted(
                v,
                Seq::empty(),
                "Podman images command failed with exit code: "@ + code,
                None,
            ),
            OutcomeView::Unavailable(e) => operation_aborted(
                v,
                Seq::empty(),
                "Failed to check if builder container exists"@,
                Some(e),
            ),
        },
        OperationPhase::Asking => match o {
            OutcomeView::Succeeded(_) => operation_building_builder(v, seq![info("Building builder container..."@)]),
            OutcomeView::Failed(_) => (operation_moved(v, OperationPhase::BuildingRootfs), Seq::empty(), rootfs_build(v.config)),
            OutcomeView::Unavailable(e) => operation_aborted(v, Seq::empty(), "Failed to read user input"@, Some(e)),
        },
        OperationPhase::BuildingBuilder => match o {
            OutcomeView::Succeeded(_) => (
                operation_moved(v, OperationPhase::CleaningAfterBuilder),
                seq![info("Builder container built successfully"@)],
                OperationCommandView::AutoClean,
            ),
            _ => operation_aborted(v, Seq::empty(), outcome_text(o), None),
        },
        OperationPhase::CleaningAfterBuilder => match o {
            OutcomeView::Succeeded(_) => if v.goal == Goal::BuildBuilder {
                (operation_moved(v, OperationPhase::Finished), Seq::empty(), OperationCommandView::Finish)
            } else {
                (operation_moved(v, OperationPhase::BuildingRootfs), Seq::empty(), rootfs_build(v.config))
            },
            _ => operation_aborted(v, Seq::empty(), outcome_text(o), None),
        },
        OperationPhase::BuildingRootfs => match o {
            OutcomeView::Succeeded(_) => (
                operation_moved(v, OperationPhase::CleaningAfterRootfs),
                seq![info("Rootfs container built successfully"@)],
                OperationCommandView::AutoClean,
            ),
            _ => operation_aborted(v, Seq::empty(), outcome_text(o), None),
        },
        OperationPhase::CleaningAfterRootfs => match o {
            OutcomeView::Succeeded(_) => operation_after_rootfs(v),
            _ => operation_aborted(v, Seq::empty(), outcome_text(o), None),
        },
        OperationPhase::Upgrading | OperationPhase::GeneratingImage => match o {
            OutcomeView::Succeeded(_) => (operation_moved(v, OperationPhase::Finished), Seq::empty(), OperationCommandView::Finish),
            _ => operation_aborted(v, Seq::empty(), outcome_text(o), None),
        },
        OperationPhase::Finished => (v, Seq::empty(), OperationCommandView::Finish),
    }
}

/// An update upgrades the system only once the rootfs image was built and
/// cleaned up after; nothing else upgrades it.
pub proof fn law_upgrade_only_after_rootfs_build(v: OperationView, o: OutcomeView)
    ensures
        operation_next(v, o).2 is BootcUpgrade ==> v.goal == Goal::Update && v.phase
            == OperationPhase::CleaningAfterRootfs && o is Succeeded,
{
}

/// The rootfs image is built only once the builder image was found, or
/// the user declined to build it, or it was built and cleaned up after;
/// no operation starts with it.
pub proof fn law_rootfs_build_after_builder_check(
    v: OperationView,
    o: OutcomeView,
    goal: Goal,
    config: TrellisConfig,
    build_image: bool,
    image_tag: Seq<char>,
)
    ensures
        operation_next(v, o).2 == rootfs_build(v.config) ==> ((v.phase == OperationPhase::CheckingBuilder
            && o is Succeeded && lists_prefix(
            outcome_text(o),
            LOCALHOST_PREFIX@ + v.config.builder_tag@ + ":"@,
        )) || (v.phase == OperationPhase::Asking && o is Failed) || (v.phase
            == OperationPhase::CleaningAfterBuilder && o is Succeeded)),
        operation_start(goal, config, build_image, image_tag).2 != rootfs_build(config),
{
    reveal_strlit("stage");
    reveal_strlit("builder");
    if operation_next(v, o).2 == rootfs_build(v.config) {
        assert(operation_next(v, o).2 != builder_build(v.config));
    }
}

/// Every successful build is followed by the automatic cleanup.
pub proof fn law_auto_clean_after_each_build(v: OperationView, o: OutcomeView)
    requires
        v.phase == OperationPhase::BuildingBuilder || v.phase == OperationPhase::BuildingRootfs,
        o is Succeeded,
    ensures
        operation_next(v, o).2 is AutoClean,
{
}

/// A failed build, cleanup, upgrade or image generation stops the
/// operation with its error: nothing runs after it.
pub proof fn law_failed_step_stops_operation(v: OperationView, o: OutcomeView)
    requires
        v.phase != OperationPhase::CheckingBuilder,
        v.phase != OperationPhase::Asking,
        v.phase != OperationPhase::Finished,
        !(o is Succeeded),
    ensures
        operation_next(v, o).0.phase == OperationPhase::Finished,
        operation_next(v, o).2 == (OperationCommandView::Abort { message: outcome_text(o), cause: None }),
{
}

/// The commands that an operation in state `v` issues for the outcomes
/// `outcomes`, one command for each outcome, until it is finished.
pub open spec fn operation_commands(v: OperationView, outcomes: Seq<OutcomeView>) -> Seq<OperationCommandView>
    decreases outcomes.len(),
{
    if outcomes.len() == 0 || v.phase == OperationPhase::Finished {
        Seq::empty()
    } else {
        let next = operation_next(v, outcomes[0]);
        seq![next.2] + operation_commands(next.0, outcomes.drop_first())
    }
}

/// An update, once the builder image was found, builds the rootfs image,
/// cleans up after it, upgrades the system and finishes, when each of
/// these succeeds.
pub proof fn law_update_sequence(config: TrellisConfig, image_tag: Seq<char>, listing: Seq<char>, later: Seq<OutcomeView>)
    requires
        config.rootfs_stages@.len() > 0,
        lists_prefix(listing, LOCALHOST_PREFIX@ + config.builder_tag@ + ":"@),
        later.len() == 3,
        forall|i: int| 0 <= i < later.len() ==> #[trigger] later[i] is Succeeded,
    ensures
        operation_commands(
            operation_start(Goal::Update, config, false, image_tag).0,
            seq![OutcomeView::Succeeded(listing)] + later,
        ) == seq![
            rootfs_build(config),
            OperationCommandView::AutoClean,
            OperationCommandView::BootcUpgrade,
            OperationCommandView::Finish,
        ],
{
    let v0 = operation_start(Goal::Update, config, false, image_tag).0;
    let outs = seq![OutcomeView::Succeeded(listing)] + later;
    assert(outs.drop_first() =~= later);
    let v1 = operation_next(v0, outs[0]).0;
    assert(later.drop_first() =~= later.skip(1));
    let v2 = operation_next(v1, later[0]).0;
    assert(later.skip(1).drop_first() =~= later.skip(2));
    assert(later.skip(1)[0] == later[1]);
    let v3 = operation_next(v2, later[1]).0;
    assert(later.skip(2).drop_first() =~= later.skip(3));
    assert(later.skip(2)[0] == later[2]);
    let v4 = operation_next(v3, later[2]).0;
    assert(v4.phase == OperationPhase::Finished);
    assert(operation_commands(v4, later.skip(3)) =~= Seq::<OperationCommandView>::empty());
    assert(operation_commands(v3, later.skip(2)) =~= seq![OperationCommandView::Finish]);
    assert(operation_commands(v2, later.skip(1)) =~= seq![OperationCommandView::BootcUpgrade, OperationCommandView::Finish]);
    assert(operation_commands(v1, later) =~= seq![
        OperationCommandView::AutoClean,
        OperationCommandView::BootcUpgrade,
        OperationCommandView::Finish,
    ]);
}

/// A build operation in progress.
pub struct Operation<'a> {
    config: &'a TrellisConfig,
    goal: Goal,
    phase: OperationPhase,
    image_tag: String,
}

impl<'a> View for Operation<'a> {
    type V = OperationView;

    closed spec fn view(&self) -> OperationView {
        OperationView { goal: self.goal, phase: self.phase, config: *self.config, image_tag: self.image_tag@ }
    }
}

/// A copy of a list of strings.
fn copy_strings(v: &Vec<String>) -> (r: Vec<String>)
    ensures
        views(r@) == views(v@),
{
    let mut r: Vec<String> = Vec::new();
    let mut i: usize = 0;
    while i < v.len()
        invariant
            i <= v@.len(),
            views(r@) == views(v@.take(i as int)),
        decreases v@.len() - i,
    {
        let ghost before = views(r@);
        r.push(v[i].clone());
        assert(views(r@) =~= before.push(v@[i as int]@));
        assert(views(v@.take(i + 1)) =~= views(v@.take(i as int)).push(v@[i as int]@));
        i += 1;
    }
    assert(v@.take(v@.len() as int) =~= v@);
    r
}

impl<'a> Operation<'a> {
    /// Whether the operation still waits on a command.
    pub fn is_running(&self) -> (r: bool)
        ensures
            r == (self@.phase != OperationPhase::Finished),
    {
        self.phase != OperationPhase::Finished
    }

    /// The build of the builder image.
    fn builder_build_command(&self) -> (c: OperationCommand)
        ensures
            c@ == builder_build(self@.config),
    {
        OperationCommand::BuildStages {
            tmp_name: String::from_str("builder"),
            final_tag: self.config.builder_tag.clone(),
            stages: copy_strings(&self.config.builder_stages),
            build_type: BuildType::Builder,
        }
    }

    /// The build of the rootfs image.
    fn rootfs_build_command(&self) -> (c: OperationCommand)
        ensures
            c@ == rootfs_build(self@.config),
    {
        OperationCommand::BuildStages {
            tmp_name: String::from_str("stage"),
            final_tag: self.config.rootfs_tag.clone(),
            stages: copy_strings(&self.config.rootfs_stages),
            build_type: BuildType::Rootfs,
        }
    }

    /// Stops with the error `message`, after the notes `notes`.
    fn abort(&mut self, notes: Vec<Note>, message: String, cause: Option<String>) -> (s: OperationStep)
        ensures
            (final(self)@, note_views(s.notes@), s.command@) == operation_aborted(
                old(self)@,
                note_views(notes@),
                message@,
                match cause {
                    Some(c) => Some(c@),
                    None => None,
                },
            ),
    {
        self.phase = OperationPhase::Finished;
        OperationStep { notes, command: OperationCommand::Abort { message, cause } }
    }

    /// The builder build after the notes `notes`; see
    /// `operation_building_builder`.
    fn build_builder(&mut self, notes: Vec<Note>) -> (s: OperationStep)
        ensures
            (final(self)@, note_views(s.notes@), s.command@) == operation_building_builder(old(self)@, note_views(notes@)),
    {
        match ConfigValidator::validate_stages(self.config.builder_stages.as_slice(), "builder") {
            Err(e) => {
                let message = e.message();
                self.abort(notes, message, None)
            },
            Ok(()) => {
                self.phase = OperationPhase::BuildingBuilder;
                let command = self.builder_build_command();
                OperationStep { notes, command }
            },
        }
    }

    /// The start of a rootfs build; see `operation_checking_builder`.
    fn check_builder(&mut self) -> (s: OperationStep)
        ensures
            (final(self)@, note_views(s.notes@), s.command@) == operation_checking_builder(old(self)@),
    {
        let notes: Vec<Note> = Vec::new();
        assert(note_views(notes@) =~= Seq::<(NoteKind, Seq<char>)>::empty());
        proof {
            reveal_strlit("rootfs");
            reveal_strlit("builder");
            assert("rootfs"@.len() != "builder"@.len());
        }
        match ConfigValidator::validate_stages(self.config.rootfs_stages.as_slice(), "rootfs") {
            Err(e) => {
                let message = e.message();
                self.abort(notes, message, None)
            },
            Ok(()) => {
                self.phase = OperationPhase::CheckingBuilder;
                let args = builder_listing_args(self.config.builder_tag.as_str());
                OperationStep { notes, command: OperationCommand::ListBuilderImage { args } }
            },
        }
    }

    /// Starts an operation for `goal` with `config`. A disk image generation
    /// builds the rootfs image first when `build_image`, and uses the image
    /// `cli_image` (resolved; the configured rootfs image when there is
    /// none).
    pub fn start(config: &'a TrellisConfig, goal: Goal, build_image: bool, cli_image: Option<&str>) -> (r: (
        Operation<'a>,
        OperationStep,
    ))
        ensures
            (r.0@, note_views(r.1.notes@), r.1.command@) == operation_start(
                goal,
                *config,
                build_image,
                resolved_image_ref(config.rootfs_tag@, opt_str_view(cli_image)),
            ),
    {
        let image_tag = resolve_image_tag(config, cli_image);
        let mut op = Operation { config, goal, phase: OperationPhase::Finished, image_tag };
        let step = match goal {
            Goal::BuildBuilder => {
                let notes: Vec<Note> = Vec::new();
                assert(note_views(notes@) =~= Seq::<(NoteKind, Seq<char>)>::empty());
                op.build_builder(notes)
            },
            Goal::Image => {
                if build_image {
                    op.check_builder()
                } else {
                    op.phase = OperationPhase::GeneratingImage;
                    let notes: Vec<Note> = Vec::new();
                    assert(note_views(notes@) =~= Seq::<(NoteKind, Seq<char>)>::empty());
                    let image_tag = op.image_tag.clone();
                    OperationStep { notes, command: OperationCommand::GenerateImage { image_tag } }
                }
            },
            _ => op.check_builder(),
        };
        (op, step)
    }

    /// Takes the outcome of the last command; returns the notes and the next
    /// command, as `operation_next` says.
    pub fn advance(&mut self, outcome: Outcome) -> (s: OperationStep)
        requires
            old(self)@.phase != OperationPhase::Finished,
        ensures
            (final(self)@, note_views(s.notes@), s.command@) == operation_next(old(self)@, outcome@),
    {
        let mut notes: Vec<Note> = Vec::new();
        assert(note_views(notes@) =~= Seq::<(NoteKind, Seq<char>)>::empty());
        match self.phase {
            OperationPhase::CheckingBuilder => match outcome {
                Outcome::Succeeded(out) => {
                    if crate::trellis::builder_image_listed(self.config.builder_tag.as_str(), out.as_str()) {
                        self.phase = OperationPhase::BuildingRootfs;
                        let command = self.rootfs_build_command();
                        OperationStep { notes, command }
                    } else {
                        self.phase = OperationPhase::Asking;
                        let a = concat2("Builder container '", self.config.builder_tag.as_str());
                        push_note(&mut notes, NoteKind::Warning, concat2(a.as_str(), "' not found"));
                        push_note(
                            &mut notes,
                            NoteKind::Warning,
                            String::from_str("The builder container is required for rootfs builds"),
                        );
                        assert(note_views(notes@) =~= seq![
                            warning("Builder container '"@ + self.config.builder_tag@ + "' not found"@),
                            warning("The builder container is required for rootfs builds"@),
                        ]);
                        let question = String::from_str("Would you like to build it now? [y/N]: ");
                        OperationStep { notes, command: OperationCommand::Ask { question } }
                    }
                },
                Outcome::Failed(code) => {
                    let message = concat2("Podman images command failed with exit code: ", code.as_str());
                    self.abort(notes, message, None)
                },
                Outcome::Unavailable(e) => {
                    let message = String::from_str("Failed to check if builder container exists");
                    self.abort(notes, message, Some(e))
                },
            },
            OperationPhase::Asking => match outcome {
                Outcome::Succeeded(_) => {
                    push_note(&mut notes, NoteKind::Info, String::from_str("Building builder container..."));
                    assert(note_views(notes@) =~= seq![info("Building builder container..."@)]);
                    self.build_builder(notes)
                },
                Outcome::Failed(_) => {
                    self.phase = OperationPhase::BuildingRootfs;
                    let command = self.rootfs_build_command();
                    OperationStep { notes, command }
                },
                Outcome::Unavailable(e) => {
                    let message = String::from_str("Failed to read user input");
                    self.abort(notes, message, Some(e))
                },
            },
            OperationPhase::BuildingBuilder | OperationPhase::BuildingRootfs => match outcome {
                Outcome::Succeeded(_) => {
                    let text = if self.phase == OperationPhase::BuildingBuilder {
                        self.phase = OperationPhase::CleaningAfterBuilder;
                        String::from_str("Builder container built successfully")
                    } else {
                        self.phase = OperationPhase::CleaningAfterRootfs;
                        String::from_str("Rootfs container built successfully")
                    };
                    push_note(&mut notes, NoteKind::Info, text);
                    OperationStep { notes, command: OperationCommand::AutoClean }
                },
                Outcome::Failed(e) | Outcome::Unavailable(e) => self.abort(notes, e, None),
            },
            OperationPhase::CleaningAfterBuilder => match outcome {
                Outcome::Succeeded(_) => {
                    if self.goal == Goal::BuildBuilder {
                        self.phase = OperationPhase::Finished;
                        OperationStep { notes, command: OperationCommand::Finish }
                    } else {
                        self.phase = OperationPhase::BuildingRootfs;
                        let command = self.rootfs_build_command();
                        OperationStep { notes, command }
                    }
                },
                Outcome::Failed(e) | Outcome::Unavailable(e) => self.abort(notes, e, None),
            },
            OperationPhase::CleaningAfterRootfs => match outcome {
                Outcome::Succeeded(_) => match self.goal {
                    Goal::Update => {
                        self.phase = OperationPhase::Upgrading;
                        OperationStep { notes, command: OperationCommand::BootcUpgrade }
                    },
                    Goal::Image => {
                        self.phase = OperationPhase::GeneratingImage;
                        let image_tag = self.image_tag.clone();
                        OperationStep { notes, command: OperationCommand::GenerateImage { image_tag } }
                    },
                    _ => {
                        self.phase = OperationPhase::Finished;
                        OperationStep { notes, command: OperationCommand::Finish }
                    },
                },
                Outcome::Failed(e) | Outcome::Unavailable(e) => self.abort(notes, e, None),
            },
            OperationPhase::Upgrading | OperationPhase::GeneratingImage => match outcome {
                Outcome::Succeeded(_) => {
                    self.phase = OperationPhase::Finished;
                    OperationStep { notes, command: OperationCommand::Finish }
                },
                Outcome::Failed(e) | Outcome::Unavailable(e) => self.abort(notes, e, None),
            },
            OperationPhase::Finished => OperationStep { notes, command: OperationCommand::Finish },
        }
    }
}

/// Once the builder image was built and cleaned up after, every goal but
/// building the builder goes on to build the rootfs image from the rootfs
/// stages, the last one tagged with the rootfs tag; building the builder
/// alone finishes there.
pub proof fn law_rootfs_build_follows_builder_cleanup(v: OperationView, out: Seq<char>)
    requires
        v.phase == OperationPhase::CleaningAfterBuilder,
    ensures
        v.goal != Goal::BuildBuilder ==> {
            &&& operation_next(v, OutcomeView::Succeeded(out)).0.phase == OperationPhase::BuildingRootfs
            &&& operation_next(v, OutcomeView::Succeeded(out)).2 == (OperationCommandView::BuildStages {
                tmp_name: "stage"@,
                final_tag: v.config.rootfs_tag@,
                stages: views(v.config.rootfs_stages@),
                build_type: BuildType::Rootfs,
            })
        },
        v.goal == Goal::BuildBuilder ==> operation_next(v, OutcomeView::Succeeded(out)).2 is Finish,
{
}

proof fn lemma_operation_unfold(v: OperationView, outcomes: Seq<OutcomeView>)
    requires
        outcomes.len() > 0,
        v.phase != OperationPhase::Finished,
    ensures
        operation_commands(v, outcomes) == seq![operation_next(v, outcomes[0]).2] + operation_commands(
            operation_next(v, outcomes[0]).0,
            outcomes.skip(1),
        ),
{
    assert(outcomes.drop_first() =~= outcomes.skip(1));
}

/// An update whose builder image is missing, when the user agrees to build
/// it and every command succeeds: it asks, builds the builder image from
/// the builder stages, cleans up, builds the rootfs image from the rootfs
/// stages, cleans up, upgrades the system with bootc and finishes.
pub proof fn law_update_builds_missing_builder_then_rootfs(
    config: TrellisConfig,
    image_tag: Seq<char>,
    listing: Seq<char>,
    later: Seq<OutcomeView>,
)
    requires
        config.builder_stages@.len() > 0,
        config.rootfs_stages@.len() > 0,
        !lists_prefix(listing, LOCALHOST_PREFIX@ + config.builder_tag@ + ":"@),
        later.len() == 6,
        forall|i: int| 0 <= i < later.len() ==> #[trigger] later[i] is Succeeded,
    ensures
        operation_commands(
            operation_start(Goal::Update, config, false, image_tag).0,
            seq![OutcomeView::Succeeded(listing)] + later,
        ) == seq![
            OperationCommandView::Ask { question: "Would you like to build it now? [y/N]: "@ },
            OperationCommandView::BuildStages {
                tmp_name: "builder"@,
                final_tag: config.builder_tag@,
                stages: views(config.builder_stages@),
                build_type: BuildType::Builder,
            },
            OperationCommandView::AutoClean,
            OperationCommandView::BuildStages {
                tmp_name: "stage"@,
                final_tag: config.rootfs_tag@,
                stages: views(config.rootfs_stages@),
                build_type: BuildType::Rootfs,
            },
            OperationCommandView::AutoClean,
            OperationCommandView::BootcUpgrade,
            OperationCommandView::Finish,
        ],
{
    let outs = seq![OutcomeView::Succeeded(listing)] + later;
    let v0 = operation_start(Goal::Update, config, false, image_tag).0;
    assert(outs.skip(1) =~= later);
    lemma_operation_unfold(v0, outs);
    let v1 = operation_next(v0, outs[0]).0;
    assert(v1.phase == OperationPhase::Asking);
    assert(later[0] is Succeeded);
    lemma_operation_unfold(v1, later);
    let v2 = operation_next(v1, later[0]).0;
    assert(later.skip(1)[0] == later[1]);
    lemma_operation_unfold(v2, later.skip(1));
    let v3 = operation_next(v2, later[1]).0;
    assert(later.skip(1).skip(1) =~= later.skip(2));
    assert(later.skip(2)[0] == later[2]);
    lemma_operation_unfold(v3, later.skip(2));
    let v4 = operation_next(v3, later[2]).0;
    assert(later.skip(2).skip(1) =~= later.skip(3));
    assert(later.skip(3)[0] == later[3]);
    lemma_operation_unfold(v4, later.skip(3));
    let v5 = operation_next(v4, later[3]).0;
    assert(later.skip(3).skip(1) =~= later.skip(4));
    assert(later.skip(4)[0] == later[4]);
    lemma_operation_unfold(v5, later.skip(4));
    let v6 = operation_next(v5, later[4]).0;
    assert(later.skip(4).skip(1) =~= later.skip(5));
    assert(later.skip(5)[0] == later[5]);
    lemma_operation_unfold(v6, later.skip(5));
    let v7 = operation_next(v6, later[5]).0;
    assert(v7.phase == OperationPhase::Finished);
    assert(operation_commands(v7, later.skip(5).skip(1)) =~= Seq::<OperationCommandView>::empty());
    assert(operation_commands(v0, outs) =~= seq![
        OperationCommandView::Ask { question: "Would you like to build it now? [y/N]: "@ },
        builder_build(config),
        OperationCommandView::AutoClean,
        rootfs_build(config),
        OperationCommandView::AutoClean,
        OperationCommandView::BootcUpgrade,
        OperationCommandView::Finish,
    ]);
}

/// Where the builder check leads: a listed builder image goes straight to
/// the rootfs build; a missing one asks whether to build it. Agreeing
/// builds the builder image from the builder stages; declining goes on to
/// the rootfs build all the same.
pub proof fn law_builder_check_and_answer(v: OperationView, out: Seq<char>, o: OutcomeView)
    ensures
        v.phase == OperationPhase::CheckingBuilder && lists_prefix(out, LOCALHOST_PREFIX@ + v.config.builder_tag@ + ":"@)
            ==> operation_next(v, OutcomeView::Succeeded(out)).2 == (OperationCommandView::BuildStages {
            tmp_name: "stage"@,
            final_tag: v.config.rootfs_tag@,
            stages: views(v.config.rootfs_stages@),
            build_type: BuildType::Rootfs,
        }),
        v.phase == OperationPhase::CheckingBuilder && !lists_prefix(out, LOCALHOST_PREFIX@ + v.config.builder_tag@ + ":"@)
            ==> operation_next(v, OutcomeView::Succeeded(out)).2 == (OperationCommandView::Ask {
            question: "Would you like to build it now? [y/N]: "@,
        }),
        v.phase == OperationPhase::Asking && v.config.builder_stages@.len() > 0
            ==> operation_next(v, OutcomeView::Succeeded(out)).2 == (OperationCommandView::BuildStages {
            tmp_name: "builder"@,
            final_tag: v.config.builder_tag@,
            stages: views(v.config.builder_stages@),
            build_type: BuildType::Builder,
        }),
        v.phase == OperationPhase::Asking ==> operation_next(v, OutcomeView::Failed(out)).2
            == (OperationCommandView::BuildStages {
            tmp_name: "stage"@,
            final_tag: v.config.rootfs_tag@,
            stages: views(v.config.rootfs_stages@),
            build_type: BuildType::Rootfs,
        }),
{
}

/// What follows a successful rootfs build and cleanup: an update upgrades
/// the system with bootc, a disk image generation generates the image
/// from its image, a rootfs build finishes; a successful upgrade or image
/// generation finishes the operation.
pub proof fn law_after_rootfs_by_goal(v: OperationView, out: Seq<char>)
    ensures
        v.phase == OperationPhase::CleaningAfterRootfs ==> {
            let next = operation_next(v, OutcomeView::Succeeded(out)).2;
            &&& v.goal == Goal::Update ==> next is BootcUpgrade
            &&& v.goal == Goal::Image ==> next == (OperationCommandView::GenerateImage { image_tag: v.image_tag })
            &&& v.goal == Goal::BuildRootfs ==> next is Finish
        },
        v.phase == OperationPhase::Upgrading || v.phase == OperationPhase::GeneratingImage
            ==> operation_next(v, OutcomeView::Succeeded(out)).2 is Finish,
{
}

/// How each goal starts: building the builder builds it from the builder
/// stages; an update, a rootfs build, and a disk image generation asked
/// to build first, check for the builder image; a disk image generation
/// without a build generates the image at once. An empty stage list
/// refuses the build.
pub proof fn law_operation_starts_by_goal(config: TrellisConfig, build_image: bool, image_tag: Seq<char>, goal: Goal)
    ensures
        config.builder_stages@.len() > 0 ==> operation_start(Goal::BuildBuilder, config, build_image, image_tag).2
            == (OperationCommandView::BuildStages {
            tmp_name: "builder"@,
            final_tag: config.builder_tag@,
            stages: views(config.builder_stages@),
            build_type: BuildType::Builder,
        }),
        config.builder_stages@.len() == 0 ==> operation_start(Goal::BuildBuilder, config, build_image, image_tag).2
            is Abort,
        (goal == Goal::Update || goal == Goal::BuildRootfs || (goal == Goal::Image && build_image))
            && config.rootfs_stages@.len() > 0 ==> operation_start(goal, config, build_image, image_tag).2
            == (OperationCommandView::ListBuilderImage {
            args: image_listing_args(LOCALHOST_PREFIX@ + config.builder_tag@),
        }),
        (goal == Goal::Update || goal == Goal::BuildRootfs || (goal == Goal::Image && build_image))
            && config.rootfs_stages@.len() == 0 ==> operation_start(goal, config, build_image, image_tag).2 is Abort,
        !build_image ==> operation_start(Goal::Image, config, build_image, image_tag).2
            == (OperationCommandView::GenerateImage { image_tag }),
{
}

} // verus!
