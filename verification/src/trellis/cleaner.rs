//! Image cleanup: which images trellis made, which of them a cleanup
//! removes, and the removal itself: one command for all of them, or one
//! command per image when that fails.

use vstd::prelude::*;

use crate::config::TrellisConfig;
use crate::text::{
    concat2, decimal, decimal_string, seq_starts_with, starts_with, str_equal, trimmed_lines,
    trimmed_lines_of, views,
};
use crate::trellis::builder::stage_tag_of;
use crate::trellis::common::{
    info, note_views, outcome_text, push_note, warning, Note, NoteKind, Outcome, OutcomeView,
};
use crate::trellis::constants::{BUILDER_PREFIX, LOCALHOST_PREFIX, STAGE_PREFIX};

verus! {

/// Mode for cleaning container images.
#[derive(Debug, Clone, Copy, PartialEq, Eq, Structural)]
pub enum CleanMode {
    /// Remove all trellis-generated images.
    Full,
    /// Remove only intermediate images, keep the final builder and rootfs images.
    Auto,
}

/// The listed name of the final image tagged `tag`.
pub open spec fn final_image_name(tag: Seq<char>) -> Seq<char> {
    LOCALHOST_PREFIX@ + tag + ":latest"@
}

/// Whether the listed image `image` was made by trellis: an intermediate
/// builder or stage image, or one of the final images.
pub open spec fn is_trellis_image(image: Seq<char>, expected_builder: Seq<char>, expected_rootfs: Seq<char>) -> bool {
    ||| seq_starts_with(image, LOCALHOST_PREFIX@ + BUILDER_PREFIX@)
    ||| seq_starts_with(image, LOCALHOST_PREFIX@ + STAGE_PREFIX@)
    ||| image == expected_builder
    ||| image == expected_rootfs
}

/// Whether a cleanup in `mode` removes the listed image `image`: every
/// trellis image in full mode, and in auto mode every trellis image but the
/// final builder and rootfs images.
pub open spec fn removes_image(
    image: Seq<char>,
    mode: CleanMode,
    expected_builder: Seq<char>,
    expected_rootfs: Seq<char>,
) -> bool {
    &&& is_trellis_image(image, expected_builder, expected_rootfs)
    &&& match mode {
        CleanMode::Full => true,
        CleanMode::Auto => image != expected_builder && image != expected_rootfs,
    }
}

/// The lines of a listing, in order, that a cleanup in `mode` removes;
/// blank lines are skipped.
pub open spec fn removal_list(
    lines: Seq<Seq<char>>,
    mode: CleanMode,
    expected_builder: Seq<char>,
    expected_rootfs: Seq<char>,
) -> Seq<Seq<char>>
    decreases lines.len(),
{
    if lines.len() == 0 {
        Seq::<Seq<char>>::empty()
    } else {
        let rest = removal_list(lines.drop_last(), mode, expected_builder, expected_rootfs);
        let line = lines.last();
        if line.len() > 0 && removes_image(line, mode, expected_builder, expected_rootfs) {
            rest.push(line)
        } else {
            rest
        }
    }
}

/// What a full cleanup reports once it removed `removed` images.
pub open spec fn cleanup_report_text(removed: u32) -> Seq<char> {
    if removed == 0 {
        "No trls-generated images found to clean"@
    } else {
        "Cleanup completed - removed "@ + decimal(removed as nat) + " images"@
    }
}

/// What an automatic cleanup that removed `removed` images reports.
pub open spec fn auto_clean_report_text(removed: u32) -> Seq<char> {
    "Auto-cleanup removed "@ + decimal(removed as nat) + " intermediate images"@
}

/// Whether a cleanup in `mode` removes the listed image `image`; see
/// `removes_image`.
fn removes_listed_image(image: &str, mode: CleanMode, expected_builder: &str, expected_rootfs: &str) -> (r: bool)
    ensures
        r == removes_image(image@, mode, expected_builder@, expected_rootfs@),
{
    let builder_prefix = concat2(LOCALHOST_PREFIX, BUILDER_PREFIX);
    let stage_prefix = concat2(LOCALHOST_PREFIX, STAGE_PREFIX);
    let is_builder = str_equal(image, expected_builder);
    let is_rootfs = str_equal(image, expected_rootfs);
    let is_trellis = starts_with(image, builder_prefix.as_str()) || starts_with(
        image,
        stage_prefix.as_str(),
    ) || is_builder || is_rootfs;
    if !is_trellis {
        return false;
    }
    match mode {
        CleanMode::Full => true,
        CleanMode::Auto => !is_builder && !is_rootfs,
    }
}

/// The images of a `podman images` listing that a cleanup in `mode`
/// removes, in listing order; see `removal_list`.
fn select_images(listing: &str, mode: CleanMode, expected_builder: &str, expected_rootfs: &str) -> (r: Vec<String>)
    ensures
        views(r@) == removal_list(trimmed_lines(listing@), mode, expected_builder@, expected_rootfs@),
{
    let lines = trimmed_lines_of(listing);
    let ghost ls = trimmed_lines(listing@);
    assert(ls.len() == lines@.len());
    let mut out: Vec<String> = Vec::new();
    let mut i: usize = 0;
    while i < lines.len()
        invariant
            i <= lines@.len(),
            ls == lines@.map_values(|x: String| x@),
            views(out@) == removal_list(ls.take(i as int), mode, expected_builder@, expected_rootfs@),
        decreases lines@.len() - i,
    {
        let line = &lines[i];
        let keep = line.unicode_len() > 0 && removes_listed_image(
            line.as_str(),
            mode,
            expected_builder,
            expected_rootfs,
        );
        let ghost before = views(out@);
        proof {
            let t = ls.take(i + 1);
            assert(t.drop_last() =~= ls.take(i as int));
            assert(t.last() == line@);
        }
        if keep {
            out.push(line.clone());
            assert(views(out@) =~= before.push(line@));
        }
        i += 1;
    }
    assert(ls.take(lines@.len() as int) =~= ls);
    out
}

/// Decides which container images a cleanup removes.
pub struct ImageCleaner<'a> {
    config: &'a TrellisConfig,
}

impl<'a> ImageCleaner<'a> {
    /// The configuration this cleaner decides with.
    pub closed spec fn spec_config(&self) -> TrellisConfig {
        *self.config
    }

    /// A cleaner for `config`.
    pub fn new(config: &'a TrellisConfig) -> (r: Self)
        ensures
            r.spec_config() == *config,
    {
        ImageCleaner { config }
    }

    /// Whether builds are followed by an automatic cleanup.
    pub fn auto_clean_enabled(&self) -> (r: bool)
        ensures
            r == self.spec_config().auto_clean,
    {
        self.config.auto_clean
    }

    /// The listed name of the final builder image.
    pub fn expected_builder(&self) -> (r: String)
        ensures
            r@ == final_image_name(self.spec_config().builder_tag@),
    {
        let a = concat2(LOCALHOST_PREFIX, self.config.builder_tag.as_str());
        concat2(a.as_str(), ":latest")
    }

    /// The listed name of the final rootfs image.
    pub fn expected_rootfs(&self) -> (r: String)
        ensures
            r@ == final_image_name(self.spec_config().rootfs_tag@),
    {
        let a = concat2(LOCALHOST_PREFIX, self.config.rootfs_tag.as_str());
        concat2(a.as_str(), ":latest")
    }

    /// Whether a cleanup in `mode` removes the listed image `image`; see
    /// `removes_image`.
    pub fn should_remove_image(
        &self,
        image: &str,
        mode: CleanMode,
        expected_builder: &str,
        expected_rootfs: &str,
    ) -> (r: bool)
        ensures
            r == removes_image(image@, mode, expected_builder@, expected_rootfs@),
    {
        removes_listed_image(image, mode, expected_builder, expected_rootfs)
    }

    /// The images of a `podman images` listing (one `repository:tag` per
    /// line) that a cleanup in `mode` removes, in listing order.
    pub fn images_to_remove(&self, listing: &str, mode: CleanMode) -> (r: Vec<String>)
        ensures
            views(r@) == removal_list(
                trimmed_lines(listing@),
                mode,
                final_image_name(self.spec_config().builder_tag@),
                final_image_name(self.spec_config().rootfs_tag@),
            ),
    {
        let expected_builder = self.expected_builder();
        let expected_rootfs = self.expected_rootfs();
        select_images(listing, mode, expected_builder.as_str(), expected_rootfs.as_str())
    }

    /// Starts removing every trellis-generated image; the images are listed
    /// first.
    pub fn clean_all(&self) -> (r: (ImageRemoval, RemovalStep))
        ensures
            r.0@ == removal_start(
                CleanMode::Full,
                final_image_name(self.spec_config().builder_tag@),
                final_image_name(self.spec_config().rootfs_tag@),
            ),
            note_views(r.1.notes@) == seq![info("Cleaning trls-generated images..."@)],
            r.1.command@ == (RemovalCommandView::ListImages { args: image_listing_format() }),
    {
        let mut notes: Vec<Note> = Vec::new();
        push_note(&mut notes, NoteKind::Info, String::from_str("Cleaning trls-generated images..."));
        assert(note_views(notes@) =~= seq![info("Cleaning trls-generated images..."@)]);
        let removal = ImageRemoval {
            phase: RemovalPhase::Listing,
            mode: CleanMode::Full,
            expected_builder: self.expected_builder(),
            expected_rootfs: self.expected_rootfs(),
            images: Vec::new(),
            next: 0,
            removed: 0,
        };
        assert(views(removal.images@) =~= Seq::<Seq<char>>::empty());
        (removal, RemovalStep { notes, command: RemovalCommand::ListImages { args: listing_format_args() } })
    }

    /// Starts removing the intermediate trellis images when automatic
    /// cleanup is enabled; otherwise the removal is finished at once and
    /// removes nothing.
    pub fn auto_clean(&self) -> (r: (ImageRemoval, RemovalStep))
        ensures
            note_views(r.1.notes@) == Seq::<(NoteKind, Seq<char>)>::empty(),
            self.spec_config().auto_clean ==> r.0@ == removal_start(
                CleanMode::Auto,
                final_image_name(self.spec_config().builder_tag@),
                final_image_name(self.spec_config().rootfs_tag@),
            ),
            self.spec_config().auto_clean ==> r.1.command@ == (RemovalCommandView::ListImages {
                args: image_listing_format(),
            }),
            !self.spec_config().auto_clean ==> r.0@ == removal_at(
                removal_start(
                    CleanMode::Auto,
                    final_image_name(self.spec_config().builder_tag@),
                    final_image_name(self.spec_config().rootfs_tag@),
                ),
                RemovalPhase::Finished,
                Seq::empty(),
                0,
                0,
            ),
            !self.spec_config().auto_clean ==> r.1.command@ == (RemovalCommandView::Finish { removed: 0 }),
    {
        let notes: Vec<Note> = Vec::new();
        assert(note_views(notes@) =~= Seq::<(NoteKind, Seq<char>)>::empty());
        let enabled = self.config.auto_clean;
        let removal = ImageRemoval {
            phase: if enabled { RemovalPhase::Listing } else { RemovalPhase::Finished },
            mode: CleanMode::Auto,
            expected_builder: self.expected_builder(),
            expected_rootfs: self.expected_rootfs(),
            images: Vec::new(),
            next: 0,
            removed: 0,
        };
        assert(views(removal.images@) =~= Seq::<Seq<char>>::empty());
        if enabled {
            (removal, RemovalStep { notes, command: RemovalCommand::ListImages { args: listing_format_args() } })
        } else {
            (removal, RemovalStep { notes, command: RemovalCommand::Finish { removed: 0 } })
        }
    }

    /// The `podman rmi` arguments that force-remove `images`.
    pub fn removal_args(images: &[String]) -> (r: Vec<String>)
        ensures
            views(r@) == seq!["-f"@] + views(images@),
    {
        let mut r: Vec<String> = Vec::new();
        r.push(String::from_str("-f"));
        let mut i: usize = 0;
        while i < images.len()
            invariant
                i <= images@.len(),
                views(r@) == seq!["-f"@] + views(images@.take(i as int)),
            decreases images@.len() - i,
        {
            let ghost before = views(r@);
            r.push(images[i].clone());
            assert(views(r@) =~= before.push(images@[i as int]@));
            assert(views(images@.take(i + 1)) =~= views(images@.take(i as int)).push(images@[i as int]@));
            i += 1;
        }
        assert(images@.take(images@.len() as int) =~= images@);
        r
    }

    /// What a full cleanup reports once it removed `removed` images.
    pub fn cleanup_report(removed: u32) -> (r: String)
        ensures
            r@ == cleanup_report_text(removed),
    {
        if removed == 0 {
            String::from_str("No trls-generated images found to clean")
        } else {
            let n = decimal_string(removed as u64);
            concat2(concat2("Cleanup completed - removed ", n.as_str()).as_str(), " images")
        }
    }

    /// What an automatic cleanup reports once it removed `removed` images:
    /// nothing when none was removed.
    pub fn auto_clean_report(removed: u32) -> (r: Option<String>)
        ensures
            removed == 0 ==> r is None,
            removed > 0 ==> (r matches Some(m) && m@ == auto_clean_report_text(removed)),
    {
        if removed == 0 {
            None
        } else {
            let n = decimal_string(removed as u64);
            Some(concat2(concat2("Auto-cleanup removed ", n.as_str()).as_str(), " intermediate images"))
        }
    }
}


/// The `podman images` arguments that list every image as `repository:tag`.
pub open spec fn image_listing_format() -> Seq<Seq<char>> {
    seq!["--format"@, "{{.Repository}}:{{.Tag}}"@]
}

/// How a cleanup in `mode` describes the images it removes.
pub open spec fn mode_description(mode: CleanMode) -> Seq<char> {
    match mode {
        CleanMode::Full => "all trls-generated"@,
        CleanMode::Auto => "intermediate trls-generated"@,
    }
}

/// The notes that end a cleanup in `mode` that removed `removed` images.
pub open spec fn report_notes(mode: CleanMode, removed: u32) -> Seq<(NoteKind, Seq<char>)> {
    match mode {
        CleanMode::Full => seq![info(cleanup_report_text(removed))],
        CleanMode::Auto => if removed == 0 {
            Seq::empty()
        } else {
            seq![info(auto_clean_report_text(removed))]
        },
    }
}

/// Where an image removal stands: the command it waits on.
#[derive(Debug, Clone, Copy, PartialEq, Eq, Structural)]
pub enum RemovalPhase {
    /// Listing the images.
    Listing,
    /// Removing all selected images with one command.
    BatchRemoving,
    /// Removing the selected images one by one.
    SingleRemoving,
    /// Done, with success or with an error.
    Finished,
}

/// What the caller does next.
pub enum RemovalCommand {
    /// Run `podman images` with `args`.
    ListImages { args: Vec<String> },
    /// Run `podman rmi` with `args`.
    RemoveImages { args: Vec<String> },
    /// Stop: `removed` images were removed.
    Finish { removed: u32 },
    /// Stop with the error `message`, caused by `cause` where there is one.
    Abort { message: String, cause: Option<String> },
}

/// A removal command, with its texts as character sequences.
pub enum RemovalCommandView {
    ListImages { args: Seq<Seq<char>> },
    RemoveImages { args: Seq<Seq<char>> },
    Finish { removed: u32 },
    Abort { message: Seq<char>, cause: Option<Seq<char>> },
}

impl View for RemovalCommand {
    type V = RemovalCommandView;

    open spec fn view(&self) -> RemovalCommandView {
        match self {
            RemovalCommand::ListImages { args } => RemovalCommandView::ListImages { args: views(args@) },
            RemovalCommand::RemoveImages { args } => RemovalCommandView::RemoveImages { args: views(args@) },
            RemovalCommand::Finish { removed } => RemovalCommandView::Finish { removed: *removed },
            RemovalCommand::Abort { message, cause } => RemovalCommandView::Abort {
                message: message@,
                cause: match cause {
                    Some(c) => Some(c@),
                    None => None,
                },
            },
        }
    }
}

/// The notes to show and the command to carry out next.
pub struct RemovalStep {
    pub notes: Vec<Note>,
    pub command: RemovalCommand,
}

/// The state of an image removal.
pub struct RemovalView {
    pub phase: RemovalPhase,
    pub mode: CleanMode,
    /// The listed name of the final builder image.
    pub expected_builder: Seq<char>,
    /// The listed name of the final rootfs image.
    pub expected_rootfs: Seq<char>,
    /// The images selected for removal.
    pub images: Seq<Seq<char>>,
    /// The image removed one by one at the moment, or the number handled.
    pub next: nat,
    /// How many images were removed so far.
    pub removed: nat,
}

/// The invariant of an image removal: the counters stay within the
/// selected images, and every selected image is one that the cleanup's
/// mode removes.
pub open spec fn removal_wf(v: RemovalView) -> bool {
    &&& v.removed <= v.next <= v.images.len()
    &&& forall|i: int|
        0 <= i < v.images.len() ==> removes_image(
            #[trigger] v.images[i],
            v.mode,
            v.expected_builder,
            v.expected_rootfs,
        )
    &&& v.phase == RemovalPhase::SingleRemoving ==> v.next < v.images.len()
    &&& v.phase == RemovalPhase::BatchRemoving ==> v.images.len() >= 2
}

/// Removing the one image `image`.
pub open spec fn removing_one(image: Seq<char>) -> RemovalCommandView {
    RemovalCommandView::RemoveImages { args: seq!["-f"@, image] }
}

/// `v` moved to `phase`, with `images` selected, at image `next`, having
/// removed `removed`.
pub open spec fn removal_at(
    v: RemovalView,
    phase: RemovalPhase,
    images: Seq<Seq<char>>,
    next: nat,
    removed: nat,
) -> RemovalView {
    RemovalView {
        phase,
        mode: v.mode,
        expected_builder: v.expected_builder,
        expected_rootfs: v.expected_rootfs,
        images,
        next,
        removed,
    }
}

/// Finishing after `removed` images were removed, with the notes `notes`
/// before the report.
pub open spec fn removal_done(v: RemovalView, removed: nat, notes: Seq<(NoteKind, Seq<char>)>) -> (
    RemovalView,
    Seq<(NoteKind, Seq<char>)>,
    RemovalCommandView,
) {
    (
        removal_at(v, RemovalPhase::Finished, v.images, v.images.len(), removed),
        notes + report_notes(v.mode, removed as u32),
        RemovalCommandView::Finish { removed: removed as u32 },
    )
}

/// Stopping with an error.
pub open spec fn removal_aborted(v: RemovalView, message: Seq<char>, cause: Option<Seq<char>>) -> (
    RemovalView,
    Seq<(NoteKind, Seq<char>)>,
    RemovalCommandView,
) {
    (
        removal_at(v, RemovalPhase::Finished, v.images, v.next, v.removed),
        Seq::empty(),
        RemovalCommandView::Abort { message, cause },
    )
}

/// After the one-by-one removal of the current image, with `removed`
/// images removed and the note `note`: the next image, or the end.
pub open spec fn removal_after_one(v: RemovalView, removed: nat, note: (NoteKind, Seq<char>)) -> (
    RemovalView,
    Seq<(NoteKind, Seq<char>)>,
    RemovalCommandView,
) {
    if v.next + 1 < v.images.len() {
        (
            removal_at(v, RemovalPhase::SingleRemoving, v.images, v.next + 1, removed),
            seq![note],
            removing_one(v.images[v.next + 1int]),
        )
    } else {
        removal_done(v, removed, seq![note])
    }
}

/// The state of a cleanup in `mode` that waits on the image listing.
pub open spec fn removal_start(mode: CleanMode, expected_builder: Seq<char>, expected_rootfs: Seq<char>) -> RemovalView {
    RemovalView {
        phase: RemovalPhase::Listing,
        mode,
        expected_builder,
        expected_rootfs,
        images: Seq::empty(),
        next: 0,
        removed: 0,
    }
}

/// The next state, the notes and the next command of an image removal in
/// state `v` whose last command had the outcome `o`.
pub open spec fn removal_next(v: RemovalView, o: OutcomeView) -> (
    RemovalView,
    Seq<(NoteKind, Seq<char>)>,
    RemovalCommandView,
) {
    match v.phase {
        RemovalPhase::Listing => match o {
            OutcomeView::Succeeded(out) => {
                let images = removal_list(trimmed_lines(out), v.mode, v.expected_builder, v.expected_rootfs);
                let found = info(
                    "Found "@ + decimal(images.len()) + " "@ + mode_description(v.mode) + " images to remove"@,
                );
                if images.len() == 0 {
                    removal_done(removal_at(v, v.phase, images, 0, 0), 0, Seq::empty())
                } else if images.len() == 1 {
                    (
                        removal_at(v, RemovalPhase::SingleRemoving, images, 0, 0),
                        seq![found],
                        removing_one(images[0]),
                    )
                } else {
                    (
                        removal_at(v, RemovalPhase::BatchRemoving, images, 0, 0),
                        seq![found],
                        RemovalCommandView::RemoveImages { args: seq!["-f"@] + images },
                    )
                }
            },
            OutcomeView::Failed(e) => removal_aborted(v, "Failed to list images: "@ + e, None),
            OutcomeView::Unavailable(e) => removal_aborted(v, "Failed to list podman images"@, Some(e)),
        },
        RemovalPhase::BatchRemoving => match o {
            OutcomeView::Succeeded(_) => removal_done(
                v,
                v.images.len(),
                seq![info("Batch removed "@ + decimal(v.images.len()) + " images"@)],
            ),
            OutcomeView::Failed(e) => (
                removal_at(v, RemovalPhase::SingleRemoving, v.images, 0, 0),
                seq![info("Batch removal failed: "@ + e), info("Trying individual removal..."@)],
                removing_one(v.images[0]),
            ),
            OutcomeView::Unavailable(e) => (
                removal_at(v, RemovalPhase::SingleRemoving, v.images, 0, 0),
                seq![warning("Failed to execute batch removal: "@ + e), info("Trying individual removal..."@)],
                removing_one(v.images[0]),
            ),
        },
        RemovalPhase::SingleRemoving => match o {
            OutcomeView::Succeeded(_) => removal_after_one(
                v,
                v.removed + 1,
                info("Removed image: "@ + v.images[v.next as int]),
            ),
            OutcomeView::Failed(e) => removal_after_one(
                v,
                v.removed,
                warning("Failed to remove image "@ + v.images[v.next as int] + ": "@ + e),
            ),
            OutcomeView::Unavailable(e) => removal_aborted(v, "Failed to remove image"@, Some(e)),
        },
        RemovalPhase::Finished => (v, Seq::empty(), RemovalCommandView::Finish { removed: v.removed as u32 }),
    }
}

/// An image removal in progress.
pub struct ImageRemoval {
    phase: RemovalPhase,
    mode: CleanMode,
    expected_builder: String,
    expected_rootfs: String,
    images: Vec<String>,
    next: usize,
    removed: u64,
}

impl View for ImageRemoval {
    type V = RemovalView;

    closed spec fn view(&self) -> RemovalView {
        RemovalView {
            phase: self.phase,
            mode: self.mode,
            expected_builder: self.expected_builder@,
            expected_rootfs: self.expected_rootfs@,
            images: views(self.images@),
            next: self.next as nat,
            removed: self.removed as nat,
        }
    }
}

/// The `podman images` arguments that list every image as `repository:tag`.
fn listing_format_args() -> (r: Vec<String>)
    ensures
        views(r@) == image_listing_format(),
{
    let mut r: Vec<String> = Vec::new();
    r.push(String::from_str("--format"));
    r.push(String::from_str("{{.Repository}}:{{.Tag}}"));
    assert(views(r@) =~= image_listing_format());
    r
}

/// `["-f", image]`, the arguments that force-remove one image.
fn removal_args_of_one(image: &String) -> (r: Vec<String>)
    ensures
        views(r@) == seq!["-f"@, image@],
{
    let mut r: Vec<String> = Vec::new();
    r.push(String::from_str("-f"));
    r.push(image.clone());
    assert(views(r@) =~= seq!["-f"@, image@]);
    r
}

/// Appends the report of a cleanup in `mode` that removed `removed` images.
fn push_report(notes: &mut Vec<Note>, mode: CleanMode, removed: u32)
    ensures
        note_views(final(notes)@) == note_views(old(notes)@) + report_notes(mode, removed),
{
    let ghost before = note_views(notes@);
    match mode {
        CleanMode::Full => {
            push_note(notes, NoteKind::Info, ImageCleaner::cleanup_report(removed));
            assert(note_views(notes@) =~= before + report_notes(mode, removed));
        },
        CleanMode::Auto => {
            if let Some(m) = ImageCleaner::auto_clean_report(removed) {
                push_note(notes, NoteKind::Info, m);
                assert(note_views(notes@) =~= before + report_notes(mode, removed));
            } else {
                assert(note_views(notes@) =~= before + report_notes(mode, removed));
            }
        },
    }
}

impl ImageRemoval {
    #[verifier::type_invariant]
    closed spec fn well_formed(self) -> bool {
        &&& self.removed <= self.next <= self.images@.len()
        &&& self.phase == RemovalPhase::SingleRemoving ==> self.next < self.images@.len()
        &&& self.phase == RemovalPhase::BatchRemoving ==> self.images@.len() >= 2
    }

    /// Whether the removal still waits on a command.
    pub fn is_running(&self) -> (r: bool)
        ensures
            r == (self@.phase != RemovalPhase::Finished),
    {
        self.phase != RemovalPhase::Finished
    }

    /// Takes the outcome of the last command; returns the removal's next
    /// state, the notes and the next command, as `removal_next` says.
    pub fn advance(self, outcome: Outcome) -> (r: (ImageRemoval, RemovalStep))
        requires
            self@.phase != RemovalPhase::Finished,
        ensures
            (r.0@, note_views(r.1.notes@), r.1.command@) == removal_next(self@, outcome@),
    {
        proof {
            use_type_invariant(&self);
        }
        let ghost v = self@;
        let mut notes: Vec<Note> = Vec::new();
        match self.phase {
            RemovalPhase::Listing => match outcome {
                Outcome::Succeeded(out) => {
                    let images = select_images(
                        out.as_str(),
                        self.mode,
                        self.expected_builder.as_str(),
                        self.expected_rootfs.as_str(),
                    );
                    let n = images.len();
                    if n == 0 {
                        push_report(&mut notes, self.mode, 0);
                        assert(note_views(notes@) =~= Seq::<(NoteKind, Seq<char>)>::empty() + report_notes(v.mode, 0u32));
                        let next = ImageRemoval {
                            phase: RemovalPhase::Finished,
                            mode: self.mode,
                            expected_builder: self.expected_builder,
                            expected_rootfs: self.expected_rootfs,
                            images,
                            next: 0,
                            removed: 0,
                        };
                        return (next, RemovalStep { notes, command: RemovalCommand::Finish { removed: 0 } });
                    }
                    let count = decimal_string(n as u64);
                    let a = concat2("Found ", count.as_str());
                    let b = concat2(a.as_str(), " ");
                    let description = match self.mode {
                        CleanMode::Full => "all trls-generated",
                        CleanMode::Auto => "intermediate trls-generated",
                    };
                    let c = concat2(b.as_str(), description);
                    push_note(&mut notes, NoteKind::Info, concat2(c.as_str(), " images to remove"));
                    if n == 1 {
                        let args = removal_args_of_one(&images[0]);
                        let next = ImageRemoval {
                            phase: RemovalPhase::SingleRemoving,
                            mode: self.mode,
                            expected_builder: self.expected_builder,
                            expected_rootfs: self.expected_rootfs,
                            images,
                            next: 0,
                            removed: 0,
                        };
                        (next, RemovalStep { notes, command: RemovalCommand::RemoveImages { args } })
                    } else {
                        let args = ImageCleaner::removal_args(images.as_slice());
                        let next = ImageRemoval {
                            phase: RemovalPhase::BatchRemoving,
                            mode: self.mode,
                            expected_builder: self.expected_builder,
                            expected_rootfs: self.expected_rootfs,
                            images,
                            next: 0,
                            removed: 0,
                        };
                        (next, RemovalStep { notes, command: RemovalCommand::RemoveImages { args } })
                    }
                },
                Outcome::Failed(e) => {
                    let message = concat2("Failed to list images: ", e.as_str());
                    (self.stopped(), RemovalStep { notes, command: RemovalCommand::Abort { message, cause: None } })
                },
                Outcome::Unavailable(e) => {
                    let message = String::from_str("Failed to list podman images");
                    (self.stopped(), RemovalStep { notes, command: RemovalCommand::Abort { message, cause: Some(e) } })
                },
            },
            RemovalPhase::BatchRemoving => match outcome {
                Outcome::Succeeded(_) => {
                    let n = self.images.len();
                    let count = decimal_string(n as u64);
                    let a = concat2("Batch removed ", count.as_str());
                    push_note(&mut notes, NoteKind::Info, concat2(a.as_str(), " images"));
                    self.done(notes, n as u64)
                },
                Outcome::Failed(e) => {
                    push_note(&mut notes, NoteKind::Info, concat2("Batch removal failed: ", e.as_str()));
                    push_note(&mut notes, NoteKind::Info, String::from_str("Trying individual removal..."));
                    self.one_by_one(notes)
                },
                Outcome::Unavailable(e) => {
                    push_note(&mut notes, NoteKind::Warning, concat2("Failed to execute batch removal: ", e.as_str()));
                    push_note(&mut notes, NoteKind::Info, String::from_str("Trying individual removal..."));
                    self.one_by_one(notes)
                },
            },
            RemovalPhase::SingleRemoving => match outcome {
                Outcome::Succeeded(_) => {
                    let text = concat2("Removed image: ", self.images[self.next].as_str());
                    let n = self.images.len();
                    assert(self.removed < n);
                    let removed = self.removed + 1;
                    self.after_one(removed, NoteKind::Info, text)
                },
                Outcome::Failed(e) => {
                    let a = concat2("Failed to remove image ", self.images[self.next].as_str());
                    let b = concat2(a.as_str(), ": ");
                    let removed = self.removed;
                    self.after_one(removed, NoteKind::Warning, concat2(b.as_str(), e.as_str()))
                },
                Outcome::Unavailable(e) => {
                    let message = String::from_str("Failed to remove image");
                    (self.stopped(), RemovalStep { notes, command: RemovalCommand::Abort { message, cause: Some(e) } })
                },
            },
            RemovalPhase::Finished => {
                let removed = self.removed as u32;
                (self, RemovalStep { notes, command: RemovalCommand::Finish { removed } })
            },
        }
    }

    /// The removal stopped where it stood.
    fn stopped(self) -> (r: ImageRemoval)
        ensures
            r@ == removal_at(self@, RemovalPhase::Finished, self@.images, self@.next, self@.removed),
    {
        proof {
            use_type_invariant(&self);
        }
        ImageRemoval {
            phase: RemovalPhase::Finished,
            mode: self.mode,
            expected_builder: self.expected_builder,
            expected_rootfs: self.expected_rootfs,
            images: self.images,
            next: self.next,
            removed: self.removed,
        }
    }

    /// Finishing after `removed` images were removed, with `notes` before
    /// the report.
    fn done(self, notes: Vec<Note>, removed: u64) -> (r: (ImageRemoval, RemovalStep))
        requires
            removed <= self@.images.len(),
        ensures
            (r.0@, note_views(r.1.notes@), r.1.command@) == removal_done(self@, removed as nat, note_views(notes@)),
    {
        proof {
            use_type_invariant(&self);
        }
        let mut notes = notes;
        let count = removed as u32;
        push_report(&mut notes, self.mode, count);
        let n = self.images.len();
        let next = ImageRemoval {
            phase: RemovalPhase::Finished,
            mode: self.mode,
            expected_builder: self.expected_builder,
            expected_rootfs: self.expected_rootfs,
            images: self.images,
            next: n,
            removed,
        };
        (next, RemovalStep { notes, command: RemovalCommand::Finish { removed: count } })
    }

    /// Removing the images one by one, from the first, after a failed batch
    /// removal announced by `notes`.
    fn one_by_one(self, notes: Vec<Note>) -> (r: (ImageRemoval, RemovalStep))
        requires
            self@.images.len() >= 1,
        ensures
            r.0@ == removal_at(self@, RemovalPhase::SingleRemoving, self@.images, 0, 0),
            note_views(r.1.notes@) == note_views(notes@),
            r.1.command@ == removing_one(self@.images[0]),
    {
        proof {
            use_type_invariant(&self);
        }
        let args = removal_args_of_one(&self.images[0]);
        let next = ImageRemoval {
            phase: RemovalPhase::SingleRemoving,
            mode: self.mode,
            expected_builder: self.expected_builder,
            expected_rootfs: self.expected_rootfs,
            images: self.images,
            next: 0,
            removed: 0,
        };
        (next, RemovalStep { notes, command: RemovalCommand::RemoveImages { args } })
    }

    /// After the current image, with `removed` images removed and the note
    /// `text` of kind `kind`: the next image, or the end.
    fn after_one(self, removed: u64, kind: NoteKind, text: String) -> (r: (ImageRemoval, RemovalStep))
        requires
            self@.phase == RemovalPhase::SingleRemoving,
            removed <= self@.next + 1,
        ensures
            (r.0@, note_views(r.1.notes@), r.1.command@) == removal_after_one(self@, removed as nat, (kind, text@)),
    {
        proof {
            use_type_invariant(&self);
        }
        let mut notes: Vec<Note> = Vec::new();
        push_note(&mut notes, kind, text);
        assert(note_views(notes@) =~= seq![(kind, text@)]);
        if self.next < self.images.len() - 1 {
            let k = self.next + 1;
            let args = removal_args_of_one(&self.images[k]);
            let next = ImageRemoval {
                phase: RemovalPhase::SingleRemoving,
                mode: self.mode,
                expected_builder: self.expected_builder,
                expected_rootfs: self.expected_rootfs,
                images: self.images,
                next: k,
                removed,
            };
            (next, RemovalStep { notes, command: RemovalCommand::RemoveImages { args } })
        } else {
            self.done(notes, removed)
        }
    }
}

/// The commands that an image removal in state `v` issues for the outcomes
/// `outcomes`, one command for each outcome, until it is finished.
pub open spec fn removal_commands(v: RemovalView, outcomes: Seq<OutcomeView>) -> Seq<RemovalCommandView>
    decreases outcomes.len(),
{
    if outcomes.len() == 0 || v.phase == RemovalPhase::Finished {
        Seq::empty()
    } else {
        let next = removal_next(v, outcomes[0]);
        seq![next.2] + removal_commands(next.0, outcomes.drop_first())
    }
}

/// How many of `outcomes` are successes.
pub open spec fn succeeded_count(outcomes: Seq<OutcomeView>) -> nat
    decreases outcomes.len(),
{
    if outcomes.len() == 0 {
        0
    } else {
        succeeded_count(outcomes.drop_last()) + if outcomes.last() is Succeeded {
            1nat
        } else {
            0nat
        }
    }
}

proof fn lemma_removal_commands_unfold(v: RemovalView, outcomes: Seq<OutcomeView>)
    requires
        outcomes.len() > 0,
        v.phase != RemovalPhase::Finished,
    ensures
        removal_commands(v, outcomes) == seq![removal_next(v, outcomes[0]).2] + removal_commands(
            removal_next(v, outcomes[0]).0,
            outcomes.skip(1),
        ),
{
    assert(outcomes.drop_first() =~= outcomes.skip(1));
}

proof fn lemma_removal_list_selects(
    lines: Seq<Seq<char>>,
    mode: CleanMode,
    expected_builder: Seq<char>,
    expected_rootfs: Seq<char>,
)
    ensures
        forall|i: int|
            0 <= i < removal_list(lines, mode, expected_builder, expected_rootfs).len() ==> removes_image(
                #[trigger] removal_list(lines, mode, expected_builder, expected_rootfs)[i],
                mode,
                expected_builder,
                expected_rootfs,
            ),
    decreases lines.len(),
{
    if lines.len() > 0 {
        lemma_removal_list_selects(lines.drop_last(), mode, expected_builder, expected_rootfs);
        let rest = removal_list(lines.drop_last(), mode, expected_builder, expected_rootfs);
        let line = lines.last();
        if line.len() > 0 && removes_image(line, mode, expected_builder, expected_rootfs) {
            let all = rest.push(line);
            assert forall|i: int| 0 <= i < all.len() implies removes_image(
                #[trigger] all[i],
                mode,
                expected_builder,
                expected_rootfs,
            ) by {
                if i < rest.len() {
                    assert(all[i] == rest[i]);
                }
            }
        }
    }
}

/// The starting states of a cleanup satisfy the removal invariant, and
/// every step keeps it.
pub proof fn law_removal_keeps_invariant(v: RemovalView, o: OutcomeView)
    requires
        removal_wf(v),
    ensures
        removal_wf(removal_next(v, o).0),
        forall|mode: CleanMode, b: Seq<char>, r: Seq<char>| #[trigger] removal_wf(removal_start(mode, b, r)),
{
    if v.phase == RemovalPhase::Listing {
        if let OutcomeView::Succeeded(out) = o {
            lemma_removal_list_selects(trimmed_lines(out), v.mode, v.expected_builder, v.expected_rootfs);
        }
    }
}

proof fn lemma_one_by_one_tail(v: RemovalView, outcomes: Seq<OutcomeView>, k: int)
    requires
        removal_wf(v),
        v.phase == RemovalPhase::SingleRemoving,
        outcomes.len() == v.images.len(),
        forall|i: int| 0 <= i < outcomes.len() ==> !(#[trigger] outcomes[i] is Unavailable),
        0 <= k < outcomes.len(),
    ensures
        removal_commands(
            removal_at(v, RemovalPhase::SingleRemoving, v.images, k as nat, succeeded_count(outcomes.take(k))),
            outcomes.skip(k),
        ) == Seq::new((v.images.len() - 1 - k) as nat, |i: int| removing_one(v.images[k + 1 + i])).push(
            RemovalCommandView::Finish { removed: succeeded_count(outcomes) as u32 },
        ),
    decreases outcomes.len() - k,
{
    let n = outcomes.len() as int;
    let w = removal_at(v, RemovalPhase::SingleRemoving, v.images, k as nat, succeeded_count(outcomes.take(k)));
    let rest = outcomes.skip(k);
    assert(rest[0] == outcomes[k]);
    assert(!(outcomes[k] is Unavailable));
    lemma_removal_commands_unfold(w, rest);
    assert(rest.skip(1) =~= outcomes.skip(k + 1));
    assert(outcomes.take(k + 1).drop_last() =~= outcomes.take(k));
    assert(outcomes.take(k + 1).last() == outcomes[k]);
    let count = succeeded_count(outcomes.take(k + 1));
    let next = removal_next(w, outcomes[k]);
    let expected = Seq::new((n - 1 - k) as nat, |i: int| removing_one(v.images[k + 1 + i])).push(
        RemovalCommandView::Finish { removed: succeeded_count(outcomes) as u32 },
    );
    if k + 1 < n {
        assert(next.0 == removal_at(v, RemovalPhase::SingleRemoving, v.images, (k + 1) as nat, count));
        assert(next.2 == removing_one(v.images[k + 1]));
        lemma_one_by_one_tail(v, outcomes, k + 1);
        assert(expected =~= seq![next.2] + Seq::new((n - 1 - (k + 1)) as nat, |i: int| removing_one(v.images[k + 1 + 1 + i])).push(
            RemovalCommandView::Finish { removed: succeeded_count(outcomes) as u32 },
        ));
    } else {
        assert(outcomes.take(k + 1) =~= outcomes);
        assert(next.0.phase == RemovalPhase::Finished);
        assert(next.2 == (RemovalCommandView::Finish { removed: succeeded_count(outcomes) as u32 }));
        assert(removal_commands(next.0, outcomes.skip(k + 1)) =~= Seq::<RemovalCommandView>::empty());
        assert(expected =~= seq![next.2]);
    }
}

/// Removing the images one by one goes through them in listing order,
/// one command each; unless a command cannot run at all, the removal then
/// finishes with the number of removals that succeeded.
pub proof fn law_one_by_one_counts_successes(v: RemovalView, outcomes: Seq<OutcomeView>)
    requires
        removal_wf(v),
        v.phase == RemovalPhase::SingleRemoving,
        v.next == 0,
        v.removed == 0,
        outcomes.len() == v.images.len(),
        forall|i: int| 0 <= i < outcomes.len() ==> !(#[trigger] outcomes[i] is Unavailable),
    ensures
        removal_commands(v, outcomes) == Seq::new((v.images.len() - 1) as nat, |i: int| removing_one(v.images[i + 1])).push(
            RemovalCommandView::Finish { removed: succeeded_count(outcomes) as u32 },
        ),
{
    assert(outcomes.take(0) =~= Seq::<OutcomeView>::empty());
    assert(outcomes.skip(0) =~= outcomes);
    assert(removal_at(v, RemovalPhase::SingleRemoving, v.images, 0, succeeded_count(outcomes.take(0))) == v);
    lemma_one_by_one_tail(v, outcomes, 0);
    assert(Seq::new((v.images.len() - 1) as nat, |i: int| removing_one(v.images[i + 1])) =~= Seq::new(
        (v.images.len() - 1 - 0) as nat,
        |i: int| removing_one(v.images[0 + 1 + i]),
    ));
}

/// When the removal of all selected images with one command fails, or
/// cannot run, each image is removed on its own, in listing order; unless
/// one of those commands cannot run at all, the removal finishes with the
/// number of removals that succeeded.
pub proof fn law_failed_batch_removes_one_by_one(v: RemovalView, o: OutcomeView, outcomes: Seq<OutcomeView>)
    requires
        removal_wf(v),
        v.phase == RemovalPhase::BatchRemoving,
        !(o is Succeeded),
        outcomes.len() == v.images.len(),
        forall|i: int| 0 <= i < outcomes.len() ==> !(#[trigger] outcomes[i] is Unavailable),
    ensures
        removal_commands(v, seq![o] + outcomes) == Seq::new(v.images.len(), |i: int| removing_one(v.images[i])).push(
            RemovalCommandView::Finish { removed: succeeded_count(outcomes) as u32 },
        ),
{
    let all = seq![o] + outcomes;
    lemma_removal_commands_unfold(v, all);
    assert(all.skip(1) =~= outcomes);
    let w = removal_next(v, o).0;
    assert(w == removal_at(v, RemovalPhase::SingleRemoving, v.images, 0, 0));
    law_one_by_one_counts_successes(w, outcomes);
    assert(Seq::new(v.images.len(), |i: int| removing_one(v.images[i])).push(
        RemovalCommandView::Finish { removed: succeeded_count(outcomes) as u32 },
    ) =~= seq![removing_one(v.images[0])] + Seq::new((v.images.len() - 1) as nat, |i: int| removing_one(v.images[i + 1])).push(
        RemovalCommandView::Finish { removed: succeeded_count(outcomes) as u32 },
    ));
}

/// A successful removal of all selected images with one command counts
/// every one of them.
pub proof fn law_batch_success_counts_all(v: RemovalView, out: Seq<char>)
    requires
        v.phase == RemovalPhase::BatchRemoving,
    ensures
        removal_next(v, OutcomeView::Succeeded(out)).2 == (RemovalCommandView::Finish {
            removed: v.images.len() as u32,
        }),
        removal_next(v, OutcomeView::Succeeded(out)).0.phase == RemovalPhase::Finished,
{
}

/// An automatic cleanup never asks to remove the final builder or rootfs
/// image.
pub proof fn law_auto_cleanup_keeps_final_images(v: RemovalView, o: OutcomeView)
    requires
        removal_wf(v),
        v.mode == CleanMode::Auto,
    ensures
        removal_next(v, o).2 matches RemovalCommandView::RemoveImages { args } ==> forall|j: int|
            1 <= j < args.len() ==> #[trigger] args[j] != v.expected_builder && args[j] != v.expected_rootfs,
{
    if v.phase == RemovalPhase::Listing {
        if let OutcomeView::Succeeded(out) = o {
            lemma_removal_list_selects(trimmed_lines(out), v.mode, v.expected_builder, v.expected_rootfs);
        }
    }
    if let RemovalCommandView::RemoveImages { args } = removal_next(v, o).2 {
        assert forall|j: int| 1 <= j < args.len() implies #[trigger] args[j] != v.expected_builder
            && args[j] != v.expected_rootfs by {
            if v.phase == RemovalPhase::Listing {
                let images = removal_list(trimmed_lines(outcome_text(o)), v.mode, v.expected_builder, v.expected_rootfs);
                assert(args[j] == images[j - 1]);
            } else if v.phase == RemovalPhase::SingleRemoving {
                assert(args[j] == v.images[v.next + 1int]);
            } else {
                assert(args[j] == v.images[0]);
            }
        }
    }
}


/// A cleanup whose commands all succeed removes exactly the images that
/// its mode selects from the listing, all with one command when there are
/// several, and finishes with their number.
pub proof fn law_cleanup_removes_selected_images(
    mode: CleanMode,
    expected_builder: Seq<char>,
    expected_rootfs: Seq<char>,
    listing: Seq<char>,
    removal: OutcomeView,
)
    requires
        removal is Succeeded,
    ensures
        ({
            let images = removal_list(trimmed_lines(listing), mode, expected_builder, expected_rootfs);
            let commands = removal_commands(
                removal_start(mode, expected_builder, expected_rootfs),
                seq![OutcomeView::Succeeded(listing), removal],
            );
            &&& images.len() == 0 ==> commands == seq![RemovalCommandView::Finish { removed: 0 }]
            &&& images.len() == 1 ==> commands == seq![
                removing_one(images[0]),
                RemovalCommandView::Finish { removed: 1 },
            ]
            &&& images.len() >= 2 ==> commands == seq![
                RemovalCommandView::RemoveImages { args: seq!["-f"@] + images },
                RemovalCommandView::Finish { removed: images.len() as u32 },
            ]
        }),
{
    let v0 = removal_start(mode, expected_builder, expected_rootfs);
    let outs = seq![OutcomeView::Succeeded(listing), removal];
    let images = removal_list(trimmed_lines(listing), mode, expected_builder, expected_rootfs);
    lemma_removal_commands_unfold(v0, outs);
    assert(outs.skip(1) =~= seq![removal]);
    let v1 = removal_next(v0, OutcomeView::Succeeded(listing)).0;
    if images.len() == 0 {
        assert(v1.phase == RemovalPhase::Finished);
        assert(removal_commands(v1, seq![removal]) =~= Seq::<RemovalCommandView>::empty());
        assert(removal_commands(v0, outs) =~= seq![RemovalCommandView::Finish { removed: 0 }]);
    } else {
        lemma_removal_commands_unfold(v1, seq![removal]);
        assert(seq![removal].skip(1) =~= Seq::<OutcomeView>::empty());
        let v2 = removal_next(v1, removal).0;
        assert(v2.phase == RemovalPhase::Finished);
        assert(removal_commands(v2, Seq::<OutcomeView>::empty()) =~= Seq::<RemovalCommandView>::empty());
    }
}

/// An automatic cleanup removes only images that a full cleanup removes.
pub proof fn law_auto_clean_within_full_clean(
    image: Seq<char>,
    expected_builder: Seq<char>,
    expected_rootfs: Seq<char>,
)
    ensures
        removes_image(image, CleanMode::Auto, expected_builder, expected_rootfs) ==> removes_image(
            image,
            CleanMode::Full,
            expected_builder,
            expected_rootfs,
        ),
{
}

/// An automatic cleanup keeps the final builder and rootfs images, and a
/// full cleanup removes them.
pub proof fn law_auto_clean_keeps_final_images(expected_builder: Seq<char>, expected_rootfs: Seq<char>)
    ensures
        !removes_image(expected_builder, CleanMode::Auto, expected_builder, expected_rootfs),
        !removes_image(expected_rootfs, CleanMode::Auto, expected_builder, expected_rootfs),
        removes_image(expected_builder, CleanMode::Full, expected_builder, expected_rootfs),
        removes_image(expected_rootfs, CleanMode::Full, expected_builder, expected_rootfs),
{
}

/// Every image that an automatic cleanup of a listing removes, a full
/// cleanup of the same listing removes too.
pub proof fn law_auto_removal_list_within_full(
    lines: Seq<Seq<char>>,
    expected_builder: Seq<char>,
    expected_rootfs: Seq<char>,
)
    ensures
        forall|k: int|
            0 <= k < removal_list(lines, CleanMode::Auto, expected_builder, expected_rootfs).len()
                ==> removal_list(lines, CleanMode::Full, expected_builder, expected_rootfs).contains(
                #[trigger] removal_list(lines, CleanMode::Auto, expected_builder, expected_rootfs)[k],
            ),
    decreases lines.len(),
{
    if lines.len() > 0 {
        law_auto_removal_list_within_full(lines.drop_last(), expected_builder, expected_rootfs);
        let auto_rest = removal_list(lines.drop_last(), CleanMode::Auto, expected_builder, expected_rootfs);
        let full_rest = removal_list(lines.drop_last(), CleanMode::Full, expected_builder, expected_rootfs);
        let auto = removal_list(lines, CleanMode::Auto, expected_builder, expected_rootfs);
        let full = removal_list(lines, CleanMode::Full, expected_builder, expected_rootfs);
        let line = lines.last();
        assert forall|k: int| 0 <= k < auto.len() implies full.contains(#[trigger] auto[k]) by {
            if k < auto_rest.len() {
                assert(auto[k] == auto_rest[k]);
                assert(full_rest.contains(auto_rest[k]));
                let j = choose|j: int| 0 <= j < full_rest.len() && full_rest[j] == auto_rest[k];
                if line.len() > 0 && removes_image(line, CleanMode::Full, expected_builder, expected_rootfs) {
                    assert(full[j] == full_rest[j]);
                }
            } else {
                assert(auto[k] == line);
                assert(full[full.len() - 1] == line);
            }
        }
    }
}

/// Every intermediate image that a multi-stage build tags (all stages but
/// the last, built with the temporary name `builder` for builder builds or
/// `stage` for rootfs builds) is a trellis image: a full cleanup removes it,
/// and an automatic cleanup removes it unless it is one of the final images.
pub proof fn law_cleanup_recognises_intermediate_images(
    tmp_name: Seq<char>,
    final_tag: Seq<char>,
    stages: Seq<Seq<char>>,
    i: int,
    expected_builder: Seq<char>,
    expected_rootfs: Seq<char>,
)
    requires
        tmp_name == "builder"@ || tmp_name == "stage"@,
        0 <= i < stages.len() - 1,
    ensures
        removes_image(
            final_image_name(stage_tag_of(tmp_name, final_tag, stages, i)),
            CleanMode::Full,
            expected_builder,
            expected_rootfs,
        ),
        final_image_name(stage_tag_of(tmp_name, final_tag, stages, i)) != expected_builder
            && final_image_name(stage_tag_of(tmp_name, final_tag, stages, i)) != expected_rootfs
            ==> removes_image(
            final_image_name(stage_tag_of(tmp_name, final_tag, stages, i)),
            CleanMode::Auto,
            expected_builder,
            expected_rootfs,
        ),
{
    reveal_strlit("localhost/");
    reveal_strlit("trellis-");
    reveal_strlit("builder");
    reveal_strlit("stage");
    reveal_strlit("trellis-builder");
    reveal_strlit("trellis-stage");
    let t = stage_tag_of(tmp_name, final_tag, stages, i);
    let name = final_image_name(t);
    let rest = t.skip(8 + tmp_name.len() as int);
    assert(t =~= "trellis-"@ + tmp_name + rest);
    assert(name =~= LOCALHOST_PREFIX@ + ("trellis-"@ + tmp_name) + (rest + ":latest"@));
    if tmp_name == "builder"@ {
        assert("trellis-"@ + tmp_name =~= BUILDER_PREFIX@);
        let p = LOCALHOST_PREFIX@ + BUILDER_PREFIX@;
        assert(name.subrange(0, p.len() as int) =~= p);
    } else {
        assert("trellis-"@ + tmp_name =~= STAGE_PREFIX@);
        let p = LOCALHOST_PREFIX@ + STAGE_PREFIX@;
        assert(name.subrange(0, p.len() as int) =~= p);
    }
}

} // verus!
