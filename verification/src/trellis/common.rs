//! Message formatting shared by all trellis components.

use vstd::prelude::*;

use crate::text::concat2;

verus! {

/// Error message prefix.
pub const ERROR_PREFIX: &'static str = "====> ERROR: ";

/// Warning message prefix.
pub const WARNING_PREFIX: &'static str = "====> WARNING: ";

/// Informational message prefix.
pub const INFO_PREFIX: &'static str = "====> ";

/// Formats messages with the standard trellis prefixes; the program prints
/// what it formats.
#[derive(Debug, Clone, Copy)]
pub struct TrellisMessager;

impl TrellisMessager {
    /// A messager; it holds no state.
    pub fn new() -> (r: Self)
        ensures
            r == TrellisMessager,
    {
        TrellisMessager
    }

    /// An informational line.
    pub fn info_line(&self, message: &str) -> (r: String)
        ensures
            r@ == INFO_PREFIX@ + message@,
    {
        concat2(INFO_PREFIX, message)
    }

    /// A warning line.
    pub fn warning_line(&self, message: &str) -> (r: String)
        ensures
            r@ == WARNING_PREFIX@ + message@,
    {
        concat2(WARNING_PREFIX, message)
    }

    /// An error line.
    pub fn error_line(&self, message: &str) -> (r: String)
        ensures
            r@ == ERROR_PREFIX@ + message@,
    {
        concat2(ERROR_PREFIX, message)
    }
}

impl Default for TrellisMessager {
    fn default() -> (r: Self)
        ensures
            r == TrellisMessager,
    {
        Self::new()
    }
}

/// How a command that the program carried out went.
pub enum Outcome {
    /// It succeeded; the text is what the program printed on standard output.
    Succeeded(String),
    /// It failed; the text is the program's standard error, or the file
    /// system error.
    Failed(String),
    /// The program could not be run; the text says why.
    Unavailable(String),
}

/// An outcome, with its texts as character sequences.
pub enum OutcomeView {
    Succeeded(Seq<char>),
    Failed(Seq<char>),
    Unavailable(Seq<char>),
}

impl View for Outcome {
    type V = OutcomeView;

    open spec fn view(&self) -> OutcomeView {
        match self {
            Outcome::Succeeded(t) => OutcomeView::Succeeded(t@),
            Outcome::Failed(t) => OutcomeView::Failed(t@),
            Outcome::Unavailable(t) => OutcomeView::Unavailable(t@),
        }
    }
}

/// The text an outcome carries.
pub open spec fn outcome_text(o: OutcomeView) -> Seq<char> {
    match o {
        OutcomeView::Succeeded(t) => t,
        OutcomeView::Failed(t) => t,
        OutcomeView::Unavailable(t) => t,
    }
}

/// Whether a note is information or a warning.
#[derive(Debug, Clone, Copy, PartialEq, Eq, Structural)]
pub enum NoteKind {
    Info,
    Warning,
}

/// A message for the user.
pub struct Note {
    pub kind: NoteKind,
    pub text: String,
}

impl View for Note {
    type V = (NoteKind, Seq<char>);

    open spec fn view(&self) -> (NoteKind, Seq<char>) {
        (self.kind, self.text@)
    }
}

/// The views of a list of notes.
pub open spec fn note_views(notes: Seq<Note>) -> Seq<(NoteKind, Seq<char>)> {
    notes.map_values(|n: Note| n@)
}

/// An information note.
pub open spec fn info(text: Seq<char>) -> (NoteKind, Seq<char>) {
    (NoteKind::Info, text)
}

/// A warning note.
pub open spec fn warning(text: Seq<char>) -> (NoteKind, Seq<char>) {
    (NoteKind::Warning, text)
}

/// Appends the note `text` of kind `kind` to `notes`.
pub fn push_note(notes: &mut Vec<Note>, kind: NoteKind, text: String)
    ensures
        note_views(final(notes)@) == note_views(old(notes)@).push((kind, text@)),
{
    let ghost before = note_views(notes@);
    let ghost t = text@;
    notes.push(Note { kind, text });
    assert(note_views(notes@) =~= before.push((kind, t)));
}

} // verus!
