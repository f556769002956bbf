//! Opening notes, transcripts and settings: which file is meant and which
//! program opens it.
//!
//! Spawning the program and inspecting the file system are I/O; the choices
//! are made here.

use vstd::prelude::*;

use crate::events::AppEvent;
use crate::paths::{notes_dir_of, opt_view, paths_equal, resolve_notes_dir, same_path, PathEnv};
use crate::settings::Settings;
use crate::text::{chars_of, string_of, trim, trim_exec};
use crate::types::{strings_view, StoredDocumentKind};

verus! {

broadcast use vstd::seq_lib::group_seq_properties;

// ---------------------------------------------------------------------------
// Shell words
// ---------------------------------------------------------------------------

/// What `shlex::split` makes of a command line: its words, or nothing when
/// the quoting is broken.
pub uninterp spec fn shlex_split(s: Seq<char>) -> Option<Seq<Seq<char>>>;

/// Splits a command line into words as a POSIX shell would (`shlex::split`).
/// The result is taken to be `shlex_split` of the text: the crate's
/// function depends on its argument alone.
#[verifier::external_body]
fn shell_words(command: &str) -> (r: Option<Vec<String>>)
    ensures
        match r {
            Some(words) => shlex_split(command@) == Some(strings_view(words@)),
            None => shlex_split(command@) is None,
        },
{
    shlex::split(command)
}

/// A program with its arguments.
#[derive(Debug, Clone, PartialEq, Eq)]
pub struct CommandLine {
    /// The program.
    pub program: String,
    /// Its arguments.
    pub args: Vec<String>,
}

/// What one editor variable contributes.
#[derive(Debug, PartialEq, Eq)]
pub enum EditorChoice {
    /// The variable names no command; try the next one.
    Skip,
    /// Run this command line.
    Run(CommandLine),
    /// The variable's quoting is broken.
    Invalid(String),
}

/// The command line of a trimmed, non-blank editor variable whose words are
/// `words` (`None` when its quoting is broken), opening `path`.
pub fn editor_choice(variable: &str, command: &str, words: Option<Vec<String>>, path: &str) -> (r: EditorChoice)
    ensures
        match words {
            None => r matches EditorChoice::Invalid(m) && m@ == "failed to parse "@ + variable@ + "="@ + command@,
            Some(w) => if w@.len() == 0 {
                r is Skip
            } else {
                r matches EditorChoice::Run(c) && c.program@ == w@[0]@ && strings_view(c.args@) == strings_view(
                    w@,
                ).drop_first().push(path@)
            },
        },
{
    match words {
        None => {
            let mut m = "failed to parse ".to_owned();
            m.append(variable);
            m.append("=");
            m.append(command);
            EditorChoice::Invalid(m)
        },
        Some(mut w) => {
            if w.len() == 0 {
                return EditorChoice::Skip;
            }
            let ghost all = strings_view(w@);
            let program = w.remove(0);
            proof {
                assert(strings_view(w@) =~= all.drop_first());
            }
            let ghost rest = w@;
            w.push(path.to_owned());
            proof {
                assert(strings_view(w@) =~= strings_view(rest).push(path@));
            }
            EditorChoice::Run(CommandLine { program, args: w })
        },
    }
}

/// Model of an [`EditorChoice`].
pub enum ChoiceView {
    Skip,
    Run(Seq<char>, Seq<Seq<char>>),
    Invalid(Seq<char>),
}

impl View for EditorChoice {
    type V = ChoiceView;

    open spec fn view(&self) -> ChoiceView {
        match self {
            EditorChoice::Skip => ChoiceView::Skip,
            EditorChoice::Run(c) => ChoiceView::Run(c.program@, strings_view(c.args@)),
            EditorChoice::Invalid(m) => ChoiceView::Invalid(m@),
        }
    }
}

/// What one variable's value contributes: nothing when blank, else the
/// command line its shell words give, opening `path`.
pub open spec fn editor_choice_of(variable: Seq<char>, value: Seq<char>, path: Seq<char>) -> ChoiceView {
    let command = trim(value);
    if command.len() == 0 {
        ChoiceView::Skip
    } else {
        match shlex_split(command) {
            None => ChoiceView::Invalid("failed to parse "@ + variable + "="@ + command),
            Some(w) => if w.len() == 0 {
                ChoiceView::Skip
            } else {
                ChoiceView::Run(w[0], w.drop_first().push(path))
            },
        }
    }
}

/// The editor command of one variable's value.
pub fn editor_from_value(variable: &str, value: &str, path: &str) -> (r: EditorChoice)
    ensures
        r@ == editor_choice_of(variable@, value@, path@),
{
    let trimmed = trim_exec(&chars_of(value));
    if trimmed.len() == 0 {
        return EditorChoice::Skip;
    }
    let command = string_of(&trimmed);
    let words = shell_words(command.as_str());
    editor_choice(variable, command.as_str(), words, path)
}

/// The choice for an optional variable.
pub open spec fn variable_choice(variable: Seq<char>, value: Option<&str>, path: Seq<char>) -> ChoiceView {
    match value {
        Some(v) => editor_choice_of(variable, v@, path),
        None => ChoiceView::Skip,
    }
}

/// The editor that opens `path`: `VISUAL` before `EDITOR`, skipping unset
/// and blank variables and those without words; broken quoting is an error.
pub open spec fn preferred_editor_of(visual: Option<&str>, editor: Option<&str>, path: Seq<char>) -> ChoiceView {
    match variable_choice("VISUAL"@, visual, path) {
        ChoiceView::Skip => variable_choice("EDITOR"@, editor, path),
        c => c,
    }
}

/// The model of the editor lookup's result.
pub open spec fn editor_result_view(r: Result<Option<CommandLine>, String>) -> ChoiceView {
    match r {
        Ok(Some(c)) => ChoiceView::Run(c.program@, strings_view(c.args@)),
        Ok(None) => ChoiceView::Skip,
        Err(m) => ChoiceView::Invalid(m@),
    }
}

/// The editor for `path` from the values of `VISUAL` and `EDITOR`.
pub fn preferred_editor_command(visual: Option<&str>, editor: Option<&str>, path: &str) -> (r: Result<Option<CommandLine>, String>)
    ensures
        editor_result_view(r) == preferred_editor_of(visual, editor, path@),
{
    if let Some(v) = visual {
        match editor_from_value("VISUAL", v, path) {
            EditorChoice::Skip => {},
            EditorChoice::Run(c) => {
                return Ok(Some(c));
            },
            EditorChoice::Invalid(m) => {
                return Err(m);
            },
        }
    }
    if let Some(e) = editor {
        match editor_from_value("EDITOR", e, path) {
            EditorChoice::Skip => {},
            EditorChoice::Run(c) => {
                return Ok(Some(c));
            },
            EditorChoice::Invalid(m) => {
                return Err(m);
            },
        }
    }
    Ok(None)
}

/// The program that opens `path`: the preferred editor when one is wanted
/// and known, else `xdg-open`.
pub fn launch_command(prefer_editor: bool, editor: Option<CommandLine>, path: &str) -> (r: CommandLine)
    ensures
        match editor {
            Some(c) if prefer_editor => r == c,
            _ => r.program@ == "xdg-open"@ && strings_view(r.args@) == seq![path@],
        },
{
    if prefer_editor {
        if let Some(c) = editor {
            return c;
        }
    }
    let mut args: Vec<String> = Vec::new();
    args.push(path.to_owned());
    proof {
        assert(strings_view(args@) =~= seq![path@]);
    }
    CommandLine { program: "xdg-open".to_owned(), args }
}

// ---------------------------------------------------------------------------
// The notes-open loop
// ---------------------------------------------------------------------------

/// What is found at the settings path.
#[derive(Debug, Clone, Copy, PartialEq, Eq, Structural)]
pub enum PathState {
    /// A regular file.
    File,
    /// Something other than a regular file.
    NotAFile,
    /// Nothing.
    Missing,
    /// It could not be inspected.
    Unreadable,
}

/// What to do before opening the settings file.
#[derive(Debug, Clone, Copy, PartialEq, Eq, Structural)]
pub enum SettingsFilePlan {
    /// Open it.
    Open,
    /// Write the default settings there, then open it if that worked.
    CreateThenOpen,
    /// Do not open anything.
    Refuse,
}

/// The settings file is opened when it is a regular file and created with
/// the defaults when missing; anything else is refused.
pub fn settings_file_plan(state: PathState) -> (r: SettingsFilePlan)
    ensures
        r == match state {
            PathState::File => SettingsFilePlan::Open,
            PathState::Missing => SettingsFilePlan::CreateThenOpen,
            _ => SettingsFilePlan::Refuse,
        },
{
    match state {
        PathState::File => SettingsFilePlan::Open,
        PathState::Missing => SettingsFilePlan::CreateThenOpen,
        _ => SettingsFilePlan::Refuse,
    }
}

/// The notes directory to open when there is no latest note: the configured
/// one, or the working directory when it cannot be resolved.
pub fn configured_notes_dir(settings: &Settings, env: &PathEnv) -> (r: String)
    ensures
        match notes_dir_of(settings.storage.notes_dir@, *env) {
            Ok(d) => r@ == d,
            Err(_) => r@ == "."@,
        },
{
    match resolve_notes_dir(settings, env) {
        Ok(d) => d,
        Err(_) => ".".to_owned(),
    }
}

/// What the notes-open loop does after an event.
#[derive(Debug, PartialEq, Eq)]
pub enum UiAction {
    /// Nothing.
    Nothing,
    /// Open the current work (see [`current_work`]), or, when `path` is
    /// `None`, the configured notes directory; an editor is preferred when
    /// the path is a file.
    OpenNotes { path: Option<String> },
    /// Open this transcript draft in an editor.
    OpenTranscript { path: String },
    /// There is no transcript draft to open.
    NoTranscript,
    /// Make sure the settings file exists (see [`settings_file_plan`]) and
    /// open it in an editor.
    OpenSettings,
    /// Open a path.
    OpenPath { path: String, prefer_editor: bool },
    /// Leave the loop.
    Stop,
}

/// The model of a meeting's transcript draft.
pub open spec fn draft_view(d: Option<(u128, String)>) -> Option<(u128, Seq<char>)> {
    match d {
        Some((m, p)) => Some((m, p@)),
        None => None,
    }
}

/// The transcript draft of a meeting that has not ended, after an event: a
/// new draft replaces it; the end of its meeting, or the deletion of its
/// file, clears it.
pub open spec fn active_draft_after(draft: Option<(u128, Seq<char>)>, event: AppEvent) -> Option<(u128, Seq<char>)> {
    match event {
        AppEvent::TranscriptDraftReady { meeting_id, path } => Some((meeting_id, path@)),
        AppEvent::MeetingEnded { id } => match draft {
            Some((m, _)) => if m == id {
                None
            } else {
                draft
            },
            None => None,
        },
        AppEvent::DocumentDeleted { path, kind } => match draft {
            Some((_, d)) => if kind == StoredDocumentKind::Transcript && same_path(d, path@) {
                None
            } else {
                draft
            },
            None => None,
        },
        _ => draft,
    }
}

/// Follows the transcript draft of the meeting in progress.
pub fn track_active_draft(draft: &mut Option<(u128, String)>, event: &AppEvent)
    ensures
        draft_view(*final(draft)) == active_draft_after(draft_view(*old(draft)), *event),
        !(*event is TranscriptDraftReady || *event is MeetingEnded || *event is DocumentDeleted) ==> *final(draft)
            == *old(draft),
{
    match event {
        AppEvent::TranscriptDraftReady { meeting_id, path } => {
            *draft = Some((*meeting_id, path.clone()));
        },
        AppEvent::MeetingEnded { id } => {
            let ended = match draft {
                Some((m, _)) => *m == *id,
                None => false,
            };
            if ended {
                *draft = None;
            }
        },
        AppEvent::DocumentDeleted { path, kind } => {
            let deleted = match draft {
                Some((_, d)) => *kind == StoredDocumentKind::Transcript && paths_equal(d.as_str(), path.as_str()),
                None => false,
            };
            if deleted {
                *draft = None;
            }
        },
        _ => {},
    }
}

/// The current work: the transcript draft of the meeting in progress, else
/// the latest saved note.
pub open spec fn current_work(draft: Option<(u128, Seq<char>)>, latest_note: Option<Seq<char>>) -> Option<Seq<char>> {
    match draft {
        Some((_, d)) => Some(d),
        None => latest_note,
    }
}

/// The latest documents the loop has heard of.
#[derive(Debug)]
pub struct NotesOpenState {
    /// The latest saved note.
    pub latest_note: Option<String>,
    /// The latest transcript draft.
    pub latest_transcript: Option<String>,
    /// The transcript draft of the meeting in progress, with its meeting.
    pub active_draft: Option<(u128, String)>,
}

impl NotesOpenState {
    /// Nothing heard of yet.
    pub fn new() -> (r: Self)
        ensures
            r.latest_note is None,
            r.latest_transcript is None,
            r.active_draft is None,
    {
        NotesOpenState { latest_note: None, latest_transcript: None, active_draft: None }
    }

    /// Reacts to an event from the bus.
    pub fn handle_event(&mut self, event: &AppEvent) -> (action: UiAction)
        ensures
            draft_view(final(self).active_draft) == active_draft_after(draft_view(old(self).active_draft), *event),
            match *event {
                AppEvent::NoteSaved { path, .. } => opt_view(final(self).latest_note) == Some(path@)
                    && final(self).latest_transcript == old(self).latest_transcript && action is Nothing,
                AppEvent::TranscriptDraftReady { path, .. } => opt_view(final(self).latest_transcript) == Some(path@)
                    && final(self).latest_note == old(self).latest_note && action is Nothing,
                AppEvent::DocumentDeleted { path, kind } => {
                    &&& action is Nothing
                    &&& if kind == StoredDocumentKind::Note {
                        final(self).latest_transcript == old(self).latest_transcript
                            && if (old(self).latest_note matches Some(n) && same_path(n@, path@)) {
                                final(self).latest_note is None
                            } else {
                                final(self).latest_note == old(self).latest_note
                            }
                    } else {
                        final(self).latest_note == old(self).latest_note
                            && if (old(self).latest_transcript matches Some(t) && same_path(t@, path@)) {
                                final(self).latest_transcript is None
                            } else {
                                final(self).latest_transcript == old(self).latest_transcript
                            }
                    }
                },
                AppEvent::OpenNotesRequested => *final(self) == *old(self) && (action matches UiAction::OpenNotes { path }
                    && opt_view(path) == current_work(draft_view(old(self).active_draft), opt_view(old(self).latest_note))),
                AppEvent::MeetingEnded { .. } => final(self).latest_note == old(self).latest_note
                    && final(self).latest_transcript == old(self).latest_transcript && action is Nothing,
                AppEvent::OpenTranscriptRequested => *final(self) == *old(self) && match old(self).latest_transcript {
                    Some(t) => action matches UiAction::OpenTranscript { path } && path@ == t@,
                    None => action is NoTranscript,
                },
                AppEvent::OpenSettingsRequested => *final(self) == *old(self) && action is OpenSettings,
                AppEvent::OpenPathRequested { path, prefer_editor } => *final(self) == *old(self)
                    && (action matches UiAction::OpenPath { path: p, prefer_editor: e } && p@ == path@ && e == prefer_editor),
                AppEvent::QuitRequested => *final(self) == *old(self) && action is Stop,
                _ => *final(self) == *old(self) && action is Nothing,
            },
    {
        track_active_draft(&mut self.active_draft, event);
        match event {
            AppEvent::NoteSaved { path, .. } => {
                self.latest_note = Some(path.clone());
                UiAction::Nothing
            },
            AppEvent::TranscriptDraftReady { path, .. } => {
                self.latest_transcript = Some(path.clone());
                UiAction::Nothing
            },
            AppEvent::DocumentDeleted { path, kind } => {
                match kind {
                    StoredDocumentKind::Note => {
                        let same = match &self.latest_note {
                            Some(current) => paths_equal(current.as_str(), path.as_str()),
                            None => false,
                        };
                        if same {
                            self.latest_note = None;
                        }
                    },
                    StoredDocumentKind::Transcript => {
                        let same = match &self.latest_transcript {
                            Some(current) => paths_equal(current.as_str(), path.as_str()),
                            None => false,
                        };
                        if same {
                            self.latest_transcript = None;
                        }
                    },
                }
                UiAction::Nothing
            },
            AppEvent::OpenNotesRequested => match &self.active_draft {
                Some((_, d)) => UiAction::OpenNotes { path: Some(d.clone()) },
                None => UiAction::OpenNotes { path: self.latest_note.clone() },
            },
            AppEvent::OpenTranscriptRequested => match &self.latest_transcript {
                Some(t) => UiAction::OpenTranscript { path: t.clone() },
                None => UiAction::NoTranscript,
            },
            AppEvent::OpenSettingsRequested => UiAction::OpenSettings,
            AppEvent::OpenPathRequested { path, prefer_editor } => UiAction::OpenPath {
                path: path.clone(),
                prefer_editor: *prefer_editor,
            },
            AppEvent::QuitRequested => UiAction::Stop,
            _ => UiAction::Nothing,
        }
    }
}

} // verus!
