//! The tray and terminal controls: what the user sees and what each choice
//! publishes.
//!
//! The status notifier itself, reading standard input and persisting settings
//! are I/O; they hand the library plain values and carry out what it returns.

use vstd::prelude::*;

use crate::detection::{count_ended, count_started};
use crate::events::{is_meeting_ended, is_meeting_started, AppEvent};
use crate::numbers::{decimal, decimal_string};
use crate::paths::opt_view;
use crate::settings::{
    validated_model, AiProvider, RecordingDetectionMethod, Settings, SettingsModel,
    TranscriptionMethod,
};
use crate::text::{
    chars_of, is_blank, is_ws, is_ws_char, lower, lower_exec, string_of, subvec, trim, trim_exec,
};
use crate::types::{DetectionSource, StoredDocument, StoredDocumentKind};

verus! {

broadcast use vstd::seq_lib::group_seq_properties, crate::views::lemma_char_vec_deep_view;

/// The commands that terminal controls understand, for the help text.
pub const TERMINAL_HELP: &'static str = "commands: start [meeting name], stop, open, transcript, settings, quit, help";

// ---------------------------------------------------------------------------
// Labels and settings changes
// ---------------------------------------------------------------------------

/// `On` or `Off`.
pub fn on_off(value: bool) -> (r: &'static str)
    ensures
        r@ == if value { "On"@ } else { "Off"@ },
{
    if value {
        "On"
    } else {
        "Off"
    }
}

/// Label of a detection method.
pub fn detection_method_label(method: RecordingDetectionMethod) -> (r: &'static str)
    ensures
        r@ == "Hyprland"@,
{
    match method {
        RecordingDetectionMethod::Hyprland => "Hyprland",
    }
}

/// Label of a transcription method.
pub open spec fn transcription_label(method: TranscriptionMethod) -> Seq<char> {
    match method {
        TranscriptionMethod::Local => "Local Whisper"@,
        TranscriptionMethod::Openai => "OpenAI Whisper"@,
    }
}

/// Label of a transcription method.
pub fn transcription_method_label(method: TranscriptionMethod) -> (r: &'static str)
    ensures
        r@ == transcription_label(method),
{
    match method {
        TranscriptionMethod::Local => "Local Whisper",
        TranscriptionMethod::Openai => "OpenAI Whisper",
    }
}

/// Label of an AI provider.
pub open spec fn provider_label(provider: AiProvider) -> Seq<char> {
    match provider {
        AiProvider::LlamaCpp => "llama.cpp"@,
        AiProvider::Openai => "OpenAI"@,
        AiProvider::Anthropic => "Anthropic"@,
        AiProvider::Ollama => "Ollama"@,
    }
}

/// Label of an AI provider.
pub fn ai_provider_label(provider: AiProvider) -> (r: &'static str)
    ensures
        r@ == provider_label(provider),
{
    match provider {
        AiProvider::LlamaCpp => "llama.cpp",
        AiProvider::Openai => "OpenAI",
        AiProvider::Anthropic => "Anthropic",
        AiProvider::Ollama => "Ollama",
    }
}

/// The menu label of a saved document: its human title.
pub fn document_menu_label(document: &StoredDocument) -> (r: String)
    ensures
        r@ == document.title@,
{
    document.title.clone()
}

/// A change that the settings menu asks for.
#[derive(Debug, Clone, Copy, PartialEq, Eq, Structural)]
pub enum SettingChange {
    /// `meeting.auto_detect`.
    AutoDetect(bool),
    /// `meeting.auto_capture`.
    AutoCapture(bool),
    /// `audio.capture_loopback`.
    CaptureLoopback(bool),
    /// `transcription.method`.
    TranscriptionMethod(TranscriptionMethod),
    /// `ai.provider`.
    AiProvider(AiProvider),
}

/// The settings with one change made.
pub open spec fn changed(m: SettingsModel, change: SettingChange) -> SettingsModel {
    match change {
        SettingChange::AutoDetect(v) => SettingsModel {
            meeting: crate::settings::MeetingSettings { auto_detect: v, ..m.meeting },
            ..m
        },
        SettingChange::AutoCapture(v) => SettingsModel {
            meeting: crate::settings::MeetingSettings { auto_capture: v, ..m.meeting },
            ..m
        },
        SettingChange::CaptureLoopback(v) => SettingsModel {
            audio: crate::settings::AudioModel { capture_loopback: v, ..m.audio },
            ..m
        },
        SettingChange::TranscriptionMethod(v) => SettingsModel {
            transcription: crate::settings::TranscriptionModel { method: v, ..m.transcription },
            ..m
        },
        SettingChange::AiProvider(v) => SettingsModel {
            ai: crate::settings::AiModel { provider: v, ..m.ai },
            ..m
        },
    }
}

/// A settings change sets exactly the setting it names, to the value it
/// carries, and leaves every other setting as it was; validation keeps the
/// chosen value, so it is what gets persisted.
pub proof fn law_setting_change_sets_its_setting(m: SettingsModel, change: SettingChange)
    ensures
        ({
            let r = changed(m, change);
            &&& r.general == m.general
            &&& r.storage == m.storage
            &&& r.meeting.detection_method == m.meeting.detection_method
            &&& r.meeting.auto_detect == match change {
                SettingChange::AutoDetect(v) => v,
                _ => m.meeting.auto_detect,
            }
            &&& r.meeting.auto_capture == match change {
                SettingChange::AutoCapture(v) => v,
                _ => m.meeting.auto_capture,
            }
            &&& r.audio.capture_loopback == match change {
                SettingChange::CaptureLoopback(v) => v,
                _ => m.audio.capture_loopback,
            }
            &&& r.audio.input_device == m.audio.input_device
            &&& r.audio.max_recording_size_mb == m.audio.max_recording_size_mb
            &&& r.audio.chunk_duration_minutes == m.audio.chunk_duration_minutes
            &&& r.transcription.method == match change {
                SettingChange::TranscriptionMethod(v) => v,
                _ => m.transcription.method,
            }
            &&& r.transcription.model_path == m.transcription.model_path
            &&& r.transcription.openai_api_key == m.transcription.openai_api_key
            &&& r.ai.provider == match change {
                SettingChange::AiProvider(v) => v,
                _ => m.ai.provider,
            }
            &&& r.ai.model == m.ai.model
            &&& r.ai.model_path == m.ai.model_path
            &&& r.ai.hf_repo == m.ai.hf_repo
            &&& r.ai.hf_model_file == m.ai.hf_model_file
            &&& r.ai.api_key == m.ai.api_key
            &&& r.ai.ollama_url == m.ai.ollama_url
            &&& r.ai.system_prompt == m.ai.system_prompt
        }),
        ({
            let v = validated_model(changed(m, change));
            &&& v.meeting == changed(m, change).meeting
            &&& v.audio.capture_loopback == changed(m, change).audio.capture_loopback
            &&& v.transcription.method == changed(m, change).transcription.method
            &&& v.ai.provider == changed(m, change).ai.provider
        }),
{
}

/// Makes one settings change.
pub fn apply_setting_change(settings: &mut Settings, change: SettingChange)
    ensures
        final(settings)@ == changed(old(settings)@, change),
{
    match change {
        SettingChange::AutoDetect(v) => settings.meeting.auto_detect = v,
        SettingChange::AutoCapture(v) => settings.meeting.auto_capture = v,
        SettingChange::CaptureLoopback(v) => settings.audio.capture_loopback = v,
        SettingChange::TranscriptionMethod(v) => settings.transcription.method = v,
        SettingChange::AiProvider(v) => settings.ai.provider = v,
    }
}

/// The settings to persist after a change: the loaded settings with the
/// change made, validated.
pub fn updated_settings(loaded: Settings, change: SettingChange) -> (r: Settings)
    ensures
        r@ == validated_model(changed(loaded@, change)),
{
    let mut settings = loaded;
    apply_setting_change(&mut settings, change);
    settings.validated()
}

// ---------------------------------------------------------------------------
// Terminal controls
// ---------------------------------------------------------------------------

/// Index of the first white space in `s`, or `s.len()`.
pub open spec fn first_ws(s: Seq<char>) -> int
    decreases s.len(),
{
    if s.len() == 0 {
        0
    } else if is_ws(s[0]) {
        0
    } else {
        1 + first_ws(s.drop_first())
    }
}

/// The command word of a trimmed line, in lower case.
pub open spec fn terminal_verb(command: Seq<char>) -> Seq<char> {
    lower(command.subrange(0, first_ws(command)))
}

/// What follows the command word, trimmed, when anything does.
pub open spec fn terminal_argument(command: Seq<char>) -> Option<Seq<char>> {
    let i = first_ws(command);
    if i >= command.len() {
        None
    } else {
        let rest = trim(command.subrange(i + 1, command.len() as int));
        if rest.len() == 0 {
            None
        } else {
            Some(rest)
        }
    }
}

/// A line typed at the terminal controls.
#[derive(Debug, Clone, PartialEq, Eq)]
pub enum TerminalCommand {
    /// Start a manual meeting, with an optional name.
    Start(Option<String>),
    /// Stop the manual meeting.
    Stop,
    /// Open the notes.
    OpenNotes,
    /// Open the latest transcript.
    OpenTranscript,
    /// Open the settings.
    OpenSettings,
    /// Quit Rustle.
    Quit,
    /// Show the commands.
    Help,
    /// An unknown command word.
    Unknown(String),
}

/// The command that a non-blank line holds.
pub open spec fn command_is(c: TerminalCommand, line: Seq<char>) -> bool {
    let command = trim(line);
    let verb = terminal_verb(command);
    if verb == "start"@ {
        c matches TerminalCommand::Start(name) && opt_view(name) == terminal_argument(command)
    } else if verb == "stop"@ {
        c is Stop
    } else if verb == "open"@ || verb == "notes"@ {
        c is OpenNotes
    } else if verb == "transcript"@ {
        c is OpenTranscript
    } else if verb == "settings"@ {
        c is OpenSettings
    } else if verb == "quit"@ || verb == "exit"@ {
        c is Quit
    } else if verb == "help"@ {
        c is Help
    } else {
        c matches TerminalCommand::Unknown(v) && v@ == verb
    }
}

/// Position of the first white space, or the length.
fn first_ws_exec(s: &Vec<char>) -> (i: usize)
    ensures
        i == first_ws(s@),
        i <= s@.len(),
{
    let mut i: usize = 0;
    assert(s@.subrange(0, s@.len() as int) =~= s@);
    while i < s.len() && !is_ws_char(s[i])
        invariant
            i <= s@.len(),
            first_ws(s@) == i + first_ws(s@.subrange(i as int, s@.len() as int)),
        decreases s@.len() - i,
    {
        assert(s@.subrange(i as int, s@.len() as int).drop_first() =~= s@.subrange(
            i + 1,
            s@.len() as int,
        ));
        i += 1;
    }
    i
}

/// Equality with a literal.
fn is_word(v: &Vec<char>, word: &str) -> (r: bool)
    ensures
        r == (v@ == word@),
{
    crate::text::eq(v, &chars_of(word))
}

/// Reads a terminal line; blank lines hold no command.
pub fn parse_terminal_command(line: &str) -> (r: Option<TerminalCommand>)
    ensures
        is_blank(line@) ==> r is None,
        !is_blank(line@) ==> (r matches Some(c) && command_is(c, line@)),
{
    let command = trim_exec(&chars_of(line));
    if command.len() == 0 {
        return None;
    }
    let i = first_ws_exec(&command);
    let verb = lower_exec(&subvec(&command, 0, i));
    if is_word(&verb, "start") {
        let argument = if i >= command.len() {
            None
        } else {
            let rest = trim_exec(&subvec(&command, i + 1, command.len()));
            if rest.len() == 0 {
                None
            } else {
                Some(string_of(&rest))
            }
        };
        return Some(TerminalCommand::Start(argument));
    }
    if is_word(&verb, "stop") {
        return Some(TerminalCommand::Stop);
    }
    if is_word(&verb, "open") || is_word(&verb, "notes") {
        return Some(TerminalCommand::OpenNotes);
    }
    if is_word(&verb, "transcript") {
        return Some(TerminalCommand::OpenTranscript);
    }
    if is_word(&verb, "settings") {
        return Some(TerminalCommand::OpenSettings);
    }
    if is_word(&verb, "quit") || is_word(&verb, "exit") {
        return Some(TerminalCommand::Quit);
    }
    if is_word(&verb, "help") {
        return Some(TerminalCommand::Help);
    }
    Some(TerminalCommand::Unknown(string_of(&verb)))
}

/// The default name of a manual meeting started at `unix_seconds`.
pub open spec fn manual_meeting_name(unix_seconds: nat) -> Seq<char> {
    "Manual Meeting "@ + decimal(unix_seconds)
}

/// Names a manual meeting after the time it started.
pub fn manual_meeting_name_exec(unix_seconds: u64) -> (r: String)
    ensures
        r@ == manual_meeting_name(unix_seconds as nat),
{
    let mut r = "Manual Meeting ".to_owned();
    r.append(decimal_string(unix_seconds).as_str());
    r
}

/// What the terminal controls report to the user.
#[derive(Debug, Clone, PartialEq, Eq)]
pub enum TerminalNotice {
    /// A manual meeting is already active.
    AlreadyActive,
    /// No manual meeting is active.
    NoActiveMeeting,
    /// The named meeting stopped.
    Stopped(String),
    /// The list of commands.
    Help,
    /// The command word was not understood.
    Unknown(String),
}

/// What the terminal loop does after a command.
#[derive(Debug)]
pub struct TerminalStep {
    /// Events to publish, in order.
    pub publish: Vec<AppEvent>,
    /// What to tell the user.
    pub notice: Option<TerminalNotice>,
    /// Whether the loop ends.
    pub stop: bool,
}

/// Counting meeting starts and ends distributes over `push`.
pub proof fn lemma_count_push(s: Seq<AppEvent>, e: AppEvent)
    ensures
        count_started(s.push(e)) == count_started(s) + if e is MeetingStarted { 1int } else { 0int },
        count_ended(s.push(e)) == count_ended(s) + if e is MeetingEnded { 1int } else { 0int },
        count_started(Seq::<AppEvent>::empty()) == 0,
        count_ended(Seq::<AppEvent>::empty()) == 0,
{
    assert(s.push(e).drop_last() =~= s);
}

/// 1 for an active meeting, else 0.
pub open spec fn live(m: Option<(u128, String)>) -> int {
    if m is Some {
        1
    } else {
        0
    }
}

/// The terminal controls: at most one manual meeting at a time.
#[derive(Debug)]
pub struct TerminalState {
    /// The manual meeting started here, with its name.
    pub active_meeting: Option<(u128, String)>,
}

impl TerminalState {
    /// No meeting is active.
    pub fn new() -> (r: Self)
        ensures
            r.active_meeting is None,
    {
        TerminalState { active_meeting: None }
    }

    /// Carries out a command; `fresh_id` identifies a meeting that it starts
    /// and `unix_seconds` names it when no name was given.
    pub fn handle_command(&mut self, command: TerminalCommand, fresh_id: u128, unix_seconds: u64) -> (step: TerminalStep)
        ensures
            count_started(step.publish@) - count_ended(step.publish@) == live(final(self).active_meeting)
                - live(old(self).active_meeting),
            match command {
                TerminalCommand::Start(name) => if old(self).active_meeting is Some {
                    &&& final(self).active_meeting == old(self).active_meeting
                    &&& step.publish@.len() == 0 && step.notice == Some(TerminalNotice::AlreadyActive)
                    &&& !step.stop
                } else {
                    let n = match name {
                        Some(n) => n@,
                        None => manual_meeting_name(unix_seconds as nat),
                    };
                    &&& final(self).active_meeting matches Some((id, m)) && id == fresh_id && m@ == n
                    &&& step.publish@.len() == 1
                    &&& is_meeting_started(step.publish@[0], fresh_id, n, DetectionSource::Manual)
                    &&& step.notice is None && !step.stop
                },
                TerminalCommand::Stop => {
                    &&& final(self).active_meeting is None
                    &&& !step.stop
                    &&& match old(self).active_meeting {
                        Some((id, name)) => step.publish@.len() == 1 && is_meeting_ended(step.publish@[0], id)
                            && step.notice == Some(TerminalNotice::Stopped(name)),
                        None => step.publish@.len() == 0 && step.notice == Some(
                            TerminalNotice::NoActiveMeeting,
                        ),
                    }
                },
                TerminalCommand::Quit => {
                    &&& final(self).active_meeting is None
                    &&& step.stop && step.notice is None
                    &&& match old(self).active_meeting {
                        Some((id, _)) => step.publish@.len() == 2 && is_meeting_ended(step.publish@[0], id)
                            && step.publish@[1] == AppEvent::QuitRequested,
                        None => step.publish@.len() == 1 && step.publish@[0] == AppEvent::QuitRequested,
                    }
                },
                TerminalCommand::OpenNotes => final(self).active_meeting == old(self).active_meeting
                    && step.publish@ == seq![AppEvent::OpenNotesRequested] && step.notice is None && !step.stop,
                TerminalCommand::OpenTranscript => final(self).active_meeting == old(self).active_meeting
                    && step.publish@ == seq![AppEvent::OpenTranscriptRequested] && step.notice is None
                    && !step.stop,
                TerminalCommand::OpenSettings => final(self).active_meeting == old(self).active_meeting
                    && step.publish@ == seq![AppEvent::OpenSettingsRequested] && step.notice is None
                    && !step.stop,
                TerminalCommand::Help => final(self).active_meeting == old(self).active_meeting
                    && step.publish@.len() == 0 && step.notice == Some(TerminalNotice::Help) && !step.stop,
                TerminalCommand::Unknown(word) => final(self).active_meeting == old(self).active_meeting
                    && step.publish@.len() == 0 && step.notice == Some(TerminalNotice::Unknown(word))
                    && !step.stop,
            },
    {
        let mut publish: Vec<AppEvent> = Vec::new();
        proof {
            lemma_count_push(Seq::empty(), AppEvent::QuitRequested);
        }
        match command {
            TerminalCommand::Start(name) => {
                if self.active_meeting.is_some() {
                    return TerminalStep { publish, notice: Some(TerminalNotice::AlreadyActive), stop: false };
                }
                let meeting_name = match name {
                    Some(n) => n,
                    None => manual_meeting_name_exec(unix_seconds),
                };
                let event = AppEvent::MeetingStarted {
                    id: fresh_id,
                    name: meeting_name.clone(),
                    source: DetectionSource::Manual,
                };
                self.active_meeting = Some((fresh_id, meeting_name));
                publish.push(event);
                proof {
                    lemma_count_push(Seq::empty(), publish@[0]);
                    assert(publish@ =~= Seq::<AppEvent>::empty().push(publish@[0]));
                }
                TerminalStep { publish, notice: None, stop: false }
            },
            TerminalCommand::Stop => {
                match self.active_meeting.take() {
                    Some((id, name)) => {
                        publish.push(AppEvent::MeetingEnded { id });
                        proof {
                            lemma_count_push(Seq::empty(), publish@[0]);
                            assert(publish@ =~= Seq::<AppEvent>::empty().push(publish@[0]));
                        }
                        TerminalStep { publish, notice: Some(TerminalNotice::Stopped(name)), stop: false }
                    },
                    None => TerminalStep {
                        publish,
                        notice: Some(TerminalNotice::NoActiveMeeting),
                        stop: false,
                    },
                }
            },
            TerminalCommand::Quit => {
                match self.active_meeting.take() {
                    Some((id, _)) => {
                        publish.push(AppEvent::MeetingEnded { id });
                        let ghost first = publish@;
                        publish.push(AppEvent::QuitRequested);
                        proof {
                            lemma_count_push(Seq::empty(), AppEvent::MeetingEnded { id });
                            assert(first =~= Seq::<AppEvent>::empty().push(AppEvent::MeetingEnded { id }));
                            lemma_count_push(first, AppEvent::QuitRequested);
                        }
                    },
                    None => {
                        publish.push(AppEvent::QuitRequested);
                        proof {
                            lemma_count_push(Seq::empty(), publish@[0]);
                            assert(publish@ =~= Seq::<AppEvent>::empty().push(publish@[0]));
                        }
                    },
                }
                TerminalStep { publish, notice: None, stop: true }
            },
            TerminalCommand::OpenNotes => {
                publish.push(AppEvent::OpenNotesRequested);
                proof {
                    lemma_count_push(Seq::empty(), publish@[0]);
                    assert(publish@ =~= Seq::<AppEvent>::empty().push(publish@[0]));
                }
                TerminalStep { publish, notice: None, stop: false }
            },
            TerminalCommand::OpenTranscript => {
                publish.push(AppEvent::OpenTranscriptRequested);
                proof {
                    lemma_count_push(Seq::empty(), publish@[0]);
                    assert(publish@ =~= Seq::<AppEvent>::empty().push(publish@[0]));
                }
                TerminalStep { publish, notice: None, stop: false }
            },
            TerminalCommand::OpenSettings => {
                publish.push(AppEvent::OpenSettingsRequested);
                proof {
                    lemma_count_push(Seq::empty(), publish@[0]);
                    assert(publish@ =~= Seq::<AppEvent>::empty().push(publish@[0]));
                }
                TerminalStep { publish, notice: None, stop: false }
            },
            TerminalCommand::Help => TerminalStep { publish, notice: Some(TerminalNotice::Help), stop: false },
            TerminalCommand::Unknown(word) => TerminalStep {
                publish,
                notice: Some(TerminalNotice::Unknown(word)),
                stop: false,
            },
        }
    }
}

// ---------------------------------------------------------------------------
// The tray menu
// ---------------------------------------------------------------------------

/// What a tray menu entry does when chosen.
#[derive(Debug, Clone)]
pub enum TrayCommand {
    /// Start a manual meeting.
    StartManualMeeting,
    /// Stop the active meeting.
    StopMeeting,
    /// Stop the active meeting and quit.
    Quit,
    /// Open a file or directory.
    OpenPath { path: String, prefer_editor: bool },
    /// Delete a saved document.
    DeleteDocument { path: String, kind: StoredDocumentKind },
    /// Summarise a saved transcript into a new note.
    SummariseTranscript { path: String },
    /// Persist a settings change.
    ChangeSetting(SettingChange),
    /// Open the settings file.
    OpenSettings,
}

/// Model of a [`TrayCommand`].
pub enum CommandView {
    StartManualMeeting,
    StopMeeting,
    Quit,
    OpenPath { path: Seq<char>, prefer_editor: bool },
    DeleteDocument { path: Seq<char>, kind: StoredDocumentKind },
    SummariseTranscript { path: Seq<char> },
    ChangeSetting(SettingChange),
    OpenSettings,
}

impl View for TrayCommand {
    type V = CommandView;

    open spec fn view(&self) -> CommandView {
        match self {
            TrayCommand::StartManualMeeting => CommandView::StartManualMeeting,
            TrayCommand::StopMeeting => CommandView::StopMeeting,
            TrayCommand::Quit => CommandView::Quit,
            TrayCommand::OpenPath { path, prefer_editor } => CommandView::OpenPath {
                path: path@,
                prefer_editor: *prefer_editor,
            },
            TrayCommand::DeleteDocument { path, kind } => CommandView::DeleteDocument {
                path: path@,
                kind: *kind,
            },
            TrayCommand::SummariseTranscript { path } => CommandView::SummariseTranscript {
                path: path@,
            },
            TrayCommand::ChangeSetting(c) => CommandView::ChangeSetting(*c),
            TrayCommand::OpenSettings => CommandView::OpenSettings,
        }
    }
}

/// The model of an optional command.
pub open spec fn command_opt_view(c: Option<TrayCommand>) -> Option<CommandView> {
    match c {
        Some(c) => Some(c@),
        None => None,
    }
}

/// An entry of the tray menu.
#[derive(Debug)]
pub enum MenuNode {
    /// A plain entry; a disabled one or one without a command does nothing.
    Item { label: String, enabled: bool, icon_name: String, command: Option<TrayCommand> },
    /// A submenu.
    Submenu { label: String, icon_name: String, children: Vec<MenuNode> },
    /// A separator.
    Separator,
}

/// `n` is the entry `label` with these properties.
pub open spec fn is_item(n: MenuNode, label: Seq<char>, enabled: bool, icon: Seq<char>, command: Option<CommandView>) -> bool {
    n matches MenuNode::Item { label: l, enabled: e, icon_name: i, command: c } && l@ == label && e
        == enabled && i@ == icon && command_opt_view(c) == command
}

/// `n` is a submenu with this label and icon; its children are returned by
/// [`children_of`].
pub open spec fn is_submenu(n: MenuNode, label: Seq<char>, icon: Seq<char>) -> bool {
    n matches MenuNode::Submenu { label: l, icon_name: i, .. } && l@ == label && i@ == icon
}

/// The children of a submenu.
pub open spec fn children_of(n: MenuNode) -> Seq<MenuNode> {
    match n {
        MenuNode::Submenu { children, .. } => children@,
        _ => Seq::empty(),
    }
}

/// A new menu entry.
fn item(label: &str, enabled: bool, icon_name: &str, command: Option<TrayCommand>) -> (n: MenuNode)
    ensures
        is_item(n, label@, enabled, icon_name@, command_opt_view(command)),
{
    MenuNode::Item { label: label.to_owned(), enabled, icon_name: icon_name.to_owned(), command }
}

/// The submenu of a saved note: open it or delete it.
pub open spec fn note_node(n: MenuNode, d: StoredDocument) -> bool {
    &&& is_submenu(n, d.title@, "text-markdown"@)
    &&& children_of(n).len() == 2
    &&& is_item(children_of(n)[0], "_Open"@, true, "document-open"@, Some(CommandView::OpenPath { path: d.path@, prefer_editor: true }))
    &&& is_item(children_of(n)[1], "_Delete Permanently"@, true, "user-trash"@, Some(CommandView::DeleteDocument { path: d.path@, kind: StoredDocumentKind::Note }))
}

/// The submenu of a saved transcript: open, summarise or delete it.
pub open spec fn transcript_node(n: MenuNode, d: StoredDocument) -> bool {
    &&& is_submenu(n, d.title@, "text-x-generic"@)
    &&& children_of(n).len() == 3
    &&& is_item(children_of(n)[0], "_Open"@, true, "document-open"@, Some(CommandView::OpenPath { path: d.path@, prefer_editor: true }))
    &&& is_item(children_of(n)[1], "_Summarise To New Note"@, true, "document-save"@, Some(CommandView::SummariseTranscript { path: d.path@ }))
    &&& is_item(children_of(n)[2], "_Delete Permanently"@, true, "user-trash"@, Some(CommandView::DeleteDocument { path: d.path@, kind: StoredDocumentKind::Transcript }))
}

/// The submenu of a saved note.
pub fn note_document_submenu(document: &StoredDocument) -> (n: MenuNode)
    ensures
        note_node(n, *document),
{
    let mut children: Vec<MenuNode> = Vec::new();
    children.push(item("_Open", true, "document-open", Some(TrayCommand::OpenPath { path: document.path.clone(), prefer_editor: true })));
    children.push(item("_Delete Permanently", true, "user-trash", Some(TrayCommand::DeleteDocument { path: document.path.clone(), kind: StoredDocumentKind::Note })));
    MenuNode::Submenu { label: document_menu_label(document), icon_name: "text-markdown".to_owned(), children }
}

/// The submenu of a saved transcript.
pub fn transcript_document_submenu(document: &StoredDocument) -> (n: MenuNode)
    ensures
        transcript_node(n, *document),
{
    let mut children: Vec<MenuNode> = Vec::new();
    children.push(item("_Open", true, "document-open", Some(TrayCommand::OpenPath { path: document.path.clone(), prefer_editor: true })));
    children.push(item("_Summarise To New Note", true, "document-save", Some(TrayCommand::SummariseTranscript { path: document.path.clone() })));
    children.push(item("_Delete Permanently", true, "user-trash", Some(TrayCommand::DeleteDocument { path: document.path.clone(), kind: StoredDocumentKind::Transcript })));
    MenuNode::Submenu { label: document_menu_label(document), icon_name: "text-x-generic".to_owned(), children }
}

/// The command that opens the first document of a list in an editor.
pub open spec fn open_first(docs: Seq<StoredDocument>) -> Option<CommandView> {
    if docs.len() > 0 {
        Some(CommandView::OpenPath { path: docs[0].path@, prefer_editor: true })
    } else {
        None
    }
}

/// The command that opens a directory, when there is one.
pub open spec fn open_dir(dir: Option<String>) -> Option<CommandView> {
    match dir {
        Some(d) => Some(CommandView::OpenPath { path: d@, prefer_editor: false }),
        None => None,
    }
}

/// The document list of the tray: a submenu labelled with the count, an
/// entry for the latest document and one for the folder, then each document.
pub open spec fn documents_node(
    n: MenuNode,
    docs: Seq<StoredDocument>,
    dir: Option<String>,
    transcripts: bool,
) -> bool {
    let c = children_of(n);
    &&& is_submenu(
        n,
        (if transcripts { "_Transcripts ("@ } else { "_Notes ("@ }) + decimal(docs.len()) + ")"@,
        if transcripts { "text-x-generic"@ } else { "text-markdown"@ },
    )
    &&& c.len() >= 3
    &&& is_item(
        c[0],
        if transcripts { "Open Latest _Transcript"@ } else { "Open _Latest Note"@ },
        docs.len() > 0,
        if transcripts { "text-x-generic"@ } else { "document-open"@ },
        open_first(docs),
    )
    &&& is_item(
        c[1],
        if transcripts { "Open Transcript _Folder"@ } else { "Open Notes _Folder"@ },
        dir is Some,
        "folder-open"@,
        open_dir(dir),
    )
    &&& if docs.len() == 0 {
        c.len() == 3 && is_item(
            c[2],
            if transcripts { "No saved transcripts yet"@ } else { "No saved notes yet"@ },
            false,
            if transcripts { "text-x-generic"@ } else { "text-markdown"@ },
            None,
        )
    } else {
        &&& c.len() == 3 + docs.len()
        &&& c[2] is Separator
        &&& forall|i: int| 0 <= i < docs.len() ==> if transcripts {
            transcript_node(#[trigger] c[3 + i], docs[i])
        } else {
            note_node(c[3 + i], docs[i])
        }
    }
}

/// The notes or transcripts submenu.
pub fn documents_submenu(docs: &Vec<StoredDocument>, dir: &Option<String>, transcripts: bool) -> (n: MenuNode)
    ensures
        documents_node(n, docs@, *dir, transcripts),
{
    let mut children: Vec<MenuNode> = Vec::new();
    let latest = if docs.len() > 0 {
        Some(TrayCommand::OpenPath { path: docs[0].path.clone(), prefer_editor: true })
    } else {
        None
    };
    children.push(item(
        if transcripts { "Open Latest _Transcript" } else { "Open _Latest Note" },
        docs.len() > 0,
        if transcripts { "text-x-generic" } else { "document-open" },
        latest,
    ));
    let folder = match dir {
        Some(d) => Some(TrayCommand::OpenPath { path: d.clone(), prefer_editor: false }),
        None => None,
    };
    children.push(item(
        if transcripts { "Open Transcript _Folder" } else { "Open Notes _Folder" },
        dir.is_some(),
        "folder-open",
        folder,
    ));
    if docs.len() == 0 {
        children.push(item(
            if transcripts { "No saved transcripts yet" } else { "No saved notes yet" },
            false,
            if transcripts { "text-x-generic" } else { "text-markdown" },
            None,
        ));
    } else {
        children.push(MenuNode::Separator);
        let mut i: usize = 0;
        while i < docs.len()
            invariant
                i <= docs@.len(),
                children@.len() == 3 + i,
                is_item(
                    children@[0],
                    if transcripts { "Open Latest _Transcript"@ } else { "Open _Latest Note"@ },
                    docs@.len() > 0,
                    if transcripts { "text-x-generic"@ } else { "document-open"@ },
                    open_first(docs@),
                ),
                is_item(
                    children@[1],
                    if transcripts { "Open Transcript _Folder"@ } else { "Open Notes _Folder"@ },
                    dir is Some,
                    "folder-open"@,
                    open_dir(*dir),
                ),
                children@[2] is Separator,
                forall|k: int| 0 <= k < i ==> if transcripts {
                    transcript_node(#[trigger] children@[3 + k], docs@[k])
                } else {
                    note_node(children@[3 + k], docs@[k])
                },
            decreases docs@.len() - i,
        {
            let node = if transcripts {
                transcript_document_submenu(&docs[i])
            } else {
                note_document_submenu(&docs[i])
            };
            children.push(node);
            i += 1;
        }
    }
    let mut label = (if transcripts { "_Transcripts (" } else { "_Notes (" }).to_owned();
    label.append(decimal_string(docs.len() as u64).as_str());
    label.append(")");
    MenuNode::Submenu {
        label,
        icon_name: (if transcripts { "text-x-generic" } else { "text-markdown" }).to_owned(),
        children,
    }
}

/// An on/off setting: its state in the label, and entries to turn it on or
/// off, each enabled only when it changes something.
pub open spec fn bool_setting_node(n: MenuNode, label: Seq<char>, current: bool, icon: Seq<char>, on: SettingChange, off: SettingChange) -> bool {
    let c = children_of(n);
    &&& is_submenu(n, label + ": "@ + (if current { "On"@ } else { "Off"@ }), icon)
    &&& c.len() == 2
    &&& is_item(c[0], "Turn _On"@, !current, "object-select"@, Some(CommandView::ChangeSetting(on)))
    &&& is_item(c[1], "Turn O_ff"@, current, "window-close"@, Some(CommandView::ChangeSetting(off)))
}

/// The submenu of an on/off setting.
pub fn bool_setting_submenu(label: &str, current: bool, icon_name: &str, on: SettingChange, off: SettingChange) -> (n: MenuNode)
    ensures
        bool_setting_node(n, label@, current, icon_name@, on, off),
{
    let mut text = label.to_owned();
    text.append(": ");
    text.append(on_off(current));
    let mut children: Vec<MenuNode> = Vec::new();
    children.push(item("Turn _On", !current, "object-select", Some(TrayCommand::ChangeSetting(on))));
    children.push(item("Turn O_ff", current, "window-close", Some(TrayCommand::ChangeSetting(off))));
    MenuNode::Submenu { label: text, icon_name: icon_name.to_owned(), children }
}

/// An entry choosing a value: enabled unless the value is already chosen.
pub fn choice_setting_item(label: &str, selected: bool, icon_name: &str, change: SettingChange) -> (n: MenuNode)
    ensures
        is_item(n, label@, !selected, icon_name@, Some(CommandView::ChangeSetting(change))),
{
    item(label, !selected, icon_name, Some(TrayCommand::ChangeSetting(change)))
}

/// The transcription method submenu.
pub open spec fn transcription_node(n: MenuNode, current: TranscriptionMethod) -> bool {
    let c = children_of(n);
    &&& is_submenu(n, "Transcription: "@ + transcription_label(current), "audio-x-generic"@)
    &&& c.len() == 2
    &&& is_item(c[0], "Local Whisper"@, current != TranscriptionMethod::Local, "computer"@, Some(CommandView::ChangeSetting(SettingChange::TranscriptionMethod(TranscriptionMethod::Local))))
    &&& is_item(c[1], "OpenAI Whisper"@, current != TranscriptionMethod::Openai, "network-server"@, Some(CommandView::ChangeSetting(SettingChange::TranscriptionMethod(TranscriptionMethod::Openai))))
}

/// The transcription method submenu.
pub fn transcription_method_submenu(current: TranscriptionMethod) -> (n: MenuNode)
    ensures
        transcription_node(n, current),
{
    let mut label = "Transcription: ".to_owned();
    label.append(transcription_method_label(current));
    let mut children: Vec<MenuNode> = Vec::new();
    children.push(choice_setting_item("Local Whisper", current == TranscriptionMethod::Local, "computer", SettingChange::TranscriptionMethod(TranscriptionMethod::Local)));
    children.push(choice_setting_item("OpenAI Whisper", current == TranscriptionMethod::Openai, "network-server", SettingChange::TranscriptionMethod(TranscriptionMethod::Openai)));
    MenuNode::Submenu { label, icon_name: "audio-x-generic".to_owned(), children }
}

/// The AI provider submenu.
pub open spec fn provider_node(n: MenuNode, current: AiProvider) -> bool {
    let c = children_of(n);
    &&& is_submenu(n, "AI Provider: "@ + provider_label(current), "applications-science"@)
    &&& c.len() == 4
    &&& is_item(c[0], "llama.cpp"@, current != AiProvider::LlamaCpp, "computer"@, Some(CommandView::ChangeSetting(SettingChange::AiProvider(AiProvider::LlamaCpp))))
    &&& is_item(c[1], "OpenAI"@, current != AiProvider::Openai, "network-server"@, Some(CommandView::ChangeSetting(SettingChange::AiProvider(AiProvider::Openai))))
    &&& is_item(c[2], "Anthropic"@, current != AiProvider::Anthropic, "network-server"@, Some(CommandView::ChangeSetting(SettingChange::AiProvider(AiProvider::Anthropic))))
    &&& is_item(c[3], "Ollama"@, current != AiProvider::Ollama, "network-workgroup"@, Some(CommandView::ChangeSetting(SettingChange::AiProvider(AiProvider::Ollama))))
}

/// The AI provider submenu.
pub fn ai_provider_submenu(current: AiProvider) -> (n: MenuNode)
    ensures
        provider_node(n, current),
{
    let mut label = "AI Provider: ".to_owned();
    label.append(ai_provider_label(current));
    let mut children: Vec<MenuNode> = Vec::new();
    children.push(choice_setting_item("llama.cpp", current == AiProvider::LlamaCpp, "computer", SettingChange::AiProvider(AiProvider::LlamaCpp)));
    children.push(choice_setting_item("OpenAI", current == AiProvider::Openai, "network-server", SettingChange::AiProvider(AiProvider::Openai)));
    children.push(choice_setting_item("Anthropic", current == AiProvider::Anthropic, "network-server", SettingChange::AiProvider(AiProvider::Anthropic)));
    children.push(choice_setting_item("Ollama", current == AiProvider::Ollama, "network-workgroup", SettingChange::AiProvider(AiProvider::Ollama)));
    MenuNode::Submenu { label, icon_name: "applications-science".to_owned(), children }
}

/// The settings submenu.
pub open spec fn settings_node(n: MenuNode, s: Settings) -> bool {
    let c = children_of(n);
    &&& is_submenu(n, "_Settings"@, "preferences-system"@)
    &&& c.len() == 8
    &&& bool_setting_node(c[0], "Auto Detect"@, s.meeting.auto_detect, "system-search"@, SettingChange::AutoDetect(true), SettingChange::AutoDetect(false))
    &&& bool_setting_node(c[1], "Auto Capture"@, s.meeting.auto_capture, "media-record"@, SettingChange::AutoCapture(true), SettingChange::AutoCapture(false))
    &&& bool_setting_node(c[2], "Capture Loopback"@, s.audio.capture_loopback, "audio-card"@, SettingChange::CaptureLoopback(true), SettingChange::CaptureLoopback(false))
    &&& is_item(c[3], "Detection Method: Hyprland"@, false, "preferences-system-windows"@, None)
    &&& transcription_node(c[4], s.transcription.method)
    &&& provider_node(c[5], s.ai.provider)
    &&& c[6] is Separator
    &&& is_item(c[7], "Open Config In _Editor"@, true, "preferences-desktop-text-to-speech"@, Some(CommandView::OpenSettings))
}

/// The settings submenu.
pub fn settings_submenu(settings: &Settings) -> (n: MenuNode)
    ensures
        settings_node(n, *settings),
{
    let mut children: Vec<MenuNode> = Vec::new();
    children.push(bool_setting_submenu("Auto Detect", settings.meeting.auto_detect, "system-search", SettingChange::AutoDetect(true), SettingChange::AutoDetect(false)));
    children.push(bool_setting_submenu("Auto Capture", settings.meeting.auto_capture, "media-record", SettingChange::AutoCapture(true), SettingChange::AutoCapture(false)));
    children.push(bool_setting_submenu("Capture Loopback", settings.audio.capture_loopback, "audio-card", SettingChange::CaptureLoopback(true), SettingChange::CaptureLoopback(false)));
    let mut detection = "Detection Method: ".to_owned();
    detection.append(detection_method_label(settings.meeting.detection_method));
    proof {
        reveal_strlit("Detection Method: ");
        reveal_strlit("Hyprland");
        reveal_strlit("Detection Method: Hyprland");
        assert(detection@ =~= "Detection Method: Hyprland"@);
    }
    children.push(MenuNode::Item { label: detection, enabled: false, icon_name: "preferences-system-windows".to_owned(), command: None });
    children.push(transcription_method_submenu(settings.transcription.method));
    children.push(ai_provider_submenu(settings.ai.provider));
    children.push(MenuNode::Separator);
    children.push(item("Open Config In _Editor", true, "preferences-desktop-text-to-speech", Some(TrayCommand::OpenSettings)));
    MenuNode::Submenu { label: "_Settings".to_owned(), icon_name: "preferences-system".to_owned(), children }
}

/// The meeting submenu: start is enabled without an active meeting, stop with one.
pub open spec fn meeting_node(n: MenuNode, active: bool) -> bool {
    let c = children_of(n);
    &&& is_submenu(n, "_Meeting"@, "audio-input-microphone"@)
    &&& c.len() == 2
    &&& is_item(c[0], "_Start Manual Meeting"@, !active, "media-record"@, Some(CommandView::StartManualMeeting))
    &&& is_item(c[1], "S_top Meeting"@, active, "media-playback-stop"@, Some(CommandView::StopMeeting))
}

/// The meeting submenu.
pub fn meeting_submenu(meeting_active: bool) -> (n: MenuNode)
    ensures
        meeting_node(n, meeting_active),
{
    let mut children: Vec<MenuNode> = Vec::new();
    children.push(item("_Start Manual Meeting", !meeting_active, "media-record", Some(TrayCommand::StartManualMeeting)));
    children.push(item("S_top Meeting", meeting_active, "media-playback-stop", Some(TrayCommand::StopMeeting)));
    MenuNode::Submenu { label: "_Meeting".to_owned(), icon_name: "audio-input-microphone".to_owned(), children }
}

/// The label of the entry naming the current meeting.
pub open spec fn current_meeting_label(active: Option<(u128, String)>) -> Seq<char> {
    match active {
        Some((_, name)) => "Current _Meeting: "@ + name@,
        None => "Current _Meeting: None"@,
    }
}

/// The disabled entry naming the current meeting.
pub fn current_meeting_item(active_meeting: &Option<(u128, String)>) -> (n: MenuNode)
    ensures
        is_item(n, current_meeting_label(*active_meeting), false, "audio-input-microphone"@, None),
{
    let label = match active_meeting {
        Some((_, name)) => {
            let mut l = "Current _Meeting: ".to_owned();
            l.append(name.as_str());
            l
        },
        None => "Current _Meeting: None".to_owned(),
    };
    MenuNode::Item { label, enabled: false, icon_name: "audio-input-microphone".to_owned(), command: None }
}

/// What the tray knows.
#[derive(Debug)]
pub struct TrayModel {
    /// The meeting in progress, with its name.
    pub active_meeting: Option<(u128, String)>,
    /// Current settings.
    pub settings: Settings,
    /// Saved notes, newest first.
    pub notes: Vec<StoredDocument>,
    /// Saved transcripts, newest first.
    pub transcripts: Vec<StoredDocument>,
    /// The notes directory, when it could be resolved.
    pub notes_dir: Option<String>,
    /// The transcripts directory, when it could be resolved.
    pub transcripts_dir: Option<String>,
    /// The transcript draft of the meeting in progress, with its meeting.
    pub active_draft: Option<(u128, String)>,
}

/// What choosing a tray entry leads to.
#[derive(Debug)]
pub struct TrayOutcome {
    /// Events to publish, in order.
    pub publish: Vec<AppEvent>,
    /// A settings change to persist.
    pub setting_change: Option<SettingChange>,
}

/// What the tray does after a bus event.
#[derive(Debug)]
pub struct StatusStep {
    /// Reload the document lists.
    pub refresh: bool,
    /// Shut the tray down and leave the loop.
    pub shutdown: bool,
}

impl TrayModel {
    /// The whole tray menu.
    pub fn menu(&self) -> (m: Vec<MenuNode>)
        ensures
            m@.len() == 8,
            documents_node(m@[0], self.notes@, self.notes_dir, false),
            documents_node(m@[1], self.transcripts@, self.transcripts_dir, true),
            is_item(m@[2], current_meeting_label(self.active_meeting), false, "audio-input-microphone"@, None),
            m@[3] is Separator,
            meeting_node(m@[4], self.active_meeting is Some),
            m@[5] is Separator,
            settings_node(m@[6], self.settings),
            is_item(m@[7], "_Quit"@, true, "application-exit"@, Some(CommandView::Quit)),
    {
        let mut m: Vec<MenuNode> = Vec::new();
        m.push(documents_submenu(&self.notes, &self.notes_dir, false));
        m.push(documents_submenu(&self.transcripts, &self.transcripts_dir, true));
        m.push(current_meeting_item(&self.active_meeting));
        m.push(MenuNode::Separator);
        m.push(meeting_submenu(self.active_meeting.is_some()));
        m.push(MenuNode::Separator);
        m.push(settings_submenu(&self.settings));
        m.push(item("_Quit", true, "application-exit", Some(TrayCommand::Quit)));
        m
    }

    /// The tray icon: a recording icon during a meeting.
    pub fn icon_name(&self) -> (r: &'static str)
        ensures
            r@ == if self.active_meeting is Some { "rustle-recording"@ } else { "rustle"@ },
    {
        if self.active_meeting.is_some() {
            "rustle-recording"
        } else {
            "rustle"
        }
    }

    /// The tooltip text.
    pub fn tool_tip_description(&self) -> (r: String)
        ensures
            r@ == match self.active_meeting {
                Some((_, name)) => "Current meeting: "@ + name@,
                None => "No active meeting"@,
            },
    {
        match &self.active_meeting {
            Some((_, name)) => {
                let mut r = "Current meeting: ".to_owned();
                r.append(name.as_str());
                r
            },
            None => "No active meeting".to_owned(),
        }
    }

    /// A click on the tray icon opens the current work: the transcript draft
    /// of the meeting in progress, else the latest note, else the notes
    /// folder, else it asks for the notes to be opened.
    pub fn activate(&self) -> (e: AppEvent)
        ensures
            match self.active_draft {
                Some((_, d)) => e matches AppEvent::OpenPathRequested { path, prefer_editor } && path@ == d@
                    && prefer_editor,
                None => {
                    &&& self.notes@.len() > 0 ==> (e matches AppEvent::OpenPathRequested { path, prefer_editor }
                        && path@ == self.notes@[0].path@ && prefer_editor)
                    &&& self.notes@.len() == 0 && self.notes_dir is Some ==> (e matches AppEvent::OpenPathRequested { path, prefer_editor }
                        && Some(path@) == opt_view(self.notes_dir) && !prefer_editor)
                    &&& self.notes@.len() == 0 && self.notes_dir is None ==> e == AppEvent::OpenNotesRequested
                },
            },
    {
        if let Some((_, d)) = &self.active_draft {
            return AppEvent::OpenPathRequested { path: d.clone(), prefer_editor: true };
        }
        if self.notes.len() > 0 {
            return AppEvent::OpenPathRequested { path: self.notes[0].path.clone(), prefer_editor: true };
        }
        match &self.notes_dir {
            Some(d) => AppEvent::OpenPathRequested { path: d.clone(), prefer_editor: false },
            None => AppEvent::OpenNotesRequested,
        }
    }

    pub fn perform(&mut self, command: TrayCommand, fresh_id: u128, unix_seconds: u64) -> (o: TrayOutcome)
        ensures
            count_started(o.publish@) - count_ended(o.publish@) == live(final(self).active_meeting) - live(old(self).active_meeting),
            match command {
                TrayCommand::StartManualMeeting => if old(self).active_meeting is Some {
                    final(self).active_meeting == old(self).active_meeting && o.publish@.len() == 0
                } else {
                    &&& final(self).active_meeting matches Some((id, m)) && id == fresh_id && m@ == manual_meeting_name(unix_seconds as nat)
                    &&& o.publish@.len() == 1
                    &&& is_meeting_started(o.publish@[0], fresh_id, manual_meeting_name(unix_seconds as nat), DetectionSource::Manual)
                },
                TrayCommand::StopMeeting => final(self).active_meeting is None && match old(self).active_meeting {
                    Some((id, _)) => o.publish@.len() == 1 && is_meeting_ended(o.publish@[0], id),
                    None => o.publish@.len() == 0,
                },
                TrayCommand::Quit => final(self).active_meeting is None && match old(self).active_meeting {
                    Some((id, _)) => o.publish@.len() == 2 && is_meeting_ended(o.publish@[0], id) && o.publish@[1] == AppEvent::QuitRequested,
                    None => o.publish@ == seq![AppEvent::QuitRequested],
                },
                TrayCommand::OpenPath { path, prefer_editor } => final(self).active_meeting == old(self).active_meeting
                    && o.publish@.len() == 1 && (o.publish@[0] matches AppEvent::OpenPathRequested { path: p, prefer_editor: e } && p@ == path@ && e == prefer_editor),
                TrayCommand::DeleteDocument { path, kind } => final(self).active_meeting == old(self).active_meeting
                    && o.publish@.len() == 1 && (o.publish@[0] matches AppEvent::DeleteDocumentRequested { path: p, kind: k } && p@ == path@ && k == kind),
                TrayCommand::SummariseTranscript { path } => final(self).active_meeting == old(self).active_meeting
                    && o.publish@.len() == 1 && (o.publish@[0] matches AppEvent::SummariseTranscriptRequested { path: p } && p@ == path@),
                TrayCommand::ChangeSetting(_) => final(self).active_meeting == old(self).active_meeting && o.publish@.len() == 0,
                TrayCommand::OpenSettings => final(self).active_meeting == old(self).active_meeting
                    && o.publish@ == seq![AppEvent::OpenSettingsRequested],
            },
            o.setting_change == match command {
                TrayCommand::ChangeSetting(c) => Some(c),
                _ => None,
            },
            final(self).settings == old(self).settings,
            final(self).notes == old(self).notes,
            final(self).transcripts == old(self).transcripts,
            final(self).notes_dir == old(self).notes_dir,
            final(self).transcripts_dir == old(self).transcripts_dir,
    {
        let mut publish: Vec<AppEvent> = Vec::new();
        proof {
            lemma_count_push(Seq::empty(), AppEvent::QuitRequested);
        }
        match command {
            TrayCommand::StartManualMeeting => {
                if self.active_meeting.is_none() {
                    let name = manual_meeting_name_exec(unix_seconds);
                    publish.push(AppEvent::MeetingStarted { id: fresh_id, name: name.clone(), source: DetectionSource::Manual });
                    self.active_meeting = Some((fresh_id, name));
                    proof {
                        lemma_count_push(Seq::empty(), publish@[0]);
                        assert(publish@ =~= Seq::<AppEvent>::empty().push(publish@[0]));
                    }
                }
                TrayOutcome { publish, setting_change: None }
            },
            TrayCommand::StopMeeting => {
                if let Some((id, _)) = self.active_meeting.take() {
                    publish.push(AppEvent::MeetingEnded { id });
                    proof {
                        lemma_count_push(Seq::empty(), publish@[0]);
                        assert(publish@ =~= Seq::<AppEvent>::empty().push(publish@[0]));
                    }
                }
                TrayOutcome { publish, setting_change: None }
            },
            TrayCommand::Quit => {
                match self.active_meeting.take() {
                    Some((id, _)) => {
                        publish.push(AppEvent::MeetingEnded { id });
                        let ghost first = publish@;
                        publish.push(AppEvent::QuitRequested);
                        proof {
                            lemma_count_push(Seq::empty(), AppEvent::MeetingEnded { id });
                            assert(first =~= Seq::<AppEvent>::empty().push(AppEvent::MeetingEnded { id }));
                            lemma_count_push(first, AppEvent::QuitRequested);
                        }
                    },
                    None => {
                        publish.push(AppEvent::QuitRequested);
                        proof {
                            assert(publish@ =~= Seq::<AppEvent>::empty().push(AppEvent::QuitRequested));
                        }
                    },
                }
                TrayOutcome { publish, setting_change: None }
            },
            TrayCommand::OpenPath { path, prefer_editor } => {
                publish.push(AppEvent::OpenPathRequested { path, prefer_editor });
                proof {
                    lemma_count_push(Seq::empty(), publish@[0]);
                    assert(publish@ =~= Seq::<AppEvent>::empty().push(publish@[0]));
                }
                TrayOutcome { publish, setting_change: None }
            },
            TrayCommand::DeleteDocument { path, kind } => {
                publish.push(AppEvent::DeleteDocumentRequested { path, kind });
                proof {
                    lemma_count_push(Seq::empty(), publish@[0]);
                    assert(publish@ =~= Seq::<AppEvent>::empty().push(publish@[0]));
                }
                TrayOutcome { publish, setting_change: None }
            },
            TrayCommand::SummariseTranscript { path } => {
                publish.push(AppEvent::SummariseTranscriptRequested { path });
                proof {
                    lemma_count_push(Seq::empty(), publish@[0]);
                    assert(publish@ =~= Seq::<AppEvent>::empty().push(publish@[0]));
                }
                TrayOutcome { publish, setting_change: None }
            },
            TrayCommand::ChangeSetting(change) => TrayOutcome { publish, setting_change: Some(change) },
            TrayCommand::OpenSettings => {
                publish.push(AppEvent::OpenSettingsRequested);
                proof {
                    lemma_count_push(Seq::empty(), publish@[0]);
                    assert(publish@ =~= Seq::<AppEvent>::empty().push(publish@[0]));
                }
                TrayOutcome { publish, setting_change: None }
            },
        }
    }

    /// Follows the bus: meetings that start and end, documents that change,
    /// new settings, and the request to quit.
    pub fn status_event(&mut self, event: &AppEvent) -> (step: StatusStep)
        ensures
            final(self).notes == old(self).notes,
            final(self).transcripts == old(self).transcripts,
            final(self).notes_dir == old(self).notes_dir,
            final(self).transcripts_dir == old(self).transcripts_dir,
            crate::ui::draft_view(final(self).active_draft) == crate::ui::active_draft_after(
                crate::ui::draft_view(old(self).active_draft),
                *event,
            ),
            match *event {
                AppEvent::MeetingStarted { id, name, .. } => (final(self).active_meeting matches Some((i, n)) && i == id && n@ == name@)
                    && final(self).settings == old(self).settings && !step.refresh && !step.shutdown,
                AppEvent::MeetingEnded { id } => (if old(self).active_meeting matches Some((i, _)) && i == id {
                    final(self).active_meeting is None
                } else {
                    final(self).active_meeting == old(self).active_meeting
                }) && final(self).settings == old(self).settings && !step.refresh && !step.shutdown,
                AppEvent::TranscriptDraftReady { .. } | AppEvent::NoteSaved { .. } | AppEvent::DocumentDeleted { .. } =>
                    final(self).active_meeting == old(self).active_meeting && final(self).settings == old(self).settings
                    && step.refresh && !step.shutdown,
                AppEvent::SettingsChanged(s) => final(self).active_meeting == old(self).active_meeting
                    && final(self).settings@ == validated_model(s@) && step.refresh && !step.shutdown,
                AppEvent::QuitRequested => final(self).active_meeting == old(self).active_meeting
                    && final(self).settings == old(self).settings && !step.refresh && step.shutdown,
                _ => final(self).active_meeting == old(self).active_meeting && final(self).settings == old(self).settings
                    && !step.refresh && !step.shutdown,
            },
    {
        crate::ui::track_active_draft(&mut self.active_draft, event);
        match event {
            AppEvent::MeetingStarted { id, name, .. } => {
                self.active_meeting = Some((*id, name.clone()));
                StatusStep { refresh: false, shutdown: false }
            },
            AppEvent::MeetingEnded { id } => {
                let same = match &self.active_meeting {
                    Some((i, _)) => *i == *id,
                    None => false,
                };
                if same {
                    self.active_meeting = None;
                }
                StatusStep { refresh: false, shutdown: false }
            },
            AppEvent::TranscriptDraftReady { .. } | AppEvent::NoteSaved { .. } | AppEvent::DocumentDeleted { .. } => StatusStep {
                refresh: true,
                shutdown: false,
            },
            AppEvent::SettingsChanged(updated) => {
                self.settings = updated.validated();
                StatusStep { refresh: true, shutdown: false }
            },
            AppEvent::QuitRequested => StatusStep { refresh: false, shutdown: true },
            _ => StatusStep { refresh: false, shutdown: false },
        }
    }
}


// ---------------------------------------------------------------------------
// Icons
// ---------------------------------------------------------------------------

/// The directories searched for the tray icons: `icons` in the data
/// directory, then `rustle/icons` in each `XDG_DATA_DIRS` entry, or in
/// `/usr/local/share` and `/usr/share` when that variable is unset.
pub open spec fn icon_candidates_of(data_dir: Option<Seq<char>>, xdg_data_dirs: Option<Seq<char>>) -> Seq<Seq<char>> {
    let first: Seq<Seq<char>> = match data_dir {
        Some(d) => seq![crate::paths::path_join(d, "icons"@)],
        None => Seq::empty(),
    };
    let shared: Seq<Seq<char>> = match xdg_data_dirs {
        Some(v) => crate::text::split(v, ':'),
        None => seq!["/usr/local/share"@, "/usr/share"@],
    };
    first + shared.map_values(|p: Seq<char>| crate::paths::path_join(p, "rustle/icons"@))
}

/// Lists the icon directories to look in, in order.
pub fn icon_theme_candidates(data_dir: Option<&str>, xdg_data_dirs: Option<&str>) -> (r: Vec<String>)
    ensures
        crate::types::strings_view(r@) == icon_candidates_of(
            match data_dir { Some(d) => Some(d@), None => None },
            match xdg_data_dirs { Some(v) => Some(v@), None => None },
        ),
{
    let mut r: Vec<String> = Vec::new();
    if let Some(d) = data_dir {
        r.push(crate::paths::join_path(d, "icons"));
    }
    let ghost first = crate::types::strings_view(r@);
    let shared: Vec<Vec<char>> = match xdg_data_dirs {
        Some(v) => crate::text::split_exec(&chars_of(v), ':'),
        None => {
            let mut d: Vec<Vec<char>> = Vec::new();
            d.push(chars_of("/usr/local/share"));
            d.push(chars_of("/usr/share"));
            d
        },
    };
    let ghost target = shared.deep_view().map_values(|p: Seq<char>| crate::paths::path_join(p, "rustle/icons"@));
    let mut i: usize = 0;
    while i < shared.len()
        invariant
            i <= shared@.len(),
            target == shared.deep_view().map_values(|p: Seq<char>| crate::paths::path_join(p, "rustle/icons"@)),
            crate::types::strings_view(r@) == first + target.take(i as int),
        decreases shared@.len() - i,
    {
        let ghost before = r@;
        r.push(crate::paths::join_path(string_of(&shared[i]).as_str(), "rustle/icons"));
        proof {
            assert(shared.deep_view()[i as int] == shared@[i as int]@);
            assert(target.take(i + 1) =~= target.take(i as int).push(target[i as int]));
            assert(crate::types::strings_view(r@) =~= crate::types::strings_view(before).push(target[i as int]));
        }
        i += 1;
    }
    proof {
        assert(target.take(shared@.len() as int) =~= target);
        if xdg_data_dirs is None {
            assert(shared.deep_view() =~= seq!["/usr/local/share"@, "/usr/share"@]);
        }
    }
    r
}

/// The first candidate that exists, when any does.
pub fn first_existing(candidates: &Vec<String>, exists: &Vec<bool>) -> (r: Option<String>)
    requires
        exists@.len() == candidates@.len(),
    ensures
        match r {
            Some(p) => exists|i: int| 0 <= i < candidates@.len() && exists@[i] && candidates@[i]@ == p@
                && forall|j: int| 0 <= j < i ==> !exists@[j],
            None => forall|j: int| 0 <= j < candidates@.len() ==> !exists@[j],
        },
{
    let mut i: usize = 0;
    while i < candidates.len()
        invariant
            i <= candidates@.len(),
            exists@.len() == candidates@.len(),
            forall|j: int| 0 <= j < i ==> !exists@[j],
        decreases candidates@.len() - i,
    {
        if exists[i] {
            return Some(candidates[i].clone());
        }
        i += 1;
    }
    None
}

} // verus!
