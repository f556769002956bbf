//! Transcript drafts and the transcription workflow.
//!
//! The transcription loop keeps one transcript per active meeting. Its
//! decisions live here as a state machine: each bus event changes the state
//! and names the outside work (creating a draft file, running Whisper, reading
//! a fixture) that the application performs before it reports back.

use std::collections::HashMap;

use vstd::prelude::*;

use crate::errors::CoreError;
use crate::events::{is_meeting_started, AppEvent};
use crate::numbers::{decimal, decimal_string};
use crate::paths::{
    expand_tilde, expand_tilde_of, file_stem, file_stem_of, opt_view, path_extension,
    path_extension_of, safe_filename, safe_filename_of, PathEnv,
};
use crate::settings::{
    validated_model, Settings, SettingsModel, TranscriptionMethod, DEFAULT_TRANSCRIPTION_MODEL_PATH,
};
use crate::text::{
    chars_of, eq, is_blank, join, lemma_non_empty_push, join_exec, non_empty, split, split_exec, split_once,
    split_once_exec, str_is_blank, string_of, trim, trim_exec,
};
use crate::types::{
    segments_view, strings_view, DetectionSource, NotificationUrgency, SegmentView,
    StoredDocumentKind, TranscriptSegment,
};

verus! {

broadcast use vstd::seq_lib::group_seq_properties, crate::views::lemma_char_vec_deep_view,
    vstd::std_specs::hash::group_hash_axioms;

/// Sample rate that Whisper expects, in hertz.
pub const WHISPER_SAMPLE_RATE: u32 = 16000;

/// Hugging Face repository of the default Whisper model.
pub const DEFAULT_WHISPER_REPO: &'static str = "ggerganov/whisper.cpp";

/// File name of the default Whisper model in that repository.
pub const DEFAULT_WHISPER_MODEL_FILE: &'static str = "ggml-base.en.bin";

/// Environment variable naming an audio or transcript fixture for tests.
pub const TEST_AUDIO_FILE_ENV: &'static str = "RUSTLE_TEST_AUDIO_FILE";

/// Hyprland detections shorter than this many milliseconds are discarded.
pub const MIN_AUTODETECTED_MEETING_DURATION_MS: u64 = 300000;

// ---------------------------------------------------------------------------
// Segments and messages
// ---------------------------------------------------------------------------

/// Whisper timestamps are centiseconds; negative ones count as zero and the
/// product saturates.
pub open spec fn centis_to_millis(value: int) -> int {
    if value < 0 {
        0
    } else if value * 10 > u64::MAX {
        u64::MAX as int
    } else {
        value * 10
    }
}

/// Converts a Whisper centisecond timestamp to milliseconds.
pub fn centiseconds_to_millis(value: i64) -> (r: u64)
    ensures
        r == centis_to_millis(value as int),
{
    if value < 0 {
        0
    } else {
        let v: u64 = value as u64;
        match v.checked_mul(10) {
            Some(m) => m,
            None => u64::MAX,
        }
    }
}

/// The segments of a transcript text: none when it is blank, else one
/// segment at time zero with the trimmed text.
pub open spec fn transcript_segments_of(text: Seq<char>) -> Seq<SegmentView> {
    if trim(text).len() == 0 {
        Seq::empty()
    } else {
        seq![SegmentView { start_ms: 0, end_ms: 0, text: trim(text) }]
    }
}

/// A blank transcript has no segment; any other is kept whole as one
/// untimed segment: its text is the transcript without surrounding white
/// space, so every character of the transcript between its first and last
/// visible ones, line breaks included, is in it.
pub proof fn law_transcript_kept_whole(text: Seq<char>)
    ensures
        trim(text).len() == 0 <==> transcript_segments_of(text).len() == 0,
        trim(text).len() > 0 ==> {
            let segs = transcript_segments_of(text);
            &&& segs.len() == 1
            &&& segs[0].start_ms == 0 && segs[0].end_ms == 0
            &&& segs[0].text == trim(text)
            &&& segs[0].text.len() == trim(text).len()
            &&& forall|i: int| 0 <= i < trim(text).len() ==> segs[0].text[i] == #[trigger] trim(text)[i]
        },
{
}

/// Turns a whole transcript text into segments.
pub fn transcript_segments(transcript: String) -> (r: Vec<TranscriptSegment>)
    ensures
        segments_view(r@) == transcript_segments_of(transcript@),
{
    let cleaned = trim_exec(&chars_of(transcript.as_str()));
    let mut r: Vec<TranscriptSegment> = Vec::new();
    if cleaned.len() == 0 {
        assert(segments_view(r@) =~= Seq::<SegmentView>::empty());
        return r;
    }
    r.push(TranscriptSegment { start_ms: 0, end_ms: 0, text: string_of(&cleaned) });
    assert(segments_view(r@) =~= transcript_segments_of(transcript@));
    r
}

/// The segment for a Whisper segment: its trimmed text, when any is left,
/// with its timestamps in milliseconds.
pub open spec fn whisper_segment_of(text: Seq<char>, start_cs: int, end_cs: int) -> Option<SegmentView> {
    if trim(text).len() == 0 {
        None
    } else {
        Some(
            SegmentView {
                start_ms: centis_to_millis(start_cs) as u64,
                end_ms: centis_to_millis(end_cs) as u64,
                text: trim(text),
            },
        )
    }
}

/// Keeps a Whisper segment whose text is not blank, converting its times.
pub fn whisper_segment(text: &str, start_cs: i64, end_cs: i64) -> (r: Option<TranscriptSegment>)
    ensures
        match r {
            Some(s) => whisper_segment_of(text@, start_cs as int, end_cs as int) == Some(s@),
            None => whisper_segment_of(text@, start_cs as int, end_cs as int) is None,
        },
{
    let cleaned = trim_exec(&chars_of(text));
    if cleaned.len() == 0 {
        return None;
    }
    Some(
        TranscriptSegment {
            start_ms: centiseconds_to_millis(start_cs),
            end_ms: centiseconds_to_millis(end_cs),
            text: string_of(&cleaned),
        },
    )
}

/// Text of the segment that stands in for audio that could not be transcribed.
pub open spec fn fallback_text(path: Seq<char>, error: Seq<char>) -> Seq<char> {
    "Audio was recorded at "@ + path + ", but speech transcription was not available: "@ + error
}

/// A segment recording that audio exists at `path` but could not be transcribed.
pub fn recording_fallback_segment(path: &str, error: &str) -> (r: TranscriptSegment)
    ensures
        r@ == (SegmentView { start_ms: 0, end_ms: 0, text: fallback_text(path@, error@) }),
{
    let mut text = "Audio was recorded at ".to_owned();
    text.append(path);
    text.append(", but speech transcription was not available: ");
    text.append(error);
    TranscriptSegment { start_ms: 0, end_ms: 0, text }
}

/// Body of the notification about a failed transcription.
pub open spec fn failure_body(meeting_name: Seq<char>, error: Seq<char>) -> Seq<char> {
    "Rustle could not transcribe audio for "@ + meeting_name
        + ". The transcript draft remains available. "@ + error
}

/// The notification that transcription failed for a meeting.
pub fn transcription_failure_notification(meeting_name: &str, error: &str) -> (r: AppEvent)
    ensures
        r matches AppEvent::NotificationRequested { title, body, urgency }
            && title@ == "Transcription issue"@
            && body@ == failure_body(meeting_name@, error@)
            && urgency == NotificationUrgency::Critical,
{
    let mut body = "Rustle could not transcribe audio for ".to_owned();
    body.append(meeting_name);
    body.append(". The transcript draft remains available. ");
    body.append(error);
    AppEvent::NotificationRequested {
        title: "Transcription issue".to_owned(),
        body,
        urgency: NotificationUrgency::Critical,
    }
}

/// The segments that a transcription attempt contributes: its own, or the
/// fallback segment together with a failure notification.
pub fn segments_or_fallback(
    meeting_name: &str,
    audio_path: &str,
    result: Result<Vec<TranscriptSegment>, String>,
) -> (r: (Vec<TranscriptSegment>, Option<AppEvent>))
    ensures
        match result {
            Ok(segments) => segments_view(r.0@) == segments_view(segments@) && r.1 is None,
            Err(error) => {
                &&& segments_view(r.0@) == seq![
                    SegmentView { start_ms: 0, end_ms: 0, text: fallback_text(audio_path@, error@) },
                ]
                &&& r.1 matches Some(AppEvent::NotificationRequested { title, body, urgency })
                &&& title@ == "Transcription issue"@
                &&& body@ == failure_body(meeting_name@, error@)
                &&& urgency == NotificationUrgency::Critical
            },
        },
{
    match result {
        Ok(segments) => (segments, None),
        Err(error) => {
            let notification = transcription_failure_notification(meeting_name, error.as_str());
            let mut segments: Vec<TranscriptSegment> = Vec::new();
            segments.push(recording_fallback_segment(audio_path, error.as_str()));
            proof {
                assert(segments_view(segments@) =~= seq![
                    SegmentView { start_ms: 0, end_ms: 0, text: fallback_text(audio_path@, error@) },
                ]);
            }
            (segments, Some(notification))
        },
    }
}

/// What reading a transcript fixture yields: its segments, or the error
/// prefixed so that the user can tell where it came from.
pub fn fixture_segments(read: Result<String, String>) -> (r: Result<Vec<TranscriptSegment>, String>)
    ensures
        match read {
            Ok(text) => r matches Ok(s) && segments_view(s@) == transcript_segments_of(text@),
            Err(e) => r matches Err(m) && m@ == "failed to read transcript fixture: "@ + e@,
        },
{
    match read {
        Ok(text) => Ok(transcript_segments(text)),
        Err(e) => {
            let mut m = "failed to read transcript fixture: ".to_owned();
            m.append(e.as_str());
            Err(m)
        },
    }
}

/// One line of a transcript draft.
pub open spec fn segment_line(s: SegmentView) -> Seq<char> {
    "["@ + decimal(s.start_ms as nat) + "ms - "@ + decimal(s.end_ms as nat) + "ms] "@ + s.text + "\n"@
}

/// The lines that a list of segments appends to a transcript draft.
pub open spec fn rendered_segments(segments: Seq<SegmentView>) -> Seq<char>
    decreases segments.len(),
{
    if segments.len() == 0 {
        Seq::empty()
    } else {
        rendered_segments(segments.drop_last()) + segment_line(segments.last())
    }
}

/// Renders segments as transcript draft lines (`append_segments`).
pub fn render_segments(segments: &Vec<TranscriptSegment>) -> (r: String)
    ensures
        r@ == rendered_segments(segments_view(segments@)),
{
    let mut content = String::new();
    let mut i: usize = 0;
    while i < segments.len()
        invariant
            i <= segments.len(),
            content@ == rendered_segments(segments_view(segments@.take(i as int))),
        decreases segments.len() - i,
    {
        let s = &segments[i];
        content.append("[");
        content.append(decimal_string(s.start_ms).as_str());
        content.append("ms - ");
        content.append(decimal_string(s.end_ms).as_str());
        content.append("ms] ");
        content.append(s.text.as_str());
        content.append("\n");
        proof {
            let prev = segments_view(segments@.take(i as int));
            let next = segments_view(segments@.take(i + 1));
            assert(next.drop_last() =~= prev);
            assert(next.last() == segments@[i as int]@);
        }
        i += 1;
    }
    assert(segments@.take(segments.len() as int) =~= segments@);
    content
}

/// Name of the transcript draft created at `unix_seconds` for a meeting.
pub open spec fn draft_file_name_of(unix_seconds: nat, meeting_name: Seq<char>) -> Seq<char> {
    decimal(unix_seconds) + "_"@ + safe_filename_of(meeting_name) + ".txt"@
}

/// File name for a new transcript draft: the Unix time, `_`, the safe meeting
/// name and `.txt`.
pub fn draft_file_name(unix_seconds: u64, meeting_name: &str) -> (r: String)
    ensures
        r@ == draft_file_name_of(unix_seconds as nat, meeting_name@),
{
    let mut r = decimal_string(unix_seconds);
    r.append("_");
    r.append(safe_filename(meeting_name).as_str());
    r.append(".txt");
    r
}

/// The meeting name that a transcript file name encodes: the words after the
/// first `_` of its stem, joined with spaces, or `Meeting` when none is left.
pub open spec fn meeting_name_of_path(path: Seq<char>) -> Seq<char> {
    match file_stem_of(path) {
        None => "Meeting"@,
        Some(stem) => {
            let fragment = match split_once(stem, '_') {
                Some(parts) => parts.1,
                None => stem,
            };
            let title = join(non_empty(split(fragment, '_')), " "@);
            if title.len() == 0 {
                "Meeting"@
            } else {
                title
            }
        },
    }
}

/// Derives a meeting name from a transcript path.
pub fn meeting_name_from_path(path: &str) -> (r: String)
    ensures
        r@ == meeting_name_of_path(path@),
{
    let stem = match file_stem(path) {
        Some(s) => chars_of(s.as_str()),
        None => {
            return "Meeting".to_owned();
        },
    };
    let fragment = match split_once_exec(&stem, '_') {
        Some(parts) => parts.1,
        None => stem,
    };
    let parts = split_exec(&fragment, '_');
    let mut kept: Vec<Vec<char>> = Vec::new();
    let mut k: usize = 0;
    while k < parts.len()
        invariant
            k <= parts.len(),
            parts.deep_view() == split(fragment@, '_'),
            kept.deep_view() == non_empty(split(fragment@, '_').take(k as int)),
        decreases parts.len() - k,
    {
        let ghost all = split(fragment@, '_');
        assert(all.take(k + 1) =~= all.take(k as int).push(all[k as int]));
        assert(all[k as int] == parts@[k as int]@);
        proof {
            lemma_non_empty_push(all.take(k as int), all[k as int]);
        }
        if parts[k].len() > 0 {
            let ghost prev = kept.deep_view();
            kept.push(parts[k].clone());
            assert(kept.deep_view() =~= prev.push(all[k as int]));
        }
        k += 1;
    }
    assert(split(fragment@, '_').take(parts.len() as int) =~= split(fragment@, '_'));
    let space = chars_of(" ");
    let title = join_exec(&kept, &space);
    if title.len() == 0 {
        "Meeting".to_owned()
    } else {
        string_of(&title)
    }
}

// ---------------------------------------------------------------------------
// Models and fixtures
// ---------------------------------------------------------------------------

/// Whether the configured model path is the default one, which Rustle may
/// download by itself.
pub fn is_default_transcription_model_path(configured_path: &str) -> (r: bool)
    ensures
        r == (configured_path@ == DEFAULT_TRANSCRIPTION_MODEL_PATH@),
{
    eq(&chars_of(configured_path), &chars_of(DEFAULT_TRANSCRIPTION_MODEL_PATH))
}

/// Whether a fixture holds a transcript (`.txt` or `.md`) rather than audio.
pub fn fixture_is_transcript(path: &str) -> (r: bool)
    ensures
        r == (path_extension_of(path@) == Some("txt"@) || path_extension_of(path@) == Some(
            "md"@,
        )),
{
    match path_extension(path) {
        Some(e) => {
            let v = chars_of(e.as_str());
            eq(&v, &chars_of("txt")) || eq(&v, &chars_of("md"))
        },
        None => false,
    }
}

/// The fixture that a value of the test-audio variable names: none when it
/// is blank, else the trimmed value with `~` expanded.
pub fn test_audio_path_from_value(value: &str, env: &PathEnv) -> (r: Result<Option<String>, String>)
    ensures
        match expand_tilde_of(trim(value@), opt_view(env.home)) {
            _ if trim(value@).len() == 0 => r == Ok::<Option<String>, String>(None),
            Ok(p) => r matches Ok(Some(s)) && s@ == p,
            Err(_) => r matches Err(m) && m@ == "unable to resolve home or XDG directory for "@ + "home"@,
        },
{
    let trimmed_chars = trim_exec(&chars_of(value));
    if trimmed_chars.len() == 0 {
        return Ok(None);
    }
    let trimmed = string_of(&trimmed_chars);
    match expand_tilde(trimmed.as_str(), env) {
        Ok(p) => Ok(Some(p)),
        Err(e) => Err(e.message()),
    }
}

/// Where the configured Whisper model is: the trimmed setting with `~`
/// expanded.
pub fn whisper_model_path(settings: &Settings, env: &PathEnv) -> (r: Result<String, String>)
    ensures
        match expand_tilde_of(trim(settings.transcription.model_path@), opt_view(env.home)) {
            Ok(p) => r matches Ok(s) && s@ == p,
            Err(_) => r matches Err(m) && m@ == "unable to resolve home or XDG directory for "@ + "home"@,
        },
{
    let configured = string_of(&trim_exec(&chars_of(settings.transcription.model_path.as_str())));
    match expand_tilde(configured.as_str(), env) {
        Ok(p) => Ok(p),
        Err(e) => Err(e.message()),
    }
}

/// When no model file exists at the expanded path: the default model may be
/// downloaded there; any other configured model is an error.
pub fn missing_whisper_model(configured_path: &str, expanded_path: &str) -> (r: Result<(), String>)
    ensures
        trim(configured_path@) == DEFAULT_TRANSCRIPTION_MODEL_PATH@ ==> r is Ok,
        trim(configured_path@) != DEFAULT_TRANSCRIPTION_MODEL_PATH@ ==> (r matches Err(m) && m@
            == "Whisper model not found at "@ + expanded_path@
            + "; set transcription.model_path to a ggml model"@),
{
    let configured = string_of(&trim_exec(&chars_of(configured_path)));
    if is_default_transcription_model_path(configured.as_str()) {
        return Ok(());
    }
    let mut m = "Whisper model not found at ".to_owned();
    m.append(expanded_path);
    m.append("; set transcription.model_path to a ggml model");
    Err(m)
}

/// Whether local transcription can run with these settings: only local
/// Whisper is supported.
pub fn local_transcription_available(settings: &Settings) -> (r: Result<(), String>)
    ensures
        match settings.transcription.method {
            TranscriptionMethod::Local => r is Ok,
            TranscriptionMethod::Openai => r matches Err(m)
                && m@ == "OpenAI transcription is not supported in Rustle v0.1; use Local Whisper instead"@,
        },
{
    match settings.transcription.method {
        TranscriptionMethod::Local => Ok(()),
        TranscriptionMethod::Openai => Err(
            "OpenAI transcription is not supported in Rustle v0.1; use Local Whisper instead".to_owned(),
        ),
    }
}

// ---------------------------------------------------------------------------
// The transcription state machine
// ---------------------------------------------------------------------------

/// The transcript that is being built for one meeting.
#[derive(Debug)]
pub struct MeetingTranscript {
    /// Meeting identifier.
    pub id: u128,
    /// Meeting name.
    pub name: String,
    /// Path of the transcript draft.
    pub path: String,
    /// Segments transcribed so far.
    pub segments: Vec<TranscriptSegment>,
    /// Recording chunks received so far.
    pub chunk_paths: Vec<String>,
    /// What detected the meeting.
    pub source: DetectionSource,
    /// Monotonic clock reading, in milliseconds, when the draft was created.
    pub started_at_ms: u64,
    /// Monotonic clock reading when the meeting ended.
    pub ended_at_ms: Option<u64>,
    /// Fixture to transcribe when no audio chunk produced any segment.
    pub test_audio_path: Option<String>,
    /// Whether audio is being recorded.
    pub recording_active: bool,
    /// Whether the meeting has ended.
    pub meeting_ended: bool,
}

/// Model of a [`MeetingTranscript`].
pub struct MeetingModel {
    pub id: u128,
    pub name: Seq<char>,
    pub path: Seq<char>,
    pub segments: Seq<SegmentView>,
    pub chunk_paths: Seq<Seq<char>>,
    pub source: DetectionSource,
    pub started_at_ms: u64,
    pub ended_at_ms: Option<u64>,
    pub test_audio_path: Option<Seq<char>>,
    pub recording_active: bool,
    pub meeting_ended: bool,
}

impl View for MeetingTranscript {
    type V = MeetingModel;

    open spec fn view(&self) -> MeetingModel {
        MeetingModel {
            id: self.id,
            name: self.name@,
            path: self.path@,
            segments: segments_view(self.segments@),
            chunk_paths: strings_view(self.chunk_paths@),
            source: self.source,
            started_at_ms: self.started_at_ms,
            ended_at_ms: self.ended_at_ms,
            test_audio_path: opt_view(self.test_audio_path),
            recording_active: self.recording_active,
            meeting_ended: self.meeting_ended,
        }
    }
}

/// How long a meeting lasted: until it ended, or until `now` while it goes on.
pub open spec fn duration_ms(m: MeetingModel, now_ms: u64) -> int {
    let end = match m.ended_at_ms {
        Some(e) => e,
        None => now_ms,
    };
    if end >= m.started_at_ms {
        end - m.started_at_ms
    } else {
        0
    }
}

/// A Hyprland detection that lasted less than five minutes was no meeting.
pub open spec fn short_false_positive(source: DetectionSource, duration: int) -> bool {
    source == DetectionSource::Hyprland && duration < MIN_AUTODETECTED_MEETING_DURATION_MS
}

/// How long a meeting lasted, in milliseconds.
pub fn meeting_duration(meeting: &MeetingTranscript, now_ms: u64) -> (r: u64)
    ensures
        r == duration_ms(meeting@, now_ms),
{
    let end = match meeting.ended_at_ms {
        Some(e) => e,
        None => now_ms,
    };
    if end >= meeting.started_at_ms {
        end - meeting.started_at_ms
    } else {
        0
    }
}

/// Whether a meeting is a Hyprland detection too short to be a meeting.
pub fn is_short_hyprland_false_positive(meeting: &MeetingTranscript, now_ms: u64) -> (r: bool)
    ensures
        r == short_false_positive(meeting.source, duration_ms(meeting@, now_ms)),
{
    meeting.source == DetectionSource::Hyprland && meeting_duration(meeting, now_ms) < MIN_AUTODETECTED_MEETING_DURATION_MS
}

/// What finalising a meeting's transcript asks of the application.
#[derive(Debug)]
pub enum FinalisePlan {
    /// No transcript is kept for the meeting.
    Missing,
    /// A false positive: delete the draft and the chunks, then report with
    /// [`discarded_transcript_event`].
    Discard { meeting_id: u128, path: String, chunk_paths: Vec<String> },
    /// Collect the transcript: when `test_audio_path` is set, transcribe that
    /// fixture and append its segments to the draft; then read the draft and
    /// call [`finish_finalise`].
    Collect {
        meeting_id: u128,
        name: String,
        path: String,
        segments: Vec<TranscriptSegment>,
        test_audio_path: Option<String>,
    },
}

/// Model of a [`FinalisePlan`].
pub enum PlanView {
    Missing,
    Discard { meeting_id: u128, path: Seq<char>, chunk_paths: Seq<Seq<char>> },
    Collect {
        meeting_id: u128,
        name: Seq<char>,
        path: Seq<char>,
        segments: Seq<SegmentView>,
        test_audio_path: Option<Seq<char>>,
    },
}

impl View for FinalisePlan {
    type V = PlanView;

    open spec fn view(&self) -> PlanView {
        match self {
            FinalisePlan::Missing => PlanView::Missing,
            FinalisePlan::Discard { meeting_id, path, chunk_paths } => PlanView::Discard {
                meeting_id: *meeting_id,
                path: path@,
                chunk_paths: strings_view(chunk_paths@),
            },
            FinalisePlan::Collect { meeting_id, name, path, segments, test_audio_path } =>
                PlanView::Collect {
                meeting_id: *meeting_id,
                name: name@,
                path: path@,
                segments: segments_view(segments@),
                test_audio_path: opt_view(*test_audio_path),
            },
        }
    }
}

/// The plan for a meeting that is being finalised: short Hyprland detections
/// are discarded; otherwise the transcript is collected, and the test fixture
/// is only consulted when no segment was transcribed.
pub open spec fn plan_of(m: MeetingModel, now_ms: u64) -> PlanView {
    if short_false_positive(m.source, duration_ms(m, now_ms)) {
        PlanView::Discard { meeting_id: m.id, path: m.path, chunk_paths: m.chunk_paths }
    } else {
        PlanView::Collect {
            meeting_id: m.id,
            name: m.name,
            path: m.path,
            segments: m.segments,
            test_audio_path: if m.segments.len() == 0 {
                m.test_audio_path
            } else {
                None
            },
        }
    }
}

/// What the application does after the transcription state has seen an event.
#[derive(Debug)]
pub enum TranscriptionAction {
    /// Nothing.
    Nothing,
    /// Create an empty draft named by [`draft_file_name`] in the transcripts
    /// directory, then call [`TranscriptionState::register_draft`].
    CreateDraft { meeting_id: u128, name: String, source: DetectionSource },
    /// Transcribe a chunk, then call [`TranscriptionState::chunk_transcribed`].
    TranscribeChunk {
        meeting_id: u128,
        meeting_name: String,
        transcript_path: String,
        chunk_path: String,
    },
    /// Carry out a finalisation plan.
    Finalise(FinalisePlan),
    /// Read a saved transcript and publish [`saved_transcript_events`].
    SummariseSaved { path: String },
    /// Leave the loop.
    Stop,
}

/// Model of a [`TranscriptionAction`].
pub enum ActionView {
    Nothing,
    CreateDraft { meeting_id: u128, name: Seq<char>, source: DetectionSource },
    TranscribeChunk {
        meeting_id: u128,
        meeting_name: Seq<char>,
        transcript_path: Seq<char>,
        chunk_path: Seq<char>,
    },
    Finalise(PlanView),
    SummariseSaved { path: Seq<char> },
    Stop,
}

impl View for TranscriptionAction {
    type V = ActionView;

    open spec fn view(&self) -> ActionView {
        match self {
            TranscriptionAction::Nothing => ActionView::Nothing,
            TranscriptionAction::CreateDraft { meeting_id, name, source } => ActionView::CreateDraft {
                meeting_id: *meeting_id,
                name: name@,
                source: *source,
            },
            TranscriptionAction::TranscribeChunk {
                meeting_id,
                meeting_name,
                transcript_path,
                chunk_path,
            } => ActionView::TranscribeChunk {
                meeting_id: *meeting_id,
                meeting_name: meeting_name@,
                transcript_path: transcript_path@,
                chunk_path: chunk_path@,
            },
            TranscriptionAction::Finalise(plan) => ActionView::Finalise(plan@),
            TranscriptionAction::SummariseSaved { path } => ActionView::SummariseSaved { path: path@ },
            TranscriptionAction::Stop => ActionView::Stop,
        }
    }
}

/// Each transcript is filed under its own meeting.
pub open spec fn keyed_by_id(map: Map<u128, MeetingModel>) -> bool {
    forall|id: u128| #[trigger] map.contains_key(id) ==> map[id].id == id
}

/// The meeting with its recording flag set.
pub open spec fn with_recording(m: MeetingModel, active: bool) -> MeetingModel {
    MeetingModel { recording_active: active, ..m }
}

/// The meeting marked ended at `now_ms`.
pub open spec fn with_end(m: MeetingModel, now_ms: u64) -> MeetingModel {
    MeetingModel { meeting_ended: true, ended_at_ms: Some(now_ms), ..m }
}

/// The meeting with another chunk received.
pub open spec fn with_chunk(m: MeetingModel, chunk: Seq<char>) -> MeetingModel {
    MeetingModel { chunk_paths: m.chunk_paths.push(chunk), ..m }
}

/// The meeting with more segments transcribed.
pub open spec fn with_segments(m: MeetingModel, segments: Seq<SegmentView>) -> MeetingModel {
    MeetingModel { segments: m.segments + segments, ..m }
}

/// How the transcripts change and what is asked of the application when an
/// event arrives at monotonic time `now_ms`.
pub open spec fn transcription_step(
    map: Map<u128, MeetingModel>,
    event: AppEvent,
    now_ms: u64,
) -> (Map<u128, MeetingModel>, ActionView) {
    match event {
        AppEvent::MeetingStarted { id, name, source } => (
            map,
            ActionView::CreateDraft { meeting_id: id, name: name@, source },
        ),
        AppEvent::RecordingStarted { meeting_id } => if map.contains_key(meeting_id) {
            (map.insert(meeting_id, with_recording(map[meeting_id], true)), ActionView::Nothing)
        } else {
            (map, ActionView::Nothing)
        },
        AppEvent::RecordingChunkReady { meeting_id, path } => if map.contains_key(meeting_id) {
            (
                map.insert(meeting_id, with_chunk(map[meeting_id], path@)),
                ActionView::TranscribeChunk {
                    meeting_id,
                    meeting_name: map[meeting_id].name,
                    transcript_path: map[meeting_id].path,
                    chunk_path: path@,
                },
            )
        } else {
            (map, ActionView::Nothing)
        },
        AppEvent::MeetingEnded { id } => if !map.contains_key(id) {
            (map, ActionView::Nothing)
        } else if map[id].recording_active {
            (map.insert(id, with_end(map[id], now_ms)), ActionView::Nothing)
        } else {
            (map.remove(id), ActionView::Finalise(plan_of(with_end(map[id], now_ms), now_ms)))
        },
        AppEvent::RecordingStopped { meeting_id } => if !map.contains_key(meeting_id) {
            (map, ActionView::Nothing)
        } else if map[meeting_id].meeting_ended {
            (
                map.remove(meeting_id),
                ActionView::Finalise(plan_of(with_recording(map[meeting_id], false), now_ms)),
            )
        } else {
            (map.insert(meeting_id, with_recording(map[meeting_id], false)), ActionView::Nothing)
        },
        AppEvent::SummariseTranscriptRequested { path } => (
            map,
            ActionView::SummariseSaved { path: path@ },
        ),
        AppEvent::QuitRequested => (map, ActionView::Stop),
        _ => (map, ActionView::Nothing),
    }
}

/// The state of the transcription loop.
#[derive(Debug)]
pub struct TranscriptionState {
    /// The transcripts of the active meetings, by meeting.
    pub meetings: HashMap<u128, MeetingTranscript>,
    /// The current, validated settings.
    pub settings: Settings,
}

impl TranscriptionState {
    /// Each transcript is filed under its own meeting.
    pub open spec fn wf(&self) -> bool {
        keyed_by_id(self.transcripts())
    }

    /// The transcripts by meeting.
    pub open spec fn transcripts(&self) -> Map<u128, MeetingModel> {
        self.meetings@.map_values(|m: MeetingTranscript| m@)
    }

    /// Starts with no transcript and the given settings, validated.
    pub fn new(settings: &Settings) -> (r: Self)
        ensures
            r.wf(),
            r.transcripts() == Map::<u128, MeetingModel>::empty(),
            r.settings@ == validated_model(settings@),
    {
        let r = TranscriptionState { meetings: HashMap::new(), settings: settings.validated() };
        assert(r.transcripts() =~= Map::<u128, MeetingModel>::empty());
        r
    }

    /// Takes meeting `id`'s transcript out of the state, if there is one.
    fn take(&mut self, id: u128) -> (r: Option<MeetingTranscript>)
        requires
            old(self).wf(),
        ensures
            final(self).wf(),
            final(self).settings == old(self).settings,
            match r {
                Some(m) => {
                    &&& old(self).transcripts().contains_key(id)
                    &&& m.id == id
                    &&& old(self).transcripts()[id] == m@
                    &&& final(self).transcripts() == old(self).transcripts().remove(id)
                },
                None => !old(self).transcripts().contains_key(id) && final(self).transcripts()
                    == old(self).transcripts(),
            },
    {
        let r = self.meetings.remove(&id);
        proof {
            assert(self.transcripts() =~= old(self).transcripts().remove(id));
            if r is None {
                assert(old(self).transcripts().remove(id) =~= old(self).transcripts());
            }
        }
        r
    }

    /// Stores `m` as meeting `m.id`'s transcript, replacing any earlier one.
    fn store(&mut self, m: MeetingTranscript)
        requires
            old(self).wf(),
        ensures
            final(self).wf(),
            final(self).transcripts() == old(self).transcripts().insert(m.id, m@),
            final(self).settings == old(self).settings,
    {
        let ghost v = m@;
        let id = m.id;
        self.meetings.insert(id, m);
        assert(self.transcripts() =~= old(self).transcripts().insert(id, v));
    }

    /// Finalises meeting `id`: its transcript leaves the state and the plan
    /// says what becomes of it.
    pub fn finalise(&mut self, id: u128, now_ms: u64) -> (plan: FinalisePlan)
        requires
            old(self).wf(),
        ensures
            final(self).wf(),
            final(self).settings == old(self).settings,
            final(self).transcripts() == old(self).transcripts().remove(id),
            old(self).transcripts().contains_key(id) ==> plan@ == plan_of(old(self).transcripts()[id], now_ms),
            !old(self).transcripts().contains_key(id) ==> plan@ == PlanView::Missing,
    {
        match self.take(id) {
            None => {
                assert(old(self).transcripts() =~= old(self).transcripts().remove(id));
                FinalisePlan::Missing
            },
            Some(m) => plan_for(m, now_ms),
        }
    }

    /// Records the draft created for a meeting, replacing any earlier
    /// transcript of it, and announces the draft.
    pub fn register_draft(
        &mut self,
        meeting_id: u128,
        name: String,
        source: DetectionSource,
        path: String,
        test_audio_path: Option<String>,
        now_ms: u64,
    ) -> (event: AppEvent)
        requires
            old(self).wf(),
        ensures
            final(self).wf(),
            final(self).settings == old(self).settings,
            final(self).transcripts() == old(self).transcripts().insert(
                meeting_id,
                MeetingModel {
                    id: meeting_id,
                    name: name@,
                    path: path@,
                    segments: Seq::empty(),
                    chunk_paths: Seq::empty(),
                    source,
                    started_at_ms: now_ms,
                    ended_at_ms: None,
                    test_audio_path: opt_view(test_audio_path),
                    recording_active: false,
                    meeting_ended: false,
                },
            ),
            event matches AppEvent::TranscriptDraftReady { meeting_id: i, path: p } && i == meeting_id
                && p@ == path@,
    {
        let event = AppEvent::TranscriptDraftReady { meeting_id, path: path.clone() };
        let m = MeetingTranscript {
            id: meeting_id,
            name,
            path,
            segments: Vec::new(),
            chunk_paths: Vec::new(),
            source,
            started_at_ms: now_ms,
            ended_at_ms: None,
            test_audio_path,
            recording_active: false,
            meeting_ended: false,
        };
        proof {
            assert(segments_view(m.segments@) =~= Seq::<SegmentView>::empty());
            assert(strings_view(m.chunk_paths@) =~= Seq::<Seq<char>>::empty());
        }
        self.store(m);
        event
    }

    /// Takes in what transcribing a chunk of meeting `meeting_id` gave: its
    /// segments, or the fallback segment and a failure notification.
    pub fn chunk_transcribed(
        &mut self,
        meeting_id: u128,
        meeting_name: &str,
        chunk_path: &str,
        result: Result<Vec<TranscriptSegment>, String>,
    ) -> (step: ChunkStep)
        requires
            old(self).wf(),
        ensures
            final(self).wf(),
            final(self).settings == old(self).settings,
            ({
                let added = attempt_segments(chunk_path@, result);
                let old_map = old(self).transcripts();
                if old_map.contains_key(meeting_id) {
                    &&& final(self).transcripts() == old_map.insert(
                        meeting_id,
                        with_segments(old_map[meeting_id], added),
                    )
                    &&& if added.len() == 0 {
                        step.append is None
                    } else {
                        step.append matches Some(a) && a.0@ == old_map[meeting_id].path && a.1@
                            == rendered_segments(added)
                    }
                } else {
                    final(self).transcripts() == old_map && step.append is None
                }
            }),
            match result {
                Ok(_) => step.notification is None,
                Err(error) => step.notification matches Some(AppEvent::NotificationRequested { title, body, urgency })
                    && title@ == "Transcription issue"@
                    && body@ == failure_body(meeting_name@, error@)
                    && urgency == NotificationUrgency::Critical,
            },
    {
        let (mut segments, notification) = segments_or_fallback(meeting_name, chunk_path, result);
        let ghost added = segments_view(segments@);
        match self.take(meeting_id) {
            None => ChunkStep { notification, append: None },
            Some(mut m) => {
                let content = render_segments(&segments);
                let append = if segments.len() == 0 {
                    None
                } else {
                    Some((m.path.clone(), content))
                };
                let ghost before = m.segments@;
                m.segments.append(&mut segments);
                proof {
                    assert(segments_view(m.segments@) =~= segments_view(before) + added);
                }
                self.store(m);
                proof {
                    assert(self.transcripts() =~= old(self).transcripts().insert(
                        meeting_id,
                        with_segments(old(self).transcripts()[meeting_id], added),
                    ));
                }
                ChunkStep { notification, append }
            },
        }
    }

    /// Reacts to an event from the bus at monotonic time `now_ms`.
    pub fn handle_event(&mut self, event: &AppEvent, now_ms: u64) -> (action: TranscriptionAction)
        requires
            old(self).wf(),
        ensures
            final(self).wf(),
            (final(self).transcripts(), action@) == transcription_step(old(self).transcripts(), *event, now_ms),
            match *event {
                AppEvent::SettingsChanged(s) => final(self).settings@ == validated_model(s@),
                _ => final(self).settings == old(self).settings,
            },
    {
        match event {
            AppEvent::MeetingStarted { id, name, source } => TranscriptionAction::CreateDraft {
                meeting_id: *id,
                name: name.clone(),
                source: *source,
            },
            AppEvent::RecordingStarted { meeting_id } => {
                if let Some(mut m) = self.take(*meeting_id) {
                    m.recording_active = true;
                    self.store(m);
                    assert(self.transcripts() =~= old(self).transcripts().insert(*meeting_id, with_recording(old(self).transcripts()[*meeting_id], true)));
                }
                TranscriptionAction::Nothing
            },
            AppEvent::RecordingChunkReady { meeting_id, path } => {
                match self.take(*meeting_id) {
                    None => TranscriptionAction::Nothing,
                    Some(mut m) => {
                        let ghost before = m.chunk_paths@;
                        m.chunk_paths.push(path.clone());
                        proof {
                            assert(strings_view(m.chunk_paths@) =~= strings_view(before).push(path@));
                        }
                        let action = TranscriptionAction::TranscribeChunk {
                            meeting_id: *meeting_id,
                            meeting_name: m.name.clone(),
                            transcript_path: m.path.clone(),
                            chunk_path: path.clone(),
                        };
                        self.store(m);
                        assert(self.transcripts() =~= old(self).transcripts().insert(*meeting_id, with_chunk(old(self).transcripts()[*meeting_id], path@)));
                        action
                    },
                }
            },
            AppEvent::MeetingEnded { id } => {
                match self.take(*id) {
                    None => TranscriptionAction::Nothing,
                    Some(mut m) => {
                        m.meeting_ended = true;
                        m.ended_at_ms = Some(now_ms);
                        let recording = m.recording_active;
                        self.store(m);
                        assert(self.transcripts() =~= old(self).transcripts().insert(*id, with_end(old(self).transcripts()[*id], now_ms)));
                        if recording {
                            TranscriptionAction::Nothing
                        } else {
                            let plan = self.finalise(*id, now_ms);
                            assert(self.transcripts() =~= old(self).transcripts().remove(*id));
                            TranscriptionAction::Finalise(plan)
                        }
                    },
                }
            },
            AppEvent::RecordingStopped { meeting_id } => {
                match self.take(*meeting_id) {
                    None => TranscriptionAction::Nothing,
                    Some(mut m) => {
                        m.recording_active = false;
                        let ended = m.meeting_ended;
                        self.store(m);
                        assert(self.transcripts() =~= old(self).transcripts().insert(*meeting_id, with_recording(old(self).transcripts()[*meeting_id], false)));
                        if ended {
                            let plan = self.finalise(*meeting_id, now_ms);
                            assert(self.transcripts() =~= old(self).transcripts().remove(*meeting_id));
                            TranscriptionAction::Finalise(plan)
                        } else {
                            TranscriptionAction::Nothing
                        }
                    },
                }
            },
            AppEvent::SummariseTranscriptRequested { path } => TranscriptionAction::SummariseSaved {
                path: path.clone(),
            },
            AppEvent::SettingsChanged(updated) => {
                self.settings = updated.validated();
                TranscriptionAction::Nothing
            },
            AppEvent::QuitRequested => TranscriptionAction::Stop,
            _ => TranscriptionAction::Nothing,
        }
    }
}


/// The segments that a transcription attempt adds for the audio at `path`.
pub open spec fn attempt_segments(path: Seq<char>, result: Result<Vec<TranscriptSegment>, String>) -> Seq<SegmentView> {
    match result {
        Ok(segments) => segments_view(segments@),
        Err(error) => seq![SegmentView { start_ms: 0, end_ms: 0, text: fallback_text(path, error@) }],
    }
}

/// What the application does with a transcribed chunk.
#[derive(Debug)]
pub struct ChunkStep {
    /// A notification to publish.
    pub notification: Option<AppEvent>,
    /// The draft path and the lines to append to it.
    pub append: Option<(String, String)>,
}

/// The plan for a transcript taken out of the state.
fn plan_for(m: MeetingTranscript, now_ms: u64) -> (plan: FinalisePlan)
    ensures
        plan@ == plan_of(m@, now_ms),
{
    if is_short_hyprland_false_positive(&m, now_ms) {
        return FinalisePlan::Discard { meeting_id: m.id, path: m.path, chunk_paths: m.chunk_paths };
    }
    let test_audio_path = if m.segments.len() == 0 {
        m.test_audio_path
    } else {
        None
    };
    FinalisePlan::Collect {
        meeting_id: m.id,
        name: m.name,
        path: m.path,
        segments: m.segments,
        test_audio_path,
    }
}

/// The segments a finalised transcript ends with: those collected, or, when
/// there are none, those of the draft text that could be read.
pub open spec fn final_segments(collected: Seq<SegmentView>, draft: Option<Seq<char>>) -> Seq<SegmentView> {
    match draft {
        Some(text) if collected.len() == 0 => transcript_segments_of(text),
        _ => collected,
    }
}

/// Completes a `Collect` plan: the transcript is ready unless it is empty,
/// in which case nothing is summarised.
pub fn finish_finalise(
    meeting_id: u128,
    segments: Vec<TranscriptSegment>,
    draft: Option<String>,
) -> (r: Option<AppEvent>)
    ensures
        ({
            let fin = final_segments(segments_view(segments@), opt_view(draft));
            if fin.len() == 0 {
                r is None
            } else {
                r matches Some(AppEvent::TranscriptionReady { meeting_id: i, segments: s }) && i == meeting_id
                    && segments_view(s@) == fin
            }
        }),
{
    let mut segments = segments;
    if segments.len() == 0 {
        if let Some(text) = draft {
            segments = transcript_segments(text);
        }
    }
    if segments.len() == 0 {
        None
    } else {
        Some(AppEvent::TranscriptionReady { meeting_id, segments })
    }
}

/// How removing a file went.
#[derive(Debug, Clone, Copy, PartialEq, Eq, Structural)]
pub enum RemovalOutcome {
    /// The file was removed.
    Removed,
    /// There was no such file.
    NotFound,
    /// The file could not be removed.
    Failed,
}

/// The event that reports a discarded draft: its deletion, unless the file
/// could not be removed.
pub fn discarded_transcript_event(path: String, outcome: RemovalOutcome) -> (r: Option<AppEvent>)
    ensures
        outcome == RemovalOutcome::Failed ==> r is None,
        outcome != RemovalOutcome::Failed ==> (r matches Some(AppEvent::DocumentDeleted { path: p, kind })
            && p@ == path@ && kind == StoredDocumentKind::Transcript),
{
    match outcome {
        RemovalOutcome::Failed => None,
        _ => Some(AppEvent::DocumentDeleted { path, kind: StoredDocumentKind::Transcript }),
    }
}

/// The events that summarise a saved transcript: a manual meeting named after
/// the file and its transcript, or nothing when the text is blank.
pub fn saved_transcript_events(path: &str, content: String, fresh_id: u128) -> (r: Vec<AppEvent>)
    ensures
        transcript_segments_of(content@).len() == 0 ==> r@.len() == 0,
        transcript_segments_of(content@).len() > 0 ==> {
            &&& r@.len() == 2
            &&& is_meeting_started(r@[0], fresh_id, meeting_name_of_path(path@), DetectionSource::Manual)
            &&& r@[1] matches AppEvent::TranscriptionReady { meeting_id, segments } && meeting_id
                == fresh_id && segments_view(segments@) == transcript_segments_of(content@)
        },
{
    let segments = transcript_segments(content);
    let mut r: Vec<AppEvent> = Vec::new();
    if segments.len() == 0 {
        return r;
    }
    r.push(
        AppEvent::MeetingStarted {
            id: fresh_id,
            name: meeting_name_from_path(path),
            source: DetectionSource::Manual,
        },
    );
    r.push(AppEvent::TranscriptionReady { meeting_id: fresh_id, segments });
    r
}


// ---------------------------------------------------------------------------
// Laws
// ---------------------------------------------------------------------------

/// A meeting that ends while its audio is still recorded waits for the final
/// chunk: nothing is finalised until the recording stops, and then the
/// transcript is finalised with everything it collected.
pub proof fn law_meeting_waits_for_final_chunk(
    map: Map<u128, MeetingModel>,
    id: u128,
    ended_at: u64,
    stopped_at: u64,
)
    requires
        map.contains_key(id),
        map[id].recording_active,
    ensures
        ({
            let (after_end, a1) = transcription_step(map, AppEvent::MeetingEnded { id }, ended_at);
            let (after_stop, a2) = transcription_step(after_end, AppEvent::RecordingStopped { meeting_id: id }, stopped_at);
            &&& a1 == ActionView::Nothing
            &&& after_end.contains_key(id) && after_end[id].meeting_ended
            &&& a2 == ActionView::Finalise(plan_of(with_recording(with_end(map[id], ended_at), false), stopped_at))
            &&& !after_stop.contains_key(id)
        }),
{
}

/// A transcript is finalised at most once: once a plan has been produced for
/// a meeting, its transcript is gone, and a later end or stop for that
/// meeting asks for nothing. Every state's transcripts are keyed by meeting
/// (`TranscriptionState::wf`).
pub proof fn law_finalised_once(map: Map<u128, MeetingModel>, event: AppEvent, now_ms: u64, later: u64)
    requires
        keyed_by_id(map),
        transcription_step(map, event, now_ms).1 matches ActionView::Finalise(plan) && plan !is Missing,
    ensures
        ({
            let (next, action) = transcription_step(map, event, now_ms);
            let id = match action {
                ActionView::Finalise(PlanView::Discard { meeting_id, .. }) => meeting_id,
                ActionView::Finalise(PlanView::Collect { meeting_id, .. }) => meeting_id,
                _ => 0,
            };
            &&& !next.contains_key(id)
            &&& transcription_step(next, AppEvent::MeetingEnded { id }, later).1 == ActionView::Nothing
            &&& transcription_step(next, AppEvent::RecordingStopped { meeting_id: id }, later).1
                == ActionView::Nothing
        }),
{
    match event {
        AppEvent::MeetingEnded { id } => {
            assert(map[id].id == id);
        },
        AppEvent::RecordingStopped { meeting_id } => {
            assert(map[meeting_id].id == meeting_id);
        },
        _ => {},
    }
}

/// A Hyprland detection shorter than the minimum meeting length is discarded
/// with its draft and chunks and never handed on for summarisation.
pub proof fn law_short_hyprland_detection_is_discarded(m: MeetingModel, now_ms: u64)
    requires
        m.source == DetectionSource::Hyprland,
        duration_ms(m, now_ms) < MIN_AUTODETECTED_MEETING_DURATION_MS,
    ensures
        plan_of(m, now_ms) == (PlanView::Discard { meeting_id: m.id, path: m.path, chunk_paths: m.chunk_paths }),
{
}

/// Meetings detected by anything but Hyprland, and Hyprland meetings that
/// lasted long enough, are collected for summarisation.
pub proof fn law_real_meetings_are_collected(m: MeetingModel, now_ms: u64)
    requires
        m.source != DetectionSource::Hyprland || duration_ms(m, now_ms) >= MIN_AUTODETECTED_MEETING_DURATION_MS,
    ensures
        plan_of(m, now_ms) is Collect,
{
}

/// Every event for a meeting without a transcript leaves the transcripts
/// unchanged.
pub proof fn law_unknown_meetings_change_nothing(map: Map<u128, MeetingModel>, event: AppEvent, now_ms: u64)
    requires
        match event {
            AppEvent::RecordingStarted { meeting_id } => !map.contains_key(meeting_id),
            AppEvent::RecordingChunkReady { meeting_id, .. } => !map.contains_key(meeting_id),
            AppEvent::RecordingStopped { meeting_id } => !map.contains_key(meeting_id),
            AppEvent::MeetingEnded { id } => !map.contains_key(id),
            _ => false,
        },
    ensures
        transcription_step(map, event, now_ms) == (map, ActionView::Nothing),
{
}

} // verus!
