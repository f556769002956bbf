//! Application events exchanged between Rustle components.
//!
//! Meeting identifiers are the 128-bit values of the UUIDs that the
//! application generates; paths are carried as strings.

use vstd::prelude::*;

use crate::settings::Settings;
use crate::types::{
    DetectionSource, MeetingNotes, NotificationUrgency, StoredDocumentKind, TranscriptSegment,
};

verus! {

/// Number of events retained by the application broadcast channel.
pub const EVENT_BUS_CAPACITY: usize = 64;

/// Application-wide event exchanged over the internal broadcast bus.
#[derive(Debug, Clone)]
pub enum AppEvent {
    /// A meeting has started.
    MeetingStarted { id: u128, name: String, source: DetectionSource },
    /// A meeting has ended.
    MeetingEnded { id: u128 },
    /// Audio recording has started for a meeting.
    RecordingStarted { meeting_id: u128 },
    /// A recording chunk is ready for downstream processing.
    RecordingChunkReady { meeting_id: u128, path: String },
    /// Audio recording has stopped for a meeting.
    RecordingStopped { meeting_id: u128 },
    /// Transcription output is ready for a meeting.
    TranscriptionReady { meeting_id: u128, segments: Vec<TranscriptSegment> },
    /// AI-generated notes are ready for a meeting.
    SummarisationReady { meeting_id: u128, notes: MeetingNotes },
    /// The notes view should be opened.
    OpenNotesRequested,
    /// The latest transcript draft should be opened.
    OpenTranscriptRequested,
    /// The settings editor should be opened.
    OpenSettingsRequested,
    /// A specific file or directory should be opened.
    OpenPathRequested { path: String, prefer_editor: bool },
    /// A transcript draft has been created for a meeting.
    TranscriptDraftReady { meeting_id: u128, path: String },
    /// Meeting notes have been persisted.
    NoteSaved { meeting_id: u128, path: String },
    /// A persisted document should be deleted.
    DeleteDocumentRequested { path: String, kind: StoredDocumentKind },
    /// A persisted document has been deleted.
    DocumentDeleted { path: String, kind: StoredDocumentKind },
    /// An existing transcript should be summarised into notes.
    SummariseTranscriptRequested { path: String },
    /// Settings have changed and should be reloaded by subscribers.
    SettingsChanged(Settings),
    /// A desktop notification should be shown.
    NotificationRequested { title: String, body: String, urgency: NotificationUrgency },
    /// The application should shut down.
    QuitRequested,
}

/// `e` announces the start of meeting `id` named `name` from `source`.
pub open spec fn is_meeting_started(e: AppEvent, id: u128, name: Seq<char>, source: DetectionSource) -> bool {
    e matches AppEvent::MeetingStarted { id: i, name: n, source: s } && i == id && n@ == name && s
        == source
}

/// `e` announces the end of meeting `id`.
pub open spec fn is_meeting_ended(e: AppEvent, id: u128) -> bool {
    e matches AppEvent::MeetingEnded { id: i } && i == id
}

/// `e` asks for a notification with the given title, body and urgency.
pub open spec fn is_notification(e: AppEvent, title: Seq<char>, body: Seq<char>, urgency: NotificationUrgency) -> bool {
    e matches AppEvent::NotificationRequested { title: t, body: b, urgency: u } && t@ == title
        && b@ == body && u == urgency
}

} // verus!
