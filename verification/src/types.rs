//! Domain types shared across the library.

use vstd::prelude::*;

verus! {

/// Source that detected a meeting state change.
#[derive(Debug, Clone, Copy, PartialEq, Eq, Structural)]
pub enum DetectionSource {
    /// A Hyprland window or IPC event indicated a meeting.
    Hyprland,
    /// PipeWire or PulseAudio stream state indicated a meeting.
    PipeWire,
    /// Process polling indicated a meeting.
    Process,
    /// The user manually created or controlled the meeting state.
    Manual,
}

/// A timestamped segment of meeting transcript text.
#[derive(Debug, Clone, PartialEq, Eq)]
pub struct TranscriptSegment {
    /// Segment start time in milliseconds from the beginning of the recording.
    pub start_ms: u64,
    /// Segment end time in milliseconds from the beginning of the recording.
    pub end_ms: u64,
    /// Transcribed text for this segment.
    pub text: String,
}

/// Model of a [`TranscriptSegment`].
pub struct SegmentView {
    pub start_ms: u64,
    pub end_ms: u64,
    pub text: Seq<char>,
}

impl View for TranscriptSegment {
    type V = SegmentView;

    open spec fn view(&self) -> SegmentView {
        SegmentView { start_ms: self.start_ms, end_ms: self.end_ms, text: self.text@ }
    }
}

/// The models of a sequence of segments.
pub open spec fn segments_view(s: Seq<TranscriptSegment>) -> Seq<SegmentView> {
    s.map_values(|x: TranscriptSegment| x@)
}

/// The models of a sequence of strings.
pub open spec fn strings_view(s: Seq<String>) -> Seq<Seq<char>> {
    s.map_values(|x: String| x@)
}

/// Structured notes produced for a meeting.
#[derive(Debug, Clone, PartialEq, Eq)]
pub struct MeetingNotes {
    /// Short meeting summary.
    pub summary: String,
    /// Decisions made during the meeting.
    pub key_decisions: Vec<String>,
    /// Action items identified during the meeting.
    pub action_items: Vec<String>,
    /// Attendees detected or provided for the meeting.
    pub attendees: Vec<String>,
    /// Markdown rendering of the complete note.
    pub markdown: String,
}

/// Kind of a persisted document.
#[derive(Debug, Clone, Copy, PartialEq, Eq, Structural)]
pub enum StoredDocumentKind {
    /// A Markdown meeting note.
    Note,
    /// A plain-text transcript draft.
    Transcript,
}

/// A persisted note or transcript found on disk.
#[derive(Debug, Clone, PartialEq, Eq)]
pub struct StoredDocument {
    /// Document kind.
    pub kind: StoredDocumentKind,
    /// Filesystem path of the document.
    pub path: String,
    /// Human-readable title derived from the file name.
    pub title: String,
    /// Unix timestamp taken from the file name (0 when absent).
    pub timestamp_seconds: u64,
}

/// Urgency of a desktop notification.
#[derive(Debug, Clone, Copy, PartialEq, Eq, Structural)]
pub enum NotificationUrgency {
    /// Informational.
    Low,
    /// Regular.
    Normal,
    /// Needs attention.
    Critical,
}

} // verus!
