//! Verified core logic of the Rustle meeting-notes desktop application.

pub mod ai;
pub mod audio;
pub mod autostart;
pub mod benchmark;
pub mod detection;
pub mod diagnostics;
pub mod environment;
pub mod errors;
pub mod events;
pub mod names;
pub mod notifications;
pub mod numbers;
pub mod paths;
pub mod settings;
pub mod storage;
pub mod text;
pub mod transcription;
pub mod tray;
pub mod types;
pub mod ui;
pub mod views;

pub use environment::{is_hyprland_session, supported_session_label};
pub use errors::CoreError;
pub use events::{AppEvent, EVENT_BUS_CAPACITY};
pub use paths::{
    default_config_path, default_data_dir, expand_tilde, is_safe_child, resolve_notes_dir,
    resolve_transcripts_dir, safe_filename, PathEnv,
};
pub use settings::{
    AiProvider, AiSettings, AudioSettings, GeneralSettings, LoginMethod, MeetingSettings,
    RecordingDetectionMethod, Settings, StorageSettings, TranscriptionMethod,
    TranscriptionSettings,
};
pub use types::{
    DetectionSource, MeetingNotes, NotificationUrgency, StoredDocument, StoredDocumentKind,
    TranscriptSegment,
};
