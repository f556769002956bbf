use rustle::transcription::meeting_duration;
use rustle::transcription::{
    centiseconds_to_millis, discarded_transcript_event, draft_file_name, finish_finalise,
    fixture_is_transcript, fixture_segments, is_default_transcription_model_path,
    is_short_hyprland_false_positive, local_transcription_available, meeting_name_from_path,
    missing_whisper_model, recording_fallback_segment, render_segments, saved_transcript_events,
    segments_or_fallback, test_audio_path_from_value, transcript_segments,
    transcription_failure_notification, whisper_model_path, whisper_segment, FinalisePlan,
    MeetingTranscript, RemovalOutcome, TranscriptionAction, TranscriptionState,
    MIN_AUTODETECTED_MEETING_DURATION_MS,
};
use rustle::{
    AppEvent, DetectionSource, NotificationUrgency, PathEnv, Settings, StoredDocumentKind,
    TranscriptSegment, TranscriptionMethod, TranscriptionSettings,
};

fn home_env() -> PathEnv {
    PathEnv {
        xdg_data_home: None,
        xdg_config_home: None,
        home: Some("/home/alice".to_owned()),
    }
}

fn segment(start_ms: u64, end_ms: u64, text: &str) -> TranscriptSegment {
    TranscriptSegment {
        start_ms,
        end_ms,
        text: text.to_owned(),
    }
}

fn meeting(source: DetectionSource, started_at_ms: u64, ended_at_ms: Option<u64>) -> MeetingTranscript {
    MeetingTranscript {
        id: 1,
        name: "Meeting".to_owned(),
        path: "/tmp/meeting.txt".to_owned(),
        segments: Vec::new(),
        chunk_paths: Vec::new(),
        source,
        started_at_ms,
        ended_at_ms,
        test_audio_path: None,
        recording_active: false,
        meeting_ended: true,
    }
}

fn started(state: &mut TranscriptionState, id: u128, name: &str, source: DetectionSource, now_ms: u64) {
    let action = state.handle_event(
        &AppEvent::MeetingStarted {
            id,
            name: name.to_owned(),
            source,
        },
        now_ms,
    );
    let TranscriptionAction::CreateDraft {
        meeting_id,
        name,
        source,
    } = action
    else {
        panic!("expected a draft to be created");
    };
    let event = state.register_draft(
        meeting_id,
        name,
        source,
        format!("/data/rustle/transcripts/{meeting_id}.txt"),
        None,
        now_ms,
    );
    assert!(matches!(event, AppEvent::TranscriptDraftReady { meeting_id: m, .. } if m == id));
}

#[test]
fn spec_006_centiseconds_are_converted_to_milliseconds() {
    assert_eq!(centiseconds_to_millis(42), 420);
    assert_eq!(centiseconds_to_millis(-1), 0);
    assert_eq!(centiseconds_to_millis(i64::MAX), u64::MAX);
}

#[test]
fn derives_meeting_name_from_transcript_filename() {
    let name = meeting_name_from_path("/tmp/1779283974_team_sync.txt");

    assert_eq!(name, "team sync");
}

#[test]
fn spec_006_default_model_path_is_auto_downloadable() {
    assert!(is_default_transcription_model_path(
        &Settings::default().transcription.model_path
    ));
    assert!(!is_default_transcription_model_path(
        "/tmp/custom-whisper-model.bin"
    ));
}

#[test]
fn spec_006_text_fixtures_are_treated_as_deterministic_transcripts() {
    assert!(fixture_is_transcript("/tmp/manual-workflow.txt"));
    assert!(fixture_is_transcript("/tmp/manual-workflow.md"));
    assert!(!fixture_is_transcript("/tmp/manual-workflow.wav"));
}

#[test]
fn spec_006_empty_test_audio_env_is_ignored() {
    assert_eq!(test_audio_path_from_value("   ", &home_env()).unwrap(), None);
}

#[test]
fn spec_006_test_audio_env_resolves_path() {
    assert_eq!(
        test_audio_path_from_value("/tmp/rustle-fixture.wav", &home_env()).unwrap(),
        Some("/tmp/rustle-fixture.wav".to_owned())
    );
}

#[test]
fn spec_006_openai_transcription_message_marks_it_unsupported() {
    let error = local_transcription_available(&Settings {
        transcription: TranscriptionSettings {
            method: TranscriptionMethod::Openai,
            ..Settings::default().transcription
        },
        ..Settings::default()
    })
    .unwrap_err();

    assert!(error.contains("not supported in Rustle v0.1"));
    assert!(error.contains("Local Whisper"));
}

#[test]
fn transcription_failure_notification_mentions_draft_availability() {
    let AppEvent::NotificationRequested {
        title,
        body,
        urgency,
    } = transcription_failure_notification("Planning Sync", "missing model")
    else {
        panic!("expected notification event");
    };

    assert_eq!(title, "Transcription issue");
    assert_eq!(urgency, NotificationUrgency::Critical);
    assert!(body.contains("Planning Sync"));
    assert!(body.contains("transcript draft remains available"));
    assert!(body.contains("missing model"));
}

#[test]
fn spec_006_empty_segments_are_flagged_for_transcription_loop_guard() {
    let segments: Vec<TranscriptSegment> = Vec::new();
    assert!(segments.is_empty(), "empty segments guard must fire");
    let non_empty = [TranscriptSegment {
        start_ms: 0,
        end_ms: 100,
        text: "Alice: Hello".to_owned(),
    }];
    assert!(!non_empty.is_empty());
}

#[test]
fn transcript_segments_handles_whitespace_only_text() {
    let segments = transcript_segments("   \n\n  ".to_owned());
    assert!(segments.is_empty());
}

#[test]
fn recording_fallback_segment_includes_path_and_error() {
    let path = "/tmp/test-recording.wav";
    let error = "model not found";
    let segment = recording_fallback_segment(path, error);

    assert!(segment.text.contains("/tmp/test-recording.wav"));
    assert!(segment.text.contains("model not found"));
}

#[test]
fn meeting_name_from_path_handles_missing_extension() {
    let name = meeting_name_from_path("/tmp/1234567890_meeting");
    assert_eq!(name, "meeting");
}

#[test]
fn spec_028_short_hyprland_detection_is_treated_as_false_positive() {
    let meeting = meeting(DetectionSource::Hyprland, 5_000, Some(5_000));

    assert!(is_short_hyprland_false_positive(&meeting, 5_000));
}

#[test]
fn spec_028_manual_and_long_hyprland_meetings_are_not_false_positives() {
    let manual_meeting = meeting(DetectionSource::Manual, 5_000, Some(5_000));
    assert!(!is_short_hyprland_false_positive(&manual_meeting, 5_000));

    let long_hyprland_meeting = meeting(
        DetectionSource::Hyprland,
        0,
        Some(MIN_AUTODETECTED_MEETING_DURATION_MS + 1_000),
    );
    assert!(!is_short_hyprland_false_positive(
        &long_hyprland_meeting,
        MIN_AUTODETECTED_MEETING_DURATION_MS + 1_000
    ));
}

#[test]
fn spec_018_missing_transcript_fixture_returns_fallback_and_notification() {
    let missing_path = "/tmp/rustle-missing-transcript-fixture.txt";
    let read = fixture_segments(Err("No such file or directory (os error 2)".to_owned()));
    let (segments, notification) = segments_or_fallback("Planning Sync", missing_path, read);

    assert_eq!(segments.len(), 1);
    assert!(segments[0]
        .text
        .contains("speech transcription was not available"));
    assert!(segments[0].text.contains(missing_path));
    assert!(segments[0]
        .text
        .contains("failed to read transcript fixture"));

    let Some(AppEvent::NotificationRequested {
        title,
        body,
        urgency,
    }) = notification
    else {
        panic!("expected notification event");
    };
    assert_eq!(title, "Transcription issue");
    assert_eq!(urgency, NotificationUrgency::Critical);
    assert!(body.contains("Planning Sync"));
    assert!(body.contains("transcript draft remains available"));
    assert!(body.contains("failed to read transcript fixture"));
}

#[test]
fn spec_024_meeting_waits_for_final_recording_chunk_before_transcription() {
    let mut state = TranscriptionState::new(&Settings::default());
    started(&mut state, 7, "Recorded Meeting", DetectionSource::Manual, 0);

    assert!(matches!(
        state.handle_event(&AppEvent::RecordingStarted { meeting_id: 7 }, 10),
        TranscriptionAction::Nothing
    ));
    assert!(matches!(
        state.handle_event(&AppEvent::MeetingEnded { id: 7 }, 20),
        TranscriptionAction::Nothing
    ));
    assert_eq!(state.meetings.len(), 1);

    let chunk = "/sandbox/missing-final-chunk.wav";
    let TranscriptionAction::TranscribeChunk {
        meeting_id,
        meeting_name,
        transcript_path,
        chunk_path,
    } = state.handle_event(
        &AppEvent::RecordingChunkReady {
            meeting_id: 7,
            path: chunk.to_owned(),
        },
        30,
    )
    else {
        panic!("expected the chunk to be transcribed");
    };
    assert_eq!(meeting_id, 7);
    assert_eq!(meeting_name, "Recorded Meeting");
    assert_eq!(transcript_path, "/data/rustle/transcripts/7.txt");
    assert_eq!(chunk_path, chunk);

    let step = state.chunk_transcribed(
        7,
        &meeting_name,
        &chunk_path,
        Err("failed to open WAV: No such file or directory".to_owned()),
    );
    assert!(step.notification.is_some());
    let (path, content) = step.append.expect("fallback lines are appended");
    assert_eq!(path, "/data/rustle/transcripts/7.txt");
    assert!(content.starts_with("[0ms - 0ms] Audio was recorded at /sandbox/missing-final-chunk.wav"));
    assert!(content.ends_with('\n'));

    let TranscriptionAction::Finalise(FinalisePlan::Collect {
        meeting_id,
        segments,
        test_audio_path,
        ..
    }) = state.handle_event(&AppEvent::RecordingStopped { meeting_id: 7 }, 40)
    else {
        panic!("expected the transcript to be collected");
    };
    assert!(state.meetings.is_empty());
    assert_eq!(test_audio_path, None);

    let Some(AppEvent::TranscriptionReady { meeting_id, segments }) =
        finish_finalise(meeting_id, segments, Some(content))
    else {
        panic!("expected the transcript to be ready");
    };
    assert_eq!(meeting_id, 7);
    assert_eq!(segments.len(), 1);
    assert!(segments[0]
        .text
        .contains("speech transcription was not available"));
    assert!(segments[0].text.contains(chunk));
}

#[test]
fn spec_028_short_hyprland_detection_discards_false_positive_artifacts() {
    let mut state = TranscriptionState::new(&Settings::default());
    started(&mut state, 3, "Teams call", DetectionSource::Hyprland, 1_000);
    state.handle_event(
        &AppEvent::RecordingChunkReady {
            meeting_id: 3,
            path: "/data/chunk-0000.wav".to_owned(),
        },
        2_000,
    );

    let TranscriptionAction::Finalise(FinalisePlan::Discard {
        meeting_id,
        path,
        chunk_paths,
    }) = state.handle_event(&AppEvent::MeetingEnded { id: 3 }, 61_000)
    else {
        panic!("expected the detection to be discarded");
    };
    assert_eq!(meeting_id, 3);
    assert_eq!(chunk_paths, vec!["/data/chunk-0000.wav".to_owned()]);
    let Some(AppEvent::DocumentDeleted { path: deleted, kind }) =
        discarded_transcript_event(path.clone(), RemovalOutcome::Removed)
    else {
        panic!("expected the deletion to be announced");
    };
    assert_eq!(deleted, path);
    assert_eq!(kind, StoredDocumentKind::Transcript);
    assert!(discarded_transcript_event(path.clone(), RemovalOutcome::NotFound).is_some());
    assert!(discarded_transcript_event(path, RemovalOutcome::Failed).is_none());
}

#[test]
fn long_hyprland_meeting_is_collected() {
    let mut state = TranscriptionState::new(&Settings::default());
    started(&mut state, 4, "Teams call", DetectionSource::Hyprland, 0);
    let action = state.handle_event(&AppEvent::MeetingEnded { id: 4 }, 300_000);
    assert!(matches!(
        action,
        TranscriptionAction::Finalise(FinalisePlan::Collect { meeting_id: 4, .. })
    ));
}

#[test]
fn spec_023_empty_transcript_does_not_trigger_summarisation() {
    assert!(finish_finalise(9, Vec::new(), Some("  \n\t ".to_owned())).is_none());
    assert!(finish_finalise(9, Vec::new(), None).is_none());
}

#[test]
fn manual_draft_text_is_used_when_nothing_was_transcribed() {
    let Some(AppEvent::TranscriptionReady { meeting_id, segments }) =
        finish_finalise(9, Vec::new(), Some("\n Alice: hello \n".to_owned()))
    else {
        panic!("expected the draft text to become the transcript");
    };
    assert_eq!(meeting_id, 9);
    assert_eq!(segments, vec![segment(0, 0, "Alice: hello")]);

    let collected = vec![segment(0, 1_000, "Bob: hi")];
    let Some(AppEvent::TranscriptionReady { segments, .. }) =
        finish_finalise(9, collected.clone(), Some("draft".to_owned()))
    else {
        panic!("expected the collected segments");
    };
    assert_eq!(segments, collected);
}

#[test]
fn second_end_of_a_finalised_meeting_does_nothing() {
    let mut state = TranscriptionState::new(&Settings::default());
    started(&mut state, 5, "Standup", DetectionSource::Manual, 0);
    assert!(matches!(
        state.handle_event(&AppEvent::MeetingEnded { id: 5 }, 10),
        TranscriptionAction::Finalise(FinalisePlan::Collect { .. })
    ));
    assert!(matches!(
        state.handle_event(&AppEvent::MeetingEnded { id: 5 }, 20),
        TranscriptionAction::Nothing
    ));
    assert!(matches!(
        state.handle_event(&AppEvent::RecordingStopped { meeting_id: 5 }, 30),
        TranscriptionAction::Nothing
    ));
    assert!(matches!(state.finalise(5, 40), FinalisePlan::Missing));
}

#[test]
fn events_for_unknown_meetings_change_nothing() {
    let mut state = TranscriptionState::new(&Settings::default());
    for event in [
        AppEvent::RecordingStarted { meeting_id: 1 },
        AppEvent::RecordingStopped { meeting_id: 1 },
        AppEvent::MeetingEnded { id: 1 },
        AppEvent::RecordingChunkReady {
            meeting_id: 1,
            path: "/tmp/a.wav".to_owned(),
        },
    ] {
        assert!(matches!(
            state.handle_event(&event, 0),
            TranscriptionAction::Nothing
        ));
    }
    assert!(state.meetings.is_empty());
    let step = state.chunk_transcribed(1, "x", "/tmp/a.wav", Ok(vec![segment(0, 1, "hi")]));
    assert!(step.append.is_none());
    assert!(step.notification.is_none());
}

#[test]
fn test_fixture_is_only_used_without_transcribed_segments() {
    let mut state = TranscriptionState::new(&Settings::default());
    let event = state.register_draft(
        2,
        "Fixture".to_owned(),
        DetectionSource::Manual,
        "/t/2.txt".to_owned(),
        Some("/fixtures/a.txt".to_owned()),
        0,
    );
    assert!(matches!(event, AppEvent::TranscriptDraftReady { meeting_id: 2, .. }));
    let TranscriptionAction::Finalise(FinalisePlan::Collect {
        test_audio_path, ..
    }) = state.handle_event(&AppEvent::MeetingEnded { id: 2 }, 5)
    else {
        panic!("expected collection");
    };
    assert_eq!(test_audio_path, Some("/fixtures/a.txt".to_owned()));

    state.register_draft(
        2,
        "Fixture".to_owned(),
        DetectionSource::Manual,
        "/t/2.txt".to_owned(),
        Some("/fixtures/a.txt".to_owned()),
        0,
    );
    state.chunk_transcribed(2, "Fixture", "/t/c.wav", Ok(vec![segment(0, 10, "words")]));
    let TranscriptionAction::Finalise(FinalisePlan::Collect {
        test_audio_path,
        segments,
        ..
    }) = state.handle_event(&AppEvent::MeetingEnded { id: 2 }, 5)
    else {
        panic!("expected collection");
    };
    assert_eq!(test_audio_path, None);
    assert_eq!(segments, vec![segment(0, 10, "words")]);
}

#[test]
fn registering_a_draft_twice_keeps_one_transcript() {
    let mut state = TranscriptionState::new(&Settings::default());
    started(&mut state, 8, "A", DetectionSource::Manual, 0);
    started(&mut state, 8, "B", DetectionSource::Manual, 1);
    assert_eq!(state.meetings.len(), 1);
    assert_eq!(state.meetings[&8].name, "B");
}

#[test]
fn settings_changes_are_validated_and_quit_stops() {
    let mut state = TranscriptionState::new(&Settings::default());
    let mut settings = Settings::default();
    settings.transcription.model_path = "  ".to_owned();
    settings.transcription.method = TranscriptionMethod::Openai;
    state.handle_event(&AppEvent::SettingsChanged(settings), 0);
    assert_eq!(
        state.settings.transcription.model_path,
        Settings::default().transcription.model_path
    );
    assert_eq!(state.settings.transcription.method, TranscriptionMethod::Openai);
    assert!(matches!(
        state.handle_event(&AppEvent::QuitRequested, 0),
        TranscriptionAction::Stop
    ));
    assert!(matches!(
        state.handle_event(
            &AppEvent::SummariseTranscriptRequested {
                path: "/t/1_x.txt".to_owned()
            },
            0
        ),
        TranscriptionAction::SummariseSaved { path } if path == "/t/1_x.txt"
    ));
}

#[test]
fn transcript_lines_carry_millisecond_timestamps() {
    let content = render_segments(&vec![
        segment(0, 2_500, "Alice: hi"),
        segment(2_500, 10_000, "Bob: hello"),
    ]);
    assert_eq!(
        content,
        "[0ms - 2500ms] Alice: hi\n[2500ms - 10000ms] Bob: hello\n"
    );
    assert_eq!(render_segments(&Vec::new()), "");
}

#[test]
fn draft_names_use_timestamp_and_safe_meeting_name() {
    assert_eq!(
        draft_file_name(1_779_283_974, "Team Sync/Weekly"),
        "1779283974_Team_Sync_Weekly.txt"
    );
    assert_eq!(draft_file_name(0, "???"), "0_meeting.txt");
}

#[test]
fn whisper_segments_are_trimmed_and_converted() {
    assert_eq!(
        whisper_segment("  hello  ", 150, 275),
        Some(segment(1_500, 2_750, "hello"))
    );
    assert_eq!(whisper_segment("   ", 0, 10), None);
    assert_eq!(whisper_segment("x", -5, 3).map(|s| s.start_ms), Some(0));
}

#[test]
fn saved_transcripts_start_a_manual_meeting() {
    let events = saved_transcript_events("/t/1779283974_team_sync.txt", " notes ".to_owned(), 11);
    assert_eq!(events.len(), 2);
    assert!(matches!(
        &events[0],
        AppEvent::MeetingStarted { id: 11, name, source: DetectionSource::Manual } if name == "team sync"
    ));
    assert!(matches!(
        &events[1],
        AppEvent::TranscriptionReady { meeting_id: 11, segments } if segments == &vec![segment(0, 0, "notes")]
    ));
    assert!(saved_transcript_events("/t/1_x.txt", "\n".to_owned(), 11).is_empty());
}

#[test]
fn successful_attempts_keep_their_segments() {
    let (segments, notification) =
        segments_or_fallback("M", "/a.wav", Ok(vec![segment(1, 2, "t")]));
    assert_eq!(segments, vec![segment(1, 2, "t")]);
    assert!(notification.is_none());
    let Ok(read) = fixture_segments(Ok(" fixture text ".to_owned())) else {
        panic!("expected fixture segments");
    };
    assert_eq!(read, vec![segment(0, 0, "fixture text")]);
}

#[test]
fn whisper_model_location_and_missing_model_handling() {
    let mut settings = Settings::default();
    assert_eq!(
        whisper_model_path(&settings, &home_env()).unwrap(),
        "/home/alice/.local/share/rustle/models/ggml-base.en.bin"
    );
    assert!(missing_whisper_model(&settings.transcription.model_path, "/x").is_ok());
    settings.transcription.model_path = " /models/custom.bin ".to_owned();
    assert_eq!(
        whisper_model_path(&settings, &home_env()).unwrap(),
        "/models/custom.bin"
    );
    assert_eq!(
        missing_whisper_model("/models/custom.bin", "/models/custom.bin").unwrap_err(),
        "Whisper model not found at /models/custom.bin; set transcription.model_path to a ggml model"
    );
    let no_home = PathEnv {
        xdg_data_home: None,
        xdg_config_home: None,
        home: None,
    };
    assert!(whisper_model_path(&Settings::default(), &no_home).is_err());
    assert!(test_audio_path_from_value("~/fixture.wav", &no_home).is_err());
    assert!(local_transcription_available(&Settings::default()).is_ok());
}

#[test]
fn meeting_duration_runs_to_the_end_or_now() {
    assert_eq!(meeting_duration(&meeting(DetectionSource::Manual, 1_000, Some(4_000)), 9_000), 3_000);
    assert_eq!(meeting_duration(&meeting(DetectionSource::Manual, 1_000, None), 9_000), 8_000);
    assert_eq!(meeting_duration(&meeting(DetectionSource::Manual, 5_000, None), 1_000), 0);
}
