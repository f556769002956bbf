use std::time::Duration;

use rustle::audio::{
    chunk_duration, chunk_file_name, chunk_timer_secs, file_has_audio, is_executable_mode,
    recorder_command, recorder_program, recorder_step, recording_size_bytes,
    select_recorder_backend, test_audio_configured, AudioCaptureState, CaptureAction,
    RecorderBackend, RecorderEvent, RecorderStep, RecordingSession, MAX_CHUNK_BYTES,
    MAX_CHUNK_DURATION_SECS,
};
use rustle::{AppEvent, DetectionSource, Settings};

#[test]
fn spec_005_pipewire_command_uses_configured_target() {
    let command = recorder_command(
        RecorderBackend::PipeWire,
        "alsa_input.pci.capture",
        "/tmp/chunk.wav",
    );

    assert_eq!(command.program, "pw-record");
    assert!(command.args.contains(&"--target".to_owned()));
    assert!(command.args.contains(&"alsa_input.pci.capture".to_owned()));
    assert_eq!(
        command.args.last().map(String::as_str),
        Some("/tmp/chunk.wav")
    );
}

#[test]
fn spec_005_alsa_default_device_omits_explicit_device() {
    let command = recorder_command(RecorderBackend::Alsa, "default", "/tmp/a.wav");

    assert_eq!(command.program, "arecord");
    assert!(!command.args.contains(&"-D".to_owned()));
}

#[test]
fn spec_005_audio_settings_arithmetic_is_saturating_and_clamped() {
    assert_eq!(
        Duration::from_secs(chunk_duration(u64::MAX)),
        Duration::from_secs(MAX_CHUNK_DURATION_SECS)
    );
    assert_eq!(recording_size_bytes(u64::MAX), MAX_CHUNK_BYTES);
}

#[test]
fn chunk_settings_convert_units_and_stay_positive() {
    assert_eq!(chunk_duration(10), 600);
    assert_eq!(chunk_duration(0), 1);
    assert_eq!(recording_size_bytes(2048), 2048 * 1024 * 1024);
    assert_eq!(recording_size_bytes(0), 1);
    assert_eq!(chunk_timer_secs(0), 1);
    assert_eq!(chunk_timer_secs(600), 600);
}

#[test]
fn recorder_commands_list_every_argument() {
    let pulse = recorder_command(RecorderBackend::PulseAudio, " Mic ", "/r/c.wav");
    assert_eq!(pulse.program, "parecord");
    assert_eq!(
        pulse.args,
        vec![
            "--file-format=wav",
            "--format=s16le",
            "--rate=16000",
            "--channels=1",
            "--device=Mic",
            "/r/c.wav"
        ]
    );
    let pipewire = recorder_command(RecorderBackend::PipeWire, "DEFAULT", "/r/c.wav");
    assert_eq!(
        pipewire.args,
        vec!["--rate", "16000", "--channels", "1", "--format", "s16", "/r/c.wav"]
    );
    let alsa = recorder_command(RecorderBackend::Alsa, "hw:1", "/r/c.wav");
    assert_eq!(
        alsa.args,
        vec!["-f", "S16_LE", "-r", "16000", "-c", "1", "-t", "wav", "-D", "hw:1", "/r/c.wav"]
    );
    assert_eq!(recorder_program(RecorderBackend::Alsa), "arecord");
}

#[test]
fn recorder_selection_prefers_pipewire_then_pulseaudio() {
    assert_eq!(
        select_recorder_backend(true, true, true),
        Some(RecorderBackend::PipeWire)
    );
    assert_eq!(
        select_recorder_backend(false, true, true),
        Some(RecorderBackend::PulseAudio)
    );
    assert_eq!(
        select_recorder_backend(false, false, true),
        Some(RecorderBackend::Alsa)
    );
    assert_eq!(select_recorder_backend(false, false, false), None);
    assert!(is_executable_mode(true, 0o755));
    assert!(!is_executable_mode(true, 0o644));
    assert!(!is_executable_mode(false, 0o755));
}

#[test]
fn chunk_files_are_numbered_with_four_digits() {
    assert_eq!(
        chunk_file_name(1_700_000_000, "Team Sync", 3),
        "1700000000_Team_Sync_chunk_0003.wav"
    );
    assert_eq!(
        chunk_file_name(5, "x", 12_345),
        "5_x_chunk_12345.wav"
    );
    assert!(!file_has_audio(44));
    assert!(file_has_audio(45));
}

#[test]
fn test_audio_variable_must_not_be_blank() {
    assert!(test_audio_configured(Some("/tmp/f.wav")));
    assert!(!test_audio_configured(Some("   ")));
    assert!(!test_audio_configured(None));
}

#[test]
fn capture_records_one_meeting_at_a_time() {
    let mut state = AudioCaptureState::new();
    let start = |id: u128| AppEvent::MeetingStarted {
        id,
        name: "Sync".to_owned(),
        source: DetectionSource::Manual,
    };
    let CaptureAction::LoadSettings {
        meeting_id,
        meeting_name,
    } = state.handle_event(&start(1), false)
    else {
        panic!("expected settings to be loaded");
    };
    let config = state
        .start_capture(meeting_id, meeting_name, &Settings::default())
        .expect("capture is on by default");
    assert_eq!(config.chunk_duration_secs, 600);
    assert_eq!(config.max_chunk_bytes, 2048 * 1024 * 1024);
    assert_eq!(config.input_device, "default");
    assert_eq!(state.active, Some(1));

    assert!(matches!(state.handle_event(&start(2), false), CaptureAction::Nothing));
    assert!(matches!(
        state.handle_event(&AppEvent::MeetingEnded { id: 2 }, false),
        CaptureAction::Nothing
    ));
    assert!(matches!(
        state.handle_event(&AppEvent::MeetingEnded { id: 1 }, false),
        CaptureAction::StopRecording { meeting_id: 1 }
    ));
    assert_eq!(state.active, None);
    assert!(matches!(state.handle_event(&start(3), true), CaptureAction::Nothing));
    assert!(matches!(
        state.handle_event(&AppEvent::QuitRequested, false),
        CaptureAction::Quit { stop: None }
    ));
}

#[test]
fn capture_respects_auto_capture_setting() {
    let mut state = AudioCaptureState::new();
    let mut settings = Settings::default();
    settings.meeting.auto_capture = false;
    assert!(state.start_capture(4, "x".to_owned(), &settings).is_none());
    assert_eq!(state.active, None);
    state.start_capture(4, "x".to_owned(), &Settings::default());
    assert!(matches!(
        state.handle_event(&AppEvent::QuitRequested, false),
        CaptureAction::Quit { stop: Some(4) }
    ));
}

#[test]
fn recorder_events_finish_or_continue_the_chunk() {
    assert!(matches!(
        recorder_step(RecorderEvent::Tick { file_len: 10 }, 100),
        RecorderStep::Continue
    ));
    assert!(matches!(
        recorder_step(RecorderEvent::Tick { file_len: 100 }, 100),
        RecorderStep::Finish { kill: true, result: Ok(false) }
    ));
    assert!(matches!(
        recorder_step(RecorderEvent::StopRequested, 100),
        RecorderStep::Finish { kill: true, result: Ok(true) }
    ));
    assert!(matches!(
        recorder_step(RecorderEvent::DurationElapsed, 100),
        RecorderStep::Finish { kill: true, result: Ok(false) }
    ));
    assert!(matches!(
        recorder_step(
            RecorderEvent::Exited { success: true, status: "exit status: 0".to_owned() },
            100
        ),
        RecorderStep::Finish { kill: false, result: Ok(true) }
    ));
    let RecorderStep::Finish { result: Err(message), .. } = recorder_step(
        RecorderEvent::Exited {
            success: false,
            status: "exit status: 1".to_owned(),
        },
        100,
    ) else {
        panic!("expected a failure");
    };
    assert_eq!(message, "recorder exited with status exit status: 1");
}

#[test]
fn recording_session_publishes_chunks_and_stop() {
    let (mut session, started) = RecordingSession::start(9);
    assert!(matches!(started, AppEvent::RecordingStarted { meeting_id: 9 }));
    let outcome = session.chunk_finished("/r/1.wav".to_owned(), Ok(false), 1_000);
    assert!(outcome.record_next);
    assert!(!outcome.remove_file);
    assert_eq!(outcome.publish.len(), 1);
    assert_eq!(session.chunk_index, 2);

    let outcome = session.chunk_finished("/r/2.wav".to_owned(), Ok(false), 44);
    assert!(outcome.remove_file);
    assert!(outcome.publish.is_empty());

    let outcome = session.chunk_finished("/r/3.wav".to_owned(), Err("boom".to_owned()), 500);
    assert!(!outcome.record_next);
    assert_eq!(outcome.publish.len(), 2);
    assert!(matches!(&outcome.publish[0], AppEvent::RecordingChunkReady { meeting_id: 9, path } if path == "/r/3.wav"));
    assert!(matches!(outcome.publish[1], AppEvent::RecordingStopped { meeting_id: 9 }));
    assert_eq!(session.chunk_index, 3);
}

#[test]
fn chunks_with_different_numbers_get_different_names() {
    let names = [
        rustle::audio::chunk_file_name(1779300000, "Team Sync", 0),
        rustle::audio::chunk_file_name(1779300000, "Team Sync", 1),
        rustle::audio::chunk_file_name(1779300600, "Team Sync", 2),
        rustle::audio::chunk_file_name(1779300600, "Team Sync", 10000),
    ];
    for i in 0..names.len() {
        for j in (i + 1)..names.len() {
            assert_ne!(names[i], names[j]);
        }
    }
    assert_eq!(names[1], "1779300000_Team_Sync_chunk_0001.wav");
}
