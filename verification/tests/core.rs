use rustle::{AudioSettings, GeneralSettings};
use rustle::settings::{default_true, settings_from_sections};
use rustle::paths::{file_name, file_stem, join_path, path_extension};
use rustle::{
    default_config_path, default_data_dir, expand_tilde, is_hyprland_session, is_safe_child,
    resolve_notes_dir, resolve_transcripts_dir, safe_filename, supported_session_label,
    AiProvider, CoreError, LoginMethod, PathEnv, RecordingDetectionMethod, Settings,
    TranscriptionMethod,
};

fn env(xdg_data: Option<&str>, home: Option<&str>) -> PathEnv {
    PathEnv {
        xdg_data_home: xdg_data.map(str::to_owned),
        xdg_config_home: None,
        home: home.map(str::to_owned),
    }
}

#[test]
fn supported_session_label_is_hyprland() {
    assert_eq!(supported_session_label(), "Hyprland");
}

#[test]
fn hyprland_detection_requires_instance_signature() {
    assert!(!is_hyprland_session(None));
    assert!(!is_hyprland_session(Some("")));
    assert!(is_hyprland_session(Some("test-instance")));
}

#[test]
fn safe_filename_removes_path_separators() {
    assert_eq!(
        safe_filename("../Team Sync: Planning"),
        "Team_Sync_Planning"
    );
}

#[test]
fn safe_filename_falls_back_for_empty_names() {
    assert_eq!(safe_filename("../../"), "meeting");
}

#[test]
fn safe_filename_drops_unsupported_characters() {
    assert_eq!(safe_filename("Q4 Planning (Final)"), "Q4_Planning_Final");
    assert_eq!(safe_filename("naïve-plan_v2"), "nave-plan_v2");
}

#[test]
fn resolve_notes_dir_honors_xdg_data_home_for_defaults() {
    let resolved = resolve_notes_dir(&Settings::default(), &env(Some("/tmp/rustle-path-test"), None))
        .expect("notes dir should resolve");

    assert_eq!(resolved, "/tmp/rustle-path-test/rustle/notes");
}

#[test]
fn resolve_notes_dir_expands_custom_directories() {
    let mut settings = Settings::default();
    settings.storage.notes_dir = "~/Documents/notes".to_owned();
    assert_eq!(
        resolve_notes_dir(&settings, &env(None, Some("/home/alex"))).unwrap(),
        "/home/alex/Documents/notes"
    );
    assert_eq!(
        resolve_notes_dir(&settings, &env(None, None)),
        Err(CoreError::MissingDirectory { purpose: "home" })
    );
    assert_eq!(
        resolve_notes_dir(&Settings::default(), &env(None, None)),
        Err(CoreError::MissingDirectory { purpose: "data" })
    );
}

#[test]
fn data_and_config_locations_follow_xdg_rules() {
    assert_eq!(
        default_data_dir(&env(None, Some("/home/alex"))).unwrap(),
        "/home/alex/.local/share/rustle"
    );
    assert_eq!(
        resolve_transcripts_dir(&env(Some("/data"), None)).unwrap(),
        "/data/rustle/transcripts"
    );
    let config_env = PathEnv {
        xdg_data_home: None,
        xdg_config_home: None,
        home: Some("/home/alex".to_owned()),
    };
    assert_eq!(
        default_config_path(&config_env).unwrap(),
        "/home/alex/.config/rustle/config.toml"
    );
}

#[test]
fn expand_tilde_resolves_home_prefix_only() {
    let e = env(None, Some("/home/alex"));
    assert_eq!(expand_tilde("~", &e).unwrap(), "/home/alex");
    assert_eq!(expand_tilde("~/notes", &e).unwrap(), "/home/alex/notes");
    assert_eq!(expand_tilde("/tmp/x", &e).unwrap(), "/tmp/x");
    assert_eq!(expand_tilde("~alex/x", &e).unwrap(), "~alex/x");
    assert!(expand_tilde("~/x", &env(None, None)).is_err());
}

#[test]
fn path_helpers_follow_std_path_semantics() {
    assert_eq!(join_path("/tmp", "a"), "/tmp/a");
    assert_eq!(join_path("/tmp/", "a"), "/tmp/a");
    assert_eq!(join_path("/tmp", "/etc"), "/etc");
    assert_eq!(join_path("", "a"), "a");
    assert_eq!(file_name("/tmp/1779283974_team_sync.md").as_deref(), Some("1779283974_team_sync.md"));
    assert_eq!(file_name("/"), None);
    assert_eq!(file_name("/tmp/.."), None);
    assert_eq!(file_stem("/tmp/1779283974_team_sync.md").as_deref(), Some("1779283974_team_sync"));
    assert_eq!(file_stem("/tmp/.hidden").as_deref(), Some(".hidden"));
    assert_eq!(path_extension("/tmp/a.tar.gz").as_deref(), Some("gz"));
    assert_eq!(path_extension("/tmp/.hidden"), None);
    assert_eq!(path_extension("/tmp/noext"), None);
}

#[test]
fn safe_child_compares_whole_components() {
    assert!(is_safe_child("/home/a/notes", "/home/a/notes/x.md"));
    assert!(is_safe_child("/home/a/notes/", "/home/a/notes//x.md"));
    assert!(!is_safe_child("/home/a/notes", "/home/a/notes-old/x.md"));
    assert!(!is_safe_child("/home/a/notes", "/home/a/outside.md"));
}

#[test]
fn default_settings_match_spec_values() {
    let settings = Settings::default();

    assert!(settings.meeting.auto_detect);
    assert!(settings.meeting.auto_capture);
    assert_eq!(settings.audio.max_recording_size_mb, 2048);
    assert_eq!(settings.audio.chunk_duration_minutes, 10);
    assert_eq!(settings.ai.provider, AiProvider::LlamaCpp);
    assert_eq!(settings.ai.model, "Qwen/Qwen2.5-3B-Instruct-GGUF");
}

#[test]
fn spec_009_defaults_match_persistent_settings_schema() {
    let settings = Settings::default();

    assert!(!settings.general.start_on_login);
    assert_eq!(settings.general.start_on_login_method, LoginMethod::Xdg);
    assert!(settings.meeting.auto_detect);
    assert!(settings.meeting.auto_capture);
    assert_eq!(
        settings.meeting.detection_method,
        RecordingDetectionMethod::Hyprland
    );
    assert_eq!(settings.audio.input_device, "default");
    assert!(!settings.audio.capture_loopback);
    assert_eq!(settings.audio.max_recording_size_mb, 2048);
    assert_eq!(settings.audio.chunk_duration_minutes, 10);
    assert_eq!(settings.transcription.method, TranscriptionMethod::Local);
    assert_eq!(
        settings.transcription.model_path,
        "~/.local/share/rustle/models/ggml-base.en.bin"
    );
    assert_eq!(settings.transcription.openai_api_key, "");
    assert_eq!(settings.ai.provider, AiProvider::LlamaCpp);
    assert_eq!(settings.ai.model, "Qwen/Qwen2.5-3B-Instruct-GGUF");
    assert_eq!(settings.ai.api_key, "");
    assert_eq!(settings.ai.ollama_url, "http://localhost:11434");
    assert!(settings
        .ai
        .system_prompt
        .contains("meeting notes assistant"));
    assert_eq!(settings.storage.notes_dir, "~/.local/share/rustle/notes");
    assert_eq!(settings.storage.db_path, "~/.local/share/rustle/rustle.db");
}

#[test]
fn validation_replaces_invalid_numbers_and_empty_paths() {
    let mut settings = Settings::default();
    settings.audio.max_recording_size_mb = 0;
    settings.audio.chunk_duration_minutes = 0;
    settings.storage.notes_dir = String::new();

    let validated = settings.validated();

    assert_eq!(validated.audio.max_recording_size_mb, 2048);
    assert_eq!(validated.audio.chunk_duration_minutes, 10);
    assert_eq!(validated.storage.notes_dir, "~/.local/share/rustle/notes");
}

#[test]
fn validation_keeps_valid_values_and_replaces_blank_strings() {
    let mut settings = Settings::default();
    settings.audio.input_device = " \t".to_owned();
    settings.ai.model = "llama3.1".to_owned();
    settings.ai.system_prompt = "\n".to_owned();
    settings.audio.chunk_duration_minutes = 3;

    let validated = settings.validated();

    assert_eq!(validated.audio.input_device, "default");
    assert_eq!(validated.ai.model, "llama3.1");
    assert!(validated.ai.system_prompt.starts_with("You are a meeting notes assistant."));
    assert_eq!(validated.audio.chunk_duration_minutes, 3);
    assert_eq!(validated.validated(), validated);
}

#[test]
fn core_error_messages_name_the_purpose() {
    assert_eq!(
        CoreError::MissingDirectory { purpose: "data" }.message(),
        "unable to resolve home or XDG directory for data"
    );
}

#[test]
fn settings_sections_fall_back_to_defaults() {
    assert!(default_true());
    let settings = settings_from_sections(
        Some(GeneralSettings {
            start_on_login: true,
            start_on_login_method: LoginMethod::Systemd,
        }),
        None,
        Some(AudioSettings {
            input_device: " ".to_owned(),
            capture_loopback: true,
            max_recording_size_mb: 0,
            chunk_duration_minutes: 5,
        }),
        None,
        None,
        None,
    );
    assert!(settings.general.start_on_login);
    assert_eq!(settings.audio.input_device, "default");
    assert_eq!(settings.audio.max_recording_size_mb, 2048);
    assert_eq!(settings.audio.chunk_duration_minutes, 5);
    assert!(settings.audio.capture_loopback);
    assert_eq!(settings.ai, Settings::default().ai);
}

#[test]
fn validating_twice_gives_what_validating_once_gave() {
    let mut settings = Settings::default();
    settings.audio.max_recording_size_mb = 0;
    settings.audio.input_device = "  ".to_owned();
    settings.ai.ollama_url = String::new();
    settings.ai.model = "llama3.1".to_owned();

    let once = settings.validated();
    let twice = once.validated();

    assert_eq!(once, twice);
    assert_eq!(once.ai.model, "llama3.1");
    assert_eq!(once.ai.ollama_url, "http://localhost:11434");
    assert_eq!(Settings::default().validated(), Settings::default());
}

#[test]
fn invalid_section_falls_back_to_defaults() {
    // `[meeting] detection_method = 'invalid'` cannot be read, so that section
    // is missing; `[audio] input_device = 'pipewire'` is read with the other
    // audio fields at their defaults.
    let settings = settings_from_sections(
        None,
        None,
        Some(AudioSettings {
            input_device: "pipewire".to_owned(),
            ..AudioSettings::default()
        }),
        None,
        None,
        None,
    );

    assert_eq!(settings.meeting, rustle::MeetingSettings::default());
    assert_eq!(settings.audio.input_device, "pipewire");
}

#[test]
fn sanitising_a_sanitised_name_changes_nothing() {
    for name in ["Team Sync: Q3/Plan", "  ..//  ", "a__b--c", "Résumé review", ""] {
        let once = safe_filename(name);
        assert_eq!(safe_filename(&once), once);
    }
    assert_eq!(safe_filename("  ..//  "), "meeting");
}
