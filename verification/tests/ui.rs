use rustle::ui::{
    configured_notes_dir, editor_choice, launch_command, preferred_editor_command,
    settings_file_plan, CommandLine, EditorChoice, NotesOpenState, PathState, SettingsFilePlan,
    UiAction,
};
use rustle::{AppEvent, PathEnv, Settings, StoredDocumentKind};

fn line(program: &str, args: &[&str]) -> CommandLine {
    CommandLine {
        program: program.to_owned(),
        args: args.iter().map(|a| (*a).to_owned()).collect(),
    }
}

#[test]
fn editor_command_uses_visual_before_editor() {
    let command = preferred_editor_command(Some("nvim -f"), Some("nano"), "/tmp/test.md")
        .expect("editor command should parse")
        .expect("editor command should exist");

    assert_eq!(command, line("nvim", &["-f", "/tmp/test.md"]));
}

#[test]
fn editor_lookup_skips_blank_values_and_reports_bad_quoting() {
    assert_eq!(
        preferred_editor_command(Some("   "), Some("nano"), "/n.md").unwrap(),
        Some(line("nano", &["/n.md"]))
    );
    assert_eq!(
        preferred_editor_command(None, None, "/n.md").unwrap(),
        None
    );
    assert_eq!(
        preferred_editor_command(Some("code --wait 'a b'"), None, "/n.md").unwrap(),
        Some(line("code", &["--wait", "a b", "/n.md"]))
    );
    assert_eq!(
        preferred_editor_command(Some("vim 'unterminated"), Some("nano"), "/n.md").unwrap_err(),
        "failed to parse VISUAL=vim 'unterminated"
    );
    assert_eq!(
        preferred_editor_command(None, Some("''"), "/n.md").unwrap(),
        Some(line("", &["/n.md"]))
    );
    assert_eq!(
        editor_choice("EDITOR", "x", Some(Vec::new()), "/n.md"),
        EditorChoice::Skip
    );
}

#[test]
fn files_open_in_the_editor_or_xdg_open() {
    let editor = line("nano", &["/a.md"]);
    assert_eq!(launch_command(true, Some(editor.clone()), "/a.md"), editor);
    assert_eq!(
        launch_command(false, Some(editor), "/dir"),
        line("xdg-open", &["/dir"])
    );
    assert_eq!(launch_command(true, None, "/a.md"), line("xdg-open", &["/a.md"]));
}

#[test]
fn settings_file_is_created_only_when_missing() {
    assert_eq!(settings_file_plan(PathState::File), SettingsFilePlan::Open);
    assert_eq!(
        settings_file_plan(PathState::Missing),
        SettingsFilePlan::CreateThenOpen
    );
    assert_eq!(settings_file_plan(PathState::NotAFile), SettingsFilePlan::Refuse);
    assert_eq!(settings_file_plan(PathState::Unreadable), SettingsFilePlan::Refuse);
}

#[test]
fn notes_dir_falls_back_to_working_directory() {
    let env = PathEnv {
        xdg_data_home: Some("/data".to_owned()),
        xdg_config_home: None,
        home: None,
    };
    assert_eq!(configured_notes_dir(&Settings::default(), &env), "/data/rustle/notes");
    let nowhere = PathEnv {
        xdg_data_home: None,
        xdg_config_home: None,
        home: None,
    };
    assert_eq!(configured_notes_dir(&Settings::default(), &nowhere), ".");
}

#[test]
fn notes_loop_tracks_latest_documents() {
    let mut state = NotesOpenState::new();
    assert_eq!(
        state.handle_event(&AppEvent::OpenNotesRequested),
        UiAction::OpenNotes { path: None }
    );
    assert_eq!(
        state.handle_event(&AppEvent::OpenTranscriptRequested),
        UiAction::NoTranscript
    );
    state.handle_event(&AppEvent::NoteSaved {
        meeting_id: 1,
        path: "/n/1_a.md".to_owned(),
    });
    state.handle_event(&AppEvent::TranscriptDraftReady {
        meeting_id: 1,
        path: "/t/1_a.txt".to_owned(),
    });
    assert_eq!(
        state.handle_event(&AppEvent::OpenNotesRequested),
        UiAction::OpenNotes {
            path: Some("/t/1_a.txt".to_owned())
        }
    );
    state.handle_event(&AppEvent::MeetingEnded { id: 2 });
    assert_eq!(
        state.handle_event(&AppEvent::OpenNotesRequested),
        UiAction::OpenNotes {
            path: Some("/t/1_a.txt".to_owned())
        }
    );
    state.handle_event(&AppEvent::MeetingEnded { id: 1 });
    assert_eq!(
        state.handle_event(&AppEvent::OpenNotesRequested),
        UiAction::OpenNotes {
            path: Some("/n/1_a.md".to_owned())
        }
    );
    assert_eq!(
        state.handle_event(&AppEvent::OpenTranscriptRequested),
        UiAction::OpenTranscript {
            path: "/t/1_a.txt".to_owned()
        }
    );
    state.handle_event(&AppEvent::DocumentDeleted {
        path: "/t/1_a.txt".to_owned(),
        kind: StoredDocumentKind::Note,
    });
    assert!(state.latest_transcript.is_some());
    state.handle_event(&AppEvent::DocumentDeleted {
        path: "/t//1_a.txt".to_owned(),
        kind: StoredDocumentKind::Transcript,
    });
    assert!(state.latest_transcript.is_none());
    assert_eq!(
        state.handle_event(&AppEvent::OpenPathRequested {
            path: "/x".to_owned(),
            prefer_editor: true
        }),
        UiAction::OpenPath {
            path: "/x".to_owned(),
            prefer_editor: true
        }
    );
    assert_eq!(state.handle_event(&AppEvent::OpenSettingsRequested), UiAction::OpenSettings);
    assert_eq!(state.handle_event(&AppEvent::QuitRequested), UiAction::Stop);
}

#[test]
fn open_current_work_prefers_the_draft_of_the_meeting_in_progress() {
    let mut state = NotesOpenState::new();
    state.handle_event(&AppEvent::NoteSaved {
        meeting_id: 1,
        path: "/n/1_a.md".to_owned(),
    });
    state.handle_event(&AppEvent::TranscriptDraftReady {
        meeting_id: 2,
        path: "/t/2_b.txt".to_owned(),
    });
    assert_eq!(
        state.handle_event(&AppEvent::OpenNotesRequested),
        UiAction::OpenNotes {
            path: Some("/t/2_b.txt".to_owned())
        }
    );
    state.handle_event(&AppEvent::DocumentDeleted {
        path: "/t/2_b.txt".to_owned(),
        kind: StoredDocumentKind::Transcript,
    });
    assert_eq!(
        state.handle_event(&AppEvent::OpenNotesRequested),
        UiAction::OpenNotes {
            path: Some("/n/1_a.md".to_owned())
        }
    );
}
