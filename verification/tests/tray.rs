use rustle::tray::{first_existing, icon_theme_candidates};
use rustle::tray::{
    ai_provider_label, apply_setting_change, document_menu_label, documents_submenu,
    meeting_submenu, on_off, parse_terminal_command, settings_submenu,
    transcription_method_label, updated_settings, MenuNode, SettingChange, StatusStep,
    TerminalCommand, TerminalNotice, TerminalState, TrayCommand, TrayModel,
};
use rustle::{
    AiProvider, AppEvent, DetectionSource, Settings, StoredDocument, StoredDocumentKind,
    TranscriptionMethod,
};

fn document(kind: StoredDocumentKind, path: &str, title: &str) -> StoredDocument {
    StoredDocument {
        kind,
        path: path.to_owned(),
        title: title.to_owned(),
        timestamp_seconds: 0,
    }
}

fn model() -> TrayModel {
    TrayModel {
        active_meeting: None,
        settings: Settings::default(),
        notes: Vec::new(),
        transcripts: Vec::new(),
        notes_dir: Some("/data/rustle/notes".to_owned()),
        transcripts_dir: None,
        active_draft: None,
    }
}

fn label(node: &MenuNode) -> &str {
    match node {
        MenuNode::Item { label, .. } | MenuNode::Submenu { label, .. } => label,
        MenuNode::Separator => "",
    }
}

fn children(node: &MenuNode) -> &[MenuNode] {
    match node {
        MenuNode::Submenu { children, .. } => children,
        _ => &[],
    }
}

#[test]
fn document_menu_label_uses_human_title() {
    let label = document_menu_label(&StoredDocument {
        kind: StoredDocumentKind::Note,
        path: "/tmp/1779283974_team_sync.md".to_owned(),
        title: "team sync".to_owned(),
        timestamp_seconds: 1_779_283_974,
    });

    assert_eq!(label, "team sync");
}

#[test]
fn labels_name_settings_values() {
    assert_eq!(on_off(true), "On");
    assert_eq!(on_off(false), "Off");
    assert_eq!(transcription_method_label(TranscriptionMethod::Local), "Local Whisper");
    assert_eq!(ai_provider_label(AiProvider::LlamaCpp), "llama.cpp");
    assert_eq!(ai_provider_label(AiProvider::Ollama), "Ollama");
}

#[test]
fn terminal_lines_become_commands() {
    assert_eq!(parse_terminal_command("   "), None);
    assert_eq!(
        parse_terminal_command("  START   Weekly  Sync  "),
        Some(TerminalCommand::Start(Some("Weekly  Sync".to_owned())))
    );
    assert_eq!(
        parse_terminal_command("start"),
        Some(TerminalCommand::Start(None))
    );
    assert_eq!(
        parse_terminal_command("start   "),
        Some(TerminalCommand::Start(None))
    );
    assert_eq!(parse_terminal_command("stop"), Some(TerminalCommand::Stop));
    assert_eq!(parse_terminal_command("notes"), Some(TerminalCommand::OpenNotes));
    assert_eq!(parse_terminal_command("Open"), Some(TerminalCommand::OpenNotes));
    assert_eq!(
        parse_terminal_command("transcript"),
        Some(TerminalCommand::OpenTranscript)
    );
    assert_eq!(
        parse_terminal_command("settings"),
        Some(TerminalCommand::OpenSettings)
    );
    assert_eq!(parse_terminal_command("exit"), Some(TerminalCommand::Quit));
    assert_eq!(parse_terminal_command("help me"), Some(TerminalCommand::Help));
    assert_eq!(
        parse_terminal_command("Launch now"),
        Some(TerminalCommand::Unknown("launch".to_owned()))
    );
}

#[test]
fn terminal_controls_keep_one_manual_meeting() {
    let mut state = TerminalState::new();
    let step = state.handle_command(TerminalCommand::Start(None), 1, 1_700_000_000);
    assert_eq!(step.publish.len(), 1);
    assert!(matches!(
        &step.publish[0],
        AppEvent::MeetingStarted { id: 1, name, source: DetectionSource::Manual }
            if name == "Manual Meeting 1700000000"
    ));
    let step = state.handle_command(TerminalCommand::Start(Some("Other".to_owned())), 2, 0);
    assert!(step.publish.is_empty());
    assert_eq!(step.notice, Some(TerminalNotice::AlreadyActive));

    let step = state.handle_command(TerminalCommand::Stop, 3, 0);
    assert!(matches!(step.publish[0], AppEvent::MeetingEnded { id: 1 }));
    assert_eq!(
        step.notice,
        Some(TerminalNotice::Stopped("Manual Meeting 1700000000".to_owned()))
    );
    let step = state.handle_command(TerminalCommand::Stop, 3, 0);
    assert_eq!(step.notice, Some(TerminalNotice::NoActiveMeeting));

    state.handle_command(TerminalCommand::Start(Some("Retro".to_owned())), 4, 0);
    let step = state.handle_command(TerminalCommand::Quit, 5, 0);
    assert!(step.stop);
    assert!(matches!(step.publish[0], AppEvent::MeetingEnded { id: 4 }));
    assert!(matches!(step.publish[1], AppEvent::QuitRequested));
    let step = state.handle_command(TerminalCommand::Unknown("x".to_owned()), 6, 0);
    assert_eq!(step.notice, Some(TerminalNotice::Unknown("x".to_owned())));
    let step = state.handle_command(TerminalCommand::OpenTranscript, 6, 0);
    assert!(matches!(step.publish[0], AppEvent::OpenTranscriptRequested));
}

#[test]
fn settings_changes_touch_one_field() {
    let mut settings = Settings::default();
    apply_setting_change(&mut settings, SettingChange::AutoDetect(false));
    assert!(!settings.meeting.auto_detect);
    apply_setting_change(&mut settings, SettingChange::AiProvider(AiProvider::Ollama));
    assert_eq!(settings.ai.provider, AiProvider::Ollama);
    let mut blank = Settings::default();
    blank.storage.notes_dir = " ".to_owned();
    let updated = updated_settings(blank, SettingChange::CaptureLoopback(true));
    assert!(updated.audio.capture_loopback);
    assert_eq!(updated.storage.notes_dir, Settings::default().storage.notes_dir);
}

#[test]
fn document_submenus_list_each_document() {
    let notes = vec![
        document(StoredDocumentKind::Note, "/n/2_b.md", "b"),
        document(StoredDocumentKind::Note, "/n/1_a.md", "a"),
    ];
    let menu = documents_submenu(&notes, &Some("/n".to_owned()), false);
    assert_eq!(label(&menu), "_Notes (2)");
    let entries = children(&menu);
    assert_eq!(entries.len(), 5);
    assert!(matches!(
        &entries[0],
        MenuNode::Item { enabled: true, command: Some(TrayCommand::OpenPath { path, prefer_editor: true }), .. }
            if path == "/n/2_b.md"
    ));
    assert!(matches!(entries[2], MenuNode::Separator));
    assert_eq!(label(&entries[4]), "a");
    assert!(matches!(
        &children(&entries[4])[1],
        MenuNode::Item { command: Some(TrayCommand::DeleteDocument { path, kind: StoredDocumentKind::Note }), .. }
            if path == "/n/1_a.md"
    ));

    let empty = documents_submenu(&Vec::new(), &None, true);
    assert_eq!(label(&empty), "_Transcripts (0)");
    assert_eq!(children(&empty).len(), 3);
    assert_eq!(label(&children(&empty)[2]), "No saved transcripts yet");
    assert!(matches!(
        children(&empty)[1],
        MenuNode::Item { enabled: false, command: None, .. }
    ));

    let transcripts = vec![document(StoredDocumentKind::Transcript, "/t/1_a.txt", "a")];
    let menu = documents_submenu(&transcripts, &None, true);
    assert!(matches!(
        &children(&children(&menu)[3])[1],
        MenuNode::Item { command: Some(TrayCommand::SummariseTranscript { path }), .. } if path == "/t/1_a.txt"
    ));
}

#[test]
fn settings_and_meeting_menus_reflect_state() {
    let menu = settings_submenu(&Settings::default());
    let entries = children(&menu);
    assert_eq!(entries.len(), 8);
    assert_eq!(label(&entries[0]), "Auto Detect: On");
    assert_eq!(label(&entries[2]), "Capture Loopback: Off");
    assert_eq!(label(&entries[3]), "Detection Method: Hyprland");
    assert_eq!(label(&entries[4]), "Transcription: Local Whisper");
    assert_eq!(label(&entries[5]), "AI Provider: llama.cpp");
    assert!(matches!(
        children(&entries[5])[0],
        MenuNode::Item { enabled: false, .. }
    ));
    assert!(matches!(
        children(&entries[5])[3],
        MenuNode::Item { enabled: true, command: Some(TrayCommand::ChangeSetting(SettingChange::AiProvider(AiProvider::Ollama))), .. }
    ));
    let meeting = meeting_submenu(true);
    assert!(matches!(children(&meeting)[0], MenuNode::Item { enabled: false, .. }));
    assert!(matches!(children(&meeting)[1], MenuNode::Item { enabled: true, .. }));
}

#[test]
fn tray_menu_icon_and_activation() {
    let mut tray = model();
    let menu = tray.menu();
    assert_eq!(menu.len(), 8);
    assert_eq!(label(&menu[2]), "Current _Meeting: None");
    assert_eq!(label(&menu[7]), "_Quit");
    assert_eq!(tray.icon_name(), "rustle");
    assert_eq!(tray.tool_tip_description(), "No active meeting");
    assert!(matches!(
        tray.activate(),
        AppEvent::OpenPathRequested { ref path, prefer_editor: false } if path == "/data/rustle/notes"
    ));
    tray.notes_dir = None;
    assert!(matches!(tray.activate(), AppEvent::OpenNotesRequested));
    tray.notes.push(document(StoredDocumentKind::Note, "/n/1_a.md", "a"));
    assert!(matches!(
        tray.activate(),
        AppEvent::OpenPathRequested { ref path, prefer_editor: true } if path == "/n/1_a.md"
    ));
    tray.status_event(&AppEvent::TranscriptDraftReady {
        meeting_id: 5,
        path: "/t/5_b.txt".to_owned(),
    });
    assert!(matches!(
        tray.activate(),
        AppEvent::OpenPathRequested { ref path, prefer_editor: true } if path == "/t/5_b.txt"
    ));
    tray.status_event(&AppEvent::MeetingEnded { id: 5 });
    assert!(matches!(
        tray.activate(),
        AppEvent::OpenPathRequested { ref path, prefer_editor: true } if path == "/n/1_a.md"
    ));

    let outcome = tray.perform(TrayCommand::StartManualMeeting, 9, 42);
    assert!(matches!(
        &outcome.publish[0],
        AppEvent::MeetingStarted { id: 9, name, .. } if name == "Manual Meeting 42"
    ));
    assert_eq!(tray.icon_name(), "rustle-recording");
    assert_eq!(tray.tool_tip_description(), "Current meeting: Manual Meeting 42");
    assert!(tray.perform(TrayCommand::StartManualMeeting, 10, 43).publish.is_empty());
    let outcome = tray.perform(TrayCommand::Quit, 0, 0);
    assert!(matches!(outcome.publish[0], AppEvent::MeetingEnded { id: 9 }));
    assert!(matches!(outcome.publish[1], AppEvent::QuitRequested));
    let outcome = tray.perform(TrayCommand::ChangeSetting(SettingChange::AutoCapture(false)), 0, 0);
    assert!(outcome.publish.is_empty());
    assert_eq!(outcome.setting_change, Some(SettingChange::AutoCapture(false)));
}

#[test]
fn tray_follows_the_bus() {
    let mut tray = model();
    let step: StatusStep = tray.status_event(&AppEvent::MeetingStarted {
        id: 3,
        name: "Teams".to_owned(),
        source: DetectionSource::Hyprland,
    });
    assert!(!step.refresh && !step.shutdown);
    assert_eq!(tray.active_meeting, Some((3, "Teams".to_owned())));
    tray.status_event(&AppEvent::MeetingEnded { id: 4 });
    assert!(tray.active_meeting.is_some());
    tray.status_event(&AppEvent::MeetingEnded { id: 3 });
    assert!(tray.active_meeting.is_none());
    assert!(tray
        .status_event(&AppEvent::NoteSaved {
            meeting_id: 3,
            path: "/n/x.md".to_owned()
        })
        .refresh);
    let mut settings = Settings::default();
    settings.meeting.auto_capture = false;
    assert!(tray.status_event(&AppEvent::SettingsChanged(settings)).refresh);
    assert!(!tray.settings.meeting.auto_capture);
    assert!(tray.status_event(&AppEvent::QuitRequested).shutdown);
}

#[test]
fn icon_directories_are_searched_in_order() {
    assert_eq!(
        icon_theme_candidates(Some("/data/rustle"), None),
        vec![
            "/data/rustle/icons",
            "/usr/local/share/rustle/icons",
            "/usr/share/rustle/icons"
        ]
    );
    assert_eq!(
        icon_theme_candidates(None, Some("/opt/share:/srv")),
        vec!["/opt/share/rustle/icons", "/srv/rustle/icons"]
    );
    let candidates = icon_theme_candidates(None, Some("/a:/b"));
    assert_eq!(
        first_existing(&candidates, &vec![false, true]),
        Some("/b/rustle/icons".to_owned())
    );
    assert_eq!(first_existing(&candidates, &vec![false, false]), None);
}
