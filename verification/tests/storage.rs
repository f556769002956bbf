use rustle::benchmark::{
    benchmark_models, benchmark_result, benchmark_settings, benchmark_timeout_secs,
    model_source, preview, BenchmarkProgress, BenchmarkStatus, DEFAULT_BENCHMARK_TIMEOUT_SECS,
};
use rustle::storage::{
    check_document_path, document_base_dir, document_extension, document_from_entry,
    humanise_title, note_file_name, parse_document, render_markdown, sort_documents,
    StorageAction, StorageState,
};
use rustle::{
    AiProvider, AppEvent, DetectionSource, MeetingNotes, PathEnv, Settings, StoredDocument,
    StoredDocumentKind,
};

fn notes(summary: &str, markdown: &str) -> MeetingNotes {
    MeetingNotes {
        summary: summary.to_owned(),
        key_decisions: Vec::new(),
        action_items: Vec::new(),
        attendees: Vec::new(),
        markdown: markdown.to_owned(),
    }
}

fn doc(title: &str, timestamp_seconds: u64) -> StoredDocument {
    StoredDocument {
        kind: StoredDocumentKind::Note,
        path: format!("/n/{timestamp_seconds}_{title}.md"),
        title: title.to_owned(),
        timestamp_seconds,
    }
}

#[test]
fn render_markdown_uses_existing_markdown() {
    let notes = notes("summary", "# Existing");

    assert_eq!(render_markdown(&notes), "# Existing");
}

#[test]
fn render_markdown_generates_structure_when_markdown_is_empty() {
    let notes = notes("We discussed the roadmap.", "");

    let rendered = render_markdown(&notes);
    assert!(rendered.contains("# Meeting Notes"));
    assert!(rendered.contains("## Summary"));
    assert!(rendered.contains("We discussed the roadmap."));
}

#[test]
fn parses_document_title_and_timestamp_from_filename() {
    let document = parse_document("/tmp/1779283974_team_sync.md", StoredDocumentKind::Note)
        .expect("document should parse");

    assert_eq!(document.timestamp_seconds, 1_779_283_974);
    assert_eq!(document.title, "team sync");
    assert_eq!(document.kind, StoredDocumentKind::Note);
}

#[test]
fn parse_document_returns_none_for_invalid_filename() {
    let result = parse_document("/", StoredDocumentKind::Note);
    assert!(result.is_none());
}

#[test]
fn humanise_title_converts_underscores_to_spaces() {
    assert_eq!(humanise_title("team_sync"), "team sync");
}

#[test]
fn document_names_without_timestamps() {
    let document = parse_document("/t/notes.txt", StoredDocumentKind::Transcript).unwrap();
    assert_eq!(document.timestamp_seconds, 0);
    assert_eq!(document.title, "notes");
    let document = parse_document("/t/soon_retro__plan.txt", StoredDocumentKind::Transcript).unwrap();
    assert_eq!(document.timestamp_seconds, 0);
    assert_eq!(document.title, "retro plan");
    assert_eq!(humanise_title("__"), "Meeting");
    assert_eq!(note_file_name(42, "Team Sync"), "42_Team_Sync.md");
    assert_eq!(document_extension(StoredDocumentKind::Transcript), "txt");
}

#[test]
fn only_files_with_the_kind_extension_are_listed() {
    assert!(document_from_entry("/n/1_a.md", true, StoredDocumentKind::Note, "md").is_some());
    assert!(document_from_entry("/n/1_a.md", false, StoredDocumentKind::Note, "md").is_none());
    assert!(document_from_entry("/n/1_a.txt", true, StoredDocumentKind::Note, "md").is_none());
    assert!(document_from_entry("/n/md", true, StoredDocumentKind::Note, "md").is_none());
}

#[test]
fn documents_are_listed_newest_first_then_by_title() {
    let sorted = sort_documents(vec![doc("b", 1), doc("c", 3), doc("a", 1), doc("z", 3), doc("a", 2)]);
    let order: Vec<(u64, &str)> = sorted
        .iter()
        .map(|d| (d.timestamp_seconds, d.title.as_str()))
        .collect();
    assert_eq!(order, vec![(3, "c"), (3, "z"), (2, "a"), (1, "a"), (1, "b")]);
    assert!(sort_documents(Vec::new()).is_empty());
    let upper = sort_documents(vec![doc("b", 0), doc("B", 0)]);
    assert_eq!(upper[0].title, "B");
}

#[test]
fn deletions_stay_inside_the_managed_directory() {
    assert!(check_document_path("/data/rustle/notes", "/data/rustle/notes/1_a.md").is_ok());
    assert_eq!(
        check_document_path("/data/rustle/notes", "/data/rustle/outside.md").unwrap_err(),
        "refusing to access /data/rustle/outside.md outside /data/rustle/notes"
    );
    assert!(check_document_path("/data/rustle/notes", "/data/rustle/notes-old/x.md").is_err());
    let env = PathEnv {
        xdg_data_home: Some("/data".to_owned()),
        xdg_config_home: None,
        home: None,
    };
    assert_eq!(
        document_base_dir(&Settings::default(), StoredDocumentKind::Transcript, &env).unwrap(),
        "/data/rustle/transcripts"
    );
    assert_eq!(
        document_base_dir(&Settings::default(), StoredDocumentKind::Note, &env).unwrap(),
        "/data/rustle/notes"
    );
}

#[test]
fn storage_loop_saves_notes_under_the_meeting_name() {
    let mut state = StorageState::new(&Settings::default());
    state.handle_event(AppEvent::MeetingStarted {
        id: 5,
        name: "Planning".to_owned(),
        source: DetectionSource::Manual,
    });
    let StorageAction::SaveNotes {
        meeting_id,
        meeting_name,
        content,
    } = state.handle_event(AppEvent::SummarisationReady {
        meeting_id: 5,
        notes: notes("S", ""),
    })
    else {
        panic!("expected notes to be saved");
    };
    assert_eq!(meeting_id, 5);
    assert_eq!(meeting_name, "Planning");
    assert_eq!(content, "# Meeting Notes\n\n## Summary\n\nS\n");
    let StorageAction::SaveNotes { meeting_name, .. } = state.handle_event(AppEvent::SummarisationReady {
        meeting_id: 5,
        notes: notes("S", "# x"),
    }) else {
        panic!("expected notes to be saved");
    };
    assert_eq!(meeting_name, "Meeting");
    assert!(matches!(
        state.handle_event(AppEvent::DeleteDocumentRequested {
            path: "/n/a.md".to_owned(),
            kind: StoredDocumentKind::Note
        }),
        StorageAction::DeleteDocument { kind: StoredDocumentKind::Note, .. }
    ));
    assert!(matches!(state.handle_event(AppEvent::QuitRequested), StorageAction::Stop));
}

#[test]
fn benchmark_runs_and_reports() {
    let models = benchmark_models();
    assert_eq!(models.len(), 4);
    assert_eq!(models[0].repo, "bartowski/SmolLM2-360M-Instruct-GGUF");
    let settings = benchmark_settings(&models[1]);
    assert_eq!(settings.ai.provider, AiProvider::LlamaCpp);
    assert_eq!(settings.ai.hf_model_file, "qwen2.5-0.5b-instruct-q4_k_m.gguf");
    assert_eq!(
        model_source(&settings),
        "hf:Qwen/Qwen2.5-0.5B-Instruct-GGUF#qwen2.5-0.5b-instruct-q4_k_m.gguf"
    );
    let mut ollama = Settings::default();
    ollama.ai.provider = AiProvider::Ollama;
    ollama.ai.hf_repo.clear();
    assert_eq!(model_source(&ollama), "http://localhost:11434");
    ollama.ai.model_path = "/m.gguf".to_owned();
    assert_eq!(model_source(&ollama), "path:/m.gguf");

    assert_eq!(benchmark_timeout_secs(None), DEFAULT_BENCHMARK_TIMEOUT_SECS);
    assert_eq!(benchmark_timeout_secs(Some("0")), 30);
    assert_eq!(benchmark_timeout_secs(Some("45")), 45);
    assert_eq!(benchmark_timeout_secs(Some("x")), 30);

    assert_eq!(preview("# Meeting Notes\n\n## Summary\n  Short.  "), "Short.");
    assert_eq!(preview("# only"), "No preview available.");
    assert_eq!(preview(&"a".repeat(200)).chars().count(), 120);

    let ready = benchmark_result(&settings, 5, 7, Some(notes("Done", "# Meeting Notes\n\nDone")), 30);
    assert_eq!(ready.status, BenchmarkStatus::Ready);
    assert_eq!(ready.output_chars, 21);
    assert_eq!(ready.preview, "Done");
    let fallback = benchmark_result(&settings, 5, 7, Some(notes("Summary unavailable", "x")), 30);
    assert_eq!(fallback.status.label(), "fallback");
    let timed_out = benchmark_result(&settings, 5, 7, None, 30);
    assert_eq!(timed_out.status.label(), "timed-out");
    assert_eq!(
        timed_out.preview,
        "benchmark timed out after 30s; set RUSTLE_BENCH_TIMEOUT_SECS to raise the limit"
    );
    assert!(matches!(BenchmarkProgress::Finished(&timed_out), BenchmarkProgress::Finished(_)));
    assert!(matches!(BenchmarkProgress::Starting("repo"), BenchmarkProgress::Starting("repo")));
}
