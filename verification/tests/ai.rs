use rustle::ai::{
    canonical_section_name, ensure_title, finish_generation, is_acceptable_markdown,
    llama_model_location, llama_user_prompt, looks_degenerate, needs_warm_up,
    normalise_markdown, normalise_section_headings, notes_from_markdown, ollama_http_request,
    ollama_prompt, ollama_request, ollama_response_markdown, parse_endpoint, provider_status,
    strip_outer_code_fences, strip_transcript_sections, summarisation_events,
    summarisation_outcome, summarisation_warning_notification, summarise_with_reason,
    summary_line, transcript_text, AiAction, AiState, ModelLocation, OllamaEndpoint,
    HOSTED_PROVIDER_REASON,
};
use rustle::{AiProvider, AppEvent, DetectionSource, NotificationUrgency, Settings, TranscriptSegment};

fn segment(text: &str) -> TranscriptSegment {
    TranscriptSegment {
        start_ms: 0,
        end_ms: 0,
        text: text.to_owned(),
    }
}

#[test]
fn accepts_bold_section_labels_from_model_output() {
    let markdown = normalise_markdown(
        "**Summary**\nA short summary.\n\n**Key Decisions**\n- Keep the manual transcript flow.",
    )
    .expect("markdown should be accepted");

    assert!(markdown.starts_with("# Meeting Notes"));
    assert!(markdown.contains("## Summary"));
    assert!(markdown.contains("## Key Decisions"));
    assert!(markdown.contains("A short summary."));
}

#[test]
fn fallback_notes_include_reason_without_transcript() {
    let notes = summarise_with_reason(
        "Alex: We agreed to keep the manual transcript flow for the MVP.",
        "llama.cpp summarisation unavailable",
    );

    assert!(notes.markdown.contains("## Warning"));
    assert!(notes
        .markdown
        .contains("Transcript draft remains available separately"));
    assert!(!notes.markdown.contains("## Transcript"));
    assert!(!notes.markdown.contains("Alex: We agreed"));
}

#[test]
fn markdown_notes_use_first_non_heading_line_as_summary() {
    let notes = notes_from_markdown(
        "# Meeting Notes\n\nA short summary line.\n\n## Action Items\n\n- Follow up".to_owned(),
        "Alex: Follow up on the manual transcript flow.",
    );

    assert_eq!(notes.summary, "A short summary line.");
    assert!(notes.markdown.contains("- Follow up"));
    assert!(!notes.markdown.contains("## Transcript"));
    assert!(!notes
        .markdown
        .contains("Alex: Follow up on the manual transcript flow."));
}

#[test]
fn markdown_notes_strip_generated_transcript_breakdown() {
    let notes = notes_from_markdown(
        "# Meeting Notes\n\n## Summary\n\nGrounded summary.\n\n**Transcript Breakdown**\n\nGenerated transcript-like content.".to_owned(),
        "Actual transcript text.",
    );

    assert!(!notes.markdown.contains("Transcript Breakdown"));
    assert!(!notes.markdown.contains("Generated transcript-like content"));
    assert!(!notes.markdown.contains("## Transcript"));
    assert!(!notes.markdown.contains("Actual transcript text."));
}

#[test]
fn summarisation_warning_notification_mentions_fallback() {
    let AppEvent::NotificationRequested {
        title,
        body,
        urgency,
    } = summarisation_warning_notification(
        "Roadmap Review",
        "llama.cpp summarisation unavailable: timed out",
    )
    else {
        panic!("expected notification event");
    };

    assert_eq!(title, "Notes fallback saved");
    assert_eq!(urgency, NotificationUrgency::Critical);
    assert!(body.contains("Roadmap Review"));
    assert!(body.contains("fallback notes"));
    assert!(body.contains("timed out"));
}

#[test]
fn transcript_sections_end_at_the_next_heading() {
    assert_eq!(
        strip_transcript_sections("# Meeting Notes\n\n## Transcript\nA: hi\nB: hey\n## Attendees\n- A\n"),
        "# Meeting Notes\n\n## Attendees\n- A"
    );
    assert_eq!(summary_line("# Title\n\n## Summary\n"), "Summary unavailable");
    assert_eq!(summary_line("  \n  first line  \nsecond"), "first line");
}

#[test]
fn section_headings_are_recognised_in_any_style() {
    assert_eq!(canonical_section_name("**Summary**"), Some("Summary"));
    assert_eq!(canonical_section_name("### key decisions:"), Some("Key Decisions"));
    assert_eq!(canonical_section_name("__Action Items__"), Some("Action Items"));
    assert_eq!(canonical_section_name("Attendees"), Some("Attendees"));
    assert_eq!(canonical_section_name("## Transcript"), Some("Transcript"));
    assert_eq!(canonical_section_name("Summary of decisions"), None);
    assert_eq!(canonical_section_name("   "), None);
    assert_eq!(
        normalise_section_headings("**Summary**\ntext\r\nKey decisions:"),
        "## Summary\ntext\n## Key Decisions"
    );
    assert_eq!(ensure_title("  # Meeting Notes\nx  "), "# Meeting Notes\nx");
    assert_eq!(ensure_title("## Summary"), "# Meeting Notes\n\n## Summary");
}

#[test]
fn markdown_structure_is_checked() {
    assert!(is_acceptable_markdown("## Summary\nx\n## Attendees\n"));
    assert!(is_acceptable_markdown("# Meeting Notes\n\nplain text"));
    assert!(!is_acceptable_markdown("## Summary\n## Attendees"));
    assert!(!is_acceptable_markdown("# Other\n\ntext"));
    assert_eq!(
        normalise_markdown("  markdown ").unwrap_err(),
        "llama.cpp generation produced empty markdown"
    );
    assert_eq!(
        normalise_markdown("# Heading only").unwrap_err(),
        "llama.cpp generation produced invalid markdown structure"
    );
}

#[test]
fn generation_output_is_checked_and_unfenced() {
    assert_eq!(
        finish_generation("   ").unwrap_err(),
        "llama.cpp generation produced no text"
    );
    assert!(looks_degenerate("a\na\na\nb"));
    assert!(looks_degenerate("a\nb\na\nb\na\nb"));
    assert!(!looks_degenerate("a\nb\nc\nd"));
    assert!(!looks_degenerate("a\na\na"));
    assert_eq!(
        finish_generation("x\nx\nx\nx").unwrap_err(),
        "llama.cpp generation produced degenerate repetitive output"
    );
    assert_eq!(
        strip_outer_code_fences("```markdown\n## Summary\nok\n```"),
        "## Summary\nok"
    );
    assert_eq!(strip_outer_code_fences("  plain  "), "plain");
    assert_eq!(
        finish_generation("```\n## Summary\nok\n## Attendees\n- A\n```").unwrap(),
        "# Meeting Notes\n\n## Summary\nok\n## Attendees\n- A"
    );
}

#[test]
fn prompts_carry_the_trimmed_transcript() {
    assert!(llama_user_prompt("  A: hi \n").ends_with("Transcript:\nA: hi"));
    let prompt = ollama_prompt("Be brief.", " A: hi ");
    assert!(prompt.starts_with("Be brief.\n\nReturn Markdown"));
    assert!(prompt.ends_with("Transcript:\nA: hi"));
}

#[test]
fn llama_models_come_from_a_path_or_hugging_face() {
    let mut settings = Settings::default();
    assert_eq!(
        llama_model_location(&settings).unwrap(),
        ModelLocation::HuggingFace {
            repo: "Qwen/Qwen2.5-3B-Instruct-GGUF".to_owned(),
            file: "qwen2.5-3b-instruct-q4_k_m.gguf".to_owned()
        }
    );
    settings.ai.model_path = " /m/model.gguf ".to_owned();
    assert_eq!(
        llama_model_location(&settings).unwrap(),
        ModelLocation::File("/m/model.gguf".to_owned())
    );
    settings.ai.model_path.clear();
    settings.ai.hf_repo.clear();
    settings.ai.model = "plain-model".to_owned();
    assert_eq!(
        llama_model_location(&settings).unwrap_err(),
        "llama.cpp requires `ai.model_path` or Hugging Face repo metadata"
    );
    settings.ai.hf_repo = "norepo".to_owned();
    assert_eq!(
        llama_model_location(&settings).unwrap_err(),
        "invalid Hugging Face model repo `norepo`"
    );
    settings.ai.hf_model_file.clear();
    assert_eq!(
        llama_model_location(&settings).unwrap_err(),
        "llama.cpp requires `ai.hf_model_file` when downloading from Hugging Face"
    );
    assert!(provider_status().unwrap_err().contains("provider-llama-cpp"));
    assert!(needs_warm_up(&Settings::default()));
}

#[test]
fn ollama_endpoints_are_parsed() {
    assert_eq!(
        parse_endpoint(" http://localhost:11434/ ").unwrap(),
        OllamaEndpoint {
            host: "localhost".to_owned(),
            port: 11434,
            path: "/api/generate".to_owned()
        }
    );
    assert_eq!(parse_endpoint("http://gpu-box").unwrap().port, 11434);
    assert_eq!(parse_endpoint("http://gpu-box:8080/x/y").unwrap().port, 8080);
    assert_eq!(
        parse_endpoint("https://x").unwrap_err(),
        "only http:// Ollama endpoints are supported"
    );
    assert_eq!(
        parse_endpoint("http://:80").unwrap_err(),
        "Ollama endpoint is missing a host"
    );
    assert_eq!(
        parse_endpoint("http://h:").unwrap_err(),
        "cannot parse integer from empty string"
    );
    assert_eq!(
        parse_endpoint("http://h:8x").unwrap_err(),
        "invalid digit found in string"
    );
    assert_eq!(
        parse_endpoint("http://h:70000").unwrap_err(),
        "number too large to fit in target type"
    );
}

#[test]
fn ollama_requests_and_replies() {
    let endpoint = OllamaEndpoint {
        host: "h".to_owned(),
        port: 1,
        path: "/api/generate".to_owned(),
    };
    assert_eq!(
        ollama_http_request(&endpoint, "{\"a\":\"é\"}"),
        "POST /api/generate HTTP/1.1\r\nHost: h\r\nContent-Type: application/json\r\nContent-Length: 10\r\nConnection: close\r\n\r\n{\"a\":\"é\"}"
    );
    let mut settings = Settings::default();
    settings.ai.provider = AiProvider::Ollama;
    settings.ai.model = "llama3".to_owned();
    settings.ai.system_prompt = "Sys".to_owned();
    let request = ollama_request(&settings, "A: \"hi\"").unwrap();
    assert_eq!(request.endpoint.host, "localhost");
    assert!(request
        .request
        .contains("\r\n\r\n{\"model\":\"llama3\",\"prompt\":\"Sys\\n\\nReturn Markdown"));
    assert!(request.request.ends_with("A: \\\"hi\\\"\",\"stream\":false}"));
    assert_eq!(
        ollama_request(&settings, "  ").unwrap_err(),
        "transcript is empty"
    );

    assert_eq!(
        ollama_response_markdown("HTTP/1.1 200 OK\r\n\r\n{\"response\":\"  ## Summary\\nok  \"}").unwrap(),
        "## Summary\nok"
    );
    assert_eq!(
        ollama_response_markdown("HTTP/1.1 200 OK").unwrap_err(),
        "Ollama response did not include an HTTP body"
    );
    assert_eq!(
        ollama_response_markdown("H\r\n\r\n{\"done\":true}").unwrap_err(),
        "Ollama response did not include generated text"
    );
    assert!(ollama_response_markdown("H\r\n\r\nnot json")
        .unwrap_err()
        .starts_with("invalid Ollama JSON: "));
}

#[test]
fn provider_outcomes_and_events() {
    let ok = summarisation_outcome(
        AiProvider::Ollama,
        Ok("# Meeting Notes\n\nDone.".to_owned()),
        "t",
    );
    assert!(ok.warning.is_none());
    assert_eq!(ok.notes.summary, "Done.");
    let failed = summarisation_outcome(AiProvider::LlamaCpp, Err("boom".to_owned()), "t");
    assert_eq!(
        failed.warning.as_deref(),
        Some("llama.cpp summarisation unavailable: boom")
    );
    assert_eq!(failed.notes.summary, "Summary unavailable");
    let hosted = summarisation_outcome(AiProvider::Openai, Ok("ignored".to_owned()), "t");
    assert_eq!(hosted.warning.as_deref(), Some(HOSTED_PROVIDER_REASON));
    assert!(hosted.notes.markdown.contains("not supported in Rustle v0.1"));

    let events = summarisation_events(4, "Sync", hosted);
    assert_eq!(events.len(), 2);
    assert!(matches!(&events[0], AppEvent::NotificationRequested { body, .. } if body.contains("fallback notes for Sync")));
    assert!(matches!(events[1], AppEvent::SummarisationReady { meeting_id: 4, .. }));
    assert_eq!(summarisation_events(4, "Sync", ok).len(), 1);
}

#[test]
fn transcript_text_joins_non_blank_segments() {
    assert_eq!(
        transcript_text(&vec![segment(" A: hi "), segment("  "), segment("B: yo")]),
        "A: hi\nB: yo"
    );
    assert_eq!(transcript_text(&Vec::new()), "");
}

#[test]
fn summarisation_loop_names_meetings() {
    let mut state = AiState::new();
    state.handle_event(AppEvent::MeetingStarted {
        id: 2,
        name: "Retro".to_owned(),
        source: DetectionSource::Manual,
    });
    let AiAction::Summarise {
        meeting_id,
        meeting_name,
        transcript,
    } = state.handle_event(AppEvent::TranscriptionReady {
        meeting_id: 2,
        segments: vec![segment("A: hi")],
    })
    else {
        panic!("expected summarisation");
    };
    assert_eq!((meeting_id, meeting_name.as_str(), transcript.as_str()), (2, "Retro", "A: hi"));
    let AiAction::Summarise { meeting_name, .. } = state.handle_event(AppEvent::TranscriptionReady {
        meeting_id: 3,
        segments: Vec::new(),
    }) else {
        panic!("expected summarisation");
    };
    assert_eq!(meeting_name, "Meeting");
    assert!(matches!(
        state.handle_event(AppEvent::SettingsChanged(Settings::default())),
        AiAction::WarmUp
    ));
    assert!(matches!(state.handle_event(AppEvent::QuitRequested), AiAction::Stop));
}

#[test]
fn ollama_request_escapes_strings_as_json() {
    let mut settings = Settings::default();
    settings.ai.provider = AiProvider::Ollama;
    settings.ai.model = "m\\1".to_owned();
    settings.ai.system_prompt = "S".to_owned();
    let request = ollama_request(&settings, "a\tb\u{1}c\u{7f}é/").unwrap();
    assert!(request.request.contains("{\"model\":\"m\\\\1\",\"prompt\":\"S\\n\\nReturn"));
    assert!(request
        .request
        .ends_with("Transcript:\\na\\tb\\u0001c\u{7f}é/\",\"stream\":false}"));
}
