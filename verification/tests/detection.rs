use rustle::detection::{
    apply_detected_candidate, hyprland_socket_candidates, hyprland_socket_path_from_signature,
    is_meeting_title_allowed, is_relevant_hyprland_event, log_listener_transition,
    meeting_candidate_from_client, next_reconnect_delay, normalize_meeting_name, normalized_title_segment,
    order_by_existence,
    select_meeting_candidate, DetectedMeeting, DetectionState, HyprlandClient, ListenerMode,
    ListenerTransition, MeetingCandidate, HYPRLAND_MAX_RECONNECT_DELAY_SECS,
    HYPRLAND_RECONNECT_DELAY_SECS,
};
use rustle::{AppEvent, DetectionSource, Settings};

fn client(address: &str, class_name: &str, title: &str) -> HyprlandClient {
    HyprlandClient {
        address: address.to_owned(),
        class_name: class_name.to_owned(),
        initial_class: class_name.to_owned(),
        title: title.to_owned(),
        initial_title: title.to_owned(),
        mapped: true,
        hidden: false,
    }
}

#[test]
fn detects_meeting_candidate_from_title_match() {
    let clients = vec![
        client("0x123", "firefox", "Docs"),
        client("0x456", "chromium", "Planning Sync | Microsoft Teams"),
    ];

    let candidate = select_meeting_candidate(&clients).expect("meeting candidate should exist");

    assert_eq!(candidate.address, "0x456");
    assert_eq!(candidate.name, "Planning Sync");
    assert_eq!(candidate.score, 2);
}

#[test]
fn rejects_class_only_windows_without_teams_in_title() {
    let clients = vec![client("0xabc", "teams-for-linux", "Daily Sync")];

    assert_eq!(select_meeting_candidate(&clients), None);
}

#[test]
fn strips_common_teams_title_suffixes() {
    assert_eq!(
        normalize_meeting_name("Weekly Sync | Microsoft Teams"),
        Some("Weekly Sync".to_owned())
    );
    assert_eq!(
        normalize_meeting_name("Standup - Microsoft Teams"),
        Some("Standup".to_owned())
    );
}

#[test]
fn strips_browser_and_web_suffixes_from_teams_titles() {
    assert_eq!(
        normalize_meeting_name("Planning Sync | Microsoft Teams | Google Chrome"),
        Some("Planning Sync".to_owned())
    );
    assert_eq!(
        normalize_meeting_name("Design Review | teams.microsoft.com - Chromium"),
        Some("Design Review".to_owned())
    );
}

#[test]
fn rejects_non_meeting_navigation_titles() {
    let clients = vec![client(
        "0xabc",
        "teams-for-linux",
        "Calendar | Brent Wallace | Microsoft Teams",
    )];

    assert_eq!(select_meeting_candidate(&clients), None);
    assert!(!is_meeting_title_allowed("Calendar | Brent Wallace"));
    assert!(!is_meeting_title_allowed("(1) Calendar | Brent Wallace"));
    assert!(!is_meeting_title_allowed("(1) Activity | Brent Wallace"));
    assert!(!is_meeting_title_allowed("(1) Chat | Justin Gilmour"));
    assert!(!is_meeting_title_allowed(
        "(1) Chat | Meeting compact view | Krishna Kongara"
    ));
    assert!(!is_meeting_title_allowed("Waiting for network..."));
    assert!(!is_meeting_title_allowed("Teams and Channels"));
    assert!(!is_meeting_title_allowed("Microsoft Teams"));
    assert!(!is_meeting_title_allowed("Chat | teams.microsoft.com"));
}

#[test]
fn accepts_regular_meeting_titles_without_navigation_prefixes() {
    let clients = vec![client(
        "0xabc",
        "teams-for-linux",
        "Sprint Planning | Microsoft Teams",
    )];

    let candidate = select_meeting_candidate(&clients).expect("meeting candidate should exist");

    assert_eq!(candidate.name, "Sprint Planning");
    assert!(is_meeting_title_allowed("Sprint Planning"));
}

#[test]
fn detects_web_meeting_titles_with_browser_suffixes() {
    let clients = vec![client(
        "0xabc",
        "chromium",
        "Roadmap Review | Microsoft Teams | Google Chrome",
    )];

    let candidate = select_meeting_candidate(&clients).expect("meeting candidate should exist");

    assert_eq!(candidate.name, "Roadmap Review");
    assert_eq!(candidate.score, 2);
}

#[test]
fn filters_relevant_hyprland_events() {
    assert!(is_relevant_hyprland_event("openwindow>>payload"));
    assert!(is_relevant_hyprland_event("windowtitlev2>>payload"));
    assert!(!is_relevant_hyprland_event("workspace>>payload"));
    assert!(!is_relevant_hyprland_event("malformed"));
}

#[test]
fn builds_hyprland_socket_path_from_signature() {
    assert_eq!(
        hyprland_socket_path_from_signature("abc123"),
        "/tmp/hypr/abc123/.socket2.sock"
    );
}

#[test]
fn prefers_xdg_runtime_dir_candidate() {
    let candidates = hyprland_socket_candidates("abc123", Some("/run/user/1000"));

    assert_eq!(
        candidates.first().map(String::as_str),
        Some("/run/user/1000/hypr/abc123/.socket2.sock")
    );
    assert!(candidates.contains(&"/tmp/hypr/abc123/.socket2.sock".to_owned()));
}

#[test]
fn reconnect_delay_backs_off_and_caps() {
    assert_eq!(next_reconnect_delay(1), HYPRLAND_RECONNECT_DELAY_SECS);
    assert_eq!(next_reconnect_delay(HYPRLAND_RECONNECT_DELAY_SECS), 10);
    assert_eq!(next_reconnect_delay(45), HYPRLAND_MAX_RECONNECT_DELAY_SECS);
    assert_eq!(
        next_reconnect_delay(HYPRLAND_MAX_RECONNECT_DELAY_SECS),
        HYPRLAND_MAX_RECONNECT_DELAY_SECS
    );
}

#[test]
fn spec_017_release_contract_covers_detection_state_transitions() {
    let mut active_meeting = None;

    let events = apply_detected_candidate(
        &mut active_meeting,
        Some(MeetingCandidate {
            address: "0xabc".to_owned(),
            name: "Roadmap Review".to_owned(),
            score: 2,
        }),
        7,
    );

    assert_eq!(events.len(), 1);
    let started_id = match &events[0] {
        AppEvent::MeetingStarted { id, name, source } => {
            assert_eq!(name, "Roadmap Review");
            assert_eq!(*source, DetectionSource::Hyprland);
            *id
        }
        other => panic!("expected MeetingStarted event, got {other:?}"),
    };

    let events = apply_detected_candidate(
        &mut active_meeting,
        Some(MeetingCandidate {
            address: "0xabc".to_owned(),
            name: "Roadmap Review (Renamed)".to_owned(),
            score: 2,
        }),
        8,
    );

    assert_eq!(
        active_meeting.as_ref().map(|meeting| meeting.name.as_str()),
        Some("Roadmap Review (Renamed)")
    );
    assert!(events.is_empty());

    let events = apply_detected_candidate(&mut active_meeting, None, 9);

    assert_eq!(events.len(), 1);
    assert!(matches!(
        events[0],
        AppEvent::MeetingEnded { id } if id == started_id
    ));
    assert!(active_meeting.is_none());
}

#[test]
fn chat_window_without_teams_title_is_not_meeting() {
    let clients = vec![client("0xabc", "teams-for-linux", "Chat | Brent Wallace")];

    assert_eq!(select_meeting_candidate(&clients), None);
}

#[test]
fn chat_window_with_teams_suffix_in_title_is_not_meeting() {
    let clients = vec![client(
        "0xabc",
        "teams-for-linux",
        "Chat | Brent Wallace | Microsoft Teams",
    )];

    assert_eq!(select_meeting_candidate(&clients), None);
}

#[test]
fn chat_segment_after_contact_name_is_not_meeting() {
    let clients = vec![client(
        "0xabc",
        "teams-for-linux",
        "Brent Wallace | Chat | Microsoft Teams",
    )];

    assert_eq!(select_meeting_candidate(&clients), None);
    assert!(!is_meeting_title_allowed("Brent Wallace | Chat"));
}

#[test]
fn real_meeting_window_with_teams_in_title_is_detected() {
    let clients = vec![client(
        "0xabc",
        "teams-for-linux",
        "Sprint Planning | Microsoft Teams",
    )];

    let candidate = select_meeting_candidate(&clients).expect("meeting candidate should exist");

    assert_eq!(candidate.name, "Sprint Planning");
    assert_eq!(candidate.score, 2);
}

#[test]
fn browser_teams_meeting_is_detected() {
    let clients = vec![client(
        "0xabc",
        "chromium",
        "Roadmap Review | Microsoft Teams | Google Chrome",
    )];

    let candidate = select_meeting_candidate(&clients).expect("meeting candidate should exist");

    assert_eq!(candidate.name, "Roadmap Review");
    assert_eq!(candidate.score, 2);
}

#[test]
fn teams_desktop_window_with_plain_chat_title_is_rejected() {
    let clients = vec![client("0xabc", "teams-for-linux", "Brent Wallace")];

    assert_eq!(select_meeting_candidate(&clients), None);
}

#[test]
fn spec_022_chat_window_does_not_trigger_meeting_flow() {
    let mut active_meeting: Option<DetectedMeeting> = None;

    let chat_clients = vec![
        client("0x111", "firefox", "GitHub"),
        client("0x222", "teams-for-linux", "Chat | User Name"),
    ];
    let chat_candidate = select_meeting_candidate(&chat_clients);
    assert!(
        chat_candidate.is_none(),
        "chat window should not produce a meeting candidate"
    );

    let events = apply_detected_candidate(&mut active_meeting, chat_candidate, 1);
    assert!(
        active_meeting.is_none(),
        "no meeting should be active after chat window"
    );
    assert!(events.is_empty(), "chat window must not emit any events");

    let chat_with_suffix = vec![client(
        "0x333",
        "teams-for-linux",
        "Chat | User Name | Microsoft Teams",
    )];
    let chat_suffix_candidate = select_meeting_candidate(&chat_with_suffix);
    assert!(
        chat_suffix_candidate.is_none(),
        "chat window with Teams suffix should not produce a meeting candidate"
    );
    let events = apply_detected_candidate(&mut active_meeting, chat_suffix_candidate, 2);
    assert!(active_meeting.is_none());
    assert!(
        events.is_empty(),
        "chat window with suffix must not emit any events"
    );

    let meeting_clients = vec![
        client("0x444", "firefox", "GitHub"),
        client(
            "0x555",
            "teams-for-linux",
            "Sprint Planning | Microsoft Teams",
        ),
    ];
    let meeting_candidate = select_meeting_candidate(&meeting_clients);
    assert!(
        meeting_candidate.is_some(),
        "real meeting window should produce a meeting candidate"
    );

    let candidate = meeting_candidate.unwrap();
    assert_eq!(candidate.address, "0x555");
    assert_eq!(candidate.name, "Sprint Planning");
    assert_eq!(candidate.score, 2);

    let events = apply_detected_candidate(&mut active_meeting, Some(candidate), 3);
    assert!(
        active_meeting.is_some(),
        "meeting should be active after real meeting window"
    );

    assert_eq!(
        events.len(),
        1,
        "only one MeetingStarted event should have been emitted"
    );
    match &events[0] {
        AppEvent::MeetingStarted { id, name, source } => {
            assert_eq!(name, "Sprint Planning");
            assert_eq!(*source, DetectionSource::Hyprland);
            assert_eq!(active_meeting.as_ref().unwrap().id, *id);
        }
        other => panic!("expected MeetingStarted event, got {other:?}"),
    }
}

#[test]
fn meeting_name_with_special_characters_is_normalized() {
    let result = normalize_meeting_name("Q4 Planning (Final) | Microsoft Teams");
    assert_eq!(result, Some("Q4 Planning (Final)".to_owned()));
}

#[test]
fn empty_title_returns_none() {
    let c = client("0xabc", "teams-for-linux", "");
    assert_eq!(meeting_candidate_from_client(&c), None);
}

#[test]
fn whitespace_only_title_returns_none() {
    let c = client("0xabc", "teams-for-linux", "   ");
    assert_eq!(meeting_candidate_from_client(&c), None);
}

#[test]
fn multiple_meeting_windows_picks_highest_score() {
    let clients = vec![
        client(
            "0x111",
            "chromium",
            "Sprint Planning | Microsoft Teams | Google Chrome",
        ),
        client(
            "0x222",
            "teams-for-linux",
            "Daily Standup | Microsoft Teams",
        ),
    ];

    let candidate = select_meeting_candidate(&clients).expect("meeting candidate should exist");

    assert_eq!(candidate.score, 2);
    assert!(
        candidate.name == "Sprint Planning" || candidate.name == "Daily Standup",
        "expected one of the meeting names, got {:?}",
        candidate.name
    );
}

#[test]
fn strips_notification_badges_from_meeting_names() {
    assert_eq!(
        normalize_meeting_name("(1) Sprint Planning | Microsoft Teams"),
        Some("Sprint Planning".to_owned())
    );
    assert_eq!(
        normalize_meeting_name("(12) Design Review | Weekly Sync | Microsoft Teams"),
        Some("Design Review | Weekly Sync".to_owned())
    );
}

#[test]
fn log_derived_false_positive_titles_are_rejected() {
    for title in [
        "Waiting for network... | Microsoft Teams",
        "Teams and Channels | Microsoft Teams",
        "(1) Calendar | Sydney Crew | Microsoft Teams",
        "(1) Activity | Brent Wallace | Microsoft Teams",
        "(1) Chat | Justin Gilmour | Microsoft Teams",
        "(1) Chat | Meeting compact view | Krishna Kongara | Microsoft Teams",
    ] {
        let clients = vec![client("0xabc", "teams-for-linux", title)];
        assert_eq!(
            select_meeting_candidate(&clients),
            None,
            "{title} should not produce a meeting candidate"
        );
    }
}

#[test]
fn unread_count_prefix_still_allows_real_meeting_detection() {
    let clients = vec![client(
        "0xabc",
        "teams-for-linux",
        "(1) Sprint Planning | Microsoft Teams",
    )];

    let candidate = select_meeting_candidate(&clients).expect("meeting candidate should exist");
    assert_eq!(candidate.name, "Sprint Planning");
    assert_eq!(candidate.score, 2);
}

#[test]
fn log_derived_false_positive_titles_do_not_trigger_meeting_flow() {
    let mut active_meeting: Option<DetectedMeeting> = None;

    for title in [
        "Waiting for network... | Microsoft Teams",
        "Teams and Channels | Microsoft Teams",
        "(1) Calendar | Sydney Crew | Microsoft Teams",
        "(1) Activity | Brent Wallace | Microsoft Teams",
        "(1) Chat | Justin Gilmour | Microsoft Teams",
        "(1) Chat | Meeting compact view | Krishna Kongara | Microsoft Teams",
    ] {
        let candidate = select_meeting_candidate(&[client("0xabc", "teams-for-linux", title)]);
        let events = apply_detected_candidate(&mut active_meeting, candidate, 1);
        assert!(
            active_meeting.is_none(),
            "{title} should not activate a meeting"
        );
        assert!(events.is_empty(), "{title} should not emit MeetingStarted");
    }
}

#[test]
fn replacement_window_ends_previous_meeting_before_starting_new_one() {
    let mut active_meeting = None;
    apply_detected_candidate(
        &mut active_meeting,
        Some(MeetingCandidate {
            address: "0x1".to_owned(),
            name: "First".to_owned(),
            score: 2,
        }),
        11,
    );
    let events = apply_detected_candidate(
        &mut active_meeting,
        Some(MeetingCandidate {
            address: "0x2".to_owned(),
            name: "Second".to_owned(),
            score: 2,
        }),
        12,
    );
    assert_eq!(events.len(), 2);
    assert!(matches!(events[0], AppEvent::MeetingEnded { id: 11 }));
    assert!(matches!(&events[1], AppEvent::MeetingStarted { id: 12, name, .. } if name == "Second"));
    assert_eq!(active_meeting.map(|m| m.id), Some(12));
}

#[test]
fn hidden_and_unmapped_windows_are_ignored() {
    let mut hidden = client("0x1", "teams-for-linux", "Sprint Planning | Microsoft Teams");
    hidden.hidden = true;
    let mut unmapped = client("0x2", "teams-for-linux", "Sprint Planning | Microsoft Teams");
    unmapped.mapped = false;
    assert_eq!(select_meeting_candidate(&[hidden, unmapped]), None);
}

#[test]
fn blank_address_is_not_a_candidate() {
    let c = client("   ", "teams-for-linux", "Sprint Planning | Microsoft Teams");
    assert_eq!(meeting_candidate_from_client(&c), None);
}

#[test]
fn bare_teams_title_and_web_host_become_teams_label() {
    assert_eq!(
        normalize_meeting_name("Microsoft Teams"),
        Some("Microsoft Teams".to_owned())
    );
    assert_eq!(
        normalize_meeting_name("Chat | teams.microsoft.com"),
        Some("Chat".to_owned())
    );
    assert_eq!(normalize_meeting_name("   "), None);
}

#[test]
fn detection_loop_pauses_for_manual_meetings() {
    let settings = Settings::default();
    let mut state = DetectionState::new(&settings, true);
    let events = state.reconcile(
        Ok(Some(MeetingCandidate {
            address: "0xabc".to_owned(),
            name: "Standup".to_owned(),
            score: 2,
        })),
        5,
    );
    assert_eq!(events.len(), 1);

    let step = state.handle_event(&AppEvent::MeetingStarted {
        id: 99,
        name: "Manual".to_owned(),
        source: DetectionSource::Manual,
    });
    assert_eq!(step.publish.len(), 1);
    assert!(matches!(step.publish[0], AppEvent::MeetingEnded { id: 5 }));
    assert_eq!(state.external_meeting_id, Some(99));

    let events = state.reconcile(Ok(None), 6);
    assert!(events.is_empty());

    let step = state.handle_event(&AppEvent::MeetingEnded { id: 99 });
    assert!(step.refresh);
    assert_eq!(state.external_meeting_id, None);

    let step = state.handle_event(&AppEvent::QuitRequested);
    assert!(step.stop);
}

#[test]
fn disabling_auto_detect_ends_the_detected_meeting() {
    let mut settings = Settings::default();
    let mut state = DetectionState::new(&settings, true);
    state.reconcile(
        Ok(Some(MeetingCandidate {
            address: "0xabc".to_owned(),
            name: "Standup".to_owned(),
            score: 2,
        })),
        5,
    );
    settings.meeting.auto_detect = false;
    let step = state.handle_event(&AppEvent::SettingsChanged(settings.clone()));
    assert_eq!(step.publish.len(), 1);
    assert!(state.active_meeting.is_none());
    settings.meeting.auto_detect = true;
    let step = state.handle_event(&AppEvent::SettingsChanged(settings));
    assert!(step.refresh);
}

#[test]
fn listener_transitions_report_recovery_and_degradation() {
    let mut mode = ListenerMode::Polling;
    assert_eq!(
        log_listener_transition(&mut mode, ListenerMode::Polling),
        ListenerTransition::Unchanged
    );
    assert_eq!(
        log_listener_transition(&mut mode, ListenerMode::Connected),
        ListenerTransition::Recovered
    );
    assert_eq!(mode, ListenerMode::Connected);
    assert_eq!(
        log_listener_transition(&mut mode, ListenerMode::Polling),
        ListenerTransition::Degraded
    );
}

#[test]
fn title_segments_drop_badges_and_case() {
    assert_eq!(
        normalized_title_segment(&"(3) Chat".chars().collect::<Vec<char>>()),
        "chat".chars().collect::<Vec<char>>()
    );
}

#[test]
fn existing_sockets_are_tried_first() {
    let candidates = vec!["/run/a".to_owned(), "/tmp/b".to_owned(), "/tmp/c".to_owned()];
    assert_eq!(
        order_by_existence(&candidates, &vec![false, true, false]),
        vec!["/tmp/b".to_owned(), "/run/a".to_owned(), "/tmp/c".to_owned()]
    );
    assert_eq!(
        order_by_existence(&candidates, &vec![false, false, false]),
        candidates
    );
}
