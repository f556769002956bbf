use rustle::notifications::{
    dispatch_notification, meeting_started_notification, notes_ready_notification,
    recording_started_notification, NotificationPayload, NotificationState,
};
use rustle::{AppEvent, DetectionSource, NotificationUrgency};

#[test]
fn meeting_started_notification_uses_detection_source() {
    let detected = meeting_started_notification("Design Review", DetectionSource::Hyprland);
    let manual = meeting_started_notification("Design Review", DetectionSource::Manual);

    assert_eq!(detected.title, "Meeting detected");
    assert!(detected.body.contains("detected Design Review"));
    assert_eq!(manual.title, "Meeting started");
    assert!(manual.body.contains("started Design Review"));
}

#[test]
fn notes_ready_notification_uses_filename_when_available() {
    let payload = notes_ready_notification("Planning Sync", "/tmp/1779300000_planning_sync.md");

    assert_eq!(payload.title, "Meeting notes ready");
    assert!(payload.body.contains("Planning Sync"));
    assert!(payload.body.contains("1779300000_planning_sync.md"));
}

#[test]
fn dispatch_notification_returns_false_when_delivery_fails() {
    let payload = recording_started_notification("Weekly Sync");

    let delivered = dispatch_notification(&payload, |_| Err("dbus unavailable".to_owned()));

    assert!(!delivered);
}

#[test]
fn notification_texts_are_exact() {
    assert_eq!(
        meeting_started_notification("Sync", DetectionSource::Hyprland).body,
        "Rustle detected Sync in Microsoft Teams."
    );
    assert_eq!(
        meeting_started_notification("Sync", DetectionSource::Manual).body,
        "Rustle started Sync."
    );
    assert_eq!(
        recording_started_notification("Sync"),
        NotificationPayload {
            title: "Recording started".to_owned(),
            body: "Rustle is recording audio for Sync.".to_owned(),
            urgency: NotificationUrgency::Normal,
        }
    );
    assert_eq!(
        notes_ready_notification("Sync", "/").body,
        "Rustle saved notes for Sync to saved note."
    );
    assert!(dispatch_notification(&recording_started_notification("x"), |_| Ok(())));
}

#[test]
fn notification_loop_remembers_names_until_notes_are_saved() {
    let mut state = NotificationState::new();
    let step = state.handle_event(AppEvent::RecordingStarted { meeting_id: 1 });
    assert_eq!(
        step.payload.unwrap().body,
        "Rustle is recording audio for Meeting."
    );
    state.handle_event(AppEvent::MeetingStarted {
        id: 1,
        name: "First".to_owned(),
        source: DetectionSource::Manual,
    });
    state.handle_event(AppEvent::MeetingStarted {
        id: 1,
        name: "Renamed".to_owned(),
        source: DetectionSource::Manual,
    });
    let step = state.handle_event(AppEvent::RecordingStarted { meeting_id: 1 });
    assert_eq!(
        step.payload.unwrap().body,
        "Rustle is recording audio for Renamed."
    );
    let step = state.handle_event(AppEvent::NoteSaved {
        meeting_id: 1,
        path: "/n/1_renamed.md".to_owned(),
    });
    assert_eq!(
        step.payload.unwrap().body,
        "Rustle saved notes for Renamed to 1_renamed.md."
    );
    let step = state.handle_event(AppEvent::RecordingStarted { meeting_id: 1 });
    assert_eq!(
        step.payload.unwrap().body,
        "Rustle is recording audio for Meeting."
    );
    let step = state.handle_event(AppEvent::NotificationRequested {
        title: "T".to_owned(),
        body: "B".to_owned(),
        urgency: NotificationUrgency::Critical,
    });
    assert_eq!(step.payload.unwrap().urgency, NotificationUrgency::Critical);
    assert!(state.handle_event(AppEvent::OpenNotesRequested).payload.is_none());
    assert!(state.handle_event(AppEvent::QuitRequested).stop);
}
