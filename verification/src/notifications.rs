//! Desktop notifications: which workflow events are announced and with what
//! text. Delivering a notification is I/O and stands outside the library.

use vstd::prelude::*;

use crate::events::AppEvent;
use crate::names::{name_or_default, MeetingNames};
use crate::paths::{file_name, file_name_of};
use crate::types::{DetectionSource, NotificationUrgency};

verus! {

broadcast use vstd::seq_lib::group_seq_properties;

/// A notification to show.
#[derive(Debug, Clone, PartialEq, Eq)]
pub struct NotificationPayload {
    /// Summary line.
    pub title: String,
    /// Body text.
    pub body: String,
    /// Urgency.
    pub urgency: NotificationUrgency,
}

/// `p` has this title, body and urgency.
pub open spec fn payload_is(p: NotificationPayload, title: Seq<char>, body: Seq<char>, urgency: NotificationUrgency) -> bool {
    p.title@ == title && p.body@ == body && p.urgency == urgency
}

/// Title and body announcing a meeting, by what started it.
pub open spec fn meeting_started_text(name: Seq<char>, source: DetectionSource) -> (Seq<char>, Seq<char>) {
    match source {
        DetectionSource::Hyprland => ("Meeting detected"@, "Rustle detected "@ + name + " in Microsoft Teams."@),
        DetectionSource::Manual => ("Meeting started"@, "Rustle started "@ + name + "."@),
        _ => ("Meeting detected"@, "Rustle detected "@ + name + "."@),
    }
}

/// The notification that a meeting started.
pub fn meeting_started_notification(meeting_name: &str, source: DetectionSource) -> (r: NotificationPayload)
    ensures
        payload_is(
            r,
            meeting_started_text(meeting_name@, source).0,
            meeting_started_text(meeting_name@, source).1,
            NotificationUrgency::Normal,
        ),
{
    let (title, body) = match source {
        DetectionSource::Hyprland => {
            let mut body = "Rustle detected ".to_owned();
            body.append(meeting_name);
            body.append(" in Microsoft Teams.");
            ("Meeting detected", body)
        },
        DetectionSource::Manual => {
            let mut body = "Rustle started ".to_owned();
            body.append(meeting_name);
            body.append(".");
            ("Meeting started", body)
        },
        _ => {
            let mut body = "Rustle detected ".to_owned();
            body.append(meeting_name);
            body.append(".");
            ("Meeting detected", body)
        },
    };
    NotificationPayload { title: title.to_owned(), body, urgency: NotificationUrgency::Normal }
}

/// The notification that recording started.
pub fn recording_started_notification(meeting_name: &str) -> (r: NotificationPayload)
    ensures
        payload_is(
            r,
            "Recording started"@,
            "Rustle is recording audio for "@ + meeting_name@ + "."@,
            NotificationUrgency::Normal,
        ),
{
    let mut body = "Rustle is recording audio for ".to_owned();
    body.append(meeting_name);
    body.append(".");
    NotificationPayload { title: "Recording started".to_owned(), body, urgency: NotificationUrgency::Normal }
}

/// Where the notes went: the note's file name, or `saved note`.
pub open spec fn note_destination(path: Seq<char>) -> Seq<char> {
    match file_name_of(path) {
        Some(n) => n,
        None => "saved note"@,
    }
}

/// The notification that notes were saved.
pub fn notes_ready_notification(meeting_name: &str, path: &str) -> (r: NotificationPayload)
    ensures
        payload_is(
            r,
            "Meeting notes ready"@,
            "Rustle saved notes for "@ + meeting_name@ + " to "@ + note_destination(path@) + "."@,
            NotificationUrgency::Normal,
        ),
{
    let mut body = "Rustle saved notes for ".to_owned();
    body.append(meeting_name);
    body.append(" to ");
    match file_name(path) {
        Some(n) => body.append(n.as_str()),
        None => body.append("saved note"),
    }
    body.append(".");
    NotificationPayload { title: "Meeting notes ready".to_owned(), body, urgency: NotificationUrgency::Normal }
}

/// Hands a notification to `deliver` and reports whether it was shown.
pub fn dispatch_notification<F: FnOnce(&NotificationPayload) -> Result<(), String>>(payload: &NotificationPayload, deliver: F) -> (r: bool)
    requires
        deliver.requires((payload,)),
    ensures
        exists|outcome: Result<(), String>| deliver.ensures((payload,), outcome) && r == outcome is Ok,
{
    let outcome = deliver(payload);
    match outcome {
        Ok(()) => true,
        Err(_) => false,
    }
}

// ---------------------------------------------------------------------------
// The notification loop
// ---------------------------------------------------------------------------

/// What the notification loop does after an event.
#[derive(Debug)]
pub struct NotifyStep {
    /// A notification to deliver.
    pub payload: Option<NotificationPayload>,
    /// Whether the loop ends.
    pub stop: bool,
}

/// The notification loop remembers meeting names until their notes are saved.
#[derive(Debug)]
pub struct NotificationState {
    /// Names of the meetings announced so far.
    pub names: MeetingNames,
}

impl NotificationState {
    /// No names known.
    pub fn new() -> (r: Self)
        ensures
            r.names.names() == Map::<u128, Seq<char>>::empty(),
    {
        NotificationState { names: MeetingNames::new() }
    }

    /// Reacts to an event from the bus.
    pub fn handle_event(&mut self, event: AppEvent) -> (step: NotifyStep)
        ensures
            match event {
                AppEvent::MeetingStarted { id, name, source } => {
                    &&& final(self).names.names() == old(self).names.names().insert(id, name@)
                    &&& !step.stop
                    &&& step.payload matches Some(p) && payload_is(
                        p,
                        meeting_started_text(name@, source).0,
                        meeting_started_text(name@, source).1,
                        NotificationUrgency::Normal,
                    )
                },
                AppEvent::RecordingStarted { meeting_id } => {
                    &&& final(self).names.names() == old(self).names.names()
                    &&& !step.stop
                    &&& step.payload matches Some(p) && payload_is(
                        p,
                        "Recording started"@,
                        "Rustle is recording audio for "@ + name_or_default(old(self).names.names(), meeting_id) + "."@,
                        NotificationUrgency::Normal,
                    )
                },
                AppEvent::NoteSaved { meeting_id, path } => {
                    &&& final(self).names.names() == old(self).names.names().remove(meeting_id)
                    &&& !step.stop
                    &&& step.payload matches Some(p) && payload_is(
                        p,
                        "Meeting notes ready"@,
                        "Rustle saved notes for "@ + name_or_default(old(self).names.names(), meeting_id) + " to "@
                            + note_destination(path@) + "."@,
                        NotificationUrgency::Normal,
                    )
                },
                AppEvent::NotificationRequested { title, body, urgency } => final(self).names.names()
                    == old(self).names.names() && !step.stop && (step.payload matches Some(p) && payload_is(p, title@, body@, urgency)),
                AppEvent::QuitRequested => final(self).names.names() == old(self).names.names() && step.stop
                    && step.payload is None,
                _ => final(self).names.names() == old(self).names.names() && !step.stop && step.payload is None,
            },
    {
        match event {
            AppEvent::MeetingStarted { id, name, source } => {
                let payload = meeting_started_notification(name.as_str(), source);
                self.names.insert(id, name);
                NotifyStep { payload: Some(payload), stop: false }
            },
            AppEvent::RecordingStarted { meeting_id } => {
                let name = self.names.name_of(meeting_id);
                NotifyStep { payload: Some(recording_started_notification(name.as_str())), stop: false }
            },
            AppEvent::NoteSaved { meeting_id, path } => {
                let name = self.names.take(meeting_id);
                NotifyStep { payload: Some(notes_ready_notification(name.as_str(), path.as_str())), stop: false }
            },
            AppEvent::NotificationRequested { title, body, urgency } => NotifyStep {
                payload: Some(NotificationPayload { title, body, urgency }),
                stop: false,
            },
            AppEvent::QuitRequested => NotifyStep { payload: None, stop: true },
            _ => NotifyStep { payload: None, stop: false },
        }
    }
}

} // verus!
