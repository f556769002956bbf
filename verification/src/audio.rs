//! Audio capture decisions: which recorder runs, with which arguments, how
//! long each chunk lasts and what happens to a finished chunk.
//!
//! Launching the recorder, waiting on it and inspecting files are I/O and
//! stand outside the library; they report back through the state machines
//! below.

use vstd::prelude::*;

use crate::events::AppEvent;
use crate::numbers::{decimal, decimal_string, zero_padded, zero_padded_exec};
use crate::paths::{safe_filename, safe_filename_of};
use crate::settings::Settings;
use crate::text::{chars_of, eq, is_blank, lower, lower_exec, str_is_blank, string_of, trim, trim_exec};
use crate::types::strings_view;

verus! {

broadcast use vstd::seq_lib::group_seq_properties;

/// Sample rate requested from the recorder.
pub const RECORDING_SAMPLE_RATE: &'static str = "16000";

/// Channel count requested from the recorder.
pub const RECORDING_CHANNELS: &'static str = "1";

/// How often a running recorder is checked, in seconds.
pub const STOP_POLL_INTERVAL_SECS: u64 = 1;

/// Longest chunk, in seconds (one day).
pub const MAX_CHUNK_DURATION_SECS: u64 = 86400;

/// Largest chunk, in bytes (two tebibytes).
pub const MAX_CHUNK_BYTES: u64 = 2199023255552;

/// Size of a WAV header; a chunk no larger than this holds no audio.
pub const WAV_HEADER_BYTES: u64 = 44;

// ---------------------------------------------------------------------------
// Settings arithmetic
// ---------------------------------------------------------------------------

/// `min(max(x, lo), hi)` for `lo <= hi`.
pub open spec fn clamp(x: int, lo: int, hi: int) -> int {
    if x < lo {
        lo
    } else if x > hi {
        hi
    } else {
        x
    }
}

/// `x * k`, saturating at `u64::MAX`.
pub open spec fn saturating_times(x: int, k: int) -> int {
    if x * k > u64::MAX {
        u64::MAX as int
    } else {
        x * k
    }
}

/// Multiplies, saturating at `u64::MAX`.
fn saturating_mul(x: u64, k: u64) -> (r: u64)
    ensures
        r == saturating_times(x as int, k as int),
{
    match x.checked_mul(k) {
        Some(v) => v,
        None => u64::MAX,
    }
}

/// Chunk length in seconds for a setting in minutes: saturating, and kept
/// between one second and one day.
pub fn chunk_duration(minutes: u64) -> (secs: u64)
    ensures
        secs == clamp(saturating_times(minutes as int, 60), 1, MAX_CHUNK_DURATION_SECS as int),
{
    let s = saturating_mul(minutes, 60);
    if s < 1 {
        1
    } else if s > MAX_CHUNK_DURATION_SECS {
        MAX_CHUNK_DURATION_SECS
    } else {
        s
    }
}

/// Chunk size limit in bytes for a setting in megabytes: saturating, and
/// kept between one byte and two tebibytes.
pub fn recording_size_bytes(megabytes: u64) -> (bytes: u64)
    ensures
        bytes == clamp(
            saturating_times(saturating_times(megabytes as int, 1024), 1024),
            1,
            MAX_CHUNK_BYTES as int,
        ),
{
    let b = saturating_mul(saturating_mul(megabytes, 1024), 1024);
    if b < 1 {
        1
    } else if b > MAX_CHUNK_BYTES {
        MAX_CHUNK_BYTES
    } else {
        b
    }
}

/// How long the chunk timer runs: the chunk length, but at least one poll
/// interval.
pub fn chunk_timer_secs(chunk_secs: u64) -> (r: u64)
    ensures
        r == if chunk_secs < STOP_POLL_INTERVAL_SECS { STOP_POLL_INTERVAL_SECS } else { chunk_secs },
{
    if chunk_secs < STOP_POLL_INTERVAL_SECS {
        STOP_POLL_INTERVAL_SECS
    } else {
        chunk_secs
    }
}

// ---------------------------------------------------------------------------
// Recorders
// ---------------------------------------------------------------------------

/// A Linux command-line audio recorder.
#[derive(Debug, Clone, Copy, PartialEq, Eq, Structural)]
pub enum RecorderBackend {
    /// `pw-record`.
    PipeWire,
    /// `parecord`.
    PulseAudio,
    /// `arecord`.
    Alsa,
}

/// The program of a recorder.
pub open spec fn program_of(backend: RecorderBackend) -> Seq<char> {
    match backend {
        RecorderBackend::PipeWire => "pw-record"@,
        RecorderBackend::PulseAudio => "parecord"@,
        RecorderBackend::Alsa => "arecord"@,
    }
}

/// The program that a recorder backend runs.
pub fn recorder_program(backend: RecorderBackend) -> (r: &'static str)
    ensures
        r@ == program_of(backend),
{
    match backend {
        RecorderBackend::PipeWire => "pw-record",
        RecorderBackend::PulseAudio => "parecord",
        RecorderBackend::Alsa => "arecord",
    }
}

/// The first recorder that is installed, in the order PipeWire, PulseAudio,
/// ALSA.
pub fn select_recorder_backend(pipewire: bool, pulseaudio: bool, alsa: bool) -> (r: Option<RecorderBackend>)
    ensures
        r == if pipewire {
            Some(RecorderBackend::PipeWire)
        } else if pulseaudio {
            Some(RecorderBackend::PulseAudio)
        } else if alsa {
            Some(RecorderBackend::Alsa)
        } else {
            None
        },
{
    if pipewire {
        Some(RecorderBackend::PipeWire)
    } else if pulseaudio {
        Some(RecorderBackend::PulseAudio)
    } else if alsa {
        Some(RecorderBackend::Alsa)
    } else {
        None
    }
}

/// A regular file counts as executable when any execute bit is set.
pub fn is_executable_mode(is_file: bool, mode: u32) -> (r: bool)
    ensures
        r == (is_file && mode & 0o111u32 != 0),
{
    is_file && mode & 0o111u32 != 0
}

/// A device setting names a device unless it is blank or `default` in any
/// letter case.
pub open spec fn configured_device(device: Seq<char>) -> bool {
    trim(device).len() > 0 && lower(trim(device)) != "default"@
}

/// The recorder's arguments, ending with the output path.
pub open spec fn recorder_args(backend: RecorderBackend, device: Seq<char>, path: Seq<char>) -> Seq<Seq<char>> {
    let d = trim(device);
    let named = configured_device(device);
    match backend {
        RecorderBackend::PipeWire => seq![
            "--rate"@,
            RECORDING_SAMPLE_RATE@,
            "--channels"@,
            RECORDING_CHANNELS@,
            "--format"@,
            "s16"@,
        ] + (if named { seq!["--target"@, d] } else { Seq::empty() }) + seq![path],
        RecorderBackend::PulseAudio => seq![
            "--file-format=wav"@,
            "--format=s16le"@,
            "--rate="@ + RECORDING_SAMPLE_RATE@,
            "--channels="@ + RECORDING_CHANNELS@,
        ] + (if named { seq!["--device="@ + d] } else { Seq::empty() }) + seq![path],
        RecorderBackend::Alsa => seq![
            "-f"@,
            "S16_LE"@,
            "-r"@,
            RECORDING_SAMPLE_RATE@,
            "-c"@,
            RECORDING_CHANNELS@,
            "-t"@,
            "wav"@,
        ] + (if named { seq!["-D"@, d] } else { Seq::empty() }) + seq![path],
    }
}

/// A recorder invocation.
#[derive(Debug)]
pub struct RecorderCommand {
    /// The program to run.
    pub program: &'static str,
    /// Its arguments.
    pub args: Vec<String>,
}

/// Appends owned copies of string slices.
fn push_strs(args: &mut Vec<String>, items: &[&str])
    ensures
        strings_view(final(args)@) == strings_view(old(args)@) + items@.map_values(|s: &str| s@),
{
    let mut i: usize = 0;
    while i < items.len()
        invariant
            i <= items@.len(),
            strings_view(args@) == strings_view(old(args)@) + items@.take(i as int).map_values(
                |s: &str| s@,
            ),
        decreases items@.len() - i,
    {
        let ghost before = args@;
        args.push(items[i].to_owned());
        proof {
            assert(strings_view(args@) =~= strings_view(before).push(items@[i as int]@));
            assert(items@.take(i + 1).map_values(|s: &str| s@) =~= items@.take(i as int).map_values(
                |s: &str| s@,
            ).push(items@[i as int]@));
        }
        i += 1;
    }
    assert(items@.take(items@.len() as int) =~= items@);
}

/// The command that records one chunk to `path` with `backend`.
pub fn recorder_command(backend: RecorderBackend, input_device: &str, path: &str) -> (r: RecorderCommand)
    ensures
        r.program@ == program_of(backend),
        strings_view(r.args@) == recorder_args(backend, input_device@, path@),
{
    let device = trim_exec(&chars_of(input_device));
    let named = device.len() > 0 && !eq(&lower_exec(&device), &chars_of("default"));
    let device_text = string_of(&device);
    let mut args: Vec<String> = Vec::new();
    let ghost d = trim(input_device@);
    match backend {
        RecorderBackend::PipeWire => {
            push_strs(
                &mut args,
                &["--rate", RECORDING_SAMPLE_RATE, "--channels", RECORDING_CHANNELS, "--format", "s16"],
            );
            let ghost base = strings_view(args@);
            if named {
                args.push("--target".to_owned());
                args.push(device_text);
            }
            let ghost mid = strings_view(args@);
            args.push(path.to_owned());
            proof {
                assert(mid =~= base + (if named { seq!["--target"@, d] } else { Seq::empty() }));
                assert(strings_view(args@) =~= mid.push(path@));
                assert(strings_view(args@) =~= recorder_args(backend, input_device@, path@));
            }
            RecorderCommand { program: "pw-record", args }
        },
        RecorderBackend::PulseAudio => {
            let mut rate = "--rate=".to_owned();
            rate.append(RECORDING_SAMPLE_RATE);
            let mut channels = "--channels=".to_owned();
            channels.append(RECORDING_CHANNELS);
            args.push("--file-format=wav".to_owned());
            args.push("--format=s16le".to_owned());
            args.push(rate);
            args.push(channels);
            let ghost base = strings_view(args@);
            if named {
                let mut flag = "--device=".to_owned();
                flag.append(device_text.as_str());
                args.push(flag);
            }
            let ghost mid = strings_view(args@);
            args.push(path.to_owned());
            proof {
                assert(mid =~= base + (if named { seq!["--device="@ + d] } else { Seq::empty() }));
                assert(strings_view(args@) =~= mid.push(path@));
                assert(strings_view(args@) =~= recorder_args(backend, input_device@, path@));
            }
            RecorderCommand { program: "parecord", args }
        },
        RecorderBackend::Alsa => {
            push_strs(
                &mut args,
                &["-f", "S16_LE", "-r", RECORDING_SAMPLE_RATE, "-c", RECORDING_CHANNELS, "-t", "wav"],
            );
            let ghost base = strings_view(args@);
            if named {
                args.push("-D".to_owned());
                args.push(device_text);
            }
            let ghost mid = strings_view(args@);
            args.push(path.to_owned());
            proof {
                assert(mid =~= base + (if named { seq!["-D"@, d] } else { Seq::empty() }));
                assert(strings_view(args@) =~= mid.push(path@));
                assert(strings_view(args@) =~= recorder_args(backend, input_device@, path@));
            }
            RecorderCommand { program: "arecord", args }
        },
    }
}

/// File name of chunk `index` of a recording started at `unix_seconds`.
pub open spec fn chunk_file_name_of(unix_seconds: nat, meeting_name: Seq<char>, index: nat) -> Seq<char> {
    decimal(unix_seconds) + "_"@ + safe_filename_of(meeting_name) + "_chunk_"@ + zero_padded(index, 4)
        + ".wav"@
}

/// Chunks with different numbers never share a file name, whatever the
/// times at which they were named: the time is the run of digits before the
/// first `_`, and the padded number sits between the fixed `_chunk_` and
/// `.wav`.
pub proof fn law_chunk_names_distinct(u1: nat, u2: nat, name: Seq<char>, i1: nat, i2: nat)
    requires
        i1 != i2,
    ensures
        chunk_file_name_of(u1, name, i1) != chunk_file_name_of(u2, name, i2),
{
    reveal_strlit("_");
    reveal_strlit("_chunk_");
    reveal_strlit(".wav");
    crate::numbers::lemma_decimal_value(u1);
    crate::numbers::lemma_decimal_value(u2);
    crate::numbers::lemma_zero_padded_value(i1, 4);
    crate::numbers::lemma_zero_padded_value(i2, 4);
    let d1 = decimal(u1);
    let d2 = decimal(u2);
    let mid = "_"@ + safe_filename_of(name) + "_chunk_"@;
    let z1 = zero_padded(i1, 4);
    let z2 = zero_padded(i2, 4);
    let x1 = chunk_file_name_of(u1, name, i1);
    let x2 = chunk_file_name_of(u2, name, i2);
    assert(x1 =~= d1 + (mid + z1 + ".wav"@));
    assert(x2 =~= d2 + (mid + z2 + ".wav"@));
    if x1 == x2 {
        if d1.len() < d2.len() {
            assert(x1[d1.len() as int] == '_');
            assert(x2[d1.len() as int] == d2[d1.len() as int]);
            assert('0' <= d2[d1.len() as int] <= '9');
        } else if d2.len() < d1.len() {
            assert(x2[d2.len() as int] == '_');
            assert(x1[d2.len() as int] == d1[d2.len() as int]);
            assert('0' <= d1[d2.len() as int] <= '9');
        } else {
            let k: int = (d1.len() + mid.len()) as int;
            assert(z1.len() == z2.len());
            assert(z1 =~= x1.subrange(k, k + z1.len()));
            assert(z2 =~= x2.subrange(k, k + z2.len()));
            assert(z1 == z2);
        }
    }
}

/// Names a recording chunk: Unix time, safe meeting name and the chunk
/// number padded to four digits.
pub fn chunk_file_name(unix_seconds: u64, meeting_name: &str, index: u64) -> (r: String)
    ensures
        r@ == chunk_file_name_of(unix_seconds as nat, meeting_name@, index as nat),
{
    let mut r = decimal_string(unix_seconds);
    r.append("_");
    r.append(safe_filename(meeting_name).as_str());
    r.append("_chunk_");
    r.append(string_of(&zero_padded_exec(index, 4)).as_str());
    r.append(".wav");
    r
}

/// A chunk holds audio when it is larger than a WAV header.
pub fn file_has_audio(len: u64) -> (r: bool)
    ensures
        r == (len > WAV_HEADER_BYTES),
{
    len > WAV_HEADER_BYTES
}

/// Whether the test-audio variable is set to something other than blanks.
pub fn test_audio_configured(value: Option<&str>) -> (r: bool)
    ensures
        r == match value {
            Some(v) => !is_blank(v@),
            None => false,
        },
{
    match value {
        Some(v) => !str_is_blank(v),
        None => false,
    }
}

// ---------------------------------------------------------------------------
// The capture loop
// ---------------------------------------------------------------------------

/// What a recording worker is started with.
#[derive(Debug)]
pub struct CaptureConfig {
    /// Meeting being recorded.
    pub meeting_id: u128,
    /// Its name, used in chunk file names.
    pub meeting_name: String,
    /// Configured input device.
    pub input_device: String,
    /// Chunk length in seconds.
    pub chunk_duration_secs: u64,
    /// Chunk size limit in bytes.
    pub max_chunk_bytes: u64,
}

/// What the capture loop does after an event.
#[derive(Debug)]
pub enum CaptureAction {
    /// Nothing.
    Nothing,
    /// Load the settings and call [`AudioCaptureState::start_capture`].
    LoadSettings { meeting_id: u128, meeting_name: String },
    /// Signal the recording worker of this meeting to stop.
    StopRecording { meeting_id: u128 },
    /// Stop the active recording, if any, and leave the loop.
    Quit { stop: Option<u128> },
}

/// The capture loop: at most one meeting is recorded at a time.
#[derive(Debug)]
pub struct AudioCaptureState {
    /// The meeting being recorded.
    pub active: Option<u128>,
}

impl AudioCaptureState {
    /// Nothing is recorded.
    pub fn new() -> (r: Self)
        ensures
            r.active is None,
    {
        AudioCaptureState { active: None }
    }

    /// Reacts to a bus event; `test_audio` says whether a test fixture
    /// replaces live capture.
    pub fn handle_event(&mut self, event: &AppEvent, test_audio: bool) -> (action: CaptureAction)
        ensures
            match *event {
                AppEvent::MeetingStarted { id, name, .. } => {
                    &&& final(self).active == old(self).active
                    &&& if old(self).active is None && !test_audio {
                        action matches CaptureAction::LoadSettings { meeting_id, meeting_name }
                            && meeting_id == id && meeting_name@ == name@
                    } else {
                        action is Nothing
                    }
                },
                AppEvent::MeetingEnded { id } => if old(self).active == Some(id) {
                    final(self).active is None && action == (CaptureAction::StopRecording { meeting_id: id })
                } else {
                    final(self).active == old(self).active && action is Nothing
                },
                AppEvent::QuitRequested => final(self).active is None && action == (CaptureAction::Quit {
                    stop: old(self).active,
                }),
                _ => final(self).active == old(self).active && action is Nothing,
            },
    {
        match event {
            AppEvent::MeetingStarted { id, name, .. } => {
                if self.active.is_some() || test_audio {
                    CaptureAction::Nothing
                } else {
                    CaptureAction::LoadSettings { meeting_id: *id, meeting_name: name.clone() }
                }
            },
            AppEvent::MeetingEnded { id } => {
                if self.active == Some(*id) {
                    self.active = None;
                    CaptureAction::StopRecording { meeting_id: *id }
                } else {
                    CaptureAction::Nothing
                }
            },
            AppEvent::QuitRequested => {
                let stop = self.active;
                self.active = None;
                CaptureAction::Quit { stop }
            },
            _ => CaptureAction::Nothing,
        }
    }

    /// With the settings loaded, starts recording the meeting unless
    /// automatic capture is off.
    pub fn start_capture(&mut self, meeting_id: u128, meeting_name: String, settings: &Settings) -> (r: Option<CaptureConfig>)
        requires
            old(self).active is None,
        ensures
            !settings.meeting.auto_capture ==> r is None && final(self).active is None,
            settings.meeting.auto_capture ==> {
                &&& final(self).active == Some(meeting_id)
                &&& r matches Some(c)
                &&& c.meeting_id == meeting_id
                &&& c.meeting_name@ == meeting_name@
                &&& c.input_device@ == settings.audio.input_device@
                &&& c.chunk_duration_secs == clamp(
                    saturating_times(settings.audio.chunk_duration_minutes as int, 60),
                    1,
                    MAX_CHUNK_DURATION_SECS as int,
                )
                &&& c.max_chunk_bytes == clamp(
                    saturating_times(saturating_times(settings.audio.max_recording_size_mb as int, 1024), 1024),
                    1,
                    MAX_CHUNK_BYTES as int,
                )
            },
    {
        if !settings.meeting.auto_capture {
            return None;
        }
        self.active = Some(meeting_id);
        Some(
            CaptureConfig {
                meeting_id,
                meeting_name,
                input_device: settings.audio.input_device.clone(),
                chunk_duration_secs: chunk_duration(settings.audio.chunk_duration_minutes),
                max_chunk_bytes: recording_size_bytes(settings.audio.max_recording_size_mb),
            },
        )
    }
}

// ---------------------------------------------------------------------------
// One chunk
// ---------------------------------------------------------------------------

/// What happened while a chunk was being recorded.
#[derive(Debug)]
pub enum RecorderEvent {
    /// The recorder exited by itself; `status` describes its exit status.
    Exited { success: bool, status: String },
    /// Waiting for the recorder failed.
    WaitFailed { error: String },
    /// The meeting's recording was asked to stop.
    StopRequested,
    /// The chunk's time is up.
    DurationElapsed,
    /// A poll: the chunk file is `file_len` bytes long.
    Tick { file_len: u64 },
}

/// What to do about the recorder after an event.
#[derive(Debug)]
pub enum RecorderStep {
    /// Keep recording.
    Continue,
    /// The chunk is over: kill the recorder when asked, and report whether
    /// the whole recording has stopped, or why the chunk failed.
    Finish { kill: bool, result: Result<bool, String> },
}

/// Decides what a recorder event means for the chunk being recorded.
pub fn recorder_step(event: RecorderEvent, max_chunk_bytes: u64) -> (r: RecorderStep)
    ensures
        match event {
            RecorderEvent::Exited { success, status } => if success {
                r matches RecorderStep::Finish { kill, result } && !kill && result == Ok::<bool, String>(true)
            } else {
                r matches RecorderStep::Finish { kill, result: Err(m) } && !kill
                    && m@ == "recorder exited with status "@ + status@
            },
            RecorderEvent::WaitFailed { error } => r matches RecorderStep::Finish { kill, result: Err(m) }
                && !kill && m@ == "failed to wait for recorder: "@ + error@,
            RecorderEvent::StopRequested => r matches RecorderStep::Finish { kill, result }
                && kill && result == Ok::<bool, String>(true),
            RecorderEvent::DurationElapsed => r matches RecorderStep::Finish { kill, result }
                && kill && result == Ok::<bool, String>(false),
            RecorderEvent::Tick { file_len } => if file_len >= max_chunk_bytes {
                r matches RecorderStep::Finish { kill, result } && kill && result == Ok::<bool, String>(false)
            } else {
                r is Continue
            },
        },
{
    match event {
        RecorderEvent::Exited { success, status } => {
            if success {
                RecorderStep::Finish { kill: false, result: Ok(true) }
            } else {
                let mut m = "recorder exited with status ".to_owned();
                m.append(status.as_str());
                RecorderStep::Finish { kill: false, result: Err(m) }
            }
        },
        RecorderEvent::WaitFailed { error } => {
            let mut m = "failed to wait for recorder: ".to_owned();
            m.append(error.as_str());
            RecorderStep::Finish { kill: false, result: Err(m) }
        },
        RecorderEvent::StopRequested => RecorderStep::Finish { kill: true, result: Ok(true) },
        RecorderEvent::DurationElapsed => RecorderStep::Finish { kill: true, result: Ok(false) },
        RecorderEvent::Tick { file_len } => {
            if file_len >= max_chunk_bytes {
                RecorderStep::Finish { kill: true, result: Ok(false) }
            } else {
                RecorderStep::Continue
            }
        },
    }
}

// ---------------------------------------------------------------------------
// A recording
// ---------------------------------------------------------------------------

/// What the recording worker does with a finished chunk.
#[derive(Debug)]
pub struct ChunkOutcome {
    /// Events to publish, in order.
    pub publish: Vec<AppEvent>,
    /// Whether to delete the chunk file, which holds no audio.
    pub remove_file: bool,
    /// Whether to record another chunk.
    pub record_next: bool,
}

/// A recording in progress: chunks are numbered from one.
#[derive(Debug)]
pub struct RecordingSession {
    /// Meeting being recorded.
    pub meeting_id: u128,
    /// Number of the chunk being recorded.
    pub chunk_index: u64,
}

impl RecordingSession {
    /// Starts a recording: announces it and records chunk one.
    pub fn start(meeting_id: u128) -> (r: (Self, AppEvent))
        ensures
            r.0.meeting_id == meeting_id,
            r.0.chunk_index == 1,
            r.1 == (AppEvent::RecordingStarted { meeting_id }),
    {
        (RecordingSession { meeting_id, chunk_index: 1 }, AppEvent::RecordingStarted { meeting_id })
    }

    /// A chunk at `path` has been recorded; `result` says whether the
    /// recording stopped (or why it failed, which stops it too) and
    /// `file_len` is the chunk's size.
    pub fn chunk_finished(&mut self, path: String, result: Result<bool, String>, file_len: u64) -> (o: ChunkOutcome)
        requires
            old(self).chunk_index < u64::MAX,
        ensures
            final(self).meeting_id == old(self).meeting_id,
            ({
                let stopped = match result {
                    Ok(s) => s,
                    Err(_) => true,
                };
                let ready = AppEvent::RecordingChunkReady { meeting_id: old(self).meeting_id, path };
                let stop = AppEvent::RecordingStopped { meeting_id: old(self).meeting_id };
                &&& o.remove_file == (file_len <= WAV_HEADER_BYTES)
                &&& o.record_next == !stopped
                &&& final(self).chunk_index == if stopped { old(self).chunk_index as int } else { old(self).chunk_index + 1 }
                &&& o.publish@ == if file_len > WAV_HEADER_BYTES {
                    if stopped { seq![ready, stop] } else { seq![ready] }
                } else {
                    if stopped { seq![stop] } else { Seq::empty() }
                }
            }),
    {
        let stopped = match result {
            Ok(s) => s,
            Err(_) => true,
        };
        let mut publish: Vec<AppEvent> = Vec::new();
        let has_audio = file_has_audio(file_len);
        if has_audio {
            publish.push(AppEvent::RecordingChunkReady { meeting_id: self.meeting_id, path });
        }
        if stopped {
            publish.push(AppEvent::RecordingStopped { meeting_id: self.meeting_id });
        } else {
            self.chunk_index = self.chunk_index + 1;
        }
        ChunkOutcome { publish, remove_file: !has_audio, record_next: !stopped }
    }
}

} // verus!
