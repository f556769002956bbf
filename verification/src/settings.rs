//! Persistent Rustle settings: the schema, its defaults and its validation.
//!
//! Reading and writing the TOML file is I/O and stands outside the library;
//! what a loaded file becomes is decided here.

use vstd::prelude::*;

use crate::text::{is_blank, lemma_nonblank_starts_visible, str_is_blank};

verus! {

/// Directory under XDG config/data directories that Rustle owns.
pub const APP_DIR_NAME: &'static str = "rustle";

/// File name of the settings file.
pub const CONFIG_FILE_NAME: &'static str = "config.toml";

/// Default local Whisper model path.
pub const DEFAULT_TRANSCRIPTION_MODEL_PATH: &'static str = "~/.local/share/rustle/models/ggml-base.en.bin";

/// Default directory for generated Markdown notes.
pub const DEFAULT_NOTES_DIR: &'static str = "~/.local/share/rustle/notes";

/// Default SQLite database path.
pub const DEFAULT_DB_PATH: &'static str = "~/.local/share/rustle/rustle.db";

/// Default system prompt for note generation.
pub const DEFAULT_SYSTEM_PROMPT: &'static str = "You are a meeting notes assistant. Produce concise, structured notes with a summary, key decisions, action items, and attendees when available.";

/// Default audio input device name.
pub const DEFAULT_INPUT_DEVICE: &'static str = "default";

/// Default AI model (a Hugging Face GGUF repository).
pub const DEFAULT_AI_MODEL: &'static str = "Qwen/Qwen2.5-3B-Instruct-GGUF";

/// Default GGUF file inside the default repository.
pub const DEFAULT_HF_MODEL_FILE: &'static str = "qwen2.5-3b-instruct-q4_k_m.gguf";

/// Default Ollama endpoint.
pub const DEFAULT_OLLAMA_URL: &'static str = "http://localhost:11434";

/// Default maximum recording size in megabytes.
pub const DEFAULT_MAX_RECORDING_SIZE_MB: u64 = 2048;

/// Default recording chunk duration in minutes.
pub const DEFAULT_CHUNK_DURATION_MINUTES: u64 = 10;

/// All persisted user settings.
#[derive(Debug, Clone, PartialEq, Eq)]
pub struct Settings {
    /// General application settings.
    pub general: GeneralSettings,
    /// Meeting detection and capture settings.
    pub meeting: MeetingSettings,
    /// Audio capture settings.
    pub audio: AudioSettings,
    /// Transcription settings.
    pub transcription: TranscriptionSettings,
    /// AI summarisation settings.
    pub ai: AiSettings,
    /// Storage location settings.
    pub storage: StorageSettings,
}

/// General application settings.
#[derive(Debug, Clone, Copy, PartialEq, Eq, Structural)]
pub struct GeneralSettings {
    /// Whether Rustle should start when the user logs in.
    pub start_on_login: bool,
    /// Login startup integration to use.
    pub start_on_login_method: LoginMethod,
}

/// Supported login startup integration mechanisms.
#[derive(Debug, Clone, Copy, PartialEq, Eq, Structural)]
pub enum LoginMethod {
    /// XDG autostart desktop file integration.
    Xdg,
    /// systemd user service integration.
    Systemd,
}

/// Meeting detection and capture settings.
#[derive(Debug, Clone, Copy, PartialEq, Eq, Structural)]
pub struct MeetingSettings {
    /// Whether meetings should be detected automatically.
    pub auto_detect: bool,
    /// Whether recording should start automatically when a meeting is detected.
    pub auto_capture: bool,
    /// Preferred meeting detection method.
    pub detection_method: RecordingDetectionMethod,
}

/// Supported meeting detection methods.
#[derive(Debug, Clone, Copy, PartialEq, Eq, Structural)]
pub enum RecordingDetectionMethod {
    /// Hyprland IPC and client inspection.
    Hyprland,
}

/// Audio capture settings.
#[derive(Debug, Clone, PartialEq, Eq)]
pub struct AudioSettings {
    /// Capture input device name.
    pub input_device: String,
    /// Whether to capture from a loopback device.
    pub capture_loopback: bool,
    /// Maximum recording size in megabytes before rotation.
    pub max_recording_size_mb: u64,
    /// Recording chunk duration in minutes.
    pub chunk_duration_minutes: u64,
}

/// Transcription provider settings.
#[derive(Debug, Clone, PartialEq, Eq)]
pub struct TranscriptionSettings {
    /// Transcription method to use.
    pub method: TranscriptionMethod,
    /// Local Whisper model path.
    pub model_path: String,
    /// OpenAI API key used for remote transcription.
    pub openai_api_key: String,
}

/// Supported transcription methods.
#[derive(Debug, Clone, Copy, PartialEq, Eq, Structural)]
pub enum TranscriptionMethod {
    /// Local Whisper transcription.
    Local,
    /// OpenAI Whisper API transcription.
    Openai,
}

/// AI summarisation settings.
#[derive(Debug, Clone, PartialEq, Eq)]
pub struct AiSettings {
    /// AI provider to use.
    pub provider: AiProvider,
    /// Provider model name.
    pub model: String,
    /// Optional local model path for providers that load files directly.
    pub model_path: String,
    /// Optional Hugging Face repository for providers that can download models.
    pub hf_repo: String,
    /// Optional Hugging Face model file name to download from `hf_repo`.
    pub hf_model_file: String,
    /// API key for hosted providers.
    pub api_key: String,
    /// Ollama endpoint URL, used only when the provider is Ollama.
    pub ollama_url: String,
    /// User-configurable system prompt for note generation.
    pub system_prompt: String,
}

/// Supported AI summarisation providers.
#[derive(Debug, Clone, Copy, PartialEq, Eq, Structural)]
pub enum AiProvider {
    /// llama.cpp local inference.
    LlamaCpp,
    /// OpenAI chat completions.
    Openai,
    /// Anthropic hosted models.
    Anthropic,
    /// Local Ollama endpoint.
    Ollama,
}

/// Storage location settings.
#[derive(Debug, Clone, PartialEq, Eq)]
pub struct StorageSettings {
    /// Directory containing generated Markdown notes.
    pub notes_dir: String,
    /// SQLite database path.
    pub db_path: String,
}

// ---------------------------------------------------------------------------
// Mathematical model
// ---------------------------------------------------------------------------

/// Model of [`AudioSettings`].
pub struct AudioModel {
    pub input_device: Seq<char>,
    pub capture_loopback: bool,
    pub max_recording_size_mb: u64,
    pub chunk_duration_minutes: u64,
}

/// Model of [`TranscriptionSettings`].
pub struct TranscriptionModel {
    pub method: TranscriptionMethod,
    pub model_path: Seq<char>,
    pub openai_api_key: Seq<char>,
}

/// Model of [`AiSettings`].
pub struct AiModel {
    pub provider: AiProvider,
    pub model: Seq<char>,
    pub model_path: Seq<char>,
    pub hf_repo: Seq<char>,
    pub hf_model_file: Seq<char>,
    pub api_key: Seq<char>,
    pub ollama_url: Seq<char>,
    pub system_prompt: Seq<char>,
}

/// Model of [`StorageSettings`].
pub struct StorageModel {
    pub notes_dir: Seq<char>,
    pub db_path: Seq<char>,
}

/// Model of [`Settings`].
pub struct SettingsModel {
    pub general: GeneralSettings,
    pub meeting: MeetingSettings,
    pub audio: AudioModel,
    pub transcription: TranscriptionModel,
    pub ai: AiModel,
    pub storage: StorageModel,
}

impl View for AudioSettings {
    type V = AudioModel;

    open spec fn view(&self) -> AudioModel {
        AudioModel {
            input_device: self.input_device@,
            capture_loopback: self.capture_loopback,
            max_recording_size_mb: self.max_recording_size_mb,
            chunk_duration_minutes: self.chunk_duration_minutes,
        }
    }
}

impl View for TranscriptionSettings {
    type V = TranscriptionModel;

    open spec fn view(&self) -> TranscriptionModel {
        TranscriptionModel {
            method: self.method,
            model_path: self.model_path@,
            openai_api_key: self.openai_api_key@,
        }
    }
}

impl View for AiSettings {
    type V = AiModel;

    open spec fn view(&self) -> AiModel {
        AiModel {
            provider: self.provider,
            model: self.model@,
            model_path: self.model_path@,
            hf_repo: self.hf_repo@,
            hf_model_file: self.hf_model_file@,
            api_key: self.api_key@,
            ollama_url: self.ollama_url@,
            system_prompt: self.system_prompt@,
        }
    }
}

impl View for StorageSettings {
    type V = StorageModel;

    open spec fn view(&self) -> StorageModel {
        StorageModel { notes_dir: self.notes_dir@, db_path: self.db_path@ }
    }
}

impl View for Settings {
    type V = SettingsModel;

    open spec fn view(&self) -> SettingsModel {
        SettingsModel {
            general: self.general,
            meeting: self.meeting,
            audio: self.audio@,
            transcription: self.transcription@,
            ai: self.ai@,
            storage: self.storage@,
        }
    }
}

/// Default general settings: no start on login, XDG autostart.
pub open spec fn default_general() -> GeneralSettings {
    GeneralSettings { start_on_login: false, start_on_login_method: LoginMethod::Xdg }
}

/// Default meeting settings: detect and capture automatically through Hyprland.
pub open spec fn default_meeting() -> MeetingSettings {
    MeetingSettings {
        auto_detect: true,
        auto_capture: true,
        detection_method: RecordingDetectionMethod::Hyprland,
    }
}

/// Default audio settings.
pub open spec fn default_audio() -> AudioModel {
    AudioModel {
        input_device: DEFAULT_INPUT_DEVICE@,
        capture_loopback: false,
        max_recording_size_mb: DEFAULT_MAX_RECORDING_SIZE_MB,
        chunk_duration_minutes: DEFAULT_CHUNK_DURATION_MINUTES,
    }
}

/// Default transcription settings.
pub open spec fn default_transcription() -> TranscriptionModel {
    TranscriptionModel {
        method: TranscriptionMethod::Local,
        model_path: DEFAULT_TRANSCRIPTION_MODEL_PATH@,
        openai_api_key: Seq::empty(),
    }
}

/// Default AI settings: local llama.cpp with the Qwen 2.5 3B GGUF model.
pub open spec fn default_ai() -> AiModel {
    AiModel {
        provider: AiProvider::LlamaCpp,
        model: DEFAULT_AI_MODEL@,
        model_path: Seq::empty(),
        hf_repo: DEFAULT_AI_MODEL@,
        hf_model_file: DEFAULT_HF_MODEL_FILE@,
        api_key: Seq::empty(),
        ollama_url: DEFAULT_OLLAMA_URL@,
        system_prompt: DEFAULT_SYSTEM_PROMPT@,
    }
}

/// Default storage settings.
pub open spec fn default_storage() -> StorageModel {
    StorageModel { notes_dir: DEFAULT_NOTES_DIR@, db_path: DEFAULT_DB_PATH@ }
}

/// The default settings.
pub open spec fn default_settings() -> SettingsModel {
    SettingsModel {
        general: default_general(),
        meeting: default_meeting(),
        audio: default_audio(),
        transcription: default_transcription(),
        ai: default_ai(),
        storage: default_storage(),
    }
}

/// A text setting with blank values replaced by the default.
pub open spec fn or_default_text(value: Seq<char>, default: Seq<char>) -> Seq<char> {
    if is_blank(value) {
        default
    } else {
        value
    }
}

/// A numeric setting with zero replaced by the default.
pub open spec fn or_default_count(value: u64, default: u64) -> u64 {
    if value == 0 {
        default
    } else {
        value
    }
}

/// The settings with invalid numbers and blank required strings replaced by defaults.
pub open spec fn validated_model(m: SettingsModel) -> SettingsModel {
    let d = default_settings();
    SettingsModel {
        general: m.general,
        meeting: m.meeting,
        audio: AudioModel {
            input_device: or_default_text(m.audio.input_device, d.audio.input_device),
            capture_loopback: m.audio.capture_loopback,
            max_recording_size_mb: or_default_count(
                m.audio.max_recording_size_mb,
                d.audio.max_recording_size_mb,
            ),
            chunk_duration_minutes: or_default_count(
                m.audio.chunk_duration_minutes,
                d.audio.chunk_duration_minutes,
            ),
        },
        transcription: TranscriptionModel {
            method: m.transcription.method,
            model_path: or_default_text(m.transcription.model_path, d.transcription.model_path),
            openai_api_key: m.transcription.openai_api_key,
        },
        ai: AiModel {
            provider: m.ai.provider,
            model: or_default_text(m.ai.model, d.ai.model),
            model_path: m.ai.model_path,
            hf_repo: m.ai.hf_repo,
            hf_model_file: m.ai.hf_model_file,
            api_key: m.ai.api_key,
            ollama_url: or_default_text(m.ai.ollama_url, d.ai.ollama_url),
            system_prompt: or_default_text(m.ai.system_prompt, d.ai.system_prompt),
        },
        storage: StorageModel {
            notes_dir: or_default_text(m.storage.notes_dir, d.storage.notes_dir),
            db_path: or_default_text(m.storage.db_path, d.storage.db_path),
        },
    }
}

/// Settings in which every value that validation checks is usable.
pub open spec fn is_valid_model(m: SettingsModel) -> bool {
    &&& !is_blank(m.audio.input_device)
    &&& m.audio.max_recording_size_mb != 0
    &&& m.audio.chunk_duration_minutes != 0
    &&& !is_blank(m.transcription.model_path)
    &&& !is_blank(m.ai.model)
    &&& !is_blank(m.ai.ollama_url)
    &&& !is_blank(m.ai.system_prompt)
    &&& !is_blank(m.storage.notes_dir)
    &&& !is_blank(m.storage.db_path)
}

// ---------------------------------------------------------------------------
// Defaults
// ---------------------------------------------------------------------------

impl Default for GeneralSettings {
    fn default() -> (r: Self)
        ensures
            r == default_general(),
    {
        GeneralSettings { start_on_login: false, start_on_login_method: LoginMethod::Xdg }
    }
}

impl Default for LoginMethod {
    fn default() -> (r: Self)
        ensures
            r == LoginMethod::Xdg,
    {
        LoginMethod::Xdg
    }
}

impl Default for MeetingSettings {
    fn default() -> (r: Self)
        ensures
            r == default_meeting(),
    {
        MeetingSettings {
            auto_detect: true,
            auto_capture: true,
            detection_method: RecordingDetectionMethod::Hyprland,
        }
    }
}

impl Default for RecordingDetectionMethod {
    fn default() -> (r: Self)
        ensures
            r == RecordingDetectionMethod::Hyprland,
    {
        RecordingDetectionMethod::Hyprland
    }
}

impl Default for AudioSettings {
    fn default() -> (r: Self)
        ensures
            r@ == default_audio(),
    {
        AudioSettings {
            input_device: DEFAULT_INPUT_DEVICE.to_owned(),
            capture_loopback: false,
            max_recording_size_mb: DEFAULT_MAX_RECORDING_SIZE_MB,
            chunk_duration_minutes: DEFAULT_CHUNK_DURATION_MINUTES,
        }
    }
}

impl Default for TranscriptionSettings {
    fn default() -> (r: Self)
        ensures
            r@ == default_transcription(),
    {
        TranscriptionSettings {
            method: TranscriptionMethod::Local,
            model_path: DEFAULT_TRANSCRIPTION_MODEL_PATH.to_owned(),
            openai_api_key: String::new(),
        }
    }
}

impl Default for TranscriptionMethod {
    fn default() -> (r: Self)
        ensures
            r == TranscriptionMethod::Local,
    {
        TranscriptionMethod::Local
    }
}

impl Default for AiSettings {
    fn default() -> (r: Self)
        ensures
            r@ == default_ai(),
    {
        AiSettings {
            provider: AiProvider::LlamaCpp,
            model: DEFAULT_AI_MODEL.to_owned(),
            model_path: String::new(),
            hf_repo: DEFAULT_AI_MODEL.to_owned(),
            hf_model_file: DEFAULT_HF_MODEL_FILE.to_owned(),
            api_key: String::new(),
            ollama_url: DEFAULT_OLLAMA_URL.to_owned(),
            system_prompt: DEFAULT_SYSTEM_PROMPT.to_owned(),
        }
    }
}

impl Default for AiProvider {
    fn default() -> (r: Self)
        ensures
            r == AiProvider::LlamaCpp,
    {
        AiProvider::LlamaCpp
    }
}

impl Default for StorageSettings {
    fn default() -> (r: Self)
        ensures
            r@ == default_storage(),
    {
        StorageSettings {
            notes_dir: DEFAULT_NOTES_DIR.to_owned(),
            db_path: DEFAULT_DB_PATH.to_owned(),
        }
    }
}

impl Default for Settings {
    fn default() -> (r: Self)
        ensures
            r@ == default_settings(),
    {
        Settings {
            general: GeneralSettings::default(),
            meeting: MeetingSettings::default(),
            audio: AudioSettings::default(),
            transcription: TranscriptionSettings::default(),
            ai: AiSettings::default(),
            storage: StorageSettings::default(),
        }
    }
}

// ---------------------------------------------------------------------------
// Validation
// ---------------------------------------------------------------------------

/// A copy of `value`, or of `default` when `value` is blank.
fn text_or_default(value: &String, default: &str) -> (r: String)
    ensures
        r@ == or_default_text(value@, default@),
{
    if str_is_blank(value.as_str()) {
        default.to_owned()
    } else {
        value.clone()
    }
}

/// `value`, or `default` when `value` is zero.
fn count_or_default(value: u64, default: u64) -> (r: u64)
    ensures
        r == or_default_count(value, default),
{
    if value == 0 {
        default
    } else {
        value
    }
}

impl Settings {
    /// Returns a settings copy with invalid numeric and empty-string values replaced by defaults.
    pub fn validated(&self) -> (r: Self)
        ensures
            r@ == validated_model(self@),
            is_valid_model(r@),
    {
        proof {
            lemma_defaults_valid();
        }
        Settings {
            general: self.general,
            meeting: self.meeting,
            audio: AudioSettings {
                input_device: text_or_default(&self.audio.input_device, DEFAULT_INPUT_DEVICE),
                capture_loopback: self.audio.capture_loopback,
                max_recording_size_mb: count_or_default(
                    self.audio.max_recording_size_mb,
                    DEFAULT_MAX_RECORDING_SIZE_MB,
                ),
                chunk_duration_minutes: count_or_default(
                    self.audio.chunk_duration_minutes,
                    DEFAULT_CHUNK_DURATION_MINUTES,
                ),
            },
            transcription: TranscriptionSettings {
                method: self.transcription.method,
                model_path: text_or_default(
                    &self.transcription.model_path,
                    DEFAULT_TRANSCRIPTION_MODEL_PATH,
                ),
                openai_api_key: self.transcription.openai_api_key.clone(),
            },
            ai: AiSettings {
                provider: self.ai.provider,
                model: text_or_default(&self.ai.model, DEFAULT_AI_MODEL),
                model_path: self.ai.model_path.clone(),
                hf_repo: self.ai.hf_repo.clone(),
                hf_model_file: self.ai.hf_model_file.clone(),
                api_key: self.ai.api_key.clone(),
                ollama_url: text_or_default(&self.ai.ollama_url, DEFAULT_OLLAMA_URL),
                system_prompt: text_or_default(&self.ai.system_prompt, DEFAULT_SYSTEM_PROMPT),
            },
            storage: StorageSettings {
                notes_dir: text_or_default(&self.storage.notes_dir, DEFAULT_NOTES_DIR),
                db_path: text_or_default(&self.storage.db_path, DEFAULT_DB_PATH),
            },
        }
    }
}


/// The default settings pass validation.
proof fn lemma_defaults_valid()
    ensures
        is_valid_model(default_settings()),
{
    reveal_strlit("default");
    reveal_strlit("~/.local/share/rustle/models/ggml-base.en.bin");
    reveal_strlit("Qwen/Qwen2.5-3B-Instruct-GGUF");
    reveal_strlit("http://localhost:11434");
    reveal_strlit("You are a meeting notes assistant. Produce concise, structured notes with a summary, key decisions, action items, and attendees when available.");
    reveal_strlit("~/.local/share/rustle/notes");
    reveal_strlit("~/.local/share/rustle/rustle.db");
    lemma_nonblank_starts_visible(DEFAULT_INPUT_DEVICE@);
    lemma_nonblank_starts_visible(DEFAULT_TRANSCRIPTION_MODEL_PATH@);
    lemma_nonblank_starts_visible(DEFAULT_AI_MODEL@);
    lemma_nonblank_starts_visible(DEFAULT_OLLAMA_URL@);
    lemma_nonblank_starts_visible(DEFAULT_SYSTEM_PROMPT@);
    lemma_nonblank_starts_visible(DEFAULT_NOTES_DIR@);
    lemma_nonblank_starts_visible(DEFAULT_DB_PATH@);
}

/// Validation leaves valid settings as they are, so validating twice gives
/// what validating once gave.
pub proof fn law_validation_is_idempotent(m: SettingsModel)
    ensures
        is_valid_model(m) ==> validated_model(m) == m,
        is_valid_model(validated_model(m)),
        validated_model(validated_model(m)) == validated_model(m),
{
    lemma_defaults_valid();
}

/// The value of a flag that is missing from the settings file.
pub fn default_true() -> (r: bool)
    ensures
        r,
{
    true
}

/// Settings assembled from the sections that could be read, each missing
/// one taken from the defaults, then validated.
pub fn settings_from_sections(
    general: Option<GeneralSettings>,
    meeting: Option<MeetingSettings>,
    audio: Option<AudioSettings>,
    transcription: Option<TranscriptionSettings>,
    ai: Option<AiSettings>,
    storage: Option<StorageSettings>,
) -> (r: Settings)
    ensures
        r@ == validated_model(SettingsModel {
            general: match general { Some(g) => g, None => default_general() },
            meeting: match meeting { Some(m) => m, None => default_meeting() },
            audio: match audio { Some(a) => a@, None => default_audio() },
            transcription: match transcription { Some(t) => t@, None => default_transcription() },
            ai: match ai { Some(a) => a@, None => default_ai() },
            storage: match storage { Some(s) => s@, None => default_storage() },
        }),
{
    let settings = Settings {
        general: match general { Some(g) => g, None => GeneralSettings::default() },
        meeting: match meeting { Some(m) => m, None => MeetingSettings::default() },
        audio: match audio { Some(a) => a, None => AudioSettings::default() },
        transcription: match transcription { Some(t) => t, None => TranscriptionSettings::default() },
        ai: match ai { Some(a) => a, None => AiSettings::default() },
        storage: match storage { Some(s) => s, None => StorageSettings::default() },
    };
    settings.validated()
}

} // verus!
