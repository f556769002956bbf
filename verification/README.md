# rustle

Rustle is a tray-first meeting-notes application for Hyprland: it notices
meetings, records them in chunks, transcribes the audio with Whisper,
summarises the transcript into Markdown notes and keeps the notes and
transcripts on disk.

## Layout

- `src/` is the library, verified with Verus. It holds every decision the
  application makes: the settings schema and its validation, path rules,
  meeting detection from Hyprland clients, the recorder choice and chunk
  bookkeeping, the transcription state machine (drafts, chunks, finalisation
  and the discarding of short false positives), Ollama request and response
  handling, note normalisation and fallback notes, document listing and
  ordering, the tray menu and terminal controls, notifications, start-on-login
  plans and diagnostics text. Each component is a state with a
  `handle_event` method whose contract says what it does with every event.
- `app/` is the executable around the library: the event bus, file and
  process I/O, the D-Bus tray, desktop notifications, sockets, the TOML and
  JSON representations, and the floating-point audio path (WAV decoding,
  resampling and the Whisper model).
- `tests/` exercises the library on concrete values.
