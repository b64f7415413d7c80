# WhisperCrabs

A floating voice-to-text and text-to-speech button. This crate is its verified core: the
program's rules, tables, parsers and state machines are functions in `src/` with contracts
proved by Verus. `app/` does the input and output around them (GTK, audio, HTTP, files and
paths, the Windows hooks); the floating-point audio work (resampling, sample conversion) and
the wiring of GTK callbacks also stay there.

## Layout

- `src/text.rs` — trimming, ASCII-case comparison, substring search and replacement, decimal
  numbers, all specified over `Seq<char>`.
- `src/config.rs` — provider presets, local model and voice tables with their lookups, hotkey
  and language names, on/off settings, and the configuration built from the environment.
- `src/session.rs` — what a click or the mouse hotkey does, how a transcription ends, which
  provider is active at start-up and after each menu choice (and that a choice survives a
  restart).
- `src/voice.rs`, `src/download.rs` — text-to-speech voice choices and download progress.
- `src/endpoint.rs` — accepted addresses, endpoint URLs, prompts and replies of the
  OpenAI-compatible endpoints.
- `src/mouse_hotkey.rs`, `src/auto_paste.rs` — the Windows mouse hook's decisions and the checked
  steps of auto-paste.
- `src/window.rs`, `src/menu.rs`, `src/transcript.rs` — window placement, menu entries,
  and the local transcript.
- `tests/` — tests of the library on concrete values.
- `app/` — the program: environment and files, HTTP requests, whisper.cpp, the GTK interface.
