# asr_client

Verified core of a desktop speech-to-text client, written in Verus.

- `src/wav.rs` — framing of 16-bit mono PCM in a WAV container, and the
  proof that the header reads back.
- `src/json.rs` — the JSON model the client reads and writes.
- `src/text.rs` — string helpers (equality, `+` search, trimming, decimal
  digits, UTF-8 byte prefixes).
- `src/catalog.rs` — the downloadable model catalog.
- `src/mimo.rs` — the MiMo provider: request preparation, reply handling,
  connection check.
- `src/shortcuts.rs` — key settings and the global-shortcut plan.
- `src/ptt_lab.rs` — the push-to-talk lab key tracker and its alternation law.
- `app/` — Tauri commands, HTTP calls and serde forms around the library.
- `tests/` — tests of the library on concrete values.
