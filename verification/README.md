# Neuma

Voice dictation for the desktop: hold or tap a key, speak, and the transcript,
cleaned on request, is typed into the focused field.

- `src/` is the library: what the application decides and computes on whole numbers
  and text, with contracts that Verus proves. Each module says what it is about;
  functions named `law_…` state what holds across functions.
- `app/` is the application around it: windows, devices, files and network, and the
  floating-point work (mixing and resampling samples, the level of a recording, the
  speed of a download, the place of the overlay).
- `tests/` runs the library.

Calls into other crates go through small functions whose contracts are taken on
trust: `src/json.rs` (serde_json), `src/http.rs` (status codes of reqwest) and
`src/vad.rs` (webrtc-vad). The contract of `str::to_lowercase` in
`src/hotkey_listener.rs` is the only other one.
