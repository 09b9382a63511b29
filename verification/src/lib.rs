//! Voice dictation: press a key, speak, and the text is typed into the focused field.
//!
//! The library holds what the application decides and computes: the hotkey and its
//! sessions ([`hotkey_listener`]), what happens to each chunk of a recording
//! ([`audio`]), how segments become a transcript ([`transcribe`]), how it is cleaned
//! ([`cleanup`], [`local_cleanup`]) and typed ([`typer`]), in what order all of this
//! is done ([`pipeline`]), how models are found and downloaded ([`downloader`]), and
//! what the windows, the tray and the settings do.
//!
//! Devices, windows, files and the network are on the other side. Where work on that
//! side alternates with decisions, the decisions are a state machine: it says what is
//! to be done next, and takes in what came of it.

pub mod audio;
pub mod ax;
pub mod cleanup;
pub mod commands;
pub mod downloader;
pub mod hotkey_listener;
pub mod http;
pub mod json;
pub mod local_cleanup;
pub mod pipeline;
pub mod settings;
pub mod state;
pub mod text;
pub mod transcribe;
pub mod tray;
pub mod typer;
pub mod vad;
pub mod window;
