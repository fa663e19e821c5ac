//! Push-to-talk client for the Parakeet speech daemon: the verified core.
pub mod app;
pub mod audio_feedback;
pub mod cli;
pub mod client_session;
pub mod coil;
pub mod config;
pub mod env_parse;
pub mod fonts;
pub mod galley;
pub mod hotkey;
pub mod injector;
pub mod injector_report;
pub mod injector_runtime;
pub mod json;
pub mod llm;
pub mod overlay_ipc;
pub mod overlay_process;
pub mod overlay_renderer;
pub mod overlay_router;
pub mod overlay_state;
pub mod paint;
pub mod preview;
pub mod prose;
pub mod protocol;
pub mod scenarios;
pub mod state;
pub mod surface_focus;
pub mod text;
pub mod url_text;
pub mod wrap;
