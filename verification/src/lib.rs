//! Decision logic of a push-to-talk dictation app: transcript clean-up, model
//! downloads, the speech worker, the pill and panel state machines, backend
//! selection, installation and usage statistics. Every function is total on its
//! stated inputs and proved against its contract; the executable around it does
//! the I/O.
pub mod app_root;
pub mod asr;
pub mod audio;
pub mod backend_detect;
pub mod config;
pub mod dictation;
pub mod esc_hook;
pub mod installer;
pub mod installer_ui;
pub mod onboarding;
pub mod paste;
pub mod paths;
pub mod pattern;
pub mod pill;
pub mod pill_window;
pub mod preload;
pub mod probe;
pub mod screens;
pub mod setup_steps;
pub mod smoke;
pub mod telemetry;
pub mod text;
pub mod tray;
pub mod win_focus;
pub mod words;
