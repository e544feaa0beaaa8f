//! Verified core of the NEXUS desktop voice assistant: intent handling,
//! app-name resolution tables, URL encoding, configuration merging and the
//! small text parsers the assistant relies on.

pub mod text;
pub mod urlencoding;
pub mod start_apps;
pub mod sorted_names;
pub mod app_names;
pub mod json;
pub mod config;
pub mod command_executor;
pub mod exec_line;
pub mod processes;
pub mod resolve;
pub mod launch;
pub mod sidebar;
pub mod platform;
pub mod playback;
pub mod meeting;
pub mod dyn_windows;
