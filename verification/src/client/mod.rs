//! The client: commands, stores, and the decisions behind the terminal
//! interface.

pub mod command_laws;
pub mod commands;
pub mod contacts;
pub mod event_laws;
pub mod files;
pub mod history;
pub mod laws;
pub mod network;
pub mod screen;
pub mod session;
pub mod stealth;
pub mod tui;
pub mod wipe;
