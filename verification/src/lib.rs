//! Decision logic of a desktop shell that lives in the system tray.
//!
//! The host framework owns the window, the tray icon and the event loop. This
//! crate owns the rules: which trigger an incoming host event stands for, how
//! the window's visibility changes, and which calls the host has to make in
//! answer. Every function is total and free of side effects, so the host can
//! call it from any of its callbacks.

pub mod commands;
pub mod dispatch;
pub mod events;
pub mod failure;
pub mod laws;
pub mod lifecycle;
pub mod menu;
pub mod process;
pub mod text;
