//! Coordination core of a keyboard-launcher utility: a controller thread
//! arbitrates between a global-hotkey listener, a status-area tray menu and
//! the window-owning UI thread, mutating window-visibility state and driving
//! an orderly shutdown of both listener threads. Around the core sit the
//! launchable-command table and the configuration paths the launcher reads.

mod channel;
pub mod commands;
pub mod controller;
pub mod config;
pub mod endpoint;
pub mod hotkey;
pub mod launch;
pub mod paths;
pub mod strutil;
pub mod task_tray;
