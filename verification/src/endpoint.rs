//! Endpoint pairs: the message-passing primitive linking the controller to
//! each peer actor.
//!
//! An endpoint pair is two unidirectional channels forming a bidirectional
//! link. One channel carries events from the peer to the controller, the
//! other carries commands from the controller to the peer. The peer owns one
//! half, the controller the other; only message values cross threads.

use vstd::prelude::*;
use std::sync::mpsc::{Receiver, Sender};
use crate::channel::channel_pair;

verus! {

/// Event from the window-owning UI thread to the controller.
#[derive(Clone, Copy, Debug, PartialEq, Eq, Structural)]
pub enum UiEvent {
    /// The UI thread's platform window handle became available.
    HwndReady(isize),
}

/// Command from the controller to the UI thread.
#[derive(Clone, Copy, Debug, PartialEq, Eq, Structural)]
pub enum UiCommand {
    /// Best-effort hint: move keyboard focus to the command-entry field.
    FocusInput,
}

/// The UI thread's half of its link to the controller.
pub struct UiEndpoint {
    pub tx: Sender<UiEvent>,
    pub rx: Receiver<UiCommand>,
}

/// The controller's half of its link to the UI thread.
pub struct UiHandle {
    pub rx: Receiver<UiEvent>,
    pub tx: Sender<UiCommand>,
}

pub fn create_ui_endpoints() -> (UiEndpoint, UiHandle) {
    let (event_tx, event_rx) = channel_pair();
    let (cmd_tx, cmd_rx) = channel_pair();
    (UiEndpoint { tx: event_tx, rx: cmd_rx }, UiHandle { rx: event_rx, tx: cmd_tx })
}

/// Event from the hotkey actor to the controller.
#[derive(Clone, Copy, Debug, PartialEq, Eq, Structural)]
pub enum HotkeyEvent {
    /// The global key combination fired.
    Toggle,
    /// Outcome of the most recent registration attempt.
    RegisterResult(bool),
}

/// Command from the controller to the hotkey actor.
#[derive(Clone, Copy, Debug, PartialEq, Eq, Structural)]
pub enum HotkeyCmd {
    /// Bind the global key combination on behalf of this window handle.
    Register(isize),
    /// Release the binding, unblock the message loop and exit.
    Finish,
}

/// The hotkey actor's half of its link to the controller.
pub struct HotkeyEndpoint {
    pub tx: Sender<HotkeyEvent>,
    pub rx: Receiver<HotkeyCmd>,
}

/// The controller's half of its link to the hotkey actor.
pub struct HotkeyHandle {
    pub rx: Receiver<HotkeyEvent>,
    pub tx: Sender<HotkeyCmd>,
}

pub fn create_hotkey_endpoints() -> (HotkeyEndpoint, HotkeyHandle) {
    let (event_tx, event_rx) = channel_pair();
    let (cmd_tx, cmd_rx) = channel_pair();
    (HotkeyEndpoint { tx: event_tx, rx: cmd_rx }, HotkeyHandle { rx: event_rx, tx: cmd_tx })
}

/// Event from the tray actor to the controller.
#[derive(Clone, Copy, Debug, PartialEq, Eq, Structural)]
pub enum TrayEvent {
    /// The "show" menu item was selected.
    ShowWindow,
    /// The "quit" menu item was selected.
    Quit,
}

/// Command from the controller to the tray actor.
#[derive(Clone, Copy, Debug, PartialEq, Eq, Structural)]
pub enum TrayCmd {
    /// Leave the menu-polling loop and release the tray resources.
    Finish,
}

/// The tray actor's half of its link to the controller.
pub struct TrayEndpoint {
    pub tx: Sender<TrayEvent>,
    pub rx: Receiver<TrayCmd>,
}

/// The controller's half of its link to the tray actor.
pub struct TrayHandle {
    pub rx: Receiver<TrayEvent>,
    pub tx: Sender<TrayCmd>,
}

pub fn create_tray_endpoints() -> (TrayEndpoint, TrayHandle) {
    let (event_tx, event_rx) = channel_pair();
    let (cmd_tx, cmd_rx) = channel_pair();
    (TrayEndpoint { tx: event_tx, rx: cmd_rx }, TrayHandle { rx: event_rx, tx: cmd_tx })
}

} // verus!
