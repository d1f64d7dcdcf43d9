use command_launcher::controller::{Controller, ControllerState, WindowAction};
use command_launcher::endpoint::{
    create_hotkey_endpoints, create_tray_endpoints, create_ui_endpoints, HotkeyCmd, HotkeyEvent,
    TrayCmd, TrayEvent, UiCommand, UiEvent,
};
use std::sync::mpsc;

#[test]
fn end_to_end_controller_scenario() {
    let (ui_ep, ui_handle) = create_ui_endpoints();
    let (hk_ep, hk_handle) = create_hotkey_endpoints();
    let (tray_ep, tray_handle) = create_tray_endpoints();
    let (finish_tx, finish_rx) = mpsc::channel();
    let mut c = Controller::new(ui_handle, hk_handle, tray_handle, finish_rx);
    assert_eq!(c.state.hwnd, None);
    assert!(!c.state.hotkey_registered);

    // the UI reports its handle: it is stored and relayed as Register
    ui_ep.tx.send(UiEvent::HwndReady(42)).unwrap();
    c.recv_ui();
    assert_eq!(c.state.hwnd, Some(42));
    assert_eq!(hk_ep.rx.try_recv().unwrap(), HotkeyCmd::Register(42));

    // the hotkey actor reports success: the flag follows
    hk_ep.tx.send(HotkeyEvent::RegisterResult(true)).unwrap();
    let actions = c.recv_hotkey(false);
    assert!(actions.is_empty());
    assert!(c.state.hotkey_registered);

    // a toggle while hidden: exactly one show and one foreground
    hk_ep.tx.send(HotkeyEvent::Toggle).unwrap();
    let actions = c.recv_hotkey(false);
    assert_eq!(actions, vec![WindowAction::Show(42), WindowAction::Foreground(42)]);
    assert_eq!(ui_ep.rx.try_recv().unwrap(), UiCommand::FocusInput);

    // the shutdown signal: Finish reaches both actors before the loop exits
    finish_tx.send(()).unwrap();
    assert!(c.poll_shutdown());
    assert_eq!(hk_ep.rx.try_recv().unwrap(), HotkeyCmd::Finish);
    assert_eq!(tray_ep.rx.try_recv().unwrap(), TrayCmd::Finish);
}

#[test]
fn hwnd_ready_twice_is_idempotent() {
    let (ui_ep, ui_handle) = create_ui_endpoints();
    let (hk_ep, hk_handle) = create_hotkey_endpoints();
    let (_tray_ep, tray_handle) = create_tray_endpoints();
    let (_finish_tx, finish_rx) = mpsc::channel();
    let mut c = Controller::new(ui_handle, hk_handle, tray_handle, finish_rx);

    ui_ep.tx.send(UiEvent::HwndReady(7)).unwrap();
    c.recv_ui();
    let state_after_first = c.state;
    assert_eq!(hk_ep.rx.try_recv().unwrap(), HotkeyCmd::Register(7));

    ui_ep.tx.send(UiEvent::HwndReady(7)).unwrap();
    c.recv_ui();
    assert_eq!(c.state, state_after_first);
    // no second Register command reaches the hotkey actor
    assert!(hk_ep.rx.try_recv().is_err());

    // even another handle does not replace the first
    ui_ep.tx.send(UiEvent::HwndReady(9)).unwrap();
    c.recv_ui();
    assert_eq!(c.state.hwnd, Some(7));
    assert!(hk_ep.rx.try_recv().is_err());
}

#[test]
fn toggle_flips_and_toggling_twice_restores() {
    let (_ui_ep, ui_handle) = create_ui_endpoints();
    let (hk_ep, hk_handle) = create_hotkey_endpoints();
    let (_tray_ep, tray_handle) = create_tray_endpoints();
    let (_finish_tx, finish_rx) = mpsc::channel();
    let mut c = Controller::new(ui_handle, hk_handle, tray_handle, finish_rx);
    c.state = ControllerState { hwnd: Some(5), hotkey_registered: true };

    // hidden -> shown + foregrounded
    hk_ep.tx.send(HotkeyEvent::Toggle).unwrap();
    let actions = c.recv_hotkey(false);
    assert_eq!(actions, vec![WindowAction::Show(5), WindowAction::Foreground(5)]);

    // shown -> hidden: back to the original visibility after two toggles
    hk_ep.tx.send(HotkeyEvent::Toggle).unwrap();
    let actions = c.recv_hotkey(true);
    assert_eq!(actions, vec![WindowAction::Hide(5)]);
}

#[test]
fn events_before_a_handle_are_no_ops() {
    let (_ui_ep, ui_handle) = create_ui_endpoints();
    let (hk_ep, hk_handle) = create_hotkey_endpoints();
    let (tray_ep, tray_handle) = create_tray_endpoints();
    let (_finish_tx, finish_rx) = mpsc::channel();
    let mut c = Controller::new(ui_handle, hk_handle, tray_handle, finish_rx);

    hk_ep.tx.send(HotkeyEvent::Toggle).unwrap();
    assert!(c.recv_hotkey(false).is_empty());
    tray_ep.tx.send(TrayEvent::ShowWindow).unwrap();
    assert!(c.recv_tasktray(false).is_empty());
    tray_ep.tx.send(TrayEvent::Quit).unwrap();
    assert!(c.recv_tasktray(false).is_empty());
    assert_eq!(c.state, ControllerState { hwnd: None, hotkey_registered: false });
}

#[test]
fn tray_show_only_shows_a_hidden_window() {
    let (_ui_ep, ui_handle) = create_ui_endpoints();
    let (_hk_ep, hk_handle) = create_hotkey_endpoints();
    let (tray_ep, tray_handle) = create_tray_endpoints();
    let (_finish_tx, finish_rx) = mpsc::channel();
    let mut c = Controller::new(ui_handle, hk_handle, tray_handle, finish_rx);
    c.state = ControllerState { hwnd: Some(3), hotkey_registered: false };

    tray_ep.tx.send(TrayEvent::ShowWindow).unwrap();
    let actions = c.recv_tasktray(true);
    assert!(actions.is_empty());

    tray_ep.tx.send(TrayEvent::ShowWindow).unwrap();
    let actions = c.recv_tasktray(false);
    assert_eq!(actions, vec![WindowAction::Show(3), WindowAction::Foreground(3)]);
}

#[test]
fn tray_quit_posts_a_graceful_close() {
    let (_ui_ep, ui_handle) = create_ui_endpoints();
    let (_hk_ep, hk_handle) = create_hotkey_endpoints();
    let (tray_ep, tray_handle) = create_tray_endpoints();
    let (_finish_tx, finish_rx) = mpsc::channel();
    let mut c = Controller::new(ui_handle, hk_handle, tray_handle, finish_rx);
    c.state = ControllerState { hwnd: Some(3), hotkey_registered: false };

    tray_ep.tx.send(TrayEvent::Quit).unwrap();
    let actions = c.recv_tasktray(true);
    assert_eq!(actions, vec![WindowAction::PostClose(3)]);
}

#[test]
fn registration_failure_is_recorded() {
    let (_ui_ep, ui_handle) = create_ui_endpoints();
    let (hk_ep, hk_handle) = create_hotkey_endpoints();
    let (_tray_ep, tray_handle) = create_tray_endpoints();
    let (_finish_tx, finish_rx) = mpsc::channel();
    let mut c = Controller::new(ui_handle, hk_handle, tray_handle, finish_rx);

    hk_ep.tx.send(HotkeyEvent::RegisterResult(false)).unwrap();
    let actions = c.recv_hotkey(false);
    assert!(actions.is_empty());
    assert!(!c.state.hotkey_registered);
}
